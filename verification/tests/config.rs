use transcoder::config::Config;
use transcoder::format::MediaFormat;

fn args(list: &[&str]) -> Vec<String> {
    list.iter().map(|s| String::from(*s)).collect()
}

#[test]
fn config_takes_input_and_output_from_the_arguments() {
    let config = Config::new(&args(&["transcoder", "sample.mov", "out.mp4"])).unwrap();
    assert_eq!(config.input, "sample.mov");
    assert_eq!(config.output, "out.mp4");
    assert_eq!(config.output_format, MediaFormat::MP4);
}

#[test]
fn config_resolves_the_output_format() {
    let mkv = Config::new(&args(&["t", "in.mp4", "out.mkv"])).unwrap();
    assert_eq!(mkv.output_format, MediaFormat::MKV);
    let unknown = Config::new(&args(&["t", "in.mp4", "out.xyz"])).unwrap();
    assert_eq!(unknown.output_format, MediaFormat::Unknown);
}

#[test]
fn config_does_not_look_at_the_input_name() {
    let config = Config::new(&args(&["t", "no-extension", "out.mp4"])).unwrap();
    assert_eq!(config.input, "no-extension");
    assert_eq!(config.output_format, MediaFormat::MP4);
}

#[test]
fn config_ignores_further_arguments() {
    let config = Config::new(&args(&["t", "in.mov", "out.mkv", "extra.mp4", "more"])).unwrap();
    assert_eq!(config.input, "in.mov");
    assert_eq!(config.output, "out.mkv");
    assert_eq!(config.output_format, MediaFormat::MKV);
}

#[test]
fn config_needs_an_input_and_an_output() {
    let expected = Err("expected an input path and an output path");
    assert_eq!(Config::new(&args(&[])), expected);
    assert_eq!(Config::new(&args(&["t"])), expected);
    assert_eq!(Config::new(&args(&["t", "in.mov"])), expected);
}

#[test]
fn config_needs_an_extension_on_the_output() {
    assert_eq!(
        Config::new(&args(&["t", "in.mov", "out"])),
        Err("the output path has no extension")
    );
    assert_eq!(
        Config::new(&args(&["t", "in.mov", ""])),
        Err("the output path has no extension")
    );
}
