//! What one run is asked to do.

use vstd::prelude::*;
use crate::format::{has_extension, MediaFormat};

verus! {

/// The input, the output and the container that the output's name asks for.
#[derive(Debug, PartialEq, Eq)]
pub struct Config {
    pub input: String,
    pub output: String,
    pub output_format: MediaFormat,
}

/// What is wrong with an argument list, if anything: it must hold the
/// program's name, the input and the output, and the output needs a `.`
/// for its extension.
pub open spec fn usage_error(args: Seq<String>) -> Option<Seq<char>> {
    if args.len() < 3 {
        Some("expected an input path and an output path"@)
    } else if !has_extension(args[2]@) {
        Some("the output path has no extension"@)
    } else {
        None
    }
}

impl Config {
    /// Reads the configuration off the command line: `args[1]` is the input,
    /// `args[2]` the output. Further arguments are not looked at.
    pub fn new(args: &[String]) -> (config: Result<Config, &'static str>)
        ensures
            match config {
                Ok(c) => {
                    &&& usage_error(args@) is None
                    &&& c.input@ == args@[1]@
                    &&& c.output@ == args@[2]@
                    &&& c.output_format == MediaFormat::of_path(args@[2]@)
                },
                Err(message) => usage_error(args@) == Some(message@),
            },
    {
        if args.len() < 3 {
            return Err("expected an input path and an output path");
        }
        match MediaFormat::resolve(args[2].as_str()) {
            Some(output_format) => Ok(
                Config { input: args[1].clone(), output: args[2].clone(), output_format },
            ),
            None => Err("the output path has no extension"),
        }
    }
}

} // verus!
