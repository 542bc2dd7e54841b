//! The encoding profile: which container and codecs the output is made of.
//!
//! What a format is written with is read off a policy table, one row for
//! each format. The standard table gives every format the same codecs and
//! a container of its own.

use vstd::prelude::*;
use vstd::string::*;
use crate::config::Config;
use crate::format::MediaFormat;

verus! {

/// The two kinds of elementary stream that get encoded.
#[derive(Clone, Copy, Debug, PartialEq, Eq, Structural)]
pub enum StreamKind {
    Video,
    Audio,
}

/// One row of a policy table: a format, and the capability-set expressions
/// of the container and of the codecs that it is written with.
#[derive(Clone, Copy, Debug, PartialEq, Eq)]
pub struct FormatPolicy {
    pub format: MediaFormat,
    pub container: &'static str,
    pub video: &'static str,
    pub audio: &'static str,
}

/// The target of one elementary stream.
#[derive(Debug, PartialEq, Eq)]
pub struct StreamProfile {
    pub kind: StreamKind,
    pub caps: String,
    /// How many streams of this kind the output must hold; 0 for any number.
    pub presence: u32,
}

/// A container descriptor and the stream descriptors it owns, in order.
#[derive(Debug, PartialEq, Eq)]
pub struct EncodingProfile {
    pub name: String,
    pub container: String,
    pub streams: Vec<StreamProfile>,
}

/// What a row of a policy table is, as mathematics.
pub struct PolicyModel {
    pub format: MediaFormat,
    pub container: Seq<char>,
    pub video: Seq<char>,
    pub audio: Seq<char>,
}

/// What a stream descriptor is, as mathematics.
pub struct StreamModel {
    pub kind: StreamKind,
    pub caps: Seq<char>,
    pub presence: nat,
}

/// What an encoding profile is, as mathematics.
pub struct ProfileModel {
    pub name: Seq<char>,
    pub container: Seq<char>,
    pub streams: Seq<StreamModel>,
}

impl View for FormatPolicy {
    type V = PolicyModel;

    open spec fn view(&self) -> PolicyModel {
        PolicyModel {
            format: self.format,
            container: self.container@,
            video: self.video@,
            audio: self.audio@,
        }
    }
}

impl View for StreamProfile {
    type V = StreamModel;

    open spec fn view(&self) -> StreamModel {
        StreamModel { kind: self.kind, caps: self.caps@, presence: self.presence as nat }
    }
}

impl View for EncodingProfile {
    type V = ProfileModel;

    open spec fn view(&self) -> ProfileModel {
        ProfileModel {
            name: self.name@,
            container: self.container@,
            streams: Seq::new(self.streams@.len(), |i: int| self.streams@[i]@),
        }
    }
}

/// The container descriptor of each format. An unknown format has the empty
/// descriptor: it is carried through, and no container can be made from it.
pub open spec fn container_caps(format: MediaFormat) -> Seq<char> {
    match format {
        MediaFormat::MP4 => "video/quicktime, variant=(string)iso"@,
        MediaFormat::MKV => "video/x-matroska"@,
        MediaFormat::Unknown => ""@,
    }
}

/// The video codec descriptor of each format: the same for all of them.
pub open spec fn video_caps(format: MediaFormat) -> Seq<char> {
    "video/x-h264"@
}

/// The audio codec descriptor of each format: the same for all of them.
pub open spec fn audio_caps(format: MediaFormat) -> Seq<char> {
    "audio/mpeg, mpegversion=(int)4"@
}

/// The standard row of each format.
pub open spec fn policy_of(format: MediaFormat) -> PolicyModel {
    PolicyModel {
        format,
        container: container_caps(format),
        video: video_caps(format),
        audio: audio_caps(format),
    }
}

/// The profile that a row asks for: the container, then one video and one
/// audio stream, neither with a fixed count.
pub open spec fn profile_from(row: PolicyModel) -> ProfileModel {
    ProfileModel {
        name: "container"@,
        container: row.container,
        streams: seq![
            StreamModel { kind: StreamKind::Video, caps: row.video, presence: 0 },
            StreamModel { kind: StreamKind::Audio, caps: row.audio, presence: 0 },
        ],
    }
}

/// The standard profile of each format.
pub open spec fn profile_of(format: MediaFormat) -> ProfileModel {
    profile_from(policy_of(format))
}

/// Whether row `i` is the row that `table` holds for `format`: the first
/// one of that format.
pub open spec fn is_row_for(table: Seq<FormatPolicy>, format: MediaFormat, i: int) -> bool {
    &&& 0 <= i < table.len()
    &&& table[i].format == format
    &&& forall|j: int| 0 <= j < i ==> table[j].format != format
}

/// Whether `table` holds a row for `format`.
pub open spec fn covers(table: Seq<FormatPolicy>, format: MediaFormat) -> bool {
    exists|i: int| 0 <= i < table.len() && #[trigger] table[i].format == format
}

/// Whether the row that `table` holds for `format` is the standard one.
pub open spec fn holds_standard_row(table: Seq<FormatPolicy>, format: MediaFormat) -> bool {
    exists|i: int| #[trigger] is_row_for(table, format, i) && table[i]@ == policy_of(format)
}

/// The standard policy table: one row for every format, the standard one.
pub fn standard_policy() -> (table: Vec<FormatPolicy>)
    ensures
        table@.len() == 3,
        table@[0]@ == policy_of(MediaFormat::MP4),
        table@[1]@ == policy_of(MediaFormat::MKV),
        table@[2]@ == policy_of(MediaFormat::Unknown),
        forall|format: MediaFormat| #[trigger] holds_standard_row(table@, format),
{
    let mut table: Vec<FormatPolicy> = Vec::new();
    table.push(
        FormatPolicy {
            format: MediaFormat::MP4,
            container: "video/quicktime, variant=(string)iso",
            video: "video/x-h264",
            audio: "audio/mpeg, mpegversion=(int)4",
        },
    );
    table.push(
        FormatPolicy {
            format: MediaFormat::MKV,
            container: "video/x-matroska",
            video: "video/x-h264",
            audio: "audio/mpeg, mpegversion=(int)4",
        },
    );
    table.push(
        FormatPolicy {
            format: MediaFormat::Unknown,
            container: "",
            video: "video/x-h264",
            audio: "audio/mpeg, mpegversion=(int)4",
        },
    );
    proof {
        assert forall|format: MediaFormat| #[trigger] holds_standard_row(table@, format) by {
            let i: int = match format {
                MediaFormat::MP4 => 0,
                MediaFormat::MKV => 1,
                MediaFormat::Unknown => 2,
            };
            assert(is_row_for(table@, format, i) && table@[i]@ == policy_of(format));
        }
    }
    table
}

/// Looks a format up in a policy table: the first row of that format, if
/// the table holds one.
pub fn lookup(table: &[FormatPolicy], format: &MediaFormat) -> (found: Option<FormatPolicy>)
    ensures
        match found {
            Some(row) => exists|i: int| #[trigger]
                is_row_for(table@, *format, i) && table@[i] == row,
            None => !covers(table@, *format),
        },
{
    let mut i: usize = 0;
    while i < table.len()
        invariant
            i <= table@.len(),
            forall|j: int| 0 <= j < i ==> (#[trigger] table@[j]).format != *format,
        decreases table@.len() - i,
    {
        if table[i].format == *format {
            assert(is_row_for(table@, *format, i as int));
            return Some(table[i]);
        }
        i = i + 1;
    }
    None
}

/// Looks a format up in the standard policy table.
pub fn policy_for(format: &MediaFormat) -> (row: FormatPolicy)
    ensures
        row@ == policy_of(*format),
{
    let table = standard_policy();
    let found = lookup(table.as_slice(), format);
    proof {
        assert(holds_standard_row(table@, *format));
        let standard = choose|i: int| #[trigger]
            is_row_for(table@, *format, i) && table@[i]@ == policy_of(*format);
        assert(table@[standard].format == *format);
        if let Some(row) = found {
            let first = choose|i: int| #[trigger]
                is_row_for(table@, *format, i) && table@[i] == row;
            assert(first == standard);
        }
    }
    found.unwrap()
}

/// The container descriptor that `format` is written with.
pub fn create_container_caps(format: &MediaFormat) -> (caps: String)
    ensures
        caps@ == container_caps(*format),
{
    String::from_str(policy_for(format).container)
}

/// The video codec descriptor that `format` is written with.
pub fn create_video_caps(format: &MediaFormat) -> (caps: String)
    ensures
        caps@ == video_caps(*format),
{
    String::from_str(policy_for(format).video)
}

/// The audio codec descriptor that `format` is written with.
pub fn create_audio_caps(format: &MediaFormat) -> (caps: String)
    ensures
        caps@ == audio_caps(*format),
{
    String::from_str(policy_for(format).audio)
}

/// Builds the profile that a row of a policy table asks for.
pub fn profile_from_row(row: &FormatPolicy) -> (profile: EncodingProfile)
    ensures
        profile@ == profile_from(row@),
{
    let mut streams: Vec<StreamProfile> = Vec::new();
    streams.push(
        StreamProfile { kind: StreamKind::Video, caps: String::from_str(row.video), presence: 0 },
    );
    streams.push(
        StreamProfile { kind: StreamKind::Audio, caps: String::from_str(row.audio), presence: 0 },
    );
    let profile = EncodingProfile {
        name: String::from_str("container"),
        container: String::from_str(row.container),
        streams,
    };
    assert(profile@.streams =~= profile_from(row@).streams);
    profile
}

/// Builds the profile of a format by a policy table of the caller's, where
/// the table holds a row for the format.
pub fn build_profile_by(table: &[FormatPolicy], format: &MediaFormat) -> (profile: Option<
    EncodingProfile,
>)
    ensures
        match profile {
            Some(profile) => exists|i: int| #[trigger]
                is_row_for(table@, *format, i) && profile@ == profile_from(table@[i]@),
            None => !covers(table@, *format),
        },
{
    match lookup(table, format) {
        Some(row) => {
            let profile = profile_from_row(&row);
            proof {
                let i = choose|i: int| #[trigger]
                    is_row_for(table@, *format, i) && table@[i] == row;
                assert(is_row_for(table@, *format, i) && profile@ == profile_from(table@[i]@));
            }
            Some(profile)
        },
        None => None,
    }
}

/// Builds the standard profile of a format. Every format has one, `Unknown`
/// too: its container descriptor is empty.
pub fn build_profile(format: &MediaFormat) -> (profile: EncodingProfile)
    ensures
        profile@ == profile_of(*format),
{
    profile_from_row(&policy_for(format))
}

/// Builds the profile that a configuration's output format asks for.
pub fn create_encoding_profile(config: &Config) -> (profile: EncodingProfile)
    ensures
        profile@ == profile_of(config.output_format),
{
    build_profile(&config.output_format)
}

/// Two profiles built for one format hold the same container, video and
/// audio descriptors.
pub proof fn build_profile_is_deterministic(
    format: MediaFormat,
    first: EncodingProfile,
    second: EncodingProfile,
)
    requires
        first@ == profile_of(format),
        second@ == profile_of(format),
    ensures
        first@.container == second@.container,
        first@.streams == second@.streams,
        first@ == second@,
{
}

/// A table holds at most one row for a format: two profiles built for one
/// format by one table are the same.
pub proof fn build_profile_by_is_deterministic(
    table: Seq<FormatPolicy>,
    format: MediaFormat,
    i: int,
    j: int,
)
    requires
        is_row_for(table, format, i),
        is_row_for(table, format, j),
    ensures
        i == j,
        profile_from(table[i]@) == profile_from(table[j]@),
{
}

/// In the standard table only the container varies with the format: the
/// stream descriptors of any two formats are the same.
pub proof fn codecs_do_not_vary(first: MediaFormat, second: MediaFormat)
    ensures
        profile_of(first).streams == profile_of(second).streams,
        profile_of(first).name == profile_of(second).name,
{
}

} // verus!
