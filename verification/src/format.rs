//! From an output file name to the container it asks for.

use vstd::prelude::*;
use crate::text::{characters, find_last, tail, tail_is};

verus! {

/// Container families an output file can be written in.
#[derive(Clone, Copy, Debug, PartialEq, Eq, Structural)]
pub enum MediaFormat {
    Unknown,
    MP4,
    MKV,
}

/// Whether `path` has a `.` for an extension to follow.
pub open spec fn has_extension(path: Seq<char>) -> bool {
    path.contains('.')
}

/// The characters of `path` after its last `.`.
pub open spec fn extension_of(path: Seq<char>) -> Seq<char>
    recommends
        has_extension(path),
{
    tail(path, path.index_of_last('.').unwrap() + 1)
}

impl MediaFormat {
    /// The format that an extension stands for. The match is exact and
    /// case-sensitive; every extension outside the table is `Unknown`.
    pub open spec fn of_extension(ext: Seq<char>) -> MediaFormat {
        if ext == "mp4"@ {
            MediaFormat::MP4
        } else if ext == "mkv"@ {
            MediaFormat::MKV
        } else {
            MediaFormat::Unknown
        }
    }

    /// The format that a file name asks for.
    pub open spec fn of_path(path: Seq<char>) -> MediaFormat
        recommends
            has_extension(path),
    {
        Self::of_extension(extension_of(path))
    }

    /// Resolves an output file name to its format, by the extension after
    /// the last `.`. A name without any `.` is the caller's mistake.
    pub fn from_string(filename: &String) -> (format: MediaFormat)
        requires
            has_extension(filename@),
        ensures
            format == Self::of_path(filename@),
    {
        Self::resolve(filename.as_str()).unwrap()
    }

    /// Resolves an output file name to its format, or to `None` where the
    /// name has no `.` at all.
    pub fn resolve(filename: &str) -> (format: Option<MediaFormat>)
        ensures
            format == if has_extension(filename@) {
                Some(Self::of_path(filename@))
            } else {
                None
            },
    {
        let name = characters(filename);
        proof {
            name@.index_of_last_ensures('.');
            assert(name@.len() == name.len());
        }
        match find_last(name.as_slice(), '.') {
            Some(dot) => Some(Self::from_extension(name.as_slice(), dot + 1)),
            None => None,
        }
    }

    /// The format that the characters of `name` from `start` on stand for.
    fn from_extension(name: &[char], start: usize) -> (format: MediaFormat)
        requires
            start <= name@.len(),
        ensures
            format == Self::of_extension(tail(name@, start as int)),
    {
        if tail_is(name, start, characters("mp4").as_slice()) {
            MediaFormat::MP4
        } else if tail_is(name, start, characters("mkv").as_slice()) {
            MediaFormat::MKV
        } else {
            MediaFormat::Unknown
        }
    }
}

/// Resolution goes by how the name ends: a name with a `.` resolves to
/// `MP4` exactly if it ends in `.mp4`, to `MKV` exactly if it ends in
/// `.mkv`, and to `Unknown` in every other case.
pub proof fn resolution_goes_by_suffix(path: Seq<char>)
    requires
        has_extension(path),
    ensures
        MediaFormat::of_path(path) == MediaFormat::MP4 <==> ".mp4"@.is_suffix_of(path),
        MediaFormat::of_path(path) == MediaFormat::MKV <==> ".mkv"@.is_suffix_of(path),
        MediaFormat::of_path(path) == MediaFormat::Unknown <==> !".mp4"@.is_suffix_of(path)
            && !".mkv"@.is_suffix_of(path),
{
    reveal_strlit("mp4");
    reveal_strlit("mkv");
    reveal_strlit(".mp4");
    reveal_strlit(".mkv");
    assert("mp4"@ != "mkv"@) by {
        assert("mp4"@[1] == 'p');
        assert("mkv"@[1] == 'k');
    }
    assert(".mp4"@ =~= seq!['.'] + "mp4"@);
    assert(".mkv"@ =~= seq!['.'] + "mkv"@);
    lemma_suffix_is_extension(path, "mp4"@, ".mp4"@);
    lemma_suffix_is_extension(path, "mkv"@, ".mkv"@);
}

/// A name ends in a `.` followed by `known`, where `known` holds no `.`,
/// exactly if `known` is its extension.
proof fn lemma_suffix_is_extension(path: Seq<char>, known: Seq<char>, dotted: Seq<char>)
    requires
        has_extension(path),
        !known.contains('.'),
        dotted == seq!['.'] + known,
    ensures
        extension_of(path) == known <==> dotted.is_suffix_of(path),
{
    path.index_of_last_ensures('.');
    let dot = path.index_of_last('.').unwrap();
    let n = path.len() as int;
    let k = known.len() as int;
    if extension_of(path) == known {
        assert(n - dot - 1 == k);
        assert(dotted =~= path.subrange(n - dotted.len(), n)) by {
            assert forall|i: int| 0 <= i < dotted.len() implies dotted[i] == path.subrange(
                n - dotted.len(),
                n,
            )[i] by {
                if i > 0 {
                    assert(known[i - 1] == extension_of(path)[i - 1]);
                }
            }
        }
    }
    if dotted.is_suffix_of(path) {
        let tail = path.subrange(n - dotted.len(), n);
        assert(tail[0] == dotted[0]);
        assert(path[n - k - 1] == '.');
        if dot > n - k - 1 {
            assert(tail[dot - (n - k - 1)] == dotted[dot - (n - k - 1)]);
            assert(known[dot - (n - k - 1) - 1] == '.');
        }
        assert(dot == n - k - 1);
        assert(extension_of(path) =~= known) by {
            assert forall|i: int| 0 <= i < k implies extension_of(path)[i] == known[i] by {
                assert(tail[i + 1] == dotted[i + 1]);
            }
        }
    }
}

} // verus!
