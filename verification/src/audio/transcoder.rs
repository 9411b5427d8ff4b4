//! The external transcoder that extracts the audio of video containers: how
//! it is found, how it is called, and what its outcome means.

use crate::audio::decode::DecodeError;
use crate::audio::pcm::{pcm_s16le_normalized, pcm_s16le_to_normalized, Ratio};
use crate::text::{copy_str, from_chars, last_line, last_line_of, to_chars, trim, trimmed};
use vstd::prelude::*;

verus! {

/// The texts of a list of strings.
pub open spec fn texts(v: Seq<String>) -> Seq<Seq<char>> {
    Seq::new(v.len(), |i: int| v[i]@)
}

/// The arguments that make the transcoder read `path`, drop the video, and
/// write raw signed 16-bit little-endian mono PCM at 16 kHz to its standard
/// output.
pub open spec fn transcoder_argument_texts(path: Seq<char>) -> Seq<Seq<char>> {
    seq![
        "-i"@,
        path,
        "-vn"@,
        "-f"@,
        "s16le"@,
        "-acodec"@,
        "pcm_s16le"@,
        "-ar"@,
        "16000"@,
        "-ac"@,
        "1"@,
        "-"@,
    ]
}

/// The arguments for extracting the audio of the file at `path`.
pub fn transcoder_arguments(path: &str) -> (r: Vec<String>)
    ensures
        texts(r@) == transcoder_argument_texts(path@),
{
    let mut args: Vec<String> = Vec::new();
    args.push(copy_str("-i"));
    args.push(copy_str(path));
    args.push(copy_str("-vn"));
    args.push(copy_str("-f"));
    args.push(copy_str("s16le"));
    args.push(copy_str("-acodec"));
    args.push(copy_str("pcm_s16le"));
    args.push(copy_str("-ar"));
    args.push(copy_str("16000"));
    args.push(copy_str("-ac"));
    args.push(copy_str("1"));
    args.push(copy_str("-"));
    assert(texts(args@) =~= transcoder_argument_texts(path@));
    args
}

/// Where the transcoder is commonly installed, in the order in which the
/// places are tried.
pub open spec fn common_transcoder_path_texts() -> Seq<Seq<char>> {
    seq!["/opt/homebrew/bin/ffmpeg"@, "/usr/local/bin/ffmpeg"@, "/usr/bin/ffmpeg"@]
}

/// Where the transcoder is commonly installed.
pub fn common_transcoder_paths() -> (r: Vec<String>)
    ensures
        texts(r@) == common_transcoder_path_texts(),
{
    let mut paths: Vec<String> = Vec::new();
    paths.push(copy_str("/opt/homebrew/bin/ffmpeg"));
    paths.push(copy_str("/usr/local/bin/ffmpeg"));
    paths.push(copy_str("/usr/bin/ffmpeg"));
    assert(texts(paths@) =~= common_transcoder_path_texts());
    paths
}

/// Which of the common places exist, in the order in which they are tried.
#[derive(Clone, Copy, Debug, PartialEq, Eq, Structural)]
pub struct CommonPlaces {
    pub homebrew: bool,
    pub usr_local: bool,
    pub usr: bool,
}

/// Where the transcoder is. `lookup` is what looking it up on the search
/// path printed, where that succeeded; `places` says of each common place
/// whether a file is there.
pub open spec fn located_transcoder(lookup: Option<Seq<char>>, places: CommonPlaces) -> Option<
    Seq<char>,
> {
    if lookup is Some && trimmed(lookup->0).len() > 0 {
        Some(trimmed(lookup->0))
    } else if places.homebrew {
        Some(common_transcoder_path_texts()[0])
    } else if places.usr_local {
        Some(common_transcoder_path_texts()[1])
    } else if places.usr {
        Some(common_transcoder_path_texts()[2])
    } else {
        None
    }
}

/// Picks the transcoder: the looked-up path, trimmed, where the lookup
/// succeeded and printed one; else the first common place that exists; else
/// the error that says how to install it.
pub fn locate_transcoder(lookup: Option<&str>, places: CommonPlaces) -> (r: Result<
    String,
    DecodeError,
>)
    ensures
        match r {
            Ok(path) => located_transcoder(
                match lookup {
                    Some(l) => Some(l@),
                    None => None,
                },
                places,
            ) == Some(path@),
            Err(e) => e == DecodeError::TranscoderNotFound && located_transcoder(
                match lookup {
                    Some(l) => Some(l@),
                    None => None,
                },
                places,
            ) is None,
        },
{
    match lookup {
        Some(l) => {
            let chars = to_chars(l);
            let path = trim(&chars);
            if path.len() > 0 {
                return Ok(from_chars(&path));
            }
        },
        None => {},
    }
    let paths = common_transcoder_paths();
    assert(texts(paths@).len() == 3);
    assert(paths@.len() == 3);
    assert(texts(paths@)[0] == paths@[0]@);
    assert(texts(paths@)[1] == paths@[1]@);
    assert(texts(paths@)[2] == paths@[2]@);
    if places.homebrew {
        Ok(paths[0].clone())
    } else if places.usr_local {
        Ok(paths[1].clone())
    } else if places.usr {
        Ok(paths[2].clone())
    } else {
        Err(DecodeError::TranscoderNotFound)
    }
}

/// Why a failed transcoder run failed: the last line of what it wrote to its
/// standard error.
pub open spec fn transcoder_failure_text(stderr: Seq<char>) -> Seq<char> {
    match last_line_of(stderr) {
        Some(line) => line,
        None => "Unknown error"@,
    }
}

/// Reads the outcome of a transcoder run. A run that failed is an error that
/// carries the last line of its standard error; a run that wrote less than
/// one sample is an error too; else the output is parsed as 16-bit
/// little-endian PCM and normalised.
pub fn transcoder_output(success: bool, stdout: &Vec<u8>, stderr: &str) -> (r: Result<
    Vec<Ratio>,
    DecodeError,
>)
    ensures
        match r {
            Ok(samples) => success && stdout.len() >= 2 && samples@.len() >= 1 && samples@
                == pcm_s16le_normalized(stdout@),
            Err(DecodeError::TranscoderFailed(why)) => !success && why@
                == transcoder_failure_text(stderr@),
            Err(DecodeError::TranscoderSilent) => success && stdout.len() < 2,
            Err(_) => false,
        },
        r matches Ok(samples) ==> forall|i: int|
            0 <= i < samples@.len() ==> (#[trigger] samples@[i]).in_unit_range(),
{
    if !success {
        let chars = to_chars(stderr);
        let why = match last_line(&chars) {
            Some(line) => from_chars(&line),
            None => copy_str("Unknown error"),
        };
        return Err(DecodeError::TranscoderFailed(why));
    }
    if stdout.len() < 2 {
        return Err(DecodeError::TranscoderSilent);
    }
    Ok(pcm_s16le_to_normalized(stdout))
}

} // verus!
