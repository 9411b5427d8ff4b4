//! Container formats, told apart by file extension.

use crate::text::{
    contains_seq, is_text, last_index_of, lowercased, str_to_lowercase, to_chars,
};
use vstd::prelude::*;

verus! {

/// Supported audio formats, video containers with an audio track included.
#[derive(Clone, Copy, Debug, PartialEq, Eq, Structural)]
pub enum AudioFormat {
    Wav,
    Mp3,
    M4a,
    Ogg,
    Video,
    Unsupported,
}

/// How a file of a given format is turned into samples.
#[derive(Clone, Copy, Debug, PartialEq, Eq, Structural)]
pub enum DecodeRoute {
    /// Fixed-width WAV reader.
    Wav,
    /// General streaming demuxer and decoder for compressed audio.
    Demuxer,
    /// External transcoder process, for video containers.
    Transcoder,
}

/// Whether a lower-case extension is one of a video container.
pub open spec fn is_video_extension(ext: Seq<char>) -> bool {
    ext == "mp4"@ || ext == "mov"@ || ext == "avi"@ || ext == "mkv"@ || ext == "webm"@ || ext
        == "flv"@
}

/// The format that a lower-case extension stands for.
pub open spec fn format_of_extension(ext: Seq<char>) -> AudioFormat {
    if ext == "wav"@ || ext == "wave"@ {
        AudioFormat::Wav
    } else if ext == "mp3"@ {
        AudioFormat::Mp3
    } else if ext == "m4a"@ || ext == "aac"@ {
        AudioFormat::M4a
    } else if ext == "ogg"@ || ext == "oga"@ {
        AudioFormat::Ogg
    } else if is_video_extension(ext) {
        AudioFormat::Video
    } else {
        AudioFormat::Unsupported
    }
}

/// The format of a path whose extension is `ext`: that of its lower-case form,
/// and `Unsupported` where the path has no extension.
pub open spec fn format_of_path_extension(ext: Option<Seq<char>>) -> AudioFormat {
    match ext {
        Some(e) => format_of_extension(lowercased(e)),
        None => AudioFormat::Unsupported,
    }
}

/// The path is a bare name: it holds none of the characters that part a
/// path into components on some platform.
pub open spec fn is_bare_name(path: Seq<char>) -> bool {
    !path.contains('/') && !path.contains('\\') && !path.contains(':')
}

/// The extension of a bare name: what follows its last `.`. There is none
/// where the name holds no `.`, where its only `.` is its first character,
/// and for the name `..`.
pub open spec fn bare_extension(name: Seq<char>) -> Option<Seq<char>> {
    match last_index_of(name, '.') {
        Some(i) => if i == 0 || name == ".."@ {
            None
        } else {
            Some(name.subrange(i + 1, name.len() as int))
        },
        None => None,
    }
}

/// Whether `c` parts a path into components on some platform.
pub open spec fn is_separator(c: char) -> bool {
    c == '/' || c == '\\' || c == ':'
}

/// Where the last part of a path starts: behind its last `/`, `\` or `:`.
pub open spec fn last_part_start(path: Seq<char>) -> int
    decreases path.len(),
{
    if path.len() == 0 {
        0
    } else if is_separator(path.last()) {
        path.len() as int
    } else {
        last_part_start(path.drop_last())
    }
}

/// The last part of a path: what follows its last `/`, `\` or `:`, or the
/// whole path where it holds none of them.
pub open spec fn last_part(path: Seq<char>) -> Seq<char> {
    path.subrange(last_part_start(path), path.len() as int)
}

/// The path starts with two of `/` and `\`. On some platforms such a path
/// names a server or a device, and what follows is no file name.
pub open spec fn is_network_form(path: Seq<char>) -> bool {
    path.len() >= 2 && (path[0] == '/' || path[0] == '\\') && (path[1] == '/' || path[1]
        == '\\')
}

/// What is known of the extension of a path. Where there is one, it holds
/// no `.` and stands in the path behind a `.`. For a bare name it is the
/// extension of that name. For a path that is not of the network form and
/// whose last part has an extension, it is that extension. For any other
/// path the platform says which component is the file's name.
pub open spec fn extension_fits(path: Seq<char>, ext: Option<Seq<char>>) -> bool {
    &&& ext matches Some(e) ==> !e.contains('.') && contains_seq(path, seq!['.'] + e)
    &&& is_bare_name(path) ==> ext == bare_extension(path)
    &&& !is_network_form(path) && bare_extension(last_part(path)) is Some ==> ext
        == bare_extension(last_part(path))
}

/// `Path::extension`, as text: what follows the last `.` of the file name,
/// the final component of the path; none where the name holds no `.`, where
/// its only `.` comes first, or where the path ends in `..`. A path without
/// `/`, `\` and `:` is its own file name on every platform. Where the last
/// part of a path holds a `.` behind its first character and is not `..`,
/// the file name ends with that part on every platform, unless the path
/// starts with two of `/` and `\`; so the extension is that of the part.
/// Of other paths only what holds whichever component is final is said.
#[verifier::external_body]
fn path_extension(path: &str) -> (r: Option<String>)
    ensures
        extension_fits(
            path@,
            match r {
                Some(e) => Some(e@),
                None => None,
            },
        ),
{
    std::path::Path::new(path).extension().and_then(|e| e.to_str()).map(|e| e.to_string())
}

/// Whether an extension is, in lower case, that of a video container.
pub open spec fn video_by_extension(ext: Option<Seq<char>>) -> bool {
    match ext {
        Some(e) => is_video_extension(lowercased(e)),
        None => false,
    }
}

fn video_extension(ext: &Vec<char>) -> (r: bool)
    ensures
        r == is_video_extension(ext@),
{
    is_text(ext, "mp4") || is_text(ext, "mov") || is_text(ext, "avi") || is_text(ext, "mkv")
        || is_text(ext, "webm") || is_text(ext, "flv")
}

impl AudioFormat {
    /// The format for an extension already in lower case.
    pub fn from_extension(ext: &str) -> (r: AudioFormat)
        ensures
            r == format_of_extension(ext@),
    {
        let e = to_chars(ext);
        if is_text(&e, "wav") || is_text(&e, "wave") {
            AudioFormat::Wav
        } else if is_text(&e, "mp3") {
            AudioFormat::Mp3
        } else if is_text(&e, "m4a") || is_text(&e, "aac") {
            AudioFormat::M4a
        } else if is_text(&e, "ogg") || is_text(&e, "oga") {
            AudioFormat::Ogg
        } else if video_extension(&e) {
            AudioFormat::Video
        } else {
            AudioFormat::Unsupported
        }
    }

    /// The format for what `Path::extension` gave for a path.
    pub fn from_path_extension(ext: Option<&str>) -> (r: AudioFormat)
        ensures
            r == format_of_path_extension(
                match ext {
                    Some(e) => Some(e@),
                    None => None,
                },
            ),
    {
        match ext {
            Some(e) => {
                let lower = str_to_lowercase(e);
                AudioFormat::from_extension(lower.as_str())
            },
            None => AudioFormat::Unsupported,
        }
    }

    /// The format of the file at `path`, by its extension, whatever its case:
    /// that of `from_path_extension` for the extension that `Path::extension`
    /// finds. A path without extension is `Unsupported`.
    pub fn from_path(path: &str) -> (r: AudioFormat)
        ensures
            exists|ext: Option<Seq<char>>|
                #[trigger] extension_fits(path@, ext) && r == format_of_path_extension(ext),
    {
        match path_extension(path) {
            Some(e) => {
                let r = AudioFormat::from_path_extension(Some(e.as_str()));
                assert(extension_fits(path@, Some(e@)) && r == format_of_path_extension(
                    Some(e@),
                ));
                r
            },
            None => {
                let r = AudioFormat::from_path_extension(None);
                assert(extension_fits(path@, None) && r == format_of_path_extension(None));
                r
            },
        }
    }

    /// The decoder that handles this format; `None` for `Unsupported`.
    pub fn route(self) -> (r: Option<DecodeRoute>)
        ensures
            r == match self {
                AudioFormat::Wav => Some(DecodeRoute::Wav),
                AudioFormat::Mp3 | AudioFormat::M4a | AudioFormat::Ogg => Some(
                    DecodeRoute::Demuxer,
                ),
                AudioFormat::Video => Some(DecodeRoute::Transcoder),
                AudioFormat::Unsupported => None,
            },
    {
        match self {
            AudioFormat::Wav => Some(DecodeRoute::Wav),
            AudioFormat::Mp3 | AudioFormat::M4a | AudioFormat::Ogg => Some(DecodeRoute::Demuxer),
            AudioFormat::Video => Some(DecodeRoute::Transcoder),
            AudioFormat::Unsupported => None,
        }
    }
}

/// Whether what `Path::extension` gave is, in lower case, a video extension.
pub fn is_video_extension_of(ext: Option<&str>) -> (r: bool)
    ensures
        r == video_by_extension(
            match ext {
                Some(e) => Some(e@),
                None => None,
            },
        ),
{
    match ext {
        Some(e) => {
            let lower = str_to_lowercase(e);
            let chars = to_chars(lower.as_str());
            video_extension(&chars)
        },
        None => false,
    }
}

/// Whether the file at `path` is a video container, by its extension:
/// what `is_video_extension_of` says of the extension that `Path::extension`
/// finds. For a bare name that is the extension of the name.
pub fn is_video_file(path: &str) -> (r: bool)
    ensures
        exists|ext: Option<Seq<char>>|
            #[trigger] extension_fits(path@, ext) && r == video_by_extension(ext),
{
    match path_extension(path) {
        Some(e) => {
            let r = is_video_extension_of(Some(e.as_str()));
            assert(extension_fits(path@, Some(e@)) && r == video_by_extension(Some(e@)));
            r
        },
        None => {
            let r = is_video_extension_of(None);
            assert(extension_fits(path@, None) && r == video_by_extension(None));
            r
        },
    }
}

} // verus!
