//! Audio source descriptions: category, playback status, and the
//! validation an audio source goes through before the host's audio
//! backend ever sees it.
//!
//! Whether the file exists on disk is reported by the caller; the format
//! check — the path must carry one of the supported extensions,
//! case-insensitively — is verified character by character.

use vstd::prelude::*;

verus! {

/// Audio category (music, sound effects, etc.).
#[derive(Clone, Copy, PartialEq, Eq, Structural, Hash, Debug)]
pub enum AudioCategory {
    Music,
    SoundEffect,
    Ambient,
    Voice,
}

/// Playback status of an active audio source.
#[derive(Clone, Copy, PartialEq, Eq, Structural, Debug)]
pub enum PlaybackStatus {
    Playing,
    Paused,
    Stopped,
}

/// Why an audio source was rejected.
#[derive(Clone, Copy, PartialEq, Eq, Structural, Debug)]
pub enum AudioError {
    /// The file does not exist.
    FileNotFound,
    /// The path has no valid extension.
    NoExtension,
    /// The extension is not one of the supported formats.
    UnsupportedFormat,
}

/// The index of the last occurrence of `c` in `s`, if any.
pub open spec fn spec_last_index_of(s: Seq<char>, c: char) -> Option<int> {
    if exists|i: int| 0 <= i < s.len() && s[i] == c {
        Some(
            choose|i: int|
                0 <= i < s.len() && s[i] == c && forall|j: int| i < j < s.len() ==> s[j] != c,
        )
    } else {
        None
    }
}

/// The final path component: everything after the last `/`, or the whole
/// path if there is none.
pub open spec fn spec_file_name(path: Seq<char>) -> Seq<char> {
    match spec_last_index_of(path, '/') {
        Some(i) => path.subrange(i + 1, path.len() as int),
        None => path,
    }
}

/// The extension of a path: the part of the final component after its
/// last `.`; there is none if the component has no `.`, or only a
/// leading one (a hidden file).
pub open spec fn spec_extension(path: Seq<char>) -> Option<Seq<char>> {
    let name = spec_file_name(path);
    match spec_last_index_of(name, '.') {
        Some(i) => if i == 0 {
            None
        } else {
            Some(name.subrange(i + 1, name.len() as int))
        },
        None => None,
    }
}

/// Case-insensitive (ASCII) equality of one character against a
/// lowercase letter or digit.
pub open spec fn spec_ci_eq(a: char, lower: char) -> bool {
    a == lower || a == spec_ascii_upper(lower)
}

/// The ASCII uppercase form of a lowercase letter (identity otherwise).
pub open spec fn spec_ascii_upper(c: char) -> char {
    if c == 'a' {
        'A'
    } else if c == 'b' {
        'B'
    } else if c == 'c' {
        'C'
    } else if c == 'd' {
        'D'
    } else if c == 'e' {
        'E'
    } else if c == 'f' {
        'F'
    } else if c == 'g' {
        'G'
    } else if c == 'l' {
        'L'
    } else if c == 'm' {
        'M'
    } else if c == 'o' {
        'O'
    } else if c == 'p' {
        'P'
    } else if c == 'v' {
        'V'
    } else if c == 'w' {
        'W'
    } else {
        c
    }
}

/// Case-insensitive match of a sequence against a lowercase literal.
pub open spec fn spec_matches_ci(s: Seq<char>, lower: Seq<char>) -> bool {
    s.len() == lower.len() && forall|i: int| 0 <= i < s.len() ==> spec_ci_eq(s[i], #[trigger] lower[i])
}

/// The supported audio container formats, by extension
/// (case-insensitively): mp3, wav, flac and ogg.
pub open spec fn spec_is_supported_audio_ext(s: Seq<char>) -> bool {
    ||| spec_matches_ci(s, "mp3"@)
    ||| spec_matches_ci(s, "wav"@)
    ||| spec_matches_ci(s, "flac"@)
    ||| spec_matches_ci(s, "ogg"@)
}

/// Case-insensitive equality of one character against a lowercase letter
/// or digit.
fn ci_eq(a: char, lower: char) -> (r: bool)
    ensures
        r == spec_ci_eq(a, lower),
{
    if a == lower {
        true
    } else if lower == 'a' {
        a == 'A'
    } else if lower == 'b' {
        a == 'B'
    } else if lower == 'c' {
        a == 'C'
    } else if lower == 'd' {
        a == 'D'
    } else if lower == 'e' {
        a == 'E'
    } else if lower == 'f' {
        a == 'F'
    } else if lower == 'g' {
        a == 'G'
    } else if lower == 'l' {
        a == 'L'
    } else if lower == 'm' {
        a == 'M'
    } else if lower == 'o' {
        a == 'O'
    } else if lower == 'p' {
        a == 'P'
    } else if lower == 'v' {
        a == 'V'
    } else if lower == 'w' {
        a == 'W'
    } else {
        false
    }
}

/// Case-insensitive match of a string against a lowercase literal.
fn matches_ci(s: &str, lower: &str) -> (r: bool)
    ensures
        r == spec_matches_ci(s@, lower@),
{
    let n = s.unicode_len();
    if n != lower.unicode_len() {
        return false;
    }
    let mut i: usize = 0;
    while i < n
        invariant
            0 <= i <= n,
            n == s@.len(),
            n == lower@.len(),
            forall|j: int| 0 <= j < i ==> spec_ci_eq(s@[j], #[trigger] lower@[j]),
        decreases n - i,
    {
        if !ci_eq(s.get_char(i), lower.get_char(i)) {
            return false;
        }
        i += 1;
    }
    true
}

/// The index of the last occurrence of `c` in `s`, if any.
pub fn last_index_of_char(s: &str, c: char) -> (r: Option<usize>)
    ensures
        s@.len() <= usize::MAX,
        match r {
            Some(i) => spec_last_index_of(s@, c) == Some(i as int) && i < s@.len() && s@[
                i as int
            ] == c,
            None => spec_last_index_of(s@, c) is None,
        },
{
    let n = s.unicode_len();
    let mut found: Option<usize> = None;
    let mut i: usize = 0;
    while i < n
        invariant
            0 <= i <= n,
            n == s@.len(),
            match found {
                Some(f) => f < i && s@[f as int] == c && forall|j: int| f < j < i ==> s@[j] != c,
                None => forall|j: int| 0 <= j < i ==> s@[j] != c,
            },
        decreases n - i,
    {
        if s.get_char(i) == c {
            found = Some(i);
        }
        i += 1;
    }
    proof {
        if let Some(f) = found {
            let fi = f as int;
            assert(0 <= fi < s@.len() && s@[fi] == c && forall|j: int|
                fi < j < s@.len() ==> s@[j] != c);
            let k = choose|k: int|
                0 <= k < s@.len() && s@[k] == c && forall|j: int| k < j < s@.len() ==> s@[j] != c;
            if k < fi {
                assert(s@[fi] != c);
            }
            if fi < k {
                assert(s@[k] != c);
            }
        }
    }
    found
}

/// An audio source: a unique identifier, the file path, and the category
/// it plays under.
#[derive(Clone, Debug)]
pub struct AudioSource {
    /// Unique ID for the audio source.
    pub id: String,
    /// Path to the audio file.
    pub path: String,
    /// Audio category (music, sound effects, etc.).
    pub category: AudioCategory,
}

impl AudioSource {
    /// Create a new audio source. The caller reports whether the file
    /// exists on disk; a missing file, a path without a valid extension,
    /// and an unsupported format are each rejected with their own error.
    pub fn new(id: String, path: String, category: AudioCategory, file_exists: bool) -> (r: Result<
        AudioSource,
        AudioError,
    >)
        ensures
            !file_exists ==> r == Result::<AudioSource, AudioError>::Err(AudioError::FileNotFound),
            file_exists && spec_extension(path@) is None ==> r == Result::<
                AudioSource,
                AudioError,
            >::Err(AudioError::NoExtension),
            (file_exists && (spec_extension(path@) matches Some(e)
                && !spec_is_supported_audio_ext(e))) ==> r == Result::<
                AudioSource,
                AudioError,
            >::Err(AudioError::UnsupportedFormat),
            (file_exists && (spec_extension(path@) matches Some(e)
                && spec_is_supported_audio_ext(e))) ==> (r matches Ok(a) && a.id@ == id@
                && a.path@ == path@ && a.category == category),
    {
        if !file_exists {
            return Err(AudioError::FileNotFound);
        }
        let name_start: usize = match last_index_of_char(path.as_str(), '/') {
            Some(i) => i + 1,
            None => 0,
        };
        let name = path.as_str().substring_char(name_start, path.as_str().unicode_len());
        proof {
            assert(name@ =~= spec_file_name(path@));
        }
        let ext: Option<&str> = match last_index_of_char(name, '.') {
            Some(i) => if i == 0 {
                None
            } else {
                Some(name.substring_char(i + 1, name.unicode_len()))
            },
            None => None,
        };
        match ext {
            None => Err(AudioError::NoExtension),
            Some(e) => {
                proof {
                    assert(spec_extension(path@) matches Some(x) && (e@ =~= x));
                }
                if matches_ci(e, "mp3") || matches_ci(e, "wav") || matches_ci(e, "flac")
                    || matches_ci(e, "ogg") {
                    Ok(AudioSource { id, path, category })
                } else {
                    Err(AudioError::UnsupportedFormat)
                }
            },
        }
    }
}

} // verus!
