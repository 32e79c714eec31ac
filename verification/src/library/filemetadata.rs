//! Classifying files by the extension of their path.
use vstd::prelude::*;

verus! {

/// The audio formats the tool recognises, by file extension.
#[derive(Clone, Copy, Debug, PartialEq, Eq, Structural)]
pub enum AudioFileType {
    Flac,
    M4a,
    M4p,
    Mp3,
    Mp4,
    Wav,
    Alac,
    NotAudio,
}

/// The path without its trailing slashes.
pub open spec fn spec_trim_slashes(p: Seq<char>) -> Seq<char>
    decreases p.len(),
{
    if p.len() > 0 && p.last() == '/' {
        spec_trim_slashes(p.drop_last())
    } else {
        p
    }
}

/// The position after the last slash, or zero when there is none.
pub open spec fn spec_after_last_slash(p: Seq<char>) -> int
    decreases p.len(),
{
    if p.len() == 0 {
        0
    } else if p.last() == '/' {
        p.len() as int
    } else {
        spec_after_last_slash(p.drop_last())
    }
}

/// The file name component of a path: what follows the last slash, with
/// trailing slashes ignored; empty for a root, bare dot, or dot-dot path.
pub open spec fn spec_file_name(p: Seq<char>) -> Seq<char> {
    let t = spec_trim_slashes(p);
    let name = t.skip(spec_after_last_slash(t));
    if name == seq!['.'] || name == seq!['.', '.'] {
        seq![]
    } else {
        name
    }
}

/// The position of the last dot in a name, or minus one when none.
pub open spec fn spec_last_dot(name: Seq<char>) -> int
    decreases name.len(),
{
    if name.len() == 0 {
        -1
    } else if name.last() == '.' {
        name.len() - 1
    } else {
        spec_last_dot(name.drop_last())
    }
}

/// The extension of a path: what follows the last dot of its file name,
/// unless that dot is absent or leads the name.
pub open spec fn spec_extension(p: Seq<char>) -> Option<Seq<char>> {
    let name = spec_file_name(p);
    let d = spec_last_dot(name);
    if d <= 0 {
        None
    } else {
        Some(name.skip(d + 1))
    }
}

/// The audio format denoted by an extension; anything else is not audio.
pub open spec fn spec_type_of_extension(e: Seq<char>) -> AudioFileType {
    if e == "flac"@ {
        AudioFileType::Flac
    } else if e == "m4a"@ {
        AudioFileType::M4a
    } else if e == "m4p"@ {
        AudioFileType::M4p
    } else if e == "mp3"@ {
        AudioFileType::Mp3
    } else if e == "mp4"@ {
        AudioFileType::Mp4
    } else if e == "wav"@ {
        AudioFileType::Wav
    } else if e == "alac"@ {
        AudioFileType::Alac
    } else {
        AudioFileType::NotAudio
    }
}

/// The audio format of a path: directories are never audio, files are
/// classified by extension.
pub open spec fn spec_audio_file_type(p: Seq<char>, is_dir: bool) -> AudioFileType {
    if is_dir {
        AudioFileType::NotAudio
    } else {
        match spec_extension(p) {
            Some(e) => spec_type_of_extension(e),
            None => AudioFileType::NotAudio,
        }
    }
}

/// What the library knows about a file on disk.
pub struct FileMetadata {
    pub ftype: AudioFileType,
}

#[verifier::loop_isolation(false)]
fn trim_slashes(v: &Vec<char>) -> (r: usize)
    ensures
        v@.take(r as int) == spec_trim_slashes(v@),
        r <= v@.len(),
{
    let mut r = v.len();
    proof {
        assert(v@.take(v@.len() as int) =~= v@);
    }
    while r > 0 && v[r - 1] == '/'
        invariant
            0 <= r <= v@.len(),
            spec_trim_slashes(v@.take(r as int)) == spec_trim_slashes(v@),
        decreases r,
    {
        proof {
            assert(v@.take(r as int).drop_last() =~= v@.take(r - 1));
        }
        r -= 1;
    }
    proof {
        assert(v@.take(v@.len() as int) =~= v@);
        if r > 0 {
            assert(v@.take(r as int).last() != '/');
        }
    }
    r
}

#[verifier::loop_isolation(false)]
fn after_last_slash(v: &Vec<char>, end: usize) -> (r: usize)
    requires
        end <= v@.len(),
    ensures
        r as int == spec_after_last_slash(v@.take(end as int)),
        r <= end,
    decreases end,
{
    if end == 0 {
        0
    } else if v[end - 1] == '/' {
        end
    } else {
        proof {
            assert(v@.take(end as int).drop_last() =~= v@.take(end - 1));
        }
        after_last_slash(v, end - 1)
    }
}

#[verifier::loop_isolation(false)]
fn last_dot(v: &Vec<char>, start: usize, end: usize) -> (r: Option<usize>)
    requires
        start <= end <= v@.len(),
    ensures
        ({
            let d = spec_last_dot(v@.subrange(start as int, end as int));
            match r {
                Some(p) => start <= p < end && d == p - start,
                None => d == -1,
            }
        }),
    decreases end - start,
{
    if end == start {
        None
    } else if v[end - 1] == '.' {
        proof {
            assert(v@.subrange(start as int, end as int).last() == '.');
        }
        Some(end - 1)
    } else {
        proof {
            assert(v@.subrange(start as int, end as int).drop_last() =~= v@.subrange(
                start as int,
                end - 1,
            ));
        }
        last_dot(v, start, end - 1)
    }
}

/// Whether `v[start..end]` spells exactly the word `w`.
#[verifier::loop_isolation(false)]
fn range_is(v: &Vec<char>, start: usize, end: usize, w: &str) -> (r: bool)
    requires
        start <= end <= v@.len(),
    ensures
        r == (v@.subrange(start as int, end as int) == w@),
{
    let wv = crate::types::chars_of(w);
    if end - start != wv.len() {
        return false;
    }
    let mut i: usize = 0;
    while i < wv.len()
        invariant
            0 <= i <= wv.len(),
            end - start == wv.len(),
            wv@ == w@,
            forall|k: int| 0 <= k < i ==> v@[start + k] == w@[k],
        decreases wv.len() - i,
    {
        if v[start + i] != wv[i] {
            proof {
                assert(v@.subrange(start as int, end as int)[i as int] != w@[i as int]);
            }
            return false;
        }
        i += 1;
    }
    proof {
        assert(v@.subrange(start as int, end as int) =~= w@);
    }
    true
}

fn audio_type_of(path: &str, is_dir: bool) -> (r: AudioFileType)
    ensures
        r == spec_audio_file_type(path@, is_dir),
{
    if is_dir {
        return AudioFileType::NotAudio;
    }
    let v = crate::types::chars_of(path);
    let t = trim_slashes(&v);
    let start = after_last_slash(&v, t);
    let ghost name0 = spec_trim_slashes(path@).skip(spec_after_last_slash(spec_trim_slashes(
        path@,
    )));
    proof {
        assert(name0 =~= v@.subrange(start as int, t as int));
    }
    // a bare dot or dot-dot component has no name, hence no extension
    let dotted = (t - start == 1 && v[start] == '.') || (t - start == 2 && v[start] == '.' && v[
        start + 1] == '.');
    if dotted {
        proof {
            if t - start == 1 {
                assert(name0 =~= seq!['.']);
            } else {
                assert(name0 =~= seq!['.', '.']);
            }
        }
        return AudioFileType::NotAudio;
    }
    proof {
        assert(name0.len() == t - start);
        if name0 == seq!['.'] {
            assert(name0[0] == '.');
            assert(v@[start as int] == '.');
            assert(false);
        }
        if name0 == seq!['.', '.'] {
            assert(name0[0] == '.' && name0[1] == '.');
            assert(v@[start as int] == '.' && v@[start + 1] == '.');
            assert(false);
        }
        assert(spec_file_name(path@) == name0);
    }
    match last_dot(&v, start, t) {
        None => AudioFileType::NotAudio,
        Some(p) => {
            if p == start {
                return AudioFileType::NotAudio;
            }
            let ghost ext = spec_extension(path@)->0;
            proof {
                assert(spec_last_dot(name0) == p - start);
                assert(ext =~= v@.subrange(p + 1, t as int));
            }
            if range_is(&v, p + 1, t, "flac") {
                AudioFileType::Flac
            } else if range_is(&v, p + 1, t, "m4a") {
                AudioFileType::M4a
            } else if range_is(&v, p + 1, t, "m4p") {
                AudioFileType::M4p
            } else if range_is(&v, p + 1, t, "mp3") {
                AudioFileType::Mp3
            } else if range_is(&v, p + 1, t, "mp4") {
                AudioFileType::Mp4
            } else if range_is(&v, p + 1, t, "wav") {
                AudioFileType::Wav
            } else if range_is(&v, p + 1, t, "alac") {
                AudioFileType::Alac
            } else {
                AudioFileType::NotAudio
            }
        },
    }
}

impl FileMetadata {
    fn audio_file_type(path: &str, is_dir: bool) -> (r: AudioFileType)
        ensures
            r == spec_audio_file_type(path@, is_dir),
    {
        audio_type_of(path, is_dir)
    }

    /// Classify a path; the caller says whether it names a directory.
    pub fn from_path(path: &str, is_dir: bool) -> (r: FileMetadata)
        ensures
            r.ftype == spec_audio_file_type(path@, is_dir),
    {
        FileMetadata { ftype: Self::audio_file_type(path, is_dir) }
    }

    /// Whether the path names a recognised audio file.
    pub fn is_audio_file(path: &str, is_dir: bool) -> (r: bool)
        ensures
            r == (spec_audio_file_type(path@, is_dir) != AudioFileType::NotAudio),
    {
        match Self::audio_file_type(path, is_dir) {
            AudioFileType::NotAudio => false,
            _ => true,
        }
    }

    /// Pass a value through only for recognised audio files.
    pub fn seq_audio_file<T>(t: T, path: &str, is_dir: bool) -> (r: Option<T>)
        ensures
            match r {
                Some(v) => spec_audio_file_type(path@, is_dir) != AudioFileType::NotAudio && v
                    == t,
                None => spec_audio_file_type(path@, is_dir) == AudioFileType::NotAudio,
            },
    {
        if Self::is_audio_file(path, is_dir) {
            Some(t)
        } else {
            None
        }
    }
}

} // verus!
