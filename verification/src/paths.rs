//! Names and places of the files that a job works on.

use vstd::prelude::*;
use crate::text::{append_chars, append_str, chars_of, string_of};

verus! {

/// The place of the file `name` in the directory `dir`: the two joined by
/// one `/`, which is left out where `dir` is empty or ends with one.
pub open spec fn joined(dir: Seq<char>, name: Seq<char>) -> Seq<char> {
    if dir.len() == 0 || dir.last() == '/' {
        dir + name
    } else {
        dir + seq!['/'] + name
    }
}

/// Joins a directory and a file name.
pub fn join_path(dir: &str, name: &str) -> (path: String)
    ensures
        path@ == joined(dir@, name@),
{
    let d = chars_of(dir);
    let mut out: Vec<char> = Vec::new();
    append_chars(&mut out, d.as_slice());
    if d.len() > 0 && d[d.len() - 1] != '/' {
        out.push('/');
    }
    append_str(&mut out, name);
    assert(out@ =~= joined(dir@, name@));
    string_of(out.as_slice())
}

/// The name of the file that the fetch tool writes for the job `id`.
pub open spec fn raw_audio_name(id: Seq<char>) -> Seq<char> {
    id + ".webm"@
}

/// The name of the file that the transcode tool writes for the job `id`.
pub open spec fn converted_audio_name(id: Seq<char>) -> Seq<char> {
    id + ".wav"@
}

/// The place of the fetched file of the job `id` in `dir`.
pub fn raw_audio_path(dir: &str, id: &str) -> (path: String)
    ensures
        path@ == joined(dir@, raw_audio_name(id@)),
{
    let mut name: Vec<char> = Vec::new();
    append_str(&mut name, id);
    append_str(&mut name, ".webm");
    assert(name@ =~= raw_audio_name(id@));
    let name = string_of(name.as_slice());
    join_path(dir, name.as_str())
}

/// The place of the converted file of the job `id` in `dir`.
pub fn converted_audio_path(dir: &str, id: &str) -> (path: String)
    ensures
        path@ == joined(dir@, converted_audio_name(id@)),
{
    let mut name: Vec<char> = Vec::new();
    append_str(&mut name, id);
    append_str(&mut name, ".wav");
    assert(name@ =~= converted_audio_name(id@));
    let name = string_of(name.as_slice());
    join_path(dir, name.as_str())
}

} // verus!
