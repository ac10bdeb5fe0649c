//! Where recordings are written to.

use rand::distr::SampleString;
use rand_distr::Alphanumeric;
use vstd::prelude::*;

use crate::text::join3;
use crate::utils::DatasetDir;

verus! {

/// How many characters tell recordings apart.
pub const RECORDING_ID_LEN: usize = 8;

pub open spec fn is_alphanumeric(c: char) -> bool {
    'A' <= c <= 'Z' || 'a' <= c <= 'z' || '0' <= c <= '9'
}

/// Whether a text is made of so many letters and digits.
pub open spec fn is_id(text: Seq<char>, len: nat) -> bool {
    &&& text.len() == len
    &&& forall|i: int| 0 <= i < text.len() ==> is_alphanumeric(#[trigger] text[i])
}

/// `rand::distr::SampleString::sample_string` for `Alphanumeric`, drawn from `rand::rng`: a text
/// of `len` ASCII letters and digits. Which ones they are is left to chance.
#[verifier::external_body]
fn random_id(len: usize) -> (res: String)
    requires
        len <= RECORDING_ID_LEN,
    ensures
        is_id(res@, len as nat),
{
    Alphanumeric.sample_string(&mut rand::rng(), len)
}

/// The path of a recording, seen from the root of the project.
pub open spec fn recording(prefix: Seq<char>, id: Seq<char>) -> Seq<char> {
    "dataset/recordings"@ + "/"@ + (prefix + id + ".mp4"@)
}

/// The path of the recording with that id.
pub fn recording_path(prefix: &str, id: &str) -> (res: String)
    ensures
        res@ == recording(prefix@, id@),
{
    let folder: String = DatasetDir::Recordings.to_folder();
    let name: String = join3(prefix, id, ".mp4");
    join3(folder.as_str(), "/", name.as_str())
}

/// Whether a path is that of some recording with the prefix.
pub open spec fn is_recording(path: Seq<char>, prefix: Seq<char>) -> bool {
    exists|id: Seq<char>|
        #![trigger recording(prefix, id)]
        is_id(id, RECORDING_ID_LEN as nat) && path == recording(prefix, id)
}

/// A new path for a recording whose name begins with `prefix`.
pub fn new_recording_path(prefix: &str) -> (res: String)
    ensures
        is_recording(res@, prefix@),
{
    let id: String = random_id(RECORDING_ID_LEN);
    recording_path(prefix, id.as_str())
}

/// Recordings with different ids do not overwrite each other.
pub proof fn law_recordings_are_told_apart(prefix: Seq<char>, a: Seq<char>, b: Seq<char>)
    requires
        a.len() == b.len(),
        recording(prefix, a) == recording(prefix, b),
    ensures
        a == b,
{
    let start = ("dataset/recordings"@ + "/"@).len() + prefix.len();
    assert(recording(prefix, a).subrange(start as int, (start + a.len()) as int) =~= a);
    assert(recording(prefix, b).subrange(start as int, (start + b.len()) as int) =~= b);
}

/// A recording is a video in the folder for recordings, and its name is the prefix together with the
/// id, which is made of letters and digits.
pub proof fn law_recordings_are_videos_in_their_folder(path: Seq<char>, prefix: Seq<char>)
    requires
        is_recording(path, prefix),
    ensures
        exists|id: Seq<char>|
            {
                &&& id.len() == 8
                &&& path == #[trigger] ("dataset/recordings/"@ + prefix + id + ".mp4"@)
                &&& forall|i: int|
                    0 <= i < 8 ==> {
                        let c = #[trigger] id[i] as int;
                        48 <= c <= 57 || 65 <= c <= 90 || 97 <= c <= 122
                    }
            },
{
    reveal_strlit("dataset/recordings");
    reveal_strlit("/");
    reveal_strlit("dataset/recordings/");
    let id = choose|id: Seq<char>|
        #![trigger recording(prefix, id)]
        is_id(id, RECORDING_ID_LEN as nat) && path == recording(prefix, id);
    assert("dataset/recordings"@ + "/"@ =~= "dataset/recordings/"@);
    assert(path =~= "dataset/recordings/"@ + prefix + id + ".mp4"@);
}

/// Letters and digits are those of ASCII, and nothing else is one.
pub proof fn law_ids_are_made_of_ascii(c: char)
    ensures
        is_alphanumeric(c) <==> {
            let code = c as int;
            48 <= code <= 57 || 65 <= code <= 90 || 97 <= code <= 122
        },
{
}

} // verus!
