use vstd::prelude::*;

use crate::error::Error;
use crate::util::NoteRef;

verus! {

/// Choose the note an open command targets: a nonempty first free-text
/// argument names the note directly, with no tag; otherwise the reference
/// under the cursor, whose absence is the `NoReference` error.
pub fn target_ref(fargs: &Vec<String>, under_cursor: Option<NoteRef>) -> (r: Result<
    NoteRef,
    Error,
>)
    ensures
        if fargs@.len() > 0 && fargs@[0]@.len() > 0 {
            r matches Ok(nr) && nr@.id == fargs@[0]@ && nr@.tag is None
        } else {
            match under_cursor {
                Some(nr) => r matches Ok(o) && o == nr,
                None => r matches Err(e) && e is NoReference,
            }
        },
{
    if fargs.len() > 0 && !fargs[0].as_str().is_empty() {
        return Ok(NoteRef::new(fargs[0].as_str(), None));
    }
    match under_cursor {
        Some(nr) => Ok(nr),
        None => Err(Error::NoReference),
    }
}

/// Decide the outcome of an open command once the target's existence on
/// disk is known: hand back the host edit command for an existing file,
/// fail with `FileNotFound` naming the missing one.
pub fn open_decision(path: String, is_file: bool) -> (r: Result<String, Error>)
    ensures
        if is_file {
            r matches Ok(cmd) && cmd@ == "e "@ + path@
        } else {
            r matches Err(e) && (e matches Error::FileNotFound { file } && file@ == path@)
        },
{
    if is_file {
        let mut cmd = String::from_str("e ");
        cmd.append(path.as_str());
        Ok(cmd)
    } else {
        Err(Error::FileNotFound { file: path })
    }
}

} // verus!
