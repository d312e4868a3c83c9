use vstd::prelude::*;

verus! {

/// The outcome of one OS directory lookup, as plain text.
///
/// The platform layer performs the lookup and hands over either the
/// (lossily rendered) text of the resolved directory's path, or the
/// textual form of the lookup error. Nothing else about the path is
/// recorded: existence or writability is never checked.
pub enum DirLookup {
    Found(String),
    Failed(String),
}

/// The reply a directory command sends to the frontend: the path text
/// exactly as the lookup produced it on success, the error message on
/// failure, and nothing else. The command has no side effects and does
/// not validate the path.
pub fn command_reply(lookup: DirLookup) -> (r: Result<String, String>)
    ensures
        (match lookup {
            DirLookup::Found(path) => r matches Ok(s) && s@ == path@,
            DirLookup::Failed(msg) => r matches Err(e) && e@ == msg@,
        }),
{
    match lookup {
        DirLookup::Found(path) => Ok(path),
        DirLookup::Failed(msg) => Err(msg),
    }
}

} // verus!
