use vstd::prelude::*;

verus! {

/// The plugins the shell enables at startup, in registration order:
/// filesystem access, shell/process access, native dialogs. The platform
/// layer registers exactly these, in exactly this order, before the two
/// commands and the host event loop.
pub fn plugin_names() -> (r: Vec<&'static str>)
    ensures
        r@.len() == 3,
        r@[0]@ == "fs"@,
        r@[1]@ == "shell"@,
        r@[2]@ == "dialog"@,
{
    let mut v: Vec<&'static str> = Vec::new();
    v.push("fs");
    v.push("shell");
    v.push("dialog");
    v
}

/// The frontend-callable commands the shell registers: the two directory
/// lookups, and nothing else.
pub fn command_names() -> (r: Vec<&'static str>)
    ensures
        r@.len() == 2,
        r@[0]@ == "get_app_data_dir"@,
        r@[1]@ == "get_document_dir"@,
{
    let mut v: Vec<&'static str> = Vec::new();
    v.push("get_app_data_dir");
    v.push("get_document_dir");
    v
}

} // verus!
