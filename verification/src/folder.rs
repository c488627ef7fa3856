//! Opening a folder in the platform's file manager.
use crate::label::Platform;
use vstd::prelude::*;
use vstd::string::*;

verus! {

/// The program that shows folders on a platform.
pub open spec fn manager(platform: Platform) -> Seq<char> {
    match platform {
        Platform::Windows => "explorer"@,
        Platform::MacOs => "open"@,
        Platform::Other => "xdg-open"@,
    }
}

/// The program that shows folders on a platform.
pub fn file_manager(platform: Platform) -> (r: &'static str)
    ensures
        r@ == manager(platform),
{
    match platform {
        Platform::Windows => "explorer",
        Platform::MacOs => "open",
        Platform::Other => "xdg-open",
    }
}

/// The program to run to show a folder, or what to say when `dir` is none.
pub fn reveal_dir(dir: &str, is_dir: bool, platform: Platform) -> (r: Result<&'static str, String>)
    ensures
        match r {
            Ok(program) => is_dir && program@ == manager(platform),
            Err(message) => !is_dir && message@ == dir@ + " does not exist"@,
        },
{
    if is_dir {
        Ok(file_manager(platform))
    } else {
        let mut message = dir.to_owned();
        message.append(" does not exist");
        Err(message)
    }
}

} // verus!
