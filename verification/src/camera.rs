use vstd::prelude::*;
use vstd::string::StringExecFns;

verus! {

/// The path of the device behind a camera: the path that the camera gives
/// as its property, or that of the first video device where it gives none.
pub fn get_path(path: Option<String>) -> (device_path: String)
    ensures
        device_path@ == match path {
            Some(p) => p@,
            None => "/dev/video0"@,
        },
{
    match path {
        Some(p) => p,
        None => String::from_str("/dev/video0"),
    }
}

/// The name to show for a camera: the name that the camera gives as its
/// property, or "Unknown" where it gives none.
pub fn get_name(card: Option<String>) -> (name: String)
    ensures
        name@ == match card {
            Some(c) => c@,
            None => "Unknown"@,
        },
{
    match card {
        Some(c) => c,
        None => String::from_str("Unknown"),
    }
}

} // verus!
