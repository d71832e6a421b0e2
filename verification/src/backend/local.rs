//! The local audio backend: how the local device is named.
use vstd::prelude::*;

verus! {

/// A readable name of this computer. Only the device APIs of macOS and iOS
/// give one, and this library does not call them: there is none, and the
/// host name stands in for it.
pub fn computer_name() -> (r: Option<String>)
    ensures
        r is None,
{
    None
}

/// The name shown for the local device: the computer's name if there is one,
/// else the host name, else "Local".
pub fn device_name(computer: Option<String>, hostname: Option<String>) -> (r: String)
    ensures
        r@ == (match computer {
            Some(c) => c@,
            None => match hostname {
                Some(h) => h@,
                None => "Local"@,
            },
        }),
{
    match computer {
        Some(c) => c,
        None => match hostname {
            Some(h) => h,
            None => String::from_str("Local"),
        },
    }
}

} // verus!
