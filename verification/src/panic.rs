//! Reading the message a panic carries.

use vstd::prelude::*;

verus! {

/// The message of a panic, given what its payload holds: the literal it
/// was raised with, else the string it was raised with, else a fixed text.
pub fn panic_message_of(literal: Option<&str>, formatted: Option<&String>) -> (r: String)
    ensures
        r@ == match literal {
            Some(m) => m@,
            None => match formatted {
                Some(m) => m@,
                None => "non-string panic payload"@,
            },
        },
{
    match literal {
        Some(m) => m.to_string(),
        None => match formatted {
            Some(m) => m.clone(),
            None => "non-string panic payload".to_string(),
        },
    }
}

} // verus!
