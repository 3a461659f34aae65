//! The login form: which typed names let the user enter the room, and under
//! which name they enter.

use vstd::prelude::*;

use crate::text::{trim, trimmed};

verus! {

/// The name under which a user who typed `username` enters the room: the
/// typed text without surrounding whitespace, or `None` (the enter button is
/// disabled) when nothing but whitespace was typed.
pub fn login(username: &str) -> (r: Option<String>)
    ensures
        match r {
            Some(name) => trimmed(username@).len() > 0 && name@ == trimmed(username@),
            None => trimmed(username@).len() == 0,
        },
{
    let name = trim(username);
    if name.as_str().is_empty() {
        None
    } else {
        Some(name)
    }
}

} // verus!
