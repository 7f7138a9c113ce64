//! The version of the engine.

use vstd::prelude::*;
use crate::text::{decimal, push_char, push_decimal};

verus! {

/// The major number in a version that the engine gives as one number: major
/// times 10000, plus minor times 100, plus patch.
pub open spec fn major(version: nat) -> nat {
    version / 10000
}

/// The minor number in a version that the engine gives as one number.
pub open spec fn minor(version: nat) -> nat {
    version / 100 % 100
}

/// The patch number in a version that the engine gives as one number.
pub open spec fn patch(version: nat) -> nat {
    version % 100
}

/// The version as text: major, minor and patch number with a dot between.
pub fn get_api_version(version: usize) -> (text: String)
    ensures
        text@ == decimal(major(version as nat)).push('.') + decimal(minor(version as nat)).push(
            '.',
        ) + decimal(patch(version as nat)),
{
    let mut text = String::new();
    push_decimal(&mut text, version / 10000);
    push_char(&mut text, '.');
    push_decimal(&mut text, version / 100 % 100);
    push_char(&mut text, '.');
    push_decimal(&mut text, version % 100);
    assert(text@ =~= decimal(major(version as nat)).push('.') + decimal(
        minor(version as nat),
    ).push('.') + decimal(patch(version as nat)));
    text
}

/// The version as its three numbers: major, minor, patch.
pub fn get_api_version_compact(version: usize) -> (parts: [usize; 3])
    ensures
        parts[0] == major(version as nat),
        parts[1] == minor(version as nat),
        parts[2] == patch(version as nat),
{
    [version / 10000, version / 100 % 100, version % 100]
}

} // verus!
