//! The validation callback of a guest that knows two app entries: one
//! that it always accepts and one that it never does.

use vstd::prelude::*;
use crate::entry::Entry;

verus! {

/// The two entries that the guest knows.
#[derive(Clone, Copy, Debug, PartialEq, Eq, Structural)]
pub enum ThisWasmEntry {
    AlwaysValidates,
    NeverValidates,
}

/// What a validation callback answers.
#[derive(Clone, Debug, PartialEq, Eq)]
pub enum ValidateCallbackResult {
    Valid,
    Invalid(String),
}

/// Why the guest refuses what it was given, if it does. `entry` is the
/// entry that the host's input held, if it held one; `app_entry` is what
/// the content of an app entry decodes to, if it decodes.
pub open spec fn refusal(entry: Option<&Entry>, app_entry: Option<ThisWasmEntry>) -> Option<
    Seq<char>,
> {
    match entry {
        None => Some("Couldn't get App serialized bytes from host input"@),
        Some(Entry::App(_)) => match app_entry {
            Some(ThisWasmEntry::AlwaysValidates) => None,
            Some(ThisWasmEntry::NeverValidates) => Some("NeverValidates never validates"@),
            None => Some("Couldn't get ThisWasmEntry from the app entry"@),
        },
        Some(_) => None,
    }
}

impl ValidateCallbackResult {
    /// The reason of a refusal, if the answer is one.
    pub open spec fn reason(&self) -> Option<Seq<char>> {
        match self {
            ValidateCallbackResult::Valid => None,
            ValidateCallbackResult::Invalid(reason) => Some(reason@),
        }
    }
}

/// Judges an entry: an app entry by what it decodes to, every other entry
/// as valid.
pub fn validate(entry: Option<&Entry>, app_entry: Option<ThisWasmEntry>) -> (result:
    ValidateCallbackResult)
    ensures
        result.reason() == refusal(entry, app_entry),
{
    match entry {
        Some(Entry::App(_)) => match app_entry {
            Some(ThisWasmEntry::AlwaysValidates) => ValidateCallbackResult::Valid,
            Some(ThisWasmEntry::NeverValidates) => ValidateCallbackResult::Invalid(
                "NeverValidates never validates".to_string(),
            ),
            None => ValidateCallbackResult::Invalid(
                "Couldn't get ThisWasmEntry from the app entry".to_string(),
            ),
        },
        Some(_) => ValidateCallbackResult::Valid,
        None => ValidateCallbackResult::Invalid(
            "Couldn't get App serialized bytes from host input".to_string(),
        ),
    }
}

} // verus!
