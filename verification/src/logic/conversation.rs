//! Conversation files: `<data_dir>/chats/<name>.json` and `state.json`,
//! which remembers the last conversation.

use vstd::prelude::*;

use super::config::{join, spec_join};
use crate::text::{decimal, decimal_string, hex_padded, hex_string};

verus! {

pub const CHATS_DIRNAME: &'static str = "chats";

pub const STATE_FILENAME: &'static str = "state.json";

/// The contents of `state.json`.
#[derive(Debug, Clone, PartialEq, Eq, Default)]
pub struct StateFile {
    pub last_conversation: Option<String>,
}

/// `<data_dir>/chats`.
pub fn chats_dir(data_dir: &str) -> (r: String)
    ensures
        r@ == spec_join(data_dir@, CHATS_DIRNAME@),
{
    join(data_dir, CHATS_DIRNAME)
}

/// `<data_dir>/state.json`.
pub fn state_path(data_dir: &str) -> (r: String)
    ensures
        r@ == spec_join(data_dir@, STATE_FILENAME@),
{
    join(data_dir, STATE_FILENAME)
}

/// The file name of the last conversation that `state.json` records; a
/// missing or unreadable state file (`None`) records none.
pub fn last_conversation_filename(state: Option<StateFile>) -> (r: Option<String>)
    ensures
        r == (match state {
            Some(s) => s.last_conversation,
            None => None,
        }),
{
    match state {
        Some(s) => s.last_conversation,
        None => None,
    }
}

/// The multiplier that spreads the clock's nanoseconds over 32 bits.
pub const HEX_SPREAD: u32 = 2_654_435_761;

/// Eight lower-case hex digits of `nanos` spread by a Knuth multiplier, the
/// suffix that tells apart conversations saved in the same millisecond.
pub fn random_hex(nanos: u32) -> (r: String)
    ensures
        r@ == hex_padded((nanos as nat * HEX_SPREAD as nat) % 0x1_0000_0000, 8),
{
    let mixed = nanos.wrapping_mul(HEX_SPREAD);
    hex_string(mixed as u128, 8)
}

/// A conversation file name: `<timestamp>.json`, or
/// `<timestamp>-<suffix>.json` when the plain name is taken.
pub fn conversation_filename(timestamp_ms: u128, suffix: Option<&str>) -> (r: String)
    ensures
        r@ == decimal(timestamp_ms as nat) + (match suffix {
            Some(s) => seq!['-'] + s@,
            None => Seq::empty(),
        }) + ".json"@,
{
    let mut r = decimal_string(timestamp_ms);
    match suffix {
        Some(s) => {
            r.append("-");
            r.append(s);
        },
        None => {},
    }
    r.append(".json");
    proof {
        reveal_strlit("-");
    }
    r
}

/// How many times a taken file name is retried with a random suffix.
pub const MAX_NAME_ATTEMPTS: u32 = 10;

/// The next name to try after `attempts` names were taken: one with the
/// suffix made from `nanos`, or none once the attempts are used up (the last
/// name is then kept).
pub fn retry_filename(timestamp_ms: u128, attempts: u32, nanos: u32) -> (r: Option<String>)
    ensures
        attempts >= MAX_NAME_ATTEMPTS ==> r is None,
        attempts < MAX_NAME_ATTEMPTS ==> (r matches Some(name) && name@ == decimal(timestamp_ms as nat) + seq!['-']
            + hex_padded((nanos as nat * HEX_SPREAD as nat) % 0x1_0000_0000, 8) + ".json"@),
{
    if attempts >= MAX_NAME_ATTEMPTS {
        None
    } else {
        let suffix = random_hex(nanos);
        Some(conversation_filename(timestamp_ms, Some(suffix.as_str())))
    }
}

/// The error a new conversation file whose name is taken fails with.
pub const NAME_TAKEN_MESSAGE: &'static str = "Failed to create a new conversation file.";

} // verus!
