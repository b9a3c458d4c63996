//! Sizes of the records that the program stores.

use vstd::prelude::*;

verus! {

/// Bytes of an inbox record: an 8-byte tag, the administrator's 32-byte key and
/// two 8-byte counters.
pub const INBOX_SPACE: usize = 8 + 32 + 8 + 8;

/// Bytes of a whitelist entry: the 8-byte tag alone, since the entry's
/// existence is all that it says.
pub const WHITELIST_SPACE: usize = 8;

/// Bytes of a slot before its message: an 8-byte tag, the recipient's 32-byte
/// key and the 4-byte length prefix of the message.
pub const SLOT_BASE_SPACE: usize = 8 + 32 + 4;

} // verus!
