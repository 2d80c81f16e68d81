//! An early-stage on-chain program skeleton for storing tweet-like records.
//!
//! The program currently exposes a single no-op `initialize` instruction and
//! declares the byte layout of a future `Tweet` account, together with the
//! maximum on-chain size such an account may occupy.

use vstd::prelude::*;

verus! {

/// Size in bytes of the account discriminator the host framework prepends
/// to every account's data.
pub const DISCRIMINATOR_LENGTH: usize = 8;

/// Size in bytes of an on-chain public key identifying the author.
pub const PUBLIC_KEY_LENGTH: usize = 32;

/// Size in bytes of the creation timestamp.
pub const TIMESTAMP_LENGTH: usize = 8;

/// Size in bytes of the length prefix stored before each string field.
pub const STRING_LENGTH_PREFIX: usize = 4;

/// Maximum size in bytes of the topic field: 50 characters, with headroom
/// of 4 bytes per character for multi-byte encodings.
pub const MAX_TOPIC_LENGTH: usize = 50 * 4;

/// Maximum size in bytes of the content field: 280 characters, with headroom
/// of 4 bytes per character for multi-byte encodings.
pub const MAX_CONTENT_LENGTH: usize = 280 * 4;

/// The accounts context of the `initialize` instruction: it requires no
/// accounts at all.
pub struct Initialize {}

/// The single instruction of the program. It accepts an empty account
/// context and unconditionally succeeds, performing no work.
pub fn initialize(ctx: Initialize) -> (r: Result<(), ()>)
    ensures
        r == Ok::<(), ()>(()),
{
    Ok(())
}

/// A single tweet-like record as it would be stored on chain. Declared for
/// a future version of the program; no instruction reads or writes it yet.
pub struct Tweet {
    /// The author's on-chain public key, as its 32 raw bytes.
    pub author: [u8; 32],
    /// Creation time, in seconds.
    pub timestamp: i64,
    /// A short topic label, nominally bounded at 50 characters.
    pub topic: String,
    /// The body text, nominally bounded at 280 characters.
    pub content: String,
}

impl Tweet {
    /// Total maximum size in bytes of a `Tweet` account: the discriminator,
    /// the author key, the timestamp, and each string field preceded by its
    /// length prefix.
    pub const LEN: usize = DISCRIMINATOR_LENGTH
        + PUBLIC_KEY_LENGTH
        + TIMESTAMP_LENGTH
        + STRING_LENGTH_PREFIX + MAX_TOPIC_LENGTH
        + STRING_LENGTH_PREFIX + MAX_CONTENT_LENGTH;
}

} // verus!
