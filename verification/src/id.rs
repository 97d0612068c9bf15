//! Opaque 64-bit identifiers.

use vstd::prelude::*;

verus! {

/// Identifier of a guild.
#[derive(Clone, Copy, Debug, PartialEq, Eq, Hash, Structural)]
pub struct GuildId(pub u64);

/// Identifier of a voice channel.
#[derive(Clone, Copy, Debug, PartialEq, Eq, Hash, Structural)]
pub struct ChannelId(pub u64);

/// Identifier of a user.
#[derive(Clone, Copy, Debug, PartialEq, Eq, Hash, Structural)]
pub struct UserId(pub u64);

} // verus!
