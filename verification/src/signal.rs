//! What the main gateway tells a voice client, and what the client asks of it.

use vstd::prelude::*;
use crate::id::{ChannelId, GuildId, UserId};

verus! {

/// The voice server assigned to a guild: where to connect and the token to
/// present there.
#[derive(Clone, Debug, PartialEq, Eq, Hash)]
pub struct VoiceServerUpdate {
    /// Host of the voice server.
    pub endpoint: String,
    /// Guild the server was assigned to.
    pub guild_id: GuildId,
    /// Token to connect to the voice server with.
    pub token: String,
}

/// View of [`VoiceServerUpdate`].
pub struct VoiceServerUpdateView {
    pub endpoint: Seq<char>,
    pub guild_id: GuildId,
    pub token: Seq<char>,
}

impl View for VoiceServerUpdate {
    type V = VoiceServerUpdateView;

    open spec fn view(&self) -> VoiceServerUpdateView {
        VoiceServerUpdateView {
            endpoint: self.endpoint@,
            guild_id: self.guild_id,
            token: self.token@,
        }
    }
}

/// The part of the client's own voice state that a voice connection needs.
#[derive(Clone, Debug, PartialEq, Eq, Hash)]
pub struct PartialVoiceStateUpdate {
    /// Session of the client on the main gateway.
    pub session_id: String,
    /// Channel the client is in, if any.
    pub channel_id: Option<ChannelId>,
    /// The client's user.
    pub user_id: UserId,
}

/// View of [`PartialVoiceStateUpdate`].
pub struct PartialVoiceStateUpdateView {
    pub session_id: Seq<char>,
    pub channel_id: Option<ChannelId>,
    pub user_id: UserId,
}

impl View for PartialVoiceStateUpdate {
    type V = PartialVoiceStateUpdateView;

    open spec fn view(&self) -> PartialVoiceStateUpdateView {
        PartialVoiceStateUpdateView {
            session_id: self.session_id@,
            channel_id: self.channel_id,
            user_id: self.user_id,
        }
    }
}

/// A request to the main gateway to change the client's voice state in a
/// guild: to join `channel_id`, or to leave where it is `None`.
#[derive(Clone, Copy, Debug, PartialEq, Eq, Hash, Structural)]
pub struct VoiceStateRequest {
    pub guild_id: GuildId,
    pub channel_id: Option<ChannelId>,
    pub self_deaf: bool,
    pub self_mute: bool,
}

} // verus!
