//! Voice-channel location checks: where the client and a user stand
//! relative to each other, given the channel each currently occupies.

use vstd::prelude::*;

verus! {

/// Where the client and a user stand relative to each other's voice
/// channels.
#[derive(Clone, Copy, PartialEq, Eq, Structural, Debug)]
pub enum VoiceLocationState {
    /// The client is not connected to any voice channel.
    ClientDisconnected,
    /// The user is not connected to any voice channel.
    UserDisconnected,
    /// Client and user are in the same voice channel.
    OnSameChannel,
    /// Client and user are in different voice channels.
    OnDifferentChannel,
}

/// The location relation for the given channels: the client's absence
/// decides first, then the user's, then whether the channels agree.
pub open spec fn voice_location_spec(
    bot_channel: Option<u64>,
    user_channel: Option<u64>,
) -> VoiceLocationState {
    match bot_channel {
        None => VoiceLocationState::ClientDisconnected,
        Some(b) => match user_channel {
            None => VoiceLocationState::UserDisconnected,
            Some(u) => if b == u {
                VoiceLocationState::OnSameChannel
            } else {
                VoiceLocationState::OnDifferentChannel
            },
        },
    }
}

/// Whether the client and the given user share a voice channel, from the
/// channel each occupies (`None` for not connected).
pub fn is_on_same_vc(bot_channel: Option<u64>, user_channel: Option<u64>) -> (r:
    VoiceLocationState)
    ensures
        r == voice_location_spec(bot_channel, user_channel),
{
    match bot_channel {
        None => VoiceLocationState::ClientDisconnected,
        Some(b) => match user_channel {
            None => VoiceLocationState::UserDisconnected,
            Some(u) => {
                if b == u {
                    VoiceLocationState::OnSameChannel
                } else {
                    VoiceLocationState::OnDifferentChannel
                }
            },
        },
    }
}

} // verus!
