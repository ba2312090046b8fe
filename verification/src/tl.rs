//! The Telegram API (TL) constructors that peer conversion reads or writes,
//! holding only the fields that the conversion touches.

use vstd::prelude::*;

verus! {

/// A peer as Telegram names it in updates and messages (`Peer`).
#[derive(Clone, Copy, Debug, PartialEq, Eq, Structural)]
pub enum Peer {
    /// `peerUser`.
    User { user_id: i64 },
    /// `peerChat`.
    Chat { chat_id: i64 },
    /// `peerChannel`.
    Channel { channel_id: i64 },
}

/// A peer as requests name it (`InputPeer`).
#[derive(Clone, Copy, Debug, PartialEq, Eq, Structural)]
pub enum InputPeer {
    /// `inputPeerEmpty`.
    Empty,
    /// `inputPeerSelf`.
    PeerSelf,
    /// `inputPeerChat`.
    Chat { chat_id: i64 },
    /// `inputPeerUser`.
    User { user_id: i64, access_hash: i64 },
    /// `inputPeerChannel`.
    Channel { channel_id: i64, access_hash: i64 },
    /// `inputPeerUserFromMessage`, of which only the user is read.
    UserFromMessage { user_id: i64 },
    /// `inputPeerChannelFromMessage`, of which only the channel is read.
    ChannelFromMessage { channel_id: i64 },
}

/// A user as requests name it (`InputUser`).
#[derive(Clone, Copy, Debug, PartialEq, Eq, Structural)]
pub enum InputUser {
    /// `inputUserEmpty`.
    Empty,
    /// `inputUserSelf`.
    UserSelf,
    /// `inputUser`.
    User { user_id: i64, access_hash: i64 },
}

/// A channel as requests name it (`InputChannel`).
#[derive(Clone, Copy, Debug, PartialEq, Eq, Structural)]
pub enum InputChannel {
    /// `inputChannelEmpty`.
    Empty,
    /// `inputChannel`.
    Channel { channel_id: i64, access_hash: i64 },
}

/// A user object (`User`).
#[derive(Clone, Copy, Debug, PartialEq, Eq, Structural)]
pub enum User {
    /// `userEmpty`.
    Empty { id: i64 },
    /// `user`: its identifier, its `self` flag and its access hash, if any.
    User { id: i64, is_self: bool, access_hash: Option<i64> },
}

/// A chat object (`Chat`), which also covers channels.
#[derive(Clone, Copy, Debug, PartialEq, Eq, Structural)]
pub enum Chat {
    /// `chatEmpty`.
    Empty { id: i64 },
    /// `chat`.
    Chat { id: i64 },
    /// `chatForbidden`.
    Forbidden { id: i64 },
    /// `channel`: its identifier and its access hash, if any.
    Channel { id: i64, access_hash: Option<i64> },
    /// `channelForbidden`.
    ChannelForbidden { id: i64, access_hash: i64 },
}

} // verus!
