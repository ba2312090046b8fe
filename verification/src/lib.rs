//! Compact identifiers for Telegram peers (users, small group chats and
//! channels) and the capabilities that pair them with an access hash.
//!
//! A [`PeerId`] packs both the kind of a peer and its bare identifier into a
//! single Bot API dialog ID, following the ranges documented at
//! <https://core.telegram.org/api/bots/ids>.

pub mod ids;
pub mod peer;
pub mod tl;
pub mod convert;
pub mod laws;
pub mod text;

pub use crate::peer::{
    BarePeerIdError, ChannelKind, PeerAuth, PeerId, PeerIdError, PeerIdFromChannelError,
    PeerIdFromChatError, PeerIdFromSelfUserError, PeerIdFromUserError, PeerInfo, PeerKind,
    PeerRef,
};
