//! Conversions between peer identities and the Telegram API constructors
//! that name peers.

use vstd::prelude::*;
use crate::ids::{
    bare_id_of_dialog_id, channel_dialog_id, channel_id_in_range, chat_dialog_id,
    chat_id_in_range, kind_of_dialog_id, user_dialog_id, user_id_in_range,
    EMPTY_CHAT_ID, SELF_USER_ID,
};
use crate::peer::{PeerAuth, PeerId, PeerInfo, PeerKind, PeerRef};
use crate::tl::{Chat, InputChannel, InputPeer, InputUser, Peer, User};

verus! {

/// The bare identifier packed in the dialog ID `d`, as the API writes it.
pub open spec fn bare_of(d: int) -> i64 {
    bare_id_of_dialog_id(d).unwrap() as i64
}

/// The authority whose hash is `h`, or the ambient authority (hash 0).
pub open spec fn hash_or_ambient(h: Option<i64>) -> i64 {
    match h {
        Some(h) => h,
        None => 0,
    }
}

/// The identifier in `peer` is in the range of its kind.
pub open spec fn peer_has_valid_id(peer: Peer) -> bool {
    match peer {
        Peer::User { user_id } => user_id_in_range(user_id as int),
        Peer::Chat { chat_id } => chat_id_in_range(chat_id as int),
        Peer::Channel { channel_id } => channel_id_in_range(channel_id as int),
    }
}

/// The dialog ID of the peer that `peer` names.
pub open spec fn peer_dialog_id(peer: Peer) -> int {
    match peer {
        Peer::User { user_id } => user_dialog_id(user_id as int),
        Peer::Chat { chat_id } => chat_dialog_id(chat_id as int),
        Peer::Channel { channel_id } => channel_dialog_id(channel_id as int),
    }
}

/// The `Peer` naming the peer whose dialog ID is `d` (not the self-user).
pub open spec fn peer_of_dialog_id(d: int) -> Peer {
    match kind_of_dialog_id(d) {
        PeerKind::Chat => Peer::Chat { chat_id: bare_of(d) },
        PeerKind::Channel => Peer::Channel { channel_id: bare_of(d) },
        _ => Peer::User { user_id: bare_of(d) },
    }
}

/// `peer` names a peer, and its identifier is in the range of its kind.
pub open spec fn input_peer_is_convertible(peer: InputPeer) -> bool {
    match peer {
        InputPeer::Empty => false,
        InputPeer::PeerSelf => true,
        InputPeer::Chat { chat_id } => chat_id_in_range(chat_id as int),
        InputPeer::User { user_id, .. } => user_id_in_range(user_id as int),
        InputPeer::Channel { channel_id, .. } => channel_id_in_range(channel_id as int),
        InputPeer::UserFromMessage { user_id } => user_id_in_range(user_id as int),
        InputPeer::ChannelFromMessage { channel_id } => channel_id_in_range(channel_id as int),
    }
}

/// The dialog ID of the peer that `peer` names.
pub open spec fn input_peer_dialog_id(peer: InputPeer) -> int {
    match peer {
        InputPeer::Empty => 0,
        InputPeer::PeerSelf => SELF_USER_ID as int,
        InputPeer::Chat { chat_id } => chat_dialog_id(chat_id as int),
        InputPeer::User { user_id, .. } => user_dialog_id(user_id as int),
        InputPeer::Channel { channel_id, .. } => channel_dialog_id(channel_id as int),
        InputPeer::UserFromMessage { user_id } => user_dialog_id(user_id as int),
        InputPeer::ChannelFromMessage { channel_id } => channel_dialog_id(channel_id as int),
    }
}

/// The access hash that `peer` carries; 0 (the ambient authority) where it
/// carries none.
pub open spec fn input_peer_auth_hash(peer: InputPeer) -> i64 {
    match peer {
        InputPeer::User { access_hash, .. } => access_hash,
        InputPeer::Channel { access_hash, .. } => access_hash,
        _ => 0,
    }
}

/// The `InputPeer` that names the peer of `r` with its authority.
pub open spec fn input_peer_of(r: PeerRef) -> InputPeer {
    match kind_of_dialog_id(r.id@) {
        PeerKind::User => InputPeer::User { user_id: bare_of(r.id@), access_hash: r.auth@ },
        PeerKind::UserSelf => InputPeer::PeerSelf,
        PeerKind::Chat => InputPeer::Chat { chat_id: bare_of(r.id@) },
        PeerKind::Channel => InputPeer::Channel {
            channel_id: bare_of(r.id@),
            access_hash: r.auth@,
        },
    }
}

/// The `InputUser` that names the user of `r` with its authority; empty for
/// any other kind of peer.
pub open spec fn input_user_of(r: PeerRef) -> InputUser {
    match kind_of_dialog_id(r.id@) {
        PeerKind::User => InputUser::User { user_id: bare_of(r.id@), access_hash: r.auth@ },
        PeerKind::UserSelf => InputUser::UserSelf,
        _ => InputUser::Empty,
    }
}

/// The `InputChannel` that names the channel of `r` with its authority; empty
/// for any other kind of peer.
pub open spec fn input_channel_of(r: PeerRef) -> InputChannel {
    match kind_of_dialog_id(r.id@) {
        PeerKind::Channel => InputChannel::Channel {
            channel_id: bare_of(r.id@),
            access_hash: r.auth@,
        },
        _ => InputChannel::Empty,
    }
}

/// The chat identifier that `r` stands for: the bare identifier of a small
/// group chat, or the empty-chat sentinel for any other kind of peer.
pub open spec fn chat_id_of(r: PeerRef) -> i64 {
    match kind_of_dialog_id(r.id@) {
        PeerKind::Chat => bare_of(r.id@),
        _ => EMPTY_CHAT_ID,
    }
}

/// The identifier in `user` is that of a user, unless it is the logged-in user.
pub open spec fn user_is_convertible(user: User) -> bool {
    match user {
        User::Empty { id } => user_id_in_range(id as int),
        User::User { id, is_self, .. } => is_self || user_id_in_range(id as int),
    }
}

/// The dialog ID of the user that `user` describes.
pub open spec fn user_dialog_id_of(user: User) -> int {
    match user {
        User::Empty { id } => user_dialog_id(id as int),
        User::User { id, is_self, .. } => if is_self {
            SELF_USER_ID as int
        } else {
            user_dialog_id(id as int)
        },
    }
}

/// The access hash that `user` carries; 0 (the ambient authority) where it
/// carries none.
pub open spec fn user_auth_hash(user: User) -> i64 {
    match user {
        User::Empty { .. } => 0,
        User::User { access_hash, .. } => hash_or_ambient(access_hash),
    }
}

/// The identifier in `chat` is in the range of its kind.
pub open spec fn chat_is_convertible(chat: Chat) -> bool {
    match chat {
        Chat::Empty { id } => chat_id_in_range(id as int),
        Chat::Chat { id } => chat_id_in_range(id as int),
        Chat::Forbidden { id } => chat_id_in_range(id as int),
        Chat::Channel { id, .. } => channel_id_in_range(id as int),
        Chat::ChannelForbidden { id, .. } => channel_id_in_range(id as int),
    }
}

/// The dialog ID of the chat or channel that `chat` describes.
pub open spec fn chat_dialog_id_of(chat: Chat) -> int {
    match chat {
        Chat::Empty { id } => chat_dialog_id(id as int),
        Chat::Chat { id } => chat_dialog_id(id as int),
        Chat::Forbidden { id } => chat_dialog_id(id as int),
        Chat::Channel { id, .. } => channel_dialog_id(id as int),
        Chat::ChannelForbidden { id, .. } => channel_dialog_id(id as int),
    }
}

/// The access hash that `chat` carries; 0 (the ambient authority) where it
/// carries none.
pub open spec fn chat_auth_hash(chat: Chat) -> i64 {
    match chat {
        Chat::Channel { access_hash, .. } => hash_or_ambient(access_hash),
        Chat::ChannelForbidden { access_hash, .. } => access_hash,
        _ => 0,
    }
}

impl PeerId {
    /// The identity of the peer that `peer` names.
    pub fn from_peer(peer: Peer) -> (r: PeerId)
        requires
            peer_has_valid_id(peer),
        ensures
            r@ == peer_dialog_id(peer),
    {
        match peer {
            Peer::User { user_id } => PeerId::user(user_id),
            Peer::Chat { chat_id } => PeerId::chat(chat_id),
            Peer::Channel { channel_id } => PeerId::channel(channel_id),
        }
    }

    /// The `Peer` that names this identity, which must not be the self-user's.
    pub fn to_peer(self) -> (r: Peer)
        requires
            kind_of_dialog_id(self@) != PeerKind::UserSelf,
        ensures
            r == peer_of_dialog_id(self@),
    {
        let bare = self.bare_id();
        match self.kind() {
            PeerKind::Chat => {
                let chat_id = match bare {
                    Ok(b) => b,
                    Err(_) => 0,
                };
                Peer::Chat { chat_id }
            },
            PeerKind::Channel => {
                let channel_id = match bare {
                    Ok(b) => b,
                    Err(_) => 0,
                };
                Peer::Channel { channel_id }
            },
            _ => {
                let user_id = match bare {
                    Ok(b) => b,
                    Err(_) => 0,
                };
                Peer::User { user_id }
            },
        }
    }
}

impl PeerRef {
    /// The reference that `peer` describes: its identity and its authority.
    pub fn from_peer_info(peer: PeerInfo) -> (r: PeerRef)
        requires
            peer.has_valid_id(),
        ensures
            r.id@ == peer.spec_dialog_id(),
            r.auth@ == peer.spec_auth_hash(),
    {
        PeerRef { id: peer.id(), auth: peer.auth() }
    }

    /// The reference that `peer` names, which must not be empty.
    pub fn from_input_peer(peer: InputPeer) -> (r: PeerRef)
        requires
            input_peer_is_convertible(peer),
        ensures
            r.id@ == input_peer_dialog_id(peer),
            r.auth@ == input_peer_auth_hash(peer),
    {
        match peer {
            InputPeer::Empty => {
                proof {
                    assert(false);
                }
                PeerRef { id: PeerId::self_user(), auth: PeerAuth::default() }
            },
            InputPeer::PeerSelf => PeerRef { id: PeerId::self_user(), auth: PeerAuth::default() },
            InputPeer::User { user_id, access_hash } => PeerRef {
                id: PeerId::user(user_id),
                auth: PeerAuth::from_hash(access_hash),
            },
            InputPeer::Chat { chat_id } => PeerRef {
                id: PeerId::chat(chat_id),
                auth: PeerAuth::default(),
            },
            InputPeer::Channel { channel_id, access_hash } => PeerRef {
                id: PeerId::channel(channel_id),
                auth: PeerAuth::from_hash(access_hash),
            },
            InputPeer::UserFromMessage { user_id } => PeerRef {
                id: PeerId::user(user_id),
                auth: PeerAuth::default(),
            },
            InputPeer::ChannelFromMessage { channel_id } => PeerRef {
                id: PeerId::channel(channel_id),
                auth: PeerAuth::default(),
            },
        }
    }

    /// The reference that `user` describes.
    pub fn from_user(user: User) -> (r: PeerRef)
        requires
            user_is_convertible(user),
        ensures
            r.id@ == user_dialog_id_of(user),
            r.auth@ == user_auth_hash(user),
    {
        match user {
            User::Empty { id } => PeerRef { id: PeerId::user(id), auth: PeerAuth::default() },
            User::User { id, is_self, access_hash } => PeerRef {
                id: if is_self {
                    PeerId::self_user()
                } else {
                    PeerId::user(id)
                },
                auth: match access_hash {
                    Some(h) => PeerAuth::from_hash(h),
                    None => PeerAuth::default(),
                },
            },
        }
    }

    /// The reference that `chat` describes.
    pub fn from_chat(chat: Chat) -> (r: PeerRef)
        requires
            chat_is_convertible(chat),
        ensures
            r.id@ == chat_dialog_id_of(chat),
            r.auth@ == chat_auth_hash(chat),
    {
        match chat {
            Chat::Empty { id } => PeerRef { id: PeerId::chat(id), auth: PeerAuth::default() },
            Chat::Chat { id } => PeerRef { id: PeerId::chat(id), auth: PeerAuth::default() },
            Chat::Forbidden { id } => PeerRef { id: PeerId::chat(id), auth: PeerAuth::default() },
            Chat::Channel { id, access_hash } => PeerRef {
                id: PeerId::channel(id),
                auth: match access_hash {
                    Some(h) => PeerAuth::from_hash(h),
                    None => PeerAuth::default(),
                },
            },
            Chat::ChannelForbidden { id, access_hash } => PeerRef {
                id: PeerId::channel(id),
                auth: PeerAuth::from_hash(access_hash),
            },
        }
    }

    /// The chat identifier that this reference stands for: the bare
    /// identifier of a small group chat, or the empty-chat sentinel for any
    /// other kind of peer.
    pub fn to_chat_id(self) -> (r: i64)
        ensures
            r == chat_id_of(self),
            r != 0,
    {
        match self.id.kind() {
            PeerKind::Chat => match self.id.bare_id() {
                Ok(b) => b,
                Err(_) => EMPTY_CHAT_ID,
            },
            _ => EMPTY_CHAT_ID,
        }
    }
}

impl From<PeerRef> for InputPeer {
    fn from(peer: PeerRef) -> (r: Self) {
        let hash = peer.auth.hash();
        match peer.id.kind() {
            PeerKind::UserSelf => InputPeer::PeerSelf,
            kind => {
                let id = match peer.id.bare_id() {
                    Ok(b) => b,
                    Err(_) => 0,
                };
                match kind {
                    PeerKind::Chat => InputPeer::Chat { chat_id: id },
                    PeerKind::Channel => InputPeer::Channel { channel_id: id, access_hash: hash },
                    _ => InputPeer::User { user_id: id, access_hash: hash },
                }
            },
        }
    }
}

impl vstd::std_specs::convert::FromSpecImpl<PeerRef> for InputPeer {
    open spec fn obeys_from_spec() -> bool {
        true
    }

    open spec fn from_spec(peer: PeerRef) -> Self {
        input_peer_of(peer)
    }
}

impl From<PeerRef> for InputUser {
    fn from(peer: PeerRef) -> (r: Self) {
        let hash = peer.auth.hash();
        match peer.id.kind() {
            PeerKind::User => {
                let user_id = match peer.id.bare_id() {
                    Ok(b) => b,
                    Err(_) => 0,
                };
                InputUser::User { user_id, access_hash: hash }
            },
            PeerKind::UserSelf => InputUser::UserSelf,
            PeerKind::Chat => InputUser::Empty,
            PeerKind::Channel => InputUser::Empty,
        }
    }
}

impl vstd::std_specs::convert::FromSpecImpl<PeerRef> for InputUser {
    open spec fn obeys_from_spec() -> bool {
        true
    }

    open spec fn from_spec(peer: PeerRef) -> Self {
        input_user_of(peer)
    }
}

impl From<PeerRef> for InputChannel {
    fn from(peer: PeerRef) -> (r: Self) {
        match peer.id.kind() {
            PeerKind::Channel => {
                let channel_id = match peer.id.bare_id() {
                    Ok(b) => b,
                    Err(_) => 0,
                };
                InputChannel::Channel { channel_id, access_hash: peer.auth.hash() }
            },
            _ => InputChannel::Empty,
        }
    }
}

impl vstd::std_specs::convert::FromSpecImpl<PeerRef> for InputChannel {
    open spec fn obeys_from_spec() -> bool {
        true
    }

    open spec fn from_spec(peer: PeerRef) -> Self {
        input_channel_of(peer)
    }
}

} // verus!
