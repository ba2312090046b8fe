//! Properties that hold across the packing, unpacking and conversion functions.

use vstd::prelude::*;
use crate::convert::{
    chat_auth_hash, chat_dialog_id_of, chat_is_convertible, user_auth_hash, user_dialog_id_of,
    user_is_convertible, chat_id_of, input_peer_auth_hash, input_peer_dialog_id, input_peer_is_convertible,
    input_peer_of, input_user_of, input_channel_of, peer_dialog_id, peer_has_valid_id, peer_of_dialog_id,
};
use crate::ids::{
    bare_id_of_dialog_id, channel_dialog_id, channel_id_in_range, chat_dialog_id,
    chat_id_in_range, dialog_id_of, is_channel_dialog_id, is_chat_dialog_id, is_user_dialog_id,
    is_valid_dialog_id, kind_of_dialog_id, user_dialog_id, user_id_in_range, EMPTY_CHAT_ID,
    SELF_USER_ID,
};
use crate::peer::{ChannelKind, PeerAuth, PeerInfo, PeerKind, PeerRef};
use crate::tl::{Chat, InputChannel, InputPeer, InputUser, Peer, User};

verus! {

/// The four kinds partition the valid dialog IDs: a valid dialog ID has the
/// kind whose range holds it, and the ranges do not overlap.
pub proof fn law_kinds_partition_dialog_ids(d: int)
    requires
        is_valid_dialog_id(d),
    ensures
        kind_of_dialog_id(d) == PeerKind::UserSelf <==> d == SELF_USER_ID,
        kind_of_dialog_id(d) == PeerKind::User <==> is_user_dialog_id(d),
        kind_of_dialog_id(d) == PeerKind::Chat <==> is_chat_dialog_id(d),
        kind_of_dialog_id(d) == PeerKind::Channel <==> is_channel_dialog_id(d),
{
}

/// Packing a user identifier that is in range gives a valid dialog ID of
/// kind `User`, from which the same identifier is unpacked.
pub proof fn law_user_id_round_trip(bare: int)
    requires
        user_id_in_range(bare),
    ensures
        is_valid_dialog_id(user_dialog_id(bare)),
        kind_of_dialog_id(user_dialog_id(bare)) == PeerKind::User,
        bare_id_of_dialog_id(user_dialog_id(bare)) == Some(bare),
{
}

/// Packing a chat identifier that is in range gives a valid dialog ID of
/// kind `Chat`, from which the same identifier is unpacked.
pub proof fn law_chat_id_round_trip(bare: int)
    requires
        chat_id_in_range(bare),
    ensures
        is_valid_dialog_id(chat_dialog_id(bare)),
        kind_of_dialog_id(chat_dialog_id(bare)) == PeerKind::Chat,
        bare_id_of_dialog_id(chat_dialog_id(bare)) == Some(bare),
{
}

/// Packing a channel identifier that is in range gives a valid dialog ID of
/// kind `Channel`, from which the same identifier is unpacked.
pub proof fn law_channel_id_round_trip(bare: int)
    requires
        channel_id_in_range(bare),
    ensures
        is_valid_dialog_id(channel_dialog_id(bare)),
        kind_of_dialog_id(channel_dialog_id(bare)) == PeerKind::Channel,
        bare_id_of_dialog_id(channel_dialog_id(bare)) == Some(bare),
{
}

/// The self-user sentinel lies outside every Bot API range; it is of kind
/// `UserSelf` and has no bare identifier.
pub proof fn law_self_user_sentinel()
    ensures
        is_valid_dialog_id(SELF_USER_ID as int),
        !is_user_dialog_id(SELF_USER_ID as int),
        !is_chat_dialog_id(SELF_USER_ID as int),
        !is_channel_dialog_id(SELF_USER_ID as int),
        kind_of_dialog_id(SELF_USER_ID as int) == PeerKind::UserSelf,
        bare_id_of_dialog_id(SELF_USER_ID as int) is None,
{
}

/// Every valid dialog ID other than the self-user's unpacks into a strictly
/// positive bare identifier that is in the range of its kind, and packing that
/// identifier with that kind gives the dialog ID back.
pub proof fn law_unpack_then_pack(d: int)
    requires
        is_valid_dialog_id(d),
        kind_of_dialog_id(d) != PeerKind::UserSelf,
    ensures
        bare_id_of_dialog_id(d) is Some,
        bare_id_of_dialog_id(d).unwrap() > 0,
        dialog_id_of(kind_of_dialog_id(d), bare_id_of_dialog_id(d).unwrap()) == d,
        kind_of_dialog_id(d) == PeerKind::User ==> user_id_in_range(
            bare_id_of_dialog_id(d).unwrap(),
        ),
        kind_of_dialog_id(d) == PeerKind::Chat ==> chat_id_in_range(
            bare_id_of_dialog_id(d).unwrap(),
        ),
        kind_of_dialog_id(d) == PeerKind::Channel ==> channel_id_in_range(
            bare_id_of_dialog_id(d).unwrap(),
        ),
{
}

/// The empty-chat sentinel is neither a valid dialog ID nor the bare
/// identifier of a chat or channel.
pub proof fn law_empty_chat_sentinel()
    ensures
        !is_valid_dialog_id(EMPTY_CHAT_ID as int),
        !chat_id_in_range(EMPTY_CHAT_ID as int),
        !channel_id_in_range(EMPTY_CHAT_ID as int),
{
}

/// Naming a (non-self) identity as a `Peer` and reading the `Peer` back gives
/// the same identity.
pub proof fn law_peer_id_to_peer_and_back(d: int)
    requires
        is_valid_dialog_id(d),
        kind_of_dialog_id(d) != PeerKind::UserSelf,
    ensures
        peer_has_valid_id(peer_of_dialog_id(d)),
        peer_dialog_id(peer_of_dialog_id(d)) == d,
{
}

/// Reading a `Peer` whose identifier is in range into an identity and naming
/// that identity as a `Peer` gives the same `Peer`; the identity is never the
/// self-user's.
pub proof fn law_peer_to_peer_id_and_back(peer: Peer)
    requires
        peer_has_valid_id(peer),
    ensures
        is_valid_dialog_id(peer_dialog_id(peer)),
        kind_of_dialog_id(peer_dialog_id(peer)) != PeerKind::UserSelf,
        peer_of_dialog_id(peer_dialog_id(peer)) == peer,
{
}

/// Naming a reference as an `InputPeer` and reading it back keeps the
/// identity; it keeps the authority of users and channels, and gives the
/// ambient authority for the self-user and for small group chats.
pub proof fn law_peer_ref_to_input_peer_and_back(r: PeerRef)
    requires
        is_valid_dialog_id(r.id@),
    ensures
        input_peer_is_convertible(input_peer_of(r)),
        input_peer_dialog_id(input_peer_of(r)) == r.id@,
        input_peer_auth_hash(input_peer_of(r)) == (match kind_of_dialog_id(r.id@) {
            PeerKind::User | PeerKind::Channel => r.auth@,
            _ => 0,
        }),
{
}

/// The chat identifier a reference stands for is the bare identifier of a
/// small group chat exactly when the reference is to a small group chat, and
/// it then packs back into the reference's identity.
pub proof fn law_chat_id_of_peer_ref(r: PeerRef)
    requires
        is_valid_dialog_id(r.id@),
    ensures
        chat_id_in_range(chat_id_of(r) as int) <==> kind_of_dialog_id(r.id@) == PeerKind::Chat,
        kind_of_dialog_id(r.id@) == PeerKind::Chat ==> chat_dialog_id(chat_id_of(r) as int)
            == r.id@,
{
}

/// Naming a reference as an `InputUser` names the same user with the same
/// authority when the reference is to a user, the logged-in user when it is
/// the self-user's, and nothing otherwise.
pub proof fn law_peer_ref_to_input_user(r: PeerRef)
    requires
        is_valid_dialog_id(r.id@),
    ensures
        match input_user_of(r) {
            InputUser::User { user_id, access_hash } => {
                &&& kind_of_dialog_id(r.id@) == PeerKind::User
                &&& user_id_in_range(user_id as int)
                &&& user_dialog_id(user_id as int) == r.id@
                &&& access_hash == r.auth@
            },
            InputUser::UserSelf => kind_of_dialog_id(r.id@) == PeerKind::UserSelf,
            InputUser::Empty => kind_of_dialog_id(r.id@) == PeerKind::Chat || kind_of_dialog_id(
                r.id@,
            ) == PeerKind::Channel,
        },
{
}

/// Naming a reference as an `InputChannel` names the same channel with the
/// same authority when the reference is to a channel, and nothing otherwise.
pub proof fn law_peer_ref_to_input_channel(r: PeerRef)
    requires
        is_valid_dialog_id(r.id@),
    ensures
        match input_channel_of(r) {
            InputChannel::Channel { channel_id, access_hash } => {
                &&& kind_of_dialog_id(r.id@) == PeerKind::Channel
                &&& channel_id_in_range(channel_id as int)
                &&& channel_dialog_id(channel_id as int) == r.id@
                &&& access_hash == r.auth@
            },
            InputChannel::Empty => kind_of_dialog_id(r.id@) != PeerKind::Channel,
        },
{
}

/// The dialog ID layout, in numbers: the ranges of each kind, the two
/// sentinels, and how each kind packs a bare identifier `b`.
pub proof fn law_dialog_id_layout(d: int, b: int)
    ensures
        SELF_USER_ID == 1_099_511_627_776,
        EMPTY_CHAT_ID == -1_000_000_000_000,
        is_user_dialog_id(d) <==> 1 <= d <= 1_099_511_627_775,
        is_chat_dialog_id(d) <==> -999_999_999_999 <= d <= -1,
        is_channel_dialog_id(d) <==> (-1_997_852_516_352 <= d <= -1_000_000_000_001 || -4_000_000_000_000
            <= d <= -2_002_147_483_649),
        is_valid_dialog_id(d) <==> (d == 1_099_511_627_776 || is_user_dialog_id(d)
            || is_chat_dialog_id(d) || is_channel_dialog_id(d)),
        user_dialog_id(b) == b,
        chat_dialog_id(b) == -b,
        channel_dialog_id(b) == -b - 1_000_000_000_000,
        user_id_in_range(b) <==> 1 <= b <= 1_099_511_627_775,
        chat_id_in_range(b) <==> 1 <= b <= 999_999_999_999,
        channel_id_in_range(b) <==> (1 <= b <= 997_852_516_352 || 1_002_147_483_649 <= b
            <= 3_000_000_000_000),
        is_valid_dialog_id(d) && is_user_dialog_id(d) ==> bare_id_of_dialog_id(d) == Some(d),
        is_valid_dialog_id(d) && is_chat_dialog_id(d) ==> bare_id_of_dialog_id(d) == Some(-d),
        is_valid_dialog_id(d) && is_channel_dialog_id(d) ==> bare_id_of_dialog_id(d) == Some(
            -d - 1_000_000_000_000,
        ),
        d == 1_099_511_627_776 ==> bare_id_of_dialog_id(d) is None,
{
}

/// A `Peer` names the user, chat or channel whose bare identifier it holds,
/// and an identity (other than the self-user's) is named by the constructor of
/// its kind holding its bare identifier.
pub proof fn law_peer_constructors(b: i64, d: int)
    ensures
        peer_dialog_id(Peer::User { user_id: b }) == b,
        peer_dialog_id(Peer::Chat { chat_id: b }) == -b,
        peer_dialog_id(Peer::Channel { channel_id: b }) == -b - 1_000_000_000_000,
        peer_has_valid_id(Peer::User { user_id: b }) <==> user_id_in_range(b as int),
        peer_has_valid_id(Peer::Chat { chat_id: b }) <==> chat_id_in_range(b as int),
        peer_has_valid_id(Peer::Channel { channel_id: b }) <==> channel_id_in_range(b as int),
        is_valid_dialog_id(d) && is_user_dialog_id(d) ==> peer_of_dialog_id(d) == (Peer::User {
            user_id: d as i64,
        }),
        is_valid_dialog_id(d) && is_chat_dialog_id(d) ==> peer_of_dialog_id(d) == (Peer::Chat {
            chat_id: (-d) as i64,
        }),
        is_valid_dialog_id(d) && is_channel_dialog_id(d) ==> peer_of_dialog_id(d) == (Peer::Channel {
            channel_id: (-d - 1_000_000_000_000) as i64,
        }),
{
}

/// A reference built from an `InputPeer` names the peer that each constructor
/// holds (the message-bound ones included) and carries exactly the access hash
/// that the constructor holds, whatever its sign; constructors without one give
/// the ambient authority (hash 0).
pub proof fn law_input_peer_reference(id: i64, h: i64)
    ensures
        !input_peer_is_convertible(InputPeer::Empty),
        input_peer_is_convertible(InputPeer::PeerSelf),
        input_peer_dialog_id(InputPeer::PeerSelf) == 1_099_511_627_776,
        input_peer_auth_hash(InputPeer::PeerSelf) == 0,
        input_peer_is_convertible(InputPeer::User { user_id: id, access_hash: h })
            <==> user_id_in_range(id as int),
        input_peer_dialog_id(InputPeer::User { user_id: id, access_hash: h }) == id,
        input_peer_auth_hash(InputPeer::User { user_id: id, access_hash: h }) == h,
        input_peer_is_convertible(InputPeer::Chat { chat_id: id }) <==> chat_id_in_range(id as int),
        input_peer_dialog_id(InputPeer::Chat { chat_id: id }) == -id,
        input_peer_auth_hash(InputPeer::Chat { chat_id: id }) == 0,
        input_peer_is_convertible(InputPeer::Channel { channel_id: id, access_hash: h })
            <==> channel_id_in_range(id as int),
        input_peer_dialog_id(InputPeer::Channel { channel_id: id, access_hash: h }) == -id
            - 1_000_000_000_000,
        input_peer_auth_hash(InputPeer::Channel { channel_id: id, access_hash: h }) == h,
        input_peer_is_convertible(InputPeer::UserFromMessage { user_id: id }) <==> user_id_in_range(
            id as int,
        ),
        input_peer_dialog_id(InputPeer::UserFromMessage { user_id: id }) == id,
        input_peer_auth_hash(InputPeer::UserFromMessage { user_id: id }) == 0,
        input_peer_is_convertible(InputPeer::ChannelFromMessage { channel_id: id })
            <==> channel_id_in_range(id as int),
        input_peer_dialog_id(InputPeer::ChannelFromMessage { channel_id: id }) == -id
            - 1_000_000_000_000,
        input_peer_auth_hash(InputPeer::ChannelFromMessage { channel_id: id }) == 0,
{
}

/// A reference is named as the `InputPeer` constructor of its kind: a user by
/// `User` with its bare identifier and access hash (whatever the hash, 0
/// included), the self-user by `PeerSelf`, a chat by `Chat` with its bare
/// identifier, and a channel by `Channel` with its bare identifier and access
/// hash. It is never named by an empty or message-bound constructor.
pub proof fn law_input_peer_constructors(r: PeerRef)
    requires
        is_valid_dialog_id(r.id@),
    ensures
        is_user_dialog_id(r.id@) ==> input_peer_of(r) == (InputPeer::User {
            user_id: r.id@ as i64,
            access_hash: r.auth@,
        }),
        r.id@ == 1_099_511_627_776 ==> input_peer_of(r) == InputPeer::PeerSelf,
        is_chat_dialog_id(r.id@) ==> input_peer_of(r) == (InputPeer::Chat {
            chat_id: (-r.id@) as i64,
        }),
        is_channel_dialog_id(r.id@) ==> input_peer_of(r) == (InputPeer::Channel {
            channel_id: (-r.id@ - 1_000_000_000_000) as i64,
            access_hash: r.auth@,
        }),
        !(input_peer_of(r) is Empty),
        !(input_peer_of(r) is UserFromMessage),
        !(input_peer_of(r) is ChannelFromMessage),
{
}

/// A reference is named as an `InputUser` by `User` with its bare identifier
/// and access hash when it is to a user, by `UserSelf` when it is the
/// self-user's, and by `Empty` otherwise; as an `InputChannel` by `Channel`
/// with its bare identifier and access hash when it is to a channel, and by
/// `Empty` otherwise; and it stands for the chat identifier of a chat, or for
/// the empty-chat sentinel.
pub proof fn law_input_user_channel_and_chat_id_constructors(r: PeerRef)
    requires
        is_valid_dialog_id(r.id@),
    ensures
        is_user_dialog_id(r.id@) ==> input_user_of(r) == (InputUser::User {
            user_id: r.id@ as i64,
            access_hash: r.auth@,
        }),
        r.id@ == 1_099_511_627_776 ==> input_user_of(r) == InputUser::UserSelf,
        is_chat_dialog_id(r.id@) || is_channel_dialog_id(r.id@) ==> input_user_of(r)
            == InputUser::Empty,
        is_channel_dialog_id(r.id@) ==> input_channel_of(r) == (InputChannel::Channel {
            channel_id: (-r.id@ - 1_000_000_000_000) as i64,
            access_hash: r.auth@,
        }),
        !is_channel_dialog_id(r.id@) ==> input_channel_of(r) == InputChannel::Empty,
        is_chat_dialog_id(r.id@) ==> chat_id_of(r) == -r.id@,
        !is_chat_dialog_id(r.id@) ==> chat_id_of(r) == -1_000_000_000_000,
{
}

/// A reference built from a user object names the user it holds (or the
/// logged-in user when its `self` flag is set) and carries exactly its access
/// hash, whatever its sign; without an access hash it carries the ambient
/// authority (hash 0).
pub proof fn law_user_object_reference(id: i64, is_self: bool, h: i64)
    ensures
        user_is_convertible(User::Empty { id }) <==> user_id_in_range(id as int),
        user_dialog_id_of(User::Empty { id }) == id,
        user_auth_hash(User::Empty { id }) == 0,
        user_is_convertible(User::User { id, is_self, access_hash: Some(h) }) <==> (is_self
            || user_id_in_range(id as int)),
        user_is_convertible(User::User { id, is_self, access_hash: None }) <==> (is_self
            || user_id_in_range(id as int)),
        user_dialog_id_of(User::User { id, is_self: false, access_hash: Some(h) }) == id,
        user_dialog_id_of(User::User { id, is_self: false, access_hash: None }) == id,
        user_dialog_id_of(User::User { id, is_self: true, access_hash: Some(h) })
            == 1_099_511_627_776,
        user_dialog_id_of(User::User { id, is_self: true, access_hash: None })
            == 1_099_511_627_776,
        user_auth_hash(User::User { id, is_self, access_hash: Some(h) }) == h,
        user_auth_hash(User::User { id, is_self, access_hash: None }) == 0,
{
}

/// A reference built from a chat object names the chat or channel it holds and
/// carries exactly its access hash, whatever its sign; objects without an
/// access hash give the ambient authority (hash 0).
pub proof fn law_chat_object_reference(id: i64, h: i64)
    ensures
        chat_is_convertible(Chat::Empty { id }) <==> chat_id_in_range(id as int),
        chat_is_convertible(Chat::Chat { id }) <==> chat_id_in_range(id as int),
        chat_is_convertible(Chat::Forbidden { id }) <==> chat_id_in_range(id as int),
        chat_is_convertible(Chat::Channel { id, access_hash: Some(h) }) <==> channel_id_in_range(
            id as int,
        ),
        chat_is_convertible(Chat::Channel { id, access_hash: None }) <==> channel_id_in_range(
            id as int,
        ),
        chat_is_convertible(Chat::ChannelForbidden { id, access_hash: h }) <==> channel_id_in_range(
            id as int,
        ),
        chat_dialog_id_of(Chat::Empty { id }) == -id,
        chat_dialog_id_of(Chat::Chat { id }) == -id,
        chat_dialog_id_of(Chat::Forbidden { id }) == -id,
        chat_dialog_id_of(Chat::Channel { id, access_hash: Some(h) }) == -id - 1_000_000_000_000,
        chat_dialog_id_of(Chat::Channel { id, access_hash: None }) == -id - 1_000_000_000_000,
        chat_dialog_id_of(Chat::ChannelForbidden { id, access_hash: h }) == -id
            - 1_000_000_000_000,
        chat_auth_hash(Chat::Empty { id }) == 0,
        chat_auth_hash(Chat::Chat { id }) == 0,
        chat_auth_hash(Chat::Forbidden { id }) == 0,
        chat_auth_hash(Chat::Channel { id, access_hash: Some(h) }) == h,
        chat_auth_hash(Chat::Channel { id, access_hash: None }) == 0,
        chat_auth_hash(Chat::ChannelForbidden { id, access_hash: h }) == h,
{
}

/// Cached info names the peer whose bare identifier it holds, and its
/// authority is exactly the one it holds, whatever the other fields (bot and
/// self flags, channel kind); without one it is the ambient authority (hash 0).
pub proof fn law_peer_info_reference(
    id: i64,
    a: PeerAuth,
    bot: Option<bool>,
    is_self: Option<bool>,
    kind: Option<ChannelKind>,
)
    ensures
        (PeerInfo::User { id, auth: Some(a), bot, is_self }).spec_auth_hash() == a@,
        (PeerInfo::User { id, auth: None, bot, is_self }).spec_auth_hash() == 0,
        (PeerInfo::Chat { id }).spec_auth_hash() == 0,
        (PeerInfo::Channel { id, auth: Some(a), kind }).spec_auth_hash() == a@,
        (PeerInfo::Channel { id, auth: None, kind }).spec_auth_hash() == 0,
        (PeerInfo::User { id, auth: Some(a), bot, is_self }).spec_dialog_id() == id,
        (PeerInfo::User { id, auth: None, bot, is_self }).spec_dialog_id() == id,
        (PeerInfo::Chat { id }).spec_dialog_id() == -id,
        (PeerInfo::Channel { id, auth: Some(a), kind }).spec_dialog_id() == -id
            - 1_000_000_000_000,
        (PeerInfo::Channel { id, auth: None, kind }).spec_dialog_id() == -id - 1_000_000_000_000,
        (PeerInfo::User { id, auth: Some(a), bot, is_self }).has_valid_id() <==> user_id_in_range(
            id as int,
        ),
        (PeerInfo::User { id, auth: None, bot, is_self }).has_valid_id() <==> user_id_in_range(
            id as int,
        ),
        (PeerInfo::Chat { id }).has_valid_id() <==> chat_id_in_range(id as int),
        (PeerInfo::Channel { id, auth: Some(a), kind }).has_valid_id() <==> channel_id_in_range(
            id as int,
        ),
        (PeerInfo::Channel { id, auth: None, kind }).has_valid_id() <==> channel_id_in_range(
            id as int,
        ),
{
}

} // verus!
