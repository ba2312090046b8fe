//! The Bot API dialog ID ranges, and the mathematical model of how a bare
//! identifier and a peer kind are packed into one dialog ID.

use vstd::prelude::*;
use crate::peer::PeerKind;

verus! {

/// Sentinel dialog ID standing for the logged-in user when its true ID is unknown.
///
/// A Bot API dialog ID ranges from -4000000000000 to 1099511627775, so this
/// value (2^40) lies outside every valid range.
pub const SELF_USER_ID: i64 = 0x100_0000_0000;

/// Smallest user dialog ID (<https://core.telegram.org/api/bots/ids#user-ids>).
pub const MIN_USER_ID: i64 = 1;

/// Largest user dialog ID (<https://core.telegram.org/api/bots/ids#user-ids>).
pub const MAX_USER_ID: i64 = 0xff_ffff_ffff;

/// Smallest chat dialog ID (<https://core.telegram.org/api/bots/ids#chat-ids>).
pub const MIN_CHAT_ID: i64 = -999_999_999_999;

/// Largest chat dialog ID (<https://core.telegram.org/api/bots/ids#chat-ids>).
pub const MAX_CHAT_ID: i64 = -1;

/// Smallest channel dialog ID
/// (<https://core.telegram.org/api/bots/ids#supergroup-channel-ids>).
pub const MIN_CHANNEL_ID: i64 = -1_997_852_516_352;

/// Largest channel dialog ID
/// (<https://core.telegram.org/api/bots/ids#supergroup-channel-ids>).
pub const MAX_CHANNEL_ID: i64 = -1_000_000_000_001;

/// Smallest monoforum dialog ID (<https://core.telegram.org/api/bots/ids#monoforum-ids>).
pub const MIN_MONOFORUM_ID: i64 = -4_000_000_000_000;

/// Largest monoforum dialog ID (<https://core.telegram.org/api/bots/ids#monoforum-ids>).
pub const MAX_MONOFORUM_ID: i64 = -2_002_147_483_649;

/// The offset that the Bot API subtracts from a negated channel ID.
pub const CHANNEL_ID_OFFSET: i64 = 1_000_000_000_000;

/// Sentinel used to represent an empty chat.
///
/// It lies in the hole between the chat range and the channel range, so it is
/// neither a valid chat nor a valid channel dialog ID.
pub const EMPTY_CHAT_ID: i64 = -1_000_000_000_000;

/// `d` is a user dialog ID.
pub open spec fn is_user_dialog_id(d: int) -> bool {
    MIN_USER_ID <= d <= MAX_USER_ID
}

/// `d` is a small group chat dialog ID.
pub open spec fn is_chat_dialog_id(d: int) -> bool {
    MIN_CHAT_ID <= d <= MAX_CHAT_ID
}

/// `d` is a channel (broadcast, megagroup, gigagroup) or monoforum dialog ID.
pub open spec fn is_channel_dialog_id(d: int) -> bool {
    ||| MIN_CHANNEL_ID <= d <= MAX_CHANNEL_ID
    ||| MIN_MONOFORUM_ID <= d <= MAX_MONOFORUM_ID
}

/// `d` is a dialog ID that a `PeerId` may hold: the self-user sentinel or a
/// user, chat or channel dialog ID.
pub open spec fn is_valid_dialog_id(d: int) -> bool {
    ||| d == SELF_USER_ID
    ||| is_user_dialog_id(d)
    ||| is_chat_dialog_id(d)
    ||| is_channel_dialog_id(d)
}

/// The kind of peer that a valid dialog ID denotes.
pub open spec fn kind_of_dialog_id(d: int) -> PeerKind {
    if d == SELF_USER_ID {
        PeerKind::UserSelf
    } else if is_user_dialog_id(d) {
        PeerKind::User
    } else if is_chat_dialog_id(d) {
        PeerKind::Chat
    } else {
        PeerKind::Channel
    }
}

/// The dialog ID of the user with bare identifier `bare`.
pub open spec fn user_dialog_id(bare: int) -> int {
    bare
}

/// The dialog ID of the small group chat with bare identifier `bare`.
pub open spec fn chat_dialog_id(bare: int) -> int {
    -bare
}

/// The dialog ID of the channel with bare identifier `bare`.
pub open spec fn channel_dialog_id(bare: int) -> int {
    -(bare + CHANNEL_ID_OFFSET)
}

/// The bare identifier packed in the valid dialog ID `d`; none for the
/// self-user sentinel.
pub open spec fn bare_id_of_dialog_id(d: int) -> Option<int> {
    match kind_of_dialog_id(d) {
        PeerKind::UserSelf => None,
        PeerKind::User => Some(d),
        PeerKind::Chat => Some(-d),
        PeerKind::Channel => Some(-d - CHANNEL_ID_OFFSET),
    }
}

/// The dialog ID that packs `bare` with `kind`.
pub open spec fn dialog_id_of(kind: PeerKind, bare: int) -> int {
    match kind {
        PeerKind::UserSelf => SELF_USER_ID as int,
        PeerKind::User => user_dialog_id(bare),
        PeerKind::Chat => chat_dialog_id(bare),
        PeerKind::Channel => channel_dialog_id(bare),
    }
}

/// `bare` is the bare identifier of a user.
pub open spec fn user_id_in_range(bare: int) -> bool {
    is_user_dialog_id(user_dialog_id(bare))
}

/// `bare` is the bare identifier of a small group chat.
pub open spec fn chat_id_in_range(bare: int) -> bool {
    is_chat_dialog_id(chat_dialog_id(bare))
}

/// `bare` is the bare identifier of a channel or monoforum.
pub open spec fn channel_id_in_range(bare: int) -> bool {
    is_channel_dialog_id(channel_dialog_id(bare))
}

} // verus!
