//! Peer identities, authorities and the capabilities bundling both.

use vstd::prelude::*;
use crate::ids::{
    bare_id_of_dialog_id, channel_dialog_id, user_dialog_id, channel_id_in_range, chat_dialog_id,
    chat_id_in_range, is_valid_dialog_id, kind_of_dialog_id, user_id_in_range, CHANNEL_ID_OFFSET,
    MAX_CHANNEL_ID, MAX_CHAT_ID, MAX_MONOFORUM_ID, MAX_USER_ID, MIN_CHANNEL_ID, MIN_CHAT_ID,
    MIN_MONOFORUM_ID, MIN_USER_ID, SELF_USER_ID,
};

verus! {

/// A compact peer identifier.
///
/// The internal representation uses the Bot API dialog ID format to bit-pack
/// both the peer's true identifier and its kind in a single integer. The
/// self-user is represented by a sentinel outside every valid range.
#[derive(Clone, Copy, Debug, PartialEq, Eq, Structural, Hash)]
pub struct PeerId {
    dialog_id: i64,
}

/// Error creating the self-user's identity.
///
/// Creating the self-user's identity cannot fail, so no value of this type is
/// ever made: its invariant cannot hold.
#[derive(Clone, Copy, Debug)]
pub struct PeerIdFromSelfUserError {
    unreachable: (),
}

/// Error creating a user's identity.
#[derive(Clone, Copy, Debug)]
pub enum PeerIdFromUserError {
    /// The user ID is out of range.
    IdOutOfRange,
}

/// Error creating a small group chat's identity.
#[derive(Clone, Copy, Debug)]
pub enum PeerIdFromChatError {
    /// The chat ID is out of range.
    IdOutOfRange,
}

/// Error creating a channel's identity.
#[derive(Clone, Copy, Debug)]
pub enum PeerIdFromChannelError {
    /// The channel ID is out of range.
    IdOutOfRange,
}

/// Error unpacking the bare identifier of a peer.
#[derive(Clone, Copy, Debug)]
pub enum BarePeerIdError {
    /// The self-user's identifier is not known.
    SelfUserIdNotKnown,
}

/// Any error creating a peer identity.
#[allow(inconsistent_fields)]
#[derive(Clone, Copy, Debug)]
pub enum PeerIdError {
    /// Creating the self-user's identity failed.
    SelfUser { source: PeerIdFromSelfUserError },
    /// Creating a user's identity failed.
    User { source: PeerIdFromUserError },
    /// Creating a small group chat's identity failed.
    Chat { source: PeerIdFromChatError },
    /// Creating a channel's identity failed.
    Channel { source: PeerIdFromChannelError },
}

/// [`PeerId`]'s kind.
///
/// The `PeerId` bit-packs this information for size reasons.
#[derive(Clone, Copy, Debug, PartialEq, Eq, Structural, Hash)]
pub enum PeerKind {
    /// The peer identity belongs to a user. May also represent [`PeerKind::UserSelf`].
    User,
    /// The peer identity belongs to the logged-in user.
    UserSelf,
    /// The peer identity belongs to a small group chat or one of its derivatives.
    Chat,
    /// The peer identity belongs to a channel or one of its derivatives.
    Channel,
}

/// Witness to the session's authority from Telegram to interact with a peer.
///
/// If Telegram deems the session to already have such authority, the session
/// may be allowed to present [`PeerAuth::default`] instead of this witness.
/// This can happen when the logged-in user is a bot account, or, for user
/// accounts, when the peer being interacted with is one of its contacts.
#[derive(Clone, Copy, Debug, PartialEq, Eq, Structural, Hash)]
pub struct PeerAuth {
    access_hash: i64,
}

/// Reference to a peer object: the identity of a peer (its [`PeerId`]) bundled
/// with authority over it (as [`PeerAuth`]).
#[derive(Clone, Copy, Debug, PartialEq, Eq, Structural, Hash)]
pub struct PeerRef {
    /// The peer identity.
    pub id: PeerId,
    /// The authority bound to both the sibling identity and the session of the logged-in user.
    pub auth: PeerAuth,
}

/// Additional information about a [`PeerInfo::Channel`].
#[derive(Clone, Copy, Debug, PartialEq, Eq, Structural)]
pub enum ChannelKind {
    /// A channel with its `megagroup` flag set.
    Megagroup,
    /// A channel with its `broadcast` flag set.
    Broadcast,
    /// A channel with its `gigagroup` flag set.
    Gigagroup,
}

/// An exploded peer reference along with any known useful information about the peer.
#[derive(Clone, Debug, PartialEq, Eq, Structural)]
pub enum PeerInfo {
    User {
        /// Bare user identifier; never zero, and strictly positive in practice.
        id: i64,
        /// Non-ambient authority bound to both the user itself and the session.
        auth: Option<PeerAuth>,
        /// Whether this user represents a bot or not.
        bot: Option<bool>,
        /// Whether this user represents the logged-in user authorized by this session or not.
        is_self: Option<bool>,
    },
    Chat {
        /// Bare chat identifier; never zero, and strictly positive in practice.
        id: i64,
    },
    Channel {
        /// Bare channel identifier; never zero, and strictly positive in practice.
        id: i64,
        /// Non-ambient authority bound to both the channel itself and the session.
        auth: Option<PeerAuth>,
        /// Channel kind, useful to determine what the possible permissions on it are.
        kind: Option<ChannelKind>,
    },
}

impl PeerIdFromSelfUserError {
    #[verifier::type_invariant]
    closed spec fn never_made(self) -> bool {
        false
    }
}

impl View for PeerAuth {
    type V = i64;

    /// The access hash held by this authority.
    closed spec fn view(&self) -> i64 {
        self.access_hash
    }
}

impl View for PeerId {
    type V = int;

    /// The Bot API dialog ID held by this identity.
    closed spec fn view(&self) -> int {
        self.dialog_id as int
    }
}

/// `-x`, or nothing where it overflows.
fn checked_neg(x: i64) -> (r: Option<i64>)
    ensures
        r == (if x == i64::MIN { None } else { Some((-x) as i64) }),
{
    if x == i64::MIN {
        None
    } else {
        Some(-x)
    }
}

impl PeerId {
    #[verifier::type_invariant]
    closed spec fn holds_valid_dialog_id(self) -> bool {
        is_valid_dialog_id(self.dialog_id as int)
    }

    /// Creates a peer identity for the currently-logged-in user or bot account.
    ///
    /// Internally, this uses a special sentinel value outside of any valid Bot
    /// API dialog ID range.
    pub fn self_user_checked() -> (r: Result<Self, PeerIdFromSelfUserError>)
        ensures
            r matches Ok(p) && p@ == SELF_USER_ID,
    {
        Ok(PeerId { dialog_id: SELF_USER_ID })
    }

    /// Creates a peer identity for the currently-logged-in user or bot account.
    pub fn self_user() -> (r: Self)
        ensures
            r@ == SELF_USER_ID,
    {
        PeerId { dialog_id: SELF_USER_ID }
    }

    /// Creates a peer identity for a user or bot account.
    ///
    /// `id` is the bare user identifier, which is never zero.
    pub fn user_checked(id: i64) -> (r: Result<Self, PeerIdFromUserError>)
        requires
            id != 0,
        ensures
            r is Ok <==> user_id_in_range(id as int),
            r matches Ok(p) ==> p@ == id,
            r matches Err(e) ==> e == PeerIdFromUserError::IdOutOfRange,
    {
        if MIN_USER_ID <= id && id <= MAX_USER_ID {
            Ok(PeerId { dialog_id: id })
        } else {
            Err(PeerIdFromUserError::IdOutOfRange)
        }
    }

    /// Creates a peer identity for a user or bot account, from an ID that is
    /// known to be in range.
    pub fn user(id: i64) -> (r: Self)
        requires
            user_id_in_range(id as int),
        ensures
            r@ == id,
    {
        PeerId { dialog_id: id }
    }

    /// Creates a peer identity for a small group chat.
    ///
    /// `id` is the bare chat identifier, which is never zero.
    pub fn chat_checked(id: i64) -> (r: Result<Self, PeerIdFromChatError>)
        requires
            id != 0,
        ensures
            r is Ok <==> chat_id_in_range(id as int),
            r matches Ok(p) ==> p@ == chat_dialog_id(id as int),
            r matches Err(e) ==> e == PeerIdFromChatError::IdOutOfRange,
    {
        if let Some(d) = checked_neg(id) {
            if MIN_CHAT_ID <= d && d <= MAX_CHAT_ID {
                return Ok(PeerId { dialog_id: d });
            }
        }
        Err(PeerIdFromChatError::IdOutOfRange)
    }

    /// Creates a peer identity for a small group chat, from an ID that is known
    /// to be in range.
    pub fn chat(id: i64) -> (r: Self)
        requires
            chat_id_in_range(id as int),
        ensures
            r@ == chat_dialog_id(id as int),
    {
        PeerId { dialog_id: -id }
    }

    /// Creates a peer identity for a broadcast channel, megagroup, gigagroup or monoforum.
    ///
    /// `id` is the bare channel identifier, which is never zero.
    pub fn channel_checked(id: i64) -> (r: Result<Self, PeerIdFromChannelError>)
        requires
            id != 0,
        ensures
            r is Ok <==> channel_id_in_range(id as int),
            r matches Ok(p) ==> p@ == channel_dialog_id(id as int),
            r matches Err(e) ==> e == PeerIdFromChannelError::IdOutOfRange,
    {
        if let Some(shifted) = id.checked_add(CHANNEL_ID_OFFSET) {
            if let Some(d) = checked_neg(shifted) {
                if (MIN_CHANNEL_ID <= d && d <= MAX_CHANNEL_ID) || (MIN_MONOFORUM_ID <= d && d
                    <= MAX_MONOFORUM_ID) {
                    if d != 0 {
                        return Ok(PeerId { dialog_id: d });
                    }
                }
            }
        }
        Err(PeerIdFromChannelError::IdOutOfRange)
    }

    /// Creates a peer identity for a broadcast channel, megagroup, gigagroup or
    /// monoforum, from an ID that is known to be in range.
    pub fn channel(id: i64) -> (r: Self)
        requires
            channel_id_in_range(id as int),
        ensures
            r@ == channel_dialog_id(id as int),
    {
        PeerId { dialog_id: -(id + CHANNEL_ID_OFFSET) }
    }

    /// Peer kind.
    pub fn kind(self) -> (k: PeerKind)
        ensures
            k == kind_of_dialog_id(self@),
            is_valid_dialog_id(self@),
    {
        proof {
            use_type_invariant(&self);
        }
        let d = self.dialog_id;
        if d == SELF_USER_ID {
            PeerKind::UserSelf
        } else if MIN_USER_ID <= d && d <= MAX_USER_ID {
            PeerKind::User
        } else if MIN_CHAT_ID <= d && d <= MAX_CHAT_ID {
            PeerKind::Chat
        } else {
            PeerKind::Channel
        }
    }

    /// Returns the identity using the Bot API dialog ID format.
    ///
    /// For [`PeerKind::UserSelf`] the value is a sentinel that should not be
    /// relied on.
    pub fn bot_api_dialog_id(self) -> (d: i64)
        ensures
            d == self@,
            d != 0,
            is_valid_dialog_id(d as int),
    {
        proof {
            use_type_invariant(&self);
        }
        self.dialog_id
    }

    /// Unpacked peer identifier.
    ///
    /// The identity must not be of kind [`PeerKind::UserSelf`], whose bare
    /// identifier is not known.
    pub fn bare_id(&self) -> (r: Result<i64, BarePeerIdError>)
        requires
            kind_of_dialog_id(self@) != PeerKind::UserSelf,
        ensures
            r matches Ok(b) && bare_id_of_dialog_id(self@) == Some(b as int) && b > 0,
    {
        proof {
            use_type_invariant(self);
        }
        let d = self.dialog_id;
        match self.kind() {
            PeerKind::UserSelf => Err(BarePeerIdError::SelfUserIdNotKnown),
            PeerKind::User => Ok(d),
            PeerKind::Chat => Ok(-d),
            PeerKind::Channel => Ok(-d - CHANNEL_ID_OFFSET),
        }
    }
}

impl PeerInfo {
    /// The bare identifier of the peer this info describes is in the range of
    /// its kind.
    pub open spec fn has_valid_id(&self) -> bool {
        match self {
            PeerInfo::User { id, .. } => user_id_in_range(*id as int),
            PeerInfo::Chat { id } => chat_id_in_range(*id as int),
            PeerInfo::Channel { id, .. } => channel_id_in_range(*id as int),
        }
    }

    /// The dialog ID of the peer this info describes.
    pub open spec fn spec_dialog_id(&self) -> int {
        match self {
            PeerInfo::User { id, .. } => user_dialog_id(*id as int),
            PeerInfo::Chat { id } => chat_dialog_id(*id as int),
            PeerInfo::Channel { id, .. } => channel_dialog_id(*id as int),
        }
    }

    /// The authority this info holds; the ambient authority (hash 0) where none is known.
    pub open spec fn spec_auth_hash(&self) -> i64 {
        match self {
            PeerInfo::User { auth: Some(a), .. } => a@,
            PeerInfo::Channel { auth: Some(a), .. } => a@,
            _ => 0,
        }
    }

    /// Returns the `PeerId` represented by this info.
    ///
    /// The returned [`PeerId::kind()`] is never [`PeerKind::UserSelf`].
    pub fn id(&self) -> (r: PeerId)
        requires
            self.has_valid_id(),
        ensures
            r@ == self.spec_dialog_id(),
            kind_of_dialog_id(r@) != PeerKind::UserSelf,
    {
        match self {
            PeerInfo::User { id, .. } => PeerId::user(*id),
            PeerInfo::Chat { id } => PeerId::chat(*id),
            PeerInfo::Channel { id, .. } => PeerId::channel(*id),
        }
    }

    /// Returns the `PeerAuth` stored in this info, or [`PeerAuth::default()`]
    /// if that info is not known.
    pub fn auth(&self) -> (r: PeerAuth)
        ensures
            r@ == self.spec_auth_hash(),
    {
        match self {
            PeerInfo::User { auth: Some(auth), .. } => *auth,
            PeerInfo::Channel { auth: Some(auth), .. } => *auth,
            _ => PeerAuth::default(),
        }
    }
}

impl From<PeerIdFromSelfUserError> for PeerIdError {
    fn from(source: PeerIdFromSelfUserError) -> (r: Self) {
        PeerIdError::SelfUser { source }
    }
}

impl vstd::std_specs::convert::FromSpecImpl<PeerIdFromSelfUserError> for PeerIdError {
    open spec fn obeys_from_spec() -> bool {
        true
    }

    open spec fn from_spec(source: PeerIdFromSelfUserError) -> Self {
        PeerIdError::SelfUser { source }
    }
}

impl From<PeerIdFromUserError> for PeerIdError {
    fn from(source: PeerIdFromUserError) -> (r: Self) {
        PeerIdError::User { source }
    }
}

impl vstd::std_specs::convert::FromSpecImpl<PeerIdFromUserError> for PeerIdError {
    open spec fn obeys_from_spec() -> bool {
        true
    }

    open spec fn from_spec(source: PeerIdFromUserError) -> Self {
        PeerIdError::User { source }
    }
}

impl From<PeerIdFromChatError> for PeerIdError {
    fn from(source: PeerIdFromChatError) -> (r: Self) {
        PeerIdError::Chat { source }
    }
}

impl vstd::std_specs::convert::FromSpecImpl<PeerIdFromChatError> for PeerIdError {
    open spec fn obeys_from_spec() -> bool {
        true
    }

    open spec fn from_spec(source: PeerIdFromChatError) -> Self {
        PeerIdError::Chat { source }
    }
}

impl From<PeerIdFromChannelError> for PeerIdError {
    fn from(source: PeerIdFromChannelError) -> (r: Self) {
        PeerIdError::Channel { source }
    }
}

impl vstd::std_specs::convert::FromSpecImpl<PeerIdFromChannelError> for PeerIdError {
    open spec fn obeys_from_spec() -> bool {
        true
    }

    open spec fn from_spec(source: PeerIdFromChannelError) -> Self {
        PeerIdError::Channel { source }
    }
}

impl PeerId {
    /// Two identities are equal exactly when they hold the same dialog ID.
    pub proof fn lemma_eq(a: PeerId, b: PeerId)
        ensures
            (a == b) == (a@ == b@),
    {
    }
}

impl PeerAuth {
    /// Two authorities are equal exactly when they hold the same access hash.
    pub proof fn lemma_eq(a: PeerAuth, b: PeerAuth)
        ensures
            (a == b) == (a@ == b@),
    {
    }

    /// Constructs a new peer authentication using Telegram's `access_hash` value.
    pub fn from_hash(access_hash: i64) -> (r: Self)
        ensures
            r@ == access_hash,
    {
        PeerAuth { access_hash }
    }

    /// Grants access to the internal access hash.
    pub fn hash(&self) -> (h: i64)
        ensures
            h == self@,
    {
        self.access_hash
    }
}

impl Default for PeerAuth {
    /// Returns the ambient authority, which authorizes peers only when Telegram
    /// considers it valid.
    ///
    /// The internal representation uses `0` to signal the ambient authority,
    /// although this might happen to be the actual witness used by some peers.
    fn default() -> (r: Self)
        ensures
            r@ == 0,
    {
        PeerAuth { access_hash: 0 }
    }
}

} // verus!
