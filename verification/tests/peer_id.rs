use grammers_session::{
    PeerAuth, PeerId, PeerIdError, PeerIdFromChannelError, PeerIdFromChatError,
    PeerIdFromUserError, PeerKind,
};

#[test]
fn peer_id_is_as_small_as_i64() {
    assert_eq!(std::mem::size_of::<PeerId>(), std::mem::size_of::<i64>());
}

#[test]
fn self_user_is_a_sentinel_without_bare_id() {
    let p = PeerId::self_user_checked().unwrap();
    assert_eq!(p, PeerId::self_user());
    assert_eq!(p.kind(), PeerKind::UserSelf);
    assert_eq!(p.bot_api_dialog_id(), 1i64 << 40);
    assert_ne!(p, PeerId::user(0xffffffffff));
}

#[test]
fn equal_dialog_ids_are_equal_identities() {
    assert_eq!(PeerId::user(7), PeerId::user_checked(7).unwrap());
    assert_eq!(PeerId::chat(7).bot_api_dialog_id(), PeerId::chat_checked(7).unwrap().bot_api_dialog_id());
    assert_ne!(PeerId::chat(1), PeerId::user(1));
    assert_ne!(PeerId::chat(1).bot_api_dialog_id(), PeerId::user(1).bot_api_dialog_id());
}

#[test]
fn equal_hashes_are_equal_authorities() {
    assert_eq!(PeerAuth::from_hash(3), PeerAuth::from_hash(3));
    assert_ne!(PeerAuth::from_hash(3), PeerAuth::from_hash(4));
}

#[test]
fn user_ids_pack_unchanged() {
    let p = PeerId::user_checked(1).unwrap();
    assert_eq!(p.kind(), PeerKind::User);
    assert_eq!(p.bot_api_dialog_id(), 1);
    assert_eq!(p.bare_id().unwrap(), 1);
    let q = PeerId::user(0xffffffffff);
    assert_eq!(q.kind(), PeerKind::User);
    assert_eq!(q.bot_api_dialog_id(), 0xffffffffff);
    assert_eq!(q.bare_id().unwrap(), 0xffffffffff);
}

#[test]
fn user_ids_out_of_range_are_refused() {
    assert!(matches!(PeerId::user_checked(0x10000000000), Err(PeerIdFromUserError::IdOutOfRange)));
    assert!(matches!(PeerId::user_checked(-1), Err(PeerIdFromUserError::IdOutOfRange)));
    assert!(matches!(PeerId::user_checked(i64::MIN), Err(PeerIdFromUserError::IdOutOfRange)));
    assert!(matches!(PeerId::user_checked(i64::MAX), Err(PeerIdFromUserError::IdOutOfRange)));
}

#[test]
fn chat_ids_pack_negated() {
    let p = PeerId::chat_checked(1).unwrap();
    assert_eq!(p.kind(), PeerKind::Chat);
    assert_eq!(p.bot_api_dialog_id(), -1);
    assert_eq!(p.bare_id().unwrap(), 1);
    let q = PeerId::chat(999999999999);
    assert_eq!(q.kind(), PeerKind::Chat);
    assert_eq!(q.bot_api_dialog_id(), -999999999999);
    assert_eq!(q.bare_id().unwrap(), 999999999999);
}

#[test]
fn chat_ids_out_of_range_are_refused() {
    assert!(matches!(PeerId::chat_checked(1000000000000), Err(PeerIdFromChatError::IdOutOfRange)));
    assert!(matches!(PeerId::chat_checked(-1), Err(PeerIdFromChatError::IdOutOfRange)));
    assert!(matches!(PeerId::chat_checked(i64::MIN), Err(PeerIdFromChatError::IdOutOfRange)));
}

#[test]
fn channel_ids_pack_offset_and_negated() {
    let p = PeerId::channel_checked(1).unwrap();
    assert_eq!(p.kind(), PeerKind::Channel);
    assert_eq!(p.bot_api_dialog_id(), -1000000000001);
    assert_eq!(p.bare_id().unwrap(), 1);
    let q = PeerId::channel(997852516352);
    assert_eq!(q.bot_api_dialog_id(), -1997852516352);
    assert_eq!(q.bare_id().unwrap(), 997852516352);
}

#[test]
fn monoforum_ids_are_channels() {
    let p = PeerId::channel_checked(1002147483649).unwrap();
    assert_eq!(p.kind(), PeerKind::Channel);
    assert_eq!(p.bot_api_dialog_id(), -2002147483649);
    assert_eq!(p.bare_id().unwrap(), 1002147483649);
    let q = PeerId::channel(3000000000000);
    assert_eq!(q.bot_api_dialog_id(), -4000000000000);
    assert_eq!(q.bare_id().unwrap(), 3000000000000);
}

#[test]
fn channel_ids_in_the_gaps_are_refused() {
    assert!(matches!(PeerId::channel_checked(997852516353), Err(PeerIdFromChannelError::IdOutOfRange)));
    assert!(matches!(PeerId::channel_checked(1002147483648), Err(PeerIdFromChannelError::IdOutOfRange)));
    assert!(matches!(PeerId::channel_checked(3000000000001), Err(PeerIdFromChannelError::IdOutOfRange)));
    assert!(matches!(PeerId::channel_checked(-1), Err(PeerIdFromChannelError::IdOutOfRange)));
    assert!(matches!(PeerId::channel_checked(i64::MAX), Err(PeerIdFromChannelError::IdOutOfRange)));
    assert!(matches!(PeerId::channel_checked(i64::MIN), Err(PeerIdFromChannelError::IdOutOfRange)));
}

#[test]
fn same_bare_id_gives_distinct_peers_of_each_kind() {
    let u = PeerId::user(777);
    let c = PeerId::chat(777);
    let h = PeerId::channel(777);
    assert_ne!(u, c);
    assert_ne!(c, h);
    assert_ne!(u, h);
    assert_eq!(u.bare_id().unwrap(), 777);
    assert_eq!(c.bare_id().unwrap(), 777);
    assert_eq!(h.bare_id().unwrap(), 777);
}

#[test]
fn unpack_then_pack_gives_the_same_peer() {
    for p in [PeerId::user(42), PeerId::chat(42), PeerId::channel(42), PeerId::channel(2000000000000)] {
        let bare = p.bare_id().unwrap();
        let q = match p.kind() {
            PeerKind::User => PeerId::user_checked(bare).unwrap(),
            PeerKind::Chat => PeerId::chat_checked(bare).unwrap(),
            PeerKind::Channel => PeerId::channel_checked(bare).unwrap(),
            PeerKind::UserSelf => unreachable!(),
        };
        assert_eq!(p, q);
    }
}

#[test]
fn dialog_id_text_is_decimal() {
    assert_eq!(PeerId::user(12345).to_string(), "12345");
    assert_eq!(PeerId::chat(5).to_string(), "-5");
    assert_eq!(PeerId::channel(1).to_string(), "-1000000000001");
    assert_eq!(PeerId::self_user().to_string(), "1099511627776");
}

#[test]
fn peer_auth_holds_its_hash() {
    assert_eq!(PeerAuth::from_hash(-99).hash(), -99);
    assert_eq!(PeerAuth::default().hash(), 0);
    assert_eq!(PeerAuth::default(), PeerAuth::from_hash(0));
}

#[test]
fn errors_convert_into_peer_id_error() {
    let e: PeerIdError = PeerIdFromUserError::IdOutOfRange.into();
    assert!(matches!(e, PeerIdError::User { source: PeerIdFromUserError::IdOutOfRange }));
    let e = PeerIdError::from(PeerIdFromChatError::IdOutOfRange);
    assert!(matches!(e, PeerIdError::Chat { source: PeerIdFromChatError::IdOutOfRange }));
    let e = PeerIdError::from(PeerIdFromChannelError::IdOutOfRange);
    assert!(matches!(e, PeerIdError::Channel { source: PeerIdFromChannelError::IdOutOfRange }));
}
