use grammers_session::tl::{Chat, InputChannel, InputPeer, InputUser, Peer, User};
use grammers_session::{ChannelKind, PeerAuth, PeerId, PeerInfo, PeerKind, PeerRef};

#[test]
fn peer_info_id_and_auth() {
    let u = PeerInfo::User { id: 10, auth: Some(PeerAuth::from_hash(3)), bot: Some(true), is_self: Some(true) };
    assert_eq!(u.id(), PeerId::user(10));
    assert_ne!(u.id().kind(), PeerKind::UserSelf);
    assert_eq!(u.auth(), PeerAuth::from_hash(3));
    let c = PeerInfo::Chat { id: 11 };
    assert_eq!(c.id(), PeerId::chat(11));
    assert_eq!(c.auth(), PeerAuth::default());
    let h = PeerInfo::Channel { id: 12, auth: None, kind: Some(ChannelKind::Megagroup) };
    assert_eq!(h.id(), PeerId::channel(12));
    assert_eq!(h.auth(), PeerAuth::default());
    let h2 = PeerInfo::Channel { id: 12, auth: Some(PeerAuth::from_hash(8)), kind: None };
    assert_eq!(PeerRef::from_peer_info(h2), PeerRef { id: PeerId::channel(12), auth: PeerAuth::from_hash(8) });
}

#[test]
fn peer_converts_both_ways() {
    assert_eq!(PeerId::from_peer(Peer::User { user_id: 5 }), PeerId::user(5));
    assert_eq!(PeerId::from_peer(Peer::Chat { chat_id: 5 }), PeerId::chat(5));
    assert_eq!(PeerId::from_peer(Peer::Channel { channel_id: 5 }), PeerId::channel(5));
    assert_eq!(PeerId::user(5).to_peer(), Peer::User { user_id: 5 });
    assert_eq!(PeerId::chat(6).to_peer(), Peer::Chat { chat_id: 6 });
    assert_eq!(PeerId::channel(7).to_peer(), Peer::Channel { channel_id: 7 });
    for p in [Peer::User { user_id: 1 }, Peer::Chat { chat_id: 999999999999 }, Peer::Channel { channel_id: 3000000000000 }] {
        assert_eq!(PeerId::from_peer(p).to_peer(), p);
    }
}

#[test]
fn input_peer_to_peer_ref() {
    assert_eq!(PeerRef::from_input_peer(InputPeer::PeerSelf), PeerRef { id: PeerId::self_user(), auth: PeerAuth::default() });
    assert_eq!(
        PeerRef::from_input_peer(InputPeer::User { user_id: 9, access_hash: 4 }),
        PeerRef { id: PeerId::user(9), auth: PeerAuth::from_hash(4) }
    );
    assert_eq!(PeerRef::from_input_peer(InputPeer::Chat { chat_id: 9 }), PeerRef { id: PeerId::chat(9), auth: PeerAuth::default() });
    assert_eq!(
        PeerRef::from_input_peer(InputPeer::Channel { channel_id: 9, access_hash: -4 }),
        PeerRef { id: PeerId::channel(9), auth: PeerAuth::from_hash(-4) }
    );
    assert_eq!(PeerRef::from_input_peer(InputPeer::UserFromMessage { user_id: 9 }), PeerRef { id: PeerId::user(9), auth: PeerAuth::default() });
    assert_eq!(
        PeerRef::from_input_peer(InputPeer::ChannelFromMessage { channel_id: 9 }),
        PeerRef { id: PeerId::channel(9), auth: PeerAuth::default() }
    );
}

#[test]
fn peer_ref_to_input_peer() {
    let u = PeerRef { id: PeerId::user(9), auth: PeerAuth::from_hash(4) };
    assert_eq!(InputPeer::from(u), InputPeer::User { user_id: 9, access_hash: 4 });
    let s = PeerRef { id: PeerId::self_user(), auth: PeerAuth::from_hash(4) };
    assert_eq!(InputPeer::from(s), InputPeer::PeerSelf);
    let c = PeerRef { id: PeerId::chat(9), auth: PeerAuth::from_hash(4) };
    assert_eq!(InputPeer::from(c), InputPeer::Chat { chat_id: 9 });
    let h = PeerRef { id: PeerId::channel(9), auth: PeerAuth::from_hash(4) };
    assert_eq!(InputPeer::from(h), InputPeer::Channel { channel_id: 9, access_hash: 4 });
}

#[test]
fn input_peer_round_trip_keeps_identity_and_authority_of_users_and_channels() {
    let u = PeerRef { id: PeerId::user(9), auth: PeerAuth::from_hash(4) };
    assert_eq!(PeerRef::from_input_peer(InputPeer::from(u)), u);
    let h = PeerRef { id: PeerId::channel(9), auth: PeerAuth::from_hash(4) };
    assert_eq!(PeerRef::from_input_peer(InputPeer::from(h)), h);
    let c = PeerRef { id: PeerId::chat(9), auth: PeerAuth::from_hash(4) };
    assert_eq!(PeerRef::from_input_peer(InputPeer::from(c)), PeerRef { id: PeerId::chat(9), auth: PeerAuth::default() });
    let s = PeerRef { id: PeerId::self_user(), auth: PeerAuth::from_hash(4) };
    assert_eq!(PeerRef::from_input_peer(InputPeer::from(s)), PeerRef { id: PeerId::self_user(), auth: PeerAuth::default() });
}

#[test]
fn peer_ref_to_input_user() {
    assert_eq!(
        InputUser::from(PeerRef { id: PeerId::user(9), auth: PeerAuth::from_hash(4) }),
        InputUser::User { user_id: 9, access_hash: 4 }
    );
    assert_eq!(InputUser::from(PeerRef { id: PeerId::self_user(), auth: PeerAuth::default() }), InputUser::UserSelf);
    assert_eq!(InputUser::from(PeerRef { id: PeerId::chat(9), auth: PeerAuth::default() }), InputUser::Empty);
    assert_eq!(InputUser::from(PeerRef { id: PeerId::channel(9), auth: PeerAuth::default() }), InputUser::Empty);
}

#[test]
fn peer_ref_to_input_channel() {
    assert_eq!(
        InputChannel::from(PeerRef { id: PeerId::channel(9), auth: PeerAuth::from_hash(4) }),
        InputChannel::Channel { channel_id: 9, access_hash: 4 }
    );
    assert_eq!(InputChannel::from(PeerRef { id: PeerId::user(9), auth: PeerAuth::default() }), InputChannel::Empty);
    assert_eq!(InputChannel::from(PeerRef { id: PeerId::self_user(), auth: PeerAuth::default() }), InputChannel::Empty);
    assert_eq!(InputChannel::from(PeerRef { id: PeerId::chat(9), auth: PeerAuth::default() }), InputChannel::Empty);
}

#[test]
fn peer_ref_to_chat_id() {
    assert_eq!(PeerRef { id: PeerId::chat(9), auth: PeerAuth::default() }.to_chat_id(), 9);
    assert_eq!(PeerRef { id: PeerId::user(9), auth: PeerAuth::default() }.to_chat_id(), -1000000000000);
    assert_eq!(PeerRef { id: PeerId::self_user(), auth: PeerAuth::default() }.to_chat_id(), -1000000000000);
    assert_eq!(PeerRef { id: PeerId::channel(9), auth: PeerAuth::default() }.to_chat_id(), -1000000000000);
}

#[test]
fn user_objects_to_peer_ref() {
    assert_eq!(PeerRef::from_user(User::Empty { id: 3 }), PeerRef { id: PeerId::user(3), auth: PeerAuth::default() });
    assert_eq!(
        PeerRef::from_user(User::User { id: 3, is_self: false, access_hash: Some(8) }),
        PeerRef { id: PeerId::user(3), auth: PeerAuth::from_hash(8) }
    );
    assert_eq!(
        PeerRef::from_user(User::User { id: 3, is_self: true, access_hash: None }),
        PeerRef { id: PeerId::self_user(), auth: PeerAuth::default() }
    );
}

#[test]
fn chat_objects_to_peer_ref() {
    for chat in [Chat::Empty { id: 3 }, Chat::Chat { id: 3 }, Chat::Forbidden { id: 3 }] {
        assert_eq!(PeerRef::from_chat(chat), PeerRef { id: PeerId::chat(3), auth: PeerAuth::default() });
    }
    assert_eq!(
        PeerRef::from_chat(Chat::Channel { id: 3, access_hash: Some(5) }),
        PeerRef { id: PeerId::channel(3), auth: PeerAuth::from_hash(5) }
    );
    assert_eq!(
        PeerRef::from_chat(Chat::Channel { id: 3, access_hash: None }),
        PeerRef { id: PeerId::channel(3), auth: PeerAuth::default() }
    );
    assert_eq!(
        PeerRef::from_chat(Chat::ChannelForbidden { id: 3, access_hash: 6 }),
        PeerRef { id: PeerId::channel(3), auth: PeerAuth::from_hash(6) }
    );
}
