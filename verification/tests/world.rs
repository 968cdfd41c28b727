use sha1::{Digest, Sha1};
use wow_net::auth::{auth_session, normalize_credentials};
use wow_net::warden::{Warden, WardenError};
use wow_net::world::{decode_server_header, WorldSession};
use wow_net::world::auth::{
    create_addon_info, create_blizzard_addon_info, handshake_addons, handshake_body_size,
    handshake_step, HandshakeAction, BLIZZARD_ADDON_CRC, SMSG_ADDON_INFO, SMSG_AUTH_RESPONSE,
    SMSG_WARDEN_DATA,
};
use wow_net::world::network::{world_loop_step, WorldLoopAction, WorldLoopEvent};
use wow_net::NetError;

fn session_key() -> [u8; 40] {
    let mut key = [0u8; 40];
    for (i, b) in key.iter_mut().enumerate() {
        *b = i as u8;
    }
    key
}

const SERVER_MODULE_USE: [u8; 37] = [
    0x4d, 0x2b, 0xde, 0x17, 0xd9, 0x9d, 0x76, 0xf2, 0x26, 0xf7, 0xcf, 0x7c, 0x9c, 0x95, 0xab, 0xb4,
    0x77, 0x97, 0xde, 0x2b, 0x59, 0x97, 0x20, 0x37, 0x59, 0xf2, 0xcd, 0xcd, 0x45, 0x07, 0xcc, 0x6e,
    0xa5, 0x94, 0x9f, 0xec, 0x68,
];

#[test]
fn body_size_drops_opcode() {
    assert_eq!(handshake_body_size(10), 8);
    assert_eq!(handshake_body_size(2), 0);
    assert_eq!(handshake_body_size(1), 0);
    assert_eq!(handshake_body_size(0), 0);
    assert_eq!(handshake_body_size(u16::MAX), 65533);
}

#[test]
fn warden_data_is_answered_with_module_ok() {
    let mut warden = Warden::new(&session_key());
    match handshake_step(&mut warden, SMSG_WARDEN_DATA, SERVER_MODULE_USE.to_vec()) {
        Ok(HandshakeAction::SendWardenData(reply)) => assert_eq!(reply, vec![0x39]),
        _ => panic!("expected a warden reply"),
    }
}

#[test]
fn bad_warden_data_is_an_error() {
    let mut warden = Warden::new(&session_key());
    assert!(matches!(
        handshake_step(&mut warden, SMSG_WARDEN_DATA, vec![0x4c]),
        Err(NetError::Warden(WardenError::InvalidWardenOpcode(1)))
    ));
    let mut warden = Warden::new(&session_key());
    assert!(matches!(
        handshake_step(&mut warden, SMSG_WARDEN_DATA, vec![]),
        Err(NetError::UnexpectedEof)
    ));
}

#[test]
fn addon_info_is_skipped() {
    let mut warden = Warden::new(&session_key());
    assert!(matches!(
        handshake_step(&mut warden, SMSG_ADDON_INFO, vec![1, 2, 3]),
        Ok(HandshakeAction::SkipAddonInfo(3))
    ));
    // Warden was not touched: it still answers the first packet as a fresh one.
    match handshake_step(&mut warden, SMSG_WARDEN_DATA, SERVER_MODULE_USE.to_vec()) {
        Ok(HandshakeAction::SendWardenData(reply)) => assert_eq!(reply, vec![0x39]),
        _ => panic!("expected a warden reply"),
    }
}

#[test]
fn auth_response_codes() {
    let mut warden = Warden::new(&session_key());
    assert!(matches!(
        handshake_step(&mut warden, SMSG_AUTH_RESPONSE, vec![12, 0, 0]),
        Ok(HandshakeAction::Authenticated)
    ));
    assert!(matches!(
        handshake_step(&mut warden, SMSG_AUTH_RESPONSE, vec![13]),
        Ok(HandshakeAction::Rejected(13))
    ));
    assert!(matches!(
        handshake_step(&mut warden, SMSG_AUTH_RESPONSE, vec![]),
        Ok(HandshakeAction::EmptyAuthResponse)
    ));
}

#[test]
fn other_packets_are_passed_over() {
    let mut warden = Warden::new(&session_key());
    assert!(matches!(
        handshake_step(&mut warden, 0x1234, vec![12]),
        Ok(HandshakeAction::Unexpected(0x1234))
    ));
}

#[test]
fn addon_entries() {
    let a = create_addon_info("Turtle_General", 1101498516);
    assert_eq!(a.addon_name, "Turtle_General");
    assert_eq!(a.addon_has_signature, 0);
    assert_eq!(a.addon_crc, 1101498516);
    assert_eq!(a.addon_extra_crc, 0);

    let b = create_blizzard_addon_info("Blizzard_RaidUI");
    assert_eq!(b.addon_name, "Blizzard_RaidUI");
    assert_eq!(b.addon_crc, 1276933997);
    assert_eq!(BLIZZARD_ADDON_CRC, 1276933997);
}

#[test]
fn handshake_addon_list() {
    let addons = handshake_addons();
    let names: Vec<&str> = addons.iter().map(|a| a.addon_name.as_str()).collect();
    assert_eq!(
        names,
        vec![
            "Blizzard_AuctionUI",
            "Blizzard_BattlefieldMinimap",
            "Blizzard_CraftUI",
            "Blizzard_InspectUI",
            "Blizzard_MacroUI",
            "Blizzard_RaidUI",
            "Blizzard_TalentUI",
            "Blizzard_TradeSkillUI",
            "Blizzard_TrainerUI",
            "Turtle_General",
        ]
    );
    assert!(addons[..9].iter().all(|a| a.addon_crc == 1276933997));
    assert_eq!(addons[9].addon_crc, 1101498516);
}

#[test]
fn world_loop_decisions() {
    assert_eq!(world_loop_step(WorldLoopEvent::ServerPacket), WorldLoopAction::ForwardToGame);
    assert_eq!(world_loop_step(WorldLoopEvent::GamePacket), WorldLoopAction::WriteToServer);
    assert_eq!(
        world_loop_step(WorldLoopEvent::ServerReadFailed),
        WorldLoopAction::NotifyDisconnectAndStop
    );
    assert_eq!(world_loop_step(WorldLoopEvent::GameUnreachable), WorldLoopAction::Stop);
    assert_eq!(world_loop_step(WorldLoopEvent::ServerWriteFailed), WorldLoopAction::Stop);
    assert_eq!(world_loop_step(WorldLoopEvent::GameDisconnected), WorldLoopAction::Stop);
}

#[test]
fn world_session_proof_and_warden() {
    let (u, _) = normalize_credentials("test", "pw").ok().unwrap();
    let auth = auth_session(session_key(), vec![], u);
    let mut session = WorldSession::new(&auth, 0x01020304);

    let mut input: Vec<u8> = b"TEST".to_vec();
    input.extend_from_slice(&0u32.to_le_bytes());
    input.extend_from_slice(&session.seed.to_le_bytes());
    input.extend_from_slice(&0x01020304u32.to_le_bytes());
    input.extend_from_slice(&session_key());
    let expected: [u8; 20] = Sha1::digest(&input).into();
    assert_eq!(session.proof, expected);

    match handshake_step(&mut session.warden, SMSG_WARDEN_DATA, SERVER_MODULE_USE.to_vec()) {
        Ok(HandshakeAction::SendWardenData(reply)) => assert_eq!(reply, vec![0x39]),
        _ => panic!("expected a warden reply"),
    }
}

fn encrypt_header(key: &[u8; 40], index: &mut usize, previous: &mut u8, plain: [u8; 4]) -> [u8; 4] {
    let mut out = [0u8; 4];
    for (i, p) in plain.iter().enumerate() {
        let e = (p ^ key[*index]).wrapping_add(*previous);
        *index = (*index + 1) % 40;
        *previous = e;
        out[i] = e;
    }
    out
}

#[test]
fn server_headers_are_decoded() {
    let (u, _) = normalize_credentials("test", "pw").ok().unwrap();
    let auth = auth_session(session_key(), vec![], u);
    let mut session = WorldSession::new(&auth, 7);
    let key = session_key();
    let mut index = 0usize;
    let mut previous = 0u8;

    // Size 6 (big endian), opcode SMSG_AUTH_RESPONSE (little endian).
    let first = encrypt_header(&key, &mut index, &mut previous, [0x00, 0x06, 0xee, 0x01]);
    let h = decode_server_header(&mut session.crypto, first);
    assert_eq!(h.size, 6);
    assert_eq!(h.opcode, SMSG_AUTH_RESPONSE);
    assert_eq!(h.body_size, 4);

    // The cipher moves on: the next header decrypts with the following key bytes.
    let second = encrypt_header(&key, &mut index, &mut previous, [0x01, 0x02, 0xe6, 0x02]);
    let h = decode_server_header(&mut session.crypto, second);
    assert_eq!(h.size, 0x0102);
    assert_eq!(h.opcode, SMSG_WARDEN_DATA);
    assert_eq!(h.body_size, 0x0100);

    let third = encrypt_header(&key, &mut index, &mut previous, [0x00, 0x01, 0x34, 0x12]);
    let h = decode_server_header(&mut session.crypto, third);
    assert_eq!((h.size, h.opcode, h.body_size), (1, 0x1234, 0));
}
