use wow_net::crypto::Sha1Randx;
use wow_net::warden::{Warden, WardenCrypt, WardenError, WardenPacket};
use wow_net::NetError;

fn session_key() -> [u8; 40] {
    let mut key = [0u8; 40];
    for (i, b) in key.iter_mut().enumerate() {
        *b = i as u8;
    }
    key
}

const KEY_A: [u8; 16] = [
    0xe7, 0x11, 0xc9, 0x0e, 0x39, 0x21, 0xb9, 0x72, 0x5e, 0x3c, 0xcc, 0x86, 0x73, 0x09, 0x99, 0x55,
];
const KEY_B: [u8; 16] = [
    0x96, 0xd7, 0x9b, 0xec, 0x60, 0x44, 0x48, 0x09, 0x18, 0xee, 0x08, 0x05, 0x79, 0xd8, 0x90, 0x1a,
];

const SERVER_MODULE_USE: [u8; 37] = [
    0x4d, 0x2b, 0xde, 0x17, 0xd9, 0x9d, 0x76, 0xf2, 0x26, 0xf7, 0xcf, 0x7c, 0x9c, 0x95, 0xab, 0xb4,
    0x77, 0x97, 0xde, 0x2b, 0x59, 0x97, 0x20, 0x37, 0x59, 0xf2, 0xcd, 0xcd, 0x45, 0x07, 0xcc, 0x6e,
    0xa5, 0x94, 0x9f, 0xec, 0x68,
];

fn module_use_plain(opcode: u8) -> Vec<u8> {
    let mut plain = vec![opcode];
    plain.extend(0u8..16);
    plain.extend(100u8..116);
    plain.extend_from_slice(&[0x78, 0x56, 0x34, 0x12]);
    plain
}

#[test]
fn session_key_yields_cipher_keys() {
    let mut rng = Sha1Randx::new(&session_key());
    let mut a = [0u8; 16];
    let mut b = [0u8; 16];
    rng.generate(&mut a);
    rng.generate(&mut b);
    assert_eq!(a, KEY_A);
    assert_eq!(b, KEY_B);
}

#[test]
fn warden_crypt_encrypts_with_first_key() {
    let mut crypt = WardenCrypt::new(&session_key());
    let mut data = vec![0x01u8];
    crypt.encrypt(&mut data);
    assert_eq!(data, vec![0x39]);
}

#[test]
fn warden_crypt_decrypts_with_second_key() {
    let mut crypt = WardenCrypt::new(&session_key());
    let mut data = SERVER_MODULE_USE.to_vec();
    crypt.decrypt(&mut data);
    assert_eq!(data, module_use_plain(0));
}

#[test]
fn serialize_module_use() {
    let mut module_id = [0u8; 16];
    let mut module_key = [0u8; 16];
    for i in 0..16 {
        module_id[i] = i as u8;
        module_key[i] = 100 + i as u8;
    }
    let p = WardenPacket::ModuleUse { module_id, module_key, size: 0x12345678 };
    assert_eq!(p.serialize(), module_use_plain(1));
}

#[test]
fn serialize_module_ok() {
    assert_eq!(WardenPacket::ModuleOk {}.serialize(), vec![1u8]);
}

#[test]
fn parse_module_use() {
    let p = WardenPacket::parse(&module_use_plain(0)).unwrap();
    match p {
        WardenPacket::ModuleUse { module_id, module_key, size } => {
            assert_eq!(module_id.to_vec(), (0u8..16).collect::<Vec<u8>>());
            assert_eq!(module_key.to_vec(), (100u8..116).collect::<Vec<u8>>());
            assert_eq!(size, 0x12345678);
        }
        WardenPacket::ModuleOk {} => panic!("parse returned a module-ok packet"),
    }
}

#[test]
fn parse_ignores_trailing_bytes() {
    let mut bytes = module_use_plain(0);
    bytes.extend_from_slice(&[9, 9, 9]);
    assert!(matches!(
        WardenPacket::parse(&bytes),
        Ok(WardenPacket::ModuleUse { size: 0x12345678, .. })
    ));
}

#[test]
fn parse_empty_is_eof() {
    assert_eq!(WardenPacket::parse(&[]).unwrap_err(), NetError::UnexpectedEof);
}

#[test]
fn parse_short_is_eof() {
    let bytes = module_use_plain(0);
    assert_eq!(WardenPacket::parse(&bytes[..36]).unwrap_err(), NetError::UnexpectedEof);
    assert_eq!(WardenPacket::parse(&bytes[..1]).unwrap_err(), NetError::UnexpectedEof);
}

#[test]
fn parse_unknown_opcode() {
    assert_eq!(
        WardenPacket::parse(&module_use_plain(1)).unwrap_err(),
        NetError::Warden(WardenError::InvalidWardenOpcode(1))
    );
    assert_eq!(
        WardenPacket::parse(&[0x7f]).unwrap_err(),
        NetError::Warden(WardenError::InvalidWardenOpcode(0x7f))
    );
}

#[test]
fn warden_decrypts_server_module_use() {
    let mut warden = Warden::new(&session_key());
    match warden.decrypt_packet(SERVER_MODULE_USE.to_vec()).unwrap() {
        WardenPacket::ModuleUse { module_id, size, .. } => {
            assert_eq!(module_id[15], 15);
            assert_eq!(size, 0x12345678);
        }
        WardenPacket::ModuleOk {} => panic!("decrypted a module-ok packet"),
    }
}

#[test]
fn warden_encrypts_module_ok() {
    let mut warden = Warden::new(&session_key());
    assert_eq!(warden.encrypt_packet(WardenPacket::ModuleOk {}), vec![0x39]);
}

#[test]
fn warden_decrypt_garbage_is_error() {
    let mut warden = Warden::new(&session_key());
    // The first keystream byte of the input cipher is 0x4d, so 0x4c decrypts to opcode 1.
    assert_eq!(
        warden.decrypt_packet(vec![0x4c]).unwrap_err(),
        NetError::Warden(WardenError::InvalidWardenOpcode(1))
    );
}
