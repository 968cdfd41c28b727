use vstd::prelude::*;

use crate::crypto::sarc4::advance;
use crate::error::NetError;
use crate::warden::packet::{parse_spec, serialize_spec};
use crate::warden::{decrypted_bytes, encrypted_packet, Warden, WardenPacket};

verus! {

/// Opcode of `SMSG_WARDEN_DATA`.
pub const SMSG_WARDEN_DATA: u16 = 0x02E6;

/// Opcode of `SMSG_ADDON_INFO`.
pub const SMSG_ADDON_INFO: u16 = 0x02EF;

/// Opcode of `SMSG_AUTH_RESPONSE`.
pub const SMSG_AUTH_RESPONSE: u16 = 0x01EE;

/// The result code of `SMSG_AUTH_RESPONSE` that accepts the client.
pub const AUTH_OK: u8 = 12;

/// The CRC that the client reports for Blizzard's own addons.
pub const BLIZZARD_ADDON_CRC: u32 = 1276933997;

/// The CRC that the client reports for the `Turtle_General` addon.
pub const TURTLE_GENERAL_CRC: u32 = 1101498516;

/// An addon that the client reports in `CMSG_AUTH_SESSION`.
pub struct AddonInfo {
    pub addon_name: String,
    pub addon_has_signature: u8,
    pub addon_crc: u32,
    pub addon_extra_crc: u32,
}

/// What the handshake loop does with a packet from the world server.
pub enum HandshakeAction {
    /// Send this encrypted Warden reply in `CMSG_WARDEN_DATA`.
    SendWardenData(Vec<u8>),
    /// Skip an addon info packet whose body has this many bytes.
    SkipAddonInfo(usize),
    /// The server accepted the session: the handshake is over.
    Authenticated,
    /// The server answered the session with this other result code.
    Rejected(u8),
    /// The server's auth response had no result code.
    EmptyAuthResponse,
    /// A packet with this opcode is not part of the handshake and is passed over.
    Unexpected(u16),
}

/// The body size that a server header announces: its size field counts the two opcode
/// bytes, which are not part of the body.
pub fn handshake_body_size(header_size: u16) -> (res: u32)
    ensures
        res == (if header_size >= 2 { header_size - 2 } else { 0 }),
{
    header_size.saturating_sub(2) as u32
}

/// Decides what to do with one packet of the world handshake. A Warden packet is
/// decrypted and answered with an encrypted module-ok packet; an auth response ends the
/// handshake with its result code; addon info and every other packet are passed over.
pub fn handshake_step(warden: &mut Warden, opcode: u16, body: Vec<u8>) -> (res: Result<
    HandshakeAction,
    NetError,
>)
    ensures
        opcode == SMSG_WARDEN_DATA ==> {
            &&& final(warden)@.0 == advance(old(warden)@.0, body@.len())
            &&& match parse_spec(decrypted_bytes(old(warden)@.0, body@)) {
                Ok(_) => {
                    &&& res matches Ok(HandshakeAction::SendWardenData(reply))
                    &&& reply@ == encrypted_packet(old(warden)@.1, WardenPacket::ModuleOk {  })
                    &&& final(warden)@.1 == advance(
                        old(warden)@.1,
                        serialize_spec(WardenPacket::ModuleOk {  }).len(),
                    )
                },
                Err(e) => {
                    &&& res == Err::<HandshakeAction, NetError>(e)
                    &&& final(warden)@.1 == old(warden)@.1
                },
            }
        },
        opcode != SMSG_WARDEN_DATA ==> final(warden)@ == old(warden)@,
        opcode == SMSG_ADDON_INFO ==> (res matches Ok(HandshakeAction::SkipAddonInfo(n)) && n
            == body@.len()),
        opcode == SMSG_AUTH_RESPONSE ==> {
            if body@.len() == 0 {
                res matches Ok(HandshakeAction::EmptyAuthResponse)
            } else if body@[0] == AUTH_OK {
                res matches Ok(HandshakeAction::Authenticated)
            } else {
                res matches Ok(HandshakeAction::Rejected(code)) && code == body@[0]
            }
        },
        opcode != SMSG_WARDEN_DATA && opcode != SMSG_ADDON_INFO && opcode != SMSG_AUTH_RESPONSE
            ==> (res matches Ok(HandshakeAction::Unexpected(op)) && op == opcode),
{
    if opcode == SMSG_WARDEN_DATA {
        let data = warden.decrypt_packet(body);
        match data {
            // `decrypt_packet` reads nothing but module-use packets.
            Ok(_) => {
                let mod_ok = WardenPacket::ModuleOk {  };
                let reply = warden.encrypt_packet(mod_ok);
                Ok(HandshakeAction::SendWardenData(reply))
            },
            Err(e) => Err(e),
        }
    } else if opcode == SMSG_ADDON_INFO {
        Ok(HandshakeAction::SkipAddonInfo(body.len()))
    } else if opcode == SMSG_AUTH_RESPONSE {
        if body.len() == 0 {
            Ok(HandshakeAction::EmptyAuthResponse)
        } else if body[0] == AUTH_OK {
            Ok(HandshakeAction::Authenticated)
        } else {
            Ok(HandshakeAction::Rejected(body[0]))
        }
    } else {
        Ok(HandshakeAction::Unexpected(opcode))
    }
}

/// An addon entry with the given name and CRC, without signature or extra CRC.
pub fn create_addon_info(name: &str, crc: u32) -> (res: AddonInfo)
    ensures
        res.addon_name@ == name@,
        res.addon_has_signature == 0,
        res.addon_crc == crc,
        res.addon_extra_crc == 0,
{
    AddonInfo { addon_name: name.to_owned(), addon_has_signature: 0, addon_crc: crc, addon_extra_crc: 0 }
}

/// An entry for one of Blizzard's own addons.
pub fn create_blizzard_addon_info(name: &str) -> (res: AddonInfo)
    ensures
        res.addon_name@ == name@,
        res.addon_has_signature == 0,
        res.addon_crc == BLIZZARD_ADDON_CRC,
        res.addon_extra_crc == 0,
{
    AddonInfo {
        addon_name: name.to_owned(),
        addon_has_signature: 0,
        addon_crc: BLIZZARD_ADDON_CRC,
        addon_extra_crc: 0,
    }
}

/// The addons that the client reports when it opens a world session: nine of
/// Blizzard's own and `Turtle_General`.
pub fn handshake_addons() -> (addons: Vec<AddonInfo>)
    ensures
        addons@.len() == 10,
        addons@[0].addon_name@ == "Blizzard_AuctionUI"@,
        addons@[1].addon_name@ == "Blizzard_BattlefieldMinimap"@,
        addons@[2].addon_name@ == "Blizzard_CraftUI"@,
        addons@[3].addon_name@ == "Blizzard_InspectUI"@,
        addons@[4].addon_name@ == "Blizzard_MacroUI"@,
        addons@[5].addon_name@ == "Blizzard_RaidUI"@,
        addons@[6].addon_name@ == "Blizzard_TalentUI"@,
        addons@[7].addon_name@ == "Blizzard_TradeSkillUI"@,
        addons@[8].addon_name@ == "Blizzard_TrainerUI"@,
        addons@[9].addon_name@ == "Turtle_General"@,
        forall|k: int| 0 <= k < 9 ==> #[trigger] addons@[k].addon_crc == BLIZZARD_ADDON_CRC,
        addons@[9].addon_crc == TURTLE_GENERAL_CRC,
        forall|k: int|
            0 <= k < 10 ==> #[trigger] addons@[k].addon_has_signature == 0 && addons@[k].addon_extra_crc
                == 0,
{
    let mut addons: Vec<AddonInfo> = Vec::new();
    addons.push(create_blizzard_addon_info("Blizzard_AuctionUI"));
    addons.push(create_blizzard_addon_info("Blizzard_BattlefieldMinimap"));
    addons.push(create_blizzard_addon_info("Blizzard_CraftUI"));
    addons.push(create_blizzard_addon_info("Blizzard_InspectUI"));
    addons.push(create_blizzard_addon_info("Blizzard_MacroUI"));
    addons.push(create_blizzard_addon_info("Blizzard_RaidUI"));
    addons.push(create_blizzard_addon_info("Blizzard_TalentUI"));
    addons.push(create_blizzard_addon_info("Blizzard_TradeSkillUI"));
    addons.push(create_blizzard_addon_info("Blizzard_TrainerUI"));
    addons.push(create_addon_info("Turtle_General", TURTLE_GENERAL_CRC));
    addons
}

} // verus!
