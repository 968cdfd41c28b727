use vstd::prelude::*;

use crate::error::NetError;
use crate::warden::error::WardenError;

verus! {

/// The four little-endian bytes of `x`.
pub open spec fn u32_le_bytes(x: u32) -> Seq<u8> {
    seq![(x % 256) as u8, ((x / 256) % 256) as u8, ((x / 65536) % 256) as u8, ((x / 16777216) % 256) as u8]
}

/// The number whose little-endian bytes are the first four of `b`.
pub open spec fn u32_from_le(b: Seq<u8>) -> u32 {
    (b[0] + 256 * b[1] + 65536 * b[2] + 16777216 * b[3]) as u32
}

/// The opcode that `WardenPacket::serialize` writes in front of every packet.
pub const CLIENT_OPCODE: u8 = 1;

/// The opcode of a module-use packet sent by the server.
pub const MODULE_USE_OPCODE: u8 = 0;

/// The length of a module-use packet: opcode, module id, module key and size.
pub const MODULE_USE_LEN: usize = 37;

/// The bytes of a module-use packet with the given fields, behind `opcode`.
pub open spec fn module_use_bytes(opcode: u8, module_id: Seq<u8>, module_key: Seq<u8>, size: u32) -> Seq<u8> {
    seq![opcode] + module_id + module_key + u32_le_bytes(size)
}

/// What `WardenPacket::parse` makes of `bytes`: the module id, module key and size of
/// a module-use packet, or the error that stops the reading.
pub open spec fn parse_spec(bytes: Seq<u8>) -> Result<(Seq<u8>, Seq<u8>, u32), NetError> {
    if bytes.len() == 0 {
        Err(NetError::UnexpectedEof)
    } else if bytes[0] != MODULE_USE_OPCODE {
        Err(NetError::Warden(WardenError::InvalidWardenOpcode(bytes[0])))
    } else if bytes.len() < MODULE_USE_LEN {
        Err(NetError::UnexpectedEof)
    } else {
        Ok((bytes.subrange(1, 17), bytes.subrange(17, 33), u32_from_le(bytes.subrange(33, 37))))
    }
}

/// `res` is what `WardenPacket::parse` returns when it reads as `expected` says.
pub open spec fn parse_result_matches(
    res: Result<WardenPacket, NetError>,
    expected: Result<(Seq<u8>, Seq<u8>, u32), NetError>,
) -> bool {
    match res {
        Ok(WardenPacket::ModuleUse { module_id, module_key, size }) => expected == Ok::<
            (Seq<u8>, Seq<u8>, u32),
            NetError,
        >((module_id@, module_key@, size)),
        Ok(WardenPacket::ModuleOk {}) => false,
        Err(e) => expected == Err::<(Seq<u8>, Seq<u8>, u32), NetError>(e),
    }
}

/// A Warden packet.
#[derive(Debug, Clone, Copy, PartialEq, Eq)]
pub enum WardenPacket {
    /// Sent by the server: the module the client should load.
    ModuleUse { module_id: [u8; 16], module_key: [u8; 16], size: u32 },
    /// Sent by the client: the module was loaded.
    ModuleOk {},
}

/// The bytes that `WardenPacket::serialize` writes for `p`.
pub open spec fn serialize_spec(p: WardenPacket) -> Seq<u8> {
    match p {
        WardenPacket::ModuleUse { module_id, module_key, size } => module_use_bytes(
            CLIENT_OPCODE,
            module_id@,
            module_key@,
            size,
        ),
        WardenPacket::ModuleOk {} => seq![CLIENT_OPCODE],
    }
}

impl WardenPacket {
    /// The packet's bytes as the client sends them.
    pub fn serialize(&self) -> (buffer: Vec<u8>)
        ensures
            buffer@ == serialize_spec(*self),
    {
        let mut buffer: Vec<u8> = Vec::new();
        match self {
            WardenPacket::ModuleUse { module_id, module_key, size } => {
                buffer.push(CLIENT_OPCODE);
                buffer.extend_from_slice(module_id);
                buffer.extend_from_slice(module_key);
                let s = *size;
                buffer.push((s % 256) as u8);
                buffer.push(((s / 256) % 256) as u8);
                buffer.push(((s / 65536) % 256) as u8);
                buffer.push(((s / 16777216) % 256) as u8);
                assert(buffer@ =~= serialize_spec(*self));
            },
            WardenPacket::ModuleOk {} => {
                buffer.push(CLIENT_OPCODE);
                assert(buffer@ =~= serialize_spec(*self));
            },
        }
        buffer
    }

    /// Reads a packet sent by the server: a module-use packet is its opcode, the
    /// 16-byte module id, the 16-byte module key and the module size as a
    /// little-endian `u32`; bytes after those are not read.
    pub fn parse(bytes: &[u8]) -> (res: Result<WardenPacket, NetError>)
        ensures
            parse_result_matches(res, parse_spec(bytes@)),
    {
        if bytes.len() == 0 {
            return Err(NetError::UnexpectedEof);
        }
        let opcode = bytes[0];
        if opcode != MODULE_USE_OPCODE {
            return Err(NetError::Warden(WardenError::InvalidWardenOpcode(opcode)));
        }
        if bytes.len() < MODULE_USE_LEN {
            return Err(NetError::UnexpectedEof);
        }
        let mut module_id = [0u8; 16];
        let mut module_key = [0u8; 16];
        let mut k: usize = 0;
        while k < 16
            invariant
                k <= 16,
                bytes@.len() >= MODULE_USE_LEN,
                forall|m: int| 0 <= m < k ==> module_id@[m] == bytes@[1 + m],
                forall|m: int| 0 <= m < k ==> module_key@[m] == bytes@[17 + m],
            decreases 16 - k,
        {
            module_id[k] = bytes[1 + k];
            module_key[k] = bytes[17 + k];
            k = k + 1;
        }
        assert(module_id@ =~= bytes@.subrange(1, 17));
        assert(module_key@ =~= bytes@.subrange(17, 33));
        let size: u32 = bytes[33] as u32 + 256 * (bytes[34] as u32) + 65536 * (bytes[35] as u32)
            + 16777216 * (bytes[36] as u32);
        Ok(WardenPacket::ModuleUse { module_id, module_key, size })
    }
}

/// Reading the little-endian bytes of a number gives the number back.
pub proof fn lemma_u32_le_roundtrip(x: u32)
    ensures
        u32_from_le(u32_le_bytes(x)) == x,
{
    let b = u32_le_bytes(x);
    assert((x % 256) + 256 * ((x / 256) % 256) + 65536 * ((x / 65536) % 256) + 16777216 * ((x
        / 16777216) % 256) == x) by (bit_vector);
}

/// A module-use packet that carries the server's opcode reads back as the fields it
/// was written from.
pub proof fn lemma_module_use_roundtrip(module_id: Seq<u8>, module_key: Seq<u8>, size: u32)
    requires
        module_id.len() == 16,
        module_key.len() == 16,
    ensures
        parse_spec(module_use_bytes(MODULE_USE_OPCODE, module_id, module_key, size)) == Ok::<
            (Seq<u8>, Seq<u8>, u32),
            NetError,
        >((module_id, module_key, size)),
{
    let bytes = module_use_bytes(MODULE_USE_OPCODE, module_id, module_key, size);
    lemma_u32_le_roundtrip(size);
    assert(bytes.subrange(1, 17) =~= module_id);
    assert(bytes.subrange(17, 33) =~= module_key);
    assert(bytes.subrange(33, 37) =~= u32_le_bytes(size));
}

} // verus!
