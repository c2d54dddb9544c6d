//! Frame reassembly: where the frame at the front of an accumulation buffer
//! ends, for each protocol, and its removal from the buffer.

use crate::packet::{DatabaseType, Packet};
use byteorder::{BigEndian, ByteOrder};
use vstd::prelude::*;
use vstd::slice::slice_subrange;

verus! {

/// The value of three bytes read as a 24-bit little-endian number.
pub open spec fn le_u24(b0: u8, b1: u8, b2: u8) -> nat {
    (b0 as nat) + 0x100 * (b1 as nat) + 0x1_0000 * (b2 as nat)
}

/// The value of four bytes read as a 32-bit big-endian number.
pub open spec fn be_u32(b0: u8, b1: u8, b2: u8, b3: u8) -> nat {
    0x100_0000 * (b0 as nat) + 0x1_0000 * (b1 as nat) + 0x100 * (b2 as nat) + (b3 as nat)
}

/// The message type bytes of PostgreSQL's steady-state messages, those of
/// the frontend and of the backend together.
pub open spec fn is_postgres_id_spec(b: u8) -> bool {
    b == 0x31 || b == 0x32 || b == 0x33  // '1' '2' '3'
    || b == 0x41 || b == 0x42 || b == 0x43 || b == 0x44 || b == 0x45  // 'A' 'B' 'C' 'D' 'E'
    || b == 0x46 || b == 0x47 || b == 0x48 || b == 0x49 || b == 0x4B  // 'F' 'G' 'H' 'I' 'K'
    || b == 0x4E || b == 0x50 || b == 0x51 || b == 0x52 || b == 0x53  // 'N' 'P' 'Q' 'R' 'S'
    || b == 0x54 || b == 0x56 || b == 0x57 || b == 0x58 || b == 0x5A  // 'T' 'V' 'W' 'X' 'Z'
    || b == 0x63 || b == 0x64 || b == 0x66 || b == 0x6E || b == 0x70  // 'c' 'd' 'f' 'n' 'p'
    || b == 0x73 || b == 0x74 || b == 0x76  // 's' 't' 'v'
}

/// Whether `b` is one of the recognised PostgreSQL message type bytes.
pub fn is_postgres_id(b: u8) -> (r: bool)
    ensures
        r == is_postgres_id_spec(b),
{
    match b {
        0x31 | 0x32 | 0x33 => true,
        0x41 | 0x42 | 0x43 | 0x44 | 0x45 => true,
        0x46 | 0x47 | 0x48 | 0x49 | 0x4B => true,
        0x4E | 0x50 | 0x51 | 0x52 | 0x53 => true,
        0x54 | 0x56 | 0x57 | 0x58 | 0x5A => true,
        0x63 | 0x64 | 0x66 | 0x6E | 0x70 => true,
        0x73 | 0x74 | 0x76 => true,
        _ => false,
    }
}

/// The number of bytes that stand before the length field of the PostgreSQL
/// message at the front of `buf`: 1 where it begins with a recognised message
/// type byte, else 0 (handshake messages carry none).
pub open spec fn postgres_prefix(buf: Seq<u8>) -> nat {
    if buf.len() > 0 && is_postgres_id_spec(buf[0]) {
        1
    } else {
        0
    }
}

/// The size of the whole frame that the header at the front of `buf`
/// declares, or `None` while the header itself is incomplete.
///
/// MariaDB: a 24-bit little-endian payload length and a sequence byte, so the
/// frame has 4 bytes more than the length says. PostgreSQL: a 32-bit
/// big-endian length after the optional type byte; it counts itself but not
/// the type byte.
pub open spec fn declared_size(db_type: DatabaseType, buf: Seq<u8>) -> Option<nat> {
    match db_type {
        DatabaseType::MariaDB => {
            if buf.len() < 4 {
                None
            } else {
                Some(4 + le_u24(buf[0], buf[1], buf[2]))
            }
        },
        DatabaseType::PostgresSQL => {
            let p = postgres_prefix(buf) as int;
            if buf.len() < p + 4 {
                None
            } else {
                Some(p as nat + be_u32(buf[p], buf[p + 1], buf[p + 2], buf[p + 3]))
            }
        },
    }
}

/// The complete frame at the front of `buf`, or `None` while bytes of it
/// are still missing.
pub open spec fn front_frame(db_type: DatabaseType, buf: Seq<u8>) -> Option<Seq<u8>> {
    match declared_size(db_type, buf) {
        Some(size) => if size <= buf.len() {
            Some(buf.take(size as int))
        } else {
            None
        },
        None => None,
    }
}

/// Calls `byteorder::BigEndian::read_u32`, which reads the first four bytes
/// of `buf` as a big-endian number and panics on a shorter slice.
#[verifier::external_body]
fn read_u32_be(buf: &[u8]) -> (value: u32)
    requires
        buf@.len() >= 4,
    ensures
        value == be_u32(buf@[0], buf@[1], buf@[2], buf@[3]),
{
    BigEndian::read_u32(buf)
}

/// The payload length of a MariaDB header.
fn mariadb_payload_len(b0: u8, b1: u8, b2: u8) -> (l: u32)
    ensures
        l == le_u24(b0, b1, b2),
{
    let l: u32 = ((b2 as u32) << 16) | ((b1 as u32) << 8) | (b0 as u32);
    assert(((b2 as u32) << 16) | ((b1 as u32) << 8) | (b0 as u32) == (b0 as u32) + 0x100 * (b1 as u32)
        + 0x1_0000 * (b2 as u32)) by (bit_vector);
    l
}

/// Takes the first `size` bytes out of `buf` and returns them.
fn take_front(buf: &mut Vec<u8>, size: usize) -> (front: Vec<u8>)
    requires
        size <= old(buf)@.len(),
    ensures
        front@ == old(buf)@.take(size as int),
        final(buf)@ == old(buf)@.skip(size as int),
{
    let mut rest = buf.split_off(size);
    core::mem::swap(buf, &mut rest);
    rest
}

/// Removes one complete frame from the front of `packet_buf`, if one is
/// there. While bytes are missing the buffer stays as it is.
pub fn get_packet(db_type: DatabaseType, packet_buf: &mut Vec<u8>) -> (r: Option<Packet>)
    ensures
        match front_frame(db_type, old(packet_buf)@) {
            Some(frame) => r matches Some(p) && p.db_type == db_type && p.bytes@ == frame
                && final(packet_buf)@ == old(packet_buf)@.skip(frame.len() as int),
            None => r is None && final(packet_buf)@ == old(packet_buf)@,
        },
{
    match db_type {
        DatabaseType::MariaDB => {
            if packet_buf.len() < 4 {
                return None;
            }
            let l: u32 = mariadb_payload_len(packet_buf[0], packet_buf[1], packet_buf[2]);
            let s: u64 = 4 + l as u64;
            if (packet_buf.len() as u64) < s {
                return None;
            }
            Some(Packet::new(DatabaseType::MariaDB, take_front(packet_buf, s as usize)))
        },
        DatabaseType::PostgresSQL => {
            if packet_buf.is_empty() {
                return None;
            }
            let mut size: usize = 0;
            if is_postgres_id(packet_buf[0]) {
                size += 1;
            }
            if packet_buf.len() < size + 4 {
                return None;
            }
            let length_field = slice_subrange(packet_buf.as_slice(), size, size + 4);
            let length: u32 = read_u32_be(length_field);
            let total: u64 = size as u64 + length as u64;
            if (packet_buf.len() as u64) < total {
                return None;
            }
            Some(Packet::new(DatabaseType::PostgresSQL, take_front(packet_buf, total as usize)))
        },
    }
}

} // verus!
