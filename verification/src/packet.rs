//! A complete wire frame and the protocol it belongs to.

use vstd::prelude::*;

verus! {

/// The wire protocol of a session. It selects the framing rules.
#[derive(Clone, Copy, Debug, PartialEq, Eq, Structural)]
pub enum DatabaseType {
    MariaDB,
    PostgresSQL,
}

/// The eight bytes with which a PostgreSQL client asks for a TLS upgrade:
/// the length 8, then the request code 80877103, both big-endian.
pub open spec fn ssl_request_bytes() -> Seq<u8> {
    seq![0x00u8, 0x00u8, 0x00u8, 0x08u8, 0x04u8, 0xD2u8, 0x16u8, 0x2Fu8]
}

/// Whether a frame of protocol `db_type` is an SSL negotiation probe.
/// Only PostgreSQL has such a frame.
pub open spec fn is_ssl_request_spec(db_type: DatabaseType, bytes: Seq<u8>) -> bool {
    db_type == DatabaseType::PostgresSQL && bytes == ssl_request_bytes()
}

/// One complete wire frame, length header included, tagged with its protocol.
#[derive(Clone, Debug, PartialEq, Eq)]
pub struct Packet {
    pub db_type: DatabaseType,
    pub bytes: Vec<u8>,
}

impl Packet {
    pub fn new(db_type: DatabaseType, bytes: Vec<u8>) -> (p: Packet)
        ensures
            p.db_type == db_type,
            p.bytes == bytes,
    {
        Packet { db_type, bytes }
    }

    /// The number of bytes of the frame.
    pub fn get_size(&self) -> (n: usize)
        ensures
            n == self.bytes@.len(),
    {
        self.bytes.len()
    }

    /// Whether this packet is an SSL negotiation probe.
    pub fn is_ssl_request(&self) -> (b: bool)
        ensures
            b == is_ssl_request_spec(self.db_type, self.bytes@),
    {
        let is_probe = self.db_type == DatabaseType::PostgresSQL && self.bytes.len() == 8
            && self.bytes[0] == 0x00 && self.bytes[1] == 0x00 && self.bytes[2] == 0x00
            && self.bytes[3] == 0x08 && self.bytes[4] == 0x04 && self.bytes[5] == 0xD2
            && self.bytes[6] == 0x16 && self.bytes[7] == 0x2F;
        proof {
            if is_probe {
                assert(self.bytes@ =~= ssl_request_bytes());
            }
        }
        is_probe
    }
}

} // verus!
