//! The port header: the first two bytes on every forwarded stream.

use crate::text::decimal;
use crate::text::decimal_string;
use vstd::prelude::*;
use vstd::string::StringExecFns;

verus! {

/// The name under which both peers negotiate this protocol on the
/// transport.
pub const ALPN: &'static str = "do-ssh";

/// Number of bytes the port header occupies on the wire.
pub const PORT_HEADER_LEN: usize = 2;

/// The header for `port`: its high byte, then its low byte.
pub open spec fn port_header(port: u16) -> Seq<u8> {
    seq![(port / 256) as u8, (port % 256) as u8]
}

/// The port that a two-byte header announces.
pub open spec fn header_port(header: Seq<u8>) -> u16
    recommends
        header.len() == 2,
{
    (header[0] as int * 256 + header[1] as int) as u16
}

/// Encodes `port` as the two-byte big-endian header.
pub fn encode_port(port: u16) -> (header: [u8; 2])
    ensures
        header@ == port_header(port),
{
    let high: u8 = (port / 256) as u8;
    let low: u8 = (port % 256) as u8;
    let header = [high, low];
    header
}

/// Why a byte string is not a port header.
#[derive(Clone, Copy, Debug, PartialEq, Eq, Structural)]
pub enum HeaderError {
    /// The stream ended after `received` bytes, fewer than the header needs.
    Truncated { received: usize },
    /// `received` bytes were handed over, more than the header holds.
    Overlong { received: usize },
}

/// The wording of a header fault.
pub open spec fn header_error_text(error: HeaderError) -> Seq<char> {
    match error {
        HeaderError::Truncated { received } => "port header truncated: stream closed after "@
            + decimal(received as nat) + " of 2 bytes"@,
        HeaderError::Overlong { received } => "port header overlong: "@ + decimal(received as nat)
            + " bytes read for 2"@,
    }
}

impl HeaderError {
    /// The fault in words.
    pub fn message(&self) -> (text: String)
        ensures
            text@ == header_error_text(*self),
    {
        match self {
            HeaderError::Truncated { received } => {
                let mut text = String::from_str("port header truncated: stream closed after ");
                text.append(decimal_string(*received as u64).as_str());
                text.append(" of 2 bytes");
                text
            },
            HeaderError::Overlong { received } => {
                let mut text = String::from_str("port header overlong: ");
                text.append(decimal_string(*received as u64).as_str());
                text.append(" bytes read for 2");
                text
            },
        }
    }
}

/// What a receiver makes of the bytes read for the header.
pub open spec fn parse_header(bytes: Seq<u8>) -> Result<u16, HeaderError> {
    if bytes.len() < 2 {
        Err(HeaderError::Truncated { received: bytes.len() as usize })
    } else if bytes.len() > 2 {
        Err(HeaderError::Overlong { received: bytes.len() as usize })
    } else {
        Ok(header_port(bytes))
    }
}

/// Decodes the bytes read for the port header.
///
/// Exactly two bytes give the port; fewer mean that the stream ended inside
/// the header; more are refused, since the bytes after the header belong to
/// the payload and must not be consumed with it.
pub fn decode_port(bytes: &[u8]) -> (result: Result<u16, HeaderError>)
    ensures
        result == parse_header(bytes@),
{
    let n = bytes.len();
    if n < 2 {
        Err(HeaderError::Truncated { received: n })
    } else if n > 2 {
        Err(HeaderError::Overlong { received: n })
    } else {
        let high: u16 = bytes[0] as u16;
        let low: u16 = bytes[1] as u16;
        Ok(high * 256 + low)
    }
}

/// Decoding the header of a port gives that port back.
pub proof fn lemma_header_round_trip(port: u16)
    ensures
        port_header(port).len() == PORT_HEADER_LEN,
        parse_header(port_header(port)) == Ok::<u16, HeaderError>(port),
{
}

/// Two bytes that decode to a port are the header of that port: no other
/// byte string announces it.
pub proof fn lemma_header_unique(bytes: Seq<u8>, port: u16)
    requires
        parse_header(bytes) == Ok::<u16, HeaderError>(port),
    ensures
        bytes == port_header(port),
{
}

} // verus!
