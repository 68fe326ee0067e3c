//! The message parser: classify raw inbound bytes.
//!
//! A message whose first four bytes are `HOST` is a host request, whatever
//! follows. One whose first four bytes are `JOIN` must carry, after one
//! delimiter byte, a five-byte join code; too few bytes or a byte outside
//! the code alphabet make it a malformed join. Anything else is
//! unrecognized and is dropped without a response.

use vstd::prelude::*;
use crate::code::{is_code_byte, spec_is_code_byte, spec_valid_code, JoinCode};

verus! {

/// Least length of a join request: the magic, one delimiter, five code bytes.
pub const MIN_JOIN_LEN: usize = 10;

/// The magic `HOST`.
pub open spec fn spec_host_magic() -> Seq<u8> {
    seq![('H' as u8), ('O' as u8), ('S' as u8), ('T' as u8)]
}

/// The magic `JOIN`.
pub open spec fn spec_join_magic() -> Seq<u8> {
    seq![('J' as u8), ('O' as u8), ('I' as u8), ('N' as u8)]
}

/// A message that opens with `HOST`.
pub open spec fn spec_is_host_request(m: Seq<u8>) -> bool {
    m.len() >= 4 && m.subrange(0, 4) == spec_host_magic()
}

/// A message that opens with `JOIN`.
pub open spec fn spec_is_join_request(m: Seq<u8>) -> bool {
    m.len() >= 4 && m.subrange(0, 4) == spec_join_magic()
}

/// The five bytes following the delimiter of a join request.
pub open spec fn spec_join_code_field(m: Seq<u8>) -> Seq<u8> {
    m.subrange(5, 10)
}

/// A classified inbound message.
pub enum ParsedMessage {
    /// The message opened with `HOST`: the sender asks to become a host.
    HostRequest,
    /// A well-formed join request carrying a valid code.
    JoinRequest { code: JoinCode },
    /// A join request with fewer than `MIN_JOIN_LEN` bytes.
    JoinTooShort,
    /// A join request whose code field holds a byte outside the alphabet.
    JoinIllegalCode,
    /// Neither magic: dropped without a response.
    Unrecognized,
}

/// Classify a raw message. The returned variant tells exactly which class
/// the bytes fall in; for a well-formed join request it carries the code.
pub fn parse_message(msg: &Vec<u8>) -> (r: ParsedMessage)
    ensures
        match r {
            ParsedMessage::HostRequest => spec_is_host_request(msg@),
            ParsedMessage::JoinRequest { code } => {
                &&& spec_is_join_request(msg@)
                &&& msg@.len() >= MIN_JOIN_LEN
                &&& code.wf()
                &&& code@ == spec_join_code_field(msg@)
            },
            ParsedMessage::JoinTooShort => spec_is_join_request(msg@) && msg@.len() < MIN_JOIN_LEN,
            ParsedMessage::JoinIllegalCode => {
                &&& spec_is_join_request(msg@)
                &&& msg@.len() >= MIN_JOIN_LEN
                &&& !spec_valid_code(spec_join_code_field(msg@))
            },
            ParsedMessage::Unrecognized => !spec_is_host_request(msg@) && !spec_is_join_request(
                msg@,
            ),
        },
{
    if msg.len() >= 4 && msg[0] == ('H' as u8) && msg[1] == ('O' as u8) && msg[2] == ('S' as u8)
        && msg[3] == ('T' as u8) {
        proof {
            assert(msg@.subrange(0, 4) =~= spec_host_magic());
        }
        return ParsedMessage::HostRequest;
    }
    if msg.len() >= 4 && msg[0] == ('J' as u8) && msg[1] == ('O' as u8) && msg[2] == ('I' as u8)
        && msg[3] == ('N' as u8) {
        proof {
            assert(msg@.subrange(0, 4) =~= spec_join_magic());
        }
        if msg.len() < MIN_JOIN_LEN {
            return ParsedMessage::JoinTooShort;
        }
        let mut bytes: Vec<u8> = Vec::new();
        bytes.push(msg[5]);
        bytes.push(msg[6]);
        bytes.push(msg[7]);
        bytes.push(msg[8]);
        bytes.push(msg[9]);
        proof {
            assert(bytes@ =~= spec_join_code_field(msg@));
        }
        let ok = is_code_byte(bytes[0]) && is_code_byte(bytes[1]) && is_code_byte(bytes[2])
            && is_code_byte(bytes[3]) && is_code_byte(bytes[4]);
        if !ok {
            return ParsedMessage::JoinIllegalCode;
        }
        proof {
            assert forall|i: int| 0 <= i < bytes@.len() implies spec_is_code_byte(
                #[trigger] bytes@[i],
            ) by {
                if i == 0 {
                } else if i == 1 {
                } else if i == 2 {
                } else if i == 3 {
                }
            }
        }
        return ParsedMessage::JoinRequest { code: JoinCode { bytes } };
    }
    proof {
        if spec_is_host_request(msg@) {
            assert(msg@.subrange(0, 4)[0] == ('H' as u8));
            assert(msg@.subrange(0, 4)[1] == ('O' as u8));
            assert(msg@.subrange(0, 4)[2] == ('S' as u8));
            assert(msg@.subrange(0, 4)[3] == ('T' as u8));
        }
        if spec_is_join_request(msg@) {
            assert(msg@.subrange(0, 4)[0] == ('J' as u8));
            assert(msg@.subrange(0, 4)[1] == ('O' as u8));
            assert(msg@.subrange(0, 4)[2] == ('I' as u8));
            assert(msg@.subrange(0, 4)[3] == ('N' as u8));
        }
    }
    ParsedMessage::Unrecognized
}

} // verus!
