//! Wire-format responses, as exact byte sequences.
//!
//! Every response the server can send is fixed here: the code handed to a
//! fresh host (five letters and a newline), the three join-error texts, and
//! the two address-relay messages built around a peer's address text.

use vstd::prelude::*;
use crate::code::JoinCode;

verus! {

/// Response to an accepted host: its join code followed by one newline.
pub open spec fn spec_host_response(code: Seq<u8>) -> Seq<u8> {
    code + seq![('\n' as u8)]
}

/// The text `Join request too short\n`.
pub open spec fn spec_too_short_response() -> Seq<u8> {
    seq![
        ('J' as u8), ('o' as u8), ('i' as u8), ('n' as u8), (' ' as u8), ('r' as u8),
        ('e' as u8), ('q' as u8), ('u' as u8), ('e' as u8), ('s' as u8), ('t' as u8),
        (' ' as u8), ('t' as u8), ('o' as u8), ('o' as u8), (' ' as u8), ('s' as u8),
        ('h' as u8), ('o' as u8), ('r' as u8), ('t' as u8), ('\n' as u8),
    ]
}

/// The text `Illegal join code\n`.
pub open spec fn spec_illegal_code_response() -> Seq<u8> {
    seq![
        ('I' as u8), ('l' as u8), ('l' as u8), ('e' as u8), ('g' as u8), ('a' as u8),
        ('l' as u8), (' ' as u8), ('j' as u8), ('o' as u8), ('i' as u8), ('n' as u8),
        (' ' as u8), ('c' as u8), ('o' as u8), ('d' as u8), ('e' as u8), ('\n' as u8),
    ]
}

/// The text `No host available with join code\n`.
pub open spec fn spec_no_host_response() -> Seq<u8> {
    seq![
        ('N' as u8), ('o' as u8), (' ' as u8), ('h' as u8), ('o' as u8), ('s' as u8),
        ('t' as u8), (' ' as u8), ('a' as u8), ('v' as u8), ('a' as u8), ('i' as u8),
        ('l' as u8), ('a' as u8), ('b' as u8), ('l' as u8), ('e' as u8), (' ' as u8),
        ('w' as u8), ('i' as u8), ('t' as u8), ('h' as u8), (' ' as u8), ('j' as u8),
        ('o' as u8), ('i' as u8), ('n' as u8), (' ' as u8), ('c' as u8), ('o' as u8),
        ('d' as u8), ('e' as u8), ('\n' as u8),
    ]
}

/// The prefix `Client: ` of the message sent to the host.
pub open spec fn spec_client_prefix() -> Seq<u8> {
    seq![
        ('C' as u8), ('l' as u8), ('i' as u8), ('e' as u8), ('n' as u8), ('t' as u8),
        (':' as u8), (' ' as u8),
    ]
}

/// The prefix `Host: ` of the message sent to the joining peer.
pub open spec fn spec_host_prefix() -> Seq<u8> {
    seq![('H' as u8), ('o' as u8), ('s' as u8), ('t' as u8), (':' as u8), (' ' as u8)]
}

/// Message telling the host its client's address: `Client: ` + the address.
pub open spec fn spec_client_message(addr: Seq<u8>) -> Seq<u8> {
    spec_client_prefix() + addr
}

/// Message telling the joining peer its host's address: `Host: ` + the address.
pub open spec fn spec_host_message(addr: Seq<u8>) -> Seq<u8> {
    spec_host_prefix() + addr
}

/// Append every byte of `src` to `dst`.
fn append_bytes(dst: &mut Vec<u8>, src: &Vec<u8>)
    ensures
        final(dst)@ == old(dst)@ + src@,
{
    let n = src.len();
    let mut k: usize = 0;
    while k < n
        invariant
            n == src@.len(),
            k <= n,
            dst@ == old(dst)@ + src@.subrange(0, k as int),
        decreases n - k,
    {
        dst.push(src[k]);
        proof {
            assert(old(dst)@ + src@.subrange(0, k as int + 1) =~= (old(dst)@ + src@.subrange(
                0,
                k as int,
            )).push(src@[k as int]));
        }
        k = k + 1;
    }
    proof {
        assert(src@.subrange(0, n as int) =~= src@);
    }
}

/// Build the response to an accepted host: the code's bytes and a newline.
pub fn host_response(code: &JoinCode) -> (r: Vec<u8>)
    ensures
        r@ == spec_host_response(code@),
{
    let mut v: Vec<u8> = Vec::new();
    append_bytes(&mut v, &code.bytes);
    v.push('\n' as u8);
    proof {
        assert(v@ =~= spec_host_response(code@));
    }
    v
}

/// Build the `Join request too short\n` response.
pub fn too_short_response() -> (r: Vec<u8>)
    ensures
        r@ == spec_too_short_response(),
{
    let mut v: Vec<u8> = Vec::new();
    v.push('J' as u8);
    v.push('o' as u8);
    v.push('i' as u8);
    v.push('n' as u8);
    v.push(' ' as u8);
    v.push('r' as u8);
    v.push('e' as u8);
    v.push('q' as u8);
    v.push('u' as u8);
    v.push('e' as u8);
    v.push('s' as u8);
    v.push('t' as u8);
    v.push(' ' as u8);
    v.push('t' as u8);
    v.push('o' as u8);
    v.push('o' as u8);
    v.push(' ' as u8);
    v.push('s' as u8);
    v.push('h' as u8);
    v.push('o' as u8);
    v.push('r' as u8);
    v.push('t' as u8);
    v.push('\n' as u8);
    proof {
        assert(v@ =~= spec_too_short_response());
    }
    v
}

/// Build the `Illegal join code\n` response.
pub fn illegal_code_response() -> (r: Vec<u8>)
    ensures
        r@ == spec_illegal_code_response(),
{
    let mut v: Vec<u8> = Vec::new();
    v.push('I' as u8);
    v.push('l' as u8);
    v.push('l' as u8);
    v.push('e' as u8);
    v.push('g' as u8);
    v.push('a' as u8);
    v.push('l' as u8);
    v.push(' ' as u8);
    v.push('j' as u8);
    v.push('o' as u8);
    v.push('i' as u8);
    v.push('n' as u8);
    v.push(' ' as u8);
    v.push('c' as u8);
    v.push('o' as u8);
    v.push('d' as u8);
    v.push('e' as u8);
    v.push('\n' as u8);
    proof {
        assert(v@ =~= spec_illegal_code_response());
    }
    v
}

/// Build the `No host available with join code\n` response.
pub fn no_host_response() -> (r: Vec<u8>)
    ensures
        r@ == spec_no_host_response(),
{
    let mut v: Vec<u8> = Vec::new();
    v.push('N' as u8);
    v.push('o' as u8);
    v.push(' ' as u8);
    v.push('h' as u8);
    v.push('o' as u8);
    v.push('s' as u8);
    v.push('t' as u8);
    v.push(' ' as u8);
    v.push('a' as u8);
    v.push('v' as u8);
    v.push('a' as u8);
    v.push('i' as u8);
    v.push('l' as u8);
    v.push('a' as u8);
    v.push('b' as u8);
    v.push('l' as u8);
    v.push('e' as u8);
    v.push(' ' as u8);
    v.push('w' as u8);
    v.push('i' as u8);
    v.push('t' as u8);
    v.push('h' as u8);
    v.push(' ' as u8);
    v.push('j' as u8);
    v.push('o' as u8);
    v.push('i' as u8);
    v.push('n' as u8);
    v.push(' ' as u8);
    v.push('c' as u8);
    v.push('o' as u8);
    v.push('d' as u8);
    v.push('e' as u8);
    v.push('\n' as u8);
    proof {
        assert(v@ =~= spec_no_host_response());
    }
    v
}

/// Build the message that reports the joining peer's address to the host.
pub fn client_message(addr: &Vec<u8>) -> (r: Vec<u8>)
    ensures
        r@ == spec_client_message(addr@),
{
    let mut v: Vec<u8> = Vec::new();
    v.push('C' as u8);
    v.push('l' as u8);
    v.push('i' as u8);
    v.push('e' as u8);
    v.push('n' as u8);
    v.push('t' as u8);
    v.push(':' as u8);
    v.push(' ' as u8);
    proof {
        assert(v@ =~= spec_client_prefix());
    }
    append_bytes(&mut v, addr);
    v
}

/// Build the message that reports the host's address to the joining peer.
pub fn host_message(addr: &Vec<u8>) -> (r: Vec<u8>)
    ensures
        r@ == spec_host_message(addr@),
{
    let mut v: Vec<u8> = Vec::new();
    v.push('H' as u8);
    v.push('o' as u8);
    v.push('s' as u8);
    v.push('t' as u8);
    v.push(':' as u8);
    v.push(' ' as u8);
    proof {
        assert(v@ =~= spec_host_prefix());
    }
    append_bytes(&mut v, addr);
    v
}

} // verus!
