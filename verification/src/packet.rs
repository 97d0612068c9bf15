//! The IP discovery packet: 74 bytes, big-endian.
//!
//! | bytes  | field                                             |
//! |--------|---------------------------------------------------|
//! | 0..2   | kind: 1 for a request, 2 for a response           |
//! | 2..4   | declared length of what follows, always 70        |
//! | 4..8   | SSRC                                              |
//! | 8..72  | address as UTF-8 text, padded with NUL bytes      |
//! | 72..74 | port                                              |

use vstd::prelude::*;
use vstd::slice::*;
use vstd::string::*;
use vstd::utf8::*;

verus! {

/// Length of a discovery packet.
pub const PACKET_LEN: usize = 74;

/// Length of the address field.
pub const ADDRESS_LEN: usize = 64;

/// Content of the length field: the bytes that follow it.
pub const DECLARED_LEN: u16 = 70;

/// Kind of a request.
pub const REQUEST: u16 = 1;

/// Kind of a response.
pub const RESPONSE: u16 = 2;

/// Why a buffer is no discovery response, or an address fits no packet.
#[derive(Clone, Copy, Debug, PartialEq, Eq, Structural)]
pub enum CodecError {
    /// The buffer holds fewer than 74 bytes.
    TooShort,
    /// The kind field is not that of a response.
    NotResponse,
    /// The address field, without its padding, is not UTF-8.
    InvalidAddress,
    /// The address takes more than 64 bytes.
    AddressTooLong,
}

/// The two bytes of `v`, most significant first.
pub open spec fn be16(v: u16) -> Seq<u8> {
    seq![(v / 256) as u8, (v % 256) as u8]
}

/// The four bytes of `v`, most significant first.
pub open spec fn be32(v: u32) -> Seq<u8> {
    seq![
        (v / 0x100_0000) as u8,
        (v / 0x1_0000 % 256) as u8,
        (v / 0x100 % 256) as u8,
        (v % 256) as u8,
    ]
}

/// The number that two bytes stand for, most significant first.
pub open spec fn from_be16(hi: u8, lo: u8) -> u16 {
    (hi * 256 + lo) as u16
}

/// `n` NUL bytes.
pub open spec fn nulls(n: nat) -> Seq<u8> {
    Seq::new(n, |i: int| 0u8)
}

/// `bytes` without the NUL bytes at its end.
pub open spec fn trim_nulls(bytes: Seq<u8>) -> Seq<u8>
    decreases bytes.len(),
{
    if bytes.len() > 0 && bytes.last() == 0 {
        trim_nulls(bytes.drop_last())
    } else {
        bytes
    }
}

/// The packet with the given fields; `address` is padded to 64 bytes.
pub open spec fn packet_bytes(kind: u16, ssrc: u32, address: Seq<u8>, port: u16) -> Seq<u8>
    recommends
        address.len() <= ADDRESS_LEN,
{
    be16(kind) + be16(DECLARED_LEN) + be32(ssrc) + address + nulls(
        (ADDRESS_LEN - address.len()) as nat,
    ) + be16(port)
}

/// The request that announces `ssrc`: no address and no port.
pub open spec fn request_bytes(ssrc: u32) -> Seq<u8> {
    packet_bytes(REQUEST, ssrc, Seq::empty(), 0)
}

/// The response that reports `ip` and `port` to the client with `ssrc`.
pub open spec fn response_bytes(ip: Seq<char>, port: u16, ssrc: u32) -> Seq<u8>
    recommends
        encode_utf8(ip).len() <= ADDRESS_LEN,
{
    packet_bytes(RESPONSE, ssrc, encode_utf8(ip), port)
}

/// The kind field of a packet.
pub open spec fn kind_of(bytes: Seq<u8>) -> u16
    recommends
        bytes.len() >= 2,
{
    from_be16(bytes[0], bytes[1])
}

/// The address field of a packet, without its padding.
pub open spec fn address_of(bytes: Seq<u8>) -> Seq<u8>
    recommends
        bytes.len() >= PACKET_LEN,
{
    trim_nulls(bytes.subrange(8, 72))
}

/// The port field of a packet.
pub open spec fn port_of(bytes: Seq<u8>) -> u16
    recommends
        bytes.len() >= PACKET_LEN,
{
    from_be16(bytes[72], bytes[73])
}

/// What a buffer says as a discovery response: the address and port it
/// reports, or the first reason why it is none. Bytes after the 74th are
/// not looked at.
pub open spec fn decoded(bytes: Seq<u8>) -> Result<(Seq<char>, u16), CodecError> {
    if bytes.len() < PACKET_LEN {
        Err(CodecError::TooShort)
    } else if kind_of(bytes) != RESPONSE {
        Err(CodecError::NotResponse)
    } else if !valid_utf8(address_of(bytes)) {
        Err(CodecError::InvalidAddress)
    } else {
        Ok((decode_utf8(address_of(bytes)), port_of(bytes)))
    }
}

/// `String::from_utf8` of std: the text that `bytes` encode, and nothing where
/// they are not well-formed UTF-8.
#[verifier::external_body]
fn text_from_utf8(bytes: Vec<u8>) -> (text: Option<String>)
    ensures
        text is Some <==> valid_utf8(bytes@),
        text matches Some(s) ==> s@ == decode_utf8(bytes@),
{
    String::from_utf8(bytes).ok()
}

fn push_be16(out: &mut Vec<u8>, v: u16)
    ensures
        final(out)@ == old(out)@ + be16(v),
{
    out.push((v / 256) as u8);
    out.push((v % 256) as u8);
    assert(out@ =~= old(out)@ + be16(v));
}

fn push_be32(out: &mut Vec<u8>, v: u32)
    ensures
        final(out)@ == old(out)@ + be32(v),
{
    out.push((v / 0x100_0000) as u8);
    out.push((v / 0x1_0000 % 256) as u8);
    out.push((v / 0x100 % 256) as u8);
    out.push((v % 256) as u8);
    assert(out@ =~= old(out)@ + be32(v));
}

fn write_packet(kind: u16, ssrc: u32, address: &[u8], port: u16) -> (out: Vec<u8>)
    requires
        address@.len() <= ADDRESS_LEN,
    ensures
        out@ == packet_bytes(kind, ssrc, address@, port),
{
    let mut out: Vec<u8> = Vec::with_capacity(PACKET_LEN);
    push_be16(&mut out, kind);
    push_be16(&mut out, DECLARED_LEN);
    push_be32(&mut out, ssrc);
    let ghost head = out@;
    let mut i: usize = 0;
    while i < address.len()
        invariant
            i <= address@.len(),
            out@ == head + address@.take(i as int),
        decreases address@.len() - i,
    {
        out.push(address[i]);
        i += 1;
        assert(out@ =~= head + address@.take(i as int));
    }
    assert(address@.take(i as int) =~= address@);
    let ghost body = out@;
    let mut k: usize = address.len();
    while k < ADDRESS_LEN
        invariant
            address@.len() <= k <= ADDRESS_LEN,
            out@ == body + nulls((k - address@.len()) as nat),
        decreases ADDRESS_LEN - k,
    {
        out.push(0u8);
        k += 1;
        assert(out@ =~= body + nulls((k - address@.len()) as nat));
    }
    push_be16(&mut out, port);
    out
}

/// Encodes the request that announces `ssrc`.
pub fn encode_request(ssrc: u32) -> (out: Vec<u8>)
    ensures
        out@ == request_bytes(ssrc),
        out@.len() == PACKET_LEN,
{
    let empty: Vec<u8> = Vec::new();
    let out = write_packet(REQUEST, ssrc, empty.as_slice(), 0);
    proof {
        packet_has_fixed_layout(REQUEST, ssrc, Seq::empty(), 0);
    }
    out
}

/// Encodes the response that reports `ip` and `port` to the client with
/// `ssrc`. An address of more than 64 bytes fits no packet.
pub fn build_response(ip: &str, port: u16, ssrc: u32) -> (r: Result<Vec<u8>, CodecError>)
    ensures
        match r {
            Ok(out) => encode_utf8(ip@).len() <= ADDRESS_LEN && out@ == response_bytes(
                ip@,
                port,
                ssrc,
            ) && out@.len() == PACKET_LEN,
            Err(e) => e == CodecError::AddressTooLong && encode_utf8(ip@).len() > ADDRESS_LEN,
        },
{
    let address = ip.as_bytes();
    if address.len() > ADDRESS_LEN {
        return Err(CodecError::AddressTooLong);
    }
    let out = write_packet(RESPONSE, ssrc, address, port);
    proof {
        packet_has_fixed_layout(RESPONSE, ssrc, address@, port);
    }
    Ok(out)
}

/// Decodes a discovery response. The buffer is refused if it holds fewer than
/// 74 bytes, if its kind is not that of a response, or if its address is not
/// UTF-8 once the padding is taken off, in that order; otherwise the address
/// and the port come back.
pub fn decode_response(bytes: &[u8]) -> (r: Result<(String, u16), CodecError>)
    ensures
        match r {
            Ok((ip, port)) => decoded(bytes@) == Ok::<(Seq<char>, u16), CodecError>((ip@, port)),
            Err(e) => decoded(bytes@) == Err::<(Seq<char>, u16), CodecError>(e),
        },
        bytes@.len() < PACKET_LEN ==> r == Err::<(String, u16), CodecError>(CodecError::TooShort),
        bytes@.len() >= PACKET_LEN && kind_of(bytes@) != RESPONSE ==> r == Err::<
            (String, u16),
            CodecError,
        >(CodecError::NotResponse),
{
    if bytes.len() < PACKET_LEN {
        return Err(CodecError::TooShort);
    }
    let kind: u16 = (bytes[0] as u16) * 256 + (bytes[1] as u16);
    if kind != RESPONSE {
        return Err(CodecError::NotResponse);
    }
    let port: u16 = (bytes[72] as u16) * 256 + (bytes[73] as u16);
    let ghost field = bytes@.subrange(8, 72);
    let mut end: usize = 72;
    assert(field.take(72 - 8) =~= field);
    while end > 8 && bytes[end - 1] == 0
        invariant
            8 <= end <= 72,
            bytes@.len() >= PACKET_LEN,
            field == bytes@.subrange(8, 72),
            trim_nulls(field) == trim_nulls(field.take(end - 8)),
        decreases end,
    {
        assert(field.take(end - 8).drop_last() =~= field.take(end - 9));
        end -= 1;
    }
    assert(trim_nulls(field) == field.take(end - 8));
    let address = slice_to_vec(slice_subrange(bytes, 8, end));
    assert(address@ =~= field.take(end - 8));
    match text_from_utf8(address) {
        Some(ip) => Ok((ip, port)),
        None => Err(CodecError::InvalidAddress),
    }
}

/// A packet is 74 bytes long and holds its fields at their places.
pub proof fn packet_has_fixed_layout(kind: u16, ssrc: u32, address: Seq<u8>, port: u16)
    requires
        address.len() <= ADDRESS_LEN,
    ensures
        packet_bytes(kind, ssrc, address, port).len() == PACKET_LEN,
        kind_of(packet_bytes(kind, ssrc, address, port)) == kind,
        port_of(packet_bytes(kind, ssrc, address, port)) == port,
        packet_bytes(kind, ssrc, address, port).subrange(2, 4) == be16(DECLARED_LEN),
        packet_bytes(kind, ssrc, address, port).subrange(4, 8) == be32(ssrc),
        packet_bytes(kind, ssrc, address, port).subrange(8, 72) == address + nulls(
            (ADDRESS_LEN - address.len()) as nat,
        ),
{
    let p = packet_bytes(kind, ssrc, address, port);
    assert(p.subrange(2, 4) =~= be16(DECLARED_LEN));
    assert(p.subrange(4, 8) =~= be32(ssrc));
    assert(p.subrange(8, 72) =~= address + nulls((ADDRESS_LEN - address.len()) as nat));
}

/// Padding comes off again: trimming `address` followed by NUL bytes gives
/// `address`, provided `address` itself does not end in a NUL byte.
pub proof fn padding_trims_off(address: Seq<u8>, n: nat)
    requires
        address.len() == 0 || address.last() != 0,
    ensures
        trim_nulls(address + nulls(n)) == address,
    decreases n,
{
    let padded = address + nulls(n);
    if n == 0 {
        assert(padded =~= address);
    } else {
        assert(padded.last() == 0);
        assert(padded.drop_last() =~= address + nulls((n - 1) as nat));
        padding_trims_off(address, (n - 1) as nat);
    }
}

/// Decoding a response gives back the address and the port it was built
/// from, whatever the SSRC, for every address that fits the field and whose
/// encoding does not end in a NUL byte.
pub proof fn response_round_trip(ip: Seq<char>, port: u16, ssrc: u32)
    requires
        encode_utf8(ip).len() <= ADDRESS_LEN,
        encode_utf8(ip).len() == 0 || encode_utf8(ip).last() != 0,
    ensures
        decoded(response_bytes(ip, port, ssrc)) == Ok::<(Seq<char>, u16), CodecError>((ip, port)),
{
    let address = encode_utf8(ip);
    packet_has_fixed_layout(RESPONSE, ssrc, address, port);
    padding_trims_off(address, (ADDRESS_LEN - address.len()) as nat);
    encode_utf8_valid_utf8(ip);
    encode_utf8_decode_utf8(ip);
}

/// A request is never taken for a response.
pub proof fn request_is_no_response(ssrc: u32)
    ensures
        decoded(request_bytes(ssrc)) == Err::<(Seq<char>, u16), CodecError>(
            CodecError::NotResponse,
        ),
{
    packet_has_fixed_layout(REQUEST, ssrc, Seq::empty(), 0);
}

/// A buffer of fewer than 74 bytes, and one whose kind is not 2, decodes to
/// an error and to nothing else.
pub proof fn short_or_mistyped_is_refused(bytes: Seq<u8>)
    ensures
        bytes.len() < PACKET_LEN ==> decoded(bytes) == Err::<(Seq<char>, u16), CodecError>(
            CodecError::TooShort,
        ),
        bytes.len() >= PACKET_LEN && kind_of(bytes) != RESPONSE ==> decoded(bytes) == Err::<
            (Seq<char>, u16),
            CodecError,
        >(CodecError::NotResponse),
{
}

/// A decimal digit.
pub open spec fn is_digit(c: char) -> bool {
    '0' <= c <= '9'
}

/// The number that a run of decimal digits stands for.
pub open spec fn decimal_value(digits: Seq<char>) -> nat
    decreases digits.len(),
{
    if digits.len() == 0 {
        0
    } else {
        decimal_value(digits.drop_last()) * 10 + (digits.last() as nat - '0' as nat) as nat
    }
}

/// One to three decimal digits that stand for a number up to 255.
pub open spec fn is_octet(s: Seq<char>) -> bool {
    &&& 1 <= s.len() <= 3
    &&& forall|i: int| 0 <= i < s.len() ==> is_digit(#[trigger] s[i])
    &&& decimal_value(s) <= 255
}

/// Four runs of characters joined by dots.
pub open spec fn dotted(a: Seq<char>, b: Seq<char>, c: Seq<char>, d: Seq<char>) -> Seq<char> {
    a + seq!['.'] + b + seq!['.'] + c + seq!['.'] + d
}

/// An IPv4 address in dotted decimal notation.
pub open spec fn is_ipv4_literal(s: Seq<char>) -> bool {
    exists|a: Seq<char>, b: Seq<char>, c: Seq<char>, d: Seq<char>|
        is_octet(a) && is_octet(b) && is_octet(c) && is_octet(d) && s == #[trigger] dotted(
            a,
            b,
            c,
            d,
        )
}

/// An IPv4 literal is between 7 and 15 ASCII characters, none of them NUL,
/// so its encoding fits the address field and does not end in a NUL byte.
pub proof fn ipv4_literal_fits(ip: Seq<char>)
    requires
        is_ipv4_literal(ip),
    ensures
        7 <= ip.len() <= 15,
        is_ascii_chars(ip),
        encode_utf8(ip).len() == ip.len(),
        encode_utf8(ip).last() != 0,
{
    let (a, b, c, d) = choose|a: Seq<char>, b: Seq<char>, c: Seq<char>, d: Seq<char>|
        is_octet(a) && is_octet(b) && is_octet(c) && is_octet(d) && ip == #[trigger] dotted(
            a,
            b,
            c,
            d,
        );
    assert forall|i: int| 0 <= i < ip.len() implies is_digit(#[trigger] ip[i]) || ip[i] == '.' by {
        let la = a.len() as int;
        let lb = b.len() as int;
        let lc = c.len() as int;
        if i < la {
            assert(ip[i] == a[i]);
        } else if i == la {
        } else if i < la + 1 + lb {
            assert(ip[i] == b[i - la - 1]);
        } else if i == la + 1 + lb {
        } else if i < la + 1 + lb + 1 + lc {
            assert(ip[i] == c[i - la - lb - 2]);
        } else if i == la + 1 + lb + 1 + lc {
        } else {
            assert(ip[i] == d[i - la - lb - lc - 3]);
        }
    }
    assert(is_ascii_chars(ip));
    is_ascii_chars_encode_utf8(ip);
    let last = ip.len() - 1;
    assert(ip[last] == d[d.len() - 1]);
    assert(is_digit(ip[last]));
    assert(encode_utf8(ip)[last] == ip[last] as u8);
}

/// For any SSRC, IPv4 literal and port, decoding the response built from
/// them gives back the literal and the port.
pub proof fn ipv4_round_trip(ip: Seq<char>, port: u16, ssrc: u32)
    requires
        is_ipv4_literal(ip),
    ensures
        encode_utf8(ip).len() <= ADDRESS_LEN,
        decoded(response_bytes(ip, port, ssrc)) == Ok::<(Seq<char>, u16), CodecError>((ip, port)),
{
    ipv4_literal_fits(ip);
    response_round_trip(ip, port, ssrc);
}

} // verus!
