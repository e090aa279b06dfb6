//! The persisted binary layout of the protocol's records.
//!
//! Each record is a fixed-order encoding prefixed by an 8-byte type tag that
//! disambiguates account kinds at read time.  The escrow record is the tag,
//! the maker address, the custody address, the requested-asset address, and
//! the requested amount as an 8-byte little-endian integer.  The singleton
//! authority record is its own tag followed by the single nonce byte.

use vstd::prelude::*;
use crate::keys::Pubkey;
use crate::state::Escrow;
use crate::state::EscrowView;
use crate::state::TheProgramAuthoritySingleton;

verus! {

/// The 8-byte type tag of an escrow record: the bytes of `"escrow"`, zero
/// padded.
pub open spec fn escrow_tag() -> Seq<u8> {
    seq![101u8, 115u8, 99u8, 114u8, 111u8, 119u8, 0u8, 0u8]
}

/// The 8-byte type tag of the singleton authority record: the first eight
/// bytes of `"authority"`.
pub open spec fn singleton_tag() -> Seq<u8> {
    seq![97u8, 117u8, 116u8, 104u8, 111u8, 114u8, 105u8, 116u8]
}

/// The eight bytes of `v`, least significant first.
pub open spec fn u64_le_bytes(v: u64) -> Seq<u8> {
    seq![
        (v & 0xff) as u8,
        ((v >> 8) & 0xff) as u8,
        ((v >> 16) & 0xff) as u8,
        ((v >> 24) & 0xff) as u8,
        ((v >> 32) & 0xff) as u8,
        ((v >> 40) & 0xff) as u8,
        ((v >> 48) & 0xff) as u8,
        ((v >> 56) & 0xff) as u8,
    ]
}

/// The integer whose eight little-endian bytes are `s`.
pub open spec fn u64_from_le(s: Seq<u8>) -> u64
    recommends
        s.len() == 8,
{
    (s[0] as u64) | ((s[1] as u64) << 8) | ((s[2] as u64) << 16) | ((s[3] as u64) << 24) | ((
    s[4] as u64) << 32) | ((s[5] as u64) << 40) | ((s[6] as u64) << 48) | ((s[7] as u64) << 56)
}

/// Reading back the eight little-endian bytes of an integer yields the
/// integer.
pub proof fn lemma_u64_le_round_trip(v: u64)
    ensures
        u64_from_le(u64_le_bytes(v)) == v,
{
    assert(((v & 0xff) as u8 as u64) | ((((v >> 8) & 0xff) as u8 as u64) << 8) | ((((v >> 16)
        & 0xff) as u8 as u64) << 16) | ((((v >> 24) & 0xff) as u8 as u64) << 24) | ((((v >> 32)
        & 0xff) as u8 as u64) << 32) | ((((v >> 40) & 0xff) as u8 as u64) << 40) | ((((v >> 48)
        & 0xff) as u8 as u64) << 48) | ((((v >> 56) & 0xff) as u8 as u64) << 56) == v)
        by (bit_vector);
}

/// The full encoding of an escrow record's value.
pub open spec fn escrow_bytes(v: EscrowView) -> Seq<u8> {
    escrow_tag() + v.us + v.escrowed_x_tokens + v.y_mint + u64_le_bytes(v.y_amount)
}

/// The escrow record read from `s`, or nothing where `s` is not a
/// well-formed escrow record encoding.
pub open spec fn parse_escrow(s: Seq<u8>) -> Option<EscrowView> {
    if s.len() == 112 && s.subrange(0, 8) == escrow_tag() {
        Some(
            EscrowView {
                us: s.subrange(8, 40),
                escrowed_x_tokens: s.subrange(40, 72),
                y_mint: s.subrange(72, 104),
                y_amount: u64_from_le(s.subrange(104, 112)),
            },
        )
    } else {
        None
    }
}

/// Reading back an encoded escrow record yields the record.
pub proof fn lemma_escrow_round_trip(v: EscrowView)
    requires
        v.us.len() == 32,
        v.escrowed_x_tokens.len() == 32,
        v.y_mint.len() == 32,
    ensures
        parse_escrow(escrow_bytes(v)) == Some(v),
{
    let s = escrow_bytes(v);
    assert(s.subrange(0, 8) =~= escrow_tag());
    assert(s.subrange(8, 40) =~= v.us);
    assert(s.subrange(40, 72) =~= v.escrowed_x_tokens);
    assert(s.subrange(72, 104) =~= v.y_mint);
    assert(s.subrange(104, 112) =~= u64_le_bytes(v.y_amount));
    lemma_u64_le_round_trip(v.y_amount);
    assert(parse_escrow(s).unwrap() =~= v);
}

/// The full encoding of the singleton authority record.
pub open spec fn singleton_bytes(bump: u8) -> Seq<u8> {
    singleton_tag().push(bump)
}

/// The nonce byte read from `s`, or nothing where `s` is not a well-formed
/// singleton authority record encoding.
pub open spec fn parse_singleton(s: Seq<u8>) -> Option<u8> {
    if s.len() == 9 && s.subrange(0, 8) == singleton_tag() {
        Some(s[8])
    } else {
        None
    }
}

/// Reading back an encoded singleton authority record yields its nonce
/// byte.
pub proof fn lemma_singleton_round_trip(bump: u8)
    ensures
        parse_singleton(singleton_bytes(bump)) == Some(bump),
{
    assert(singleton_bytes(bump).subrange(0, 8) =~= singleton_tag());
}

/// Append the 32 bytes of an address.
fn push_key(out: &mut Vec<u8>, k: &Pubkey)
    ensures
        final(out)@ == old(out)@ + k@,
{
    let mut i: usize = 0;
    while i < 32
        invariant
            i <= 32,
            out@ == old(out)@ + k@.subrange(0, i as int),
        decreases 32 - i,
    {
        out.push(k.bytes[i]);
        proof {
            assert(old(out)@ + k@.subrange(0, i as int) + seq![k@[i as int]] =~= old(out)@
                + k@.subrange(0, i + 1));
        }
        i += 1;
    }
    proof {
        assert(k@.subrange(0, 32) =~= k@);
    }
}

/// Append the eight little-endian bytes of `v`.
fn push_u64_le(out: &mut Vec<u8>, v: u64)
    ensures
        final(out)@ == old(out)@ + u64_le_bytes(v),
{
    out.push((v & 0xff) as u8);
    out.push(((v >> 8) & 0xff) as u8);
    out.push(((v >> 16) & 0xff) as u8);
    out.push(((v >> 24) & 0xff) as u8);
    out.push(((v >> 32) & 0xff) as u8);
    out.push(((v >> 40) & 0xff) as u8);
    out.push(((v >> 48) & 0xff) as u8);
    out.push(((v >> 56) & 0xff) as u8);
    proof {
        assert(out@ =~= old(out)@ + u64_le_bytes(v));
    }
}

/// Encode an escrow record into its persisted layout.
pub fn encode_escrow(e: &Escrow) -> (out: Vec<u8>)
    ensures
        out@ == escrow_bytes(e@),
{
    let mut out: Vec<u8> = Vec::new();
    out.push(101u8);
    out.push(115u8);
    out.push(99u8);
    out.push(114u8);
    out.push(111u8);
    out.push(119u8);
    out.push(0u8);
    out.push(0u8);
    proof {
        assert(out@ =~= escrow_tag());
    }
    push_key(&mut out, &e.us);
    push_key(&mut out, &e.escrowed_x_tokens);
    push_key(&mut out, &e.y_mint);
    push_u64_le(&mut out, e.y_amount);
    proof {
        assert(out@ =~= escrow_bytes(e@));
    }
    out
}

/// Read the 32 bytes at `off` as an address.
fn read_key(bytes: &Vec<u8>, off: usize) -> (k: Pubkey)
    requires
        off + 32 <= bytes@.len(),
    ensures
        k@ == bytes@.subrange(off as int, off + 32),
{
    let n: usize = bytes.len();
    proof {
        assert(off + 32 <= n);
    }
    let mut b: [u8; 32] = [0u8; 32];
    let mut i: usize = 0;
    while i < 32
        invariant
            i <= 32,
            off + 32 <= n,
            n == bytes@.len(),
            forall|j: int| 0 <= j < i ==> b@[j] == bytes@[off + j],
        decreases 32 - i,
    {
        b[i] = bytes[off + i];
        i += 1;
    }
    let k = Pubkey { bytes: b };
    proof {
        assert(k@ =~= bytes@.subrange(off as int, off + 32));
    }
    k
}

/// Read the eight bytes at `off` as a little-endian integer.
fn read_u64_le(bytes: &Vec<u8>, off: usize) -> (v: u64)
    requires
        off + 8 <= bytes@.len(),
    ensures
        v == u64_from_le(bytes@.subrange(off as int, off + 8)),
{
    let n: usize = bytes.len();
    proof {
        assert(off + 8 <= n);
    }
    let v = (bytes[off] as u64) | ((bytes[off + 1] as u64) << 8) | ((bytes[off + 2] as u64) << 16)
        | ((bytes[off + 3] as u64) << 24) | ((bytes[off + 4] as u64) << 32) | ((bytes[off
        + 5] as u64) << 40) | ((bytes[off + 6] as u64) << 48) | ((bytes[off + 7] as u64) << 56);
    proof {
        let s = bytes@.subrange(off as int, off + 8);
        assert(s[0] == bytes@[off as int]);
        assert(s[1] == bytes@[off + 1]);
        assert(s[2] == bytes@[off + 2]);
        assert(s[3] == bytes@[off + 3]);
        assert(s[4] == bytes@[off + 4]);
        assert(s[5] == bytes@[off + 5]);
        assert(s[6] == bytes@[off + 6]);
        assert(s[7] == bytes@[off + 7]);
    }
    v
}

/// Decode an escrow record from its persisted layout; `None` exactly where
/// the bytes are not a well-formed escrow record encoding.
pub fn decode_escrow(bytes: &Vec<u8>) -> (r: Option<Escrow>)
    ensures
        (match r {
            Some(e) => parse_escrow(bytes@) == Some(e@),
            None => parse_escrow(bytes@) is None,
        }),
{
    if bytes.len() != 112 {
        return None;
    }
    if bytes[0] != 101u8 || bytes[1] != 115u8 || bytes[2] != 99u8 || bytes[3] != 114u8 || bytes[4]
        != 111u8 || bytes[5] != 119u8 || bytes[6] != 0u8 || bytes[7] != 0u8 {
        proof {
            assert(bytes@.subrange(0, 8) != escrow_tag()) by {
                if bytes@.subrange(0, 8) == escrow_tag() {
                    assert(bytes@[0] == escrow_tag()[0]);
                    assert(bytes@[1] == escrow_tag()[1]);
                    assert(bytes@[2] == escrow_tag()[2]);
                    assert(bytes@[3] == escrow_tag()[3]);
                    assert(bytes@[4] == escrow_tag()[4]);
                    assert(bytes@[5] == escrow_tag()[5]);
                    assert(bytes@[6] == escrow_tag()[6]);
                    assert(bytes@[7] == escrow_tag()[7]);
                }
            }
        }
        return None;
    }
    proof {
        assert(bytes@.subrange(0, 8) =~= escrow_tag());
    }
    let us = read_key(bytes, 8);
    let escrowed_x_tokens = read_key(bytes, 40);
    let y_mint = read_key(bytes, 72);
    let y_amount = read_u64_le(bytes, 104);
    let e = Escrow { us, escrowed_x_tokens, y_mint, y_amount };
    proof {
        assert(parse_escrow(bytes@).unwrap() =~= e@);
    }
    Some(e)
}

/// Encode the singleton authority record into its persisted layout.
pub fn encode_singleton(a: &TheProgramAuthoritySingleton) -> (out: Vec<u8>)
    ensures
        out@ == singleton_bytes(a.authority_bump),
{
    let mut out: Vec<u8> = Vec::new();
    out.push(97u8);
    out.push(117u8);
    out.push(116u8);
    out.push(104u8);
    out.push(111u8);
    out.push(114u8);
    out.push(105u8);
    out.push(116u8);
    out.push(a.authority_bump);
    proof {
        assert(out@ =~= singleton_bytes(a.authority_bump));
    }
    out
}

/// Decode the singleton authority record from its persisted layout; `None`
/// exactly where the bytes are not a well-formed singleton encoding.
pub fn decode_singleton(bytes: &Vec<u8>) -> (r: Option<TheProgramAuthoritySingleton>)
    ensures
        (match r {
            Some(a) => parse_singleton(bytes@) == Some(a.authority_bump),
            None => parse_singleton(bytes@) is None,
        }),
{
    if bytes.len() != 9 {
        return None;
    }
    if bytes[0] != 97u8 || bytes[1] != 117u8 || bytes[2] != 116u8 || bytes[3] != 104u8 || bytes[4]
        != 111u8 || bytes[5] != 114u8 || bytes[6] != 105u8 || bytes[7] != 116u8 {
        proof {
            assert(bytes@.subrange(0, 8) != singleton_tag()) by {
                if bytes@.subrange(0, 8) == singleton_tag() {
                    assert(bytes@[0] == singleton_tag()[0]);
                    assert(bytes@[1] == singleton_tag()[1]);
                    assert(bytes@[2] == singleton_tag()[2]);
                    assert(bytes@[3] == singleton_tag()[3]);
                    assert(bytes@[4] == singleton_tag()[4]);
                    assert(bytes@[5] == singleton_tag()[5]);
                    assert(bytes@[6] == singleton_tag()[6]);
                    assert(bytes@[7] == singleton_tag()[7]);
                }
            }
        }
        return None;
    }
    proof {
        assert(bytes@.subrange(0, 8) =~= singleton_tag());
    }
    Some(TheProgramAuthoritySingleton { authority_bump: bytes[8] })
}

} // verus!
