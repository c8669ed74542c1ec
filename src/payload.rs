//! The 96-byte settlement message: three 32-byte big-endian words holding
//! the beneficiary address, the market id and the outcome index.
use crate::error::ErrorCode;
use vstd::prelude::*;
use vstd::arithmetic::div_mod::lemma_mod_breakdown;

verus! {

/// Length of an encoded settlement message.
pub const PAYLOAD_LEN: usize = 96;

/// Value of a big-endian byte string.
pub open spec fn be_value(s: Seq<u8>) -> nat
    decreases s.len(),
{
    if s.len() == 0 {
        0
    } else {
        be_value(s.drop_last()) * 256 + s.last() as nat
    }
}

/// `256` raised to `k`.
pub open spec fn pow256(k: nat) -> nat
    decreases k,
{
    if k == 0 {
        1
    } else {
        256 * pow256((k - 1) as nat)
    }
}

/// The `len` low-order bytes of `n`, most significant first.
pub open spec fn be_bytes(n: nat, len: nat) -> Seq<u8>
    decreases len,
{
    if len == 0 {
        Seq::empty()
    } else {
        be_bytes(n / 256, (len - 1) as nat).push((n % 256) as u8)
    }
}

/// `count` zero bytes.
pub open spec fn zeros(count: nat) -> Seq<u8> {
    Seq::new(count, |i: int| 0u8)
}

/// The standard encoding of (beneficiary, market id, outcome): each value
/// right-aligned in a zero-padded 32-byte word.
pub open spec fn encode_payload(beneficiary: Seq<u8>, market_id: u64, outcome: u8) -> Seq<u8> {
    zeros(12) + beneficiary + zeros(24) + be_bytes(market_id as nat, 8) + zeros(31) + seq![outcome]
}

/// What decoding a message yields: the low 20 bytes of the first word, the
/// big-endian value of the low 8 bytes of the second, the last byte of the
/// third. Padding bytes are not inspected.
pub open spec fn decode_payload_spec(data: Seq<u8>) -> Result<(Seq<u8>, u64, u8), ErrorCode> {
    if data.len() != 96 {
        Err(ErrorCode::InvalidPayloadLength)
    } else {
        Ok((data.subrange(12, 32), be_value(data.subrange(56, 64)) as u64, data[95]))
    }
}

/// A big-endian string of `k` bytes is below `256^k`.
pub proof fn lemma_be_value_bound(s: Seq<u8>)
    ensures
        be_value(s) < pow256(s.len()),
    decreases s.len(),
{
    if s.len() > 0 {
        let p = s.drop_last();
        lemma_be_value_bound(p);
        let a = be_value(p);
        let q = pow256(p.len());
        let b = s.last() as nat;
        assert(a * 256 + b < 256 * q) by (nonlinear_arith)
            requires
                a < q,
                b < 256,
        ;
    }
}

/// Reading back the `len` low-order bytes of `n` gives `n` modulo `256^len`.
pub proof fn lemma_be_value_of_bytes(n: nat, len: nat)
    ensures
        be_bytes(n, len).len() == len,
        be_value(be_bytes(n, len)) == n % pow256(len),
    decreases len,
{
    if len > 0 {
        lemma_be_value_of_bytes(n / 256, (len - 1) as nat);
        let s = be_bytes(n, len);
        assert(s.drop_last() == be_bytes(n / 256, (len - 1) as nat));
        let q = pow256((len - 1) as nat);
        lemma_pow256_mono(0, (len - 1) as nat);
        lemma_mod_breakdown(n as int, 256, q as int);
        assert(((n % 256) as u8) as nat == n % 256);
        assert(be_value(s) == (n / 256) % q * 256 + n % 256);
        assert((n / 256) % q * 256 == 256 * ((n / 256) % q)) by (nonlinear_arith);
    }
}

/// Decode a settlement message into (beneficiary, market id, outcome).
pub fn decode_abi_payload(data: &[u8]) -> (r: Result<([u8; 20], u64, u8), ErrorCode>)
    ensures
        match (r, decode_payload_spec(data@)) {
            (Ok((addr, market_id, outcome)), Ok((a, m, o))) => addr@ == a && market_id == m
                && outcome == o,
            (Err(e), Err(f)) => e == f,
            _ => false,
        },
{
    if data.len() != PAYLOAD_LEN {
        return Err(ErrorCode::InvalidPayloadLength);
    }
    let mut addr = [0u8; 20];
    let mut i: usize = 0;
    while i < 20
        invariant
            data@.len() == 96,
            0 <= i <= 20,
            forall|j: int| 0 <= j < i ==> addr@[j] == data@[12 + j],
        decreases 20 - i,
    {
        addr[i] = data[12 + i];
        i = i + 1;
    }
    assert(addr@ =~= data@.subrange(12, 32));

    let mut market_id: u64 = 0;
    let mut k: usize = 0;
    while k < 8
        invariant
            data@.len() == 96,
            0 <= k <= 8,
            market_id as nat == be_value(data@.subrange(56, 56 + k as int)),
        decreases 8 - k,
    {
        let ghost prefix = data@.subrange(56, 56 + k as int);
        let ghost next = data@.subrange(56, 56 + k as int + 1);
        proof {
            assert(next.drop_last() =~= prefix);
            lemma_be_value_bound(prefix);
            assert(pow256(7) == 0x100_0000_0000_0000) by {
                reveal_with_fuel(pow256, 8);
            }
            if k < 7 {
                assert(pow256(k as nat) <= pow256(7)) by {
                    lemma_pow256_mono(k as nat, 7);
                }
            }
        }
        market_id = market_id * 256 + data[56 + k] as u64;
        k = k + 1;
    }

    Ok((addr, market_id, data[95]))
}

/// Decoding the standard encoding of a beneficiary, a market id and an
/// outcome gives back exactly those three values; a message of any length
/// other than 96 bytes is refused as too short or too long.
pub proof fn lemma_payload_round_trip(beneficiary: [u8; 20], market_id: u64, outcome: u8, other: Seq<u8>)
    ensures
        decode_payload_spec(encode_payload(beneficiary@, market_id, outcome)) == Ok::<
            (Seq<u8>, u64, u8),
            ErrorCode,
        >((beneficiary@, market_id, outcome)),
        other.len() != 96 ==> decode_payload_spec(other) == Err::<(Seq<u8>, u64, u8), ErrorCode>(
            ErrorCode::InvalidPayloadLength,
        ),
{
    let b = beneficiary@;
    let d = encode_payload(b, market_id, outcome);
    lemma_be_value_of_bytes(market_id as nat, 8);
    assert(pow256(8) == 0x1_0000_0000_0000_0000) by {
        reveal_with_fuel(pow256, 9);
    }
    assert(d.len() == 96);
    assert(d.subrange(12, 32) =~= b);
    assert(d.subrange(56, 64) =~= be_bytes(market_id as nat, 8));
    assert(d[95] == outcome);
}

/// `pow256` grows with its exponent.
pub proof fn lemma_pow256_mono(a: nat, b: nat)
    requires
        a <= b,
    ensures
        pow256(a) <= pow256(b),
    decreases b,
{
    if a < b {
        lemma_pow256_mono(a, (b - 1) as nat);
    }
}

} // verus!
