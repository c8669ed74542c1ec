//! Program-derived addresses: the accounts of a market are authenticated by
//! being exactly the address derived from a domain tag and the market's
//! identity, never by a signature.
use anchor_lang::prelude::Pubkey;
use vstd::prelude::*;

verus! {

/// The derived address, with its bump seed, for `seeds` under `program_id`,
/// or `None` when no bump seed yields an off-curve address.
pub uninterp spec fn program_address(seeds: Seq<Seq<u8>>, program_id: Seq<u8>) -> Option<(Seq<u8>, u8)>;

/// Relies on `Pubkey::try_find_program_address` (solana-address): a hash of
/// the seeds, a bump seed and the program id, so the result depends on those
/// values alone; it returns `None` rather than panicking when the seeds are
/// too many or too long or no bump seed works.
#[verifier::external_body]
fn try_find_program_address(seeds: &Vec<Vec<u8>>, program_id: &[u8; 32]) -> (r: Option<([u8; 32], u8)>)
    ensures
        match r {
            Some((key, bump)) => program_address(seeds.deep_view(), program_id@) == Some((key@, bump)),
            None => program_address(seeds.deep_view(), program_id@) is None,
        },
{
    let refs: Vec<&[u8]> = seeds.iter().map(|s| s.as_slice()).collect();
    Pubkey::try_find_program_address(&refs, &Pubkey::new_from_array(*program_id))
        .map(|(key, bump)| (key.to_bytes(), bump))
}

/// The tag that binds a vault to its market: `b"vault"`.
pub open spec fn vault_tag() -> Seq<u8> {
    seq![118u8, 97u8, 117u8, 108u8, 116u8]
}

/// The tag that binds a user position to its market and beneficiary: `b"userpos"`.
pub open spec fn user_position_tag() -> Seq<u8> {
    seq![117u8, 115u8, 101u8, 114u8, 112u8, 111u8, 115u8]
}

/// The `len` low-order bytes of `n`, least significant first.
pub open spec fn le_bytes(n: nat, len: nat) -> Seq<u8>
    decreases len,
{
    if len == 0 {
        Seq::empty()
    } else {
        seq![(n % 256) as u8] + le_bytes(n / 256, (len - 1) as nat)
    }
}

/// Seeds of a market's vault address.
pub open spec fn vault_seeds(market_id: u64) -> Seq<Seq<u8>> {
    seq![vault_tag(), le_bytes(market_id as nat, 8)]
}

/// Seeds of the position address of `beneficiary` in a market.
pub open spec fn user_position_seeds(market_id: u64, beneficiary: Seq<u8>) -> Seq<Seq<u8>> {
    seq![user_position_tag(), le_bytes(market_id as nat, 8), beneficiary]
}

/// The key that an optional derivation result carries, as a byte sequence.
pub open spec fn derived_view(r: Option<([u8; 32], u8)>) -> Option<(Seq<u8>, u8)> {
    match r {
        Some((key, bump)) => Some((key@, bump)),
        None => None,
    }
}

/// The little-endian bytes of a market id, as they stand in seeds.
pub fn market_id_le_bytes(market_id: u64) -> (r: Vec<u8>)
    ensures
        r@ == le_bytes(market_id as nat, 8),
{
    let mut out: Vec<u8> = Vec::new();
    let mut rest: u64 = market_id;
    let mut i: usize = 0;
    while i < 8
        invariant
            0 <= i <= 8,
            out@ + le_bytes(rest as nat, (8 - i) as nat) == le_bytes(market_id as nat, 8),
        decreases 8 - i,
    {
        let ghost before = out@;
        let ghost tail = le_bytes(rest as nat, (8 - i) as nat);
        assert(tail == seq![((rest as nat) % 256) as u8] + le_bytes(rest as nat / 256, (8 - i - 1) as nat));
        out.push((rest % 256) as u8);
        rest = rest / 256;
        i = i + 1;
        assert(out@ + le_bytes(rest as nat, (8 - i) as nat) =~= before + tail);
    }
    assert(out@ =~= out@ + le_bytes(rest as nat, 0));
    out
}

/// The bytes of a foreign-chain address, as a seed.
fn address_bytes(a: &[u8; 20]) -> (r: Vec<u8>)
    ensures
        r@ == a@,
{
    let mut out: Vec<u8> = Vec::new();
    let mut i: usize = 0;
    while i < 20
        invariant
            0 <= i <= 20,
            out@ == a@.subrange(0, i as int),
        decreases 20 - i,
    {
        out.push(a[i]);
        i = i + 1;
        assert(out@ =~= a@.subrange(0, i as int));
    }
    assert(a@.subrange(0, 20) =~= a@);
    out
}

/// Whether two addresses are the same 32 bytes.
pub fn same_address(a: &[u8; 32], b: &[u8; 32]) -> (r: bool)
    ensures
        r == (a@ == b@),
{
    let mut i: usize = 0;
    while i < 32
        invariant
            0 <= i <= 32,
            forall|j: int| 0 <= j < i ==> a@[j] == b@[j],
        decreases 32 - i,
    {
        if a[i] != b[i] {
            return false;
        }
        i = i + 1;
    }
    assert(a@ =~= b@);
    true
}

/// The vault address of market `market_id` and its bump seed.
pub fn find_vault_address(program_id: &[u8; 32], market_id: u64) -> (r: Option<([u8; 32], u8)>)
    ensures
        derived_view(r) == program_address(vault_seeds(market_id), program_id@),
{
    // b"vault"
    let tag: Vec<u8> = vec![118u8, 97u8, 117u8, 108u8, 116u8];
    let id_bytes = market_id_le_bytes(market_id);
    assert(tag.deep_view() =~= vault_tag());
    assert(id_bytes.deep_view() =~= id_bytes@);
    let seeds: Vec<Vec<u8>> = vec![tag, id_bytes];
    assert(seeds.deep_view() =~= vault_seeds(market_id));
    try_find_program_address(&seeds, program_id)
}

/// The position address of `beneficiary` in market `market_id` and its bump seed.
pub fn find_user_position_address(program_id: &[u8; 32], market_id: u64, beneficiary: &[u8; 20]) -> (r: Option<([u8; 32], u8)>)
    ensures
        derived_view(r) == program_address(user_position_seeds(market_id, beneficiary@), program_id@),
{
    // b"userpos"
    let tag: Vec<u8> = vec![117u8, 115u8, 101u8, 114u8, 112u8, 111u8, 115u8];
    let id_bytes = market_id_le_bytes(market_id);
    let who = address_bytes(beneficiary);
    assert(tag.deep_view() =~= user_position_tag());
    assert(id_bytes.deep_view() =~= id_bytes@);
    assert(who.deep_view() =~= who@);
    let seeds: Vec<Vec<u8>> = vec![tag, id_bytes, who];
    assert(seeds.deep_view() =~= user_position_seeds(market_id, beneficiary@));
    try_find_program_address(&seeds, program_id)
}

} // verus!
