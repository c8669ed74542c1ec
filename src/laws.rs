//! Properties of sequences of settlements and of rejected settlements.
use crate::error::ErrorCode;
use crate::ledger::{LzCompose, MarketAccount};
use crate::payload::decode_payload_spec;
use crate::settlement::{compose_post, market_step, user_position_bound, vault_bound};
use vstd::prelude::*;

verus! {

/// Sum of a sequence of integers.
pub open spec fn sum_of(s: Seq<int>) -> int
    decreases s.len(),
{
    if s.len() == 0 {
        0
    } else {
        sum_of(s.drop_last()) + s.last()
    }
}

/// The two outcome totals of a market, added.
pub open spec fn outcome_total(m: MarketAccount) -> int {
    m.outcomes[0] + m.outcomes[1]
}

/// `markets` is a run of settlements: each state follows the one before by
/// crediting `deltas[i]` to outcome `outcomes[i]`.
pub open spec fn settlement_run(markets: Seq<MarketAccount>, outcomes: Seq<int>, deltas: Seq<int>) -> bool {
    &&& markets.len() == deltas.len() + 1
    &&& outcomes.len() == deltas.len()
    &&& forall|i: int|
        0 <= i < deltas.len() ==> #[trigger] market_step(markets[i], markets[i + 1], outcomes[i], deltas[i])
}

proof fn lemma_run_prefix(markets: Seq<MarketAccount>, outcomes: Seq<int>, deltas: Seq<int>, i: int)
    requires
        settlement_run(markets, outcomes, deltas),
        0 <= i < markets.len(),
    ensures
        markets[i].vault_balance == markets[0].vault_balance + sum_of(deltas.take(i)),
        outcome_total(markets[i]) == outcome_total(markets[0]) + sum_of(deltas.take(i)),
    decreases i,
{
    if i > 0 {
        lemma_run_prefix(markets, outcomes, deltas, i - 1);
        assert(deltas.take(i).drop_last() =~= deltas.take(i - 1));
        let k = i - 1;
        assert(market_step(markets[k], markets[k + 1], outcomes[k], deltas[k]));
    } else {
        assert(deltas.take(0) =~= Seq::<int>::empty());
    }
}

proof fn lemma_run_grows(markets: Seq<MarketAccount>, outcomes: Seq<int>, deltas: Seq<int>, i: int, j: int)
    requires
        settlement_run(markets, outcomes, deltas),
        0 <= i <= j < markets.len(),
    ensures
        markets[i].vault_balance <= markets[j].vault_balance,
    decreases j - i,
{
    if i < j {
        lemma_run_grows(markets, outcomes, deltas, i, j - 1);
        let k = j - 1;
        assert(market_step(markets[k], markets[k + 1], outcomes[k], deltas[k]));
    }
}

/// Over any run of successful settlements starting from a fresh market, the
/// accounted vault balance never decreases and always equals the sum of the
/// deltas settled so far.
pub proof fn lemma_vault_balance_accumulates(markets: Seq<MarketAccount>, outcomes: Seq<int>, deltas: Seq<int>)
    requires
        settlement_run(markets, outcomes, deltas),
        markets[0].vault_balance == 0,
    ensures
        forall|i: int| 0 <= i < markets.len() ==> #[trigger] markets[i].vault_balance == sum_of(deltas.take(i)),
        forall|i: int, j: int|
            0 <= i <= j < markets.len() ==> #[trigger] markets[i].vault_balance <= #[trigger] markets[j].vault_balance,
{
    assert forall|i: int| 0 <= i < markets.len() implies #[trigger] markets[i].vault_balance == sum_of(deltas.take(i)) by {
        lemma_run_prefix(markets, outcomes, deltas, i);
    }
    assert forall|i: int, j: int| 0 <= i <= j < markets.len() implies #[trigger] markets[i].vault_balance
        <= #[trigger] markets[j].vault_balance by {
        lemma_run_grows(markets, outcomes, deltas, i, j);
    }
}

/// Each settlement raises the sum of the two outcome totals by exactly its
/// own delta, so after a run from a fresh market that sum is the sum of all
/// deltas settled.
pub proof fn lemma_outcome_totals_conserve(markets: Seq<MarketAccount>, outcomes: Seq<int>, deltas: Seq<int>)
    requires
        settlement_run(markets, outcomes, deltas),
    ensures
        forall|i: int|
            0 <= i < deltas.len() ==> #[trigger] outcome_total(markets[i + 1]) == outcome_total(markets[i]) + deltas[i],
        forall|i: int|
            0 <= i < markets.len() ==> #[trigger] outcome_total(markets[i]) == outcome_total(markets[0]) + sum_of(
                deltas.take(i),
            ),
        outcome_total(markets[0]) == 0 ==> outcome_total(markets[deltas.len() as int]) == sum_of(deltas),
{
    assert forall|i: int| 0 <= i < deltas.len() implies #[trigger] outcome_total(markets[i + 1]) == outcome_total(
        markets[i],
    ) + deltas[i] by {
        assert(market_step(markets[i], markets[i + 1], outcomes[i], deltas[i]));
    }
    assert forall|i: int| 0 <= i < markets.len() implies #[trigger] outcome_total(markets[i]) == outcome_total(
        markets[0],
    ) + sum_of(deltas.take(i)) by {
        lemma_run_prefix(markets, outcomes, deltas, i);
    }
    lemma_run_prefix(markets, outcomes, deltas, deltas.len() as int);
    assert(deltas.take(deltas.len() as int) =~= deltas);
}

/// Settling the same message a second time, with the custodial balance
/// unchanged since the first success, is refused with `NoNewFunds` and
/// changes nothing.
pub proof fn lemma_repeat_settlement_rejected(
    program_id: Seq<u8>,
    first: LzCompose,
    payload: Seq<u8>,
    r1: Result<(), ErrorCode>,
    second: LzCompose,
    r2: Result<(), ErrorCode>,
    after: LzCompose,
)
    requires
        compose_post(program_id, first, payload, r1, second),
        r1 is Ok,
        compose_post(program_id, second, payload, r2, after),
    ensures
        r2 == Err::<(), ErrorCode>(ErrorCode::NoNewFunds),
        after == second,
{
}

/// The checks that settlement makes before it looks at the user position
/// all pass.
pub open spec fn checks_before_user_position_pass(program_id: Seq<u8>, a: LzCompose, payload: Seq<u8>) -> bool {
    &&& decode_payload_spec(payload) matches Ok((who, market_id, outcome))
    &&& a.market.market_id == market_id
    &&& vault_bound(program_id, market_id, a.vault@)
    &&& a.token_account.mint@ == a.usdc_mint@
    &&& a.token_account.amount > a.market.vault_balance
    &&& outcome < 2
}

/// A settlement whose vault or user-position account is not the derived one
/// fails and changes nothing; the error names the account as soon as the
/// checks made before it pass.
pub proof fn lemma_unbound_accounts_rejected(
    program_id: Seq<u8>,
    pre: LzCompose,
    payload: Seq<u8>,
    r: Result<(), ErrorCode>,
    post: LzCompose,
)
    requires
        compose_post(program_id, pre, payload, r, post),
    ensures
        !vault_bound(program_id, pre.market.market_id, pre.vault@) ==> r is Err && post == pre,
        (decode_payload_spec(payload) matches Ok((who, market_id, outcome)) && market_id
            == pre.market.market_id && !vault_bound(program_id, market_id, pre.vault@)) ==> r == Err::<
            (),
            ErrorCode,
        >(ErrorCode::InvalidVaultAccount),
        (decode_payload_spec(payload) matches Ok((who, market_id, outcome)) && !user_position_bound(
            program_id,
            market_id,
            who,
            pre.user_position_key@,
        )) ==> r is Err && post == pre,
        (decode_payload_spec(payload) matches Ok((who, market_id, outcome)) && checks_before_user_position_pass(
            program_id,
            pre,
            payload,
        ) && !user_position_bound(program_id, market_id, who, pre.user_position_key@)) ==> r == Err::<
            (),
            ErrorCode,
        >(ErrorCode::InvalidUserPosition),
{
}

} // verus!
