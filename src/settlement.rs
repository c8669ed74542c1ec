//! Market creation and the settlement of a bridged deposit.
use crate::address::{
    find_user_position_address, find_vault_address, program_address, same_address,
    user_position_seeds, vault_seeds,
};
use crate::error::ErrorCode;
use crate::ledger::{InitializeMarket, LzCompose, MarketAccount, UserPosition};
use crate::payload::{decode_abi_payload, decode_payload_spec};
use vstd::prelude::*;

verus! {

/// `vault` is the address derived for market `market_id`.
pub open spec fn vault_bound(program_id: Seq<u8>, market_id: u64, vault: Seq<u8>) -> bool {
    match program_address(vault_seeds(market_id), program_id) {
        Some((key, _)) => key == vault,
        None => false,
    }
}

/// `key` is the address derived for the position of `beneficiary` in market `market_id`.
pub open spec fn user_position_bound(
    program_id: Seq<u8>,
    market_id: u64,
    beneficiary: Seq<u8>,
    key: Seq<u8>,
) -> bool {
    match program_address(user_position_seeds(market_id, beneficiary), program_id) {
        Some((key_derived, _)) => key_derived == key,
        None => false,
    }
}

/// `a + b`, capped at `u64::MAX`.
pub open spec fn saturating_add_u64(a: u64, b: u64) -> u64 {
    if a + b > u64::MAX {
        u64::MAX
    } else {
        (a + b) as u64
    }
}

/// The first check that settlement fails, in the order in which they are
/// made, or `None` when every check passes.
pub open spec fn settle_error(program_id: Seq<u8>, a: LzCompose, payload: Seq<u8>) -> Option<ErrorCode> {
    match decode_payload_spec(payload) {
        Err(_) => Some(ErrorCode::PayloadDecodeFailed),
        Ok((who, market_id, outcome)) => {
            let current = a.token_account.amount;
            let prev = a.market.vault_balance;
            if a.market.market_id != market_id {
                Some(ErrorCode::MarketMismatch)
            } else if !vault_bound(program_id, market_id, a.vault@) {
                Some(ErrorCode::InvalidVaultAccount)
            } else if a.token_account.mint@ != a.usdc_mint@ {
                Some(ErrorCode::InvalidMint)
            } else if current < prev {
                Some(ErrorCode::InvalidVaultBalance)
            } else if current == prev {
                Some(ErrorCode::NoNewFunds)
            } else if outcome >= 2 {
                Some(ErrorCode::InvalidOutcome)
            } else if !user_position_bound(program_id, market_id, who, a.user_position_key@) {
                Some(ErrorCode::InvalidUserPosition)
            } else if a.user_position is None {
                Some(ErrorCode::InvalidUserPosition)
            } else if a.market.outcomes[outcome as int] + (current - prev) > u128::MAX {
                Some(ErrorCode::MathError)
            } else {
                None
            }
        },
    }
}

/// `post` is `pre` with `delta` added to outcome `outcome` and to the
/// accounted vault balance, and nothing else changed.
pub open spec fn market_step(pre: MarketAccount, post: MarketAccount, outcome: int, delta: int) -> bool {
    &&& 0 <= outcome < 2
    &&& delta > 0
    &&& post.market_id == pre.market_id
    &&& post.vault == pre.vault
    &&& post.vault_bump == pre.vault_bump
    &&& post.vault_balance == pre.vault_balance + delta
    &&& post.outcomes[outcome] == pre.outcomes[outcome] + delta
    &&& post.outcomes[1 - outcome] == pre.outcomes[1 - outcome]
}

/// `post` is the state after a successful settlement of `payload` on `pre`:
/// the new funds are credited to the market and to the beneficiary, and the
/// market records the current custodial balance.
pub open spec fn settled(program_id: Seq<u8>, pre: LzCompose, payload: Seq<u8>, post: LzCompose) -> bool {
    match decode_payload_spec(payload) {
        Err(_) => false,
        Ok((who, market_id, outcome)) => {
            let delta = pre.token_account.amount - pre.market.vault_balance;
            &&& market_step(pre.market, post.market, outcome as int, delta)
            &&& post.vault == pre.vault
            &&& post.token_account == pre.token_account
            &&& post.usdc_mint == pre.usdc_mint
            &&& post.user_position_key == pre.user_position_key
            &&& match (pre.user_position, post.user_position) {
                (Some(old_pos), Some(new_pos)) => {
                    &&& new_pos.market_id == market_id
                    &&& new_pos.user_evm@ == who
                    &&& new_pos.amount == saturating_add_u64(old_pos.amount, delta as u64)
                    &&& new_pos.outcome == outcome
                },
                _ => false,
            }
        },
    }
}

/// The whole contract of settlement: its result is the first failed check,
/// a failure changes nothing, and a success is a `settled` step.
pub open spec fn compose_post(
    program_id: Seq<u8>,
    pre: LzCompose,
    payload: Seq<u8>,
    r: Result<(), ErrorCode>,
    post: LzCompose,
) -> bool {
    &&& match settle_error(program_id, pre, payload) {
        Some(e) => r == Err::<(), ErrorCode>(e) && post == pre,
        None => r is Ok && settled(program_id, pre, payload, post),
    }
}

/// Create a market bound to the vault derived for `market_id`; the vault
/// address that the caller proposes must be that one.
pub fn initialize_market(program_id: &[u8; 32], accounts: &InitializeMarket, market_id: u64) -> (r:
    Result<MarketAccount, ErrorCode>)
    ensures
        match r {
            Ok(m) => {
                &&& vault_bound(program_id@, market_id, accounts.vault@)
                &&& program_address(vault_seeds(market_id), program_id@) == Some((m.vault@, m.vault_bump))
                &&& m.market_id == market_id
                &&& m.outcomes[0] == 0 && m.outcomes[1] == 0
                &&& m.vault == accounts.vault
                &&& m.vault_balance == 0
            },
            Err(e) => e == ErrorCode::InvalidVaultAccount && !vault_bound(program_id@, market_id, accounts.vault@),
        },
{
    match find_vault_address(program_id, market_id) {
        Some((expected_vault, bump)) => {
            if !same_address(&accounts.vault, &expected_vault) {
                return Err(ErrorCode::InvalidVaultAccount);
            }
            Ok(MarketAccount {
                market_id,
                outcomes: [0u128, 0u128],
                vault: expected_vault,
                vault_bump: bump,
                vault_balance: 0,
            })
        },
        None => Err(ErrorCode::InvalidVaultAccount),
    }
}

/// Settle a bridged deposit. The amount is never read from the message: it
/// is the growth of the vault's custodial balance since the last settlement.
/// Every account is checked against its derived address before anything is
/// written; the market total is added with overflow detection, the
/// beneficiary's total with saturation.
pub fn lz_compose(program_id: &[u8; 32], accounts: &mut LzCompose, payload: Vec<u8>) -> (r: Result<(), ErrorCode>)
    ensures
        compose_post(program_id@, *old(accounts), payload@, r, *final(accounts)),
{
    let (user_evm, market_id, outcome) = match decode_abi_payload(payload.as_slice()) {
        Ok(decoded) => decoded,
        Err(_) => return Err(ErrorCode::PayloadDecodeFailed),
    };
    if accounts.market.market_id != market_id {
        return Err(ErrorCode::MarketMismatch);
    }
    match find_vault_address(program_id, market_id) {
        Some((expected_vault, _)) => {
            if !same_address(&accounts.vault, &expected_vault) {
                return Err(ErrorCode::InvalidVaultAccount);
            }
        },
        None => return Err(ErrorCode::InvalidVaultAccount),
    }
    if !same_address(&accounts.token_account.mint, &accounts.usdc_mint) {
        return Err(ErrorCode::InvalidMint);
    }

    let current_balance = accounts.token_account.amount;
    let prev_balance = accounts.market.vault_balance;
    if current_balance < prev_balance {
        return Err(ErrorCode::InvalidVaultBalance);
    }
    let delta = match current_balance.checked_sub(prev_balance) {
        Some(d) => d,
        None => return Err(ErrorCode::MathError),
    };
    if delta == 0 {
        return Err(ErrorCode::NoNewFunds);
    }

    if outcome >= 2 {
        return Err(ErrorCode::InvalidOutcome);
    }
    let idx = outcome as usize;

    match find_user_position_address(program_id, market_id, &user_evm) {
        Some((expected_userpos, _)) => {
            if !same_address(&accounts.user_position_key, &expected_userpos) {
                return Err(ErrorCode::InvalidUserPosition);
            }
        },
        None => return Err(ErrorCode::InvalidUserPosition),
    }
    let position = match accounts.user_position {
        Some(p) => p,
        None => return Err(ErrorCode::InvalidUserPosition),
    };

    let new_total = match accounts.market.outcomes[idx].checked_add(delta as u128) {
        Some(t) => t,
        None => return Err(ErrorCode::MathError),
    };

    accounts.market.outcomes[idx] = new_total;
    accounts.user_position = Some(
        UserPosition {
            market_id,
            user_evm,
            amount: position.amount.saturating_add(delta),
            outcome,
        },
    );
    accounts.market.vault_balance = current_balance;
    Ok(())
}

} // verus!
