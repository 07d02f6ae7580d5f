//! Laws of the vault's accounting, stated over the same specification
//! functions that the operations' contracts use.
use vstd::prelude::*;

use crate::claim::{spec_claim_principal, spec_claim_yield};
use crate::deposit::{spec_deposit_amount, spec_deposit_error, spec_deposit_outcome,
    spec_minted_share, spec_withdraw};
use crate::error::VaultError;
use crate::math::{lemma_mul_dec_ratio_le, lemma_mul_dec_ratio_nonneg};
use crate::share::{lemma_balance_by_share_le_net, spec_balance_by_share};
use crate::state::{Coin, Config, DepositInfo, State};

verus! {

/// Sum of the share fields over a ledger of deposit records.
pub open spec fn sum_of_shares(infos: Seq<DepositInfo>) -> int
    decreases infos.len(),
{
    if infos.len() == 0 {
        0
    } else {
        infos[0].share + sum_of_shares(infos.skip(1))
    }
}

proof fn lemma_sum_of_shares_update(infos: Seq<DepositInfo>, i: int, v: DepositInfo)
    requires
        0 <= i < infos.len(),
    ensures
        sum_of_shares(infos.update(i, v)) == sum_of_shares(infos) - infos[i].share + v.share,
    decreases infos.len(),
{
    if i == 0 {
        assert(infos.update(0, v)[0] == v);
        assert(infos.update(0, v).skip(1) =~= infos.skip(1));
    } else {
        assert(infos.update(i, v)[0] == infos[0]);
        assert(infos.update(i, v).skip(1) =~= infos.skip(1).update(i - 1, v));
        lemma_sum_of_shares_update(infos.skip(1), i - 1, v);
    }
}

/// The share total equals the sum of all depositors' shares, and a
/// deposit by an address holding no share keeps it so: the minted share
/// lands both in the depositor's record and in the total.  (A repeat
/// deposit by an address still holding a share overwrites that share
/// instead of adding to it, and does not keep this sum.)
pub proof fn law_deposit_preserves_share_sum(
    config: Config,
    state: State,
    infos: Seq<DepositInfo>,
    i: int,
    now: int,
    funds: Seq<Coin>,
    total_balance: int,
)
    requires
        0 <= i < infos.len(),
        infos[i].share == 0,
        state.total_share == sum_of_shares(infos),
        spec_deposit_error(config, state, now, funds, total_balance) is None,
        state.total_share + spec_minted_share(
            state,
            spec_deposit_amount(funds, config.stable_denom@),
            total_balance - spec_deposit_amount(funds, config.stable_denom@),
        ) <= u128::MAX,
    ensures
        ({
            let out = spec_deposit_outcome(config, state, infos[i], now, funds, total_balance);
            out.state.total_share == sum_of_shares(infos.update(i, out.deposit_info))
        }),
{
    let amount = spec_deposit_amount(funds, config.stable_denom@);
    crate::deposit::lemma_deposit_amount_nonneg(funds, config.stable_denom@);
    let before = total_balance - amount;
    let minted = spec_minted_share(state, amount, before);
    if !(state.total_share == 0 || before <= state.total_subsidized) {
        lemma_mul_dec_ratio_nonneg(
            state.total_share as int,
            amount,
            before - state.total_subsidized,
        );
    }
    let out = spec_deposit_outcome(config, state, infos[i], now, funds, total_balance);
    lemma_sum_of_shares_update(infos, i, out.deposit_info);
}

/// The share total equals the sum of all depositors' shares, and a
/// successful yield claim keeps it so: either the claimed share leaves
/// both the claimant's record and the total, or (for a fully-withdrawn
/// position) neither moves and the payout is drawn from the subsidized
/// pool.
pub proof fn law_claim_yield_preserves_share_sum(
    state: State,
    infos: Seq<DepositInfo>,
    i: int,
    now: int,
    total_balance: int,
    vault_balance: int,
)
    requires
        0 <= i < infos.len(),
        state.total_share == sum_of_shares(infos),
        spec_claim_yield(state, infos[i], now, total_balance, vault_balance) is Ok,
    ensures
        ({
            let out = spec_claim_yield(state, infos[i], now, total_balance, vault_balance)->Ok_0;
            out.state.total_share == sum_of_shares(infos.update(i, out.deposit_info))
        }),
{
    let info = infos[i];
    let out = spec_claim_yield(state, info, now, total_balance, vault_balance)->Ok_0;
    if info.principal_claimed < info.principal {
        let amount = spec_balance_by_share(
            state.total_share as int,
            state.total_subsidized as int,
            total_balance,
            info.share as int,
        );
        let claimable = amount - info.principal;
        let net = total_balance - state.total_subsidized;
        lemma_balance_by_share_le_net(
            state.total_share as int,
            state.total_subsidized as int,
            total_balance,
            info.share as int,
        );
        lemma_mul_dec_ratio_le(state.total_share as int, claimable, net);
    }
    lemma_sum_of_shares_update(infos, i, out.deposit_info);
}

/// The share total equals the sum of all depositors' shares, and a
/// successful principal claim keeps it so: the claimed share leaves
/// both the claimant's record and the total.
pub proof fn law_claim_principal_preserves_share_sum(
    state: State,
    infos: Seq<DepositInfo>,
    i: int,
    now: int,
    total_balance: int,
    vault_balance: int,
)
    requires
        0 <= i < infos.len(),
        state.total_share == sum_of_shares(infos),
        spec_claim_principal(state, infos[i], now, total_balance, vault_balance) is Ok,
    ensures
        ({
            let out = spec_claim_principal(
                state,
                infos[i],
                now,
                total_balance,
                vault_balance,
            )->Ok_0;
            out.state.total_share == sum_of_shares(infos.update(i, out.deposit_info))
        }),
{
    let info = infos[i];
    let out = spec_claim_principal(state, info, now, total_balance, vault_balance)->Ok_0;
    let amount = spec_balance_by_share(
        state.total_share as int,
        state.total_subsidized as int,
        total_balance,
        info.share as int,
    );
    let net = total_balance - state.total_subsidized;
    lemma_balance_by_share_le_net(
        state.total_share as int,
        state.total_subsidized as int,
        total_balance,
        info.share as int,
    );
    lemma_mul_dec_ratio_le(state.total_share as int, info.principal as int, net);
    lemma_sum_of_shares_update(infos, i, out.deposit_info);
}

/// The last, full claimant gets the exact remainder: a share equal to
/// the whole share total of a non-degenerate pool is worth the entire
/// net pool, and no dust is lost.  (An empty pool, with no share
/// outstanding, is worth nothing instead.)
pub proof fn law_full_share_takes_pool(
    total_share: int,
    total_subsidized: int,
    total_balance: int,
)
    requires
        0 < total_share,
        0 <= total_subsidized <= total_balance,
    ensures
        spec_balance_by_share(total_share, total_subsidized, total_balance, total_share)
            == total_balance - total_subsidized,
{
}

/// Depositing `x` into a pool with no prior share and then reading the
/// record back yields `principal == x` and `share == x`, with the lock
/// set `lock_period` past the deposit.
pub proof fn law_first_deposit_round_trip(config: Config, now: int, x: u128, total_balance: int)
    requires
        0 <= now,
        config.lock_period + now <= u64::MAX,
        x > 0,
        x <= total_balance,
    ensures
        ({
            let state = State { total_share: 0, total_subsidized: 0 };
            let funds = seq![Coin { denom: config.stable_denom, amount: x }];
            let out = spec_deposit_outcome(
                config,
                state,
                DepositInfo::spec_absent(),
                now,
                funds,
                total_balance,
            );
            &&& spec_deposit_error(config, state, now, funds, total_balance) is None
            &&& out.deposit_info.principal == x
            &&& out.deposit_info.share == x
            &&& out.deposit_info.current_amount == x
            &&& out.state.total_share == x
            &&& out.state.total_subsidized == 0
            &&& out.deposit_info.maturity == config.lock_period + now
        }),
{
    let state = State { total_share: 0, total_subsidized: 0 };
    let funds = seq![Coin { denom: config.stable_denom, amount: x }];
    assert(spec_deposit_amount(funds, config.stable_denom@) == x);
}

/// A second yield claim right after a first one, with no balance change
/// in between, finds nothing new to claim.  Stated for a position whose
/// principal is fully claimed, so that yield is drawn from the
/// subsidized pool; a still-share-backed position is refreshed against
/// its shrunken share instead and its second claim is refused as a
/// loss-or-nothing-new.
pub proof fn law_claim_yield_idempotent(
    state: State,
    info: DepositInfo,
    now: int,
    total_balance: int,
    vault_balance: int,
)
    requires
        info.principal_claimed == info.principal,
        info.yield_claimed + info.yield_amount <= u128::MAX,
        spec_claim_yield(state, info, now, total_balance, vault_balance) is Ok,
    ensures
        ({
            let out = spec_claim_yield(state, info, now, total_balance, vault_balance)->Ok_0;
            spec_claim_yield(out.state, out.deposit_info, now, total_balance, vault_balance)
                == Err::<crate::claim::ClaimOutcome, VaultError>(VaultError::NothingToClaim)
        }),
{
}

/// A second yield claim right after a first one on a still-share-backed
/// position, with no balance change in between, is refused as well: the
/// position is refreshed against its shrunken share, whose value can
/// show no yield beyond what was just claimed, so the claim fails the
/// loss-or-nothing-new check.
pub proof fn law_claim_yield_share_backed_second_claim_fails(
    state: State,
    info: DepositInfo,
    now: int,
    total_balance: int,
    vault_balance: int,
)
    requires
        info.principal_claimed < info.principal,
        crate::claim::claim_yield_fits(state, info, now, total_balance, vault_balance),
        spec_claim_yield(state, info, now, total_balance, vault_balance) is Ok,
    ensures
        ({
            let out = spec_claim_yield(state, info, now, total_balance, vault_balance)->Ok_0;
            spec_claim_yield(out.state, out.deposit_info, now, total_balance, vault_balance)
                == Err::<crate::claim::ClaimOutcome, VaultError>(VaultError::Loss)
        }),
{
    let ts = state.total_share as int;
    let tsub = state.total_subsidized as int;
    let s = info.share as int;
    let p = info.principal as int;
    let a = spec_balance_by_share(ts, tsub, total_balance, s);
    let claimable = a - p;
    let net = total_balance - tsub;
    lemma_balance_by_share_le_net(ts, tsub, total_balance, s);
    lemma_mul_dec_ratio_nonneg(ts, claimable, net);
    lemma_mul_dec_ratio_le(ts, claimable, net);
    let cs = crate::math::mul_dec_ratio(ts, claimable, net);
    let out = spec_claim_yield(state, info, now, total_balance, vault_balance)->Ok_0;
    let ts2 = out.state.total_share as int;
    let s2 = out.deposit_info.share as int;
    let a2 = spec_balance_by_share(ts2, tsub, total_balance, s2);
    if ts2 == 0 {
        assert(a2 == 0);
    } else if s2 >= ts2 {
        assert(a == net);
        assert(a2 == net);
    } else {
        crate::math::lemma_dec_ratio_shrink(s, ts, cs);
        crate::math::lemma_mul_dec_monotone(
            net,
            crate::math::dec_ratio(s - cs, ts - cs),
            crate::math::dec_ratio(s, ts),
        );
        assert(a2 <= a);
    }
}

/// A withdrawal before maturity is refused as still locked, and exactly
/// at maturity the lock no longer stands in the way.
pub proof fn law_withdraw_lock_boundary(
    config: Config,
    state: State,
    info: DepositInfo,
    now: int,
    withdraw_amount: int,
    force_withdraw: bool,
    total_balance: int,
    vault_balance: int,
)
    ensures
        now < info.maturity <==> spec_withdraw(
            config,
            state,
            info,
            now,
            withdraw_amount,
            force_withdraw,
            total_balance,
            vault_balance,
        ) == Err::<crate::deposit::WithdrawOutcome, VaultError>(VaultError::StillLocked),
{
}

} // verus!
