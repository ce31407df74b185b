//! Interest: when it accrues, and what suppliers have earned.

use crate::config::Config;
use crate::fixed::{scaled, DIV};
use crate::pallet::State;
use crate::types::{AccountId, CurrencyId, DispatchError, EarnedSnapshot, Timestamp};
use vstd::prelude::*;

verus! {

/// The very first block notes its time.
pub proof fn law_first_block_notes_its_time<T: Config>(before: State<T>, now: Timestamp)
    requires
        before.storage.last_accrued_timestamp == 0,
    ensures
        before.after_initialize(now).storage.last_accrued_timestamp == now,
{
}

/// The time of the last accrual never goes back.
pub proof fn law_time_moves_on<T: Config>(before: State<T>, now: Timestamp)
    ensures
        before.storage.last_accrued_timestamp <= before.after_initialize(
            now,
        ).storage.last_accrued_timestamp,
{
}

/// A block in which interest is not due, or cannot be calculated, changes nothing, once the first
/// block has noted its time.
pub proof fn law_block_without_accrual<T: Config>(before: State<T>, now: Timestamp)
    requires
        before.storage.last_accrued_timestamp != 0,
        !before.accrual_due(now) || before.accrual(now) is Err,
    ensures
        before.after_initialize(now) == before,
        before.initialize_weight(now) == 0,
{
}

/// Interest that a block could not accrue is not lost: a later block accrues for the whole time
/// since the last accrual, as if the earlier block had not been, provided that the time is not too
/// long by then.
pub proof fn law_interest_is_made_up<T: Config>(
    before: State<T>,
    now: Timestamp,
    later: Timestamp,
)
    requires
        before.storage.last_accrued_timestamp != 0,
        !before.accrual_due(now) || before.accrual(now) is Err,
        before.accrual_due(later),
    ensures
        before.after_initialize(now).accrual(later) == before.runtime.accrued(
            before.storage,
            (later - before.storage.last_accrued_timestamp) as u64,
        ),
        before.after_initialize(now).after_initialize(later) == before.after_initialize(later),
{
}

/// Interest accrues once for a time: a second block of the same time changes nothing.
pub proof fn law_interest_accrues_once<T: Config>(before: State<T>, now: Timestamp)
    requires
        before.accrual_due(now),
        before.accrual(now) is Ok,
    ensures
        before.after_initialize(now).after_initialize(now) == before.after_initialize(now),
{
}

/// The earnings of an account never shrink when its vouchers change, and they are then those at the
/// present exchange rate.
pub proof fn law_earnings_grow<T: Config>(state: State<T>, who: AccountId, asset_id: CurrencyId)
    requires
        state.earned_by_now(who, asset_id) is Ok,
    ensures
        state.earned_by_now(who, asset_id)->Ok_0.exchange_rate_prior == state.storage.rate(
            asset_id,
        ),
        state.earned_by_now(who, asset_id)->Ok_0.total_earned_prior >= state.storage.earned(
            asset_id,
            who,
        ).total_earned_prior,
{
}

/// Earnings that are stored are counted once: at the same exchange rate there are no others.
pub proof fn law_earnings_are_counted_once<T: Config>(
    state: State<T>,
    who: AccountId,
    asset_id: CurrencyId,
)
    requires
        state.storage.earned(asset_id, who).exchange_rate_prior == state.storage.rate(asset_id),
    ensures
        state.earned_by_now(who, asset_id) == Ok::<EarnedSnapshot, DispatchError>(
            state.storage.earned(asset_id, who),
        ),
{
    let vouchers = state.storage.deposits(asset_id, who).voucher_balance as int;
    assert(0 * vouchers == 0);
    assert(scaled(0, vouchers, DIV as int) == 0);
}

}
