//! What holds after any number of calls and blocks, while the runtime around the pallet changes.

use crate::call::Call;
use crate::config::Config;
use crate::laws::markets::{
    accrual_leaves_markets, is_sound, keeps_tokens, law_all_markets_walked, law_markets_at_first,
    law_markets_stay_after_accrual, law_markets_stay_sound, law_tokens_stay_bound,
};
use crate::laws::vouchers::{
    accrual_leaves_vouchers, law_vouchers_add_up, law_vouchers_add_up_after_accrual,
    law_vouchers_add_up_at_first,
};
use crate::pallet::State;
use crate::storage::empty_storage;
use crate::types::{CurrencyId, Origin, Timestamp};
use vstd::prelude::*;

verus! {

/// One thing that happens to a pallet.
pub enum Step<T: Config> {
    /// An origin makes a call.
    Call(Origin, Call<T>),
    /// A block starts at a time.
    Block(Timestamp),
    /// The runtime becomes another: prices move, tokens move elsewhere, origins change.
    Runtime(T),
}

impl<T: Config> State<T> {
    /// The state after a step. A call that fails changes nothing.
    pub open spec fn after_step(self, step: Step<T>) -> State<T> {
        match step {
            Step::Call(origin, call) => match self.after_call(origin, call) {
                Ok(after) => after,
                Err(_) => self,
            },
            Step::Block(now) => self.after_initialize(now),
            Step::Runtime(runtime) => State { runtime, ..self },
        }
    }

    /// The state after some steps.
    pub open spec fn after_steps(self, steps: Seq<Step<T>>) -> State<T>
        decreases steps.len(),
    {
        if steps.len() == 0 {
            self
        } else {
            self.after_steps(steps.drop_last()).after_step(steps.last())
        }
    }

    /// The state before one of some steps.
    pub open spec fn before_step(self, steps: Seq<Step<T>>, i: int) -> State<T> {
        self.after_steps(steps.take(i))
    }
}

/// Whether the accruals of interest in a history leave the deposits and the vouchers in circulation
/// alone.
pub open spec fn accruals_leave_vouchers<T: Config>(new: State<T>, steps: Seq<Step<T>>) -> bool {
    forall|i: int|
        0 <= i < steps.len() ==> (#[trigger] steps[i] matches Step::Block(now)
            ==> accrual_leaves_vouchers(new.before_step(steps, i), now))
}

/// Whether the accruals of interest in a history leave the markets, their order and their voucher
/// tokens alone.
pub open spec fn accruals_leave_markets<T: Config>(new: State<T>, steps: Seq<Step<T>>) -> bool {
    forall|i: int|
        0 <= i < steps.len() ==> (#[trigger] steps[i] matches Step::Block(now)
            ==> accrual_leaves_markets(new.before_step(steps, i), now))
}

/// Whether no replacement of a market in a history, if it succeeds, brings another voucher token.
pub open spec fn replacements_keep_tokens<T: Config>(new: State<T>, steps: Seq<Step<T>>) -> bool {
    forall|i: int|
        0 <= i < steps.len() ==> (#[trigger] steps[i] matches Step::Call(origin, call)
            ==> new.before_step(steps, i).after_call(origin, call) is Ok ==> keeps_tokens(
            new.before_step(steps, i),
            call,
        ))
}

/// Whether the markets that replace others in a history have sound parameters.
pub open spec fn replacements_are_sound<T: Config>(new: State<T>, steps: Seq<Step<T>>) -> bool {
    forall|i: int|
        0 <= i < steps.len() ==> (#[trigger] steps[i] matches Step::Call(origin, call)
            ==> new.before_step(steps, i).after_call(origin, call) is Ok ==> (
        call matches Call::ForceUpdateMarket { asset_id: _, market } ==> is_sound::<T>(market)))
}

/// What is before a step is the same where the history stops earlier.
proof fn lemma_before_step_of_start<T: Config>(new: State<T>, steps: Seq<Step<T>>)
    requires
        steps.len() > 0,
    ensures
        forall|i: int|
            0 <= i < steps.len() - 1 ==> #[trigger] new.before_step(steps.drop_last(), i)
                == new.before_step(steps, i),
        new.before_step(steps, steps.len() - 1) == new.after_steps(steps.drop_last()),
        forall|i: int| 0 <= i < steps.len() - 1 ==> #[trigger] steps.drop_last()[i] == steps[i],
        steps[steps.len() - 1] == steps.last(),
{
    assert forall|i: int| 0 <= i < steps.len() - 1 implies #[trigger] new.before_step(
        steps.drop_last(),
        i,
    ) == new.before_step(steps, i) by {
        assert(steps.drop_last().take(i) =~= steps.take(i));
    }
    assert(steps.take(steps.len() - 1) =~= steps.drop_last());
}

/// Whatever has happened to a new pallet, all its markets are walked, each once, provided that the
/// accrual of interest leaves markets alone.
pub proof fn law_every_history_walks_all_markets<T: Config>(new: State<T>, steps: Seq<Step<T>>)
    requires
        new.storage == empty_storage::<T::RateModel>(),
        accruals_leave_markets(new, steps),
    ensures
        new.after_steps(steps).storage.walks_all_markets(),
    decreases steps.len(),
{
    if steps.len() == 0 {
        law_markets_at_first::<T::RateModel>();
    } else {
        let start = steps.drop_last();
        let before = new.after_steps(start);
        lemma_before_step_of_start(new, steps);
        assert forall|i: int| 0 <= i < start.len() implies (#[trigger] start[i] matches Step::Block(
            now,
        ) ==> accrual_leaves_markets(new.before_step(start, i), now)) by {
            assert(start[i] == steps[i]);
        }
        law_every_history_walks_all_markets(new, start);
        match steps[steps.len() - 1] {
            Step::Call(origin, call) => {
                if before.after_call(origin, call) is Ok {
                    law_all_markets_walked(before, origin, call);
                }
            },
            Step::Block(now) => {
                law_markets_stay_after_accrual(before, now);
                let after = before.after_initialize(now);
                assert forall|asset_id: CurrencyId| #[trigger]
                    after.storage.markets.contains_key(
                        asset_id,
                    ) <==> after.storage.market_order.contains(asset_id) by {
                    assert(before.storage.markets.contains_key(asset_id)
                        <==> before.storage.market_order.contains(asset_id));
                }
            },
            Step::Runtime(_) => {},
        }
    }
}

/// Whatever has happened to a new pallet, the vouchers in circulation are those that the accounts
/// hold, provided that the accrual of interest leaves both alone.
pub proof fn law_every_history_keeps_vouchers_adding_up<T: Config>(
    new: State<T>,
    steps: Seq<Step<T>>,
)
    requires
        new.storage == empty_storage::<T::RateModel>(),
        accruals_leave_vouchers(new, steps),
    ensures
        new.after_steps(steps).storage.vouchers_add_up(),
    decreases steps.len(),
{
    if steps.len() == 0 {
        law_vouchers_add_up_at_first::<T::RateModel>();
    } else {
        let start = steps.drop_last();
        let before = new.after_steps(start);
        lemma_before_step_of_start(new, steps);
        assert forall|i: int| 0 <= i < start.len() implies (#[trigger] start[i] matches Step::Block(
            now,
        ) ==> accrual_leaves_vouchers(new.before_step(start, i), now)) by {
            assert(start[i] == steps[i]);
        }
        law_every_history_keeps_vouchers_adding_up(new, start);
        match steps[steps.len() - 1] {
            Step::Call(origin, call) => {
                if before.after_call(origin, call) is Ok {
                    law_vouchers_add_up(before, origin, call);
                }
            },
            Step::Block(now) => {
                law_vouchers_add_up_after_accrual(before, now);
            },
            Step::Runtime(_) => {},
        }
    }
}

/// Whatever has happened to a new pallet, assets and voucher tokens are bound, one to one, provided
/// that the accrual of interest leaves markets alone and that no market is replaced by one with
/// another voucher token.
pub proof fn law_every_history_keeps_tokens_bound<T: Config>(new: State<T>, steps: Seq<Step<T>>)
    requires
        new.storage == empty_storage::<T::RateModel>(),
        accruals_leave_markets(new, steps),
        replacements_keep_tokens(new, steps),
    ensures
        new.after_steps(steps).storage.tokens_bound(),
    decreases steps.len(),
{
    if steps.len() == 0 {
        law_markets_at_first::<T::RateModel>();
    } else {
        let start = steps.drop_last();
        let before = new.after_steps(start);
        lemma_before_step_of_start(new, steps);
        assert forall|i: int| 0 <= i < start.len() implies (#[trigger] start[i] matches Step::Block(
            now,
        ) ==> accrual_leaves_markets(new.before_step(start, i), now)) && (
        start[i] matches Step::Call(origin, call) ==> new.before_step(start, i).after_call(
            origin,
            call,
        ) is Ok ==> keeps_tokens(new.before_step(start, i), call)) by {
            assert(start[i] == steps[i]);
        }
        law_every_history_keeps_tokens_bound(new, start);
        match steps[steps.len() - 1] {
            Step::Call(origin, call) => {
                if before.after_call(origin, call) is Ok {
                    law_tokens_stay_bound(before, origin, call);
                }
            },
            Step::Block(now) => {
                law_markets_stay_after_accrual(before, now);
            },
            Step::Runtime(_) => {},
        }
    }
}

/// Whatever has happened to a new pallet, every market has sound parameters, provided that the
/// accrual of interest leaves markets alone and that what replaces a market has them.
pub proof fn law_every_history_keeps_markets_sound<T: Config>(new: State<T>, steps: Seq<Step<T>>)
    requires
        new.storage == empty_storage::<T::RateModel>(),
        accruals_leave_markets(new, steps),
        replacements_are_sound(new, steps),
    ensures
        forall|id: CurrencyId| #[trigger]
            new.after_steps(steps).storage.markets.contains_key(id) ==> is_sound::<T>(
                new.after_steps(steps).storage.markets[id],
            ),
    decreases steps.len(),
{
    if steps.len() > 0 {
        let start = steps.drop_last();
        let before = new.after_steps(start);
        lemma_before_step_of_start(new, steps);
        assert forall|i: int| 0 <= i < start.len() implies (#[trigger] start[i] matches Step::Block(
            now,
        ) ==> accrual_leaves_markets(new.before_step(start, i), now)) && (
        start[i] matches Step::Call(origin, call) ==> new.before_step(start, i).after_call(
            origin,
            call,
        ) is Ok ==> (call matches Call::ForceUpdateMarket { asset_id: _, market } ==> is_sound::<T>(
            market,
        ))) by {
            assert(start[i] == steps[i]);
        }
        law_every_history_keeps_markets_sound(new, start);
        match steps[steps.len() - 1] {
            Step::Call(origin, call) => {
                if before.after_call(origin, call) is Ok {
                    law_markets_stay_sound(before, origin, call);
                }
            },
            Step::Block(now) => {
                law_markets_stay_after_accrual(before, now);
            },
            Step::Runtime(_) => {},
        }
    }
}

}
