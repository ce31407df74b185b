//! What happens at the start of a block: interest accrues.

use crate::config::Config;
use crate::pallet::{Pallet, State};
use crate::storage::StorageView;
use crate::types::{CurrencyId, DispatchError, Timestamp, Weight};
use vstd::prelude::*;

verus! {

/// The longest time, in seconds, for which interest accrues at once: five days.
pub const MAX_INTEREST_CALCULATING_INTERVAL: u64 = 5 * 24 * 3600;

/// The shortest time, in seconds, for which interest accrues.
pub const MIN_INTEREST_CALCULATING_INTERVAL: u64 = 100;

impl<T: Config> State<T> {
    /// The state with another time of the last accrual.
    pub open spec fn stamped(self, now: Timestamp) -> State<T> {
        State {
            storage: StorageView { last_accrued_timestamp: now, ..self.storage },
            ..self
        }
    }

    /// The state in which interest accrues: the very first block notes its time first.
    pub open spec fn started(self, now: Timestamp) -> State<T> {
        if self.storage.last_accrued_timestamp == 0 {
            self.stamped(now)
        } else {
            self
        }
    }

    /// Whether interest is due: the time since the last accrual is neither too short nor too long.
    pub open spec fn accrual_due(self, now: Timestamp) -> bool {
        MIN_INTEREST_CALCULATING_INTERVAL <= now - self.storage.last_accrued_timestamp
            <= MAX_INTEREST_CALCULATING_INTERVAL
    }

    /// The storage after the accrual of interest for the time since the last one.
    pub open spec fn accrual(self, now: Timestamp) -> Result<
        StorageView<T::RateModel>,
        DispatchError,
    > {
        self.runtime.accrued(
            self.started(now).storage,
            (now - self.storage.last_accrued_timestamp) as u64,
        )
    }

    /// The state after the start of a block. Where interest is not due, or cannot be calculated,
    /// the time of the last accrual stays, so that the next accrual makes up for it.
    pub open spec fn after_initialize(self, now: Timestamp) -> State<T> {
        if self.accrual_due(now) && self.accrual(now) is Ok {
            State { storage: self.accrual(now)->Ok_0, ..self }.stamped(now)
        } else {
            self.started(now)
        }
    }

    /// The weight of the start of a block: that of one accrual for each active market.
    pub open spec fn initialize_weight(self, now: Timestamp) -> int {
        if self.accrual_due(now) && self.accrual(now) is Ok {
            T::accrual_weight() * self.accrual(now)->Ok_0.active_ids().len()
        } else {
            0
        }
    }
}

impl<T: Config> Pallet<T> {
    /// Called on block initialization. When an error occurs, stop counting interest. When the error
    /// is resolved, the interest will be restored, because the time since the last accrual is used
    /// to calculate the interest.
    ///
    /// - `now`: the time of the block in seconds.
    pub fn on_initialize(&mut self, now: Timestamp) -> (weight: Weight)
        requires
            old(self)@.initialize_weight(now) <= u64::MAX,
        ensures
            final(self)@ == old(self)@.after_initialize(now),
            weight == old(self)@.initialize_weight(now),
    {
        match self.try_on_initialize(now) {
            Some(weight) => weight,
            // The weight fits.
            None => 0,
        }
    }

    /// Same as `on_initialize`, but does nothing where the weight would be too great to be told.
    ///
    /// - `now`: the time of the block in seconds.
    pub fn try_on_initialize(&mut self, now: Timestamp) -> (weight: Option<Weight>)
        ensures
            match weight {
                Some(weight) => final(self)@ == old(self)@.after_initialize(now) && weight
                    == old(self)@.initialize_weight(now),
                None => *final(self) == *old(self) && old(self)@.initialize_weight(now) > u64::MAX,
            },
    {
        let last: Timestamp = self.last_accrued_timestamp();
        // For the initialization
        if last == 0 {
            self.storage.last_accrued_timestamp = now;
        }
        assert(self@ =~= old(self)@.started(now));
        if now <= last {
            return Some(0);
        }
        let delta_time: Timestamp = now - last;
        if delta_time > MAX_INTEREST_CALCULATING_INTERVAL {
            return Some(0);
        }
        if delta_time < MIN_INTEREST_CALCULATING_INTERVAL {
            return Some(0);
        }
        let mut accrued = self.storage.copied();
        match self.runtime.accrue_interest(&mut accrued, delta_time) {
            Ok(_) => {
                accrued.last_accrued_timestamp = now;
                std::mem::swap(&mut self.storage, &mut accrued);
                assert(self@ =~= old(self)@.after_initialize(now));
                proof {
                    old(self)@.lemma_stamp_keeps_active(now);
                }
                let count: usize = self.active_markets().len();
                match T::accrue_interest_weight().checked_mul(count as u64) {
                    Some(weight) => Some(weight),
                    None => {
                        std::mem::swap(&mut self.storage, &mut accrued);
                        self.storage.last_accrued_timestamp = last;
                        None
                    },
                }
            },
            Err(_) => Some(0),
        }
    }
}

impl<T: Config> State<T> {
    /// The time of the last accrual does not matter to which markets are active.
    proof fn lemma_stamp_keeps_active(self, now: Timestamp)
        requires
            self.accrual(now) is Ok,
        ensures
            ({
                let storage = self.accrual(now)->Ok_0;
                (StorageView { last_accrued_timestamp: now, ..storage }).active_ids()
                    == storage.active_ids()
            }),
    {
        let storage = self.accrual(now)->Ok_0;
        let stamped = StorageView { last_accrued_timestamp: now, ..storage };
        assert((|asset_id: CurrencyId| stamped.is_active(asset_id)) =~= (|
            asset_id: CurrencyId,
        | storage.is_active(asset_id)));
    }
}

}
