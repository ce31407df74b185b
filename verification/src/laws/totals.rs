//! Totals over the active markets, in whatever order these are walked.

use crate::config::Config;
use crate::fixed::FixedU128;
use crate::laws::sums::{lemma_sum_of_equals, lemma_sum_without, sum_over};
use crate::pallet::State;
use crate::storage::StorageView;
use crate::types::{overflow, AccountId, CurrencyId, DispatchError};
use crate::valuation::checked_total;
use vstd::prelude::*;

verus! {

/// What is left of a sequence without repetition has none either.
proof fn lemma_filter_of_distinct<A>(elements: Seq<A>, kept: spec_fn(A) -> bool)
    requires
        elements.no_duplicates(),
    ensures
        elements.filter(kept).no_duplicates(),
        forall|element: A| #[trigger]
            elements.filter(kept).contains(element) <==> elements.contains(element) && kept(
                element,
            ),
    decreases elements.len(),
{
    reveal(Seq::filter);
    if elements.len() > 0 {
        let rest = elements.drop_last();
        let last = elements.last();
        lemma_filter_of_distinct(rest, kept);
        let filtered = rest.filter(kept);
        assert(elements =~= rest.push(last));
        assert(!rest.contains(last)) by {
            if rest.contains(last) {
                let i = rest.index_of(last);
                assert(elements[i] == elements[elements.len() - 1]);
            }
        }
        assert(!filtered.contains(last));
        assert forall|element: A| #[trigger] elements.filter(kept).contains(element) <==> (
        elements.contains(element) && kept(element)) by {
            assert(filtered.contains(element) <==> rest.contains(element) && kept(element));
            lemma_contains_of_push(rest, last, element);
            lemma_contains_of_push(filtered, last, element);
        }
    }
}

/// A longer sequence holds what it held, and what was pushed.
proof fn lemma_contains_of_push<A>(elements: Seq<A>, last: A, element: A)
    ensures
        elements.push(last).contains(element) <==> elements.contains(element) || element == last,
{
    let longer = elements.push(last);
    assert(longer[elements.len() as int] == last);
    if elements.contains(element) {
        assert(longer[elements.index_of(element)] == element);
    }
    if longer.contains(element) && element != last {
        assert(elements[longer.index_of(element)] == element);
    }
}

/// The markets that are walked are the active ones, each once.
pub proof fn law_active_markets_are_walked<M>(storage: StorageView<M>)
    requires
        storage.walks_all_markets(),
    ensures
        storage.active_ids().no_duplicates(),
        forall|asset_id: CurrencyId| #[trigger]
            storage.active_ids().contains(asset_id) <==> storage.is_active(asset_id),
{
    let is_active = |asset_id: CurrencyId| storage.is_active(asset_id);
    lemma_filter_of_distinct(storage.market_order, is_active);
    assert forall|asset_id: CurrencyId| #[trigger]
        storage.active_ids().contains(asset_id) <==> storage.is_active(asset_id) by {
        assert(storage.markets.contains_key(asset_id) <==> storage.market_order.contains(asset_id));
    }
}

/// The sum of the values of some assets.
pub open spec fn sum_of_values(
    ids: Seq<CurrencyId>,
    value: spec_fn(CurrencyId) -> Result<FixedU128, DispatchError>,
) -> int {
    sum_over(ids.to_set(), |asset_id: CurrencyId| value(asset_id)->Ok_0.inner as int)
}

/// A total is the sum of the values, where all of them are known and the sum fits.
pub proof fn lemma_total_is_sum(
    ids: Seq<CurrencyId>,
    value: spec_fn(CurrencyId) -> Result<FixedU128, DispatchError>,
)
    requires
        ids.no_duplicates(),
    ensures
        ids.to_set().finite(),
        sum_of_values(ids, value) >= 0,
        checked_total(ids, value) is Ok <==> (forall|asset_id: CurrencyId| #[trigger]
            ids.contains(asset_id) ==> value(asset_id) is Ok) && sum_of_values(ids, value)
            <= u128::MAX,
        checked_total(ids, value) is Ok ==> checked_total(ids, value)->Ok_0.inner == sum_of_values(
            ids,
            value,
        ),
        (forall|asset_id: CurrencyId| #[trigger] ids.contains(asset_id) ==> value(asset_id) is Ok)
            && sum_of_values(ids, value) > u128::MAX ==> checked_total(ids, value) == Err::<
            FixedU128,
            DispatchError,
        >(overflow()),
    decreases ids.len(),
{
    let f = |asset_id: CurrencyId| value(asset_id)->Ok_0.inner as int;
    ids.unique_seq_to_set();
    vstd::seq_lib::seq_to_set_is_finite(ids);
    if ids.len() == 0 {
        assert(ids.to_set() =~= Set::empty());
    } else {
        let rest = ids.drop_last();
        let last = ids.last();
        lemma_total_is_sum(rest, value);
        assert(ids =~= rest.push(last));
        assert(!rest.contains(last)) by {
            if rest.contains(last) {
                assert(ids[rest.index_of(last)] == ids[ids.len() - 1]);
            }
        }
        assert forall|asset_id: CurrencyId| #[trigger]
            ids.contains(asset_id) <==> rest.contains(asset_id) || asset_id == last by {
            lemma_contains_of_push(rest, last, asset_id);
        }
        assert(ids.to_set().remove(last) =~= rest.to_set());
        lemma_sum_without(ids.to_set(), f, last);
        assert(sum_of_values(ids, value) == sum_of_values(rest, value) + f(last));
        assert(ids.contains(last));
        if forall|asset_id: CurrencyId| #[trigger]
            ids.contains(asset_id) ==> value(asset_id) is Ok {
            assert forall|asset_id: CurrencyId| #[trigger]
                rest.contains(asset_id) implies value(asset_id) is Ok by {
                assert(ids.contains(asset_id));
            }
        }
        if checked_total(ids, value) is Ok {
            assert forall|asset_id: CurrencyId| #[trigger]
                ids.contains(asset_id) implies value(asset_id) is Ok by {
                assert(rest.contains(asset_id) || asset_id == last);
            }
        }
    }
}

/// Where the value of one asset changes, the sum changes by as much.
pub proof fn lemma_sum_with_one_change(
    ids: Seq<CurrencyId>,
    old_value: spec_fn(CurrencyId) -> Result<FixedU128, DispatchError>,
    new_value: spec_fn(CurrencyId) -> Result<FixedU128, DispatchError>,
    changed: CurrencyId,
)
    requires
        ids.no_duplicates(),
        ids.contains(changed),
        forall|asset_id: CurrencyId|
            asset_id != changed ==> #[trigger] new_value(asset_id) == old_value(asset_id),
    ensures
        sum_of_values(ids, new_value) - new_value(changed)->Ok_0.inner == sum_of_values(
            ids,
            old_value,
        ) - old_value(changed)->Ok_0.inner,
        sum_of_values(ids, old_value) >= old_value(changed)->Ok_0.inner,
{
    let f = |asset_id: CurrencyId| old_value(asset_id)->Ok_0.inner as int;
    let g = |asset_id: CurrencyId| new_value(asset_id)->Ok_0.inner as int;
    vstd::seq_lib::seq_to_set_is_finite(ids);
    let others = ids.to_set().remove(changed);
    lemma_sum_without(ids.to_set(), f, changed);
    lemma_sum_without(ids.to_set(), g, changed);
    lemma_sum_of_equals(others, f, g);
    lemma_sum_is_not_negative(others, f);
}

/// A sum of values that are not negative is not negative.
proof fn lemma_sum_is_not_negative<A>(elements: Set<A>, f: spec_fn(A) -> int)
    requires
        elements.finite(),
        forall|element: A| 0 <= #[trigger] f(element),
    ensures
        0 <= sum_over(elements, f),
    decreases elements.len(),
{
    if !elements.is_empty() {
        lemma_sum_is_not_negative(elements.remove(elements.choose()), f);
    }
}

/// The same assets in another order have the same total, where either order gives one.
proof fn lemma_total_in_another_order(
    ids: Seq<CurrencyId>,
    other_ids: Seq<CurrencyId>,
    value: spec_fn(CurrencyId) -> Result<FixedU128, DispatchError>,
)
    requires
        ids.no_duplicates(),
        other_ids.no_duplicates(),
        forall|asset_id: CurrencyId| #[trigger]
            ids.contains(asset_id) <==> other_ids.contains(asset_id),
        checked_total(ids, value) is Ok,
    ensures
        checked_total(other_ids, value) == checked_total(ids, value),
{
    lemma_total_is_sum(ids, value);
    lemma_total_is_sum(other_ids, value);
    assert(ids.to_set() =~= other_ids.to_set());
    assert forall|asset_id: CurrencyId| #[trigger]
        other_ids.contains(asset_id) implies value(asset_id) is Ok by {
        assert(ids.contains(asset_id));
    }
}

/// The order in which markets are walked does not matter to what an account owes, to what its
/// collateral is worth, or to its liquidity: where one order gives a value, every order gives it.
pub proof fn law_order_does_not_matter<T: Config>(
    state: State<T>,
    other_order: Seq<CurrencyId>,
    who: AccountId,
)
    requires
        state.storage.walks_all_markets(),
        (StorageView { market_order: other_order, ..state.storage }).walks_all_markets(),
    ensures
        ({
            let other = State {
                storage: StorageView { market_order: other_order, ..state.storage },
                ..state
            };
            &&& state.total_borrowed_value(who) is Ok ==> other.total_borrowed_value(who)
                == state.total_borrowed_value(who)
            &&& state.total_collateral_value(who) is Ok ==> other.total_collateral_value(who)
                == state.total_collateral_value(who)
            &&& state.account_liquidity(who) is Ok ==> other.account_liquidity(who)
                == state.account_liquidity(who)
        }),
{
    let other = State {
        storage: StorageView { market_order: other_order, ..state.storage },
        ..state
    };
    let ids = state.storage.active_ids();
    let other_ids = other.storage.active_ids();
    law_active_markets_are_walked(state.storage);
    law_active_markets_are_walked(other.storage);
    assert forall|asset_id: CurrencyId| #[trigger]
        ids.contains(asset_id) <==> other_ids.contains(asset_id) by {
        assert(state.storage.is_active(asset_id) == other.storage.is_active(asset_id));
    }
    let borrowed = |asset_id: CurrencyId| state.borrowed_value(who, asset_id);
    assert(borrowed =~= (|asset_id: CurrencyId| other.borrowed_value(who, asset_id)));
    let collateral = |asset_id: CurrencyId| state.collateral_asset_value(who, asset_id);
    assert(collateral =~= (|asset_id: CurrencyId| other.collateral_asset_value(who, asset_id)));
    if state.total_borrowed_value(who) is Ok {
        lemma_total_in_another_order(ids, other_ids, borrowed);
    }
    if state.total_collateral_value(who) is Ok {
        lemma_total_in_another_order(ids, other_ids, collateral);
    }
}

}
