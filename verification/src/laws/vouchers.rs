//! The vouchers in circulation are the vouchers of all accounts together.

use crate::call::Call;
use crate::config::Config;
use crate::laws::sums::{lemma_sum_of_equals, lemma_sum_without, sum_over};
use crate::pallet::State;
use crate::storage::{empty_storage, position, value_or, StorageView};
use crate::types::{no_deposits, CurrencyId, Deposits, Origin, Position, Timestamp};
use vstd::prelude::*;

verus! {

/// How many vouchers of an asset a storage key stands for.
pub open spec fn vouchers_at(
    deposits: Map<Position, Deposits>,
    asset_id: CurrencyId,
    at: Position,
) -> int {
    if at.asset_id == asset_id {
        deposits[at].voucher_balance as int
    } else {
        0
    }
}

/// The vouchers of an asset that all accounts hold together.
pub open spec fn vouchers_held(deposits: Map<Position, Deposits>, asset_id: CurrencyId) -> int {
    sum_over(deposits.dom(), |at: Position| vouchers_at(deposits, asset_id, at))
}

impl<M> StorageView<M> {
    /// The vouchers in circulation are the vouchers that the accounts hold.
    pub open spec fn vouchers_add_up(self) -> bool {
        &&& self.account_deposits.dom().finite()
        &&& forall|asset_id: CurrencyId| #[trigger]
            self.supply(asset_id) == vouchers_held(self.account_deposits, asset_id)
    }
}

/// Without one key, the vouchers held are fewer by those of the key.
proof fn lemma_held_without(deposits: Map<Position, Deposits>, asset_id: CurrencyId, at: Position)
    requires
        deposits.dom().finite(),
    ensures
        deposits.remove(at).dom().finite(),
        vouchers_held(deposits.remove(at), asset_id) == vouchers_held(deposits, asset_id) - (
        if at.asset_id == asset_id {
            value_or(deposits, at, no_deposits()).voucher_balance as int
        } else {
            0
        }),
{
    let f = |key: Position| vouchers_at(deposits, asset_id, key);
    let g = |key: Position| vouchers_at(deposits.remove(at), asset_id, key);
    assert(deposits.remove(at).dom() =~= deposits.dom().remove(at));
    lemma_sum_of_equals(deposits.dom().remove(at), f, g);
    if deposits.contains_key(at) {
        lemma_sum_without(deposits.dom(), f, at);
    } else {
        assert(deposits.dom().remove(at) =~= deposits.dom());
    }
}

/// With another value for one key, the vouchers held change by the change at the key.
proof fn lemma_held_with(
    deposits: Map<Position, Deposits>,
    asset_id: CurrencyId,
    at: Position,
    value: Deposits,
)
    requires
        deposits.dom().finite(),
    ensures
        deposits.insert(at, value).dom().finite(),
        vouchers_held(deposits.insert(at, value), asset_id) == vouchers_held(deposits, asset_id) + (
        if at.asset_id == asset_id {
            value.voucher_balance - value_or(deposits, at, no_deposits()).voucher_balance
        } else {
            0
        }),
{
    let after = deposits.insert(at, value);
    lemma_held_without(deposits, asset_id, at);
    lemma_held_without(after, asset_id, at);
    assert(after.remove(at) =~= deposits.remove(at));
}

/// In a pallet without markets the vouchers add up.
pub proof fn law_vouchers_add_up_at_first<M>()
    ensures
        empty_storage::<M>().vouchers_add_up(),
{
    assert(Map::<Position, Deposits>::empty().dom() =~= Set::empty());
}

/// Every call leaves the vouchers in circulation equal to the vouchers that the accounts hold: a
/// supply adds to both, a redemption takes from both, and a liquidation only passes vouchers on.
pub proof fn law_vouchers_add_up<T: Config>(before: State<T>, origin: Origin, call: Call<T>)
    requires
        before.storage.vouchers_add_up(),
        before.after_call(origin, call) is Ok,
    ensures
        before.after_call(origin, call)->Ok_0.storage.vouchers_add_up(),
{
    let after = before.after_call(origin, call)->Ok_0;
    let old_deposits = before.storage.account_deposits;
    let new_deposits = after.storage.account_deposits;
    assert forall|asset_id: CurrencyId| #[trigger]
        after.storage.supply(asset_id) == vouchers_held(new_deposits, asset_id)
            && new_deposits.dom().finite() by {
        assert(before.storage.supply(asset_id) == vouchers_held(old_deposits, asset_id));
        match call {
            Call::Mint { asset_id: id, mint_amount: _ } => {
                let at = position(id, origin->Signed_0);
                lemma_held_with(old_deposits, asset_id, at, new_deposits[at]);
            },
            Call::Redeem { asset_id: id, redeem_amount: _ } => {
                let at = position(id, origin->Signed_0);
                lemma_held_with(old_deposits, asset_id, at, new_deposits[at]);
                lemma_held_without(old_deposits, asset_id, at);
            },
            Call::RedeemAll { asset_id: id } => {
                let at = position(id, origin->Signed_0);
                lemma_held_with(old_deposits, asset_id, at, new_deposits[at]);
                lemma_held_without(old_deposits, asset_id, at);
            },
            Call::CollateralAsset { asset_id: id, enable: _ } => {
                let at = position(id, origin->Signed_0);
                lemma_held_with(old_deposits, asset_id, at, new_deposits[at]);
            },
            Call::LiquidateBorrow {
                borrower,
                liquidate_token: _,
                repay_amount: _,
                collateral_token,
            } => {
                let from = position(collateral_token, borrower);
                let to = position(collateral_token, origin->Signed_0);
                lemma_held_with(old_deposits, asset_id, from, new_deposits[from]);
                lemma_held_with(
                    old_deposits.insert(from, new_deposits[from]),
                    asset_id,
                    to,
                    new_deposits[to],
                );
            },
            _ => {},
        }
    }
    assert(after.storage.supply(0) == vouchers_held(new_deposits, 0));
}

/// Whether the accrual of interest in a block, if it takes place, leaves the deposits and the
/// vouchers in circulation alone.
pub open spec fn accrual_leaves_vouchers<T: Config>(before: State<T>, now: Timestamp) -> bool {
    before.accrual_due(now) && before.accrual(now) is Ok ==> {
        let accrued = before.accrual(now)->Ok_0;
        &&& accrued.account_deposits == before.storage.account_deposits
        &&& accrued.total_supply == before.storage.total_supply
    }
}

/// The start of a block leaves the vouchers adding up, where the accrual of interest touches
/// neither the deposits nor the vouchers in circulation.
pub proof fn law_vouchers_add_up_after_accrual<T: Config>(before: State<T>, now: Timestamp)
    requires
        before.storage.vouchers_add_up(),
        accrual_leaves_vouchers(before, now),
    ensures
        before.after_initialize(now).storage.vouchers_add_up(),
{
    let after = before.after_initialize(now);
    assert forall|asset_id: CurrencyId| #[trigger]
        after.storage.supply(asset_id) == vouchers_held(
            after.storage.account_deposits,
            asset_id,
        ) by {
        assert(before.storage.supply(asset_id) == vouchers_held(
            before.storage.account_deposits,
            asset_id,
        ));
    }
}

}
