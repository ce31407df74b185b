//! What is read of a pallet: where values come from, and what stands for those that are not there.

use crate::account::{account_of, big_endian, pallet_account_bytes};
use crate::config::Config;
use crate::fixed::{Price, Rate, Ratio};
use crate::pallet::{settled, signer, Pallet, State};
use crate::storage::{empty_storage, position, Storage, StorageView};
use crate::types::{
    overflow, refused, underflow, AccountId, ArithmeticError, Balance, BorrowSnapshot, CurrencyId,
    Deposits, DispatchError, DispatchResult, EarnedSnapshot, Error, Market, MarketState, Origin,
    Position,
};
use vstd::prelude::*;

verus! {

/// The totals, rates and positions that are read are those that are stored; where nothing is
/// stored, they are nothing.
pub proof fn law_storage_is_read<M>(storage: StorageView<M>, asset_id: CurrencyId, who: AccountId)
    ensures
        ({
            let at = Position { asset_id, who };
            &&& position(asset_id, who) == at
            &&& if storage.total_supply.contains_key(asset_id) {
                storage.supply(asset_id) == storage.total_supply[asset_id]
            } else {
                storage.supply(asset_id) == 0
            }
            &&& if storage.total_borrows.contains_key(asset_id) {
                storage.borrows(asset_id) == storage.total_borrows[asset_id]
            } else {
                storage.borrows(asset_id) == 0
            }
            &&& if storage.total_reserves.contains_key(asset_id) {
                storage.reserves(asset_id) == storage.total_reserves[asset_id]
            } else {
                storage.reserves(asset_id) == 0
            }
            &&& if storage.borrow_index.contains_key(asset_id) {
                storage.index(asset_id) == storage.borrow_index[asset_id]
            } else {
                storage.index(asset_id).inner == 0
            }
            &&& if storage.exchange_rate.contains_key(asset_id) {
                storage.rate(asset_id) == storage.exchange_rate[asset_id]
            } else {
                storage.rate(asset_id).inner == 0
            }
            &&& if storage.account_borrows.contains_key(at) {
                storage.debt(asset_id, who) == storage.account_borrows[at]
            } else {
                storage.debt(asset_id, who).principal == 0 && storage.debt(
                    asset_id,
                    who,
                ).borrow_index.inner == 0
            }
            &&& if storage.account_deposits.contains_key(at) {
                storage.deposits(asset_id, who) == storage.account_deposits[at]
            } else {
                storage.deposits(asset_id, who).voucher_balance == 0 && !storage.deposits(
                    asset_id,
                    who,
                ).is_collateral
            }
            &&& if storage.account_earned.contains_key(at) {
                storage.earned(asset_id, who) == storage.account_earned[at]
            } else {
                storage.earned(asset_id, who).total_earned_prior == 0 && storage.earned(
                    asset_id,
                    who,
                ).exchange_rate_prior.inner == 0
            }
        }),
{
}

/// Each table of a storage stands for the stored one of its name.
pub proof fn law_storage_is_what_is_stored<M: Copy>(storage: Storage<M>)
    ensures
        storage@.last_accrued_timestamp == storage.last_accrued_timestamp,
        storage@.total_supply == storage.total_supply@,
        storage@.total_borrows == storage.total_borrows@,
        storage@.total_reserves == storage.total_reserves@,
        storage@.account_borrows == storage.account_borrows@,
        storage@.account_deposits == storage.account_deposits@,
        storage@.account_earned == storage.account_earned@,
        storage@.borrow_index == storage.borrow_index@,
        storage@.exchange_rate == storage.exchange_rate@,
        storage@.borrow_rate == storage.borrow_rate@,
        storage@.supply_rate == storage.supply_rate@,
        storage@.utilization_ratio == storage.utilization_ratio@,
        storage@.markets == storage.markets@,
        storage@.market_order == storage.markets.order(),
        storage@.underlying_asset_id == storage.underlying_asset_id@,
{
}

/// A new pallet stores nothing at all, and has never accrued interest.
pub proof fn law_new_storage_is_empty<M>()
    ensures
        ({
            let storage = empty_storage::<M>();
            &&& storage.last_accrued_timestamp == 0
            &&& storage.total_supply == Map::<CurrencyId, Balance>::empty()
            &&& storage.total_borrows == Map::<CurrencyId, Balance>::empty()
            &&& storage.total_reserves == Map::<CurrencyId, Balance>::empty()
            &&& storage.account_borrows == Map::<Position, BorrowSnapshot>::empty()
            &&& storage.account_deposits == Map::<Position, Deposits>::empty()
            &&& storage.account_earned == Map::<Position, EarnedSnapshot>::empty()
            &&& storage.borrow_index == Map::<CurrencyId, Rate>::empty()
            &&& storage.exchange_rate == Map::<CurrencyId, Rate>::empty()
            &&& storage.borrow_rate == Map::<CurrencyId, Rate>::empty()
            &&& storage.supply_rate == Map::<CurrencyId, Rate>::empty()
            &&& storage.utilization_ratio == Map::<CurrencyId, Ratio>::empty()
            &&& storage.markets == Map::<CurrencyId, Market<M>>::empty()
            &&& storage.market_order == Seq::<CurrencyId>::empty()
            &&& storage.underlying_asset_id == Map::<CurrencyId, CurrencyId>::empty()
        }),
{
}

/// A market is the stored one, and it is active where its state says so.
pub proof fn law_market_is_read<T: Config>(
    state: State<T>,
    asset_id: CurrencyId,
    market: Market<T::RateModel>,
)
    ensures
        state.market(asset_id) == Ok::<Market<T::RateModel>, DispatchError>(market)
            <==> state.storage.markets.contains_key(asset_id) && state.storage.markets[asset_id]
            == market,
        state.market(asset_id) is Err ==> state.market(asset_id)->Err_0 == refused(
            Error::MarketDoesNotExist,
        ),
        state.active_market(asset_id) == Ok::<Market<T::RateModel>, DispatchError>(market)
            <==> state.storage.markets.contains_key(asset_id) && state.storage.markets[asset_id]
            == market && market.state == MarketState::Active,
        state.active_market(asset_id) is Err ==> state.active_market(asset_id)->Err_0 == refused(
            Error::MarketNotActivated,
        ),
        state.storage.is_active(asset_id) <==> state.active_market(asset_id) is Ok,
{
}

/// The voucher token of an asset is that of its market, and the underlying asset of a voucher token
/// the stored one.
pub proof fn law_tokens_are_read<T: Config>(state: State<T>, id: CurrencyId, other: CurrencyId)
    ensures
        state.ptoken(id) == Ok::<CurrencyId, DispatchError>(other)
            <==> state.storage.markets.contains_key(id) && state.storage.markets[id].ptoken_id
            == other,
        state.ptoken(id) is Err ==> state.ptoken(id)->Err_0 == refused(Error::MarketDoesNotExist),
        state.underlying(id) == Ok::<CurrencyId, DispatchError>(other)
            <==> state.storage.underlying_asset_id.contains_key(id)
            && state.storage.underlying_asset_id[id] == other,
        state.underlying(id) is Err ==> state.underlying(id)->Err_0 == refused(
            Error::InvalidPtokenId,
        ),
{
}

/// A price is that of the oracle; there must be one, and it may not be zero.
pub proof fn law_price_is_read<T: Config>(state: State<T>, asset_id: CurrencyId, price: Price)
    ensures
        state.price(asset_id) == Ok::<Price, DispatchError>(price) <==> price.inner > 0
            && state.runtime.oracle(asset_id) is Some && state.runtime.oracle(asset_id)->Some_0.0
            == price,
        state.runtime.oracle(asset_id) is None ==> state.price(asset_id) == Err::<
            Price,
            DispatchError,
        >(refused(Error::PriceOracleNotReady)),
        state.runtime.oracle(asset_id) is Some && state.price(asset_id) is Err ==> state.price(
            asset_id,
        ) == Err::<Price, DispatchError>(refused(Error::PriceIsZero)),
{
}

/// A call is signed by the account of its origin, and only a signed origin has one.
pub proof fn law_signer_is_read(origin: Origin, who: AccountId)
    ensures
        signer(origin) == Ok::<AccountId, DispatchError>(who) <==> origin == Origin::Signed(who),
        signer(origin) is Err ==> signer(origin)->Err_0 == DispatchError::BadOrigin,
{
}

/// The reasons for which computations and calls fail are distinct, and tell what they say.
pub proof fn law_reasons_are_told(reason: Error)
    ensures
        refused(reason) == DispatchError::Module(reason),
        overflow() == DispatchError::Arithmetic(ArithmeticError::Overflow),
        underflow() == DispatchError::Arithmetic(ArithmeticError::Underflow),
{
}

/// A settled call succeeds exactly where it has an outcome, and leaves the pallet in it; where it
/// has none, it tells the reason and leaves the pallet as it was.
pub proof fn law_calls_settle<T: Config>(
    before: Pallet<T>,
    after: Pallet<T>,
    result: DispatchResult,
    outcome: Result<State<T>, DispatchError>,
)
    requires
        settled(before, after, result, outcome),
    ensures
        result is Ok <==> outcome is Ok,
        result is Ok ==> after@ == outcome->Ok_0,
        result is Err ==> after == before && result->Err_0 == outcome->Err_0,
        after@.runtime == after.runtime,
        after@.storage == after.storage@,
        after@.events == after.events@,
{
}

/// The number that some bytes spell is below the next power of 256, and tells the bytes.
proof fn lemma_bytes_are_told(one: Seq<u8>, other: Seq<u8>)
    requires
        one.len() == other.len(),
        big_endian(one) == big_endian(other),
    ensures
        one == other,
    decreases one.len(),
{
    if one.len() > 0 {
        let a = big_endian(one.drop_last());
        let b = big_endian(other.drop_last());
        assert(a == b && one.last() == other.last());
        lemma_bytes_are_told(one.drop_last(), other.drop_last());
        assert(one =~= one.drop_last().push(one.last()));
        assert(other =~= other.drop_last().push(other.last()));
    } else {
        assert(one =~= other);
    }
}

/// Sixteen bytes spell a number that fits in a word.
proof fn lemma_word_fits(bytes: Seq<u8>)
    ensures
        bytes.len() == 16 ==> big_endian(bytes) <= u128::MAX,
        bytes.len() <= 16 ==> big_endian(bytes) < vstd::arithmetic::power::pow(256, bytes.len()),
    decreases bytes.len(),
{
    reveal(vstd::arithmetic::power::pow);
    if bytes.len() > 0 && bytes.len() <= 16 {
        lemma_word_fits(bytes.drop_last());
    }
    assert(vstd::arithmetic::power::pow(256, 16)
        == 0x1_0000_0000_0000_0000_0000_0000_0000_0000int) by {
        reveal_with_fuel(vstd::arithmetic::power::pow, 17);
    }
}

/// Bytes spell a number to the base of 256, the most significant first, and an account is two such
/// numbers of sixteen bytes.
pub proof fn law_bytes_spell_numbers(bytes: Seq<u8>, byte: u8, account: Seq<u8>)
    requires
        account.len() == 32,
    ensures
        big_endian(Seq::<u8>::empty()) == 0,
        big_endian(bytes.push(byte)) == 256 * big_endian(bytes) + byte,
        account_of(account).high == big_endian(account.subrange(0, 16)),
        account_of(account).low == big_endian(account.subrange(16, 32)),
{
    assert(bytes.push(byte).drop_last() =~= bytes);
    assert(account.subrange(0, 16) =~= account.take(16));
    assert(account.subrange(16, 32) =~= account.skip(16));
    lemma_word_fits(account.take(16));
    lemma_word_fits(account.skip(16));
}

/// Different bytes spell different accounts.
pub proof fn law_accounts_are_told_apart(one: Seq<u8>, other: Seq<u8>)
    requires
        one.len() == 32,
        other.len() == 32,
        account_of(one) == account_of(other),
    ensures
        one == other,
{
    lemma_word_fits(one.take(16));
    lemma_word_fits(one.skip(16));
    lemma_word_fits(other.take(16));
    lemma_word_fits(other.skip(16));
    lemma_bytes_are_told(one.take(16), other.take(16));
    lemma_bytes_are_told(one.skip(16), other.skip(16));
    assert(one =~= one.take(16) + one.skip(16));
    assert(other =~= other.take(16) + other.skip(16));
}

/// The pallet has one account, whatever its state: the letters `modl`, its id, and zeros.
pub proof fn law_account_of_the_pallet<T: Config>(state: State<T>, bytes: Seq<u8>)
    requires
        bytes.len() == 32,
    ensures
        state.account() == account_of(bytes) <==> {
            &&& bytes[0] == 'm' as u8 && bytes[1] == 'o' as u8 && bytes[2] == 'd' as u8 && bytes[3]
                == 'l' as u8
            &&& forall|i: int| 0 <= i < 8 ==> #[trigger] bytes[4 + i] == T::id()@[i]
            &&& forall|i: int| 12 <= i < 32 ==> #[trigger] bytes[i] == 0
        },
{
    let own = pallet_account_bytes(T::id()@);
    assert(own.len() == 32);
    if state.account() == account_of(bytes) {
        law_accounts_are_told_apart(own, bytes);
    } else if bytes[0] == 'm' as u8 && bytes[1] == 'o' as u8 && bytes[2] == 'd' as u8 && bytes[3]
        == 'l' as u8 && (forall|i: int| 0 <= i < 8 ==> #[trigger] bytes[4 + i] == T::id()@[i])
        && (forall|i: int| 12 <= i < 32 ==> #[trigger] bytes[i] == 0) {
        assert forall|i: int| 0 <= i < 32 implies own[i] == bytes[i] by {
            if 4 <= i < 12 {
                assert(bytes[4 + (i - 4)] == T::id()@[i - 4]);
            }
        }
        assert(own =~= bytes);
    }
}

}
