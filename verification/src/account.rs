//! Account ids, and the account of a pallet.

use crate::types::AccountId;
use frame_support::sp_runtime::traits::AccountIdConversion;
use vstd::arithmetic::power::{lemma_pow_increases, pow};
use vstd::prelude::*;

verus! {

/// The number that a list of bytes spells, the most significant byte first.
pub open spec fn big_endian(bytes: Seq<u8>) -> nat
    decreases bytes.len(),
{
    if bytes.len() == 0 {
        0
    } else {
        256 * big_endian(bytes.drop_last()) + bytes.last() as nat
    }
}

/// The account that thirty-two bytes spell.
pub open spec fn account_of(bytes: Seq<u8>) -> AccountId {
    AccountId {
        high: big_endian(bytes.take(16)) as u128,
        low: big_endian(bytes.skip(16)) as u128,
    }
}

/// The bytes of the account of a pallet: `modl`, the id of the pallet, and zeros.
pub open spec fn pallet_account_bytes(id: Seq<u8>) -> Seq<u8> {
    seq![0x6du8, 0x6fu8, 0x64u8, 0x6cu8] + id + Seq::new(20, |i: int| 0u8)
}

/// Calls `AccountIdConversion::into_account_truncating` on a `frame_support::PalletId`, for an
/// account id of thirty-two bytes.
/// Trusted: the bytes are `modl`, the id, and zeros.
#[verifier::external_body]
fn outside_into_account(id: [u8; 8]) -> (bytes: [u8; 32])
    ensures
        bytes@ == pallet_account_bytes(id@),
{
    let account: frame_support::sp_runtime::AccountId32 =
        frame_support::PalletId(id).into_account_truncating();
    account.into()
}

/// So many bytes spell less than so many powers of two hundred and fifty-six.
proof fn lemma_big_endian_bound(bytes: Seq<u8>)
    ensures
        big_endian(bytes) < pow(256, bytes.len()),
    decreases bytes.len(),
{
    reveal(pow);
    if bytes.len() > 0 {
        lemma_big_endian_bound(bytes.drop_last());
    }
}

/// The number that sixteen of thirty-two bytes spell.
fn word(bytes: &[u8; 32], start: usize) -> (number: u128)
    requires
        start <= 16,
    ensures
        number == big_endian(bytes@.subrange(start as int, start + 16)),
{
    let mut number: u128 = 0;
    let mut i: usize = 0;
    assert(pow(256, 16) == 0x1_0000_0000_0000_0000_0000_0000_0000_0000int) by {
        reveal_with_fuel(pow, 17);
    }
    while i < 16
        invariant
            i <= 16,
            start <= 16,
            pow(256, 16) == 0x1_0000_0000_0000_0000_0000_0000_0000_0000int,
            number == big_endian(bytes@.subrange(start as int, start + i)),
        decreases 16 - i,
    {
        let ghost done = bytes@.subrange(start as int, start + i);
        let ghost more = bytes@.subrange(start as int, start + i + 1);
        proof {
            assert(more.drop_last() =~= done);
            lemma_big_endian_bound(more);
            lemma_pow_increases(256, (i + 1) as nat, 16);
        }
        number = 256 * number + bytes[start + i] as u128;
        i += 1;
    }
    number
}

impl AccountId {
    /// The account that thirty-two bytes spell.
    pub fn from_bytes(bytes: &[u8; 32]) -> (account: AccountId)
        ensures
            account == account_of(bytes@),
    {
        assert(bytes@.subrange(0, 16) =~= bytes@.take(16));
        assert(bytes@.subrange(16, 32) =~= bytes@.skip(16));
        AccountId { high: word(bytes, 0), low: word(bytes, 16) }
    }
}

/// The account of the pallet with a given id.
pub fn pallet_account(id: [u8; 8]) -> (account: AccountId)
    ensures
        account == account_of(pallet_account_bytes(id@)),
{
    AccountId::from_bytes(&outside_into_account(id))
}

}
