//! The deposit that keeps an account of a given size alive, as the network's
//! rent configuration prices it.

use solana_program::rent::Rent;
use vstd::prelude::*;

verus! {

/// The network's rent configuration. Its fields are not read here but for the
/// rate, through [`lamports_per_byte_year`].
#[verifier::external_type_specification]
#[verifier::external_body]
pub struct ExRent(Rent);

/// Bytes that the network adds to an account's data length before it prices
/// the account.
pub const ACCOUNT_STORAGE_OVERHEAD: u64 = 128;

/// The field `lamports_per_byte_year` of a rent configuration.
pub uninterp spec fn rent_lamports_per_byte_year(rent: Rent) -> u64;

/// What `Rent::minimum_balance` returns for a rent configuration and a data
/// length.
pub uninterp spec fn rent_minimum_balance(rent: Rent, data_len: usize) -> u64;

/// Whether the product that `Rent::minimum_balance` forms for this data length
/// stays within 64 bits.
pub open spec fn rent_in_range(rent: Rent, data_len: usize) -> bool {
    (ACCOUNT_STORAGE_OVERHEAD + data_len) * rent_lamports_per_byte_year(rent) <= u64::MAX
        && ACCOUNT_STORAGE_OVERHEAD + data_len <= u64::MAX
}

/// The deposit due for `data_len` bytes, where it can be computed.
pub open spec fn spec_minimum_deposit(rent: Rent, data_len: usize) -> Option<u64> {
    if rent_in_range(rent, data_len) {
        Some(rent_minimum_balance(rent, data_len))
    } else {
        None
    }
}

/// Reads the public field `lamports_per_byte_year` of
/// `solana_program::rent::Rent`. Believed: the result is that field, to which
/// the contracts refer as `rent_lamports_per_byte_year`.
#[verifier::external_body]
fn lamports_per_byte_year(rent: &Rent) -> (rate: u64)
    ensures
        rate == rent_lamports_per_byte_year(*rent),
{
    rent.lamports_per_byte_year
}

/// Calls `solana_program::rent::Rent::minimum_balance`. That function adds 128
/// to the data length and multiplies the sum by the rate, both in 64 bits,
/// before it scales the product by the exemption threshold; the precondition
/// leaves out the inputs on which the sum or the product overflows. Believed:
/// the result depends on the configuration and the length alone; the contracts
/// refer to it as `rent_minimum_balance` and claim nothing else of it.
#[verifier::external_body]
fn minimum_balance(rent: &Rent, data_len: usize) -> (lamports: u64)
    requires
        rent_in_range(*rent, data_len),
    ensures
        lamports == rent_minimum_balance(*rent, data_len),
{
    rent.minimum_balance(data_len)
}

/// The deposit that keeps an account of `data_len` bytes rent-exempt, or
/// `None` where the network's formula leaves 64 bits for that length.
pub fn minimum_deposit(rent: &Rent, data_len: usize) -> (deposit: Option<u64>)
    ensures
        deposit == spec_minimum_deposit(*rent, data_len),
{
    let rate: u64 = lamports_per_byte_year(rent);
    let bytes: u64 = data_len as u64;
    match ACCOUNT_STORAGE_OVERHEAD.checked_add(bytes) {
        None => None,
        Some(priced) => match priced.checked_mul(rate) {
            None => None,
            Some(_) => Some(minimum_balance(rent, data_len)),
        },
    }
}

} // verus!
