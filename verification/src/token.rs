use vstd::prelude::*;
use solana_program::program_pack::Pack;
use crate::bytes::u64_at;
use crate::error::ProcessError;

verus! {

/// The number of units in a token account with these contents; `None` where
/// the contents are no initialized token account. It is what
/// `spl_token::state::Account::unpack` reads as `amount`.
pub uninterp spec fn token_balance(data: Seq<u8>) -> Option<u64>;

/// Number of bytes of a token account.
pub const TOKEN_ACCOUNT_LEN: usize = 165;

/// Where the balance stands in a token account.
pub const TOKEN_BALANCE_AT: usize = 64;

/// Calls `spl_token::state::Account::unpack` and hands out the `amount` of
/// the account that it read. The call fails where the contents are not 165
/// bytes, hold a tag that names nothing, or say that the account was never
/// initialized; it never panics. The contract gives the result a name, as
/// it depends on the bytes alone, and says of it what the body of the call
/// shows: an account that is read has 165 bytes, and its `amount` is the
/// number in the eight bytes from the 64th on, least significant first.
#[verifier::external_body]
fn unpack_balance(data: &[u8]) -> (r: Option<u64>)
    ensures
        r == token_balance(data@),
        r matches Some(units) ==> data@.len() == TOKEN_ACCOUNT_LEN && units == u64_at(
            data@,
            TOKEN_BALANCE_AT as int,
        ),
{
    spl_token::state::Account::unpack(data).ok().map(|account| account.amount)
}

/// Whether a balance, as it was read, proves that the holder has the one
/// unit of a gem: no readable account is refused as invalid, any balance
/// but one as insufficient.
pub open spec fn single_unit(balance: Option<u64>) -> Result<(), ProcessError> {
    match balance {
        None => Err(ProcessError::InvalidAccountData),
        Some(units) => if units == 1 {
            Ok(())
        } else {
            Err(ProcessError::InsufficientFunds)
        },
    }
}

/// Decides whether a balance, as it was read, proves that the holder has the
/// one unit of a gem.
pub fn check_single_unit(balance: Option<u64>) -> (r: Result<(), ProcessError>)
    ensures
        r == single_unit(balance),
{
    match balance {
        None => Err(ProcessError::InvalidAccountData),
        Some(units) => if units == 1 {
            Ok(())
        } else {
            Err(ProcessError::InsufficientFunds)
        },
    }
}

/// Reads a token account and decides whether it holds exactly one unit.
pub fn holds_single_unit(data: &[u8]) -> (r: Result<(), ProcessError>)
    ensures
        r == single_unit(token_balance(data@)),
        r is Ok ==> data@.len() == TOKEN_ACCOUNT_LEN && u64_at(data@, TOKEN_BALANCE_AT as int) == 1,
{
    check_single_unit(unpack_balance(data))
}

} // verus!
