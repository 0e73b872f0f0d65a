use vstd::prelude::*;
use crate::address::Address;

verus! {

/// What a call reads of an account that its caller supplied.
#[derive(Clone, Debug, PartialEq, Eq)]
pub struct Account {
    /// Where the account is.
    pub key: Address,
    /// Whether the account's owner signed the call.
    pub is_signer: bool,
    /// How much value the account holds, in the smallest unit.
    pub lamports: u64,
    /// What the account holds.
    pub data: Vec<u8>,
}

/// An account as a value: its address, whether its owner signed, the value
/// and the bytes it holds.
pub struct AccountView {
    pub key: Address,
    pub is_signer: bool,
    pub lamports: u64,
    pub data: Seq<u8>,
}

impl View for Account {
    type V = AccountView;

    open spec fn view(&self) -> AccountView {
        AccountView {
            key: self.key,
            is_signer: self.is_signer,
            lamports: self.lamports,
            data: self.data@,
        }
    }
}

/// Whether a cell exists at an account's address: it holds value or data. The
/// host refuses to create a cell where one exists.
pub open spec fn cell_exists(account: AccountView) -> bool {
    account.lamports > 0 || account.data.len() > 0
}

impl Account {
    /// Whether a cell exists at this account's address.
    pub fn is_occupied(&self) -> (r: bool)
        ensures
            r == cell_exists(self@),
    {
        self.lamports > 0 || self.data.len() > 0
    }
}

/// The accounts of a call as values, in the order in which they were
/// supplied.
pub open spec fn account_views(accounts: Seq<Account>) -> Seq<AccountView> {
    Seq::new(accounts.len(), |i: int| accounts[i]@)
}

} // verus!
