//! The accounts that an operation is given, and what it asks of the account
//! store.
//!
//! An operation names its accounts by position. It reads their keys, owners,
//! signer flags and bytes, and writes the bytes of at most one of them. An
//! account that does not exist yet is not created by the operation itself:
//! the operation says which account it needs and stops, and is run again once
//! the account store has created it.

use vstd::prelude::*;

use crate::address::Address;
use crate::wire::{write_zero_padded, zero_padded};

verus! {

/// One account as an operation sees it.
#[derive(Debug, Clone, PartialEq, Eq)]
pub struct AccountInfo {
    /// The account's address.
    pub key: Address,
    /// The program that owns the account.
    pub owner: Address,
    /// Whether the account has signed the operation.
    pub is_signer: bool,
    /// The account's bytes.
    pub data: Vec<u8>,
}

/// An `AccountInfo` as a mathematical value.
pub ghost struct AccountInfoView {
    pub key: Seq<u8>,
    pub owner: Seq<u8>,
    pub is_signer: bool,
    pub data: Seq<u8>,
}

impl View for AccountInfo {
    type V = AccountInfoView;

    open spec fn view(&self) -> AccountInfoView {
        AccountInfoView {
            key: self.key@,
            owner: self.owner@,
            is_signer: self.is_signer,
            data: self.data@,
        }
    }
}

/// The accounts of an operation as mathematical values, in their order.
pub open spec fn accounts_view(accounts: Seq<AccountInfo>) -> Seq<AccountInfoView> {
    Seq::new(accounts.len(), |i: int| accounts[i]@)
}

impl AccountInfoView {
    /// The same account with other bytes.
    pub open spec fn with_data(self, data: Seq<u8>) -> AccountInfoView {
        AccountInfoView { key: self.key, owner: self.owner, is_signer: self.is_signer, data }
    }
}

/// Which of the two records of a mint an account holds.
#[derive(Clone, Copy, Debug, PartialEq, Eq, Structural)]
pub enum RecordKind {
    /// The descriptive record.
    Metadata,
    /// The attributes record.
    Attributes,
}

/// What an operation asks of the account store before it can go on: an
/// account at a derived address, paid for by `payer`, of `space` zero bytes,
/// holding `lamports` and owned by `owner`. No wallet signs for the new
/// account; the request is authorized by the seeds from which its address is
/// derived: the tag of `kind`, the bytes of `mint`, and `bump`.
#[derive(Clone, Copy, Debug, PartialEq, Eq)]
pub struct CreateAccountRequest {
    pub payer: Address,
    pub new_account: Address,
    pub lamports: u64,
    pub space: u64,
    pub owner: Address,
    pub kind: RecordKind,
    pub mint: Address,
    pub bump: u8,
}

/// A `CreateAccountRequest` as a mathematical value.
pub ghost struct CreateAccountRequestView {
    pub payer: Seq<u8>,
    pub new_account: Seq<u8>,
    pub lamports: u64,
    pub space: u64,
    pub owner: Seq<u8>,
    pub kind: RecordKind,
    pub mint: Seq<u8>,
    pub bump: u8,
}

impl View for CreateAccountRequest {
    type V = CreateAccountRequestView;

    open spec fn view(&self) -> CreateAccountRequestView {
        CreateAccountRequestView {
            payer: self.payer@,
            new_account: self.new_account@,
            lamports: self.lamports,
            space: self.space,
            owner: self.owner@,
            kind: self.kind,
            mint: self.mint@,
            bump: self.bump,
        }
    }
}

/// How an operation that did not fail has ended.
#[derive(Clone, Copy, Debug, PartialEq, Eq)]
pub enum Outcome {
    /// Every check has passed and the record has been written.
    Done,
    /// Every check up to the creation of the account has passed and nothing
    /// has been written. The account store is to create the account; the
    /// same operation is then run again.
    NeedsAccount(CreateAccountRequest),
}

/// What one run of an operation comes to.
pub ghost enum Step {
    /// The operation fails and no account changes.
    Failed(crate::error::ProcessError),
    /// The operation asks for an account and no account changes.
    NeedsAccount(CreateAccountRequestView),
    /// The operation succeeds and leaves the accounts like this.
    Done(Seq<AccountInfoView>),
}

/// The step that a result and the accounts left behind amount to.
pub open spec fn step_of(
    r: Result<Outcome, crate::error::ProcessError>,
    after: Seq<AccountInfo>,
) -> Step {
    match r {
        Err(e) => Step::Failed(e),
        Ok(Outcome::NeedsAccount(request)) => Step::NeedsAccount(request@),
        Ok(Outcome::Done) => Step::Done(accounts_view(after)),
    }
}

/// Overwrites the bytes of one account: `bytes` at the front, zero bytes
/// after it. The account keeps its size, and nothing else changes.
pub fn store_record(accounts: &mut Vec<AccountInfo>, index: usize, bytes: &[u8])
    requires
        index < old(accounts)@.len(),
        bytes@.len() <= old(accounts)@[index as int].data@.len(),
    ensures
        accounts_view(final(accounts)@) == accounts_view(old(accounts)@).update(
            index as int,
            old(accounts)@[index as int]@.with_data(
                zero_padded(bytes@, old(accounts)@[index as int].data@.len()),
            ),
        ),
{
    let len: usize = accounts[index].data.len();
    let mut data: Vec<u8> = Vec::new();
    let mut i: usize = 0;
    while i < len
        invariant
            i <= len,
            data@.len() == i,
        decreases len - i,
    {
        data.push(0u8);
        i += 1;
    }
    write_zero_padded(data.as_mut_slice(), bytes);
    let updated = AccountInfo {
        key: accounts[index].key,
        owner: accounts[index].owner,
        is_signer: accounts[index].is_signer,
        data,
    };
    accounts[index] = updated;
    assert(accounts_view(accounts@) =~= accounts_view(old(accounts)@).update(
        index as int,
        old(accounts)@[index as int]@.with_data(
            zero_padded(bytes@, old(accounts)@[index as int].data@.len()),
        ),
    ));
}

} // verus!
