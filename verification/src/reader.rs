//! Reading records back from accounts that were fetched from the ledger.
//!
//! Fetching is left to the caller. What is decided here is which of the
//! fetched accounts hold a record of the registry, and what the record is:
//! an account that is missing, or that another program owns, holds none; an
//! account of the registry whose bytes are no record is an error.

use vstd::prelude::*;

use crate::address::Address;
use crate::attributes_pda;
use crate::error::ProcessError;
use crate::metadata_pda;
use crate::state::{
    decode_attributes, decode_metadata, TokenMetadata, TokenMetadataAttributes,
    TokenMetadataAttributesView, TokenMetadataView,
};
use crate::try_find_attributes_pda_with_program;
use crate::try_find_metadata_pda_with_program;

verus! {

/// What the reader needs of a fetched account: its bytes and its owner.
#[derive(Clone, Debug, PartialEq, Eq)]
pub struct AccountDataLite {
    pub data: Vec<u8>,
    pub owner: Address,
}

/// A fetched account as a mathematical value: the bytes and the owner, or
/// `None` for an account that is missing.
pub type FetchedView = Option<(Seq<u8>, Seq<u8>)>;

pub open spec fn fetched_view(account: Option<AccountDataLite>) -> FetchedView {
    match account {
        Some(a) => Some((a.data@, a.owner@)),
        None => None,
    }
}

pub open spec fn fetched_list_view(accounts: Seq<Option<AccountDataLite>>) -> Seq<FetchedView> {
    Seq::new(accounts.len(), |i: int| fetched_view(accounts[i]))
}

pub open spec fn option_metadata_view(m: Option<TokenMetadata>) -> Option<TokenMetadataView> {
    match m {
        Some(x) => Some(x@),
        None => None,
    }
}

pub open spec fn option_attributes_view(a: Option<TokenMetadataAttributes>) -> Option<
    TokenMetadataAttributesView,
> {
    match a {
        Some(x) => Some(x@),
        None => None,
    }
}

/// The descriptive record that a fetched account holds for the registry at
/// `program_id`.
pub open spec fn read_metadata(program_id: Seq<u8>, account: FetchedView) -> Result<
    Option<TokenMetadataView>,
    ProcessError,
> {
    match account {
        None => Ok(None),
        Some((data, owner)) => if owner != program_id {
            Ok(None)
        } else {
            match decode_metadata(data) {
                Some(m) => Ok(Some(m)),
                None => Err(ProcessError::InvalidAccountData),
            }
        },
    }
}

/// The attributes record that a fetched account holds for the registry at
/// `program_id`.
pub open spec fn read_attributes(program_id: Seq<u8>, account: FetchedView) -> Result<
    Option<TokenMetadataAttributesView>,
    ProcessError,
> {
    match account {
        None => Ok(None),
        Some((data, owner)) => if owner != program_id {
            Ok(None)
        } else {
            match decode_attributes(data) {
                Some(a) => Ok(Some(a)),
                None => Err(ProcessError::InvalidAccountData),
            }
        },
    }
}

/// The descriptive records that the fetched accounts hold, in their order,
/// or the error of the first account that has one.
pub open spec fn read_metadata_batch(program_id: Seq<u8>, accounts: Seq<FetchedView>) -> Result<
    Seq<Option<TokenMetadataView>>,
    ProcessError,
>
    decreases accounts.len(),
{
    if accounts.len() == 0 {
        Ok(Seq::empty())
    } else {
        match read_metadata_batch(program_id, accounts.drop_last()) {
            Err(e) => Err(e),
            Ok(front) => match read_metadata(program_id, accounts.last()) {
                Err(e) => Err(e),
                Ok(m) => Ok(front.push(m)),
            },
        }
    }
}

/// The attributes records that the fetched accounts hold, in their order, or
/// the error of the first account that has one.
pub open spec fn read_attributes_batch(program_id: Seq<u8>, accounts: Seq<FetchedView>) -> Result<
    Seq<Option<TokenMetadataAttributesView>>,
    ProcessError,
>
    decreases accounts.len(),
{
    if accounts.len() == 0 {
        Ok(Seq::empty())
    } else {
        match read_attributes_batch(program_id, accounts.drop_last()) {
            Err(e) => Err(e),
            Ok(front) => match read_attributes(program_id, accounts.last()) {
                Err(e) => Err(e),
                Ok(a) => Ok(front.push(a)),
            },
        }
    }
}

pub open spec fn metadata_list_view(list: Seq<Option<TokenMetadata>>) -> Seq<
    Option<TokenMetadataView>,
> {
    Seq::new(list.len(), |i: int| option_metadata_view(list[i]))
}

pub open spec fn attributes_list_view(list: Seq<Option<TokenMetadataAttributes>>) -> Seq<
    Option<TokenMetadataAttributesView>,
> {
    Seq::new(list.len(), |i: int| option_attributes_view(list[i]))
}

/// A reader of the records of the registry at `program_id`.
pub struct TokenMetadataReader {
    pub program_id: Address,
}

impl TokenMetadataReader {
    pub fn new(program_id: Address) -> (r: TokenMetadataReader)
        ensures
            r.program_id == program_id,
    {
        TokenMetadataReader { program_id }
    }

    /// The address at which the descriptive record of `mint` is fetched, or
    /// `None` where the ledger finds none.
    pub fn metadata_pda(&self, mint: &Address) -> (r: Option<Address>)
        ensures
            match r {
                Some(a) => metadata_pda(self.program_id@, mint@) is Some && metadata_pda(
                    self.program_id@,
                    mint@,
                ).unwrap().0 == a@,
                None => metadata_pda(self.program_id@, mint@) is None,
            },
    {
        match try_find_metadata_pda_with_program(&self.program_id, mint) {
            Some((pda, _bump)) => Some(pda),
            None => None,
        }
    }

    /// The address at which the attributes record of `mint` is fetched, or
    /// `None` where the ledger finds none.
    pub fn attributes_pda(&self, mint: &Address) -> (r: Option<Address>)
        ensures
            match r {
                Some(a) => attributes_pda(self.program_id@, mint@) is Some && attributes_pda(
                    self.program_id@,
                    mint@,
                ).unwrap().0 == a@,
                None => attributes_pda(self.program_id@, mint@) is None,
            },
    {
        match try_find_attributes_pda_with_program(&self.program_id, mint) {
            Some((pda, _bump)) => Some(pda),
            None => None,
        }
    }

    /// Whether `owner` is the registry.
    pub fn is_owner_ok(&self, owner: &Address) -> (b: bool)
        ensures
            b == (owner@ == self.program_id@),
    {
        *owner == self.program_id
    }

    /// The descriptive record that a fetched account holds.
    pub fn token_metadata(&self, account: &Option<AccountDataLite>) -> (r: Result<
        Option<TokenMetadata>,
        ProcessError,
    >)
        ensures
            match r {
                Ok(m) => read_metadata(self.program_id@, fetched_view(*account)) == Ok::<
                    Option<TokenMetadataView>,
                    ProcessError,
                >(option_metadata_view(m)),
                Err(e) => read_metadata(self.program_id@, fetched_view(*account)) == Err::<
                    Option<TokenMetadataView>,
                    ProcessError,
                >(e),
            },
    {
        match account {
            None => Ok(None),
            Some(acc) => {
                if !self.is_owner_ok(&acc.owner) {
                    return Ok(None);
                }
                let md = TokenMetadata::unpack_from_slice(acc.data.as_slice())?;
                Ok(Some(md))
            },
        }
    }

    /// The attributes record that a fetched account holds.
    pub fn token_metadata_attributes(&self, account: &Option<AccountDataLite>) -> (r: Result<
        Option<TokenMetadataAttributes>,
        ProcessError,
    >)
        ensures
            match r {
                Ok(a) => read_attributes(self.program_id@, fetched_view(*account)) == Ok::<
                    Option<TokenMetadataAttributesView>,
                    ProcessError,
                >(option_attributes_view(a)),
                Err(e) => read_attributes(self.program_id@, fetched_view(*account)) == Err::<
                    Option<TokenMetadataAttributesView>,
                    ProcessError,
                >(e),
            },
    {
        match account {
            None => Ok(None),
            Some(acc) => {
                if !self.is_owner_ok(&acc.owner) {
                    return Ok(None);
                }
                let attrs = TokenMetadataAttributes::unpack_from_slice(acc.data.as_slice())?;
                Ok(Some(attrs))
            },
        }
    }

    /// Both records of a mint, from the two accounts fetched for it: the
    /// record's account first, the attributes' account second. An error in
    /// the first is reported before one in the second.
    pub fn token_details(
        &self,
        metadata: &Option<AccountDataLite>,
        attributes: &Option<AccountDataLite>,
    ) -> (r: Result<(Option<TokenMetadata>, Option<TokenMetadataAttributes>), ProcessError>)
        ensures
            match r {
                Ok((m, a)) => {
                    &&& read_metadata(self.program_id@, fetched_view(*metadata)) == Ok::<
                        Option<TokenMetadataView>,
                        ProcessError,
                    >(option_metadata_view(m))
                    &&& read_attributes(self.program_id@, fetched_view(*attributes)) == Ok::<
                        Option<TokenMetadataAttributesView>,
                        ProcessError,
                    >(option_attributes_view(a))
                },
                Err(e) => {
                    ||| read_metadata(self.program_id@, fetched_view(*metadata)) == Err::<
                        Option<TokenMetadataView>,
                        ProcessError,
                    >(e)
                    ||| (read_metadata(self.program_id@, fetched_view(*metadata)) is Ok
                        && read_attributes(self.program_id@, fetched_view(*attributes)) == Err::<
                        Option<TokenMetadataAttributesView>,
                        ProcessError,
                    >(e))
                },
            },
    {
        let md_opt = self.token_metadata(metadata)?;
        let at_opt = self.token_metadata_attributes(attributes)?;
        Ok((md_opt, at_opt))
    }

    /// The descriptive records that the fetched accounts hold, in their
    /// order.
    pub fn token_metadata_batch(&self, accounts: &Vec<Option<AccountDataLite>>) -> (r: Result<
        Vec<Option<TokenMetadata>>,
        ProcessError,
    >)
        ensures
            match r {
                Ok(list) => read_metadata_batch(self.program_id@, fetched_list_view(accounts@))
                    == Ok::<Seq<Option<TokenMetadataView>>, ProcessError>(
                    metadata_list_view(list@),
                ),
                Err(e) => read_metadata_batch(self.program_id@, fetched_list_view(accounts@))
                    == Err::<Seq<Option<TokenMetadataView>>, ProcessError>(e),
            },
    {
        let n: usize = accounts.len();
        let ghost all = fetched_list_view(accounts@);
        let mut out: Vec<Option<TokenMetadata>> = Vec::new();
        let mut i: usize = 0;
        assert(metadata_list_view(out@) =~= Seq::empty());
        while i < n
            invariant
                i <= n,
                n == accounts@.len(),
                all == fetched_list_view(accounts@),
                read_metadata_batch(self.program_id@, all.take(i as int)) == Ok::<
                    Seq<Option<TokenMetadataView>>,
                    ProcessError,
                >(metadata_list_view(out@)),
            decreases n - i,
        {
            proof {
                assert(all.take(i + 1).drop_last() =~= all.take(i as int));
                assert(all.take(i + 1).last() == fetched_view(accounts@[i as int]));
                if read_metadata_batch(self.program_id@, all.take(i + 1)) is Err {
                    lemma_metadata_batch_stops(self.program_id@, all, i + 1);
                }
            }
            let ghost before = metadata_list_view(out@);
            let md = self.token_metadata(&accounts[i])?;
            out.push(md);
            assert(metadata_list_view(out@) =~= before.push(option_metadata_view(md)));
            i += 1;
        }
        assert(all.take(n as int) =~= all);
        Ok(out)
    }

    /// The attributes records that the fetched accounts hold, in their order.
    pub fn token_metadata_attributes_batch(&self, accounts: &Vec<Option<AccountDataLite>>) -> (r:
        Result<Vec<Option<TokenMetadataAttributes>>, ProcessError>)
        ensures
            match r {
                Ok(list) => read_attributes_batch(self.program_id@, fetched_list_view(accounts@))
                    == Ok::<Seq<Option<TokenMetadataAttributesView>>, ProcessError>(
                    attributes_list_view(list@),
                ),
                Err(e) => read_attributes_batch(self.program_id@, fetched_list_view(accounts@))
                    == Err::<Seq<Option<TokenMetadataAttributesView>>, ProcessError>(e),
            },
    {
        let n: usize = accounts.len();
        let ghost all = fetched_list_view(accounts@);
        let mut out: Vec<Option<TokenMetadataAttributes>> = Vec::new();
        let mut i: usize = 0;
        assert(attributes_list_view(out@) =~= Seq::empty());
        while i < n
            invariant
                i <= n,
                n == accounts@.len(),
                all == fetched_list_view(accounts@),
                read_attributes_batch(self.program_id@, all.take(i as int)) == Ok::<
                    Seq<Option<TokenMetadataAttributesView>>,
                    ProcessError,
                >(attributes_list_view(out@)),
            decreases n - i,
        {
            proof {
                assert(all.take(i + 1).drop_last() =~= all.take(i as int));
                assert(all.take(i + 1).last() == fetched_view(accounts@[i as int]));
                if read_attributes_batch(self.program_id@, all.take(i + 1)) is Err {
                    lemma_attributes_batch_stops(self.program_id@, all, i + 1);
                }
            }
            let ghost before = attributes_list_view(out@);
            let attrs = self.token_metadata_attributes(&accounts[i])?;
            out.push(attrs);
            assert(attributes_list_view(out@) =~= before.push(option_attributes_view(attrs)));
            i += 1;
        }
        assert(all.take(n as int) =~= all);
        Ok(out)
    }
}

/// An error among the first `k` accounts is the error of the whole batch.
pub proof fn lemma_metadata_batch_stops(program_id: Seq<u8>, accounts: Seq<FetchedView>, k: int)
    requires
        0 <= k <= accounts.len(),
        read_metadata_batch(program_id, accounts.take(k)) is Err,
    ensures
        read_metadata_batch(program_id, accounts) == read_metadata_batch(
            program_id,
            accounts.take(k),
        ),
    decreases accounts.len() - k,
{
    if k < accounts.len() {
        assert(accounts.take(k + 1).drop_last() =~= accounts.take(k));
        lemma_metadata_batch_stops(program_id, accounts, k + 1);
    } else {
        assert(accounts.take(k) =~= accounts);
    }
}

/// An error among the first `k` accounts is the error of the whole batch.
pub proof fn lemma_attributes_batch_stops(program_id: Seq<u8>, accounts: Seq<FetchedView>, k: int)
    requires
        0 <= k <= accounts.len(),
        read_attributes_batch(program_id, accounts.take(k)) is Err,
    ensures
        read_attributes_batch(program_id, accounts) == read_attributes_batch(
            program_id,
            accounts.take(k),
        ),
    decreases accounts.len() - k,
{
    if k < accounts.len() {
        assert(accounts.take(k + 1).drop_last() =~= accounts.take(k));
        lemma_attributes_batch_stops(program_id, accounts, k + 1);
    } else {
        assert(accounts.take(k) =~= accounts);
    }
}

} // verus!
