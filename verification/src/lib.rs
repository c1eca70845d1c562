//! On-ledger metadata registry for fungible tokens.
//!
//! A mint is described by one `TokenMetadata` record and, optionally, one
//! `TokenMetadataAttributes` record. Both live in accounts whose addresses are
//! derived from the mint, and both are changed only through the six
//! operations of the `Processor`.
//!
//! - `address`: the 32-byte identifier of accounts, mints and programs.
//! - `wire`: the byte encoding of values, with the proof that reading
//!   inverts writing.
//! - `state`: the two records, their size limits and their layout.
//! - `instruction`: the six operations and their encoding.
//! - `validation`: the limits on what may be stored.
//! - `authority`: who may create and who may change a record.
//! - `account`: the accounts of an operation, and what an operation asks of
//!   the account store.
//! - `processor`: the operations themselves.
//! - `guarantees`: what holds over more than one operation.
//! - `ledger`: what is taken from the ledger's own libraries, unproved.
//! - `client` and `reader`: building operations and reading records back.

pub mod account;
pub mod address;
pub mod authority;
pub mod client;
pub mod error;
pub mod guarantees;
pub mod instruction;
pub mod ledger;
pub mod processor;
pub mod reader;
pub mod state;
pub mod validation;
pub mod well_known_attributes;
pub mod wire;

use vstd::pervasive::unreached;
use vstd::prelude::*;

use crate::address::Address;
use crate::error::ProcessError;
use crate::ledger::{derived_view, program_address, try_find_program_address};

verus! {

/// The tag under which the address of a mint's descriptive record is
/// derived: the text `metadata`.
pub const METADATA_SEED: [u8; 8] = [109, 101, 116, 97, 100, 97, 116, 97];

/// The tag under which the address of a mint's attributes record is derived:
/// the text `attributes`.
pub const ATTRIBUTES_SEED: [u8; 10] = [97, 116, 116, 114, 105, 98, 117, 116, 101, 115];

/// The text `arch-metadata000000000000000000`, which a zero byte completes to
/// the registry's own address.
pub const PROGRAM_ID_TEXT: [u8; 31] = [
    97, 114, 99, 104, 45, 109, 101, 116, 97, 100, 97, 116, 97, 48, 48, 48, 48, 48, 48, 48, 48, 48,
    48, 48, 48, 48, 48, 48, 48, 48, 48,
];

/// The bytes of the registry's own address.
pub open spec fn id_bytes() -> Seq<u8> {
    PROGRAM_ID_TEXT@ + seq![0u8]
}

/// The address under which the registry is known to the ledger.
pub fn id() -> (r: Address)
    ensures
        r@ == id_bytes(),
{
    let text = PROGRAM_ID_TEXT;
    let r = Address::from_slice(text.as_slice());
    assert(r@ =~= id_bytes());
    r
}

/// Accepts `program_id` when it is the registry's own address.
pub fn check_program_account(program_id: &Address) -> (r: Result<(), ProcessError>)
    ensures
        match r {
            Ok(_) => program_id@ == id_bytes(),
            Err(e) => e == ProcessError::IncorrectProgramId && program_id@ != id_bytes(),
        },
{
    if *program_id != id() {
        return Err(ProcessError::IncorrectProgramId);
    }
    Ok(())
}

/// The address of the descriptive record of `mint` under the registry at
/// `program_id`, with its bump seed, where the ledger finds one.
pub open spec fn metadata_pda(program_id: Seq<u8>, mint: Seq<u8>) -> Option<(Seq<u8>, u8)> {
    program_address(METADATA_SEED@, mint, program_id)
}

/// The address of the attributes record of `mint` under the registry at
/// `program_id`, with its bump seed, where the ledger finds one.
pub open spec fn attributes_pda(program_id: Seq<u8>, mint: Seq<u8>) -> Option<(Seq<u8>, u8)> {
    program_address(ATTRIBUTES_SEED@, mint, program_id)
}

/// Derives the address of the descriptive record of `mint`, or returns
/// `None` where the ledger finds no address for it. The result depends on
/// `program_id` and `mint` alone.
pub fn try_find_metadata_pda_with_program(program_id: &Address, mint: &Address) -> (r: Option<
    (Address, u8),
>)
    ensures
        derived_view(r) == metadata_pda(program_id@, mint@),
{
    let seed = METADATA_SEED;
    try_find_program_address(seed.as_slice(), mint, program_id)
}

/// Derives the address of the attributes record of `mint`, or returns `None`
/// where the ledger finds no address for it. The result depends on
/// `program_id` and `mint` alone.
pub fn try_find_attributes_pda_with_program(program_id: &Address, mint: &Address) -> (r: Option<
    (Address, u8),
>)
    ensures
        derived_view(r) == attributes_pda(program_id@, mint@),
{
    let seed = ATTRIBUTES_SEED;
    try_find_program_address(seed.as_slice(), mint, program_id)
}

/// Derives the address of the descriptive record of `mint`, where the
/// ledger finds one.
pub fn find_metadata_pda_with_program(program_id: &Address, mint: &Address) -> (r: (Address, u8))
    requires
        metadata_pda(program_id@, mint@) is Some,
    ensures
        metadata_pda(program_id@, mint@) == Some((r.0@, r.1)),
{
    match try_find_metadata_pda_with_program(program_id, mint) {
        Some(found) => found,
        None => unreached(),
    }
}

/// Derives the address of the attributes record of `mint`, where the ledger
/// finds one.
pub fn find_attributes_pda_with_program(program_id: &Address, mint: &Address) -> (r: (Address, u8))
    requires
        attributes_pda(program_id@, mint@) is Some,
    ensures
        attributes_pda(program_id@, mint@) == Some((r.0@, r.1)),
{
    match try_find_attributes_pda_with_program(program_id, mint) {
        Some(found) => found,
        None => unreached(),
    }
}

} // verus!
