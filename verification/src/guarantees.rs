//! What holds of the registry over more than one operation.
//!
//! Each statement here is proved from the `*_step` functions of the
//! processor, which the executable operations are proved to follow.

use vstd::prelude::*;

use crate::account::{AccountInfoView, CreateAccountRequestView, Step};
use crate::address::Address;
use crate::attributes_pda;
use crate::authority::matched_authority;
use crate::error::{MetadataError, ProcessError};
use crate::instruction::{lemma_instruction_round_trip, MetadataInstructionView};
use crate::ledger::MintStateView;
use crate::metadata_pda;
use crate::processor::{
    at_derived_address, create_attributes_step,
    create_metadata_outcome, create_metadata_step, in_use, instruction_step,
    make_immutable_step, process_step, record_address,
    replace_attributes_step, store_metadata,
    transfer_authority_step, update_metadata_step, updated_field,
};
use crate::state::{
    decode_attributes, decode_metadata, lemma_attributes_fits, lemma_attributes_round_trip,
    lemma_attributes_taken, lemma_decoded_metadata_len, lemma_metadata_fits,
    lemma_metadata_round_trip, unpack_attributes, unpack_metadata, unpack_metadata_unchecked,
    TokenMetadataAttributesView,
    TokenMetadataView, TOKEN_METADATA_ATTRIBUTES_MAX_LEN, TOKEN_METADATA_MAX_LEN,
};
use crate::client::{
    attributes_refusal, first_attribute_error, metadata_fields_error,
    optional_metadata_fields_error,
};
use crate::validation::{
    attributes_error, lemma_accepted_attributes, metadata_fields_ok, optional_metadata_fields_ok,
    pairs_error,
};
use crate::wire::{zero_padded, PairView};

verus! {

/// The address of a record depends on the registry's address and the mint
/// alone: two derivations for the same mint give the same address and the
/// same bump seed.
pub proof fn lemma_derivation_is_a_function(
    program_id: Address,
    mint: Address,
    first: (Address, u8),
    second: (Address, u8),
)
    requires
        metadata_pda(program_id@, mint@) == Some((first.0@, first.1)),
        metadata_pda(program_id@, mint@) == Some((second.0@, second.1)),
    ensures
        first == second,
{
    assert(first.0.bytes =~= second.0.bytes);
}

/// A descriptive record is read back as it was written, whatever the size of
/// the account that it was written to.
pub proof fn lemma_metadata_survives_padding(m: TokenMetadataView, len: nat)
    requires
        m.wf(),
        m.encodable(),
    ensures
        decode_metadata(zero_padded(m.encode(), len)) == Some(m),
{
    lemma_metadata_round_trip(m, Seq::new((len - m.encode().len()) as nat, |i: int| 0u8));
}

/// An attributes record is read back as it was written, whatever the size of
/// the account that it was written to.
pub proof fn lemma_attributes_survive_padding(a: TokenMetadataAttributesView, len: nat)
    requires
        a.wf(),
        a.encodable(),
    ensures
        decode_attributes(zero_padded(a.encode(), len)) == Some(a),
{
    lemma_attributes_round_trip(a, Seq::new((len - a.encode().len()) as nat, |i: int| 0u8));
}

/// A record is created at most once: where `CreateMetadata` has succeeded,
/// another `CreateMetadata` on the accounts that it left fails, and with a
/// payload within the caps it fails with `MetadataAlreadyExists`.
pub proof fn lemma_metadata_is_created_once(
    program_id: Seq<u8>,
    accounts: Seq<AccountInfoView>,
    after: Seq<AccountInfoView>,
    name: Seq<char>,
    symbol: Seq<char>,
    image: Seq<char>,
    description: Seq<char>,
    immutable: bool,
    name2: Seq<char>,
    symbol2: Seq<char>,
    image2: Seq<char>,
    description2: Seq<char>,
    immutable2: bool,
)
    requires
        create_metadata_step(program_id, accounts, name, symbol, image, description, immutable)
            == Step::Done(after),
    ensures
        create_metadata_step(program_id, after, name, symbol, image, description, immutable)
            == Step::Failed(ProcessError::Custom(MetadataError::MetadataAlreadyExists)),
        create_metadata_step(program_id, after, name2, symbol2, image2, description2, immutable2)
            == Step::Failed(
            ProcessError::Custom(
                if metadata_fields_ok(name2, symbol2, image2, description2) {
                    MetadataError::MetadataAlreadyExists
                } else {
                    MetadataError::StringTooLong
                },
            ),
        ),
{
    let len = accounts[3].data.len();
    let authority = matched_authority(
        crate::ledger::mint_state(accounts[2].data).unwrap().1,
        crate::ledger::mint_state(accounts[2].data).unwrap().2,
        accounts[4].key,
        accounts[4].is_signer,
    );
    let m = TokenMetadataView {
        is_initialized: true,
        mint: accounts[2].key,
        name,
        symbol,
        image,
        description,
        update_authority: if immutable {
            None
        } else {
            authority
        },
    };
    assert(after == accounts.update(3, accounts[3].with_data(zero_padded(m.encode(), len))));
    assert(m.encode()[0] == 1u8);
    assert(m.encode().len() >= 1);
    assert(zero_padded(m.encode(), len)[0] == 1u8);
    assert(in_use(after[3]));
}

/// The attributes of a mint are created at most once: where
/// `CreateAttributes` has succeeded, the same operation on the accounts that
/// it left fails with `MetadataAlreadyExists`.
pub proof fn lemma_attributes_are_created_once(
    program_id: Seq<u8>,
    accounts: Seq<AccountInfoView>,
    after: Seq<AccountInfoView>,
    data: Seq<PairView>,
)
    requires
        create_attributes_step(program_id, accounts, data) == Step::Done(after),
    ensures
        create_attributes_step(program_id, after, data) == Step::Failed(
            ProcessError::Custom(MetadataError::MetadataAlreadyExists),
        ),
{
    let len = accounts[3].data.len();
    let a = TokenMetadataAttributesView { is_initialized: true, mint: accounts[2].key, data };
    assert(after == accounts.update(3, accounts[3].with_data(zero_padded(a.encode(), len))));
    lemma_decoded_metadata_len(accounts[5].data);
    lemma_accepted_attributes(data);
    lemma_attributes_fits(a);
    assert(a.encode()[0] == 1u8);
    assert(zero_padded(a.encode(), len)[0] == 1u8);
    assert(zero_padded(a.encode(), len).len() == len);
    assert(in_use(after[3]));
}

/// Whether the bytes of an account hold a created record without an update
/// authority.
pub open spec fn holds_immutable_record(data: Seq<u8>) -> bool {
    unpack_metadata(data) matches Ok(m) && m.update_authority is None
}

/// `CreateMetadata` with `immutable` set leaves a record without an update
/// authority, where the record's account has the size of a record and the
/// mint's address has the length of an address.
pub proof fn lemma_created_immutable_has_no_authority(
    program_id: Seq<u8>,
    accounts: Seq<AccountInfoView>,
    after: Seq<AccountInfoView>,
    name: Seq<char>,
    symbol: Seq<char>,
    image: Seq<char>,
    description: Seq<char>,
)
    requires
        create_metadata_step(program_id, accounts, name, symbol, image, description, true)
            == Step::Done(after),
        accounts[3].data.len() == TOKEN_METADATA_MAX_LEN,
        accounts[2].key.len() == 32,
    ensures
        holds_immutable_record(after[3].data),
{
    let m = TokenMetadataView {
        is_initialized: true,
        mint: accounts[2].key,
        name,
        symbol,
        image,
        description,
        update_authority: None,
    };
    lemma_metadata_fits(m);
    lemma_metadata_survives_padding(m, accounts[3].data.len());
}

/// Immutability is final. A record without an update authority refuses every
/// operation that would change it or attach attributes to it: each fails with
/// `InvalidAuthority`, whoever signs. The accounts of each operation are
/// taken to be in order up to the point where the operation asks for the
/// authority: the signers have signed and, for `CreateAttributes`, the
/// attributes' account is at its derived address and the record names the
/// mint.
pub proof fn lemma_immutability_is_final(
    program_id: Seq<u8>,
    record: Seq<u8>,
    update: Seq<AccountInfoView>,
    name: Option<Seq<char>>,
    symbol: Option<Seq<char>>,
    image: Option<Seq<char>>,
    description: Option<Seq<char>>,
    transfer: Seq<AccountInfoView>,
    new_authority: Seq<u8>,
    again: Seq<AccountInfoView>,
    create: Seq<AccountInfoView>,
    replace: Seq<AccountInfoView>,
    data: Seq<PairView>,
)
    requires
        holds_immutable_record(record),
        update.len() >= 2 && update[0].data == record && update[1].is_signer,
        transfer.len() >= 2 && transfer[0].data == record && transfer[1].is_signer,
        again.len() >= 2 && again[0].data == record && again[1].is_signer,
        replace.len() >= 3 && replace[2].data == record && replace[1].is_signer,
        create.len() >= 6 && create[5].data == record && create[0].is_signer
            && create[4].is_signer,
        at_derived_address(attributes_pda(program_id, create[2].key), create[3]),
        unpack_metadata(record).unwrap().mint == create[2].key,
    ensures
        update_metadata_step(program_id, update, name, symbol, image, description) == Step::Failed(
            ProcessError::Custom(MetadataError::InvalidAuthority),
        ),
        transfer_authority_step(program_id, transfer, new_authority) == Step::Failed(
            ProcessError::Custom(MetadataError::InvalidAuthority),
        ),
        make_immutable_step(program_id, again) == Step::Failed(
            ProcessError::Custom(MetadataError::InvalidAuthority),
        ),
        replace_attributes_step(program_id, replace, data) == Step::Failed(
            ProcessError::Custom(MetadataError::InvalidAuthority),
        ),
        create_attributes_step(program_id, create, data) == Step::Failed(
            ProcessError::Custom(MetadataError::InvalidAuthority),
        ),
{
}

/// The freeze authority stands in for a mint authority that has been given
/// up, and for nobody else; a mint with neither authority has nobody who may
/// create its record.
pub proof fn lemma_authority_fallback(freeze: Seq<u8>, signer: Seq<u8>, is_signer: bool)
    ensures
        matched_authority(None, Some(freeze), freeze, true) == Some(freeze),
        signer != freeze ==> matched_authority(None, Some(freeze), signer, is_signer) is None,
        matched_authority(None, None, signer, is_signer) is None,
{
}

/// The fallback as `CreateMetadata` applies it to a mint that the token
/// program owns and reads as initialized and without a mint authority: a
/// signer other than the freeze authority is refused, and with no freeze
/// authority either everybody is refused, each time with `InvalidAuthority`.
/// Where the operation succeeds, the freeze authority has signed and becomes
/// the record's update authority. Where the signer is the freeze authority,
/// the operation comes to what it would come to if the freeze authority were
/// the mint authority. The record's account is taken to have the size of a
/// record, and the addresses the length of an address.
pub proof fn lemma_create_metadata_falls_back(
    program_id: Seq<u8>,
    token_program: Seq<u8>,
    system_program: Seq<u8>,
    rent: u64,
    freeze_authority: Option<Seq<u8>>,
    other_freeze_authority: Option<Seq<u8>>,
    derived: Option<(Seq<u8>, u8)>,
    accounts: Seq<AccountInfoView>,
    name: Seq<char>,
    symbol: Seq<char>,
    image: Seq<char>,
    description: Seq<char>,
)
    requires
        accounts.len() >= 5,
        accounts[2].owner == token_program,
        accounts[3].data.len() == TOKEN_METADATA_MAX_LEN,
        accounts[2].key.len() == 32,
        accounts[4].key.len() == 32,
    ensures
        ({
            let step = create_metadata_outcome(
                program_id,
                token_program,
                system_program,
                rent,
                Some((true, None, freeze_authority)),
                derived,
                accounts,
                name,
                symbol,
                image,
                description,
                false,
            );
            &&& freeze_authority is None ==> step == Step::Failed(
                ProcessError::Custom(MetadataError::InvalidAuthority),
            )
            &&& freeze_authority != Some(accounts[4].key) ==> step == Step::Failed(
                ProcessError::Custom(MetadataError::InvalidAuthority),
            )
            &&& step matches Step::Done(after) ==> {
                &&& freeze_authority == Some(accounts[4].key)
                &&& accounts[4].is_signer
                &&& unpack_metadata(after[3].data) matches Ok(m)
                &&& m.update_authority == freeze_authority
            }
            &&& freeze_authority == Some(accounts[4].key) ==> step == create_metadata_outcome(
                program_id,
                token_program,
                system_program,
                rent,
                Some((true, freeze_authority, other_freeze_authority)),
                derived,
                accounts,
                name,
                symbol,
                image,
                description,
                false,
            )
        }),
{
    let mint: Option<MintStateView> = Some((true, None, freeze_authority));
    let step = create_metadata_outcome(
        program_id,
        token_program,
        system_program,
        rent,
        mint,
        derived,
        accounts,
        name,
        symbol,
        image,
        description,
        false,
    );
    if step is Done {
        let m = TokenMetadataView {
            is_initialized: true,
            mint: accounts[2].key,
            name,
            symbol,
            image,
            description,
            update_authority: freeze_authority,
        };
        lemma_metadata_fits(m);
        lemma_metadata_survives_padding(m, accounts[3].data.len());
    }
}

/// `ReplaceAttributes` replaces: where it succeeds, the stored pairs are the
/// pairs that were given, in their order, and none of the old ones.
pub proof fn lemma_replace_attributes_replaces(
    program_id: Seq<u8>,
    accounts: Seq<AccountInfoView>,
    after: Seq<AccountInfoView>,
    data: Seq<PairView>,
)
    requires
        replace_attributes_step(program_id, accounts, data) == Step::Done(after),
    ensures
        unpack_attributes(after[0].data) matches Ok(a) && a.data == data && a.mint
            == unpack_attributes(accounts[0].data).unwrap().mint,
{
    let old = unpack_attributes(accounts[0].data).unwrap();
    lemma_attributes_taken(accounts[0].data);
    lemma_accepted_attributes(data);
    let new = TokenMetadataAttributesView { is_initialized: old.is_initialized, mint: old.mint, data };
    lemma_attributes_fits(new);
    lemma_attributes_survive_padding(new, accounts[0].data.len());
}

/// Nothing follows `MakeImmutable`. Where it has succeeded, every later
/// operation on the record that it left fails with `InvalidAuthority`:
/// `UpdateMetadata`, `TransferAuthority`, a second `MakeImmutable`,
/// `ReplaceAttributes` and `CreateAttributes`, under what
/// `lemma_immutability_is_final` takes of their accounts.
pub proof fn lemma_make_immutable_is_final(
    program_id: Seq<u8>,
    accounts: Seq<AccountInfoView>,
    after: Seq<AccountInfoView>,
    update: Seq<AccountInfoView>,
    name: Option<Seq<char>>,
    symbol: Option<Seq<char>>,
    image: Option<Seq<char>>,
    description: Option<Seq<char>>,
    transfer: Seq<AccountInfoView>,
    new_authority: Seq<u8>,
    again: Seq<AccountInfoView>,
    create: Seq<AccountInfoView>,
    replace: Seq<AccountInfoView>,
    data: Seq<PairView>,
)
    requires
        make_immutable_step(program_id, accounts) == Step::Done(after),
        update.len() >= 2 && update[0].data == after[0].data && update[1].is_signer,
        transfer.len() >= 2 && transfer[0].data == after[0].data && transfer[1].is_signer,
        again.len() >= 2 && again[0].data == after[0].data && again[1].is_signer,
        replace.len() >= 3 && replace[2].data == after[0].data && replace[1].is_signer,
        create.len() >= 6 && create[5].data == after[0].data && create[0].is_signer
            && create[4].is_signer,
        at_derived_address(attributes_pda(program_id, create[2].key), create[3]),
        unpack_metadata(after[0].data).unwrap().mint == create[2].key,
    ensures
        update_metadata_step(program_id, update, name, symbol, image, description) == Step::Failed(
            ProcessError::Custom(MetadataError::InvalidAuthority),
        ),
        transfer_authority_step(program_id, transfer, new_authority) == Step::Failed(
            ProcessError::Custom(MetadataError::InvalidAuthority),
        ),
        make_immutable_step(program_id, again) == Step::Failed(
            ProcessError::Custom(MetadataError::InvalidAuthority),
        ),
        replace_attributes_step(program_id, replace, data) == Step::Failed(
            ProcessError::Custom(MetadataError::InvalidAuthority),
        ),
        create_attributes_step(program_id, create, data) == Step::Failed(
            ProcessError::Custom(MetadataError::InvalidAuthority),
        ),
{
    lemma_make_immutable_removes_the_authority(program_id, accounts, after);
    lemma_immutability_is_final(
        program_id,
        after[0].data,
        update,
        name,
        symbol,
        image,
        description,
        transfer,
        new_authority,
        again,
        create,
        replace,
        data,
    );
}

/// What was stored in an account of the size of a record is read back from
/// it.
pub proof fn lemma_stored_metadata_reads_back(
    accounts: Seq<AccountInfoView>,
    index: int,
    m: TokenMetadataView,
    after: Seq<AccountInfoView>,
)
    requires
        0 <= index < accounts.len(),
        m.wf(),
        m.encodable(),
        accounts[index].data.len() == TOKEN_METADATA_MAX_LEN,
        store_metadata(accounts, index, m) == Step::Done(after),
    ensures
        unpack_metadata_unchecked(after[index].data) == Ok::<TokenMetadataView, ProcessError>(m),
{
    lemma_metadata_survives_padding(m, accounts[index].data.len());
    lemma_metadata_round_trip(m, Seq::empty());
}

/// `UpdateMetadata` changes the text fields that are given and nothing else:
/// the record that it leaves has the mint and the authority that it had, the
/// given texts, and the old texts where none is given.
pub proof fn lemma_update_changes_the_given_fields(
    program_id: Seq<u8>,
    accounts: Seq<AccountInfoView>,
    after: Seq<AccountInfoView>,
    name: Option<Seq<char>>,
    symbol: Option<Seq<char>>,
    image: Option<Seq<char>>,
    description: Option<Seq<char>>,
)
    requires
        update_metadata_step(program_id, accounts, name, symbol, image, description) == Step::Done(after),
    ensures
        unpack_metadata(accounts[0].data) is Ok,
        unpack_metadata(after[0].data) == Ok::<TokenMetadataView, ProcessError>(
            TokenMetadataView {
                is_initialized: true,
                mint: unpack_metadata(accounts[0].data).unwrap().mint,
                name: updated_field(unpack_metadata(accounts[0].data).unwrap().name, name),
                symbol: updated_field(unpack_metadata(accounts[0].data).unwrap().symbol, symbol),
                image: updated_field(unpack_metadata(accounts[0].data).unwrap().image, image),
                description: updated_field(
                    unpack_metadata(accounts[0].data).unwrap().description,
                    description,
                ),
                update_authority: unpack_metadata(accounts[0].data).unwrap().update_authority,
            },
        ),
{
    let m = unpack_metadata(accounts[0].data).unwrap();
    lemma_decoded_metadata_len(accounts[0].data);
    let updated = TokenMetadataView {
        is_initialized: m.is_initialized,
        mint: m.mint,
        name: updated_field(m.name, name),
        symbol: updated_field(m.symbol, symbol),
        image: updated_field(m.image, image),
        description: updated_field(m.description, description),
        update_authority: m.update_authority,
    };
    lemma_stored_metadata_reads_back(accounts, 0, updated, after);
}

/// `TransferAuthority` changes the authority and nothing else.
pub proof fn lemma_transfer_changes_the_authority(
    program_id: Seq<u8>,
    accounts: Seq<AccountInfoView>,
    after: Seq<AccountInfoView>,
    new_authority: Seq<u8>,
)
    requires
        new_authority.len() == 32,
        transfer_authority_step(program_id, accounts, new_authority) == Step::Done(after),
    ensures
        unpack_metadata(accounts[0].data) is Ok,
        unpack_metadata(after[0].data) == Ok::<TokenMetadataView, ProcessError>(
            TokenMetadataView {
                is_initialized: true,
                mint: unpack_metadata(accounts[0].data).unwrap().mint,
                name: unpack_metadata(accounts[0].data).unwrap().name,
                symbol: unpack_metadata(accounts[0].data).unwrap().symbol,
                image: unpack_metadata(accounts[0].data).unwrap().image,
                description: unpack_metadata(accounts[0].data).unwrap().description,
                update_authority: Some(new_authority),
            },
        ),
{
    let m = unpack_metadata(accounts[0].data).unwrap();
    lemma_decoded_metadata_len(accounts[0].data);
    let updated = TokenMetadataView {
        is_initialized: m.is_initialized,
        mint: m.mint,
        name: m.name,
        symbol: m.symbol,
        image: m.image,
        description: m.description,
        update_authority: Some(new_authority),
    };
    lemma_stored_metadata_reads_back(accounts, 0, updated, after);
}

/// `MakeImmutable` removes the authority and changes nothing else.
pub proof fn lemma_make_immutable_removes_the_authority(
    program_id: Seq<u8>,
    accounts: Seq<AccountInfoView>,
    after: Seq<AccountInfoView>,
)
    requires
        make_immutable_step(program_id, accounts) == Step::Done(after),
    ensures
        unpack_metadata(accounts[0].data) is Ok,
        unpack_metadata(after[0].data) == Ok::<TokenMetadataView, ProcessError>(
            TokenMetadataView {
                is_initialized: true,
                mint: unpack_metadata(accounts[0].data).unwrap().mint,
                name: unpack_metadata(accounts[0].data).unwrap().name,
                symbol: unpack_metadata(accounts[0].data).unwrap().symbol,
                image: unpack_metadata(accounts[0].data).unwrap().image,
                description: unpack_metadata(accounts[0].data).unwrap().description,
                update_authority: None,
            },
        ),
{
    let m = unpack_metadata(accounts[0].data).unwrap();
    lemma_decoded_metadata_len(accounts[0].data);
    let updated = TokenMetadataView {
        is_initialized: m.is_initialized,
        mint: m.mint,
        name: m.name,
        symbol: m.symbol,
        image: m.image,
        description: m.description,
        update_authority: None,
    };
    lemma_stored_metadata_reads_back(accounts, 0, updated, after);
}

/// The account as the account store leaves it when it has done what a
/// request asks: owned by the requested owner, and of the requested number of
/// zero bytes.
pub open spec fn created(account: AccountInfoView, owner: Seq<u8>, space: u64) -> AccountInfoView {
    AccountInfoView {
        key: account.key,
        owner,
        is_signer: account.is_signer,
        data: Seq::new(space as nat, |i: int| 0u8),
    }
}

/// `CreateMetadata` asks once. Where it has asked for the record's account
/// and the account store has created the account as asked, the same
/// operation succeeds. The mint's address is taken to have the length of an
/// address.
pub proof fn lemma_create_metadata_asks_once(
    program_id: Seq<u8>,
    accounts: Seq<AccountInfoView>,
    request: CreateAccountRequestView,
    name: Seq<char>,
    symbol: Seq<char>,
    image: Seq<char>,
    description: Seq<char>,
    immutable: bool,
)
    requires
        create_metadata_step(program_id, accounts, name, symbol, image, description, immutable)
            == Step::NeedsAccount(request),
        accounts[2].key.len() == 32,
        accounts[4].key.len() == 32,
    ensures
        request.new_account == accounts[3].key,
        request.owner == program_id,
        request.space == TOKEN_METADATA_MAX_LEN,
        create_metadata_step(
            program_id,
            accounts.update(3, created(accounts[3], request.owner, request.space)),
            name,
            symbol,
            image,
            description,
            immutable,
        ) is Done,
{
    let authority = matched_authority(
        crate::ledger::mint_state(accounts[2].data).unwrap().1,
        crate::ledger::mint_state(accounts[2].data).unwrap().2,
        accounts[4].key,
        accounts[4].is_signer,
    );
    let m = TokenMetadataView {
        is_initialized: true,
        mint: accounts[2].key,
        name,
        symbol,
        image,
        description,
        update_authority: if immutable {
            None
        } else {
            authority
        },
    };
    lemma_metadata_fits(m);
}

/// `CreateAttributes` asks once. Where it has asked for the attributes'
/// account and the account store has created the account as asked, the same
/// operation succeeds.
pub proof fn lemma_create_attributes_asks_once(
    program_id: Seq<u8>,
    accounts: Seq<AccountInfoView>,
    request: CreateAccountRequestView,
    data: Seq<PairView>,
)
    requires
        create_attributes_step(program_id, accounts, data) == Step::NeedsAccount(request),
    ensures
        request.new_account == accounts[3].key,
        request.owner == program_id,
        request.space == TOKEN_METADATA_ATTRIBUTES_MAX_LEN,
        create_attributes_step(
            program_id,
            accounts.update(3, created(accounts[3], request.owner, request.space)),
            data,
        ) is Done,
{
}

/// The registry runs the operation that was encoded: on the bytes of an
/// operation, `process` comes to what the operation comes to.
pub proof fn lemma_process_runs_what_was_encoded(
    program_id: Seq<u8>,
    accounts: Seq<AccountInfoView>,
    instruction: MetadataInstructionView,
)
    requires
        instruction.wf(),
        instruction.encodable(),
    ensures
        process_step(program_id, accounts, instruction.encode()) == instruction_step(
            program_id,
            accounts,
            instruction,
        ),
{
    lemma_instruction_round_trip(instruction);
}

/// The first byte of an account is the flag of the record that it holds:
/// bytes that are read as a record start with a byte other than zero exactly
/// when the record has been created.
pub proof fn lemma_first_byte_is_the_flag(data: Seq<u8>)
    ensures
        decode_metadata(data) matches Some(m) ==> (m.is_initialized <==> data[0] != 0),
        decode_attributes(data) matches Some(a) ==> (a.is_initialized <==> data[0] != 0),
{
}

/// A builder refuses a payload exactly when the registry would refuse it for
/// its size.
pub proof fn lemma_client_refuses_what_the_registry_refuses(
    name: Seq<char>,
    symbol: Seq<char>,
    image: Seq<char>,
    description: Seq<char>,
    optional_name: Option<Seq<char>>,
    optional_symbol: Option<Seq<char>>,
    optional_image: Option<Seq<char>>,
    optional_description: Option<Seq<char>>,
    data: Seq<PairView>,
)
    ensures
        metadata_fields_error(name, symbol, image, description) is None <==> metadata_fields_ok(
            name,
            symbol,
            image,
            description,
        ),
        optional_metadata_fields_error(
            optional_name,
            optional_symbol,
            optional_image,
            optional_description,
        ) is None <==> optional_metadata_fields_ok(
            optional_name,
            optional_symbol,
            optional_image,
            optional_description,
        ),
        attributes_refusal(data) is None <==> attributes_error(data) is None,
{
    lemma_same_pairs_are_faulty(data);
}

/// The two validations find a fault in the same batches of pairs.
proof fn lemma_same_pairs_are_faulty(ps: Seq<PairView>)
    ensures
        first_attribute_error(ps) is None <==> pairs_error(ps) is None,
    decreases ps.len(),
{
    if ps.len() > 0 {
        lemma_same_pairs_are_faulty(ps.drop_first());
    }
}

/// A record is changed only where it belongs. Where `UpdateMetadata`,
/// `TransferAuthority` or `MakeImmutable` succeeds, the account that it has
/// written is owned by the registry and is at the address that the ledger
/// derives for the record of the mint that the record names.
pub proof fn lemma_records_change_only_in_place(
    program_id: Seq<u8>,
    accounts: Seq<AccountInfoView>,
    name: Option<Seq<char>>,
    symbol: Option<Seq<char>>,
    image: Option<Seq<char>>,
    description: Option<Seq<char>>,
    new_authority: Seq<u8>,
)
    requires
        update_metadata_step(program_id, accounts, name, symbol, image, description) is Done
            || transfer_authority_step(program_id, accounts, new_authority) is Done
            || make_immutable_step(program_id, accounts) is Done,
    ensures
        accounts[0].owner == program_id,
        unpack_metadata(accounts[0].data) is Ok,
        metadata_pda(program_id, unpack_metadata(accounts[0].data).unwrap().mint) is Some,
        metadata_pda(program_id, unpack_metadata(accounts[0].data).unwrap().mint).unwrap().0
            == accounts[0].key,
{
}

/// A record at another address is refused, and so is one that the registry
/// does not own: whoever signs and whatever is asked, `UpdateMetadata`,
/// `TransferAuthority` and `MakeImmutable` fail on it and write nothing.
pub proof fn lemma_misplaced_record_is_refused(
    program_id: Seq<u8>,
    accounts: Seq<AccountInfoView>,
    name: Option<Seq<char>>,
    symbol: Option<Seq<char>>,
    image: Option<Seq<char>>,
    description: Option<Seq<char>>,
    new_authority: Seq<u8>,
)
    requires
        accounts.len() >= 1,
        accounts[0].owner != program_id || !at_derived_address(
            record_address(program_id, accounts, 0),
            accounts[0],
        ),
    ensures
        update_metadata_step(program_id, accounts, name, symbol, image, description) is Failed,
        transfer_authority_step(program_id, accounts, new_authority) is Failed,
        make_immutable_step(program_id, accounts) is Failed,
{
}

/// The one who signs a misplaced record's authority is told what is wrong
/// with the account: `InvalidSeeds` for a record that is not at its derived
/// address, and `InvalidAccountOwner` for one that is but that the registry
/// does not own.
pub proof fn lemma_misplaced_record_is_named(
    program_id: Seq<u8>,
    accounts: Seq<AccountInfoView>,
    name: Option<Seq<char>>,
    symbol: Option<Seq<char>>,
    image: Option<Seq<char>>,
    description: Option<Seq<char>>,
)
    requires
        accounts.len() >= 2,
        accounts[1].is_signer,
        unpack_metadata(accounts[0].data) matches Ok(m) && m.update_authority == Some(
            accounts[1].key,
        ),
    ensures
        !at_derived_address(record_address(program_id, accounts, 0), accounts[0])
            ==> update_metadata_step(program_id, accounts, name, symbol, image, description)
            == Step::Failed(ProcessError::InvalidSeeds),
        at_derived_address(record_address(program_id, accounts, 0), accounts[0])
            && accounts[0].owner != program_id ==> update_metadata_step(
            program_id,
            accounts,
            name,
            symbol,
            image,
            description,
        ) == Step::Failed(ProcessError::InvalidAccountOwner),
{
}

/// Attributes are attached and replaced only under a record that is where it
/// belongs. Where `CreateAttributes` or `ReplaceAttributes` does not fail,
/// the account of the record that it was given is owned by the registry and
/// is at the address that the ledger derives for the record of the mint that
/// the record names; a record that was made up elsewhere is refused.
pub proof fn lemma_attributes_need_the_record_in_place(
    program_id: Seq<u8>,
    create: Seq<AccountInfoView>,
    replace: Seq<AccountInfoView>,
    data: Seq<PairView>,
)
    ensures
        !(create_attributes_step(program_id, create, data) is Failed) ==> {
            &&& create[5].owner == program_id
            &&& unpack_metadata(create[5].data) is Ok
            &&& at_derived_address(
                metadata_pda(program_id, unpack_metadata(create[5].data).unwrap().mint),
                create[5],
            )
        },
        !(replace_attributes_step(program_id, replace, data) is Failed) ==> {
            &&& replace[2].owner == program_id
            &&& replace[0].owner == program_id
            &&& unpack_metadata(replace[2].data) is Ok
            &&& at_derived_address(
                metadata_pda(program_id, unpack_metadata(replace[2].data).unwrap().mint),
                replace[2],
            )
            &&& at_derived_address(
                attributes_pda(program_id, unpack_metadata(replace[2].data).unwrap().mint),
                replace[0],
            )
        },
{
}

/// The authority of a record that is where it belongs is served. Where the
/// authority has signed, and the record's account is owned by the registry
/// and at its derived address, `TransferAuthority` and `MakeImmutable`
/// succeed, and `UpdateMetadata` succeeds with fields within their caps on a
/// record that is within its caps.
pub proof fn lemma_authorized_changes_succeed(
    program_id: Seq<u8>,
    accounts: Seq<AccountInfoView>,
    name: Option<Seq<char>>,
    symbol: Option<Seq<char>>,
    image: Option<Seq<char>>,
    description: Option<Seq<char>>,
    new_authority: Seq<u8>,
)
    requires
        accounts.len() >= 2,
        accounts[1].is_signer,
        unpack_metadata(accounts[0].data) matches Ok(m) && m.update_authority == Some(
            accounts[1].key,
        ),
        accounts[0].owner == program_id,
        at_derived_address(record_address(program_id, accounts, 0), accounts[0]),
        new_authority.len() == 32,
    ensures
        transfer_authority_step(program_id, accounts, new_authority) is Done,
        make_immutable_step(program_id, accounts) is Done,
        optional_metadata_fields_ok(name, symbol, image, description) && unpack_metadata(
            accounts[0].data,
        ).unwrap().within_caps() ==> update_metadata_step(
            program_id,
            accounts,
            name,
            symbol,
            image,
            description,
        ) is Done,
{
    let m = unpack_metadata(accounts[0].data).unwrap();
    lemma_decoded_metadata_len(accounts[0].data);
    if optional_metadata_fields_ok(name, symbol, image, description) && m.within_caps() {
        let updated = TokenMetadataView {
            is_initialized: m.is_initialized,
            mint: m.mint,
            name: updated_field(m.name, name),
            symbol: updated_field(m.symbol, symbol),
            image: updated_field(m.image, image),
            description: updated_field(m.description, description),
            update_authority: m.update_authority,
        };
        lemma_metadata_fits(updated);
    }
}

} // verus!
