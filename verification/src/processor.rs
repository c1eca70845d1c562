//! The six operations of the registry.
//!
//! Every operation checks before it writes: it fails on the first check that
//! does not pass and has then changed no account. An operation that succeeds
//! has written the bytes of exactly one account.
//!
//! A record counts only where it belongs. Every operation derives the
//! address of each record that it reads or writes from the mint that the
//! record names, and refuses a record whose account is at another address or
//! is not owned by the registry. Bytes that look like a record give no right
//! to anything in any other account.
//!
//! What an operation comes to is given twice: as a function on mathematical
//! values (the `*_step` functions), and as an executable function that is
//! proved to come to the same.

use vstd::prelude::*;

use crate::account::{
    accounts_view, step_of, store_record, AccountInfo, AccountInfoView, CreateAccountRequest,
    CreateAccountRequestView, Outcome, RecordKind, Step,
};
use crate::address::Address;
use crate::attributes_pda;
use crate::authority::{
    check_update_authority, is_update_authority, matched_authority, resolve_authority,
};
use crate::error::{MetadataError, ProcessError};
use crate::instruction::{decode_instruction, MetadataInstruction, MetadataInstructionView};
use crate::ledger::{
    derived_view, minimum_rent, minimum_rent_spec, mint_state, option_mint_view,
    system_program_bytes, system_program_id, token_program_bytes, token_program_id, unpack_mint,
    MintState, MintStateView,
};
use crate::metadata_pda;
use crate::state::{
    lemma_attributes_fits, lemma_attributes_taken, lemma_decoded_metadata_len,
    lemma_metadata_round_trip, unpack_attributes, unpack_metadata, unpack_metadata_unchecked,
    TokenMetadata, TokenMetadataAttributes, TokenMetadataAttributesView, TokenMetadataView,
    TOKEN_METADATA_ATTRIBUTES_MAX_LEN, TOKEN_METADATA_MAX_LEN,
};
use crate::validation::{
    attributes_error, lemma_accepted_attributes, metadata_fields_ok, optional_metadata_fields_ok,
    check_attributes, check_metadata_fields, check_optional_metadata_fields,
};
use crate::wire::{option_string_view, pairs_view, zero_padded, PairView};
use crate::try_find_attributes_pda_with_program;
use crate::try_find_metadata_pda_with_program;

verus! {

/// The handler of the registry's operations.
pub struct Processor {}

/// The accounts after the record `m` has been written to the account at
/// position `index`, or the failure where that account is too small for it.
pub open spec fn store_metadata(accounts: Seq<AccountInfoView>, index: int, m: TokenMetadataView)
    -> Step {
    if m.encoded_len() > accounts[index].data.len() {
        Step::Failed(ProcessError::InvalidAccountData)
    } else {
        Step::Done(
            accounts.update(
                index,
                accounts[index].with_data(zero_padded(m.encode(), accounts[index].data.len())),
            ),
        )
    }
}

/// The mint that the record in the account at position `index` names, where
/// that account holds a record.
pub open spec fn named_mint(accounts: Seq<AccountInfoView>, index: int) -> Option<Seq<u8>> {
    if index < 0 || accounts.len() <= index {
        None
    } else {
        match unpack_metadata_unchecked(accounts[index].data) {
            Ok(m) => Some(m.mint),
            Err(_) => None,
        }
    }
}

/// The address that the ledger derives for the record in the account at
/// position `index`: the address of the record of the mint that the record
/// itself names.
pub open spec fn record_address(program_id: Seq<u8>, accounts: Seq<AccountInfoView>, index: int)
    -> Option<(Seq<u8>, u8)> {
    match named_mint(accounts, index) {
        Some(mint) => metadata_pda(program_id, mint),
        None => None,
    }
}

/// Why `account` is not taken as the account of a record, if it is not: it
/// is not at the address `derived` for the record, or else the registry does
/// not own it.
pub open spec fn record_account_error(
    program_id: Seq<u8>,
    derived: Option<(Seq<u8>, u8)>,
    account: AccountInfoView,
) -> Option<ProcessError> {
    if !at_derived_address(derived, account) {
        Some(ProcessError::InvalidSeeds)
    } else if account.owner != program_id {
        Some(ProcessError::InvalidAccountOwner)
    } else {
        None
    }
}

/// The record that a signer may change: the record in the first account,
/// where the second account has signed and is the record's authority, and
/// the first account is the registry's and at the address `derived` for the
/// record.
pub open spec fn authorized_metadata(
    program_id: Seq<u8>,
    derived: Option<(Seq<u8>, u8)>,
    accounts: Seq<AccountInfoView>,
) -> Result<TokenMetadataView, ProcessError> {
    if accounts.len() < 2 {
        Err(ProcessError::NotEnoughAccountKeys)
    } else if !accounts[1].is_signer {
        Err(ProcessError::MissingRequiredSignature)
    } else {
        match unpack_metadata(accounts[0].data) {
            Err(e) => Err(e),
            Ok(m) => if !is_update_authority(m.update_authority, accounts[1].key) {
                Err(ProcessError::Custom(MetadataError::InvalidAuthority))
            } else if record_account_error(program_id, derived, accounts[0]) is Some {
                Err(record_account_error(program_id, derived, accounts[0]).unwrap())
            } else {
                Ok(m)
            },
        }
    }
}

/// A field after a change: the new text where one is given, else the old.
pub open spec fn updated_field(old: Seq<char>, new: Option<Seq<char>>) -> Seq<char> {
    match new {
        Some(s) => s,
        None => old,
    }
}

/// What `UpdateMetadata` comes to, given the address `derived` for the
/// record of the mint that the record in the first account names.
pub open spec fn update_metadata_outcome(
    program_id: Seq<u8>,
    derived: Option<(Seq<u8>, u8)>,
    accounts: Seq<AccountInfoView>,
    name: Option<Seq<char>>,
    symbol: Option<Seq<char>>,
    image: Option<Seq<char>>,
    description: Option<Seq<char>>,
) -> Step {
    match authorized_metadata(program_id, derived, accounts) {
        Err(e) => Step::Failed(e),
        Ok(m) => if !optional_metadata_fields_ok(name, symbol, image, description) {
            Step::Failed(ProcessError::Custom(MetadataError::StringTooLong))
        } else {
            store_metadata(
                accounts,
                0,
                TokenMetadataView {
                    is_initialized: m.is_initialized,
                    mint: m.mint,
                    name: updated_field(m.name, name),
                    symbol: updated_field(m.symbol, symbol),
                    image: updated_field(m.image, image),
                    description: updated_field(m.description, description),
                    update_authority: m.update_authority,
                },
            )
        },
    }
}

/// What `UpdateMetadata` comes to.
pub open spec fn update_metadata_step(
    program_id: Seq<u8>,
    accounts: Seq<AccountInfoView>,
    name: Option<Seq<char>>,
    symbol: Option<Seq<char>>,
    image: Option<Seq<char>>,
    description: Option<Seq<char>>,
) -> Step {
    update_metadata_outcome(
        program_id,
        record_address(program_id, accounts, 0),
        accounts,
        name,
        symbol,
        image,
        description,
    )
}

/// What `TransferAuthority` comes to, given the address `derived` for the
/// record of the mint that the record in the first account names.
pub open spec fn transfer_authority_outcome(
    program_id: Seq<u8>,
    derived: Option<(Seq<u8>, u8)>,
    accounts: Seq<AccountInfoView>,
    new_authority: Seq<u8>,
) -> Step {
    match authorized_metadata(program_id, derived, accounts) {
        Err(e) => Step::Failed(e),
        Ok(m) => store_metadata(
            accounts,
            0,
            TokenMetadataView {
                is_initialized: m.is_initialized,
                mint: m.mint,
                name: m.name,
                symbol: m.symbol,
                image: m.image,
                description: m.description,
                update_authority: Some(new_authority),
            },
        ),
    }
}

/// What `TransferAuthority` comes to.
pub open spec fn transfer_authority_step(
    program_id: Seq<u8>,
    accounts: Seq<AccountInfoView>,
    new_authority: Seq<u8>,
) -> Step {
    transfer_authority_outcome(
        program_id,
        record_address(program_id, accounts, 0),
        accounts,
        new_authority,
    )
}

/// What `MakeImmutable` comes to, given the address `derived` for the record
/// of the mint that the record in the first account names.
pub open spec fn make_immutable_outcome(
    program_id: Seq<u8>,
    derived: Option<(Seq<u8>, u8)>,
    accounts: Seq<AccountInfoView>,
) -> Step {
    match authorized_metadata(program_id, derived, accounts) {
        Err(e) => Step::Failed(e),
        Ok(m) => store_metadata(
            accounts,
            0,
            TokenMetadataView {
                is_initialized: m.is_initialized,
                mint: m.mint,
                name: m.name,
                symbol: m.symbol,
                image: m.image,
                description: m.description,
                update_authority: None,
            },
        ),
    }
}

/// What `MakeImmutable` comes to.
pub open spec fn make_immutable_step(program_id: Seq<u8>, accounts: Seq<AccountInfoView>) -> Step {
    make_immutable_outcome(program_id, record_address(program_id, accounts, 0), accounts)
}

/// The address that was derived for a record is the address of `account`.
pub open spec fn at_derived_address(derived: Option<(Seq<u8>, u8)>, account: AccountInfoView)
    -> bool {
    derived matches Some(d) && d.0 == account.key
}

/// Whether an account holds something already: its first byte is not zero.
pub open spec fn in_use(account: AccountInfoView) -> bool {
    account.data.len() > 0 && account.data[0] != 0
}

/// What `CreateMetadata` comes to, given what the ledger's libraries say:
/// the addresses of the token program and of the system program, the balance
/// `rent` that the record's account has to hold, the mint that the token
/// program reads from the third account, and the address derived for the
/// record of that mint.
pub open spec fn create_metadata_outcome(
    program_id: Seq<u8>,
    token_program: Seq<u8>,
    system_program: Seq<u8>,
    rent: u64,
    mint: Option<MintStateView>,
    derived: Option<(Seq<u8>, u8)>,
    accounts: Seq<AccountInfoView>,
    name: Seq<char>,
    symbol: Seq<char>,
    image: Seq<char>,
    description: Seq<char>,
    immutable: bool,
) -> Step {
    if accounts.len() < 5 {
        Step::Failed(ProcessError::NotEnoughAccountKeys)
    } else if accounts[2].owner != token_program {
        Step::Failed(ProcessError::Custom(MetadataError::InvalidMint))
    } else if mint is None || !mint.unwrap().0 {
        Step::Failed(ProcessError::Custom(MetadataError::InvalidMint))
    } else {
        let authority = matched_authority(
            mint.unwrap().1,
            mint.unwrap().2,
            accounts[4].key,
            accounts[4].is_signer,
        );
        if authority is None {
            Step::Failed(ProcessError::Custom(MetadataError::InvalidAuthority))
        } else if !at_derived_address(derived, accounts[3]) {
            Step::Failed(ProcessError::InvalidSeeds)
        } else if !metadata_fields_ok(name, symbol, image, description) {
            Step::Failed(ProcessError::Custom(MetadataError::StringTooLong))
        } else if accounts[3].owner != program_id {
            if accounts[1].key != system_program {
                Step::Failed(ProcessError::IncorrectProgramId)
            } else if !accounts[0].is_signer {
                Step::Failed(ProcessError::MissingRequiredSignature)
            } else {
                Step::NeedsAccount(
                    CreateAccountRequestView {
                        payer: accounts[0].key,
                        new_account: accounts[3].key,
                        lamports: rent,
                        space: TOKEN_METADATA_MAX_LEN as u64,
                        owner: program_id,
                        kind: RecordKind::Metadata,
                        mint: accounts[2].key,
                        bump: derived.unwrap().1,
                    },
                )
            }
        } else if in_use(accounts[3]) {
            Step::Failed(ProcessError::Custom(MetadataError::MetadataAlreadyExists))
        } else {
            store_metadata(
                accounts,
                3,
                TokenMetadataView {
                    is_initialized: true,
                    mint: accounts[2].key,
                    name,
                    symbol,
                    image,
                    description,
                    update_authority: if immutable {
                        None
                    } else {
                        authority
                    },
                },
            )
        }
    }
}

/// What `CreateMetadata` comes to.
pub open spec fn create_metadata_step(
    program_id: Seq<u8>,
    accounts: Seq<AccountInfoView>,
    name: Seq<char>,
    symbol: Seq<char>,
    image: Seq<char>,
    description: Seq<char>,
    immutable: bool,
) -> Step {
    if accounts.len() < 5 {
        Step::Failed(ProcessError::NotEnoughAccountKeys)
    } else {
        create_metadata_outcome(
            program_id,
            token_program_bytes(),
            system_program_bytes(),
            minimum_rent_spec(TOKEN_METADATA_MAX_LEN as nat) as u64,
            mint_state(accounts[2].data),
            metadata_pda(program_id, accounts[2].key),
            accounts,
            name,
            symbol,
            image,
            description,
            immutable,
        )
    }
}

/// The accounts after the attributes `a` have been written to the account at
/// position `index`.
pub open spec fn store_attributes(
    accounts: Seq<AccountInfoView>,
    index: int,
    a: TokenMetadataAttributesView,
) -> Step {
    Step::Done(
        accounts.update(
            index,
            accounts[index].with_data(zero_padded(a.encode(), accounts[index].data.len())),
        ),
    )
}

/// What `CreateAttributes` comes to, given what the ledger's libraries say:
/// the address of the system program, the balance `rent` that the
/// attributes' account has to hold, and the addresses derived for the record
/// (`derived_record`) and for the attributes (`derived`) of the mint in the
/// third account.
pub open spec fn create_attributes_outcome(
    program_id: Seq<u8>,
    system_program: Seq<u8>,
    rent: u64,
    derived_record: Option<(Seq<u8>, u8)>,
    derived: Option<(Seq<u8>, u8)>,
    accounts: Seq<AccountInfoView>,
    data: Seq<PairView>,
) -> Step {
    if accounts.len() < 6 {
        Step::Failed(ProcessError::NotEnoughAccountKeys)
    } else if !accounts[0].is_signer || !accounts[4].is_signer {
        Step::Failed(ProcessError::MissingRequiredSignature)
    } else if !at_derived_address(derived, accounts[3]) {
        Step::Failed(ProcessError::InvalidSeeds)
    } else {
        match unpack_metadata(accounts[5].data) {
            Err(_) => Step::Failed(ProcessError::InvalidAccountData),
            Ok(m) => if m.mint != accounts[2].key {
                Step::Failed(ProcessError::InvalidAccountData)
            } else if !is_update_authority(m.update_authority, accounts[4].key) {
                Step::Failed(ProcessError::Custom(MetadataError::InvalidAuthority))
            } else if record_account_error(program_id, derived_record, accounts[5]) is Some {
                Step::Failed(record_account_error(program_id, derived_record, accounts[5]).unwrap())
            } else if attributes_error(data) is Some {
                Step::Failed(ProcessError::Custom(attributes_error(data).unwrap()))
            } else if accounts[3].owner != program_id {
                if accounts[1].key != system_program {
                    Step::Failed(ProcessError::IncorrectProgramId)
                } else {
                    Step::NeedsAccount(
                        CreateAccountRequestView {
                            payer: accounts[0].key,
                            new_account: accounts[3].key,
                            lamports: rent,
                            space: TOKEN_METADATA_ATTRIBUTES_MAX_LEN as u64,
                            owner: program_id,
                            kind: RecordKind::Attributes,
                            mint: accounts[2].key,
                            bump: derived.unwrap().1,
                        },
                    )
                }
            } else if accounts[3].data.len() != TOKEN_METADATA_ATTRIBUTES_MAX_LEN {
                Step::Failed(ProcessError::InvalidAccountData)
            } else if in_use(accounts[3]) {
                Step::Failed(ProcessError::Custom(MetadataError::MetadataAlreadyExists))
            } else {
                store_attributes(
                    accounts,
                    3,
                    TokenMetadataAttributesView {
                        is_initialized: true,
                        mint: accounts[2].key,
                        data,
                    },
                )
            },
        }
    }
}

/// What `CreateAttributes` comes to.
pub open spec fn create_attributes_step(
    program_id: Seq<u8>,
    accounts: Seq<AccountInfoView>,
    data: Seq<PairView>,
) -> Step {
    if accounts.len() < 6 {
        Step::Failed(ProcessError::NotEnoughAccountKeys)
    } else {
        create_attributes_outcome(
            program_id,
            system_program_bytes(),
            minimum_rent_spec(TOKEN_METADATA_ATTRIBUTES_MAX_LEN as nat) as u64,
            metadata_pda(program_id, accounts[2].key),
            attributes_pda(program_id, accounts[2].key),
            accounts,
            data,
        )
    }
}

/// What `ReplaceAttributes` comes to, given the addresses that the ledger's
/// library derives for the record (`derived_record`) and for the attributes
/// (`derived`) of the mint that the record in the third account names.
pub open spec fn replace_attributes_outcome(
    program_id: Seq<u8>,
    derived_record: Option<(Seq<u8>, u8)>,
    derived: Option<(Seq<u8>, u8)>,
    accounts: Seq<AccountInfoView>,
    data: Seq<PairView>,
) -> Step {
    if accounts.len() < 3 {
        Step::Failed(ProcessError::NotEnoughAccountKeys)
    } else if !accounts[1].is_signer {
        Step::Failed(ProcessError::MissingRequiredSignature)
    } else {
        match unpack_metadata(accounts[2].data) {
            Err(e) => Step::Failed(e),
            Ok(m) => if !is_update_authority(m.update_authority, accounts[1].key) {
                Step::Failed(ProcessError::Custom(MetadataError::InvalidAuthority))
            } else if record_account_error(program_id, derived_record, accounts[2]) is Some {
                Step::Failed(record_account_error(program_id, derived_record, accounts[2]).unwrap())
            } else if !at_derived_address(derived, accounts[0]) {
                Step::Failed(ProcessError::InvalidSeeds)
            } else {
                match unpack_attributes(accounts[0].data) {
                    Err(e) => Step::Failed(e),
                    Ok(a) => if accounts[0].owner != program_id {
                        Step::Failed(ProcessError::InvalidAccountOwner)
                    } else if attributes_error(data) is Some {
                        Step::Failed(ProcessError::Custom(attributes_error(data).unwrap()))
                    } else {
                        store_attributes(
                            accounts,
                            0,
                            TokenMetadataAttributesView {
                                is_initialized: a.is_initialized,
                                mint: a.mint,
                                data,
                            },
                        )
                    },
                }
            },
        }
    }
}

/// What `ReplaceAttributes` comes to. Both addresses are derived from the
/// mint that the record itself names.
pub open spec fn replace_attributes_step(
    program_id: Seq<u8>,
    accounts: Seq<AccountInfoView>,
    data: Seq<PairView>,
) -> Step {
    replace_attributes_outcome(
        program_id,
        record_address(program_id, accounts, 2),
        match named_mint(accounts, 2) {
            Some(mint) => attributes_pda(program_id, mint),
            None => None,
        },
        accounts,
        data,
    )
}

/// What an operation comes to, whichever it is.
pub open spec fn instruction_step(
    program_id: Seq<u8>,
    accounts: Seq<AccountInfoView>,
    instruction: MetadataInstructionView,
) -> Step {
    match instruction {
        MetadataInstructionView::CreateMetadata { name, symbol, image, description, immutable } => {
            create_metadata_step(program_id, accounts, name, symbol, image, description, immutable)
        },
        MetadataInstructionView::UpdateMetadata { name, symbol, image, description } => {
            update_metadata_step(program_id, accounts, name, symbol, image, description)
        },
        MetadataInstructionView::CreateAttributes { data } => {
            create_attributes_step(program_id, accounts, data)
        },
        MetadataInstructionView::ReplaceAttributes { data } => {
            replace_attributes_step(program_id, accounts, data)
        },
        MetadataInstructionView::TransferAuthority { new_authority } => {
            transfer_authority_step(program_id, accounts, new_authority)
        },
        MetadataInstructionView::MakeImmutable => make_immutable_step(program_id, accounts),
    }
}

/// What the operation that `instruction_data` encodes comes to.
pub open spec fn process_step(
    program_id: Seq<u8>,
    accounts: Seq<AccountInfoView>,
    instruction_data: Seq<u8>,
) -> Step {
    match decode_instruction(instruction_data) {
        None => Step::Failed(ProcessError::InvalidInstructionData),
        Some(instruction) => instruction_step(program_id, accounts, instruction),
    }
}

impl Processor {
    /// Runs the operation that `instruction_data` encodes on `accounts`.
    ///
    /// The accounts of each operation are listed with it, in the order in
    /// which the operation expects them.
    pub fn process(program_id: &Address, accounts: &mut Vec<AccountInfo>, instruction_data: &[u8])
        -> (r: Result<Outcome, ProcessError>)
        ensures
            step_of(r, final(accounts)@) == process_step(
                program_id@,
                accounts_view(old(accounts)@),
                instruction_data@,
            ),
            !(r matches Ok(Outcome::Done)) ==> final(accounts)@ == old(accounts)@,
    {
        let instruction = MetadataInstruction::unpack(instruction_data)?;
        Self::process_instruction(program_id, accounts, instruction)
    }

    /// Runs `instruction` on `accounts`.
    pub fn process_instruction(
        program_id: &Address,
        accounts: &mut Vec<AccountInfo>,
        instruction: MetadataInstruction,
    ) -> (r: Result<Outcome, ProcessError>)
        ensures
            step_of(r, final(accounts)@) == instruction_step(
                program_id@,
                accounts_view(old(accounts)@),
                instruction@,
            ),
            !(r matches Ok(Outcome::Done)) ==> final(accounts)@ == old(accounts)@,
    {
        match instruction {
            MetadataInstruction::CreateMetadata { name, symbol, image, description, immutable } => {
                Self::process_create_metadata(
                    program_id,
                    accounts,
                    name,
                    symbol,
                    image,
                    description,
                    immutable,
                )
            },
            MetadataInstruction::UpdateMetadata { name, symbol, image, description } => {
                Self::process_update_metadata(program_id, accounts, name, symbol, image, description)
            },
            MetadataInstruction::CreateAttributes { data } => {
                Self::process_create_attributes(program_id, accounts, data)
            },
            MetadataInstruction::ReplaceAttributes { data } => {
                Self::process_replace_attributes(program_id, accounts, data)
            },
            MetadataInstruction::TransferAuthority { new_authority } => {
                Self::process_transfer_authority(program_id, accounts, new_authority)
            },
            MetadataInstruction::MakeImmutable => Self::process_make_immutable(program_id, accounts),
        }
    }

    /// `CreateMetadata`: an authority of a mint creates the mint's record.
    ///
    /// Accounts: the payer, which signs where the record's account has to be
    /// created; the system program; the mint; the record's account; the mint
    /// authority, or the freeze authority of a mint without one, which signs.
    pub fn process_create_metadata(
        program_id: &Address,
        accounts: &mut Vec<AccountInfo>,
        name: String,
        symbol: String,
        image: String,
        description: String,
        immutable: bool,
    ) -> (r: Result<Outcome, ProcessError>)
        ensures
            step_of(r, final(accounts)@) == create_metadata_step(
                program_id@,
                accounts_view(old(accounts)@),
                name@,
                symbol@,
                image@,
                description@,
                immutable,
            ),
            !(r matches Ok(Outcome::Done)) ==> final(accounts)@ == old(accounts)@,
    {
        if accounts.len() < 5 {
            return Err(ProcessError::NotEnoughAccountKeys);
        }
        let token_program = token_program_id();
        let system_program = system_program_id();
        let rent = minimum_rent(TOKEN_METADATA_MAX_LEN);
        let mint = unpack_mint(accounts[2].data.as_slice());
        let derived = try_find_metadata_pda_with_program(program_id, &accounts[2].key);
        Self::create_metadata(
            program_id,
            &token_program,
            &system_program,
            rent,
            mint,
            derived,
            accounts,
            name,
            symbol,
            image,
            description,
            immutable,
        )
    }

    /// `CreateMetadata` once the ledger's libraries have been asked: `mint`
    /// is what the token program reads from the third account, and `derived`
    /// the address derived for the record of that mint.
    pub fn create_metadata(
        program_id: &Address,
        token_program: &Address,
        system_program: &Address,
        rent: u64,
        mint: Option<MintState>,
        derived: Option<(Address, u8)>,
        accounts: &mut Vec<AccountInfo>,
        name: String,
        symbol: String,
        image: String,
        description: String,
        immutable: bool,
    ) -> (r: Result<Outcome, ProcessError>)
        ensures
            step_of(r, final(accounts)@) == create_metadata_outcome(
                program_id@,
                token_program@,
                system_program@,
                rent,
                option_mint_view(mint),
                derived_view(derived),
                accounts_view(old(accounts)@),
                name@,
                symbol@,
                image@,
                description@,
                immutable,
            ),
            !(r matches Ok(Outcome::Done)) ==> final(accounts)@ == old(accounts)@,
    {
        if accounts.len() < 5 {
            return Err(ProcessError::NotEnoughAccountKeys);
        }
        if accounts[2].owner != *token_program {
            return Err(ProcessError::Custom(MetadataError::InvalidMint));
        }
        let mint = match mint {
            Some(m) => m,
            None => {
                return Err(ProcessError::Custom(MetadataError::InvalidMint));
            },
        };
        if !mint.is_initialized {
            return Err(ProcessError::Custom(MetadataError::InvalidMint));
        }
        let matched = match resolve_authority(
            &mint.mint_authority,
            &mint.freeze_authority,
            &accounts[4].key,
            accounts[4].is_signer,
        ) {
            Ok(a) => a,
            Err(e) => {
                return Err(ProcessError::Custom(e));
            },
        };
        let bump = match derived {
            Some((expected, bump)) => {
                if expected != accounts[3].key {
                    return Err(ProcessError::InvalidSeeds);
                }
                bump
            },
            None => {
                return Err(ProcessError::InvalidSeeds);
            },
        };
        match check_metadata_fields(
            name.as_str(),
            symbol.as_str(),
            image.as_str(),
            description.as_str(),
        ) {
            Ok(_) => {},
            Err(e) => {
                return Err(ProcessError::Custom(e));
            },
        }
        if accounts[3].owner != *program_id {
            if accounts[1].key != *system_program {
                return Err(ProcessError::IncorrectProgramId);
            }
            if !accounts[0].is_signer {
                return Err(ProcessError::MissingRequiredSignature);
            }
            return Ok(
                Outcome::NeedsAccount(
                    CreateAccountRequest {
                        payer: accounts[0].key,
                        new_account: accounts[3].key,
                        lamports: rent,
                        space: TOKEN_METADATA_MAX_LEN as u64,
                        owner: *program_id,
                        kind: RecordKind::Metadata,
                        mint: accounts[2].key,
                        bump,
                    },
                ),
            );
        }
        if accounts[3].data.len() > 0 && accounts[3].data[0] != 0 {
            return Err(ProcessError::Custom(MetadataError::MetadataAlreadyExists));
        }
        let metadata = TokenMetadata {
            is_initialized: true,
            mint: accounts[2].key,
            name,
            symbol,
            image,
            description,
            update_authority: if immutable {
                None
            } else {
                Some(matched)
            },
        };
        Self::write_metadata(accounts, 3, &metadata)
    }

    /// Writes `attributes` to the account at position `index`.
    fn write_attributes(
        accounts: &mut Vec<AccountInfo>,
        index: usize,
        attributes: &TokenMetadataAttributes,
    ) -> (r: Result<Outcome, ProcessError>)
        requires
            index < old(accounts)@.len(),
            attributes@.wf(),
            attributes@.within_caps(),
            old(accounts)@[index as int].data@.len() == TOKEN_METADATA_ATTRIBUTES_MAX_LEN,
        ensures
            r == Ok::<Outcome, ProcessError>(Outcome::Done),
            step_of(r, final(accounts)@) == store_attributes(
                accounts_view(old(accounts)@),
                index as int,
                attributes@,
            ),
    {
        proof {
            lemma_attributes_fits(attributes@);
        }
        let bytes = attributes.to_bytes();
        store_record(accounts, index, bytes.as_slice());
        Ok(Outcome::Done)
    }

    /// `CreateAttributes`: the authority of a mint's record creates the
    /// mint's attributes.
    ///
    /// Accounts: the payer, which signs; the system program; the mint; the
    /// attributes' account; the authority, which signs; the record's account.
    pub fn process_create_attributes(
        program_id: &Address,
        accounts: &mut Vec<AccountInfo>,
        data: Vec<(String, String)>,
    ) -> (r: Result<Outcome, ProcessError>)
        ensures
            step_of(r, final(accounts)@) == create_attributes_step(
                program_id@,
                accounts_view(old(accounts)@),
                pairs_view(data@),
            ),
            !(r matches Ok(Outcome::Done)) ==> final(accounts)@ == old(accounts)@,
    {
        if accounts.len() < 6 {
            return Err(ProcessError::NotEnoughAccountKeys);
        }
        let system_program = system_program_id();
        let rent = minimum_rent(TOKEN_METADATA_ATTRIBUTES_MAX_LEN);
        let derived_record = try_find_metadata_pda_with_program(program_id, &accounts[2].key);
        let derived = try_find_attributes_pda_with_program(program_id, &accounts[2].key);
        Self::create_attributes(
            program_id,
            &system_program,
            rent,
            derived_record,
            derived,
            accounts,
            data,
        )
    }

    /// `CreateAttributes` once the ledger's libraries have been asked:
    /// `derived_record` and `derived` are the addresses derived for the
    /// record and for the attributes of the mint in the third account.
    pub fn create_attributes(
        program_id: &Address,
        system_program: &Address,
        rent: u64,
        derived_record: Option<(Address, u8)>,
        derived: Option<(Address, u8)>,
        accounts: &mut Vec<AccountInfo>,
        data: Vec<(String, String)>,
    ) -> (r: Result<Outcome, ProcessError>)
        ensures
            step_of(r, final(accounts)@) == create_attributes_outcome(
                program_id@,
                system_program@,
                rent,
                derived_view(derived_record),
                derived_view(derived),
                accounts_view(old(accounts)@),
                pairs_view(data@),
            ),
            !(r matches Ok(Outcome::Done)) ==> final(accounts)@ == old(accounts)@,
    {
        if accounts.len() < 6 {
            return Err(ProcessError::NotEnoughAccountKeys);
        }
        if !accounts[0].is_signer || !accounts[4].is_signer {
            return Err(ProcessError::MissingRequiredSignature);
        }
        let bump = match derived {
            Some((expected, bump)) => {
                if expected != accounts[3].key {
                    return Err(ProcessError::InvalidSeeds);
                }
                bump
            },
            None => {
                return Err(ProcessError::InvalidSeeds);
            },
        };
        let metadata = match TokenMetadata::unpack(accounts[5].data.as_slice()) {
            Ok(m) => m,
            Err(_) => {
                return Err(ProcessError::InvalidAccountData);
            },
        };
        if metadata.mint != accounts[2].key {
            return Err(ProcessError::InvalidAccountData);
        }
        match check_update_authority(&metadata.update_authority, &accounts[4].key) {
            Ok(_) => {},
            Err(e) => {
                return Err(ProcessError::Custom(e));
            },
        }
        Self::check_record_account(program_id, &derived_record, &accounts[5])?;
        match check_attributes(&data) {
            Ok(_) => {},
            Err(e) => {
                return Err(ProcessError::Custom(e));
            },
        }
        if accounts[3].owner != *program_id {
            if accounts[1].key != *system_program {
                return Err(ProcessError::IncorrectProgramId);
            }
            return Ok(
                Outcome::NeedsAccount(
                    CreateAccountRequest {
                        payer: accounts[0].key,
                        new_account: accounts[3].key,
                        lamports: rent,
                        space: TOKEN_METADATA_ATTRIBUTES_MAX_LEN as u64,
                        owner: *program_id,
                        kind: RecordKind::Attributes,
                        mint: accounts[2].key,
                        bump,
                    },
                ),
            );
        }
        if accounts[3].data.len() != TOKEN_METADATA_ATTRIBUTES_MAX_LEN {
            return Err(ProcessError::InvalidAccountData);
        }
        if accounts[3].data[0] != 0 {
            return Err(ProcessError::Custom(MetadataError::MetadataAlreadyExists));
        }
        proof {
            lemma_accepted_attributes(pairs_view(data@));
        }
        let attributes = TokenMetadataAttributes {
            is_initialized: true,
            mint: accounts[2].key,
            data,
        };
        Self::write_attributes(accounts, 3, &attributes)
    }

    /// `ReplaceAttributes`: the authority of a mint's record replaces all of
    /// the mint's attributes.
    ///
    /// Accounts: the attributes' account; the authority, which signs; the
    /// record's account.
    pub fn process_replace_attributes(
        program_id: &Address,
        accounts: &mut Vec<AccountInfo>,
        data: Vec<(String, String)>,
    ) -> (r: Result<Outcome, ProcessError>)
        ensures
            step_of(r, final(accounts)@) == replace_attributes_step(
                program_id@,
                accounts_view(old(accounts)@),
                pairs_view(data@),
            ),
            !(r matches Ok(Outcome::Done)) ==> final(accounts)@ == old(accounts)@,
    {
        let (derived_record, derived) = if accounts.len() < 3 {
            (None, None)
        } else {
            match TokenMetadata::unpack_unchecked(accounts[2].data.as_slice()) {
                Ok(metadata) => (
                    try_find_metadata_pda_with_program(program_id, &metadata.mint),
                    try_find_attributes_pda_with_program(program_id, &metadata.mint),
                ),
                Err(_) => (None, None),
            }
        };
        Self::replace_attributes(program_id, derived_record, derived, accounts, data)
    }

    /// `ReplaceAttributes` once the ledger's library has been asked:
    /// `derived_record` and `derived` are the addresses derived for the
    /// record and for the attributes of the mint that the record in the third
    /// account names.
    pub fn replace_attributes(
        program_id: &Address,
        derived_record: Option<(Address, u8)>,
        derived: Option<(Address, u8)>,
        accounts: &mut Vec<AccountInfo>,
        data: Vec<(String, String)>,
    ) -> (r: Result<Outcome, ProcessError>)
        ensures
            step_of(r, final(accounts)@) == replace_attributes_outcome(
                program_id@,
                derived_view(derived_record),
                derived_view(derived),
                accounts_view(old(accounts)@),
                pairs_view(data@),
            ),
            !(r matches Ok(Outcome::Done)) ==> final(accounts)@ == old(accounts)@,
    {
        if accounts.len() < 3 {
            return Err(ProcessError::NotEnoughAccountKeys);
        }
        if !accounts[1].is_signer {
            return Err(ProcessError::MissingRequiredSignature);
        }
        let metadata = TokenMetadata::unpack(accounts[2].data.as_slice())?;
        match check_update_authority(&metadata.update_authority, &accounts[1].key) {
            Ok(_) => {},
            Err(e) => {
                return Err(ProcessError::Custom(e));
            },
        }
        Self::check_record_account(program_id, &derived_record, &accounts[2])?;
        match derived {
            Some((expected, _bump)) => {
                if expected != accounts[0].key {
                    return Err(ProcessError::InvalidSeeds);
                }
            },
            None => {
                return Err(ProcessError::InvalidSeeds);
            },
        }
        let mut attributes = TokenMetadataAttributes::unpack(accounts[0].data.as_slice())?;
        if accounts[0].owner != *program_id {
            return Err(ProcessError::InvalidAccountOwner);
        }
        match check_attributes(&data) {
            Ok(_) => {},
            Err(e) => {
                return Err(ProcessError::Custom(e));
            },
        }
        proof {
            lemma_accepted_attributes(pairs_view(data@));
            lemma_attributes_taken(accounts[0].data@);
        }
        attributes.data = data;
        Self::write_attributes(accounts, 0, &attributes)
    }

    /// Accepts `account` as the account of a record: it has to be at the
    /// address `derived` for the record, and the registry has to own it.
    pub fn check_record_account(
        program_id: &Address,
        derived: &Option<(Address, u8)>,
        account: &AccountInfo,
    ) -> (r: Result<(), ProcessError>)
        ensures
            match r {
                Ok(_) => record_account_error(program_id@, derived_view(*derived), account@)
                    is None,
                Err(e) => record_account_error(program_id@, derived_view(*derived), account@)
                    == Some(e),
            },
    {
        match derived {
            Some((expected, _bump)) => {
                if *expected != account.key {
                    return Err(ProcessError::InvalidSeeds);
                }
            },
            None => {
                return Err(ProcessError::InvalidSeeds);
            },
        }
        if account.owner != *program_id {
            return Err(ProcessError::InvalidAccountOwner);
        }
        Ok(())
    }

    /// Asks the ledger's library for the address of the record in the account
    /// at position `index`: the address derived for the record of the mint
    /// that the record itself names.
    pub fn record_address(program_id: &Address, accounts: &Vec<AccountInfo>, index: usize) -> (r:
        Option<(Address, u8)>)
        ensures
            derived_view(r) == record_address(
                program_id@,
                accounts_view(accounts@),
                index as int,
            ),
    {
        if accounts.len() <= index {
            return None;
        }
        match TokenMetadata::unpack_unchecked(accounts[index].data.as_slice()) {
            Ok(metadata) => try_find_metadata_pda_with_program(program_id, &metadata.mint),
            Err(_) => None,
        }
    }

    /// Writes `metadata` to the account at position `index`, unless the
    /// account is too small for it.
    fn write_metadata(accounts: &mut Vec<AccountInfo>, index: usize, metadata: &TokenMetadata) -> (r:
        Result<Outcome, ProcessError>)
        requires
            index < old(accounts)@.len(),
            metadata@.wf(),
            metadata@.encodable(),
        ensures
            step_of(r, final(accounts)@) == store_metadata(
                accounts_view(old(accounts)@),
                index as int,
                metadata@,
            ),
            r is Err ==> final(accounts)@ == old(accounts)@,
            !(r matches Ok(Outcome::NeedsAccount(_))),
    {
        proof {
            lemma_metadata_round_trip(metadata@, Seq::empty());
        }
        let bytes = metadata.to_bytes();
        if bytes.len() > accounts[index].data.len() {
            return Err(ProcessError::InvalidAccountData);
        }
        store_record(accounts, index, bytes.as_slice());
        Ok(Outcome::Done)
    }

    /// Reads the record that the signer in the second account may change.
    fn read_authorized(
        program_id: &Address,
        derived: &Option<(Address, u8)>,
        accounts: &Vec<AccountInfo>,
    ) -> (r: Result<TokenMetadata, ProcessError>)
        ensures
            match r {
                Ok(m) => authorized_metadata(
                    program_id@,
                    derived_view(*derived),
                    accounts_view(accounts@),
                ) == Ok::<TokenMetadataView, ProcessError>(m@) && m@.wf() && m@.encodable(),
                Err(e) => authorized_metadata(
                    program_id@,
                    derived_view(*derived),
                    accounts_view(accounts@),
                ) == Err::<TokenMetadataView, ProcessError>(e),
            },
    {
        if accounts.len() < 2 {
            return Err(ProcessError::NotEnoughAccountKeys);
        }
        if !accounts[1].is_signer {
            return Err(ProcessError::MissingRequiredSignature);
        }
        let metadata = TokenMetadata::unpack(accounts[0].data.as_slice())?;
        proof {
            lemma_decoded_metadata_len(accounts[0].data@);
        }
        match check_update_authority(&metadata.update_authority, &accounts[1].key) {
            Ok(_) => {},
            Err(e) => {
                return Err(ProcessError::Custom(e));
            },
        }
        Self::check_record_account(program_id, derived, &accounts[0])?;
        Ok(metadata)
    }

    /// `UpdateMetadata`: the authority of a record replaces the text fields
    /// that are given and leaves the others as they are.
    ///
    /// Accounts: the record's account; the authority, which signs.
    pub fn process_update_metadata(
        program_id: &Address,
        accounts: &mut Vec<AccountInfo>,
        name: Option<String>,
        symbol: Option<String>,
        image: Option<String>,
        description: Option<String>,
    ) -> (r: Result<Outcome, ProcessError>)
        ensures
            step_of(r, final(accounts)@) == update_metadata_step(
                program_id@,
                accounts_view(old(accounts)@),
                option_string_view(name),
                option_string_view(symbol),
                option_string_view(image),
                option_string_view(description),
            ),
            !(r matches Ok(Outcome::Done)) ==> final(accounts)@ == old(accounts)@,
    {
        let derived = Self::record_address(program_id, accounts, 0);
        Self::update_metadata(program_id, derived, accounts, name, symbol, image, description)
    }

    /// `UpdateMetadata` once the ledger's library has been asked: `derived`
    /// is the address derived for the record of the mint that the record in
    /// the first account names.
    pub fn update_metadata(
        program_id: &Address,
        derived: Option<(Address, u8)>,
        accounts: &mut Vec<AccountInfo>,
        name: Option<String>,
        symbol: Option<String>,
        image: Option<String>,
        description: Option<String>,
    ) -> (r: Result<Outcome, ProcessError>)
        ensures
            step_of(r, final(accounts)@) == update_metadata_outcome(
                program_id@,
                derived_view(derived),
                accounts_view(old(accounts)@),
                option_string_view(name),
                option_string_view(symbol),
                option_string_view(image),
                option_string_view(description),
            ),
            !(r matches Ok(Outcome::Done)) ==> final(accounts)@ == old(accounts)@,
    {
        let mut metadata = Self::read_authorized(program_id, &derived, accounts)?;
        match check_optional_metadata_fields(&name, &symbol, &image, &description) {
            Ok(_) => {},
            Err(e) => {
                return Err(ProcessError::Custom(e));
            },
        }
        if let Some(n) = name {
            metadata.name = n;
        }
        if let Some(s) = symbol {
            metadata.symbol = s;
        }
        if let Some(i) = image {
            metadata.image = i;
        }
        if let Some(d) = description {
            metadata.description = d;
        }
        Self::write_metadata(accounts, 0, &metadata)
    }

    /// `TransferAuthority`: the authority of a record names its successor.
    ///
    /// Accounts: the record's account; the authority, which signs.
    pub fn process_transfer_authority(
        program_id: &Address,
        accounts: &mut Vec<AccountInfo>,
        new_authority: Address,
    ) -> (r: Result<Outcome, ProcessError>)
        ensures
            step_of(r, final(accounts)@) == transfer_authority_step(
                program_id@,
                accounts_view(old(accounts)@),
                new_authority@,
            ),
            !(r matches Ok(Outcome::Done)) ==> final(accounts)@ == old(accounts)@,
    {
        let derived = Self::record_address(program_id, accounts, 0);
        Self::transfer_authority(program_id, derived, accounts, new_authority)
    }

    /// `TransferAuthority` once the ledger's library has been asked:
    /// `derived` is the address derived for the record of the mint that the
    /// record in the first account names.
    pub fn transfer_authority(
        program_id: &Address,
        derived: Option<(Address, u8)>,
        accounts: &mut Vec<AccountInfo>,
        new_authority: Address,
    ) -> (r: Result<Outcome, ProcessError>)
        ensures
            step_of(r, final(accounts)@) == transfer_authority_outcome(
                program_id@,
                derived_view(derived),
                accounts_view(old(accounts)@),
                new_authority@,
            ),
            !(r matches Ok(Outcome::Done)) ==> final(accounts)@ == old(accounts)@,
    {
        let mut metadata = Self::read_authorized(program_id, &derived, accounts)?;
        metadata.update_authority = Some(new_authority);
        Self::write_metadata(accounts, 0, &metadata)
    }

    /// `MakeImmutable`: the authority of a record gives the record up for
    /// good.
    ///
    /// Accounts: the record's account; the authority, which signs.
    pub fn process_make_immutable(program_id: &Address, accounts: &mut Vec<AccountInfo>) -> (r:
        Result<Outcome, ProcessError>)
        ensures
            step_of(r, final(accounts)@) == make_immutable_step(
                program_id@,
                accounts_view(old(accounts)@),
            ),
            !(r matches Ok(Outcome::Done)) ==> final(accounts)@ == old(accounts)@,
    {
        let derived = Self::record_address(program_id, accounts, 0);
        Self::make_immutable(program_id, derived, accounts)
    }

    /// `MakeImmutable` once the ledger's library has been asked: `derived`
    /// is the address derived for the record of the mint that the record in
    /// the first account names.
    pub fn make_immutable(
        program_id: &Address,
        derived: Option<(Address, u8)>,
        accounts: &mut Vec<AccountInfo>,
    ) -> (r: Result<Outcome, ProcessError>)
        ensures
            step_of(r, final(accounts)@) == make_immutable_outcome(
                program_id@,
                derived_view(derived),
                accounts_view(old(accounts)@),
            ),
            !(r matches Ok(Outcome::Done)) ==> final(accounts)@ == old(accounts)@,
    {
        let mut metadata = Self::read_authorized(program_id, &derived, accounts)?;
        metadata.update_authority = None;
        Self::write_metadata(accounts, 0, &metadata)
    }
}

} // verus!
