//! Builders of operations, for those who submit them to the ledger.
//!
//! A builder derives the addresses of the records, refuses a payload that
//! the registry would refuse for its size, encodes the operation, and lists
//! the accounts in the order in which the registry reads them. Signing and
//! submitting are left to the caller.

use apl_token::instruction::set_authority;
use apl_token::instruction::AuthorityType::{AccountOwner, CloseAccount, FreezeAccount, MintTokens};
use arch_program::compute_budget::ComputeBudgetInstruction;
use arch_program::pubkey::Pubkey;
use vstd::prelude::*;

use crate::address::Address;
use crate::attributes_pda;
use crate::find_attributes_pda_with_program;
use crate::find_metadata_pda_with_program;
use crate::instruction::{MetadataInstruction, MetadataInstructionView};
use crate::ledger::{
    minimum_rent, minimum_rent_spec, system_program_bytes, system_program_id,
    token_program_bytes, token_program_id,
};
use crate::metadata_pda;
use crate::state::{
    DESCRIPTION_MAX_LEN, IMAGE_MAX_LEN, MAX_ATTRIBUTES, MAX_KEY_LENGTH, MAX_VALUE_LENGTH,
    NAME_MAX_LEN, SYMBOL_MAX_LEN,
};
use crate::try_find_attributes_pda_with_program;
use crate::try_find_metadata_pda_with_program;
use crate::wire::{option_address_view, option_string_view, pairs_view, utf8_len, PairView};

verus! {

/// An account as an operation names it: its address, whether it signs, and
/// whether the operation may write to it.
#[derive(Clone, Copy, Debug, PartialEq, Eq)]
pub struct AccountMeta {
    pub pubkey: Address,
    pub is_signer: bool,
    pub is_writable: bool,
}

/// An `AccountMeta` as a mathematical value: the address, the signer flag
/// and the writable flag.
pub type AccountMetaView = (Seq<u8>, bool, bool);

impl View for AccountMeta {
    type V = AccountMetaView;

    open spec fn view(&self) -> AccountMetaView {
        (self.pubkey@, self.is_signer, self.is_writable)
    }
}

impl AccountMeta {
    /// An account that the operation may write to.
    pub fn new(pubkey: Address, is_signer: bool) -> (m: AccountMeta)
        ensures
            m@ == (pubkey@, is_signer, true),
    {
        AccountMeta { pubkey, is_signer, is_writable: true }
    }

    /// An account that the operation only reads.
    pub fn new_readonly(pubkey: Address, is_signer: bool) -> (m: AccountMeta)
        ensures
            m@ == (pubkey@, is_signer, false),
    {
        AccountMeta { pubkey, is_signer, is_writable: false }
    }
}

/// An operation as it is submitted: the program that runs it, the accounts
/// that it names, and its bytes.
#[derive(Clone, Debug, PartialEq, Eq)]
pub struct Instruction {
    pub program_id: Address,
    pub accounts: Vec<AccountMeta>,
    pub data: Vec<u8>,
}

/// An `Instruction` as a mathematical value: the program, the accounts and
/// the bytes.
pub type InstructionView = (Seq<u8>, Seq<AccountMetaView>, Seq<u8>);

pub open spec fn metas_view(metas: Seq<AccountMeta>) -> Seq<AccountMetaView> {
    Seq::new(metas.len(), |i: int| metas[i]@)
}

impl View for Instruction {
    type V = InstructionView;

    open spec fn view(&self) -> InstructionView {
        (self.program_id@, metas_view(self.accounts@), self.data@)
    }
}

/// Accounts that are given by the bytes of their addresses and their two
/// flags, as mathematical values.
pub open spec fn raw_metas_view(raw: Seq<([u8; 32], bool, bool)>) -> Seq<AccountMetaView> {
    Seq::new(raw.len(), |i: int| (raw[i].0@, raw[i].1, raw[i].2))
}

impl Instruction {
    /// The operation of the program at the address that `program_id` holds,
    /// on accounts that are given by the bytes of their addresses, their
    /// signer flags and their writable flags.
    pub fn from_raw(program_id: [u8; 32], accounts: Vec<([u8; 32], bool, bool)>, data: Vec<u8>)
        -> (i: Instruction)
        ensures
            i@ == (program_id@, raw_metas_view(accounts@), data@),
    {
        let n: usize = accounts.len();
        let mut metas: Vec<AccountMeta> = Vec::new();
        let mut k: usize = 0;
        while k < n
            invariant
                k <= n,
                n == accounts@.len(),
                metas@.len() == k,
                forall|j: int| 0 <= j < k ==> metas@[j]@ == raw_metas_view(accounts@)[j],
            decreases n - k,
        {
            let (pubkey, is_signer, is_writable) = accounts[k];
            metas.push(
                AccountMeta { pubkey: Address::new_from_array(pubkey), is_signer, is_writable },
            );
            k += 1;
        }
        let i = Instruction { program_id: Address::new_from_array(program_id), accounts: metas, data };
        assert(i@.1 =~= raw_metas_view(accounts@));
        i
    }
}

pub open spec fn instructions_view(list: Seq<Instruction>) -> Seq<InstructionView> {
    Seq::new(list.len(), |i: int| list[i]@)
}

pub open spec fn option_instruction_view(i: Option<Instruction>) -> Option<InstructionView> {
    match i {
        Some(x) => Some(x@),
        None => None,
    }
}

/// Why a builder refuses to build.
#[derive(Clone, Copy, Debug, PartialEq, Eq, Structural)]
pub enum ClientError {
    /// The name is longer than its cap.
    NameTooLong,
    /// The symbol is longer than its cap.
    SymbolTooLong,
    /// The image reference is longer than its cap.
    ImageTooLong,
    /// The description is longer than its cap.
    DescriptionTooLong,
    /// There are more attribute pairs than the cap.
    TooManyAttributes,
    /// An attribute has an empty key or an empty value.
    EmptyAttribute,
    /// An attribute key is longer than its cap.
    AttributeKeyTooLong,
    /// An attribute value is longer than its cap.
    AttributeValueTooLong,
    /// The ledger's library finds no address for a record of the mint.
    NoDerivedAddress,
    /// The token program's library refuses to build its operation.
    TokenInstruction,
}

impl ClientError {
    /// The short diagnostic shown to a user.
    pub open spec fn spec_message(self) -> Seq<char> {
        match self {
            ClientError::NameTooLong => "name too long"@,
            ClientError::SymbolTooLong => "symbol too long"@,
            ClientError::ImageTooLong => "image too long"@,
            ClientError::DescriptionTooLong => "description too long"@,
            ClientError::TooManyAttributes => "too many attributes"@,
            ClientError::EmptyAttribute => "attribute key and value must be non-empty"@,
            ClientError::AttributeKeyTooLong => "attribute key too long"@,
            ClientError::AttributeValueTooLong => "attribute value too long"@,
            ClientError::NoDerivedAddress => "no address can be derived for the mint"@,
            ClientError::TokenInstruction => "the token program's operation cannot be built"@,
        }
    }

    pub fn message(&self) -> (s: &'static str)
        ensures
            s@ == self.spec_message(),
    {
        match self {
            ClientError::NameTooLong => "name too long",
            ClientError::SymbolTooLong => "symbol too long",
            ClientError::ImageTooLong => "image too long",
            ClientError::DescriptionTooLong => "description too long",
            ClientError::TooManyAttributes => "too many attributes",
            ClientError::EmptyAttribute => "attribute key and value must be non-empty",
            ClientError::AttributeKeyTooLong => "attribute key too long",
            ClientError::AttributeValueTooLong => "attribute value too long",
            ClientError::NoDerivedAddress => "no address can be derived for the mint",
            ClientError::TokenInstruction => "the token program's operation cannot be built",
        }
    }
}

/// What is wrong with the four text fields of a new record, if anything: the
/// first of name, symbol, image and description that is beyond its cap.
pub open spec fn metadata_fields_error(
    name: Seq<char>,
    symbol: Seq<char>,
    image: Seq<char>,
    description: Seq<char>,
) -> Option<ClientError> {
    if utf8_len(name) > NAME_MAX_LEN {
        Some(ClientError::NameTooLong)
    } else if utf8_len(symbol) > SYMBOL_MAX_LEN {
        Some(ClientError::SymbolTooLong)
    } else if utf8_len(image) > IMAGE_MAX_LEN {
        Some(ClientError::ImageTooLong)
    } else if utf8_len(description) > DESCRIPTION_MAX_LEN {
        Some(ClientError::DescriptionTooLong)
    } else {
        None
    }
}

/// Whether a field that may be absent is given and beyond `cap`.
pub open spec fn beyond(field: Option<Seq<char>>, cap: nat) -> bool {
    field matches Some(s) && utf8_len(s) > cap
}

/// What is wrong with the text fields of a change, if anything: the first of
/// name, symbol, image and description that is given and beyond its cap.
pub open spec fn optional_metadata_fields_error(
    name: Option<Seq<char>>,
    symbol: Option<Seq<char>>,
    image: Option<Seq<char>>,
    description: Option<Seq<char>>,
) -> Option<ClientError> {
    if beyond(name, NAME_MAX_LEN as nat) {
        Some(ClientError::NameTooLong)
    } else if beyond(symbol, SYMBOL_MAX_LEN as nat) {
        Some(ClientError::SymbolTooLong)
    } else if beyond(image, IMAGE_MAX_LEN as nat) {
        Some(ClientError::ImageTooLong)
    } else if beyond(description, DESCRIPTION_MAX_LEN as nat) {
        Some(ClientError::DescriptionTooLong)
    } else {
        None
    }
}

/// What is wrong with a pair, if anything.
pub open spec fn attribute_error(p: PairView) -> Option<ClientError> {
    if p.0.len() == 0 || p.1.len() == 0 {
        Some(ClientError::EmptyAttribute)
    } else if utf8_len(p.0) > MAX_KEY_LENGTH {
        Some(ClientError::AttributeKeyTooLong)
    } else if utf8_len(p.1) > MAX_VALUE_LENGTH {
        Some(ClientError::AttributeValueTooLong)
    } else {
        None
    }
}

/// What is wrong with the first faulty pair, if there is one.
pub open spec fn first_attribute_error(ps: Seq<PairView>) -> Option<ClientError>
    decreases ps.len(),
{
    if ps.len() == 0 {
        None
    } else if attribute_error(ps[0]) is Some {
        attribute_error(ps[0])
    } else {
        first_attribute_error(ps.drop_first())
    }
}

/// Why a batch of attributes is refused, if it is.
pub open spec fn attributes_refusal(ps: Seq<PairView>) -> Option<ClientError> {
    if ps.len() > MAX_ATTRIBUTES {
        Some(ClientError::TooManyAttributes)
    } else {
        first_attribute_error(ps)
    }
}

/// A batch that is not refused is small enough to be encoded.
pub proof fn lemma_accepted_batch_is_encodable(ps: Seq<PairView>)
    requires
        attributes_refusal(ps) is None,
    ensures
        ps.len() <= u32::MAX,
        crate::wire::pairs_fit(ps),
{
    lemma_no_attribute_error(ps);
    assert forall|i: int| 0 <= i < ps.len() implies utf8_len(#[trigger] ps[i].0) <= u32::MAX
        && utf8_len(ps[i].1) <= u32::MAX by {
        assert(attribute_error(ps[i]) is None);
    }
}

/// Where no fault is reported, no pair is faulty.
pub proof fn lemma_no_attribute_error(ps: Seq<PairView>)
    requires
        first_attribute_error(ps) is None,
    ensures
        forall|i: int| 0 <= i < ps.len() ==> attribute_error(#[trigger] ps[i]) is None,
    decreases ps.len(),
{
    if ps.len() > 0 {
        let tail = ps.drop_first();
        lemma_no_attribute_error(tail);
        assert forall|i: int| 0 <= i < ps.len() implies attribute_error(#[trigger] ps[i])
            is None by {
            if i > 0 {
                assert(ps[i] == tail[i - 1]);
            }
        }
    }
}

/// The operation that the system program runs to create an account, as
/// arch_program builds it.
pub uninterp spec fn system_create_account(
    payer: Seq<u8>,
    new_account: Seq<u8>,
    lamports: u64,
    space: u64,
    owner: Seq<u8>,
) -> InstructionView;

/// The operation that the program at `token_program` runs to initialize a
/// mint, as apl_token builds it, or `None` where it refuses to.
pub uninterp spec fn token_initialize_mint2(
    token_program: Seq<u8>,
    mint: Seq<u8>,
    mint_authority: Seq<u8>,
    freeze_authority: Option<Seq<u8>>,
    decimals: u8,
) -> Option<InstructionView>;

/// The operation that the program at `token_program` runs to change an
/// authority of a mint or of a token account, as apl_token builds it, or
/// `None` where it refuses to. `kind` is the number of the authority that
/// changes, `owner` the authority so far, and `signers` those who sign in
/// its place, if any.
pub uninterp spec fn token_set_authority(
    token_program: Seq<u8>,
    owned: Seq<u8>,
    new_authority: Option<Seq<u8>>,
    kind: u8,
    owner: Seq<u8>,
    signers: Seq<Seq<u8>>,
) -> Option<InstructionView>;

/// Which authority an operation of the token program changes.
#[derive(Clone, Copy, Debug, PartialEq, Eq, Structural)]
pub enum AuthorityKind {
    /// The authority to mint new tokens.
    MintTokens,
    /// The authority to freeze the accounts of a mint.
    FreezeAccount,
    /// The owner of a token account.
    AccountOwner,
    /// The authority to close a token account.
    CloseAccount,
}

impl AuthorityKind {
    /// The number that stands for this authority in contracts.
    pub open spec fn number(self) -> u8 {
        match self {
            AuthorityKind::MintTokens => 0,
            AuthorityKind::FreezeAccount => 1,
            AuthorityKind::AccountOwner => 2,
            AuthorityKind::CloseAccount => 3,
        }
    }
}

/// The addresses of a list as mathematical values, in their order.
pub open spec fn addresses_view(list: Seq<Address>) -> Seq<Seq<u8>> {
    Seq::new(list.len(), |i: int| list[i]@)
}

/// The operation that limits the compute units of a transaction, as
/// arch_program builds it.
pub uninterp spec fn compute_unit_limit(units: u32) -> InstructionView;

/// The operation that asks for a heap of a given size, as arch_program
/// builds it.
pub uninterp spec fn heap_frame(bytes: u32) -> InstructionView;

/// `system_instruction::create_account` of arch_program. The operation that
/// it builds depends on its arguments alone.
#[verifier::external_body]
fn build_create_account(
    payer: &Address,
    new_account: &Address,
    lamports: u64,
    space: u64,
    owner: &Address,
) -> (r: Instruction)
    ensures
        r@ == system_create_account(payer@, new_account@, lamports, space, owner@),
{
    let (from, to) = (Pubkey(payer.bytes), Pubkey(new_account.bytes));
    let owner = Pubkey(owner.bytes);
    let ix = arch_program::system_instruction::create_account(&from, &to, lamports, space, &owner);
    let metas = ix.accounts.iter().map(|m| (m.pubkey.0, m.is_signer, m.is_writable));
    Instruction::from_raw(ix.program_id.0, metas.collect(), ix.data)
}

/// `instruction::initialize_mint2` of apl_token. The operation that it
/// builds, and whether it builds one, depends on its arguments alone.
#[verifier::external_body]
fn build_initialize_mint2(
    token_program: &Address,
    mint: &Address,
    mint_authority: &Address,
    freeze_authority: &Option<Address>,
    decimals: u8,
) -> (r: Option<Instruction>)
    ensures
        option_instruction_view(r) == token_initialize_mint2(
            token_program@,
            mint@,
            mint_authority@,
            option_address_view(*freeze_authority),
            decimals,
        ),
{
    let (program, mint) = (Pubkey(token_program.bytes), Pubkey(mint.bytes));
    let (authority, freeze) = (Pubkey(mint_authority.bytes), freeze_authority.map(|a| Pubkey(a.bytes)));
    let built = apl_token::instruction::initialize_mint2(
        &program, &mint, &authority, freeze.as_ref(), decimals,
    );
    let ix = built.ok()?;
    let metas = ix.accounts.iter().map(|m| (m.pubkey.0, m.is_signer, m.is_writable));
    Some(Instruction::from_raw(ix.program_id.0, metas.collect(), ix.data))
}

/// `instruction::set_authority` of apl_token. The operation that it builds,
/// and whether it builds one, depends on its arguments alone.
#[verifier::external_body]
fn build_set_authority(
    token_program: &Address,
    owned: &Address,
    new_authority: &Option<Address>,
    kind: AuthorityKind,
    owner: &Address,
    signers: &Vec<Address>,
) -> (r: Option<Instruction>)
    ensures
        option_instruction_view(r) == token_set_authority(
            token_program@,
            owned@,
            option_address_view(*new_authority),
            kind.number(),
            owner@,
            addresses_view(signers@),
        ),
{
    let keys = Vec::from_iter(signers.iter().map(|a| Pubkey(a.bytes)));
    let refs = Vec::from_iter(&keys);
    let kind = match kind {
        AuthorityKind::MintTokens => MintTokens,
        AuthorityKind::FreezeAccount => FreezeAccount,
        AuthorityKind::AccountOwner => AccountOwner,
        AuthorityKind::CloseAccount => CloseAccount,
    };
    let new = new_authority.map(|a| Pubkey(a.bytes));
    let program = Pubkey(token_program.bytes);
    let ix = set_authority(&program, &Pubkey(owned.bytes), new.as_ref(), kind, &Pubkey(owner.bytes), &refs)
        .ok()?;
    let metas = ix.accounts.iter().map(|m| (m.pubkey.0, m.is_signer, m.is_writable));
    Some(Instruction::from_raw(ix.program_id.0, metas.collect(), ix.data))
}

/// `ComputeBudgetInstruction::set_compute_unit_limit` of arch_program. The
/// operation that it builds depends on `units` alone.
#[verifier::external_body]
fn build_compute_unit_limit(units: u32) -> (r: Instruction)
    ensures
        r@ == compute_unit_limit(units),
{
    let ix = ComputeBudgetInstruction::set_compute_unit_limit(units);
    let metas = ix.accounts.iter().map(|m| (m.pubkey.0, m.is_signer, m.is_writable));
    Instruction::from_raw(ix.program_id.0, metas.collect(), ix.data)
}

/// `ComputeBudgetInstruction::request_heap_frame` of arch_program. The
/// operation that it builds depends on `bytes` alone.
#[verifier::external_body]
fn build_heap_frame(bytes: u32) -> (r: Instruction)
    ensures
        r@ == heap_frame(bytes),
{
    let ix = ComputeBudgetInstruction::request_heap_frame(bytes);
    let metas = ix.accounts.iter().map(|m| (m.pubkey.0, m.is_signer, m.is_writable));
    Instruction::from_raw(ix.program_id.0, metas.collect(), ix.data)
}

/// The size of a mint account of the token program.
pub const MINT_ACCOUNT_LEN: usize = 82;

/// `Mint::LEN` of apl_token: the size of a mint account, which is 82 bytes.
#[verifier::external_body]
fn mint_account_len() -> (r: usize)
    ensures
        r == MINT_ACCOUNT_LEN,
{
    <apl_token::state::Mint as arch_program::program_pack::Pack>::LEN
}

/// What `CreateMetadata` is built from.
#[derive(Clone, Debug)]
pub struct CreateMetadataParams {
    /// Who pays for the record's account.
    pub payer: Address,
    /// The mint that the record describes.
    pub mint: Address,
    /// The mint authority, or the freeze authority of a mint without one.
    pub mint_or_freeze_authority: Address,
    pub name: String,
    pub symbol: String,
    pub image: String,
    pub description: String,
    /// Whether the record is immutable from the start.
    pub immutable: bool,
}

/// What `UpdateMetadata` is built from.
#[derive(Clone, Debug)]
pub struct UpdateMetadataParams {
    pub mint: Address,
    /// The record's authority, which signs.
    pub update_authority: Address,
    pub name: Option<String>,
    pub symbol: Option<String>,
    pub image: Option<String>,
    pub description: Option<String>,
}

/// What `CreateAttributes` is built from.
#[derive(Clone, Debug)]
pub struct CreateAttributesParams {
    /// Who pays for the attributes' account.
    pub payer: Address,
    pub mint: Address,
    /// The record's authority, which signs.
    pub update_authority: Address,
    pub data: Vec<(String, String)>,
}

/// What `ReplaceAttributes` is built from.
#[derive(Clone, Debug)]
pub struct ReplaceAttributesParams {
    pub mint: Address,
    /// The record's authority, which signs.
    pub update_authority: Address,
    /// The pairs that replace all stored ones.
    pub data: Vec<(String, String)>,
}

/// What `TransferAuthority` is built from.
#[derive(Clone, Debug)]
pub struct TransferAuthorityParams {
    pub mint: Address,
    /// The record's authority, which signs.
    pub current_update_authority: Address,
    pub new_authority: Address,
}

/// What `MakeImmutable` is built from.
#[derive(Clone, Debug)]
pub struct MakeImmutableParams {
    pub mint: Address,
    /// The record's authority, which signs.
    pub current_update_authority: Address,
}

/// What the creation of a mint together with its record is built from.
#[derive(Clone, Debug)]
pub struct TxCreateTokenWithMetadataParams {
    pub payer: Address,
    pub mint: Address,
    pub mint_authority: Address,
    pub freeze_authority: Option<Address>,
    pub decimals: u8,
    pub name: String,
    pub symbol: String,
    pub image: String,
    pub description: String,
    pub immutable: bool,
}

/// What the creation of a mint together with its record and its attributes
/// is built from.
#[derive(Clone, Debug)]
pub struct TxCreateTokenWithMetadataAndAttributesParams {
    pub payer: Address,
    pub mint: Address,
    /// The mint authority, which is also the authority of the record.
    pub mint_authority: Address,
    pub freeze_authority: Option<Address>,
    pub decimals: u8,
    pub name: String,
    pub symbol: String,
    pub image: String,
    pub description: String,
    pub immutable: bool,
    pub attributes: Vec<(String, String)>,
}

/// What the creation of a mint whose freeze authority creates the record is
/// built from.
#[derive(Clone, Debug)]
pub struct TxCreateTokenWithFreezeAuthMetadataParams {
    pub payer: Address,
    pub mint: Address,
    /// The mint authority, which is given up before the record is created.
    pub initial_mint_authority: Address,
    /// The freeze authority, which signs the creation of the record.
    pub freeze_authority: Address,
    pub decimals: u8,
    pub name: String,
    pub symbol: String,
    pub image: String,
    pub description: String,
    pub immutable: bool,
}

/// What a transfer of authority followed by a change is built from.
#[derive(Clone, Debug)]
pub struct TxTransferAuthorityThenUpdateParams {
    pub mint: Address,
    /// The authority before the transfer, which signs the transfer.
    pub current_update_authority: Address,
    /// The authority after the transfer, which signs the change.
    pub new_authority: Address,
    pub name: Option<String>,
    pub symbol: Option<String>,
    pub image: Option<String>,
    pub description: Option<String>,
}

/// The compute budget that a transaction may ask for ahead of its
/// operations.
#[derive(Clone, Copy, Debug, Default)]
pub struct ComputeBudgetOptions {
    /// The limit on compute units, if one is asked for.
    pub units: Option<u32>,
    /// The size of the heap in bytes, if one is asked for.
    pub heap_bytes: Option<u32>,
}

pub open spec fn built_view(r: Result<Instruction, ClientError>) -> Result<
    InstructionView,
    ClientError,
> {
    match r {
        Ok(i) => Ok(i@),
        Err(e) => Err(e),
    }
}

pub open spec fn built_list_view(r: Result<Vec<Instruction>, ClientError>) -> Result<
    Seq<InstructionView>,
    ClientError,
> {
    match r {
        Ok(l) => Ok(instructions_view(l@)),
        Err(e) => Err(e),
    }
}

/// The `CreateMetadata` that a client of the registry at `program_id`
/// builds.
pub open spec fn create_metadata_ix_spec(
    program_id: Seq<u8>,
    payer: Seq<u8>,
    mint: Seq<u8>,
    authority: Seq<u8>,
    name: Seq<char>,
    symbol: Seq<char>,
    image: Seq<char>,
    description: Seq<char>,
    immutable: bool,
) -> Result<InstructionView, ClientError> {
    if metadata_pda(program_id, mint) is None {
        Err(ClientError::NoDerivedAddress)
    } else if metadata_fields_error(name, symbol, image, description) is Some {
        Err(metadata_fields_error(name, symbol, image, description).unwrap())
    } else {
        Ok(
            (
                program_id,
                seq![
                    (payer, true, true),
                    (system_program_bytes(), false, false),
                    (mint, false, false),
                    (metadata_pda(program_id, mint).unwrap().0, false, true),
                    (authority, true, false),
                ],
                MetadataInstructionView::CreateMetadata {
                    name,
                    symbol,
                    image,
                    description,
                    immutable,
                }.encode(),
            ),
        )
    }
}

/// The `UpdateMetadata` that a client builds.
pub open spec fn update_metadata_ix_spec(
    program_id: Seq<u8>,
    mint: Seq<u8>,
    authority: Seq<u8>,
    name: Option<Seq<char>>,
    symbol: Option<Seq<char>>,
    image: Option<Seq<char>>,
    description: Option<Seq<char>>,
) -> Result<InstructionView, ClientError> {
    if metadata_pda(program_id, mint) is None {
        Err(ClientError::NoDerivedAddress)
    } else if optional_metadata_fields_error(name, symbol, image, description) is Some {
        Err(optional_metadata_fields_error(name, symbol, image, description).unwrap())
    } else {
        Ok(
            (
                program_id,
                seq![
                    (metadata_pda(program_id, mint).unwrap().0, false, true),
                    (authority, true, false),
                ],
                MetadataInstructionView::UpdateMetadata {
                    name,
                    symbol,
                    image,
                    description,
                }.encode(),
            ),
        )
    }
}

/// The `CreateAttributes` that a client builds.
pub open spec fn create_attributes_ix_spec(
    program_id: Seq<u8>,
    payer: Seq<u8>,
    mint: Seq<u8>,
    authority: Seq<u8>,
    data: Seq<PairView>,
) -> Result<InstructionView, ClientError> {
    if metadata_pda(program_id, mint) is None || attributes_pda(program_id, mint) is None {
        Err(ClientError::NoDerivedAddress)
    } else if attributes_refusal(data) is Some {
        Err(attributes_refusal(data).unwrap())
    } else {
        Ok(
            (
                program_id,
                seq![
                    (payer, true, true),
                    (system_program_bytes(), false, false),
                    (mint, false, false),
                    (attributes_pda(program_id, mint).unwrap().0, false, true),
                    (authority, true, false),
                    (metadata_pda(program_id, mint).unwrap().0, false, false),
                ],
                MetadataInstructionView::CreateAttributes { data }.encode(),
            ),
        )
    }
}

/// The `ReplaceAttributes` that a client builds.
pub open spec fn replace_attributes_ix_spec(
    program_id: Seq<u8>,
    mint: Seq<u8>,
    authority: Seq<u8>,
    data: Seq<PairView>,
) -> Result<InstructionView, ClientError> {
    if metadata_pda(program_id, mint) is None || attributes_pda(program_id, mint) is None {
        Err(ClientError::NoDerivedAddress)
    } else if attributes_refusal(data) is Some {
        Err(attributes_refusal(data).unwrap())
    } else {
        Ok(
            (
                program_id,
                seq![
                    (attributes_pda(program_id, mint).unwrap().0, false, true),
                    (authority, true, false),
                    (metadata_pda(program_id, mint).unwrap().0, false, false),
                ],
                MetadataInstructionView::ReplaceAttributes { data }.encode(),
            ),
        )
    }
}

/// The `TransferAuthority` that a client builds.
pub open spec fn transfer_authority_ix_spec(
    program_id: Seq<u8>,
    mint: Seq<u8>,
    authority: Seq<u8>,
    new_authority: Seq<u8>,
) -> Result<InstructionView, ClientError> {
    if metadata_pda(program_id, mint) is None {
        Err(ClientError::NoDerivedAddress)
    } else {
        Ok(
            (
                program_id,
                seq![
                    (metadata_pda(program_id, mint).unwrap().0, false, true),
                    (authority, true, false),
                ],
                MetadataInstructionView::TransferAuthority { new_authority }.encode(),
            ),
        )
    }
}

/// The `MakeImmutable` that a client builds.
pub open spec fn make_immutable_ix_spec(program_id: Seq<u8>, mint: Seq<u8>, authority: Seq<u8>)
    -> Result<InstructionView, ClientError> {
    if metadata_pda(program_id, mint) is None {
        Err(ClientError::NoDerivedAddress)
    } else {
        Ok(
            (
                program_id,
                seq![
                    (metadata_pda(program_id, mint).unwrap().0, false, true),
                    (authority, true, false),
                ],
                MetadataInstructionView::MakeImmutable.encode(),
            ),
        )
    }
}

/// The operation that creates the account of a mint: an account of the
/// token program, of the size of a mint, holding the rent for that size.
pub open spec fn create_mint_account_spec(payer: Seq<u8>, mint: Seq<u8>) -> InstructionView {
    system_create_account(
        payer,
        mint,
        minimum_rent_spec(MINT_ACCOUNT_LEN as nat) as u64,
        MINT_ACCOUNT_LEN as u64,
        token_program_bytes(),
    )
}

/// The operation that initializes a mint, or the refusal to build it.
pub open spec fn initialize_mint2_spec(
    mint: Seq<u8>,
    mint_authority: Seq<u8>,
    freeze_authority: Option<Seq<u8>>,
    decimals: u8,
) -> Result<InstructionView, ClientError> {
    match token_initialize_mint2(
        token_program_bytes(),
        mint,
        mint_authority,
        freeze_authority,
        decimals,
    ) {
        Some(i) => Ok(i),
        None => Err(ClientError::TokenInstruction),
    }
}

/// The operation that changes the mint authority of a mint, or the refusal
/// to build it.
pub open spec fn set_mint_authority_spec(
    mint: Seq<u8>,
    new_authority: Option<Seq<u8>>,
    current_authority: Seq<u8>,
) -> Result<InstructionView, ClientError> {
    match token_set_authority(
        token_program_bytes(),
        mint,
        new_authority,
        AuthorityKind::MintTokens.number(),
        current_authority,
        Seq::empty(),
    ) {
        Some(i) => Ok(i),
        None => Err(ClientError::TokenInstruction),
    }
}

/// The operations that ask for a compute budget: the limit on compute units
/// first, the size of the heap after it, each only where it is asked for.
pub open spec fn budget_view(opts: ComputeBudgetOptions) -> Seq<InstructionView> {
    (match opts.units {
        Some(units) => seq![compute_unit_limit(units)],
        None => Seq::empty(),
    }) + (match opts.heap_bytes {
        Some(bytes) => seq![heap_frame(bytes)],
        None => Seq::empty(),
    })
}

/// A list of operations with those of a compute budget in front.
pub open spec fn with_budget_spec(
    opts: ComputeBudgetOptions,
    inner: Result<Seq<InstructionView>, ClientError>,
) -> Result<Seq<InstructionView>, ClientError> {
    match inner {
        Ok(list) => Ok(budget_view(opts) + list),
        Err(e) => Err(e),
    }
}

/// One operation as a list of operations.
pub open spec fn single_spec(inner: Result<InstructionView, ClientError>) -> Result<
    Seq<InstructionView>,
    ClientError,
> {
    match inner {
        Ok(i) => Ok(seq![i]),
        Err(e) => Err(e),
    }
}

/// A list of operations with one more at its end, or the first refusal.
pub open spec fn then(
    list: Result<Seq<InstructionView>, ClientError>,
    next: Result<InstructionView, ClientError>,
) -> Result<Seq<InstructionView>, ClientError> {
    match list {
        Err(e) => Err(e),
        Ok(l) => match next {
            Err(e) => Err(e),
            Ok(i) => Ok(l.push(i)),
        },
    }
}

/// The operations that create a mint and initialize it.
pub open spec fn create_and_init_mint_spec(
    payer: Seq<u8>,
    mint: Seq<u8>,
    mint_authority: Seq<u8>,
    freeze_authority: Option<Seq<u8>>,
    decimals: u8,
) -> Result<Seq<InstructionView>, ClientError> {
    then(
        Ok(seq![create_mint_account_spec(payer, mint)]),
        initialize_mint2_spec(mint, mint_authority, freeze_authority, decimals),
    )
}

/// The operations that create a mint and its record.
pub open spec fn create_token_with_metadata_spec(
    program_id: Seq<u8>,
    payer: Seq<u8>,
    mint: Seq<u8>,
    mint_authority: Seq<u8>,
    freeze_authority: Option<Seq<u8>>,
    decimals: u8,
    name: Seq<char>,
    symbol: Seq<char>,
    image: Seq<char>,
    description: Seq<char>,
    immutable: bool,
) -> Result<Seq<InstructionView>, ClientError> {
    then(
        create_and_init_mint_spec(payer, mint, mint_authority, freeze_authority, decimals),
        create_metadata_ix_spec(
            program_id,
            payer,
            mint,
            mint_authority,
            name,
            symbol,
            image,
            description,
            immutable,
        ),
    )
}

/// The operations that create a mint, its record and its attributes.
pub open spec fn create_token_with_metadata_and_attributes_spec(
    program_id: Seq<u8>,
    payer: Seq<u8>,
    mint: Seq<u8>,
    mint_authority: Seq<u8>,
    freeze_authority: Option<Seq<u8>>,
    decimals: u8,
    name: Seq<char>,
    symbol: Seq<char>,
    image: Seq<char>,
    description: Seq<char>,
    immutable: bool,
    attributes: Seq<PairView>,
) -> Result<Seq<InstructionView>, ClientError> {
    then(
        create_token_with_metadata_spec(
            program_id,
            payer,
            mint,
            mint_authority,
            freeze_authority,
            decimals,
            name,
            symbol,
            image,
            description,
            immutable,
        ),
        create_attributes_ix_spec(program_id, payer, mint, mint_authority, attributes),
    )
}

/// The operations that create a mint, give up its mint authority, and have
/// its freeze authority create the record.
pub open spec fn create_token_with_freeze_auth_metadata_spec(
    program_id: Seq<u8>,
    payer: Seq<u8>,
    mint: Seq<u8>,
    initial_mint_authority: Seq<u8>,
    freeze_authority: Seq<u8>,
    decimals: u8,
    name: Seq<char>,
    symbol: Seq<char>,
    image: Seq<char>,
    description: Seq<char>,
    immutable: bool,
) -> Result<Seq<InstructionView>, ClientError> {
    then(
        then(
            create_and_init_mint_spec(
                payer,
                mint,
                initial_mint_authority,
                Some(freeze_authority),
                decimals,
            ),
            set_mint_authority_spec(mint, None, initial_mint_authority),
        ),
        create_metadata_ix_spec(
            program_id,
            payer,
            mint,
            freeze_authority,
            name,
            symbol,
            image,
            description,
            immutable,
        ),
    )
}

/// The operations that hand the authority over and have the new authority
/// change the record.
pub open spec fn transfer_authority_then_update_spec(
    program_id: Seq<u8>,
    mint: Seq<u8>,
    current_authority: Seq<u8>,
    new_authority: Seq<u8>,
    name: Option<Seq<char>>,
    symbol: Option<Seq<char>>,
    image: Option<Seq<char>>,
    description: Option<Seq<char>>,
) -> Result<Seq<InstructionView>, ClientError> {
    then(
        single_spec(transfer_authority_ix_spec(program_id, mint, current_authority, new_authority)),
        update_metadata_ix_spec(program_id, mint, new_authority, name, symbol, image, description),
    )
}

/// Builds the operations that create the account of a mint and initialize
/// the mint with nine decimals.
pub fn create_and_init_mint_instructions(
    payer_pk: Address,
    mint_pk: Address,
    mint_authority: Address,
    freeze_authority: Option<Address>,
) -> (r: Result<[Instruction; 2], ClientError>)
    ensures
        match r {
            Ok(pair) => create_and_init_mint_spec(
                payer_pk@,
                mint_pk@,
                mint_authority@,
                option_address_view(freeze_authority),
                9,
            ) == Ok::<Seq<InstructionView>, ClientError>(instructions_view(pair@)),
            Err(e) => create_and_init_mint_spec(
                payer_pk@,
                mint_pk@,
                mint_authority@,
                option_address_view(freeze_authority),
                9,
            ) == Err::<Seq<InstructionView>, ClientError>(e),
        },
{
    let space = mint_account_len();
    let create_mint_ix = build_create_account(
        &payer_pk,
        &mint_pk,
        minimum_rent(space),
        space as u64,
        &token_program_id(),
    );
    let init_mint_ix = match build_initialize_mint2(
        &token_program_id(),
        &mint_pk,
        &mint_authority,
        &freeze_authority,
        9,
    ) {
        Some(ix) => ix,
        None => {
            return Err(ClientError::TokenInstruction);
        },
    };
    let ghost first = create_mint_ix@;
    let ghost second = init_mint_ix@;
    let out = [create_mint_ix, init_mint_ix];
    assert(instructions_view(out@) =~= seq![first].push(second));
    Ok(out)
}

/// Builds a `CreateMetadata` without looking at the size of the payload, and
/// returns it with the address of the record's account.
pub fn build_create_metadata_ix(
    program_id: Address,
    payer_pk: Address,
    mint_pk: Address,
    mint_authority_pk: Address,
    name: &str,
    symbol: &str,
    image: &str,
    description: &str,
    immutable: bool,
) -> (r: (Instruction, Address))
    requires
        metadata_pda(program_id@, mint_pk@) is Some,
        utf8_len(name@) <= u32::MAX,
        utf8_len(symbol@) <= u32::MAX,
        utf8_len(image@) <= u32::MAX,
        utf8_len(description@) <= u32::MAX,
    ensures
        r.1@ == metadata_pda(program_id@, mint_pk@).unwrap().0,
        r.0@ == (
            program_id@,
            seq![
                (payer_pk@, true, true),
                (system_program_bytes(), false, false),
                (mint_pk@, false, false),
                (r.1@, false, true),
                (mint_authority_pk@, true, false),
            ],
            MetadataInstructionView::CreateMetadata {
                name: name@,
                symbol: symbol@,
                image: image@,
                description: description@,
                immutable,
            }.encode(),
        ),
{
    let (metadata_pda, _bump) = find_metadata_pda_with_program(&program_id, &mint_pk);
    let data = MetadataInstruction::CreateMetadata {
        name: name.to_owned(),
        symbol: symbol.to_owned(),
        image: image.to_owned(),
        description: description.to_owned(),
        immutable,
    }.pack();
    let accounts = vec![
        AccountMeta::new(payer_pk, true),
        AccountMeta::new_readonly(system_program_id(), false),
        AccountMeta::new_readonly(mint_pk, false),
        AccountMeta::new(metadata_pda, false),
        AccountMeta::new_readonly(mint_authority_pk, true),
    ];
    let instruction = Instruction { program_id, accounts, data };
    assert(instruction@.1 =~= seq![
        (payer_pk@, true, true),
        (system_program_bytes(), false, false),
        (mint_pk@, false, false),
        (metadata_pda@, false, true),
        (mint_authority_pk@, true, false),
    ]);
    (instruction, metadata_pda)
}

/// A builder of operations for the registry at `program_id`.
pub struct TokenMetadataClient {
    pub program_id: Address,
}

impl TokenMetadataClient {
    pub fn new(program_id: Address) -> (c: TokenMetadataClient)
        ensures
            c.program_id == program_id,
    {
        TokenMetadataClient { program_id }
    }

    /// The address of the descriptive record of `mint`, with its bump seed.
    pub fn metadata_pda_and_bump(&self, mint: &Address) -> (r: (Address, u8))
        requires
            metadata_pda(self.program_id@, mint@) is Some,
        ensures
            metadata_pda(self.program_id@, mint@) == Some((r.0@, r.1)),
    {
        find_metadata_pda_with_program(&self.program_id, mint)
    }

    /// The address of the descriptive record of `mint`.
    pub fn metadata_pda(&self, mint: &Address) -> (r: Address)
        requires
            metadata_pda(self.program_id@, mint@) is Some,
        ensures
            metadata_pda(self.program_id@, mint@).unwrap().0 == r@,
    {
        let (pda, _bump) = self.metadata_pda_and_bump(mint);
        pda
    }

    /// The address of the attributes record of `mint`, with its bump seed.
    pub fn attributes_pda_and_bump(&self, mint: &Address) -> (r: (Address, u8))
        requires
            attributes_pda(self.program_id@, mint@) is Some,
        ensures
            attributes_pda(self.program_id@, mint@) == Some((r.0@, r.1)),
    {
        find_attributes_pda_with_program(&self.program_id, mint)
    }

    /// The address of the attributes record of `mint`.
    pub fn attributes_pda(&self, mint: &Address) -> (r: Address)
        requires
            attributes_pda(self.program_id@, mint@) is Some,
        ensures
            attributes_pda(self.program_id@, mint@).unwrap().0 == r@,
    {
        let (pda, _bump) = self.attributes_pda_and_bump(mint);
        pda
    }

    /// The address of the descriptive record of `mint`, or the refusal where
    /// the ledger finds none.
    fn metadata_address(&self, mint: &Address) -> (r: Result<Address, ClientError>)
        ensures
            match r {
                Ok(a) => metadata_pda(self.program_id@, mint@) is Some && metadata_pda(
                    self.program_id@,
                    mint@,
                ).unwrap().0 == a@,
                Err(e) => e == ClientError::NoDerivedAddress && metadata_pda(
                    self.program_id@,
                    mint@,
                ) is None,
            },
    {
        match try_find_metadata_pda_with_program(&self.program_id, mint) {
            Some(_) => Ok(self.metadata_pda(mint)),
            None => Err(ClientError::NoDerivedAddress),
        }
    }

    /// The address of the attributes record of `mint`, or the refusal where
    /// the ledger finds none.
    fn attributes_address(&self, mint: &Address) -> (r: Result<Address, ClientError>)
        ensures
            match r {
                Ok(a) => attributes_pda(self.program_id@, mint@) is Some && attributes_pda(
                    self.program_id@,
                    mint@,
                ).unwrap().0 == a@,
                Err(e) => e == ClientError::NoDerivedAddress && attributes_pda(
                    self.program_id@,
                    mint@,
                ) is None,
            },
    {
        match try_find_attributes_pda_with_program(&self.program_id, mint) {
            Some(_) => Ok(self.attributes_pda(mint)),
            None => Err(ClientError::NoDerivedAddress),
        }
    }

    /// Builds a `CreateMetadata`.
    ///
    /// Accounts: the payer (writable, signs); the system program; the mint;
    /// the record's account (writable); the mint authority or freeze
    /// authority (signs).
    pub fn create_metadata_ix(&self, params: CreateMetadataParams) -> (r: Result<
        Instruction,
        ClientError,
    >)
        ensures
            built_view(r) == create_metadata_ix_spec(
                self.program_id@,
                params.payer@,
                params.mint@,
                params.mint_or_freeze_authority@,
                params.name@,
                params.symbol@,
                params.image@,
                params.description@,
                params.immutable,
            ),
    {
        if try_find_metadata_pda_with_program(&self.program_id, &params.mint).is_none() {
            return Err(ClientError::NoDerivedAddress);
        }
        self.validate_metadata_fields(
            params.name.as_str(),
            params.symbol.as_str(),
            params.image.as_str(),
            params.description.as_str(),
        )?;
        let (ix, _metadata_pda) = build_create_metadata_ix(
            self.program_id,
            params.payer,
            params.mint,
            params.mint_or_freeze_authority,
            params.name.as_str(),
            params.symbol.as_str(),
            params.image.as_str(),
            params.description.as_str(),
            params.immutable,
        );
        Ok(ix)
    }

    /// Builds an `UpdateMetadata`.
    ///
    /// Accounts: the record's account (writable); the authority (signs).
    pub fn update_metadata_ix(&self, params: UpdateMetadataParams) -> (r: Result<
        Instruction,
        ClientError,
    >)
        ensures
            built_view(r) == update_metadata_ix_spec(
                self.program_id@,
                params.mint@,
                params.update_authority@,
                option_string_view(params.name),
                option_string_view(params.symbol),
                option_string_view(params.image),
                option_string_view(params.description),
            ),
    {
        let metadata_pda = self.metadata_address(&params.mint)?;
        self.validate_optional_metadata_fields(
            &params.name,
            &params.symbol,
            &params.image,
            &params.description,
        )?;
        let data = MetadataInstruction::UpdateMetadata {
            name: params.name,
            symbol: params.symbol,
            image: params.image,
            description: params.description,
        }.pack();
        let accounts = vec![
            AccountMeta::new(metadata_pda, false),
            AccountMeta::new_readonly(params.update_authority, true),
        ];
        let ix = Instruction { program_id: self.program_id, accounts, data };
        assert(ix@.1 =~= update_metadata_ix_spec(
            self.program_id@,
            params.mint@,
            params.update_authority@,
            option_string_view(params.name),
            option_string_view(params.symbol),
            option_string_view(params.image),
            option_string_view(params.description),
        ).unwrap().1);
        Ok(ix)
    }

    /// Builds a `CreateAttributes`.
    ///
    /// Accounts: the payer (writable, signs); the system program; the mint;
    /// the attributes' account (writable); the authority (signs); the
    /// record's account.
    pub fn create_attributes_ix(&self, params: CreateAttributesParams) -> (r: Result<
        Instruction,
        ClientError,
    >)
        ensures
            built_view(r) == create_attributes_ix_spec(
                self.program_id@,
                params.payer@,
                params.mint@,
                params.update_authority@,
                pairs_view(params.data@),
            ),
    {
        let metadata_pda = self.metadata_address(&params.mint)?;
        let attributes_pda = self.attributes_address(&params.mint)?;
        self.validate_attributes(&params.data)?;
        proof {
            lemma_accepted_batch_is_encodable(pairs_view(params.data@));
        }
        let data = MetadataInstruction::CreateAttributes { data: params.data }.pack();
        let accounts = vec![
            AccountMeta::new(params.payer, true),
            AccountMeta::new_readonly(system_program_id(), false),
            AccountMeta::new_readonly(params.mint, false),
            AccountMeta::new(attributes_pda, false),
            AccountMeta::new_readonly(params.update_authority, true),
            AccountMeta::new_readonly(metadata_pda, false),
        ];
        let ix = Instruction { program_id: self.program_id, accounts, data };
        assert(ix@.1 =~= create_attributes_ix_spec(
            self.program_id@,
            params.payer@,
            params.mint@,
            params.update_authority@,
            pairs_view(params.data@),
        ).unwrap().1);
        Ok(ix)
    }

    /// Builds a `ReplaceAttributes`.
    ///
    /// Accounts: the attributes' account (writable); the authority (signs);
    /// the record's account.
    pub fn replace_attributes_ix(&self, params: ReplaceAttributesParams) -> (r: Result<
        Instruction,
        ClientError,
    >)
        ensures
            built_view(r) == replace_attributes_ix_spec(
                self.program_id@,
                params.mint@,
                params.update_authority@,
                pairs_view(params.data@),
            ),
    {
        let metadata_pda = self.metadata_address(&params.mint)?;
        let attributes_pda = self.attributes_address(&params.mint)?;
        self.validate_attributes(&params.data)?;
        proof {
            lemma_accepted_batch_is_encodable(pairs_view(params.data@));
        }
        let data = MetadataInstruction::ReplaceAttributes { data: params.data }.pack();
        let accounts = vec![
            AccountMeta::new(attributes_pda, false),
            AccountMeta::new_readonly(params.update_authority, true),
            AccountMeta::new_readonly(metadata_pda, false),
        ];
        let ix = Instruction { program_id: self.program_id, accounts, data };
        assert(ix@.1 =~= replace_attributes_ix_spec(
            self.program_id@,
            params.mint@,
            params.update_authority@,
            pairs_view(params.data@),
        ).unwrap().1);
        Ok(ix)
    }

    /// Builds a `TransferAuthority`.
    ///
    /// Accounts: the record's account (writable); the authority (signs).
    pub fn transfer_authority_ix(&self, params: TransferAuthorityParams) -> (r: Result<
        Instruction,
        ClientError,
    >)
        ensures
            built_view(r) == transfer_authority_ix_spec(
                self.program_id@,
                params.mint@,
                params.current_update_authority@,
                params.new_authority@,
            ),
    {
        let metadata_pda = self.metadata_address(&params.mint)?;
        let data = MetadataInstruction::TransferAuthority {
            new_authority: params.new_authority,
        }.pack();
        let accounts = vec![
            AccountMeta::new(metadata_pda, false),
            AccountMeta::new_readonly(params.current_update_authority, true),
        ];
        let ix = Instruction { program_id: self.program_id, accounts, data };
        assert(ix@.1 =~= transfer_authority_ix_spec(
            self.program_id@,
            params.mint@,
            params.current_update_authority@,
            params.new_authority@,
        ).unwrap().1);
        Ok(ix)
    }

    /// Builds a `MakeImmutable`.
    ///
    /// Accounts: the record's account (writable); the authority (signs).
    pub fn make_immutable_ix(&self, params: MakeImmutableParams) -> (r: Result<
        Instruction,
        ClientError,
    >)
        ensures
            built_view(r) == make_immutable_ix_spec(
                self.program_id@,
                params.mint@,
                params.current_update_authority@,
            ),
    {
        let metadata_pda = self.metadata_address(&params.mint)?;
        let data = MetadataInstruction::MakeImmutable.pack();
        let accounts = vec![
            AccountMeta::new(metadata_pda, false),
            AccountMeta::new_readonly(params.current_update_authority, true),
        ];
        let ix = Instruction { program_id: self.program_id, accounts, data };
        assert(ix@.1 =~= make_immutable_ix_spec(
            self.program_id@,
            params.mint@,
            params.current_update_authority@,
        ).unwrap().1);
        Ok(ix)
    }

    /// Builds the operation of the system program that creates the account
    /// of a mint.
    pub fn create_mint_account_ix(&self, payer: Address, mint: Address) -> (r: Instruction)
        ensures
            r@ == create_mint_account_spec(payer@, mint@),
    {
        let space = mint_account_len();
        build_create_account(&payer, &mint, minimum_rent(space), space as u64, &token_program_id())
    }

    /// Builds the operation of the token program that initializes a mint.
    pub fn initialize_mint2_ix(
        &self,
        mint: Address,
        mint_authority: Address,
        freeze_authority: Option<Address>,
        decimals: u8,
    ) -> (r: Result<Instruction, ClientError>)
        ensures
            built_view(r) == initialize_mint2_spec(
                mint@,
                mint_authority@,
                option_address_view(freeze_authority),
                decimals,
            ),
    {
        match build_initialize_mint2(
            &token_program_id(),
            &mint,
            &mint_authority,
            &freeze_authority,
            decimals,
        ) {
            Some(ix) => Ok(ix),
            None => Err(ClientError::TokenInstruction),
        }
    }

    /// Builds the operation of the token program that hands the authority to
    /// mint to `new_authority`, or to nobody.
    pub fn set_mint_authority_ix(
        &self,
        mint: Address,
        new_authority: Option<Address>,
        current_authority: Address,
    ) -> (r: Result<Instruction, ClientError>)
        ensures
            built_view(r) == set_mint_authority_spec(
                mint@,
                option_address_view(new_authority),
                current_authority@,
            ),
    {
        let signers: Vec<Address> = Vec::new();
        assert(addresses_view(signers@) =~= Seq::<Seq<u8>>::empty());
        match build_set_authority(
            &token_program_id(),
            &mint,
            &new_authority,
            AuthorityKind::MintTokens,
            &current_authority,
            &signers,
        ) {
            Some(ix) => Ok(ix),
            None => Err(ClientError::TokenInstruction),
        }
    }

    /// Builds the operation that limits the compute units of a transaction.
    pub fn set_compute_unit_limit_ix(&self, units: u32) -> (r: Instruction)
        ensures
            r@ == compute_unit_limit(units),
    {
        build_compute_unit_limit(units)
    }

    /// Builds the operation that asks for a heap of `bytes` bytes.
    pub fn request_heap_frame_ix(&self, bytes: u32) -> (r: Instruction)
        ensures
            r@ == heap_frame(bytes),
    {
        build_heap_frame(bytes)
    }

    /// The operations that ask for the compute budget `opts`.
    pub fn compute_budget_ixs(&self, opts: &ComputeBudgetOptions) -> (out: Vec<Instruction>)
        ensures
            instructions_view(out@) == budget_view(*opts),
    {
        let mut out: Vec<Instruction> = Vec::new();
        if let Some(units) = opts.units {
            out.push(self.set_compute_unit_limit_ix(units));
        }
        if let Some(bytes) = opts.heap_bytes {
            out.push(self.request_heap_frame_ix(bytes));
        }
        assert(instructions_view(out@) =~= budget_view(*opts));
        out
    }

    /// Refuses the text fields of a new record where one is beyond its cap,
    /// and says which.
    pub fn validate_metadata_fields(
        &self,
        name: &str,
        symbol: &str,
        image: &str,
        description: &str,
    ) -> (r: Result<(), ClientError>)
        ensures
            match r {
                Ok(_) => metadata_fields_error(name@, symbol@, image@, description@) is None,
                Err(e) => metadata_fields_error(name@, symbol@, image@, description@) == Some(e),
            },
    {
        if name.as_bytes().len() > NAME_MAX_LEN {
            return Err(ClientError::NameTooLong);
        }
        if symbol.as_bytes().len() > SYMBOL_MAX_LEN {
            return Err(ClientError::SymbolTooLong);
        }
        if image.as_bytes().len() > IMAGE_MAX_LEN {
            return Err(ClientError::ImageTooLong);
        }
        if description.as_bytes().len() > DESCRIPTION_MAX_LEN {
            return Err(ClientError::DescriptionTooLong);
        }
        Ok(())
    }

    /// Whether a field that may be absent is given and beyond `cap`.
    fn is_beyond(field: &Option<String>, cap: usize) -> (b: bool)
        ensures
            b == beyond(option_string_view(*field), cap as nat),
    {
        match field {
            Some(s) => s.as_str().as_bytes().len() > cap,
            None => false,
        }
    }

    /// Refuses the text fields of a change where one that is given is beyond
    /// its cap, and says which.
    pub fn validate_optional_metadata_fields(
        &self,
        name: &Option<String>,
        symbol: &Option<String>,
        image: &Option<String>,
        description: &Option<String>,
    ) -> (r: Result<(), ClientError>)
        ensures
            match r {
                Ok(_) => optional_metadata_fields_error(
                    option_string_view(*name),
                    option_string_view(*symbol),
                    option_string_view(*image),
                    option_string_view(*description),
                ) is None,
                Err(e) => optional_metadata_fields_error(
                    option_string_view(*name),
                    option_string_view(*symbol),
                    option_string_view(*image),
                    option_string_view(*description),
                ) == Some(e),
            },
    {
        if Self::is_beyond(name, NAME_MAX_LEN) {
            return Err(ClientError::NameTooLong);
        }
        if Self::is_beyond(symbol, SYMBOL_MAX_LEN) {
            return Err(ClientError::SymbolTooLong);
        }
        if Self::is_beyond(image, IMAGE_MAX_LEN) {
            return Err(ClientError::ImageTooLong);
        }
        if Self::is_beyond(description, DESCRIPTION_MAX_LEN) {
            return Err(ClientError::DescriptionTooLong);
        }
        Ok(())
    }

    /// Refuses a batch of attributes that the registry would refuse, and
    /// says why: too many pairs, or the fault of the first faulty pair.
    pub fn validate_attributes(&self, data: &Vec<(String, String)>) -> (r: Result<
        (),
        ClientError,
    >)
        ensures
            match r {
                Ok(_) => attributes_refusal(pairs_view(data@)) is None,
                Err(e) => attributes_refusal(pairs_view(data@)) == Some(e),
            },
    {
        let n: usize = data.len();
        if n > MAX_ATTRIBUTES {
            return Err(ClientError::TooManyAttributes);
        }
        let ghost ps = pairs_view(data@);
        let mut i: usize = 0;
        assert(ps.skip(0) =~= ps);
        while i < n
            invariant
                i <= n,
                n == data@.len(),
                n <= MAX_ATTRIBUTES,
                ps == pairs_view(data@),
                first_attribute_error(ps) == first_attribute_error(ps.skip(i as int)),
            decreases n - i,
        {
            let k: &str = data[i].0.as_str();
            let v: &str = data[i].1.as_str();
            proof {
                let rest = ps.skip(i as int);
                assert(rest[0] == ps[i as int]);
                assert(ps[i as int] == (k@, v@));
                assert(rest.drop_first() =~= ps.skip(i + 1));
            }
            if k.is_empty() || v.is_empty() {
                return Err(ClientError::EmptyAttribute);
            }
            if k.as_bytes().len() > MAX_KEY_LENGTH {
                return Err(ClientError::AttributeKeyTooLong);
            }
            if v.as_bytes().len() > MAX_VALUE_LENGTH {
                return Err(ClientError::AttributeValueTooLong);
            }
            i += 1;
        }
        Ok(())
    }

    /// Appends `next` to `list`.
    fn and_then(list: Vec<Instruction>, next: Instruction) -> (out: Vec<Instruction>)
        ensures
            instructions_view(out@) == instructions_view(list@).push(next@),
    {
        let mut out = list;
        out.push(next);
        assert(instructions_view(out@) =~= instructions_view(list@).push(next@));
        out
    }

    /// Puts the operations of the compute budget `budget` in front of
    /// `inner`.
    fn with_budget(&self, budget: &ComputeBudgetOptions, inner: Vec<Instruction>) -> (out: Vec<
        Instruction,
    >)
        ensures
            instructions_view(out@) == budget_view(*budget) + instructions_view(inner@),
    {
        let mut out = self.compute_budget_ixs(budget);
        let mut rest = inner;
        let ghost front = out@;
        out.append(&mut rest);
        assert(instructions_view(out@) =~= instructions_view(front) + instructions_view(inner@));
        out
    }

    /// Builds the operations that create the account of a mint and
    /// initialize the mint.
    fn create_and_init_mint(
        &self,
        payer: Address,
        mint: Address,
        mint_authority: Address,
        freeze_authority: Option<Address>,
        decimals: u8,
    ) -> (r: Result<Vec<Instruction>, ClientError>)
        ensures
            built_list_view(r) == create_and_init_mint_spec(
                payer@,
                mint@,
                mint_authority@,
                option_address_view(freeze_authority),
                decimals,
            ),
    {
        let create_mint_ix = self.create_mint_account_ix(payer, mint);
        let init_mint_ix = self.initialize_mint2_ix(mint, mint_authority, freeze_authority, decimals)?;
        let out = vec![create_mint_ix, init_mint_ix];
        assert(instructions_view(out@) =~= seq![create_mint_ix@].push(init_mint_ix@));
        Ok(out)
    }

    /// Builds the operations that create a mint and its record: the account
    /// of the mint, the mint, the record.
    pub fn create_token_with_metadata_tx(&self, params: TxCreateTokenWithMetadataParams) -> (r:
        Result<Vec<Instruction>, ClientError>)
        ensures
            built_list_view(r) == create_token_with_metadata_spec(
                self.program_id@,
                params.payer@,
                params.mint@,
                params.mint_authority@,
                option_address_view(params.freeze_authority),
                params.decimals,
                params.name@,
                params.symbol@,
                params.image@,
                params.description@,
                params.immutable,
            ),
    {
        let mint = self.create_and_init_mint(
            params.payer,
            params.mint,
            params.mint_authority,
            params.freeze_authority,
            params.decimals,
        )?;
        let create_md_ix = self.create_metadata_ix(
            CreateMetadataParams {
                payer: params.payer,
                mint: params.mint,
                mint_or_freeze_authority: params.mint_authority,
                name: params.name,
                symbol: params.symbol,
                image: params.image,
                description: params.description,
                immutable: params.immutable,
            },
        )?;
        Ok(Self::and_then(mint, create_md_ix))
    }

    /// `create_token_with_metadata_tx` with the operations of a compute
    /// budget in front.
    pub fn create_token_with_metadata_tx_with_budget(
        &self,
        params: TxCreateTokenWithMetadataParams,
        budget: ComputeBudgetOptions,
    ) -> (r: Result<Vec<Instruction>, ClientError>)
        ensures
            built_list_view(r) == with_budget_spec(
                budget,
                create_token_with_metadata_spec(
                    self.program_id@,
                    params.payer@,
                    params.mint@,
                    params.mint_authority@,
                    option_address_view(params.freeze_authority),
                    params.decimals,
                    params.name@,
                    params.symbol@,
                    params.image@,
                    params.description@,
                    params.immutable,
                ),
            ),
    {
        let inner = self.create_token_with_metadata_tx(params)?;
        Ok(self.with_budget(&budget, inner))
    }

    /// Builds the operations that create a mint, its record and its
    /// attributes: the account of the mint, the mint, the record, the
    /// attributes.
    pub fn create_token_with_metadata_and_attributes_tx(
        &self,
        params: TxCreateTokenWithMetadataAndAttributesParams,
    ) -> (r: Result<Vec<Instruction>, ClientError>)
        ensures
            built_list_view(r) == create_token_with_metadata_and_attributes_spec(
                self.program_id@,
                params.payer@,
                params.mint@,
                params.mint_authority@,
                option_address_view(params.freeze_authority),
                params.decimals,
                params.name@,
                params.symbol@,
                params.image@,
                params.description@,
                params.immutable,
                pairs_view(params.attributes@),
            ),
    {
        let mint = self.create_and_init_mint(
            params.payer,
            params.mint,
            params.mint_authority,
            params.freeze_authority,
            params.decimals,
        )?;
        let create_md_ix = self.create_metadata_ix(
            CreateMetadataParams {
                payer: params.payer,
                mint: params.mint,
                mint_or_freeze_authority: params.mint_authority,
                name: params.name,
                symbol: params.symbol,
                image: params.image,
                description: params.description,
                immutable: params.immutable,
            },
        )?;
        let create_attrs_ix = self.create_attributes_ix(
            CreateAttributesParams {
                payer: params.payer,
                mint: params.mint,
                update_authority: params.mint_authority,
                data: params.attributes,
            },
        )?;
        Ok(Self::and_then(Self::and_then(mint, create_md_ix), create_attrs_ix))
    }

    /// `create_token_with_metadata_and_attributes_tx` with the operations of
    /// a compute budget in front.
    pub fn create_token_with_metadata_and_attributes_tx_with_budget(
        &self,
        params: TxCreateTokenWithMetadataAndAttributesParams,
        budget: ComputeBudgetOptions,
    ) -> (r: Result<Vec<Instruction>, ClientError>)
        ensures
            built_list_view(r) == with_budget_spec(
                budget,
                create_token_with_metadata_and_attributes_spec(
                    self.program_id@,
                    params.payer@,
                    params.mint@,
                    params.mint_authority@,
                    option_address_view(params.freeze_authority),
                    params.decimals,
                    params.name@,
                    params.symbol@,
                    params.image@,
                    params.description@,
                    params.immutable,
                    pairs_view(params.attributes@),
                ),
            ),
    {
        let inner = self.create_token_with_metadata_and_attributes_tx(params)?;
        Ok(self.with_budget(&budget, inner))
    }

    /// Builds the operations that create a mint whose freeze authority
    /// creates the record: the account of the mint, the mint with its freeze
    /// authority, the giving up of the mint authority, the record.
    pub fn create_token_with_freeze_auth_metadata_tx(
        &self,
        params: TxCreateTokenWithFreezeAuthMetadataParams,
    ) -> (r: Result<Vec<Instruction>, ClientError>)
        ensures
            built_list_view(r) == create_token_with_freeze_auth_metadata_spec(
                self.program_id@,
                params.payer@,
                params.mint@,
                params.initial_mint_authority@,
                params.freeze_authority@,
                params.decimals,
                params.name@,
                params.symbol@,
                params.image@,
                params.description@,
                params.immutable,
            ),
    {
        let mint = self.create_and_init_mint(
            params.payer,
            params.mint,
            params.initial_mint_authority,
            Some(params.freeze_authority),
            params.decimals,
        )?;
        let clear_mint_auth_ix = self.set_mint_authority_ix(
            params.mint,
            None,
            params.initial_mint_authority,
        )?;
        let create_md_ix = self.create_metadata_ix(
            CreateMetadataParams {
                payer: params.payer,
                mint: params.mint,
                mint_or_freeze_authority: params.freeze_authority,
                name: params.name,
                symbol: params.symbol,
                image: params.image,
                description: params.description,
                immutable: params.immutable,
            },
        )?;
        Ok(Self::and_then(Self::and_then(mint, clear_mint_auth_ix), create_md_ix))
    }

    /// `create_token_with_freeze_auth_metadata_tx` with the operations of a
    /// compute budget in front.
    pub fn create_token_with_freeze_auth_metadata_tx_with_budget(
        &self,
        params: TxCreateTokenWithFreezeAuthMetadataParams,
        budget: ComputeBudgetOptions,
    ) -> (r: Result<Vec<Instruction>, ClientError>)
        ensures
            built_list_view(r) == with_budget_spec(
                budget,
                create_token_with_freeze_auth_metadata_spec(
                    self.program_id@,
                    params.payer@,
                    params.mint@,
                    params.initial_mint_authority@,
                    params.freeze_authority@,
                    params.decimals,
                    params.name@,
                    params.symbol@,
                    params.image@,
                    params.description@,
                    params.immutable,
                ),
            ),
    {
        let inner = self.create_token_with_freeze_auth_metadata_tx(params)?;
        Ok(self.with_budget(&budget, inner))
    }

    /// One operation as a list.
    fn single(ix: Instruction) -> (out: Vec<Instruction>)
        ensures
            instructions_view(out@) == seq![ix@],
    {
        let out = vec![ix];
        assert(instructions_view(out@) =~= seq![ix@]);
        out
    }

    /// `create_attributes_ix` as a list of one operation.
    pub fn create_attributes_tx(&self, params: CreateAttributesParams) -> (r: Result<
        Vec<Instruction>,
        ClientError,
    >)
        ensures
            built_list_view(r) == single_spec(
                create_attributes_ix_spec(
                    self.program_id@,
                    params.payer@,
                    params.mint@,
                    params.update_authority@,
                    pairs_view(params.data@),
                ),
            ),
    {
        Ok(Self::single(self.create_attributes_ix(params)?))
    }

    /// `create_attributes_tx` with the operations of a compute budget in
    /// front.
    pub fn create_attributes_tx_with_budget(
        &self,
        params: CreateAttributesParams,
        budget: ComputeBudgetOptions,
    ) -> (r: Result<Vec<Instruction>, ClientError>)
        ensures
            built_list_view(r) == with_budget_spec(
                budget,
                single_spec(
                    create_attributes_ix_spec(
                        self.program_id@,
                        params.payer@,
                        params.mint@,
                        params.update_authority@,
                        pairs_view(params.data@),
                    ),
                ),
            ),
    {
        let inner = self.create_attributes_tx(params)?;
        Ok(self.with_budget(&budget, inner))
    }

    /// `replace_attributes_ix` as a list of one operation.
    pub fn replace_attributes_tx(&self, params: ReplaceAttributesParams) -> (r: Result<
        Vec<Instruction>,
        ClientError,
    >)
        ensures
            built_list_view(r) == single_spec(
                replace_attributes_ix_spec(
                    self.program_id@,
                    params.mint@,
                    params.update_authority@,
                    pairs_view(params.data@),
                ),
            ),
    {
        Ok(Self::single(self.replace_attributes_ix(params)?))
    }

    /// `replace_attributes_tx` with the operations of a compute budget in
    /// front.
    pub fn replace_attributes_tx_with_budget(
        &self,
        params: ReplaceAttributesParams,
        budget: ComputeBudgetOptions,
    ) -> (r: Result<Vec<Instruction>, ClientError>)
        ensures
            built_list_view(r) == with_budget_spec(
                budget,
                single_spec(
                    replace_attributes_ix_spec(
                        self.program_id@,
                        params.mint@,
                        params.update_authority@,
                        pairs_view(params.data@),
                    ),
                ),
            ),
    {
        let inner = self.replace_attributes_tx(params)?;
        Ok(self.with_budget(&budget, inner))
    }

    /// Builds the operations that hand the authority over and have the new
    /// authority change the record. Both authorities have to sign.
    pub fn transfer_authority_then_update_tx(&self, params: TxTransferAuthorityThenUpdateParams)
        -> (r: Result<Vec<Instruction>, ClientError>)
        ensures
            built_list_view(r) == transfer_authority_then_update_spec(
                self.program_id@,
                params.mint@,
                params.current_update_authority@,
                params.new_authority@,
                option_string_view(params.name),
                option_string_view(params.symbol),
                option_string_view(params.image),
                option_string_view(params.description),
            ),
    {
        let transfer_ix = self.transfer_authority_ix(
            TransferAuthorityParams {
                mint: params.mint,
                current_update_authority: params.current_update_authority,
                new_authority: params.new_authority,
            },
        )?;
        let update_ix = self.update_metadata_ix(
            UpdateMetadataParams {
                mint: params.mint,
                update_authority: params.new_authority,
                name: params.name,
                symbol: params.symbol,
                image: params.image,
                description: params.description,
            },
        )?;
        Ok(Self::and_then(Self::single(transfer_ix), update_ix))
    }

    /// `transfer_authority_then_update_tx` with the operations of a compute
    /// budget in front.
    pub fn transfer_authority_then_update_tx_with_budget(
        &self,
        params: TxTransferAuthorityThenUpdateParams,
        budget: ComputeBudgetOptions,
    ) -> (r: Result<Vec<Instruction>, ClientError>)
        ensures
            built_list_view(r) == with_budget_spec(
                budget,
                transfer_authority_then_update_spec(
                    self.program_id@,
                    params.mint@,
                    params.current_update_authority@,
                    params.new_authority@,
                    option_string_view(params.name),
                    option_string_view(params.symbol),
                    option_string_view(params.image),
                    option_string_view(params.description),
                ),
            ),
    {
        let inner = self.transfer_authority_then_update_tx(params)?;
        Ok(self.with_budget(&budget, inner))
    }

    /// `make_immutable_ix` as a list of one operation.
    pub fn make_immutable_tx(&self, params: MakeImmutableParams) -> (r: Result<
        Vec<Instruction>,
        ClientError,
    >)
        ensures
            built_list_view(r) == single_spec(
                make_immutable_ix_spec(
                    self.program_id@,
                    params.mint@,
                    params.current_update_authority@,
                ),
            ),
    {
        Ok(Self::single(self.make_immutable_ix(params)?))
    }

    /// `make_immutable_tx` with the operations of a compute budget in front.
    pub fn make_immutable_tx_with_budget(
        &self,
        params: MakeImmutableParams,
        budget: ComputeBudgetOptions,
    ) -> (r: Result<Vec<Instruction>, ClientError>)
        ensures
            built_list_view(r) == with_budget_spec(
                budget,
                single_spec(
                    make_immutable_ix_spec(
                        self.program_id@,
                        params.mint@,
                        params.current_update_authority@,
                    ),
                ),
            ),
    {
        let inner = self.make_immutable_tx(params)?;
        Ok(self.with_budget(&budget, inner))
    }
}

} // verus!
