//! The failures that an operation can end in.

use vstd::prelude::*;
use vstd::std_specs::convert::FromSpecImpl;

verus! {

/// Failures that belong to the metadata registry itself.
#[derive(Clone, Copy, Debug, PartialEq, Eq, Structural)]
pub enum MetadataError {
    /// The mint is not owned by the token program, or is not an initialized mint.
    InvalidMint,
    /// The record has already been created.
    MetadataAlreadyExists,
    /// No record was found.
    MetadataNotFound,
    /// The signer is not the authority, or the record is immutable.
    InvalidAuthority,
    /// The payload is malformed.
    InvalidInstructionData,
    /// A text field is longer than its cap.
    StringTooLong,
    /// The attribute list has more pairs than the cap.
    TooManyAttributes,
}

impl MetadataError {
    /// The number under which the ledger reports this failure.
    pub open spec fn spec_code(self) -> u32 {
        match self {
            MetadataError::InvalidMint => 0,
            MetadataError::MetadataAlreadyExists => 1,
            MetadataError::MetadataNotFound => 2,
            MetadataError::InvalidAuthority => 3,
            MetadataError::InvalidInstructionData => 4,
            MetadataError::StringTooLong => 5,
            MetadataError::TooManyAttributes => 6,
        }
    }

    /// The short diagnostic shown to a user.
    pub open spec fn spec_message(self) -> Seq<char> {
        match self {
            MetadataError::InvalidMint => "Invalid mint"@,
            MetadataError::MetadataAlreadyExists => "Metadata already exists"@,
            MetadataError::MetadataNotFound => "Metadata not found"@,
            MetadataError::InvalidAuthority => "Invalid authority"@,
            MetadataError::InvalidInstructionData => "Invalid instruction data"@,
            MetadataError::StringTooLong => "String too long"@,
            MetadataError::TooManyAttributes => "Too many attributes"@,
        }
    }

    pub fn code(&self) -> (c: u32)
        ensures
            c == self.spec_code(),
    {
        match self {
            MetadataError::InvalidMint => 0,
            MetadataError::MetadataAlreadyExists => 1,
            MetadataError::MetadataNotFound => 2,
            MetadataError::InvalidAuthority => 3,
            MetadataError::InvalidInstructionData => 4,
            MetadataError::StringTooLong => 5,
            MetadataError::TooManyAttributes => 6,
        }
    }

    /// The failure that is reported under `code`, if there is one.
    pub fn from_code(code: u32) -> (r: Option<MetadataError>)
        ensures
            match r {
                Some(e) => e.spec_code() == code,
                None => code > 6,
            },
    {
        match code {
            0 => Some(MetadataError::InvalidMint),
            1 => Some(MetadataError::MetadataAlreadyExists),
            2 => Some(MetadataError::MetadataNotFound),
            3 => Some(MetadataError::InvalidAuthority),
            4 => Some(MetadataError::InvalidInstructionData),
            5 => Some(MetadataError::StringTooLong),
            6 => Some(MetadataError::TooManyAttributes),
            _ => None,
        }
    }

    pub fn message(&self) -> (s: &'static str)
        ensures
            s@ == self.spec_message(),
    {
        match self {
            MetadataError::InvalidMint => "Invalid mint",
            MetadataError::MetadataAlreadyExists => "Metadata already exists",
            MetadataError::MetadataNotFound => "Metadata not found",
            MetadataError::InvalidAuthority => "Invalid authority",
            MetadataError::InvalidInstructionData => "Invalid instruction data",
            MetadataError::StringTooLong => "String too long",
            MetadataError::TooManyAttributes => "Too many attributes",
        }
    }

    /// The name of this family of failures.
    pub fn type_of() -> (s: &'static str)
        ensures
            s@ == "MetadataError"@,
    {
        "MetadataError"
    }
}

/// Every way in which an operation can fail. A failed operation has changed
/// no account.
#[derive(Clone, Copy, Debug, PartialEq, Eq, Structural)]
pub enum ProcessError {
    /// A failure of the registry itself.
    Custom(MetadataError),
    /// The operation's bytes are no encoding of an operation.
    InvalidInstructionData,
    /// An account's bytes are not what the operation needs there.
    InvalidAccountData,
    /// A program is not at the address at which it is expected.
    IncorrectProgramId,
    /// An account that has to sign did not.
    MissingRequiredSignature,
    /// The record has not been created yet.
    UninitializedAccount,
    /// The operation names fewer accounts than it reads.
    NotEnoughAccountKeys,
    /// An account is not at the address derived for it.
    InvalidSeeds,
    /// An account that holds a record is not owned by the registry.
    InvalidAccountOwner,
}

impl ProcessError {
    /// The short diagnostic shown to a user.
    pub open spec fn spec_message(self) -> Seq<char> {
        match self {
            ProcessError::Custom(e) => e.spec_message(),
            ProcessError::InvalidInstructionData => "Invalid operation"@,
            ProcessError::InvalidAccountData => "Invalid account data"@,
            ProcessError::IncorrectProgramId => "Incorrect program address"@,
            ProcessError::MissingRequiredSignature => "Missing required signature"@,
            ProcessError::UninitializedAccount => "Record not created"@,
            ProcessError::NotEnoughAccountKeys => "Not enough accounts"@,
            ProcessError::InvalidSeeds => "Account not at its derived address"@,
            ProcessError::InvalidAccountOwner => "Account not owned by the registry"@,
        }
    }

    pub fn message(&self) -> (s: &'static str)
        ensures
            s@ == self.spec_message(),
    {
        match self {
            ProcessError::Custom(e) => e.message(),
            ProcessError::InvalidInstructionData => "Invalid operation",
            ProcessError::InvalidAccountData => "Invalid account data",
            ProcessError::IncorrectProgramId => "Incorrect program address",
            ProcessError::MissingRequiredSignature => "Missing required signature",
            ProcessError::UninitializedAccount => "Record not created",
            ProcessError::NotEnoughAccountKeys => "Not enough accounts",
            ProcessError::InvalidSeeds => "Account not at its derived address",
            ProcessError::InvalidAccountOwner => "Account not owned by the registry",
        }
    }
}

impl From<MetadataError> for ProcessError {
    fn from(e: MetadataError) -> (r: ProcessError) {
        ProcessError::Custom(e)
    }
}

impl FromSpecImpl<MetadataError> for ProcessError {
    open spec fn obeys_from_spec() -> bool {
        true
    }

    open spec fn from_spec(e: MetadataError) -> ProcessError {
        ProcessError::Custom(e)
    }
}

} // verus!
