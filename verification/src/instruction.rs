//! The six operations and their byte encoding.
//!
//! An operation is written as one byte that says which of the six it is,
//! followed by its fields in the order in which they are declared.

use vstd::prelude::*;

use crate::address::Address;
use crate::error::ProcessError;
use crate::wire::{
    encode_bool, encode_option_string, encode_pair_list, encode_string, get_address, get_bool,
    get_option_string, get_pair_list, get_string, get_u8, lemma_address_taken,
    lemma_append_assoc, lemma_bool_taken, lemma_option_string_taken, lemma_pair_list_taken,
    lemma_string_taken, lemma_take_address, lemma_take_bool, lemma_u8_taken,
    lemma_take_option_string, lemma_take_pair_list, lemma_take_string, lemma_take_u8,
    option_string_view, pairs_fit, pairs_view, put_address, put_bool, put_option_string,
    put_pair_list, put_string, take_address, take_bool, take_option_string, take_pair_list,
    take_string, take_u8, utf8_len, PairView,
};

verus! {

/// An operation of the registry with its payload.
#[allow(inconsistent_fields)]
#[derive(Debug, Clone, PartialEq, Eq)]
pub enum MetadataInstruction {
    /// Create the descriptive record of a mint.
    CreateMetadata {
        /// The name of the token.
        name: String,
        /// The symbol of the token.
        symbol: String,
        /// Where the token's image is found.
        image: String,
        /// The description of the token.
        description: String,
        /// Whether the record is immutable from the start.
        immutable: bool,
    },
    /// Change the fields that are given and leave the others as they are.
    UpdateMetadata {
        /// The new name, if it changes.
        name: Option<String>,
        /// The new symbol, if it changes.
        symbol: Option<String>,
        /// The new image reference, if it changes.
        image: Option<String>,
        /// The new description, if it changes.
        description: Option<String>,
    },
    /// Create the attributes record of a mint.
    CreateAttributes {
        /// The pairs to store.
        data: Vec<(String, String)>,
    },
    /// Replace all stored pairs.
    ReplaceAttributes {
        /// The pairs to store in place of the old ones.
        data: Vec<(String, String)>,
    },
    /// Hand the update authority to another address.
    TransferAuthority {
        /// The address that becomes the authority.
        new_authority: Address,
    },
    /// Give up the update authority for good.
    MakeImmutable,
}

/// A `MetadataInstruction` as a mathematical value.
#[allow(inconsistent_fields)]
pub ghost enum MetadataInstructionView {
    CreateMetadata {
        name: Seq<char>,
        symbol: Seq<char>,
        image: Seq<char>,
        description: Seq<char>,
        immutable: bool,
    },
    UpdateMetadata {
        name: Option<Seq<char>>,
        symbol: Option<Seq<char>>,
        image: Option<Seq<char>>,
        description: Option<Seq<char>>,
    },
    CreateAttributes { data: Seq<PairView> },
    ReplaceAttributes { data: Seq<PairView> },
    TransferAuthority { new_authority: Seq<u8> },
    MakeImmutable,
}

/// An optional string is short enough for its length to be written.
pub open spec fn option_fits(s: Option<Seq<char>>) -> bool {
    s matches Some(t) ==> utf8_len(t) <= u32::MAX
}

impl MetadataInstructionView {
    /// The address in it has 32 bytes.
    pub open spec fn wf(self) -> bool {
        self matches MetadataInstructionView::TransferAuthority { new_authority }
            ==> new_authority.len() == 32
    }

    /// Every count and length in the payload is small enough to be written.
    pub open spec fn encodable(self) -> bool {
        match self {
            MetadataInstructionView::CreateMetadata { name, symbol, image, description, .. } => {
                &&& utf8_len(name) <= u32::MAX
                &&& utf8_len(symbol) <= u32::MAX
                &&& utf8_len(image) <= u32::MAX
                &&& utf8_len(description) <= u32::MAX
            },
            MetadataInstructionView::UpdateMetadata { name, symbol, image, description } => {
                &&& option_fits(name)
                &&& option_fits(symbol)
                &&& option_fits(image)
                &&& option_fits(description)
            },
            MetadataInstructionView::CreateAttributes { data } => {
                &&& data.len() <= u32::MAX
                &&& pairs_fit(data)
            },
            MetadataInstructionView::ReplaceAttributes { data } => {
                &&& data.len() <= u32::MAX
                &&& pairs_fit(data)
            },
            MetadataInstructionView::TransferAuthority { .. } => true,
            MetadataInstructionView::MakeImmutable => true,
        }
    }

    /// The operation's bytes.
    pub open spec fn encode(self) -> Seq<u8> {
        match self {
            MetadataInstructionView::CreateMetadata {
                name,
                symbol,
                image,
                description,
                immutable,
            } => seq![0u8] + encode_string(name) + encode_string(symbol) + encode_string(image)
                + encode_string(description) + encode_bool(immutable),
            MetadataInstructionView::UpdateMetadata { name, symbol, image, description } => seq![
                1u8,
            ] + encode_option_string(name) + encode_option_string(symbol) + encode_option_string(
                image,
            ) + encode_option_string(description),
            MetadataInstructionView::CreateAttributes { data } => seq![2u8] + encode_pair_list(
                data,
            ),
            MetadataInstructionView::ReplaceAttributes { data } => seq![3u8] + encode_pair_list(
                data,
            ),
            MetadataInstructionView::TransferAuthority { new_authority } => seq![4u8]
                + new_authority,
            MetadataInstructionView::MakeImmutable => seq![5u8],
        }
    }
}

impl View for MetadataInstruction {
    type V = MetadataInstructionView;

    open spec fn view(&self) -> MetadataInstructionView {
        match self {
            MetadataInstruction::CreateMetadata { name, symbol, image, description, immutable } => {
                MetadataInstructionView::CreateMetadata {
                    name: name@,
                    symbol: symbol@,
                    image: image@,
                    description: description@,
                    immutable: *immutable,
                }
            },
            MetadataInstruction::UpdateMetadata { name, symbol, image, description } => {
                MetadataInstructionView::UpdateMetadata {
                    name: option_string_view(*name),
                    symbol: option_string_view(*symbol),
                    image: option_string_view(*image),
                    description: option_string_view(*description),
                }
            },
            MetadataInstruction::CreateAttributes { data } => {
                MetadataInstructionView::CreateAttributes { data: pairs_view(data@) }
            },
            MetadataInstruction::ReplaceAttributes { data } => {
                MetadataInstructionView::ReplaceAttributes { data: pairs_view(data@) }
            },
            MetadataInstruction::TransferAuthority { new_authority } => {
                MetadataInstructionView::TransferAuthority { new_authority: new_authority@ }
            },
            MetadataInstruction::MakeImmutable => MetadataInstructionView::MakeImmutable,
        }
    }
}

/// Reads the payload of a `CreateMetadata`.
pub open spec fn take_create_metadata(b: Seq<u8>) -> Option<(MetadataInstructionView, Seq<u8>)> {
    match take_string(b) {
        Some((name, b1)) => match take_string(b1) {
            Some((symbol, b2)) => match take_string(b2) {
                Some((image, b3)) => match take_string(b3) {
                    Some((description, b4)) => match take_bool(b4) {
                        Some((immutable, rest)) => Some(
                            (
                                MetadataInstructionView::CreateMetadata {
                                    name,
                                    symbol,
                                    image,
                                    description,
                                    immutable,
                                },
                                rest,
                            ),
                        ),
                        None => None,
                    },
                    None => None,
                },
                None => None,
            },
            None => None,
        },
        None => None,
    }
}

/// Reads the payload of an `UpdateMetadata`.
pub open spec fn take_update_metadata(b: Seq<u8>) -> Option<(MetadataInstructionView, Seq<u8>)> {
    match take_option_string(b) {
        Some((name, b1)) => match take_option_string(b1) {
            Some((symbol, b2)) => match take_option_string(b2) {
                Some((image, b3)) => match take_option_string(b3) {
                    Some((description, rest)) => Some(
                        (
                            MetadataInstructionView::UpdateMetadata {
                                name,
                                symbol,
                                image,
                                description,
                            },
                            rest,
                        ),
                    ),
                    None => None,
                },
                None => None,
            },
            None => None,
        },
        None => None,
    }
}

/// Reads an operation off the front of `b`.
pub open spec fn take_instruction(b: Seq<u8>) -> Option<(MetadataInstructionView, Seq<u8>)> {
    match take_u8(b) {
        Some((tag, body)) => if tag == 0 {
            take_create_metadata(body)
        } else if tag == 1 {
            take_update_metadata(body)
        } else if tag == 2 {
            match take_pair_list(body) {
                Some((data, rest)) => Some(
                    (MetadataInstructionView::CreateAttributes { data }, rest),
                ),
                None => None,
            }
        } else if tag == 3 {
            match take_pair_list(body) {
                Some((data, rest)) => Some(
                    (MetadataInstructionView::ReplaceAttributes { data }, rest),
                ),
                None => None,
            }
        } else if tag == 4 {
            match take_address(body) {
                Some((new_authority, rest)) => Some(
                    (MetadataInstructionView::TransferAuthority { new_authority }, rest),
                ),
                None => None,
            }
        } else if tag == 5 {
            Some((MetadataInstructionView::MakeImmutable, body))
        } else {
            None
        },
        None => None,
    }
}

/// The operation that `b` encodes: `b` must hold it and nothing after it.
pub open spec fn decode_instruction(b: Seq<u8>) -> Option<MetadataInstructionView> {
    match take_instruction(b) {
        Some((i, rest)) => if rest.len() == 0 {
            Some(i)
        } else {
            None
        },
        None => None,
    }
}

/// Reading back the payload of a `CreateMetadata` gives its fields.
pub proof fn lemma_take_create_metadata(
    name: Seq<char>,
    symbol: Seq<char>,
    image: Seq<char>,
    description: Seq<char>,
    immutable: bool,
    rest: Seq<u8>,
)
    requires
        utf8_len(name) <= u32::MAX,
        utf8_len(symbol) <= u32::MAX,
        utf8_len(image) <= u32::MAX,
        utf8_len(description) <= u32::MAX,
    ensures
        take_create_metadata(
            encode_string(name) + encode_string(symbol) + encode_string(image) + encode_string(
                description,
            ) + encode_bool(immutable) + rest,
        ) == Some(
            (
                MetadataInstructionView::CreateMetadata {
                    name,
                    symbol,
                    image,
                    description,
                    immutable,
                },
                rest,
            ),
        ),
{
    let b4 = encode_bool(immutable) + rest;
    let b3 = encode_string(description) + b4;
    let b2 = encode_string(image) + b3;
    let b1 = encode_string(symbol) + b2;
    let b0 = encode_string(name) + b1;
    assert(encode_string(name) + encode_string(symbol) + encode_string(image) + encode_string(
        description,
    ) + encode_bool(immutable) + rest =~= b0);
    lemma_take_string(name, b1);
    lemma_take_string(symbol, b2);
    lemma_take_string(image, b3);
    lemma_take_string(description, b4);
    lemma_take_bool(immutable, rest);
}

/// Reading back the payload of an `UpdateMetadata` gives its fields.
pub proof fn lemma_take_update_metadata(
    name: Option<Seq<char>>,
    symbol: Option<Seq<char>>,
    image: Option<Seq<char>>,
    description: Option<Seq<char>>,
    rest: Seq<u8>,
)
    requires
        option_fits(name),
        option_fits(symbol),
        option_fits(image),
        option_fits(description),
    ensures
        take_update_metadata(
            encode_option_string(name) + encode_option_string(symbol) + encode_option_string(
                image,
            ) + encode_option_string(description) + rest,
        ) == Some(
            (MetadataInstructionView::UpdateMetadata { name, symbol, image, description }, rest),
        ),
{
    let b3 = encode_option_string(description) + rest;
    let b2 = encode_option_string(image) + b3;
    let b1 = encode_option_string(symbol) + b2;
    let b0 = encode_option_string(name) + b1;
    assert(encode_option_string(name) + encode_option_string(symbol) + encode_option_string(
        image,
    ) + encode_option_string(description) + rest =~= b0);
    lemma_take_option_string(name, b1);
    lemma_take_option_string(symbol, b2);
    lemma_take_option_string(image, b3);
    lemma_take_option_string(description, rest);
}

/// Reading an operation off its own bytes gives the operation and what
/// follows.
pub proof fn lemma_take_instruction(i: MetadataInstructionView, rest: Seq<u8>)
    requires
        i.wf(),
        i.encodable(),
    ensures
        take_instruction(i.encode() + rest) == Some((i, rest)),
{
    match i {
        MetadataInstructionView::CreateMetadata { name, symbol, image, description, immutable } => {
            let body = encode_string(name) + encode_string(symbol) + encode_string(image)
                + encode_string(description) + encode_bool(immutable) + rest;
            assert(i.encode() + rest =~= seq![0u8] + body);
            lemma_take_u8(0u8, body);
            lemma_take_create_metadata(name, symbol, image, description, immutable, rest);
        },
        MetadataInstructionView::UpdateMetadata { name, symbol, image, description } => {
            let body = encode_option_string(name) + encode_option_string(symbol)
                + encode_option_string(image) + encode_option_string(description) + rest;
            assert(i.encode() + rest =~= seq![1u8] + body);
            lemma_take_u8(1u8, body);
            lemma_take_update_metadata(name, symbol, image, description, rest);
        },
        MetadataInstructionView::CreateAttributes { data } => {
            let body = encode_pair_list(data) + rest;
            assert(i.encode() + rest =~= seq![2u8] + body);
            lemma_take_u8(2u8, body);
            lemma_take_pair_list(data, rest);
        },
        MetadataInstructionView::ReplaceAttributes { data } => {
            let body = encode_pair_list(data) + rest;
            assert(i.encode() + rest =~= seq![3u8] + body);
            lemma_take_u8(3u8, body);
            lemma_take_pair_list(data, rest);
        },
        MetadataInstructionView::TransferAuthority { new_authority } => {
            let body = new_authority + rest;
            assert(i.encode() + rest =~= seq![4u8] + body);
            lemma_take_u8(4u8, body);
            lemma_take_address(new_authority, rest);
        },
        MetadataInstructionView::MakeImmutable => {
            assert(i.encode() + rest =~= seq![5u8] + rest);
            lemma_take_u8(5u8, rest);
        },
    }
}

/// Reading back the bytes of an operation gives the operation.
pub proof fn lemma_instruction_round_trip(i: MetadataInstructionView)
    requires
        i.wf(),
        i.encodable(),
    ensures
        decode_instruction(i.encode()) == Some(i),
{
    lemma_take_instruction(i, Seq::empty());
    assert(i.encode() + Seq::<u8>::empty() =~= i.encode());
}

/// What was read as the payload of a `CreateMetadata` was written as one.
pub proof fn lemma_create_metadata_taken(b: Seq<u8>)
    requires
        take_create_metadata(b) is Some,
    ensures
        take_create_metadata(b).unwrap().0 is CreateMetadata,
        take_create_metadata(b).unwrap().0.encodable(),
        seq![0u8] + b == take_create_metadata(b).unwrap().0.encode() + take_create_metadata(
            b,
        ).unwrap().1,
{
    let rest = take_create_metadata(b).unwrap().1;
    let b1 = take_string(b).unwrap().1;
    let b2 = take_string(b1).unwrap().1;
    let b3 = take_string(b2).unwrap().1;
    let b4 = take_string(b3).unwrap().1;
    let e0 = seq![0u8];
    let e1 = encode_string(take_string(b).unwrap().0);
    let e2 = encode_string(take_string(b1).unwrap().0);
    let e3 = encode_string(take_string(b2).unwrap().0);
    let e4 = encode_string(take_string(b3).unwrap().0);
    let e5 = encode_bool(take_bool(b4).unwrap().0);
    lemma_string_taken(b);
    lemma_string_taken(b1);
    lemma_string_taken(b2);
    lemma_string_taken(b3);
    lemma_bool_taken(b4);
    lemma_append_assoc(e0, e1, b1);
    lemma_append_assoc(e0 + e1, e2, b2);
    lemma_append_assoc(e0 + e1 + e2, e3, b3);
    lemma_append_assoc(e0 + e1 + e2 + e3, e4, b4);
    lemma_append_assoc(e0 + e1 + e2 + e3 + e4, e5, rest);
}

/// What was read as the payload of an `UpdateMetadata` was written as one.
pub proof fn lemma_update_metadata_taken(b: Seq<u8>)
    requires
        take_update_metadata(b) is Some,
    ensures
        take_update_metadata(b).unwrap().0 is UpdateMetadata,
        take_update_metadata(b).unwrap().0.encodable(),
        seq![1u8] + b == take_update_metadata(b).unwrap().0.encode() + take_update_metadata(
            b,
        ).unwrap().1,
{
    let rest = take_update_metadata(b).unwrap().1;
    let b1 = take_option_string(b).unwrap().1;
    let b2 = take_option_string(b1).unwrap().1;
    let b3 = take_option_string(b2).unwrap().1;
    let e0 = seq![1u8];
    let e1 = encode_option_string(take_option_string(b).unwrap().0);
    let e2 = encode_option_string(take_option_string(b1).unwrap().0);
    let e3 = encode_option_string(take_option_string(b2).unwrap().0);
    let e4 = encode_option_string(take_option_string(b3).unwrap().0);
    lemma_option_string_taken(b);
    lemma_option_string_taken(b1);
    lemma_option_string_taken(b2);
    lemma_option_string_taken(b3);
    lemma_append_assoc(e0, e1, b1);
    lemma_append_assoc(e0 + e1, e2, b2);
    lemma_append_assoc(e0 + e1 + e2, e3, b3);
    lemma_append_assoc(e0 + e1 + e2 + e3, e4, rest);
}

/// What was read as an operation was written as that operation: the bytes
/// of an operation are the only bytes that are read as it.
pub proof fn lemma_instruction_taken(b: Seq<u8>)
    requires
        take_instruction(b) is Some,
    ensures
        take_instruction(b).unwrap().0.wf(),
        take_instruction(b).unwrap().0.encodable(),
        b == take_instruction(b).unwrap().0.encode() + take_instruction(b).unwrap().1,
{
    lemma_u8_taken(b);
    let tag = take_u8(b).unwrap().0;
    let body = take_u8(b).unwrap().1;
    if tag == 0 {
        lemma_create_metadata_taken(body);
    } else if tag == 1 {
        lemma_update_metadata_taken(body);
    } else if tag == 2 {
        lemma_pair_list_taken(body);
        lemma_append_assoc(
            seq![2u8],
            encode_pair_list(take_pair_list(body).unwrap().0),
            take_pair_list(body).unwrap().1,
        );
    } else if tag == 3 {
        lemma_pair_list_taken(body);
        lemma_append_assoc(
            seq![3u8],
            encode_pair_list(take_pair_list(body).unwrap().0),
            take_pair_list(body).unwrap().1,
        );
    } else if tag == 4 {
        lemma_address_taken(body);
        lemma_append_assoc(
            seq![4u8],
            take_address(body).unwrap().0,
            take_address(body).unwrap().1,
        );
    } else {
    }
}

/// The bytes that are read as an operation are the bytes of that operation.
pub proof fn lemma_decoded_instruction_is_canonical(b: Seq<u8>)
    requires
        decode_instruction(b) is Some,
    ensures
        b == decode_instruction(b).unwrap().encode(),
{
    lemma_instruction_taken(b);
    assert(decode_instruction(b).unwrap().encode() + Seq::<u8>::empty()
        =~= decode_instruction(b).unwrap().encode());
}

impl MetadataInstruction {
    /// Reads an operation from bytes that hold it and nothing else.
    pub fn unpack(input: &[u8]) -> (r: Result<MetadataInstruction, ProcessError>)
        ensures
            match r {
                Ok(i) => decode_instruction(input@) == Some(i@),
                Err(e) => e == ProcessError::InvalidInstructionData && decode_instruction(input@)
                    is None,
            },
    {
        assert(input@.skip(0) =~= input@);
        let (tag, at0) = match get_u8(input, 0) {
            Some(x) => x,
            None => {
                return Err(ProcessError::InvalidInstructionData);
            },
        };
        let parsed: Option<(MetadataInstruction, usize)> = if tag == 0 {
            Self::unpack_create_metadata(input, at0)
        } else if tag == 1 {
            Self::unpack_update_metadata(input, at0)
        } else if tag == 2 {
            match get_pair_list(input, at0) {
                Some((data, end)) => Some((MetadataInstruction::CreateAttributes { data }, end)),
                None => None,
            }
        } else if tag == 3 {
            match get_pair_list(input, at0) {
                Some((data, end)) => Some((MetadataInstruction::ReplaceAttributes { data }, end)),
                None => None,
            }
        } else if tag == 4 {
            match get_address(input, at0) {
                Some((new_authority, end)) => Some(
                    (MetadataInstruction::TransferAuthority { new_authority }, end),
                ),
                None => None,
            }
        } else if tag == 5 {
            Some((MetadataInstruction::MakeImmutable, at0))
        } else {
            None
        };
        match parsed {
            Some((instruction, end)) => {
                if end == input.len() {
                    Ok(instruction)
                } else {
                    Err(ProcessError::InvalidInstructionData)
                }
            },
            None => Err(ProcessError::InvalidInstructionData),
        }
    }

    fn unpack_create_metadata(input: &[u8], pos: usize) -> (r: Option<(MetadataInstruction, usize)>)
        requires
            pos <= input@.len(),
        ensures
            match r {
                Some((i, end)) => pos <= end <= input@.len() && take_create_metadata(
                    input@.skip(pos as int),
                ) == Some((i@, input@.skip(end as int))),
                None => take_create_metadata(input@.skip(pos as int)) is None,
            },
    {
        let (name, at1) = match get_string(input, pos) {
            Some(x) => x,
            None => {
                return None;
            },
        };
        let (symbol, at2) = match get_string(input, at1) {
            Some(x) => x,
            None => {
                return None;
            },
        };
        let (image, at3) = match get_string(input, at2) {
            Some(x) => x,
            None => {
                return None;
            },
        };
        let (description, at4) = match get_string(input, at3) {
            Some(x) => x,
            None => {
                return None;
            },
        };
        let (immutable, end) = match get_bool(input, at4) {
            Some(x) => x,
            None => {
                return None;
            },
        };
        Some(
            (MetadataInstruction::CreateMetadata { name, symbol, image, description, immutable }, end),
        )
    }

    fn unpack_update_metadata(input: &[u8], pos: usize) -> (r: Option<(MetadataInstruction, usize)>)
        requires
            pos <= input@.len(),
        ensures
            match r {
                Some((i, end)) => pos <= end <= input@.len() && take_update_metadata(
                    input@.skip(pos as int),
                ) == Some((i@, input@.skip(end as int))),
                None => take_update_metadata(input@.skip(pos as int)) is None,
            },
    {
        let (name, at1) = match get_option_string(input, pos) {
            Some(x) => x,
            None => {
                return None;
            },
        };
        let (symbol, at2) = match get_option_string(input, at1) {
            Some(x) => x,
            None => {
                return None;
            },
        };
        let (image, at3) = match get_option_string(input, at2) {
            Some(x) => x,
            None => {
                return None;
            },
        };
        let (description, end) = match get_option_string(input, at3) {
            Some(x) => x,
            None => {
                return None;
            },
        };
        Some((MetadataInstruction::UpdateMetadata { name, symbol, image, description }, end))
    }

    /// The operation's bytes.
    pub fn pack(&self) -> (out: Vec<u8>)
        requires
            self@.encodable(),
        ensures
            out@ == self@.encode(),
    {
        let mut out: Vec<u8> = Vec::new();
        match self {
            MetadataInstruction::CreateMetadata { name, symbol, image, description, immutable } => {
                out.push(0u8);
                put_string(&mut out, name.as_str());
                put_string(&mut out, symbol.as_str());
                put_string(&mut out, image.as_str());
                put_string(&mut out, description.as_str());
                put_bool(&mut out, *immutable);
            },
            MetadataInstruction::UpdateMetadata { name, symbol, image, description } => {
                out.push(1u8);
                put_option_string(&mut out, name);
                put_option_string(&mut out, symbol);
                put_option_string(&mut out, image);
                put_option_string(&mut out, description);
            },
            MetadataInstruction::CreateAttributes { data } => {
                out.push(2u8);
                put_pair_list(&mut out, data);
            },
            MetadataInstruction::ReplaceAttributes { data } => {
                out.push(3u8);
                put_pair_list(&mut out, data);
            },
            MetadataInstruction::TransferAuthority { new_authority } => {
                out.push(4u8);
                put_address(&mut out, new_authority);
            },
            MetadataInstruction::MakeImmutable => {
                out.push(5u8);
            },
        }
        assert(out@ =~= self@.encode());
        out
    }
}

} // verus!
