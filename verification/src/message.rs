//! Decoding the message of a transaction.
//!
//! A message record has four fields: `header`, an object with three counts;
//! `accountKeys`, a list of the texts of public keys; `recentBlockhashes`,
//! the text of a hash; and `instructions`, a list of instruction records.
//! The header and the hash must decode. An entry of one of the two lists
//! that does not decode is left out and fails nothing.

use vstd::prelude::*;
use crate::each::{each_viewed, keep_successes, success_positions, successes, successes_of_views};
use crate::error::LoadError;
use crate::field::{
    list_field,
    spec_list_field,
    spec_text_field,
    spec_u8_field,
    text_field,
    u8_field,
};
use crate::identifier::{spec_hash, spec_pubkey, Pubkey};
use crate::instruction::{get_compiled_instructions, spec_instructions};
use crate::ledger::{CompiledInstruction, InstructionView, Message, MessageHeader, MessageView};
use crate::outcome::{viewed, viewed_each, views};
use crate::record::{Record, Tree};

verus! {

/// What decoding a header record gives.
pub open spec fn spec_header(tree: Tree) -> Result<MessageHeader, LoadError> {
    match spec_u8_field(tree, "numRequiredSignatures"@) {
        Err(e) => Err(e),
        Ok(num_required_signatures) => match spec_u8_field(tree, "numReadonlySignedAccounts"@) {
            Err(e) => Err(e),
            Ok(num_readonly_signed_accounts) => match spec_u8_field(
                tree,
                "numReadonlyUnsignedAccounts"@,
            ) {
                Err(e) => Err(e),
                Ok(num_readonly_unsigned_accounts) => Ok(
                    MessageHeader {
                        num_required_signatures,
                        num_readonly_signed_accounts,
                        num_readonly_unsigned_accounts,
                    },
                ),
            },
        },
    }
}

/// What decoding one entry of a message's account keys gives: the key where
/// the entry is a string that is the text of one, else an encoding error.
pub open spec fn spec_account_key(tree: Tree) -> Result<Seq<u8>, LoadError> {
    match tree {
        Tree::Text(text) => spec_pubkey(text),
        _ => Err(LoadError::Encoding),
    }
}

/// What decoding each entry of a message's account keys gives.
pub open spec fn spec_account_key_results(entries: Seq<Tree>) -> Seq<Result<Seq<u8>, LoadError>> {
    entries.map_values(|tree: Tree| spec_account_key(tree))
}

/// The account keys that a list of entries gives: those of the entries that
/// decode, in their order.
pub open spec fn spec_account_keys(entries: Seq<Tree>) -> Seq<Seq<u8>> {
    successes(spec_account_key_results(entries))
}

/// What reading the header of a message record gives.
pub open spec fn spec_header_part(tree: Tree) -> Result<MessageHeader, LoadError> {
    match tree.field("header"@) {
        Some(header_tree) => spec_header(header_tree),
        None => Err(LoadError::Schema),
    }
}

/// What reading the account keys of a message record gives.
pub open spec fn spec_account_keys_part(tree: Tree) -> Result<Seq<Seq<u8>>, LoadError> {
    match spec_list_field(tree, "accountKeys"@) {
        Ok(entries) => Ok(spec_account_keys(entries)),
        Err(e) => Err(e),
    }
}

/// What reading the hash of a recent block of a message record gives.
pub open spec fn spec_recent_blockhash_part(tree: Tree) -> Result<Seq<u8>, LoadError> {
    match spec_text_field(tree, "recentBlockhashes"@) {
        Ok(text) => spec_hash(text),
        Err(e) => Err(e),
    }
}

/// What reading the instructions of a message record gives.
pub open spec fn spec_instructions_part(tree: Tree) -> Result<Seq<InstructionView>, LoadError> {
    match spec_list_field(tree, "instructions"@) {
        Ok(entries) => Ok(spec_instructions(entries)),
        Err(e) => Err(e),
    }
}

/// The message of four parts that were read, or the error of the first of
/// them that failed, in the order of header, account keys, hash and
/// instructions.
pub open spec fn spec_message_of(
    header: Result<MessageHeader, LoadError>,
    account_keys: Result<Seq<Seq<u8>>, LoadError>,
    recent_blockhash: Result<Seq<u8>, LoadError>,
    instructions: Result<Seq<InstructionView>, LoadError>,
) -> Result<MessageView, LoadError> {
    match header {
        Err(e) => Err(e),
        Ok(header) => match account_keys {
            Err(e) => Err(e),
            Ok(account_keys) => match recent_blockhash {
                Err(e) => Err(e),
                Ok(recent_blockhash) => match instructions {
                    Err(e) => Err(e),
                    Ok(instructions) => Ok(
                        MessageView { header, account_keys, recent_blockhash, instructions },
                    ),
                },
            },
        },
    }
}

/// What decoding a message record gives.
pub open spec fn spec_message(tree: Tree) -> Result<MessageView, LoadError> {
    spec_message_of(
        spec_header_part(tree),
        spec_account_keys_part(tree),
        spec_recent_blockhash_part(tree),
        spec_instructions_part(tree),
    )
}

/// Whether the parts of a message record that must decode do: its header
/// and the hash of a recent block; and whether its two lists are found.
pub open spec fn message_parts_decode(tree: Tree) -> bool {
    &&& spec_header_part(tree) is Ok
    &&& spec_list_field(tree, "accountKeys"@) is Ok
    &&& spec_recent_blockhash_part(tree) is Ok
    &&& spec_list_field(tree, "instructions"@) is Ok
}

/// The entries of `accountKeys` in a message record in which the list is
/// found.
pub open spec fn account_key_entries(tree: Tree) -> Seq<Tree>
    recommends
        spec_list_field(tree, "accountKeys"@) is Ok,
{
    spec_list_field(tree, "accountKeys"@)->Ok_0
}

/// Decodes a header record: its three counts, read in this order from the
/// fields `numRequiredSignatures`, `numReadonlySignedAccounts` and
/// `numReadonlyUnsignedAccounts`. The first field that is absent (a schema
/// error), or whose value is not an integer from 0 to 255 (an encoding
/// error), decides the error.
pub fn get_message_header(header_data: &Record) -> (r: Result<MessageHeader, LoadError>)
    ensures
        r == spec_header(header_data@),
{
    let num_required_signatures = match u8_field(header_data, "numRequiredSignatures") {
        Ok(count) => count,
        Err(e) => {
            return Err(e);
        },
    };
    let num_readonly_signed_accounts = match u8_field(header_data, "numReadonlySignedAccounts") {
        Ok(count) => count,
        Err(e) => {
            return Err(e);
        },
    };
    let num_readonly_unsigned_accounts = match u8_field(
        header_data,
        "numReadonlyUnsignedAccounts",
    ) {
        Ok(count) => count,
        Err(e) => {
            return Err(e);
        },
    };
    Ok(
        MessageHeader {
            num_required_signatures,
            num_readonly_signed_accounts,
            num_readonly_unsigned_accounts,
        },
    )
}

/// Decodes one entry of a message's account keys: a string that is the text
/// of a public key.
pub fn get_account_key(account_key_datum: &Record) -> (r: Result<Pubkey, LoadError>)
    ensures
        viewed(r) == spec_account_key(account_key_datum@),
{
    match account_key_datum.as_text() {
        Some(text) => Pubkey::from_str(text),
        None => Err(LoadError::Encoding),
    }
}

/// Decodes each entry of a message's account keys.
pub fn decode_account_keys(account_keys_data: &Vec<Record>) -> (results: Vec<
    Result<Pubkey, LoadError>,
>)
    ensures
        each_viewed(results@) == spec_account_key_results(views(account_keys_data@)),
{
    let mut results: Vec<Result<Pubkey, LoadError>> = Vec::new();
    let mut i: usize = 0;
    while i < account_keys_data.len()
        invariant
            i <= account_keys_data.len(),
            results@.len() == i,
            forall|j: int|
                0 <= j < i ==> viewed(#[trigger] results@[j]) == spec_account_key(
                    account_keys_data@[j]@,
                ),
        decreases account_keys_data.len() - i,
    {
        results.push(get_account_key(&account_keys_data[i]));
        i += 1;
    }
    assert(each_viewed(results@) =~= spec_account_key_results(views(account_keys_data@)));
    results
}

/// Decodes the account keys of a message. An entry that is no string, or
/// whose text is not that of a public key, is left out; the others keep
/// their order.
pub fn get_account_keys(account_keys_data: &Vec<Record>) -> (account_keys: Vec<Pubkey>)
    ensures
        views(account_keys@) == spec_account_keys(views(account_keys_data@)),
{
    let results = decode_account_keys(account_keys_data);
    proof {
        successes_of_views(results@);
    }
    keep_successes(results)
}

/// Puts a message together from its four parts as they were read. The first
/// part that failed, in the order of header, account keys, hash and
/// instructions, decides the error.
pub fn message_of(
    header: Result<MessageHeader, LoadError>,
    account_keys: Result<Vec<Pubkey>, LoadError>,
    recent_blockhash: Result<crate::identifier::Hash, LoadError>,
    instructions: Result<Vec<CompiledInstruction>, LoadError>,
) -> (r: Result<Message, LoadError>)
    ensures
        viewed(r) == spec_message_of(
            header,
            viewed_each(account_keys),
            viewed(recent_blockhash),
            viewed_each(instructions),
        ),
{
    let header = match header {
        Ok(header) => header,
        Err(e) => {
            return Err(e);
        },
    };
    let account_keys = match account_keys {
        Ok(keys) => keys,
        Err(e) => {
            return Err(e);
        },
    };
    let recent_blockhash = match recent_blockhash {
        Ok(hash) => hash,
        Err(e) => {
            return Err(e);
        },
    };
    let instructions = match instructions {
        Ok(instructions) => instructions,
        Err(e) => {
            return Err(e);
        },
    };
    Ok(Message { header, account_keys, recent_blockhash, instructions })
}

/// Decodes a message record: its header, its account keys, the hash of a
/// recent block and its instructions, from the fields `header`,
/// `accountKeys`, `recentBlockhashes` and `instructions`. The first of
/// these, in this order, that is absent, or that should hold a list and
/// holds none (a schema error), or whose value does not decode (an encoding
/// error), decides the error. Entries of the two lists that do not decode
/// are left out and fail nothing.
pub fn get_message(message_data: &Record) -> (r: Result<Message, LoadError>)
    ensures
        viewed(r) == spec_message(message_data@),
{
    let header = match message_data.get("header") {
        Some(header_data) => get_message_header(header_data),
        None => Err(LoadError::Schema),
    };
    let account_keys = match list_field(message_data, "accountKeys") {
        Ok(account_keys_data) => Ok(get_account_keys(account_keys_data)),
        Err(e) => Err(e),
    };
    let recent_blockhash = match text_field(message_data, "recentBlockhashes") {
        Ok(text) => crate::identifier::Hash::from_str(text),
        Err(e) => Err(e),
    };
    let instructions = match list_field(message_data, "instructions") {
        Ok(instruction_data) => Ok(get_compiled_instructions(instruction_data)),
        Err(e) => Err(e),
    };
    message_of(header, account_keys, recent_blockhash, instructions)
}

/// A message decodes exactly where its required parts do, whatever its
/// account keys and instructions hold: an entry of those lists that does not
/// decode never fails the message.
pub proof fn message_decodes_where_its_parts_do(tree: Tree)
    ensures
        spec_message(tree) is Ok <==> message_parts_decode(tree),
{
}

/// The account keys of a decoded message are exactly the entries of
/// `accountKeys` that decode, in the order of the entries: the positions of
/// those entries increase, the key at each place is what the entry at the
/// matching position decodes to, and every entry that decodes has its place.
pub proof fn message_keeps_the_valid_account_keys_in_order(tree: Tree)
    requires
        spec_message(tree) is Ok,
    ensures
        ({
            let entries = account_key_entries(tree);
            let keys = spec_message(tree)->Ok_0.account_keys;
            let positions = success_positions(spec_account_key_results(entries));
            &&& keys.len() == positions.len()
            &&& keys.len() <= entries.len()
            &&& forall|j: int|
                0 <= j < positions.len() ==> 0 <= #[trigger] positions[j] < entries.len()
            &&& forall|j: int|
                0 <= j < positions.len() ==> spec_account_key(entries[#[trigger] positions[j]])
                    == Ok::<Seq<u8>, LoadError>(keys[j])
            &&& forall|j: int, k: int|
                0 <= j < k < positions.len() ==> #[trigger] positions[j] < #[trigger] positions[k]
            &&& forall|i: int|
                0 <= i < entries.len() && spec_account_key(#[trigger] entries[i]) is Ok
                    ==> positions.contains(i)
        }),
{
    let entries = account_key_entries(tree);
    let results = spec_account_key_results(entries);
    crate::each::successes_are_kept_in_order(results);
    assert forall|i: int|
        0 <= i < entries.len() && spec_account_key(
            #[trigger] entries[i],
        ) is Ok implies success_positions(results).contains(i) by {
        assert(results[i] is Ok);
    }
}

/// Where one entry of `accountKeys` does not decode and every other does,
/// the message decodes and holds the keys of the others, in their order; the
/// one that fails is left out.
pub proof fn message_leaves_out_the_invalid_account_key(tree: Tree, invalid: int)
    requires
        message_parts_decode(tree),
        0 <= invalid < account_key_entries(tree).len(),
        spec_account_key(account_key_entries(tree)[invalid]) is Err,
        forall|i: int|
            0 <= i < account_key_entries(tree).len() && i != invalid ==> spec_account_key(
                #[trigger] account_key_entries(tree)[i],
            ) is Ok,
    ensures
        spec_message(tree) is Ok,
        spec_message(tree)->Ok_0.account_keys.len() == account_key_entries(tree).len() - 1,
        forall|i: int|
            0 <= i < account_key_entries(tree).len() - 1 ==> spec_account_key(
                #[trigger] account_key_entries(tree).remove(invalid)[i],
            ) == Ok::<Seq<u8>, LoadError>(spec_message(tree)->Ok_0.account_keys[i]),
{
    let entries = account_key_entries(tree);
    let results = spec_account_key_results(entries);
    assert forall|i: int| 0 <= i < results.len() && i != invalid implies #[trigger] results[i] is Ok by {
        assert(spec_account_key(entries[i]) is Ok);
    }
    crate::each::leaves_out_the_one_failure(results, invalid);
    let others = entries.remove(invalid);
    let keys = spec_message(tree)->Ok_0.account_keys;
    assert forall|i: int| 0 <= i < entries.len() - 1 implies spec_account_key(
        #[trigger] others[i],
    ) == Ok::<Seq<u8>, LoadError>(keys[i]) by {
        if i < invalid {
            assert(others[i] == entries[i]);
            assert(results.remove(invalid)[i] == results[i]);
        } else {
            assert(others[i] == entries[i + 1]);
            assert(results.remove(invalid)[i] == results[i + 1]);
        }
    }
}

} // verus!
