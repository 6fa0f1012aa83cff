//! Decoding the instructions of a message.
//!
//! An instruction record has three fields: `programIdIndex`, an integer from
//! 0 to 255; `accounts`, a list of such integers; and `data`, the base64 text
//! of the payload. An entry of `accounts` that is no such integer is left
//! out. An instruction that does not decode is left out of its message.

use vstd::prelude::*;
use crate::each::{each_viewed, keep_successes, success_positions, successes, successes_of_views};
use crate::error::LoadError;
use crate::field::{
    list_field,
    narrow,
    spec_list_field,
    spec_narrow,
    spec_text_field,
    spec_u8_field,
    text_field,
    u8_field,
};
use crate::ledger::{CompiledInstruction, InstructionView};
use crate::outcome::{viewed, views};
use crate::payload::{decode_payload, spec_payload};
use crate::record::{Record, Tree};

verus! {

/// What narrowing each entry of an instruction's accounts gives.
pub open spec fn spec_account_index_results(entries: Seq<Tree>) -> Seq<Result<u8, LoadError>> {
    entries.map_values(|tree: Tree| spec_narrow(tree))
}

/// The account indices that a list of entries gives: those of the entries
/// that narrow, in their order.
pub open spec fn spec_account_indices(entries: Seq<Tree>) -> Seq<u8> {
    successes(spec_account_index_results(entries))
}

/// What reading the accounts of an instruction record gives.
pub open spec fn spec_accounts(tree: Tree) -> Result<Seq<u8>, LoadError> {
    match spec_list_field(tree, "accounts"@) {
        Ok(entries) => Ok(spec_account_indices(entries)),
        Err(e) => Err(e),
    }
}

/// What reading the payload of an instruction record gives.
pub open spec fn spec_data(tree: Tree) -> Result<Seq<u8>, LoadError> {
    match spec_text_field(tree, "data"@) {
        Ok(text) => spec_payload(text),
        Err(e) => Err(e),
    }
}

/// The instruction of three parts that were read, or the error of the first
/// of them that failed, in the order of program index, accounts and payload.
pub open spec fn spec_instruction_of(
    program_id_index: Result<u8, LoadError>,
    accounts: Result<Seq<u8>, LoadError>,
    data: Result<Seq<u8>, LoadError>,
) -> Result<InstructionView, LoadError> {
    match program_id_index {
        Err(e) => Err(e),
        Ok(program_id_index) => match accounts {
            Err(e) => Err(e),
            Ok(accounts) => match data {
                Err(e) => Err(e),
                Ok(data) => Ok(InstructionView { program_id_index, accounts, data }),
            },
        },
    }
}

/// What decoding an instruction record gives.
pub open spec fn spec_instruction(tree: Tree) -> Result<InstructionView, LoadError> {
    spec_instruction_of(
        spec_u8_field(tree, "programIdIndex"@),
        spec_accounts(tree),
        spec_data(tree),
    )
}

/// What decoding each entry of a message's instructions gives.
pub open spec fn spec_instruction_results(entries: Seq<Tree>) -> Seq<
    Result<InstructionView, LoadError>,
> {
    entries.map_values(|tree: Tree| spec_instruction(tree))
}

/// The instructions that a list of entries gives: those of the entries that
/// decode, in their order.
pub open spec fn spec_instructions(entries: Seq<Tree>) -> Seq<InstructionView> {
    successes(spec_instruction_results(entries))
}

/// Narrows each entry of an instruction's accounts.
pub fn narrow_each(account_data: &Vec<Record>) -> (results: Vec<Result<u8, LoadError>>)
    ensures
        results@ == spec_account_index_results(views(account_data@)),
{
    let mut results: Vec<Result<u8, LoadError>> = Vec::new();
    let mut i: usize = 0;
    while i < account_data.len()
        invariant
            i <= account_data.len(),
            results@.len() == i,
            forall|j: int| 0 <= j < i ==> #[trigger] results@[j] == spec_narrow(account_data@[j]@),
        decreases account_data.len() - i,
    {
        results.push(narrow(&account_data[i]));
        i += 1;
    }
    assert(results@ =~= spec_account_index_results(views(account_data@)));
    results
}

/// Decodes the account indices of an instruction. An entry that is not an
/// integer from 0 to 255 is left out; the others keep their order.
pub fn get_account_indices(account_data: &Vec<Record>) -> (accounts: Vec<u8>)
    ensures
        accounts@ == spec_account_indices(views(account_data@)),
{
    keep_successes(narrow_each(account_data))
}

/// Puts an instruction together from its three parts as they were read. The
/// first part that failed, in the order of program index, accounts and
/// payload, decides the error.
pub fn compiled_instruction_of(
    program_id_index: Result<u8, LoadError>,
    accounts: Result<Vec<u8>, LoadError>,
    data: Result<Vec<u8>, LoadError>,
) -> (r: Result<CompiledInstruction, LoadError>)
    ensures
        viewed(r) == spec_instruction_of(program_id_index, viewed(accounts), viewed(data)),
{
    let program_id_index = match program_id_index {
        Ok(index) => index,
        Err(e) => {
            return Err(e);
        },
    };
    let accounts = match accounts {
        Ok(indices) => indices,
        Err(e) => {
            return Err(e);
        },
    };
    let data = match data {
        Ok(bytes) => bytes,
        Err(e) => {
            return Err(e);
        },
    };
    Ok(CompiledInstruction { program_id_index, accounts, data })
}

/// Decodes one instruction record: its program index, its account indices
/// and its payload, from the fields `programIdIndex`, `accounts` and `data`.
/// The first of these, in this order, that is absent, or that should hold a
/// list and holds none (a schema error), or whose value does not decode (an
/// encoding error), decides the error; entries of `accounts` that do not
/// narrow are left out and fail nothing.
pub fn get_compiled_instruction(instruction_datum: &Record) -> (r: Result<
    CompiledInstruction,
    LoadError,
>)
    ensures
        viewed(r) == spec_instruction(instruction_datum@),
{
    let program_id_index = u8_field(instruction_datum, "programIdIndex");
    let accounts = match list_field(instruction_datum, "accounts") {
        Ok(account_data) => Ok(get_account_indices(account_data)),
        Err(e) => Err(e),
    };
    let data = match text_field(instruction_datum, "data") {
        Ok(text) => decode_payload(text),
        Err(e) => Err(e),
    };
    compiled_instruction_of(program_id_index, accounts, data)
}

/// Decodes each entry of a message's instructions.
pub fn decode_instructions(instruction_data: &Vec<Record>) -> (results: Vec<
    Result<CompiledInstruction, LoadError>,
>)
    ensures
        each_viewed(results@) == spec_instruction_results(views(instruction_data@)),
{
    let mut results: Vec<Result<CompiledInstruction, LoadError>> = Vec::new();
    let mut i: usize = 0;
    while i < instruction_data.len()
        invariant
            i <= instruction_data.len(),
            results@.len() == i,
            forall|j: int|
                0 <= j < i ==> viewed(#[trigger] results@[j]) == spec_instruction(
                    instruction_data@[j]@,
                ),
        decreases instruction_data.len() - i,
    {
        results.push(get_compiled_instruction(&instruction_data[i]));
        i += 1;
    }
    assert(each_viewed(results@) =~= spec_instruction_results(views(instruction_data@)));
    results
}

/// Decodes the instructions of a message. An entry that does not decode is
/// left out; the others keep their order.
pub fn get_compiled_instructions(instruction_data: &Vec<Record>) -> (instructions: Vec<
    CompiledInstruction,
>)
    ensures
        views(instructions@) == spec_instructions(views(instruction_data@)),
{
    let results = decode_instructions(instruction_data);
    proof {
        successes_of_views(results@);
    }
    keep_successes(results)
}

/// An instruction decodes exactly where its program index, its list of
/// accounts and its payload do, whatever the list holds: an entry of
/// `accounts` that does not narrow never fails the instruction.
pub proof fn instruction_decodes_where_its_parts_do(tree: Tree)
    ensures
        spec_instruction(tree) is Ok <==> {
            &&& spec_u8_field(tree, "programIdIndex"@) is Ok
            &&& spec_list_field(tree, "accounts"@) is Ok
            &&& spec_text_field(tree, "data"@) matches Ok(text) && spec_payload(text) is Ok
        },
{
}

/// The account indices of a decoded instruction are exactly the entries of
/// `accounts` that narrow, in the order of the entries: the positions of
/// those entries increase, the index at each place is what the entry at the
/// matching position narrows to, and every entry that narrows has its place.
pub proof fn instruction_keeps_the_valid_account_indices_in_order(tree: Tree)
    requires
        spec_instruction(tree) is Ok,
    ensures
        ({
            let entries = spec_list_field(tree, "accounts"@)->Ok_0;
            let accounts = spec_instruction(tree)->Ok_0.accounts;
            let positions = success_positions(spec_account_index_results(entries));
            &&& accounts.len() == positions.len()
            &&& accounts.len() <= entries.len()
            &&& forall|j: int|
                0 <= j < positions.len() ==> 0 <= #[trigger] positions[j] < entries.len()
            &&& forall|j: int|
                0 <= j < positions.len() ==> spec_narrow(entries[#[trigger] positions[j]]) == Ok::<
                    u8,
                    LoadError,
                >(accounts[j])
            &&& forall|j: int, k: int|
                0 <= j < k < positions.len() ==> #[trigger] positions[j] < #[trigger] positions[k]
            &&& forall|i: int|
                0 <= i < entries.len() && spec_narrow(#[trigger] entries[i]) is Ok
                    ==> positions.contains(i)
        }),
{
    let entries = spec_list_field(tree, "accounts"@)->Ok_0;
    let results = spec_account_index_results(entries);
    crate::each::successes_are_kept_in_order(results);
    assert forall|i: int|
        0 <= i < entries.len() && spec_narrow(#[trigger] entries[i]) is Ok implies success_positions(
        results,
    ).contains(i) by {
        assert(results[i] is Ok);
    }
}

} // verus!
