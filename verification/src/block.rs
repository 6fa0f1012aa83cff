//! Decoding the transactions of a block.
//!
//! A block record holds, under its field `result`, the field
//! `transactions`, a list with one entry for each transaction. An entry that
//! does not decode is left out of the block and fails nothing else.

use vstd::prelude::*;
use crate::each::{each_viewed, keep_successes, success_positions, successes, successes_of_views};
use crate::error::LoadError;
use crate::field::{list_field, object_field, spec_list_field, spec_object_field};
use crate::ledger::{Transaction, TransactionView};
use crate::outcome::{viewed, viewed_each, views};
use crate::record::{Record, Tree};
use crate::transaction::{get_transaction, spec_transaction};

verus! {

/// What decoding each entry of a block's transactions gives.
pub open spec fn spec_transaction_results(entries: Seq<Tree>) -> Seq<
    Result<TransactionView, LoadError>,
> {
    entries.map_values(|tree: Tree| spec_transaction(tree))
}

/// The transactions that a list of entries gives: those of the entries that
/// decode, in their order.
pub open spec fn spec_transactions(entries: Seq<Tree>) -> Seq<TransactionView> {
    successes(spec_transaction_results(entries))
}

/// What decoding a block record gives.
pub open spec fn spec_block(tree: Tree) -> Result<Seq<TransactionView>, LoadError> {
    match spec_object_field(tree, "result"@) {
        Err(e) => Err(e),
        Ok(result) => match spec_list_field(result, "transactions"@) {
            Err(e) => Err(e),
            Ok(entries) => Ok(spec_transactions(entries)),
        },
    }
}

/// Whether the list of a block's transactions is found: `result`, an object,
/// and in it `transactions`, a list.
pub open spec fn transaction_list_found(tree: Tree) -> bool {
    &&& spec_object_field(tree, "result"@) matches Ok(result)
    &&& spec_list_field(result, "transactions"@) is Ok
}

/// The entries of `transactions` in a block in which the list is found.
pub open spec fn transaction_entries(tree: Tree) -> Seq<Tree>
    recommends
        transaction_list_found(tree),
{
    spec_list_field(spec_object_field(tree, "result"@)->Ok_0, "transactions"@)->Ok_0
}

/// Decodes each entry of a block's transactions.
pub fn decode_transactions(transaction_data: &Vec<Record>) -> (results: Vec<
    Result<Transaction, LoadError>,
>)
    ensures
        each_viewed(results@) == spec_transaction_results(views(transaction_data@)),
{
    let mut results: Vec<Result<Transaction, LoadError>> = Vec::new();
    let mut i: usize = 0;
    while i < transaction_data.len()
        invariant
            i <= transaction_data.len(),
            results@.len() == i,
            forall|j: int|
                0 <= j < i ==> viewed(#[trigger] results@[j]) == spec_transaction(
                    transaction_data@[j]@,
                ),
        decreases transaction_data.len() - i,
    {
        results.push(get_transaction(&transaction_data[i]));
        i += 1;
    }
    assert(each_viewed(results@) =~= spec_transaction_results(views(transaction_data@)));
    results
}

/// Decodes the entries of a block's transactions. An entry that does not
/// decode is left out; the others keep their order.
pub fn get_transactions(transaction_data: &Vec<Record>) -> (transactions: Vec<Transaction>)
    ensures
        views(transactions@) == spec_transactions(views(transaction_data@)),
{
    let results = decode_transactions(transaction_data);
    proof {
        successes_of_views(results@);
    }
    keep_successes(results)
}

/// Decodes a block record: the transactions in the list under its fields
/// `result` and, in that, `transactions`. A schema error comes where the
/// list is not found. A transaction that does not decode is left out of the
/// block; the others keep their order.
pub fn create_block(block_data: &Record) -> (r: Result<Vec<Transaction>, LoadError>)
    ensures
        viewed_each(r) == spec_block(block_data@),
{
    let result = match object_field(block_data, "result") {
        Ok(value) => value,
        Err(e) => {
            return Err(e);
        },
    };
    let transaction_data = match list_field(result, "transactions") {
        Ok(entries) => entries,
        Err(e) => {
            return Err(e);
        },
    };
    Ok(get_transactions(transaction_data))
}

/// A block decodes exactly where its list of transactions is found, whatever
/// the list holds: a transaction that does not decode never fails the block.
pub proof fn block_decodes_where_its_list_is_found(tree: Tree)
    ensures
        spec_block(tree) is Ok <==> transaction_list_found(tree),
{
}

/// A block fails with a schema error or not at all: an encoding error stays
/// with the transaction in which it arose.
pub proof fn block_fails_with_a_schema_error_only(tree: Tree)
    ensures
        spec_block(tree) is Err ==> spec_block(tree) == Err::<Seq<TransactionView>, LoadError>(
            LoadError::Schema,
        ),
{
}

/// The transactions of a decoded block are exactly the entries of its list
/// that decode, in the order of the entries: the positions of those entries
/// increase, the transaction at each place is what the entry at the matching
/// position decodes to, and every entry that decodes has its place.
pub proof fn block_keeps_the_valid_transactions_in_order(tree: Tree)
    requires
        transaction_list_found(tree),
    ensures
        ({
            let entries = transaction_entries(tree);
            let transactions = spec_block(tree)->Ok_0;
            let positions = success_positions(spec_transaction_results(entries));
            &&& spec_block(tree) is Ok
            &&& transactions.len() == positions.len()
            &&& transactions.len() <= entries.len()
            &&& forall|j: int|
                0 <= j < positions.len() ==> 0 <= #[trigger] positions[j] < entries.len()
            &&& forall|j: int|
                0 <= j < positions.len() ==> spec_transaction(entries[#[trigger] positions[j]])
                    == Ok::<TransactionView, LoadError>(transactions[j])
            &&& forall|j: int, k: int|
                0 <= j < k < positions.len() ==> #[trigger] positions[j] < #[trigger] positions[k]
            &&& forall|i: int|
                0 <= i < entries.len() && spec_transaction(#[trigger] entries[i]) is Ok
                    ==> positions.contains(i)
        }),
{
    let entries = transaction_entries(tree);
    let results = spec_transaction_results(entries);
    crate::each::successes_are_kept_in_order(results);
    assert forall|i: int|
        0 <= i < entries.len() && spec_transaction(
            #[trigger] entries[i],
        ) is Ok implies success_positions(results).contains(i) by {
        assert(results[i] is Ok);
    }
}

/// Where one entry of a block's list does not decode and every other does,
/// the block holds the transactions of the others, in their order: one fewer
/// than there are entries.
pub proof fn block_leaves_out_the_failing_transaction(tree: Tree, failing: int)
    requires
        transaction_list_found(tree),
        0 <= failing < transaction_entries(tree).len(),
        spec_transaction(transaction_entries(tree)[failing]) is Err,
        forall|i: int|
            0 <= i < transaction_entries(tree).len() && i != failing ==> spec_transaction(
                #[trigger] transaction_entries(tree)[i],
            ) is Ok,
    ensures
        spec_block(tree) is Ok,
        spec_block(tree)->Ok_0.len() == transaction_entries(tree).len() - 1,
        forall|i: int|
            0 <= i < transaction_entries(tree).len() - 1 ==> spec_transaction(
                #[trigger] transaction_entries(tree).remove(failing)[i],
            ) == Ok::<TransactionView, LoadError>(spec_block(tree)->Ok_0[i]),
{
    let entries = transaction_entries(tree);
    let results = spec_transaction_results(entries);
    assert forall|i: int| 0 <= i < results.len() && i != failing implies #[trigger] results[i] is Ok by {
        assert(spec_transaction(entries[i]) is Ok);
    }
    crate::each::leaves_out_the_one_failure(results, failing);
    let others = entries.remove(failing);
    let transactions = spec_block(tree)->Ok_0;
    assert forall|i: int| 0 <= i < entries.len() - 1 implies spec_transaction(
        #[trigger] others[i],
    ) == Ok::<TransactionView, LoadError>(transactions[i]) by {
        if i < failing {
            assert(others[i] == entries[i]);
            assert(results.remove(failing)[i] == results[i]);
        } else {
            assert(others[i] == entries[i + 1]);
            assert(results.remove(failing)[i] == results[i + 1]);
        }
    }
}

} // verus!
