//! Decoding one transaction.
//!
//! An entry of a block's transactions holds, under its field `transaction`,
//! the field `signatures`, a list of the texts of signatures, and the field
//! `message`, an object. A transaction comes out with all its signatures or
//! not at all: a signature that does not decode fails the transaction with
//! an encoding error.

use vstd::prelude::*;
use crate::each::{all_or_first_failure, all_or_first_failure_of_views, collect_all, each_viewed};
use crate::error::LoadError;
use crate::field::{list_field, object_field, spec_list_field, spec_object_field};
use crate::identifier::{spec_signature, Signature};
use crate::ledger::{Message, MessageView, Transaction, TransactionView};
use crate::message::{get_message, spec_message};
use crate::outcome::{viewed, viewed_each, views};
use crate::record::{Record, Tree};

verus! {

/// What decoding one entry of a transaction's signatures gives: the
/// signature where the entry is a string that is the text of one, else an
/// encoding error.
pub open spec fn spec_signature_entry(tree: Tree) -> Result<Seq<u8>, LoadError> {
    match tree {
        Tree::Text(text) => spec_signature(text),
        _ => Err(LoadError::Encoding),
    }
}

/// What decoding each entry of a transaction's signatures gives.
pub open spec fn spec_signature_results(entries: Seq<Tree>) -> Seq<Result<Seq<u8>, LoadError>> {
    entries.map_values(|tree: Tree| spec_signature_entry(tree))
}

/// What decoding a list of signature entries gives: all of them, or the
/// error of the first that fails.
pub open spec fn spec_signatures(entries: Seq<Tree>) -> Result<Seq<Seq<u8>>, LoadError> {
    all_or_first_failure(spec_signature_results(entries))
}

/// The transaction of two parts that were decoded, or the error of the
/// first of them that failed, in the order of signatures and message.
pub open spec fn spec_transaction_of(
    signatures: Result<Seq<Seq<u8>>, LoadError>,
    message: Result<MessageView, LoadError>,
) -> Result<TransactionView, LoadError> {
    match signatures {
        Err(e) => Err(e),
        Ok(signatures) => match message {
            Err(e) => Err(e),
            Ok(message) => Ok(TransactionView { signatures, message }),
        },
    }
}

/// What decoding one entry of a block's transactions gives. Both fields are
/// found before either is decoded.
pub open spec fn spec_transaction(tree: Tree) -> Result<TransactionView, LoadError> {
    match spec_object_field(tree, "transaction"@) {
        Err(e) => Err(e),
        Ok(body) => match spec_list_field(body, "signatures"@) {
            Err(e) => Err(e),
            Ok(signature_entries) => match spec_object_field(body, "message"@) {
                Err(e) => Err(e),
                Ok(message_tree) => spec_transaction_of(
                    spec_signatures(signature_entries),
                    spec_message(message_tree),
                ),
            },
        },
    }
}

/// Whether the fields of a transaction are found: `transaction`, an object,
/// and in it `signatures`, a list, and `message`, an object.
pub open spec fn transaction_fields_found(tree: Tree) -> bool {
    &&& spec_object_field(tree, "transaction"@) matches Ok(body)
    &&& spec_list_field(body, "signatures"@) is Ok
    &&& spec_object_field(body, "message"@) is Ok
}

/// The entries of `signatures` in a transaction whose fields are found.
pub open spec fn signature_entries(tree: Tree) -> Seq<Tree>
    recommends
        transaction_fields_found(tree),
{
    spec_list_field(spec_object_field(tree, "transaction"@)->Ok_0, "signatures"@)->Ok_0
}

/// Decodes one entry of a transaction's signatures: a string that is the
/// text of a signature.
pub fn get_signature(signature_datum: &Record) -> (r: Result<Signature, LoadError>)
    ensures
        viewed(r) == spec_signature_entry(signature_datum@),
{
    match signature_datum.as_text() {
        Some(text) => Signature::from_str(text),
        None => Err(LoadError::Encoding),
    }
}

/// Decodes each entry of a transaction's signatures.
pub fn decode_signatures(signature_data: &Vec<Record>) -> (results: Vec<
    Result<Signature, LoadError>,
>)
    ensures
        each_viewed(results@) == spec_signature_results(views(signature_data@)),
{
    let mut results: Vec<Result<Signature, LoadError>> = Vec::new();
    let mut i: usize = 0;
    while i < signature_data.len()
        invariant
            i <= signature_data.len(),
            results@.len() == i,
            forall|j: int|
                0 <= j < i ==> viewed(#[trigger] results@[j]) == spec_signature_entry(
                    signature_data@[j]@,
                ),
        decreases signature_data.len() - i,
    {
        results.push(get_signature(&signature_data[i]));
        i += 1;
    }
    assert(each_viewed(results@) =~= spec_signature_results(views(signature_data@)));
    results
}

/// Decodes the signatures of a transaction: all of them, or none. An entry
/// that is no string, or whose text is not that of a signature, fails the
/// whole list with an encoding error.
pub fn get_signatures(signature_data: &Vec<Record>) -> (r: Result<Vec<Signature>, LoadError>)
    ensures
        viewed_each(r) == spec_signatures(views(signature_data@)),
{
    let results = decode_signatures(signature_data);
    proof {
        all_or_first_failure_of_views(results@);
    }
    collect_all(results)
}

/// Puts a transaction together from its two parts as they were decoded. The
/// first part that failed, in the order of signatures and message, decides
/// the error.
pub fn transaction_of(
    signatures: Result<Vec<Signature>, LoadError>,
    message: Result<Message, LoadError>,
) -> (r: Result<Transaction, LoadError>)
    ensures
        viewed(r) == spec_transaction_of(viewed_each(signatures), viewed(message)),
{
    let signatures = match signatures {
        Ok(signatures) => signatures,
        Err(e) => {
            return Err(e);
        },
    };
    let message = match message {
        Ok(message) => message,
        Err(e) => {
            return Err(e);
        },
    };
    Ok(Transaction { signatures, message })
}

/// Decodes one entry of a block's transactions: the signatures and the
/// message under its field `transaction`. The fields `signatures` (a list)
/// and `message` (an object) are both found first, and a schema error comes
/// where one is absent or of the wrong kind. Then the signatures are
/// decoded, all or none, and the message; of the two, the signatures decide
/// the error first. No transaction comes out with part of its signatures.
pub fn get_transaction(transaction_datum: &Record) -> (r: Result<Transaction, LoadError>)
    ensures
        viewed(r) == spec_transaction(transaction_datum@),
{
    let body = match object_field(transaction_datum, "transaction") {
        Ok(body) => body,
        Err(e) => {
            return Err(e);
        },
    };
    let signature_data = match list_field(body, "signatures") {
        Ok(entries) => entries,
        Err(e) => {
            return Err(e);
        },
    };
    let message_data = match object_field(body, "message") {
        Ok(value) => value,
        Err(e) => {
            return Err(e);
        },
    };
    transaction_of(get_signatures(signature_data), get_message(message_data))
}

/// A list of signatures fails with an encoding error or not at all.
pub proof fn signatures_fail_with_an_encoding_error_only(entries: Seq<Tree>)
    ensures
        spec_signatures(entries) is Err ==> spec_signatures(entries) == Err::<
            Seq<Seq<u8>>,
            LoadError,
        >(LoadError::Encoding),
    decreases entries.len(),
{
    if entries.len() > 0 {
        signatures_fail_with_an_encoding_error_only(entries.drop_last());
        assert(spec_signature_results(entries).drop_last() =~= spec_signature_results(
            entries.drop_last(),
        ));
    }
}

/// A transaction holds either a signature for every entry of `signatures`,
/// each what its entry decodes to, or nothing: where an entry does not
/// decode, the whole transaction fails.
pub proof fn transaction_has_all_signatures_or_fails(tree: Tree)
    requires
        transaction_fields_found(tree),
    ensures
        (exists|i: int|
            0 <= i < signature_entries(tree).len() && spec_signature_entry(
                #[trigger] signature_entries(tree)[i],
            ) is Err) ==> spec_transaction(tree) is Err,
        spec_transaction(tree) is Ok ==> spec_transaction(tree)->Ok_0.signatures.len()
            == signature_entries(tree).len(),
        spec_transaction(tree) is Ok ==> forall|i: int|
            0 <= i < signature_entries(tree).len() ==> spec_signature_entry(
                #[trigger] signature_entries(tree)[i],
            ) == Ok::<Seq<u8>, LoadError>(spec_transaction(tree)->Ok_0.signatures[i]),
{
    let entries = signature_entries(tree);
    let results = spec_signature_results(entries);
    crate::each::all_or_first_failure_is_what_it_says(results);
    if exists|i: int| 0 <= i < entries.len() && spec_signature_entry(#[trigger] entries[i]) is Err {
        let i = choose|i: int|
            0 <= i < entries.len() && spec_signature_entry(#[trigger] entries[i]) is Err;
        assert(results[i] is Err);
    }
    if spec_transaction(tree) is Ok {
        let signatures = spec_transaction(tree)->Ok_0.signatures;
        assert forall|i: int| 0 <= i < entries.len() implies spec_signature_entry(
            #[trigger] entries[i],
        ) == Ok::<Seq<u8>, LoadError>(signatures[i]) by {
            assert(results[i] == Ok::<Seq<u8>, LoadError>(signatures[i]));
        }
    }
}

/// Where the fields of a transaction are found and an entry of `signatures`
/// does not decode, the transaction fails with an encoding error, whatever
/// its message holds.
pub proof fn transaction_fails_on_a_signature_that_does_not_decode(tree: Tree, failing: int)
    requires
        transaction_fields_found(tree),
        0 <= failing < signature_entries(tree).len(),
        spec_signature_entry(signature_entries(tree)[failing]) is Err,
    ensures
        spec_transaction(tree) == Err::<TransactionView, LoadError>(LoadError::Encoding),
{
    let entries = signature_entries(tree);
    let results = spec_signature_results(entries);
    crate::each::all_or_first_failure_is_what_it_says(results);
    assert(results[failing] is Err);
    signatures_fail_with_an_encoding_error_only(entries);
}

} // verus!
