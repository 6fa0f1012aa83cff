//! The pool: the transactions of every block, in the order of the files and,
//! within a file, in the order of the block.
//!
//! The files are read elsewhere; here each is the text that was read from
//! it. A text that is not valid JSON ends the whole run with a parse error.
//! Nothing else does: a text that is valid JSON in which no list of
//! transactions is found adds nothing to the pool, and a transaction that
//! does not decode is left out of its block.

use vstd::prelude::*;
use crate::block::{create_block, spec_block};
use crate::error::LoadError;
use crate::ledger::{Transaction, TransactionView};
use crate::outcome::{viewed_each, views, views_add};
use crate::reader::{read_block_data_json, spec_record, text_tree};

verus! {

/// What loading the block of one text gives: a parse error where the text
/// is not valid JSON, else what decoding its record as a block gives.
pub open spec fn spec_loaded_block(text: Seq<char>) -> Result<Seq<TransactionView>, LoadError> {
    match spec_record(text) {
        Ok(tree) => spec_block(tree),
        Err(e) => Err(e),
    }
}

/// What a block that was loaded, or was not, adds to the pool: its
/// transactions; nothing where no block was found; and a parse error, which
/// ends the run, where the text was not valid JSON.
pub open spec fn spec_added(loaded: Result<Seq<TransactionView>, LoadError>) -> Result<
    Seq<TransactionView>,
    LoadError,
> {
    match loaded {
        Ok(block) => Ok(block),
        Err(LoadError::Parse) => Err(LoadError::Parse),
        Err(_) => Ok(Seq::empty()),
    }
}

/// What one file adds to the pool.
pub open spec fn spec_file(text: Seq<char>) -> Result<Seq<TransactionView>, LoadError> {
    spec_added(spec_loaded_block(text))
}

/// What loading the texts of the files gives, in their order: the
/// transactions of all blocks in a row, or the error of the first file that
/// fails.
pub open spec fn spec_pool(texts: Seq<Seq<char>>) -> Result<Seq<TransactionView>, LoadError>
    decreases texts.len(),
{
    if texts.len() == 0 {
        Ok(Seq::empty())
    } else {
        match spec_pool(texts.drop_last()) {
            Err(e) => Err(e),
            Ok(earlier) => match spec_file(texts.last()) {
                Err(e) => Err(e),
                Ok(block) => Ok(earlier + block),
            },
        }
    }
}

/// How many transactions the files before position `upto` add.
pub open spec fn transactions_before(texts: Seq<Seq<char>>, upto: int) -> int
    decreases upto,
{
    if upto <= 0 {
        0
    } else {
        transactions_before(texts, upto - 1) + match spec_file(texts[upto - 1]) {
            Ok(block) => block.len() as int,
            Err(_) => 0,
        }
    }
}

/// Loads the block of one text: reads the text as a record and decodes the
/// record as a block.
pub fn load_block(json_string: &str) -> (r: Result<Vec<Transaction>, LoadError>)
    ensures
        viewed_each(r) == spec_loaded_block(json_string@),
{
    match read_block_data_json(json_string) {
        Ok(block_data) => create_block(&block_data),
        Err(e) => Err(e),
    }
}

/// Puts the transactions of a block that was loaded at the end of the pool,
/// in their order. Where no block was found, the pool stays as it is. So it
/// does where the text was not valid JSON, and the parse error is handed
/// out.
pub fn add_block(
    transaction_pool: &mut Vec<Transaction>,
    loaded: Result<Vec<Transaction>, LoadError>,
) -> (r: Result<(), LoadError>)
    ensures
        match loaded {
            Ok(block) => r is Ok && final(transaction_pool)@ == old(transaction_pool)@ + block@,
            Err(LoadError::Parse) => r == Err::<(), LoadError>(LoadError::Parse)
                && *final(transaction_pool) == *old(transaction_pool),
            Err(_) => r is Ok && *final(transaction_pool) == *old(transaction_pool),
        },
{
    match loaded {
        Ok(mut block) => {
            transaction_pool.append(&mut block);
            Ok(())
        },
        Err(LoadError::Parse) => Err(LoadError::Parse),
        Err(_) => Ok(()),
    }
}

/// Loads the text of one file and puts the transactions of its block at the
/// end of the pool, in their order. A text in which no block is found
/// leaves the pool as it is. So does a text that is not valid JSON, and the
/// parse error is handed out.
pub fn extend_pool(transaction_pool: &mut Vec<Transaction>, json_string: &str) -> (r: Result<
    (),
    LoadError,
>)
    ensures
        match r {
            Ok(_) => spec_file(json_string@) is Ok && views(final(transaction_pool)@) == views(
                old(transaction_pool)@,
            ) + spec_file(json_string@)->Ok_0,
            Err(e) => spec_file(json_string@) == Err::<Seq<TransactionView>, LoadError>(e)
                && *final(transaction_pool) == *old(transaction_pool),
        },
{
    let loaded = load_block(json_string);
    proof {
        if loaded is Ok {
            views_add(transaction_pool@, loaded->Ok_0@);
        } else {
            assert(views(transaction_pool@) + Seq::<TransactionView>::empty() =~= views(
                transaction_pool@,
            ));
        }
    }
    add_block(transaction_pool, loaded)
}

/// Builds the pool from the texts of the files, taken in their order: the
/// transactions of the first file in the order of its block, then those of
/// the second, and so on. The first text that is not valid JSON ends the run
/// with a parse error, and no pool comes out.
pub fn create_transaction_pool(block_texts: &Vec<String>) -> (r: Result<
    Vec<Transaction>,
    LoadError,
>)
    ensures
        viewed_each(r) == spec_pool(views(block_texts@)),
{
    let ghost texts = views(block_texts@);
    let mut transaction_pool: Vec<Transaction> = Vec::new();
    let mut i: usize = 0;
    assert(texts.take(0) =~= Seq::<Seq<char>>::empty());
    assert(views(transaction_pool@) =~= Seq::<TransactionView>::empty());
    while i < block_texts.len()
        invariant
            i <= block_texts.len(),
            texts == views(block_texts@),
            spec_pool(texts.take(i as int)) == Ok::<Seq<TransactionView>, LoadError>(
                views(transaction_pool@),
            ),
        decreases block_texts.len() - i,
    {
        proof {
            assert(texts.take(i + 1).drop_last() =~= texts.take(i as int));
            assert(texts.take(i + 1).last() == block_texts@[i as int]@);
        }
        match extend_pool(&mut transaction_pool, block_texts[i].as_str()) {
            Ok(_) => {},
            Err(e) => {
                proof {
                    failed_file_ends_the_run(texts, i as int + 1);
                }
                return Err(e);
            },
        }
        i += 1;
    }
    assert(texts.take(block_texts.len() as int) =~= texts);
    Ok(transaction_pool)
}

/// A file fails exactly where its text is not valid JSON, and then with a
/// parse error.
pub proof fn file_fails_where_its_text_is_not_json(text: Seq<char>)
    ensures
        spec_file(text) is Err <==> text_tree(text) is None,
        spec_file(text) is Err ==> spec_file(text) == Err::<Seq<TransactionView>, LoadError>(
            LoadError::Parse,
        ),
{
    crate::block::block_fails_with_a_schema_error_only(text_tree(text)->Some_0);
}

/// Once the files up to a position fail, the whole run fails, and with the
/// same error.
pub proof fn failed_file_ends_the_run(texts: Seq<Seq<char>>, upto: int)
    requires
        0 <= upto <= texts.len(),
        spec_pool(texts.take(upto)) is Err,
    ensures
        spec_pool(texts) == spec_pool(texts.take(upto)),
    decreases texts.len() - upto,
{
    if upto < texts.len() {
        assert(texts.take(upto + 1).drop_last() =~= texts.take(upto));
        failed_file_ends_the_run(texts, upto + 1);
    } else {
        assert(texts.take(upto) =~= texts);
    }
}

/// A run ends with a pool exactly where every text is valid JSON. Where one
/// is not, the run fails with a parse error, whatever the other files hold:
/// no part of a pool comes out.
pub proof fn run_fails_where_a_text_is_not_json(texts: Seq<Seq<char>>)
    ensures
        spec_pool(texts) is Ok <==> forall|i: int|
            0 <= i < texts.len() ==> text_tree(#[trigger] texts[i]) is Some,
        spec_pool(texts) is Err ==> spec_pool(texts) == Err::<Seq<TransactionView>, LoadError>(
            LoadError::Parse,
        ),
    decreases texts.len(),
{
    if texts.len() > 0 {
        let shorter = texts.drop_last();
        run_fails_where_a_text_is_not_json(shorter);
        file_fails_where_its_text_is_not_json(texts.last());
        if spec_pool(texts) is Ok {
            assert forall|i: int| 0 <= i < texts.len() implies text_tree(
                #[trigger] texts[i],
            ) is Some by {
                if i < shorter.len() {
                    assert(shorter[i] == texts[i]);
                }
            }
        }
        if forall|i: int| 0 <= i < texts.len() ==> text_tree(#[trigger] texts[i]) is Some {
            assert forall|i: int| 0 <= i < shorter.len() implies text_tree(
                #[trigger] shorter[i],
            ) is Some by {
                assert(shorter[i] == texts[i]);
            }
            assert(text_tree(texts[texts.len() - 1]) is Some);
        }
    }
}

/// The pool of two runs of files in a row is the pool of the first followed
/// by the pool of the second; where one of them fails, the first failure
/// decides.
pub proof fn pool_of_files_in_a_row(first: Seq<Seq<char>>, second: Seq<Seq<char>>)
    ensures
        spec_pool(first + second) == match spec_pool(first) {
            Err(e) => Err::<Seq<TransactionView>, LoadError>(e),
            Ok(earlier) => match spec_pool(second) {
                Err(e) => Err(e),
                Ok(later) => Ok(earlier + later),
            },
        },
    decreases second.len(),
{
    if second.len() == 0 {
        assert(first + second =~= first);
        if spec_pool(first) is Ok {
            assert(spec_pool(first)->Ok_0 + Seq::<TransactionView>::empty() =~= spec_pool(
                first,
            )->Ok_0);
        }
    } else {
        pool_of_files_in_a_row(first, second.drop_last());
        assert((first + second).drop_last() =~= first + second.drop_last());
        assert((first + second).last() == second.last());
        if spec_pool(first) is Ok && spec_pool(second.drop_last()) is Ok && spec_file(
            second.last(),
        ) is Ok {
            let a = spec_pool(first)->Ok_0;
            let b = spec_pool(second.drop_last())->Ok_0;
            let c = spec_file(second.last())->Ok_0;
            assert((a + b) + c =~= a + (b + c));
        }
    }
}

/// Where every text is valid JSON, the pool holds as many transactions as
/// the files add together.
pub proof fn pool_holds_what_the_files_add(texts: Seq<Seq<char>>)
    requires
        forall|i: int| 0 <= i < texts.len() ==> text_tree(#[trigger] texts[i]) is Some,
    ensures
        spec_pool(texts) is Ok,
        spec_pool(texts)->Ok_0.len() == transactions_before(texts, texts.len() as int),
    decreases texts.len(),
{
    run_fails_where_a_text_is_not_json(texts);
    if texts.len() > 0 {
        let shorter = texts.drop_last();
        assert forall|i: int| 0 <= i < shorter.len() implies text_tree(
            #[trigger] shorter[i],
        ) is Some by {
            assert(shorter[i] == texts[i]);
        }
        pool_holds_what_the_files_add(shorter);
        counts_agree_on_a_prefix(texts, shorter, shorter.len() as int);
    }
}

/// Where every text is valid JSON, the pool holds the transactions of all
/// files in the order of the files and, within a file, in the order of its
/// block: the transaction at `place` in the block of the file at `file`
/// stands in the pool after all transactions of the files before it and
/// after the transactions before it in its own block.
pub proof fn pool_is_in_file_then_block_order(texts: Seq<Seq<char>>, file: int, place: int)
    requires
        forall|i: int| 0 <= i < texts.len() ==> text_tree(#[trigger] texts[i]) is Some,
        0 <= file < texts.len(),
        0 <= place < spec_file(texts[file])->Ok_0.len(),
    ensures
        spec_pool(texts) is Ok,
        0 <= transactions_before(texts, file) + place < spec_pool(texts)->Ok_0.len(),
        spec_pool(texts)->Ok_0[transactions_before(texts, file) + place] == spec_file(
            texts[file],
        )->Ok_0[place],
    decreases texts.len(),
{
    let shorter = texts.drop_last();
    assert forall|i: int| 0 <= i < shorter.len() implies text_tree(#[trigger] shorter[i]) is Some by {
        assert(shorter[i] == texts[i]);
    }
    pool_holds_what_the_files_add(shorter);
    pool_holds_what_the_files_add(texts);
    file_fails_where_its_text_is_not_json(texts[texts.len() - 1]);
    counts_agree_on_a_prefix(texts, shorter, shorter.len() as int);
    if file < texts.len() - 1 {
        assert(shorter[file] == texts[file]);
        pool_is_in_file_then_block_order(shorter, file, place);
        counts_agree_on_a_prefix(texts, shorter, file);
    } else {
        counts_before_are_natural(texts, file);
    }
}

/// The count of the transactions before a position looks at the files before
/// it alone.
proof fn counts_agree_on_a_prefix(texts: Seq<Seq<char>>, others: Seq<Seq<char>>, upto: int)
    requires
        0 <= upto <= texts.len(),
        upto <= others.len(),
        forall|i: int| 0 <= i < upto ==> texts[i] == others[i],
    ensures
        transactions_before(texts, upto) == transactions_before(others, upto),
    decreases upto,
{
    if upto > 0 {
        counts_agree_on_a_prefix(texts, others, upto - 1);
    }
}

/// The count of the transactions before a position is not negative.
proof fn counts_before_are_natural(texts: Seq<Seq<char>>, upto: int)
    ensures
        0 <= transactions_before(texts, upto),
    decreases upto,
{
    if upto > 0 {
        counts_before_are_natural(texts, upto - 1);
    }
}

} // verus!
