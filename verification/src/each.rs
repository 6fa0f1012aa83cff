//! The two ways in which the results of decoding a list, entry by entry, are
//! put together: keeping what decoded, or failing as a whole on the first
//! entry that did not.

use vstd::prelude::*;
use crate::error::LoadError;
use crate::outcome::{viewed, views};

verus! {

/// The values of the results that are successes, in their order; the
/// failures are left out.
pub open spec fn successes<T>(results: Seq<Result<T, LoadError>>) -> Seq<T>
    decreases results.len(),
{
    if results.len() == 0 {
        Seq::empty()
    } else {
        let earlier = successes(results.drop_last());
        match results.last() {
            Ok(value) => earlier.push(value),
            Err(_) => earlier,
        }
    }
}

/// The values of all results in their order where every one is a success,
/// else the error of the first that is a failure.
pub open spec fn all_or_first_failure<T>(results: Seq<Result<T, LoadError>>) -> Result<
    Seq<T>,
    LoadError,
>
    decreases results.len(),
{
    if results.len() == 0 {
        Ok(Seq::empty())
    } else {
        match all_or_first_failure(results.drop_last()) {
            Err(e) => Err(e),
            Ok(earlier) => match results.last() {
                Ok(value) => Ok(earlier.push(value)),
                Err(e) => Err(e),
            },
        }
    }
}

/// The positions of the results that are successes, in increasing order.
pub open spec fn success_positions<T>(results: Seq<Result<T, LoadError>>) -> Seq<int>
    decreases results.len(),
{
    if results.len() == 0 {
        Seq::empty()
    } else {
        let earlier = success_positions(results.drop_last());
        match results.last() {
            Ok(_) => earlier.push(results.len() - 1),
            Err(_) => earlier,
        }
    }
}

/// The results with the value of each success taken by its view.
pub open spec fn each_viewed<T: View>(results: Seq<Result<T, LoadError>>) -> Seq<
    Result<T::V, LoadError>,
> {
    Seq::new(results.len(), |i: int| viewed(results[i]))
}

/// Keeps the values of the results that are successes, in their order, and
/// leaves the failures out.
pub fn keep_successes<T>(results: Vec<Result<T, LoadError>>) -> (kept: Vec<T>)
    ensures
        kept@ == successes(results@),
{
    let ghost all = results@;
    let mut kept: Vec<T> = Vec::new();
    assert(all.take(0) =~= Seq::<Result<T, LoadError>>::empty());
    for result in it: results
        invariant
            it.seq() == all,
            kept@ == successes(all.take(it.index() as int)),
    {
        assert(all.take(it.index() + 1).drop_last() =~= all.take(it.index() as int));
        match result {
            Ok(value) => kept.push(value),
            Err(_) => {},
        }
    }
    assert(all.take(all.len() as int) =~= all);
    kept
}

/// Hands out the values of all results in their order where every one is a
/// success, else the error of the first that is a failure: all or nothing.
pub fn collect_all<T>(results: Vec<Result<T, LoadError>>) -> (r: Result<Vec<T>, LoadError>)
    ensures
        match r {
            Ok(values) => all_or_first_failure(results@) == Ok::<Seq<T>, LoadError>(values@),
            Err(e) => all_or_first_failure(results@) == Err::<Seq<T>, LoadError>(e),
        },
{
    let ghost all = results@;
    let mut values: Vec<T> = Vec::new();
    assert(all.take(0) =~= Seq::<Result<T, LoadError>>::empty());
    for result in it: results
        invariant
            it.seq() == all,
            all_or_first_failure(all.take(it.index() as int)) == Ok::<Seq<T>, LoadError>(values@),
    {
        assert(all.take(it.index() + 1).drop_last() =~= all.take(it.index() as int));
        match result {
            Ok(value) => values.push(value),
            Err(e) => {
                proof {
                    failure_stays(all, it.index() + 1);
                }
                return Err(e);
            },
        }
    }
    assert(all.take(all.len() as int) =~= all);
    Ok(values)
}

/// One more result at the end: what is kept grows by its value where it is
/// a success, and stays as it is where it is a failure.
pub proof fn successes_push<T>(results: Seq<Result<T, LoadError>>, result: Result<T, LoadError>)
    ensures
        successes(results.push(result)) == match result {
            Ok(value) => successes(results).push(value),
            Err(_) => successes(results),
        },
{
    assert(results.push(result).drop_last() =~= results);
}

/// What is kept of two runs of results in a row is what is kept of the
/// first, followed by what is kept of the second.
pub proof fn successes_add<T>(first: Seq<Result<T, LoadError>>, second: Seq<Result<T, LoadError>>)
    ensures
        successes(first + second) == successes(first) + successes(second),
    decreases second.len(),
{
    if second.len() == 0 {
        assert(first + second =~= first);
        assert(successes(first) + successes(second) =~= successes(first));
    } else {
        successes_add(first, second.drop_last());
        assert((first + second).drop_last() =~= first + second.drop_last());
        assert((first + second).last() == second.last());
        let kept_first = successes(first);
        let kept_rest = successes(second.drop_last());
        match second.last() {
            Ok(value) => {
                assert((kept_first + kept_rest).push(value) =~= kept_first + kept_rest.push(value));
            },
            Err(_) => {},
        }
    }
}

/// What is kept of the views is the views of what is kept.
pub proof fn successes_of_views<T: View>(results: Seq<Result<T, LoadError>>)
    ensures
        successes(each_viewed(results)) == views(successes(results)),
    decreases results.len(),
{
    if results.len() == 0 {
        assert(views(successes(results)) =~= Seq::<T::V>::empty());
    } else {
        successes_of_views(results.drop_last());
        assert(each_viewed(results).drop_last() =~= each_viewed(results.drop_last()));
        match results.last() {
            Ok(value) => {
                assert(views(successes(results.drop_last()).push(value)) =~= views(
                    successes(results.drop_last()),
                ).push(value@));
            },
            Err(_) => {},
        }
    }
}

/// All or nothing of the views is the views of all or nothing.
pub proof fn all_or_first_failure_of_views<T: View>(results: Seq<Result<T, LoadError>>)
    ensures
        all_or_first_failure(each_viewed(results)) == match all_or_first_failure(results) {
            Ok(values) => Ok::<Seq<T::V>, LoadError>(views(values)),
            Err(e) => Err(e),
        },
    decreases results.len(),
{
    if results.len() == 0 {
        assert(views(Seq::<T>::empty()) =~= Seq::<T::V>::empty());
    } else {
        all_or_first_failure_of_views(results.drop_last());
        assert(each_viewed(results).drop_last() =~= each_viewed(results.drop_last()));
        if all_or_first_failure(results.drop_last()) is Ok && results.last() is Ok {
            let earlier = all_or_first_failure(results.drop_last())->Ok_0;
            let value = results.last()->Ok_0;
            assert(views(earlier.push(value)) =~= views(earlier).push(value@));
        }
    }
}

/// The positions of the successes are positions of the results, they
/// increase strictly, and they are exactly those at which a success stands.
/// What is kept holds, place for place, the value of the success at the
/// matching position: every success is kept, no failure is, and the kept
/// values stand in the order of their results.
pub proof fn successes_are_kept_in_order<T>(results: Seq<Result<T, LoadError>>)
    ensures
        ({
            let kept = successes(results);
            let positions = success_positions(results);
            &&& kept.len() == positions.len()
            &&& kept.len() <= results.len()
            &&& forall|j: int|
                0 <= j < positions.len() ==> 0 <= #[trigger] positions[j] < results.len()
            &&& forall|j: int|
                0 <= j < positions.len() ==> results[#[trigger] positions[j]] == Ok::<
                    T,
                    LoadError,
                >(kept[j])
            &&& forall|j: int, k: int|
                0 <= j < k < positions.len() ==> #[trigger] positions[j] < #[trigger] positions[k]
            &&& forall|i: int|
                0 <= i < results.len() && #[trigger] results[i] is Ok ==> positions.contains(i)
        }),
    decreases results.len(),
{
    if results.len() > 0 {
        let shorter = results.drop_last();
        successes_are_kept_in_order(shorter);
        let kept = successes(results);
        let positions = success_positions(results);
        let earlier = success_positions(shorter);
        assert forall|i: int|
            0 <= i < results.len() && #[trigger] results[i] is Ok implies positions.contains(i) by {
            if i < results.len() - 1 {
                assert(shorter[i] == results[i]);
                assert(earlier.contains(i));
                let j = choose|j: int| 0 <= j < earlier.len() && earlier[j] == i;
                assert(positions[j] == i);
            } else {
                assert(positions[positions.len() - 1] == i);
            }
        }
        assert forall|j: int| 0 <= j < positions.len() implies results[#[trigger] positions[j]]
            == Ok::<T, LoadError>(kept[j]) by {
            if j < earlier.len() {
                assert(shorter[earlier[j]] == results[earlier[j]]);
            }
        }
    }
}

/// Where every result is a success, all values are kept, one for each.
pub proof fn keeps_all_where_all_succeed<T>(results: Seq<Result<T, LoadError>>)
    requires
        forall|i: int| 0 <= i < results.len() ==> #[trigger] results[i] is Ok,
    ensures
        successes(results) == Seq::new(results.len(), |i: int| results[i]->Ok_0),
        all_or_first_failure(results) == Ok::<Seq<T>, LoadError>(successes(results)),
    decreases results.len(),
{
    let values = Seq::new(results.len(), |i: int| results[i]->Ok_0);
    if results.len() == 0 {
        assert(successes(results) =~= values);
    } else {
        let shorter = results.drop_last();
        assert forall|i: int| 0 <= i < shorter.len() implies #[trigger] shorter[i] is Ok by {
            assert(shorter[i] == results[i]);
        }
        keeps_all_where_all_succeed(shorter);
        assert(results[results.len() - 1] is Ok);
        assert(successes(results) =~= values);
    }
}

/// Where one result is a failure and every other a success, what is kept
/// is the values of the others, in their order: one fewer than there are
/// results.
pub proof fn leaves_out_the_one_failure<T>(results: Seq<Result<T, LoadError>>, failing: int)
    requires
        0 <= failing < results.len(),
        results[failing] is Err,
        forall|i: int| 0 <= i < results.len() && i != failing ==> #[trigger] results[i] is Ok,
    ensures
        successes(results).len() == results.len() - 1,
        successes(results) == Seq::new(
            (results.len() - 1) as nat,
            |i: int| results.remove(failing)[i]->Ok_0,
        ),
{
    let before = results.take(failing);
    let after = results.skip(failing + 1);
    let one = seq![results[failing]];
    assert(results =~= before + one + after);
    successes_add(before + one, after);
    successes_add(before, one);
    assert(one =~= Seq::<Result<T, LoadError>>::empty().push(results[failing]));
    successes_push(Seq::<Result<T, LoadError>>::empty(), results[failing]);
    assert(successes(one) =~= Seq::<T>::empty());
    assert(successes(before) + successes(one) =~= successes(before));
    keeps_all_where_all_succeed(before);
    keeps_all_where_all_succeed(after);
    let others = results.remove(failing);
    assert(others =~= before + after);
    assert(successes(results) =~= Seq::new(
        (results.len() - 1) as nat,
        |i: int| others[i]->Ok_0,
    ));
}

/// Once the results up to a position fail as a whole, all of them do, and
/// with the same error.
pub proof fn failure_stays<T>(results: Seq<Result<T, LoadError>>, upto: int)
    requires
        0 <= upto <= results.len(),
        all_or_first_failure(results.take(upto)) is Err,
    ensures
        all_or_first_failure(results) == all_or_first_failure(results.take(upto)),
    decreases results.len() - upto,
{
    if upto < results.len() {
        assert(results.take(upto + 1).drop_last() =~= results.take(upto));
        failure_stays(results, upto + 1);
    } else {
        assert(results.take(upto) =~= results);
    }
}

/// Results taken as a whole succeed exactly where every one is a success,
/// and then hold one value for each. Where one is a failure, the whole
/// fails with the error of the first that is: nothing partial comes out.
pub proof fn all_or_first_failure_is_what_it_says<T>(results: Seq<Result<T, LoadError>>)
    ensures
        all_or_first_failure(results) is Ok <==> forall|i: int|
            0 <= i < results.len() ==> #[trigger] results[i] is Ok,
        all_or_first_failure(results) matches Ok(values) ==> values.len() == results.len()
            && forall|i: int|
            0 <= i < results.len() ==> #[trigger] results[i] == Ok::<T, LoadError>(values[i]),
        forall|first: int|
            0 <= first < results.len() && #[trigger] results[first] is Err && (forall|i: int|
                0 <= i < first ==> #[trigger] results[i] is Ok) ==> all_or_first_failure(results)
                == Err::<Seq<T>, LoadError>(results[first]->Err_0),
    decreases results.len(),
{
    if results.len() > 0 {
        let shorter = results.drop_last();
        all_or_first_failure_is_what_it_says(shorter);
        assert forall|i: int| 0 <= i < shorter.len() implies shorter[i] == results[i] by {}
        if all_or_first_failure(results) is Ok {
            assert forall|i: int| 0 <= i < results.len() implies #[trigger] results[i] is Ok by {
                if i < shorter.len() {
                    assert(shorter[i] == results[i]);
                }
            }
        }
        if forall|i: int| 0 <= i < results.len() ==> #[trigger] results[i] is Ok {
            assert forall|i: int| 0 <= i < shorter.len() implies #[trigger] shorter[i] is Ok by {
                assert(shorter[i] == results[i]);
            }
            assert(results[results.len() - 1] is Ok);
        }
        assert forall|first: int|
            0 <= first < results.len() && #[trigger] results[first] is Err && (forall|i: int|
                0 <= i < first ==> #[trigger] results[i] is Ok) implies all_or_first_failure(
            results,
        ) == Err::<Seq<T>, LoadError>(results[first]->Err_0) by {
            if first < shorter.len() {
                assert(shorter[first] == results[first]);
                assert forall|i: int| 0 <= i < first implies #[trigger] shorter[i] is Ok by {
                    assert(shorter[i] == results[i]);
                }
            } else {
                assert forall|i: int| 0 <= i < shorter.len() implies #[trigger] shorter[i] is Ok by {
                    assert(shorter[i] == results[i]);
                }
            }
        }
    }
}

} // verus!
