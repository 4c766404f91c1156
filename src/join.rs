use vstd::prelude::*;

verus! {

/// `k` is the first failure among `results`.
pub open spec fn first_err_at<E>(results: Seq<Result<(), E>>, k: int) -> bool {
    &&& 0 <= k < results.len()
    &&& results[k] is Err
    &&& forall|j: int| 0 <= j < k ==> results[j] is Ok
}

/// No task in `results` failed.
pub open spec fn all_ok<E>(results: Seq<Result<(), E>>) -> bool {
    forall|j: int| 0 <= j < results.len() ==> results[j] is Ok
}

/// The first failure among the results of the tasks, in the order in which
/// they were observed; `Ok` when none failed.
pub fn first_failure<E>(results: Vec<Result<(), E>>) -> (r: Result<(), E>)
    ensures
        r is Ok <==> all_ok(results@),
        r is Err ==> exists|k: int|
            first_err_at(results@, k) && results@[k] == Err::<(), E>(r->Err_0),
{
    let ghost all = results@;
    let mut rest = results;
    let mut found: Option<E> = None;
    while rest.len() > 0
        invariant
            rest@.len() <= all.len(),
            rest@ == all.take(rest@.len() as int),
            found is None ==> forall|j: int| rest@.len() <= j < all.len() ==> all[j] is Ok,
            found is Some ==> exists|k: int|
                rest@.len() <= k < all.len() && all[k] == Err::<(), E>(found->0) && forall|j: int|
                    rest@.len() <= j < k ==> all[j] is Ok,
        decreases rest@.len(),
    {
        let ghost n = rest@.len() as int;
        let last = rest.pop();
        proof {
            assert(all[n - 1] == rest@.push(last->0)[n - 1]);
            assert(rest@ =~= all.take(n - 1));
        }
        match last {
            Some(Err(e)) => {
                found = Some(e);
            },
            _ => {},
        }
    }
    match found {
        Some(e) => Err(e),
        None => Ok(()),
    }
}

/// Ends a join: the handler comes back when no task failed, and otherwise
/// the first failure among the results, in the order observed.
pub fn finish_join<H, E>(handler: H, results: Vec<Result<(), E>>) -> (r: Result<H, E>)
    ensures
        all_ok(results@) ==> r == Ok::<H, E>(handler),
        !all_ok(results@) ==> r is Err && exists|k: int|
            first_err_at(results@, k) && results@[k] == Err::<(), E>(r->Err_0),
{
    match first_failure(results) {
        Ok(()) => Ok(handler),
        Err(e) => Err(e),
    }
}

} // verus!
