use vstd::prelude::*;

verus! {

/// The failure of one tensor, which aborts the whole conversion.
#[derive(Debug)]
pub struct TensorFailure<E> {
    pub name: String,
    pub error: E,
}

/// Every tensor was processed successfully.
pub open spec fn all_ok<T, E>(s: Seq<(String, Result<T, E>)>) -> bool {
    forall|i: int| 0 <= i < s.len() ==> (#[trigger] s[i]).1 is Ok
}

/// Entry `i` is the first that failed.
pub open spec fn first_failure<T, E>(s: Seq<(String, Result<T, E>)>, i: int) -> bool {
    &&& 0 <= i < s.len()
    &&& s[i].1 is Err
    &&& forall|j: int| 0 <= j < i ==> (#[trigger] s[j]).1 is Ok
}

/// `out` holds, in order, the names and values of the successful `s`.
pub open spec fn collected<T, E>(s: Seq<(String, Result<T, E>)>, out: Seq<(String, T)>) -> bool {
    &&& out.len() == s.len()
    &&& forall|i: int|
        0 <= i < s.len() ==> (#[trigger] out[i]).0 == s[i].0 && s[i].1 == Ok::<T, E>(out[i].1)
}

/// The outcome of gathering per-tensor results: all of them when every one
/// succeeded, else the first failure with the name of its tensor.
pub open spec fn gathered<T, E>(
    s: Seq<(String, Result<T, E>)>,
    r: Result<Vec<(String, T)>, TensorFailure<E>>,
) -> bool {
    &&& (r is Ok <==> all_ok(s))
    &&& r matches Ok(v) ==> collected(s, v@)
    &&& r matches Err(f) ==> exists|i: int|
        first_failure(s, i) && f.name == s[i].0 && s[i].1 == Err::<T, E>(f.error)
}

/// Gathers the per-tensor results of a conversion, stopping at the first
/// failure.
pub fn collect_results<T, E>(results: Vec<(String, Result<T, E>)>) -> (r: Result<
    Vec<(String, T)>,
    TensorFailure<E>,
>)
    ensures
        gathered(results@, r),
{
    let ghost all = results@;
    let mut rest = results;
    let mut out: Vec<(String, T)> = Vec::new();
    while rest.len() > 0
        invariant
            all == results@,
            out@.len() + rest@.len() == all.len(),
            rest@ == all.subrange(out@.len() as int, all.len() as int),
            forall|i: int|
                0 <= i < out@.len() ==> (#[trigger] out@[i]).0 == all[i].0 && all[i].1 == Ok::<
                    T,
                    E,
                >(out@[i].1),
        decreases rest@.len(),
    {
        let ghost k = out@.len() as int;
        let (name, result) = rest.remove(0);
        assert(all[k] == (name, result));
        match result {
            Ok(t) => {
                out.push((name, t));
                assert(rest@ =~= all.subrange(out@.len() as int, all.len() as int));
            },
            Err(error) => {
                assert forall|j: int| 0 <= j < k implies (#[trigger] all[j]).1 is Ok by {
                    assert(out@[j].0 == all[j].0);
                }
                assert(first_failure(all, k));
                let failure = TensorFailure { name, error };
                assert(failure.name == all[k].0 && all[k].1 == Err::<T, E>(failure.error));
                return Err(failure);
            },
        }
    }
    assert forall|i: int| 0 <= i < all.len() implies (#[trigger] all[i]).1 is Ok by {
        assert(out@[i].0 == all[i].0);
    }
    assert(collected(all, out@));
    Ok(out)
}

/// Where exactly one tensor fails, that tensor is the one reported.
pub proof fn lemma_single_failure_reported<T, E>(s: Seq<(String, Result<T, E>)>, i: int)
    requires
        0 <= i < s.len(),
        s[i].1 is Err,
        forall|j: int| 0 <= j < s.len() && j != i ==> (#[trigger] s[j]).1 is Ok,
    ensures
        !all_ok(s),
        forall|j: int| #[trigger] first_failure(s, j) ==> j == i,
{
}

/// An output container: metadata and named tensors, in order.
pub struct Container<M, T> {
    pub metadata: Vec<(String, M)>,
    pub tensors: Vec<(String, T)>,
}

/// Builds the container of a conversion whose source carries metadata,
/// which is kept as it is.
pub fn assemble<M, T, E>(metadata: Vec<(String, M)>, results: Vec<(String, Result<T, E>)>) -> (r:
    Result<Container<M, T>, TensorFailure<E>>)
    ensures
        r matches Ok(c) ==> c.metadata@ == metadata@,
        gathered(
            results@,
            match r {
                Ok(c) => Ok(c.tensors),
                Err(f) => Err(f),
            },
        ),
{
    match collect_results(results) {
        Ok(tensors) => Ok(Container { metadata, tensors }),
        Err(f) => Err(f),
    }
}

/// Builds the container of a conversion whose source has no metadata.
pub fn assemble_flat<M, T, E>(results: Vec<(String, Result<T, E>)>) -> (r: Result<
    Container<M, T>,
    TensorFailure<E>,
>)
    ensures
        r matches Ok(c) ==> c.metadata@.len() == 0,
        gathered(
            results@,
            match r {
                Ok(c) => Ok(c.tensors),
                Err(f) => Err(f),
            },
        ),
{
    assemble(Vec::new(), results)
}

} // verus!
