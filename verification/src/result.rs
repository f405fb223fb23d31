use vstd::prelude::*;

verus! {

/// Flatten a nested result, converting either level's error into a common
/// error type through its `From` impls: the inner value passes through
/// unchanged, and any error at either level comes out as an error.
pub fn flatten_into<T, E1, E2, E3: From<E1> + From<E2>>(r: Result<Result<T, E1>, E2>) -> (res:
    Result<T, E3>)
    ensures
        r matches Ok(inner) ==> (inner matches Ok(v) ==> res == Ok::<T, E3>(v)) && (inner is Err
            ==> res is Err),
        r is Err ==> res is Err,
{
    match r {
        Ok(Ok(value)) => Ok(value),
        Ok(Err(e)) => Err(E3::from(e)),
        Err(e) => Err(E3::from(e)),
    }
}

} // verus!
