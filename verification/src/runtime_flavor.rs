use vstd::prelude::*;
use vstd::string::StrSliceExecFns;

verus! {

/// Character-for-character equality of two texts.
pub fn str_eq(a: &str, b: &str) -> (r: bool)
    ensures
        r == (a@ == b@),
{
    let na: usize = a.unicode_len();
    let nb: usize = b.unicode_len();
    if na != nb {
        return false;
    }
    let mut i: usize = 0;
    while i < na
        invariant
            na == a@.len(),
            na == b@.len(),
            i <= na,
            forall|j: int| 0 <= j < i ==> a@[j] == b@[j],
        decreases na - i,
    {
        if a.get_char(i) != b.get_char(i) {
            return false;
        }
        i = i + 1;
    }
    proof {
        assert(a@ =~= b@);
    }
    true
}

/// Which flavor of runtime should drive the program: a single thread, or
/// one worker thread per unit of available parallelism.
#[derive(Clone, Copy, Debug, PartialEq, Eq, Structural)]
pub enum RuntimeFlavor {
    CurrentThread,
    MultiThread,
}

/// The one way reading a runtime flavor out of text can fail.
#[derive(Clone, Copy, Debug, PartialEq, Eq, Structural)]
pub enum ParseRuntimeFlavorError {
    Parse,
}

impl RuntimeFlavor {
    /// Read a flavor out of its textual name, exactly "current_thread" or
    /// "multi_thread"; anything else is rejected.
    pub fn from_str(s: &str) -> (r: Result<RuntimeFlavor, ParseRuntimeFlavorError>)
        ensures
            s@ == "current_thread"@ ==> r == Ok::<RuntimeFlavor, ParseRuntimeFlavorError>(
                RuntimeFlavor::CurrentThread,
            ),
            s@ == "multi_thread"@ ==> r == Ok::<RuntimeFlavor, ParseRuntimeFlavorError>(
                RuntimeFlavor::MultiThread,
            ),
            s@ != "current_thread"@ && s@ != "multi_thread"@ ==> r == Err::<
                RuntimeFlavor,
                ParseRuntimeFlavorError,
            >(ParseRuntimeFlavorError::Parse),
    {
        proof {
            broadcast use vstd::string::group_string_axioms;

            reveal_strlit("current_thread");
            reveal_strlit("multi_thread");
            assert("current_thread"@.len() == 14);
            assert("multi_thread"@.len() == 12);
        }
        if str_eq(s, "current_thread") {
            Ok(RuntimeFlavor::CurrentThread)
        } else if str_eq(s, "multi_thread") {
            Ok(RuntimeFlavor::MultiThread)
        } else {
            Err(ParseRuntimeFlavorError::Parse)
        }
    }

    /// The flavor's textual name: the exact text `from_str` accepts for it.
    pub fn as_str(&self) -> (r: &'static str)
        ensures
            *self is CurrentThread ==> r@ == "current_thread"@,
            *self is MultiThread ==> r@ == "multi_thread"@,
    {
        match self {
            RuntimeFlavor::CurrentThread => "current_thread",
            RuntimeFlavor::MultiThread => "multi_thread",
        }
    }
}

} // verus!
