use vstd::prelude::*;

verus! {

/// An error of a tool call: a message for the model, or a failure of the call
/// itself.
#[derive(Debug)]
pub enum FunctionCallError {
    RespondToModel(String),
    MissingLocalShellCallId,
    Fatal(String),
}

/// `e` is a message for the model with the text `msg`.
pub open spec fn responds_with(e: FunctionCallError, msg: Seq<char>) -> bool {
    e matches FunctionCallError::RespondToModel(s) && s@ == msg
}

} // verus!

verus! {

/// `res` is the string `t` where `expected` is `Ok(t)`, and a message for the
/// model with the text `m` where `expected` is `Err(m)`.
pub open spec fn same_outcome(
    res: Result<String, FunctionCallError>,
    expected: Result<Seq<char>, Seq<char>>,
) -> bool {
    match (res, expected) {
        (Ok(s), Ok(t)) => s@ == t,
        (Err(e), Err(m)) => responds_with(e, m),
        _ => false,
    }
}

/// As [`same_outcome`], for a call that succeeds with no value.
pub open spec fn same_unit_outcome(
    res: Result<(), FunctionCallError>,
    expected: Option<Seq<char>>,
) -> bool {
    match (res, expected) {
        (Ok(_), None) => true,
        (Err(e), Some(m)) => responds_with(e, m),
        _ => false,
    }
}

/// As [`same_outcome`], for a call that may succeed with no string.
pub open spec fn same_optional_outcome(
    res: Result<Option<String>, FunctionCallError>,
    expected: Result<Option<Seq<char>>, Seq<char>>,
) -> bool {
    match (res, expected) {
        (Ok(Some(s)), Ok(Some(t))) => s@ == t,
        (Ok(None), Ok(None)) => true,
        (Err(e), Err(m)) => responds_with(e, m),
        _ => false,
    }
}

} // verus!
