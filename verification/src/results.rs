//! Results and their propagation: a source that succeeds or fails on
//! demand, and two callers that pass its outcome through unchanged, one by
//! a match and one by the question-mark operator.

use vstd::prelude::*;

verus! {

/// The error a failed request carries.
#[derive(Debug, PartialEq, Eq, Structural, Clone, Copy)]
pub enum DataError {
    InvalidData,
}

impl DataError {
    /// The message a reader is shown for this error.
    pub fn message(&self) -> (r: String)
        ensures
            r@ == "Invalid input can not create data"@,
    {
        String::from_str("Invalid input can not create data")
    }
}

/// Returns the sample string when the flag is set, and the invalid-data
/// error otherwise: `Ok` if and only if `flag`.
pub fn get_str_or_err(flag: bool) -> (r: Result<String, DataError>)
    ensures
        flag ==> (r matches Ok(s) && s@ == "sample string"@),
        !flag ==> r == Err::<String, DataError>(DataError::InvalidData),
{
    if flag {
        Ok(String::from_str("sample string"))
    } else {
        Err(DataError::InvalidData)
    }
}

/// Passes the source's outcome through by matching on it: the same `Ok`
/// and the same `Err` as `get_str_or_err` on every flag.
pub fn get_message(flag: bool) -> (r: Result<String, DataError>)
    ensures
        flag ==> (r matches Ok(s) && s@ == "sample string"@),
        !flag ==> r == Err::<String, DataError>(DataError::InvalidData),
{
    let res = get_str_or_err(flag);
    match res {
        Ok(val) => Ok(val),
        Err(e) => Err(e),
    }
}

/// Passes the source's outcome through with the question-mark operator.
/// Agrees with `get_message` on every flag.
pub fn get_message_02(flag: bool) -> (r: Result<String, DataError>)
    ensures
        flag ==> (r matches Ok(s) && s@ == "sample string"@),
        !flag ==> r == Err::<String, DataError>(DataError::InvalidData),
{
    let res = get_str_or_err(flag)?;
    Ok(res)
}

} // verus!
