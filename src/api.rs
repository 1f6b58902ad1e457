//! Request checks made at the service boundary before the engine is called.

use vstd::prelude::*;
use vstd::string::StringExecFns;

verus! {

/// A catalog id: exactly 16 characters, each an ASCII digit or a lowercase
/// ASCII letter.
pub open spec fn is_omid(id: Seq<char>) -> bool {
    id.len() == 16 && forall|i: int|
        0 <= i < id.len() ==> ('0' <= #[trigger] id[i] <= '9' || 'a' <= id[i] <= 'z')
}

/// Whether `id` is a well-formed catalog id.
pub fn is_valid_omid(id: &str) -> (r: bool)
    ensures
        r == is_omid(id@),
{
    let cs = crate::text::chars_of(id);
    if cs.len() != 16 {
        return false;
    }
    let mut i: usize = 0;
    while i < cs.len()
        invariant
            cs@ == id@,
            cs@.len() == 16,
            i <= 16,
            forall|k: int| 0 <= k < i ==> ('0' <= #[trigger] id@[k] <= '9' || 'a' <= id@[k] <= 'z'),
        decreases 16 - i,
    {
        let c = cs[i];
        if !(('0' <= c && c <= '9') || ('a' <= c && c <= 'z')) {
            return false;
        }
        i = i + 1;
    }
    true
}

/// Why a search request's paging was refused.
#[derive(PartialEq, Eq, Structural, Clone, Copy, Debug)]
pub enum PagingError {
    /// The limit is outside 1..=100.
    LimitOutOfRange,
    /// The offset is negative.
    NegativeOffset,
}

impl PagingError {
    /// The message served with the refusal.
    pub fn message(&self) -> (r: &'static str)
        ensures
            *self == PagingError::LimitOutOfRange ==> r@ == "Limit must be between 1 and 100"@,
            *self == PagingError::NegativeOffset ==> r@ == "Offset must be non-negative"@,
    {
        match self {
            PagingError::LimitOutOfRange => "Limit must be between 1 and 100",
            PagingError::NegativeOffset => "Offset must be non-negative",
        }
    }
}

/// Checks a search request's paging: the limit first, then the offset.
pub fn check_paging(limit: i32, offset: i32) -> (r: Result<(), PagingError>)
    ensures
        (limit < 1 || limit > 100) ==> r == Err::<(), PagingError>(PagingError::LimitOutOfRange),
        (1 <= limit <= 100 && offset < 0) ==> r == Err::<(), PagingError>(PagingError::NegativeOffset),
        (1 <= limit <= 100 && offset >= 0) ==> r is Ok,
{
    if limit < 1 || limit > 100 {
        Err(PagingError::LimitOutOfRange)
    } else if offset < 0 {
        Err(PagingError::NegativeOffset)
    } else {
        Ok(())
    }
}

/// A request body that was decoded and then validated.
pub struct ValidatedJson<T>(pub T);

/// Why a JSON request body was refused.
pub enum ValidationError {
    /// The body is not JSON of the expected shape.
    JsonDataError(String),
    /// The body decoded but broke a validation rule.
    ValidationError(String),
}

impl ValidationError {
    /// The message served with the refusal (always with status 400).
    pub fn message(&self) -> (r: String)
        ensures
            self matches ValidationError::JsonDataError(m) ==> r@ == "Invalid JSON: "@ + m@,
            self matches ValidationError::ValidationError(m) ==> r@ == "Validation Failed: "@ + m@,
    {
        match self {
            ValidationError::JsonDataError(m) => {
                let mut s = String::from_str("Invalid JSON: ");
                s.append(m.as_str());
                s
            },
            ValidationError::ValidationError(m) => {
                let mut s = String::from_str("Validation Failed: ");
                s.append(m.as_str());
                s
            },
        }
    }

    /// The HTTP status served with the refusal.
    pub fn status(&self) -> (r: u16)
        ensures
            r == 400,
    {
        400
    }
}

} // verus!
