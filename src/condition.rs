use vstd::prelude::*;
use crate::error::ApiError;
use crate::text::str_eq;

verus! {

/// A self-reported condition attached to an attendance stamp.
#[derive(Debug, Clone, Copy, PartialEq, Eq, Structural)]
pub enum Condition {
    Best,
    Good,
    Normal,
    Bad,
}

/// The condition that a label names, if it names one.
pub open spec fn condition_of(label: Seq<char>) -> Option<Condition> {
    if label == "best"@ {
        Some(Condition::Best)
    } else if label == "good"@ {
        Some(Condition::Good)
    } else if label == "normal"@ {
        Some(Condition::Normal)
    } else if label == "bad"@ {
        Some(Condition::Bad)
    } else {
        None
    }
}

/// The numeric code the portal expects for a condition.
pub open spec fn code_of(c: Condition) -> int {
    match c {
        Condition::Best => 1,
        Condition::Good => 2,
        Condition::Normal => 3,
        Condition::Bad => 4,
    }
}

impl Condition {
    /// Reads a condition label.
    pub fn from_label(label: &str) -> (r: Result<Condition, ApiError>)
        ensures
            r == (match condition_of(label@) {
                Some(c) => Ok(c),
                None => Err(ApiError::InvalidCondition),
            }),
    {
        if str_eq(label, "best") {
            Ok(Condition::Best)
        } else if str_eq(label, "good") {
            Ok(Condition::Good)
        } else if str_eq(label, "normal") {
            Ok(Condition::Normal)
        } else if str_eq(label, "bad") {
            Ok(Condition::Bad)
        } else {
            Err(ApiError::InvalidCondition)
        }
    }

    /// The numeric code of this condition.
    pub fn code(&self) -> (r: i32)
        ensures
            r == code_of(*self),
    {
        match self {
            Condition::Best => 1,
            Condition::Good => 2,
            Condition::Normal => 3,
            Condition::Bad => 4,
        }
    }
}

/// The numeric code of a condition label; any label other than `best`,
/// `good`, `normal` or `bad` is refused.
pub fn condition_value(condition: &str) -> (r: Result<i32, ApiError>)
    ensures
        r == (match condition_of(condition@) {
            Some(c) => Ok(code_of(c) as i32),
            None => Err(ApiError::InvalidCondition),
        }),
{
    match Condition::from_label(condition) {
        Ok(c) => Ok(c.code()),
        Err(e) => Err(e),
    }
}

/// Each of the four labels maps to its code, 1 to 4 in order, and every
/// other label maps to no code.
pub proof fn lemma_condition_codes(label: Seq<char>)
    ensures
        condition_of("best"@) == Some(Condition::Best) && code_of(Condition::Best) == 1,
        condition_of("good"@) == Some(Condition::Good) && code_of(Condition::Good) == 2,
        condition_of("normal"@) == Some(Condition::Normal) && code_of(Condition::Normal) == 3,
        condition_of("bad"@) == Some(Condition::Bad) && code_of(Condition::Bad) == 4,
        label != "best"@ && label != "good"@ && label != "normal"@ && label != "bad"@
            ==> condition_of(label) is None,
{
    reveal_strlit("best");
    reveal_strlit("good");
    reveal_strlit("normal");
    reveal_strlit("bad");
    assert("good"@[0] != "best"@[0]);
    assert("normal"@.len() != "best"@.len() && "normal"@.len() != "good"@.len());
    assert("bad"@.len() != "best"@.len() && "bad"@.len() != "good"@.len());
    assert("bad"@.len() != "normal"@.len());
}

} // verus!
