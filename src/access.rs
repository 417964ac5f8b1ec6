use vstd::prelude::*;
use crate::model::{AccessControl, CapsuleError, TimeCapsule};

verus! {

/// The condition types for which a verifier exists.
pub open spec fn is_known_condition(condition_type: Seq<char>) -> bool {
    condition_type == "token_holder"@
    || condition_type == "geo_location"@
    || condition_type == "quiz"@
}

/// `who` is named in the allow-list.
pub open spec fn listed(viewers: Seq<String>, who: Seq<char>) -> bool {
    exists|i: int| 0 <= i < viewers.len() && (#[trigger] viewers[i])@ == who
}

/// Whether the access policy of `c` lets `caller` read it, once unlocked.
pub open spec fn reveal_outcome(c: TimeCapsule, caller: Seq<char>) -> Result<(), CapsuleError> {
    match c.access_control {
        AccessControl::Public => Ok(()),
        AccessControl::Private { allowed_viewers } => {
            if listed(allowed_viewers@, caller) || c.creator@ == caller {
                Ok(())
            } else {
                Err(CapsuleError::AccessDenied)
            }
        },
        AccessControl::Conditional { condition_type, .. } => {
            if is_known_condition(condition_type@) {
                Ok(())
            } else {
                Err(CapsuleError::UnknownCondition)
            }
        },
    }
}

fn same_text(a: &String, b: &str) -> (r: bool)
    ensures
        r == (a@ == b@),
{
    let other = String::from_str(b);
    *a == other
}

/// Checks a conditional-access requirement. Each recognised condition type
/// currently admits every caller; an unrecognised one is refused.
pub fn validate_condition(condition_type: &String, condition_data: &String, caller: &String) -> (r:
    Result<(), CapsuleError>)
    ensures
        r == (if is_known_condition(condition_type@) {
            Ok::<(), CapsuleError>(())
        } else {
            Err(CapsuleError::UnknownCondition)
        }),
{
    if same_text(condition_type, "token_holder") {
        Ok(())
    } else if same_text(condition_type, "geo_location") {
        Ok(())
    } else if same_text(condition_type, "quiz") {
        Ok(())
    } else {
        Err(CapsuleError::UnknownCondition)
    }
}

fn is_listed(viewers: &Vec<String>, who: &String) -> (r: bool)
    ensures
        r == listed(viewers@, who@),
{
    let mut i: usize = 0;
    while i < viewers.len()
        invariant
            0 <= i <= viewers.len(),
            forall|j: int| 0 <= j < i ==> (#[trigger] viewers@[j])@ != who@,
        decreases viewers.len() - i,
    {
        if viewers[i] == *who {
            return true;
        }
        i = i + 1;
    }
    false
}

/// Decides whether `caller` may read `capsule`. The unlock time is not
/// consulted here: callers check it first.
pub fn can_reveal(capsule: &TimeCapsule, caller: &String) -> (r: Result<(), CapsuleError>)
    ensures
        r == reveal_outcome(*capsule, caller@),
{
    match &capsule.access_control {
        AccessControl::Public => Ok(()),
        AccessControl::Private { allowed_viewers } => {
            if is_listed(allowed_viewers, caller) || capsule.creator == *caller {
                Ok(())
            } else {
                Err(CapsuleError::AccessDenied)
            }
        },
        AccessControl::Conditional { condition_type, condition_data } => {
            validate_condition(condition_type, condition_data, caller)
        },
    }
}

} // verus!
