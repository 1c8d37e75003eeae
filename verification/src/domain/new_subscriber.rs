//! A submission whose two fields have both been validated.

use crate::domain::subscriber_email::{is_valid_email, SubscriberEmail};
use crate::domain::subscriber_name::{
    name_fault, name_is_valid, SubscriberName, ValidationError,
};
use crate::text::grapheme_count;
use vstd::prelude::*;

verus! {

/// A subscriber about to be recorded: a valid address and a valid name.
#[derive(Debug)]
pub struct NewSubscriber {
    pub email: SubscriberEmail,
    pub name: SubscriberName,
}

/// What is wrong with a submission of `name` and `email`, if anything. The
/// name is judged first; the address only once the name has passed.
pub open spec fn submission_fault(name: Seq<char>, email: Seq<char>) -> Option<ValidationError> {
    match name_fault(name, grapheme_count(name)) {
        Some(fault) => Some(fault),
        None => if is_valid_email(email) {
            None
        } else {
            Some(ValidationError::InvalidEmail)
        },
    }
}

/// A submission has no fault exactly when its name and its address are both
/// valid: neither field makes up for the other.
pub proof fn law_submission_needs_both_fields_valid(name: Seq<char>, email: Seq<char>)
    ensures
        submission_fault(name, email) is None <==> name_is_valid(name) && is_valid_email(email),
{
}

} // verus!
