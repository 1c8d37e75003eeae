//! Confirming a subscription.

use crate::routes::subscriptions::{HttpOutcome, SubscriptionStatus};
use vstd::prelude::*;

verus! {

/// Confirms a subscription: whatever its status was, it is confirmed
/// afterwards, and the request is answered with 200.
pub fn confirm(status: SubscriptionStatus) -> (r: (SubscriptionStatus, HttpOutcome))
    ensures
        r.0 == SubscriptionStatus::Confirmed,
        r.1 == HttpOutcome::Success,
{
    (status.confirmed(), HttpOutcome::Success)
}

} // verus!
