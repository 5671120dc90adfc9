//! Fixed pauses that keep outbound calls under the platform's rate limits.

use vstd::prelude::*;

verus! {

/// Pause after a role-removal call, in milliseconds.
pub const MUTATION_DELAY_MS: u64 = 25;

/// Pause between two member-list page requests, in milliseconds.
pub const PAGINATION_DELAY_MS: u64 = 50;

/// The two kinds of paced call.
#[derive(Clone, Copy, Debug, PartialEq, Eq, Structural)]
pub enum DelayClass {
    /// A call that changes one member's roles.
    Mutation,
    /// A call that reads one page of the member list.
    Pagination,
}

/// The pause that belongs to a kind of call.
pub open spec fn delay_millis(class: DelayClass) -> u64 {
    match class {
        DelayClass::Mutation => MUTATION_DELAY_MS,
        DelayClass::Pagination => PAGINATION_DELAY_MS,
    }
}

/// Paces calls by a fixed pause after each. It does not adapt to rate-limit
/// replies; that is the transport's business.
#[derive(Clone, Copy, Debug)]
pub struct Throttle;

impl Throttle {
    /// How long to wait after a call of the given kind before the next one.
    pub fn delay_after(&self, class: DelayClass) -> (millis: u64)
        ensures
            millis == delay_millis(class),
            millis > 0,
    {
        match class {
            DelayClass::Mutation => MUTATION_DELAY_MS,
            DelayClass::Pagination => PAGINATION_DELAY_MS,
        }
    }
}

/// Mutations are paced more tightly than page reads.
pub proof fn lemma_mutation_delay_is_shorter()
    ensures
        delay_millis(DelayClass::Mutation) < delay_millis(DelayClass::Pagination),
{
}

} // verus!
