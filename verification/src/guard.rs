//! At most one sweep per server at a time.

use std::collections::HashSet;
use vstd::prelude::*;
use vstd::string::*;

verus! {

broadcast use vstd::std_specs::hash::group_hash_axioms;

/// The servers that are being swept right now.
pub struct ActiveSweeps {
    servers: HashSet<u64>,
}

impl View for ActiveSweeps {
    type V = Set<u64>;

    closed spec fn view(&self) -> Set<u64> {
        self.servers@
    }
}

/// What a user is told who asks for a sweep of a server that is being swept.
pub open spec fn busy_text() -> Seq<char> {
    "A sweep is already running for this server"@
}

impl ActiveSweeps {
    /// No server is being swept.
    pub fn new() -> (active: ActiveSweeps)
        ensures
            active@ == Set::<u64>::empty(),
    {
        ActiveSweeps { servers: HashSet::new() }
    }

    /// Claims a server for a sweep. Succeeds if and only if no sweep of
    /// the server is under way; the server then counts as being swept
    /// until `finish`.
    pub fn try_begin(&mut self, server_id: u64) -> (claimed: bool)
        ensures
            claimed == !old(self)@.contains(server_id),
            final(self)@ == old(self)@.insert(server_id),
    {
        self.servers.insert(server_id)
    }

    /// Gives a server back once its sweep is over, whether it completed
    /// or failed.
    pub fn finish(&mut self, server_id: u64)
        ensures
            final(self)@ == old(self)@.remove(server_id),
    {
        self.servers.remove(&server_id);
    }

    /// Whether a sweep of the server is under way.
    pub fn is_sweeping(&self, server_id: u64) -> (sweeping: bool)
        ensures
            sweeping == self@.contains(server_id),
    {
        self.servers.contains(&server_id)
    }

    /// Writes what a user is told who asks for a sweep of a server that
    /// is being swept.
    pub fn busy_message() -> (text: String)
        ensures
            text@ == busy_text(),
    {
        String::from_str("A sweep is already running for this server")
    }
}

/// While a sweep of a server is under way, a second claim on it fails and
/// leaves everything as it is; once the sweep has finished, a claim
/// succeeds again.
pub proof fn lemma_one_sweep_per_server(active: Set<u64>, server_id: u64)
    ensures
        active.insert(server_id).contains(server_id),
        active.insert(server_id).insert(server_id) == active.insert(server_id),
        !active.insert(server_id).remove(server_id).contains(server_id),
{
}

} // verus!
