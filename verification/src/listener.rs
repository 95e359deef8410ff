//! The listener table: a mapping from a command id to a caller-supplied
//! delivery sink. At most one sink per id; inserting on an id that already
//! has a sink overwrites it silently.

use vstd::prelude::*;
use std::collections::HashMap;

verus! {

/// Maps command ids to delivery sinks. Both the USB layer and the ESB layer
/// keep one, with their own sink types.
pub struct ListenerTable<S> {
    map: HashMap<u8, S>,
}

impl<S> View for ListenerTable<S> {
    type V = Map<u8, S>;

    closed spec fn view(&self) -> Map<u8, S> {
        self.map@
    }
}

impl<S> ListenerTable<S> {
    pub fn new() -> (r: Self)
        ensures
            r@ == Map::<u8, S>::empty(),
    {
        ListenerTable { map: HashMap::new() }
    }

    /// Register a sink for a command id. A sink already registered for that
    /// id is replaced: later lookups see only the new sink.
    pub fn insert(&mut self, cmd_id: u8, sink: S)
        ensures
            final(self)@ == old(self)@.insert(cmd_id, sink),
    {
        self.map.insert(cmd_id, sink);
    }

    /// The sink registered for a command id, if any.
    pub fn lookup(&self, cmd_id: u8) -> (r: Option<&S>)
        ensures
            match r {
                Some(sink) => self@.contains_key(cmd_id) && *sink == self@[cmd_id],
                None => !self@.contains_key(cmd_id),
            },
    {
        self.map.get(&cmd_id)
    }

    /// Whether some sink is registered for a command id.
    pub fn contains(&self, cmd_id: u8) -> (r: bool)
        ensures
            r == self@.contains_key(cmd_id),
    {
        self.map.contains_key(&cmd_id)
    }
}

/// Law: registering a sink for an id that already has one replaces the prior
/// sink; the table then behaves as if only the later registration happened,
/// and a lookup on that id yields the later sink.
pub proof fn lemma_listener_overwrite<S>(table: Map<u8, S>, cmd_id: u8, first: S, second: S)
    ensures
        table.insert(cmd_id, first).insert(cmd_id, second) == table.insert(cmd_id, second),
        table.insert(cmd_id, first).insert(cmd_id, second)[cmd_id] == second,
{
    assert(table.insert(cmd_id, first).insert(cmd_id, second) =~= table.insert(cmd_id, second));
}

} // verus!
