use vstd::prelude::*;
use vstd::map::*;
use std::collections::HashMap;
use crate::fields::{extract_trace_id, trace_id_of};

verus! {

broadcast use vstd::std_specs::hash::group_hash_axioms;

/// Side table of trace attachments: for every live scope that declared a
/// `trace_id` attribute at creation, the attached identifier, keyed by the
/// scope's opaque numeric identity.
///
/// The tracker does not own scope lifecycle; the surrounding framework
/// creates each scope exactly once and tells the tracker when it is
/// destroyed, so an entry is written at most once and removed at teardown.
pub struct ScopeTracker {
    table: HashMap<u64, String>,
}

impl View for ScopeTracker {
    type V = Map<u64, Seq<char>>;

    closed spec fn view(&self) -> Map<u64, Seq<char>> {
        self.table@.map_values(|v: String| v@)
    }
}

impl ScopeTracker {
    /// An empty tracker: no scope carries an attachment.
    pub fn new() -> (r: ScopeTracker)
        ensures
            r@ == Map::<u64, Seq<char>>::empty(),
    {
        let t = ScopeTracker { table: HashMap::new() };
        proof {
            assert(t@ =~= Map::<u64, Seq<char>>::empty());
        }
        t
    }

    /// Record a freshly created scope: if its attributes carry a `trace_id`
    /// field, remember that value under the scope's identity; otherwise leave
    /// the table unchanged.
    pub fn on_scope_created(&mut self, scope_id: u64, fields: &Vec<(String, String)>)
        ensures
            final(self)@ == (match trace_id_of(fields@) {
                Some(t) => old(self)@.insert(scope_id, t),
                None => old(self)@,
            }),
    {
        match extract_trace_id(fields) {
            Some(t) => {
                let ghost before = self.table@;
                let ghost tv = t@;
                self.table.insert(scope_id, t);
                proof {
                    assert(self.table@.map_values(|v: String| v@) =~= before.map_values(
                        |v: String| v@,
                    ).insert(scope_id, tv));
                }
            },
            None => {},
        }
    }

    /// The attachment stored for exactly this scope, or `None` if the scope
    /// never declared one. Pure read.
    pub fn lookup(&self, scope_id: u64) -> (r: Option<&String>)
        ensures
            match r {
                Some(t) => self@.contains_key(scope_id) && t@ == self@[scope_id],
                None => !self@.contains_key(scope_id),
            },
    {
        let r = self.table.get(&scope_id);
        proof {
            assert(self.table@.contains_key(scope_id) == self@.contains_key(scope_id));
        }
        r
    }

    /// Drop the entry for a destroyed scope, if it had one: an attachment
    /// lives exactly as long as its scope.
    pub fn on_scope_closed(&mut self, scope_id: u64)
        ensures
            final(self)@ == old(self)@.remove(scope_id),
    {
        let ghost before = self.table@;
        self.table.remove(&scope_id);
        proof {
            assert(self.table@.map_values(|v: String| v@) =~= before.map_values(
                |v: String| v@,
            ).remove(scope_id));
        }
    }
}

} // verus!
