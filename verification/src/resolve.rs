use vstd::prelude::*;
use vstd::string::StringExecFns;
use crate::tracker::ScopeTracker;

verus! {

/// The trace identifier that applies to an event whose enclosing scopes are
/// `chain`, ordered root first, given the attachments `atts`: the attachment
/// of the innermost scope that has one, or `None` when no scope in the chain
/// carries an attachment.
pub open spec fn resolved_trace(atts: Map<u64, Seq<char>>, chain: Seq<u64>) -> Option<Seq<char>>
    decreases chain.len(),
{
    if chain.len() == 0 {
        None
    } else if atts.contains_key(chain.last()) {
        Some(atts[chain.last()])
    } else {
        resolved_trace(atts, chain.drop_last())
    }
}

/// The full trace reference composed for a resolved identifier.
pub open spec fn trace_path(project: Seq<char>, trace_id: Seq<char>) -> Seq<char> {
    "projects/"@ + project + "/traces/"@ + trace_id
}

/// Walk the scope chain from root to leaf and keep the last attachment seen:
/// the innermost scope that carries one wins.
pub fn resolve_trace(tracker: &ScopeTracker, chain: &Vec<u64>) -> (r: Option<String>)
    ensures
        match r {
            Some(t) => resolved_trace(tracker@, chain@) == Some::<Seq<char>>(t@),
            None => resolved_trace(tracker@, chain@) is None,
        },
{
    let mut found: Option<String> = None;
    let mut i: usize = 0;
    while i < chain.len()
        invariant
            i <= chain@.len(),
            match found {
                Some(t) => resolved_trace(tracker@, chain@.take(i as int)) == Some::<Seq<char>>(
                    t@,
                ),
                None => resolved_trace(tracker@, chain@.take(i as int)) is None,
            },
        decreases chain@.len() - i,
    {
        proof {
            assert(chain@.take(i + 1).drop_last() =~= chain@.take(i as int));
            assert(chain@.take(i + 1).last() == chain@[i as int]);
        }
        match tracker.lookup(chain[i]) {
            Some(t) => {
                found = Some(t.clone());
            },
            None => {},
        }
        i = i + 1;
    }
    proof {
        assert(chain@.take(chain@.len() as int) =~= chain@);
    }
    found
}

/// Compose the trace reference `projects/{project}/traces/{trace_id}`.
pub fn format_trace_path(project: &str, trace_id: &str) -> (r: String)
    ensures
        r@ == trace_path(project@, trace_id@),
{
    let mut s = String::from_str("projects/");
    s.append(project);
    s.append("/traces/");
    s.append(trace_id);
    proof {
        assert(s@ =~= trace_path(project@, trace_id@));
    }
    s
}

/// An event with no enclosing trace-carrying scope resolves to no trace
/// reference at all.
pub proof fn lemma_no_attachment_no_trace(atts: Map<u64, Seq<char>>, chain: Seq<u64>)
    requires
        forall|i: int| 0 <= i < chain.len() ==> !atts.contains_key(#[trigger] chain[i]),
    ensures
        resolved_trace(atts, chain) is None,
    decreases chain.len(),
{
    if chain.len() > 0 {
        lemma_no_attachment_no_trace(atts, chain.drop_last());
    }
}

/// Innermost wins: when the scope at position `j` carries an attachment and
/// no scope nested inside it does, the event resolves to exactly that
/// attachment, whatever the outer scopes carry.
pub proof fn lemma_innermost_wins(atts: Map<u64, Seq<char>>, chain: Seq<u64>, j: int)
    requires
        0 <= j < chain.len(),
        atts.contains_key(chain[j]),
        forall|k: int| j < k < chain.len() ==> !atts.contains_key(#[trigger] chain[k]),
    ensures
        resolved_trace(atts, chain) == Some(atts[chain[j]]),
    decreases chain.len(),
{
    if j == chain.len() - 1 {
    } else {
        assert(chain.drop_last()[j] == chain[j]);
        lemma_innermost_wins(atts, chain.drop_last(), j);
    }
}

/// Independent chains never cross-contaminate: an attachment stored for a
/// scope outside a chain leaves that chain's resolution untouched.
pub proof fn lemma_chain_isolation(
    atts: Map<u64, Seq<char>>,
    chain: Seq<u64>,
    other: u64,
    t: Seq<char>,
)
    requires
        !chain.contains(other),
    ensures
        resolved_trace(atts.insert(other, t), chain) == resolved_trace(atts, chain),
    decreases chain.len(),
{
    if chain.len() > 0 {
        assert(chain[chain.len() - 1] != other);
        assert(forall|i: int|
            0 <= i < chain.drop_last().len() ==> chain.drop_last()[i] == chain[i]);
        assert(!chain.drop_last().contains(other));
        lemma_chain_isolation(atts, chain.drop_last(), other, t);
    }
}

} // verus!
