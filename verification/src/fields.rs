use vstd::prelude::*;
use vstd::string::StringExecFns;

verus! {

/// The value of the last field named `name` in `fields`, if any.
///
/// An event or scope hands its attributes over as (name, rendered value)
/// pairs in declaration order; when a name repeats, the visitor that
/// rendered them keeps the last occurrence, so the lookup does too.
pub open spec fn field_lookup(fields: Seq<(String, String)>, name: Seq<char>) -> Option<Seq<char>>
    decreases fields.len(),
{
    if fields.len() == 0 {
        None
    } else if fields.last().0@ == name {
        Some(fields.last().1@)
    } else {
        field_lookup(fields.drop_last(), name)
    }
}

/// The message an event carries: the value of its `message` field, or the
/// empty string when no such field is present.
pub open spec fn message_of(fields: Seq<(String, String)>) -> Seq<char> {
    match field_lookup(fields, "message"@) {
        Some(m) => m,
        None => Seq::empty(),
    }
}

/// The trace identifier a scope's attributes carry, if any: the value of
/// the field named `trace_id`.
pub open spec fn trace_id_of(fields: Seq<(String, String)>) -> Option<Seq<char>> {
    field_lookup(fields, "trace_id"@)
}

/// Scan `fields` for the last field named `name`.
pub fn lookup_field(fields: &Vec<(String, String)>, name: &str) -> (r: Option<String>)
    ensures
        match r {
            Some(v) => field_lookup(fields@, name@) == Some::<Seq<char>>(v@),
            None => field_lookup(fields@, name@) is None,
        },
{
    let wanted: String = name.to_owned();
    let mut found: Option<String> = None;
    let mut i: usize = 0;
    while i < fields.len()
        invariant
            i <= fields@.len(),
            wanted@ == name@,
            match found {
                Some(v) => field_lookup(fields@.take(i as int), name@) == Some::<Seq<char>>(v@),
                None => field_lookup(fields@.take(i as int), name@) is None,
            },
        decreases fields@.len() - i,
    {
        proof {
            assert(fields@.take(i + 1).drop_last() =~= fields@.take(i as int));
            assert(fields@.take(i + 1).last() == fields@[i as int]);
        }
        if fields[i].0 == wanted {
            found = Some(fields[i].1.clone());
        }
        i = i + 1;
    }
    proof {
        assert(fields@.take(fields@.len() as int) =~= fields@);
    }
    found
}

/// An event carrying no `message` field still has a message: the empty
/// string. The record layout writes the message key unconditionally, so
/// such an event produces `"message":""`, never an omitted field.
pub proof fn lemma_missing_message_is_empty(fields: Seq<(String, String)>)
    requires
        field_lookup(fields, "message"@) is None,
    ensures
        message_of(fields) == Seq::<char>::empty(),
{
}

/// Extract an event's message: the last `message` field, or `""`.
pub fn extract_message(fields: &Vec<(String, String)>) -> (r: String)
    ensures
        r@ == message_of(fields@),
{
    match lookup_field(fields, "message") {
        Some(m) => m,
        None => String::new(),
    }
}

/// Extract a scope's trace identifier: the last `trace_id` field, if any.
pub fn extract_trace_id(fields: &Vec<(String, String)>) -> (r: Option<String>)
    ensures
        match r {
            Some(v) => trace_id_of(fields@) == Some::<Seq<char>>(v@),
            None => trace_id_of(fields@) is None,
        },
{
    lookup_field(fields, "trace_id")
}

} // verus!
