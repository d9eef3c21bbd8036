//! Plugin descriptors: what a host shows of a plugin's related resources.
use crate::collection::Nodes;
use crate::node::Node;
use vstd::prelude::*;

verus! {

/// The first string literal of `s`, if there is one.
pub open spec fn first_string(s: Seq<Node>) -> Option<Seq<char>>
    decreases s.len(),
{
    if s.len() == 0 {
        None
    } else if s[0].value is Str {
        Some(s[0].value->Str_0@)
    } else {
        first_string(s.drop_first())
    }
}

/// The text to show for a preset: the first string among its `labels`, else
/// the preset's URI, else `None`.
pub fn preset_label<'a>(labels: &'a Nodes, preset: &'a Node) -> (r: Option<&'a str>)
    ensures
        first_string(labels@) is Some ==> r is Some && r->Some_0@ == first_string(labels@)->Some_0,
        first_string(labels@) is None ==> (r is Some == (preset.value is Uri)),
        first_string(labels@) is None && r is Some ==> r->Some_0@ == preset.value->Uri_0@,
{
    let mut i: usize = 0;
    assert(labels@.skip(0) =~= labels@);
    while i < labels.count()
        invariant
            i <= labels@.len(),
            first_string(labels@) == first_string(labels@.skip(i as int)),
        decreases labels@.len() - i,
    {
        let label = labels.get(i);
        proof {
            let rest = labels@.skip(i as int);
            assert(rest[0] == labels@[i as int]);
            assert(rest.drop_first() =~= labels@.skip(i + 1));
        }
        match label.as_str() {
            Some(s) => {
                return Some(s);
            },
            None => {},
        }
        i = i + 1;
    }
    proof {
        assert(labels@.skip(i as int).len() == 0);
    }
    preset.as_uri()
}

} // verus!
