//! Rules of the registry's queries that hold whatever the metadata store holds.
use vstd::prelude::*;

verus! {

/// Whether a `find_nodes` pattern is admissible: the subject or the object may
/// be left out, but not both.
pub fn find_pattern_is_valid(has_subject: bool, has_object: bool) -> (r: bool)
    ensures
        r == (has_subject || has_object),
{
    has_subject || has_object
}

/// Whether a `get` pattern is admissible: exactly one of subject, predicate and
/// object is left out.
pub fn get_pattern_is_valid(has_subject: bool, has_predicate: bool, has_object: bool) -> (r: bool)
    ensures
        r == ((!has_subject && has_predicate && has_object) || (has_subject && !has_predicate && has_object)
            || (has_subject && has_predicate && !has_object)),
{
    let missing: u8 = (if has_subject { 0u8 } else { 1u8 }) + (if has_predicate { 0u8 } else { 1u8 })
        + (if has_object { 0u8 } else { 1u8 });
    missing == 1
}

/// The number of files that loading a resource parsed, from the store's status:
/// a negative status means that parsing failed.
pub fn parsed_file_count(status: i32) -> (r: Option<usize>)
    ensures
        status < 0 ==> r is None,
        status >= 0 ==> r == Some(status as usize),
{
    if status < 0 {
        None
    } else {
        Some(status as usize)
    }
}

} // verus!
