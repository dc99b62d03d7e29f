//! The filter predicate: whether a tab's name satisfies the filter text.

use vstd::prelude::*;
use crate::text::{contains, contains_text, lower_of, lowercase};

verus! {

/// A name satisfies a filter when it equals it or holds it as a substring;
/// with `ignore_case`, both are lowercased first.
pub open spec fn name_matches(name: Seq<char>, filter: Seq<char>, ignore_case: bool) -> bool {
    if ignore_case {
        lower_of(name) == lower_of(filter) || contains_text(lower_of(name), lower_of(filter))
    } else {
        name == filter || contains_text(name, filter)
    }
}

/// Whether `name` satisfies `filter`.
pub fn matches(name: &String, filter: &String, ignore_case: bool) -> (r: bool)
    ensures
        r == name_matches(name@, filter@, ignore_case),
        filter@.len() == 0 ==> r,
{
    if ignore_case {
        let n = lowercase(name.as_str());
        let f = lowercase(filter.as_str());
        proof {
            if filter@.len() == 0 {
                assert(f@.len() == 0);
                assert(n@.subrange(0, 0) =~= f@);
                assert(crate::text::occurs_at(n@, f@, 0));
            }
        }
        n == f || contains(n.as_str(), f.as_str())
    } else {
        proof {
            if filter@.len() == 0 {
                assert(name@.subrange(0, 0) =~= filter@);
                assert(crate::text::occurs_at(name@, filter@, 0));
            }
        }
        name.eq(filter) || contains(name.as_str(), filter.as_str())
    }
}

} // verus!
