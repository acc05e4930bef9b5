//! The column families (stores) that the database holds, as the library sees them.
use vstd::prelude::*;
use crate::text::{str_eq, string_views};

verus! {

/// Whether `name` is one of the column families in `cfs`. The list itself is
/// read from disk by the caller.
pub fn check_if_cf_exists(name: &str, cfs: &Vec<String>) -> (r: bool)
    ensures
        r == string_views(cfs@).contains(name@),
{
    let mut i: usize = 0;
    while i < cfs.len()
        invariant
            i <= cfs.len(),
            forall|j: int| 0 <= j < i ==> #[trigger] cfs@[j]@ != name@,
        decreases cfs.len() - i,
    {
        if str_eq(cfs[i].as_str(), name) {
            assert(string_views(cfs@)[i as int] == name@);
            return true;
        }
        i = i + 1;
    }
    assert(!string_views(cfs@).contains(name@)) by {
        if string_views(cfs@).contains(name@) {
            let j = choose|j: int| 0 <= j < string_views(cfs@).len() && string_views(cfs@)[j] == name@;
            assert(cfs@[j]@ == name@);
        }
    }
    false
}

} // verus!
