//! Page arithmetic of the listing endpoints.
use vstd::prelude::*;

verus! {

/// The row offset of 1-based page `page` with `limit` rows a page: `(page - 1) * limit`.
/// Page 0, or an offset beyond `usize`, has no offset (the computation would
/// overflow), so the caller must refuse it.
pub fn page_offset(page: usize, limit: usize) -> (r: u64)
    requires
        page >= 1,
        (page - 1) * limit <= usize::MAX,
    ensures
        r == (page - 1) * limit,
{
    assert((page - 1) * limit <= u64::MAX) by {
        assert(usize::MAX <= u64::MAX);
    }
    ((page - 1) * limit) as u64
}

/// Whether `page_offset(page, limit)` is defined.
pub fn page_in_range(page: usize, limit: usize) -> (r: bool)
    ensures
        r == (page >= 1 && (page - 1) * limit <= usize::MAX),
{
    if page == 0 {
        false
    } else {
        (page - 1).checked_mul(limit).is_some()
    }
}

} // verus!
