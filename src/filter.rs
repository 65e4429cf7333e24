use vstd::prelude::*;

use crate::addr::Addr;

verus! {

/// What a filter decides about a destination.
#[derive(Debug, Clone, Copy, PartialEq, Eq, Structural)]
pub enum FilterResult {
    Allow,
    Deny,
}

/// Every filter of the chain may be asked about `addr`.
pub open spec fn filters_accept<F: Fn(&Addr) -> FilterResult>(filters: Seq<F>, addr: &Addr) -> bool {
    forall|i: int| 0 <= i < filters.len() ==> #[trigger] filters[i].requires((addr,))
}

/// The filters before position `k` all allowed `addr`.
pub open spec fn allowed_before<F: Fn(&Addr) -> FilterResult>(
    filters: Seq<F>,
    addr: &Addr,
    k: int,
) -> bool {
    forall|j: int| 0 <= j < k ==> #[trigger] filters[j].ensures((addr,), FilterResult::Allow)
}

/// Filter `k` is the first one that denied `addr`.
pub open spec fn first_denied_at<F: Fn(&Addr) -> FilterResult>(
    filters: Seq<F>,
    addr: &Addr,
    k: int,
) -> bool {
    &&& 0 <= k < filters.len()
    &&& allowed_before(filters, addr, k)
    &&& filters[k].ensures((addr,), FilterResult::Deny)
}

/// Asks the filters about `addr`, in order, and stops at the first that
/// denies it. Returns its position, or `None` when every filter allowed it.
pub fn first_denial<F: Fn(&Addr) -> FilterResult>(filters: &Vec<F>, addr: &Addr) -> (r: Option<usize>)
    requires
        filters_accept(filters@, addr),
    ensures
        match r {
            Some(k) => first_denied_at(filters@, addr, k as int),
            None => allowed_before(filters@, addr, filters@.len() as int),
        },
{
    let mut i: usize = 0;
    while i < filters.len()
        invariant
            i <= filters@.len(),
            filters_accept(filters@, addr),
            allowed_before(filters@, addr, i as int),
        decreases filters.len() - i,
    {
        let f = &filters[i];
        assert(f.requires((addr,)));
        let verdict = f(addr);
        match verdict {
            FilterResult::Deny => {
                return Some(i);
            },
            FilterResult::Allow => {},
        }
        i = i + 1;
    }
    None
}

} // verus!
