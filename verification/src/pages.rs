use vstd::prelude::*;

verus! {

/// The index of a page as Poppler's C interface takes it: `index as c_int`,
/// which wraps for indices beyond `i32::MAX`.
pub fn page_index_to_c(index: usize) -> (i: i32)
    ensures
        i == index as i32,
{
    index as i32
}

/// The number of pages as this library reports it: Poppler's `c_int`
/// count taken `as usize`.
pub fn page_count_from_c(n: i32) -> (c: usize)
    ensures
        c == n as usize,
{
    n as usize
}

/// Walks the page indices of a document, from the first to the last.
/// The caller fetches the page for each index it is handed.
#[derive(Debug)]
pub struct PagesIter {
    total: usize,
    index: usize,
}

impl View for PagesIter {
    /// The number of pages, and the index of the next page to hand out.
    type V = (nat, nat);

    closed spec fn view(&self) -> (nat, nat) {
        (self.total as nat, self.index as nat)
    }
}

/// One step of the walk from state `(total, index)`: the index handed out,
/// if any, and the state after it.
pub open spec fn pages_step(s: (nat, nat)) -> (Option<nat>, (nat, nat)) {
    if s.1 < s.0 {
        (Some(s.1), (s.0, s.1 + 1))
    } else {
        (None, s)
    }
}

/// What `k` successive steps from state `s` hand out, in order.
pub open spec fn pages_outputs(s: (nat, nat), k: nat) -> Seq<Option<nat>>
    decreases k,
{
    if k == 0 {
        Seq::empty()
    } else {
        let (o, t) = pages_step(s);
        seq![o] + pages_outputs(t, (k - 1) as nat)
    }
}

/// The view of an index handed out by `next`.
pub open spec fn opt_nat(o: Option<usize>) -> Option<nat> {
    match o {
        Some(i) => Some(i as nat),
        None => None,
    }
}

impl PagesIter {
    #[verifier::type_invariant]
    spec fn within_bounds(self) -> bool {
        self.index <= self.total
    }

    /// A walk over `total` pages that starts at the first.
    pub fn new(total: usize) -> (it: PagesIter)
        ensures
            it@ == (total as nat, 0nat),
    {
        PagesIter { total, index: 0 }
    }

    /// Hands out the index of the next page and moves past it, or `None`
    /// once every index has been handed out.
    pub fn next(&mut self) -> (r: Option<usize>)
        ensures
            (opt_nat(r), final(self)@) == pages_step(old(self)@),
            final(self)@.1 <= final(self)@.0,
    {
        proof {
            use_type_invariant(&*self);
        }
        if self.index < self.total {
            let page = self.index;
            self.index = self.index + 1;
            Some(page)
        } else {
            None
        }
    }
}

/// From any state whose next index is within the pages, `k` steps hand out
/// the indices from there upward, one each, and `None` once past the last.
proof fn lemma_pages_outputs_from(total: nat, index: nat, k: nat)
    requires
        index <= total,
    ensures
        pages_outputs((total, index), k) =~= Seq::new(
            k,
            |i: int| if index + i < total { Some((index + i) as nat) } else { None::<nat> },
        ),
    decreases k,
{
    if k > 0 {
        if index < total {
            lemma_pages_outputs_from(total, index + 1, (k - 1) as nat);
        } else {
            lemma_pages_outputs_from(total, index, (k - 1) as nat);
        }
    }
}

/// A fresh walk over `total` pages hands out every page index exactly once,
/// in increasing order, and nothing after the last one, however often it is
/// asked again.
pub proof fn lemma_pages_yield_each_index_once(total: nat, k: nat)
    ensures
        pages_outputs((total, 0), k) =~= Seq::new(
            k,
            |i: int| if i < total { Some(i as nat) } else { None::<nat> },
        ),
{
    lemma_pages_outputs_from(total, 0, k);
}

} // verus!
