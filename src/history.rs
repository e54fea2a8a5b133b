//! The input history: previously submitted lines, most recent first, with no
//! two entries equal up to ASCII case, and at most `MAX_HISTORY_LENGTH` of them.
use std::collections::VecDeque;
use vstd::prelude::*;
use crate::text::{eq_ignore_case, eq_ignore_ascii_case};
use crate::tokenizer::string_views;

verus! {

pub const MAX_HISTORY_LENGTH: usize = 100;

/// `h` without the entries equal to `x` up to ASCII case, in order.
pub open spec fn without_matching(h: Seq<Seq<char>>, x: Seq<char>) -> Seq<Seq<char>>
    decreases h.len(),
{
    if h.len() == 0 {
        h
    } else {
        let rest = without_matching(h.drop_last(), x);
        if eq_ignore_case(h.last(), x) {
            rest
        } else {
            rest.push(h.last())
        }
    }
}

/// The history after `x` is submitted: earlier entries equal to `x` up to
/// ASCII case are removed, `x` goes to the front, and the oldest entry is
/// dropped when the bound is exceeded.
pub open spec fn history_insert(h: Seq<Seq<char>>, x: Seq<char>) -> Seq<Seq<char>> {
    let d = seq![x] + without_matching(h, x);
    if d.len() > MAX_HISTORY_LENGTH {
        d.drop_last()
    } else {
        d
    }
}

/// The history after the lines of `xs` are submitted in order.
pub open spec fn history_insert_all(h: Seq<Seq<char>>, xs: Seq<Seq<char>>) -> Seq<Seq<char>>
    decreases xs.len(),
{
    if xs.len() == 0 {
        h
    } else {
        history_insert(history_insert_all(h, xs.drop_last()), xs.last())
    }
}

/// No two entries are equal up to ASCII case.
pub open spec fn distinct_ignoring_case(h: Seq<Seq<char>>) -> bool {
    forall|i: int, j: int|
        0 <= i < h.len() && 0 <= j < h.len() && i != j ==> !eq_ignore_case(
            #[trigger] h[i],
            #[trigger] h[j],
        )
}

pub struct InputHistory {
    entries: VecDeque<String>,
}

impl View for InputHistory {
    type V = Seq<Seq<char>>;

    closed spec fn view(&self) -> Seq<Seq<char>> {
        string_views(self.entries@)
    }
}

proof fn lemma_without_matching(h: Seq<Seq<char>>, x: Seq<char>)
    ensures
        forall|i: int|
            0 <= i < without_matching(h, x).len() ==> !eq_ignore_case(
                #[trigger] without_matching(h, x)[i],
                x,
            ) && h.contains(without_matching(h, x)[i]),
        without_matching(h, x).len() <= h.len(),
        distinct_ignoring_case(h) ==> distinct_ignoring_case(without_matching(h, x)),
    decreases h.len(),
{
    if h.len() > 0 {
        let p = h.drop_last();
        lemma_without_matching(p, x);
        let r = without_matching(p, x);
        assert forall|i: int| 0 <= i < r.len() implies h.contains(#[trigger] r[i]) by {
            let k = choose|k: int| 0 <= k < p.len() && p[k] == r[i];
            assert(h[k] == r[i]);
        }
        if !eq_ignore_case(h.last(), x) && distinct_ignoring_case(h) {
            assert forall|i: int| 0 <= i < r.len() implies !eq_ignore_case(
                #[trigger] r[i],
                h.last(),
            ) by {
                let k = choose|k: int| 0 <= k < p.len() && p[k] == r[i];
                assert(h[k] == r[i]);
                assert(!eq_ignore_case(h[k], h[h.len() - 1]));
            }
        }
    }
}

proof fn lemma_without_matching_none(h: Seq<Seq<char>>, x: Seq<char>)
    requires
        forall|i: int| 0 <= i < h.len() ==> !eq_ignore_case(#[trigger] h[i], x),
    ensures
        without_matching(h, x) == h,
    decreases h.len(),
{
    if h.len() > 0 {
        lemma_without_matching_none(h.drop_last(), x);
        assert(h.drop_last().push(h.last()) =~= h);
    }
}

impl InputHistory {
    /// The history is bounded and holds no two entries equal up to ASCII case.
    pub closed spec fn wf(&self) -> bool {
        &&& self@.len() <= MAX_HISTORY_LENGTH
        &&& distinct_ignoring_case(self@)
    }

    pub fn new() -> (r: InputHistory)
        ensures
            r.wf(),
            r@ == Seq::<Seq<char>>::empty(),
    {
        let r = InputHistory { entries: VecDeque::new() };
        assert(r@ =~= Seq::<Seq<char>>::empty());
        r
    }

    pub fn len(&self) -> (r: usize)
        ensures
            r == self@.len(),
            self.wf() ==> r <= MAX_HISTORY_LENGTH,
    {
        self.entries.len()
    }

    pub fn is_empty(&self) -> (r: bool)
        ensures
            r == (self@.len() == 0),
    {
        self.entries.len() == 0
    }

    /// The entry at `index`, counted from the most recent.
    pub fn get(&self, index: usize) -> (r: &String)
        requires
            index < self@.len(),
        ensures
            r@ == self@[index as int],
    {
        &self.entries[index]
    }

    /// The entries, most recent first.
    pub fn entries(&self) -> (r: Vec<String>)
        ensures
            string_views(r@) == self@,
    {
        let mut r: Vec<String> = Vec::new();
        let mut i: usize = 0;
        while i < self.entries.len()
            invariant
                i <= self.entries@.len(),
                string_views(r@) =~= self@.subrange(0, i as int),
            decreases self.entries@.len() - i,
        {
            let ghost old_r = r@;
            let e = self.entries[i].clone();
            let ghost ev = e@;
            r.push(e);
            assert(string_views(r@) =~= string_views(old_r).push(ev));
            i = i + 1;
        }
        r
    }

    /// Records a submitted line.
    pub fn add(&mut self, input: String)
        requires
            old(self).wf(),
        ensures
            final(self).wf(),
            final(self)@ == history_insert(old(self)@, input@),
    {
        let n = self.entries.len();
        let mut kept: VecDeque<String> = VecDeque::new();
        let mut i: usize = 0;
        assert(self@.subrange(0, 0) =~= Seq::<Seq<char>>::empty());
        assert(string_views(kept@) =~= Seq::<Seq<char>>::empty());
        while i < n
            invariant
                n == self@.len(),
                n == self.entries@.len(),
                i <= n,
                string_views(kept@) == without_matching(self@.subrange(0, i as int), input@),
            decreases n - i,
        {
            let e = &self.entries[i];
            assert(self@.subrange(0, i + 1).drop_last() =~= self@.subrange(0, i as int));
            if !eq_ignore_ascii_case(e.as_str(), input.as_str()) {
                kept.push_back(e.clone());
                assert(string_views(kept@) =~= without_matching(self@.subrange(0, i as int), input@).push(e@));
            }
            i = i + 1;
        }
        assert(self@.subrange(0, n as int) =~= self@);
        proof {
            lemma_without_matching(self@, input@);
        }
        let ghost w = string_views(kept@);
        kept.push_front(input);
        assert(string_views(kept@) =~= seq![input@] + w);
        if kept.len() > MAX_HISTORY_LENGTH {
            kept.pop_back();
            assert(string_views(kept@) =~= (seq![input@] + w).drop_last());
        }
        self.entries = kept;
        proof {
            let d = seq![input@] + w;
            assert forall|i: int, j: int|
                0 <= i < self@.len() && 0 <= j < self@.len() && i != j implies !eq_ignore_case(
                #[trigger] self@[i],
                #[trigger] self@[j],
            ) by {
                assert(self@[i] == d[i]);
                assert(self@[j] == d[j]);
                if i > 0 && j > 0 {
                    assert(d[i] == w[i - 1]);
                    assert(d[j] == w[j - 1]);
                } else if i == 0 {
                    assert(d[j] == w[j - 1]);
                } else {
                    assert(d[i] == w[i - 1]);
                }
            }
        }
    }
}

/// The most recent lines of `xs`, newest first, as many as the bound allows.
pub open spec fn newest_first(xs: Seq<Seq<char>>) -> Seq<Seq<char>> {
    let m = if xs.len() <= MAX_HISTORY_LENGTH {
        xs.len()
    } else {
        MAX_HISTORY_LENGTH as nat
    };
    Seq::new(m, |i: int| xs[xs.len() - 1 - i])
}

/// Submitting lines that are pairwise distinct up to ASCII case to an empty
/// history leaves the newest `MAX_HISTORY_LENGTH` of them, most recent first.
/// In particular, after `MAX_HISTORY_LENGTH + 2` such lines exactly
/// `MAX_HISTORY_LENGTH` remain, the last one submitted at the front and the
/// one submitted at index 2 (the first two were evicted) at the back.
pub proof fn lemma_history_keeps_newest(xs: Seq<Seq<char>>)
    requires
        distinct_ignoring_case(xs),
    ensures
        history_insert_all(Seq::empty(), xs) == newest_first(xs),
        xs.len() == MAX_HISTORY_LENGTH + 2 ==> {
            let h = history_insert_all(Seq::empty(), xs);
            &&& h.len() == MAX_HISTORY_LENGTH
            &&& h[0] == xs[MAX_HISTORY_LENGTH + 1]
            &&& h[MAX_HISTORY_LENGTH - 1] == xs[2]
        },
    decreases xs.len(),
{
    if xs.len() == 0 {
        assert(newest_first(xs) =~= Seq::<Seq<char>>::empty());
    } else {
        let p = xs.drop_last();
        let x = xs.last();
        assert(distinct_ignoring_case(p)) by {
            assert forall|i: int, j: int|
                0 <= i < p.len() && 0 <= j < p.len() && i != j implies !eq_ignore_case(
                #[trigger] p[i],
                #[trigger] p[j],
            ) by {
                assert(p[i] == xs[i] && p[j] == xs[j]);
            }
        }
        lemma_history_keeps_newest(p);
        let prev = newest_first(p);
        assert forall|i: int| 0 <= i < prev.len() implies !eq_ignore_case(#[trigger] prev[i], x) by {
            assert(prev[i] == xs[p.len() - 1 - i]);
            assert(x == xs[xs.len() - 1]);
        }
        lemma_without_matching_none(prev, x);
        let d = seq![x] + prev;
        assert(history_insert_all(Seq::empty(), xs) == history_insert(prev, x));
        if d.len() > MAX_HISTORY_LENGTH {
            assert(d.drop_last() =~= newest_first(xs));
        } else {
            assert(d =~= newest_first(xs));
        }
    }
    if xs.len() == MAX_HISTORY_LENGTH + 2 {
        let h = newest_first(xs);
        assert(h[0] == xs[MAX_HISTORY_LENGTH + 1]);
        assert(h[MAX_HISTORY_LENGTH - 1] == xs[2]);
    }
}

} // verus!
