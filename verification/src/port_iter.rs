//! Lazy port iterator backed by a `PortRange`.

use vstd::prelude::*;

use crate::ports::{PortRange, ports_of, ranges_well_formed, span};

verus! {

/// The ports strictly above `c` and at most `e`, in increasing order.
pub open spec fn ports_after(c: u16, e: u16) -> Seq<u16> {
    if c < e {
        Seq::new((e - c) as nat, |i: int| (c + 1 + i) as u16)
    } else {
        Seq::empty()
    }
}

/// What the iterator yields for one range: its start, then the ports above
/// the start up to the end. A reversed range yields its start alone.
pub open spec fn block(s: u16, e: u16) -> Seq<u16> {
    seq![s] + ports_after(s, e)
}

/// The blocks of all ranges, in list order.
pub open spec fn blocks(r: Seq<(u16, u16)>) -> Seq<u16>
    decreases r.len(),
{
    if r.len() == 0 {
        Seq::empty()
    } else {
        blocks(r.drop_last()) + block(r.last().0, r.last().1)
    }
}

/// Iterates port numbers from a `PortRange` without materialising the full list.
pub struct PortIterator {
    ranges: Vec<(u16, u16)>,
    range_idx: usize,
    current: u16,
    started: bool,
}

impl PortIterator {
    #[verifier::type_invariant]
    spec fn inv(self) -> bool {
        &&& self.range_idx <= self.ranges@.len()
        &&& !self.started ==> self.range_idx == 0
        &&& (!self.started && self.ranges@.len() > 0) ==> self.current == self.ranges@[0].0
    }

    /// The ranges this iterator walks.
    pub closed spec fn source(self) -> Seq<(u16, u16)> {
        self.ranges@
    }

    /// The ports that the following calls of `next` yield, in order.
    pub closed spec fn remaining(self) -> Seq<u16> {
        if self.ranges@.len() == 0 {
            Seq::empty()
        } else if !self.started {
            blocks(self.ranges@)
        } else if self.range_idx >= self.ranges@.len() {
            Seq::empty()
        } else {
            ports_after(self.current, self.ranges@[self.range_idx as int].1)
                + blocks(self.ranges@.skip(self.range_idx + 1))
        }
    }

    /// True once `next` has returned `None` on a non-empty list of ranges;
    /// calling `next` again in that state would index past the last range.
    pub closed spec fn is_spent(self) -> bool {
        self.ranges@.len() > 0 && self.range_idx >= self.ranges@.len()
    }

    /// Construct from a `PortRange`.
    pub fn new(range: &PortRange) -> (it: Self)
        ensures
            it.source() == range@,
            it.remaining() == blocks(range@),
            !it.is_spent(),
    {
        let current = if range.ranges.len() > 0 {
            range.ranges[0].0
        } else {
            0
        };
        let mut ranges: Vec<(u16, u16)> = Vec::new();
        let n = range.ranges.len();
        let mut i: usize = 0;
        while i < n
            invariant
                n == range@.len(),
                i <= n,
                ranges@ =~= range@.take(i as int),
            decreases n - i,
        {
            ranges.push(range.ranges[i]);
            i = i + 1;
        }
        proof {
            assert(range@.take(n as int) =~= range@);
        }
        PortIterator { ranges, range_idx: 0, current, started: false }
    }

    /// Yield the next port, or `None` when all ranges are done.
    pub fn next(&mut self) -> (r: Option<u16>)
        requires
            !old(self).is_spent(),
        ensures
            final(self).source() == old(self).source(),
            old(self).remaining().len() == 0 ==> r is None && final(self).remaining().len() == 0,
            old(self).remaining().len() > 0 ==> {
                &&& r == Some(old(self).remaining()[0])
                &&& final(self).remaining() == old(self).remaining().drop_first()
                &&& !final(self).is_spent()
            },
            r is None ==> old(self).remaining().len() == 0,
    {
        proof {
            use_type_invariant(&*self);
        }
        let ghost old_rem = self.remaining();
        let ghost rs = self.ranges@;
        if self.ranges.len() == 0 {
            return None;
        }
        if !self.started {
            proof {
                lemma_blocks_split(rs, 0);
                assert(rs.skip(0) =~= rs);
            }
            self.started = true;
            proof {
                assert(self.remaining() =~= old_rem.drop_first());
            }
            return Some(self.current);
        }
        let (_, end) = self.ranges[self.range_idx];
        if self.current < end {
            self.current = self.current + 1;
            proof {
                assert(self.remaining() =~= old_rem.drop_first());
            }
            Some(self.current)
        } else {
            self.range_idx = self.range_idx + 1;
            if self.range_idx >= self.ranges.len() {
                proof {
                    assert(rs.skip(rs.len() as int) =~= Seq::<(u16, u16)>::empty());
                    assert(old_rem =~= Seq::<u16>::empty());
                }
                return None;
            }
            let (start, _) = self.ranges[self.range_idx];
            self.current = start;
            proof {
                lemma_blocks_split(rs, self.range_idx as int);
                assert(self.remaining() =~= old_rem.drop_first());
            }
            Some(self.current)
        }
    }

    /// Run the iterator to its end and collect what it yields.
    pub fn collect_ports(self) -> (v: Vec<u16>)
        requires
            !self.is_spent(),
        ensures
            v@ == self.remaining(),
    {
        let mut it = self;
        let mut out: Vec<u16> = Vec::new();
        let ghost all = it.remaining();
        loop
            invariant_except_break
                !it.is_spent(),
                all == out@ + it.remaining(),
            ensures
                out@ == all,
            decreases it.remaining().len(),
        {
            match it.next() {
                Some(p) => {
                    out.push(p);
                    proof {
                        assert(all =~= out@ + it.remaining());
                    }
                },
                None => {
                    proof {
                        assert(all =~= out@);
                    }
                    break;
                },
            }
        }
        out
    }
}

/// Splitting the blocks of a suffix at its first range.
pub proof fn lemma_blocks_split(r: Seq<(u16, u16)>, k: int)
    requires
        0 <= k < r.len(),
    ensures
        blocks(r.skip(k)) == block(r[k].0, r[k].1) + blocks(r.skip(k + 1)),
{
    assert(r.skip(k) =~= seq![r[k]] + r.skip(k + 1));
    lemma_blocks_cons(r[k], r.skip(k + 1));
}

proof fn lemma_blocks_cons(x: (u16, u16), t: Seq<(u16, u16)>)
    ensures
        blocks(seq![x] + t) == block(x.0, x.1) + blocks(t),
    decreases t.len(),
{
    if t.len() == 0 {
        assert(seq![x] + t =~= seq![x]);
        assert(seq![x].drop_last() =~= Seq::<(u16, u16)>::empty());
        assert(seq![x].last() == x);
        assert(blocks(Seq::<(u16, u16)>::empty()) =~= Seq::<u16>::empty());
        assert(blocks(seq![x]) =~= block(x.0, x.1));
    } else {
        lemma_blocks_cons(x, t.drop_last());
        assert((seq![x] + t).drop_last() =~= seq![x] + t.drop_last());
        assert((seq![x] + t).last() == t.last());
        assert(blocks(seq![x] + t) =~= block(x.0, x.1) + blocks(t));
    }
}

/// Over well-formed ranges the lazy iterator yields exactly the ports of
/// `PortRange::iter`, in the same order.
pub proof fn law_iterator_matches_range_iter(r: PortRange)
    requires
        ranges_well_formed(r@),
    ensures
        blocks(r@) == ports_of(r@),
{
    lemma_blocks_eq_ports(r@);
}

proof fn lemma_blocks_eq_ports(r: Seq<(u16, u16)>)
    requires
        ranges_well_formed(r),
    ensures
        blocks(r) == ports_of(r),
    decreases r.len(),
{
    if r.len() > 0 {
        let (s, e) = r.last();
        assert(r.last() == r[r.len() - 1]);
        assert(block(s, e) =~= span(s, e));
        lemma_blocks_eq_ports(r.drop_last());
    }
}

} // verus!
