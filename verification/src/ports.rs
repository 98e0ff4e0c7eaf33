//! Port ranges: a list of inclusive `(start, end)` pairs.

use vstd::prelude::*;
use vstd::std_specs::iter::IteratorSpec;

use crate::text::{chars_of, parsed_decimal, string_from_chars};

verus! {

/// The ports `s..=e` in increasing order (empty when `s > e`).
pub open spec fn span(s: u16, e: u16) -> Seq<u16> {
    if s <= e {
        Seq::new((e - s + 1) as nat, |i: int| (s + i) as u16)
    } else {
        Seq::empty()
    }
}

/// All ports of a list of ranges, range after range, in list order.
pub open spec fn ports_of(r: Seq<(u16, u16)>) -> Seq<u16>
    decreases r.len(),
{
    if r.len() == 0 {
        Seq::empty()
    } else {
        ports_of(r.drop_last()) + span(r.last().0, r.last().1)
    }
}

/// Every range has its start at or below its end.
pub open spec fn ranges_well_formed(r: Seq<(u16, u16)>) -> bool {
    forall|i: int| 0 <= i < r.len() ==> #[trigger] r[i].0 <= r[i].1
}

/// Sum of `end - start + 1` over the ranges.
pub open spec fn range_total(r: Seq<(u16, u16)>) -> int
    decreases r.len(),
{
    if r.len() == 0 {
        0
    } else {
        range_total(r.drop_last()) + (r.last().1 - r.last().0 + 1)
    }
}

/// Over well-formed ranges a prefix never totals more than the whole list.
pub proof fn lemma_range_total_prefix(r: Seq<(u16, u16)>, k: int)
    requires
        ranges_well_formed(r),
        0 <= k <= r.len(),
    ensures
        0 <= range_total(r.take(k)) <= range_total(r),
    decreases r.len(),
{
    if r.len() > 0 {
        if k == r.len() {
            assert(r.take(k) =~= r);
            lemma_range_total_prefix(r.drop_last(), k - 1);
            assert(r.drop_last().take(k - 1) =~= r.drop_last());
        } else {
            lemma_range_total_prefix(r.drop_last(), k);
            assert(r.drop_last().take(k) =~= r.take(k));
        }
        assert(r.drop_last().len() < r.len());
        assert(r.last() == r[r.len() - 1]);
    }
}

/// Some range holds `port` between its bounds.
pub open spec fn ranges_contain(r: Seq<(u16, u16)>, port: u16) -> bool {
    exists|i: int| 0 <= i < r.len() && #[trigger] r[i].0 <= port && port <= r[i].1
}

/// The pieces of a text between the occurrences of `sep`, as `str::split`
/// gives them (an empty text is one empty piece).
pub open spec fn split_on(s: Seq<char>, sep: char) -> Seq<Seq<char>>
    decreases s.len(),
{
    if s.len() == 0 {
        seq![Seq::empty()]
    } else {
        let p = split_on(s.drop_last(), sep);
        if s.last() == sep {
            p.push(Seq::empty())
        } else {
            p.update(p.len() - 1, p.last().push(s.last()))
        }
    }
}

/// A split always has at least one piece.
proof fn lemma_split_nonempty(s: Seq<char>, sep: char)
    ensures
        split_on(s, sep).len() >= 1,
    decreases s.len(),
{
    if s.len() > 0 {
        lemma_split_nonempty(s.drop_last(), sep);
    }
}

/// A port number in decimal, as `u16`'s parser reads it.
pub open spec fn parsed_u16(text: Seq<char>) -> Option<u16> {
    match parsed_decimal(text, u16::MAX as nat) {
        Some(n) => Some(n as u16),
        None => None,
    }
}

/// One item of a port list: a port `N`, or a range `A-B` with `A <= B`.
pub open spec fn port_item(t: Seq<char>) -> Option<(u16, u16)> {
    let parts = split_on(t, '-');
    if parts.len() == 1 {
        match parsed_u16(parts[0]) {
            Some(n) => Some((n, n)),
            None => None,
        }
    } else if parts.len() == 2 {
        match (parsed_u16(parts[0]), parsed_u16(parts[1])) {
            (Some(a), Some(b)) => if a <= b { Some((a, b)) } else { None },
            _ => None,
        }
    } else {
        None
    }
}

/// The ranges of a list of items; none when any item is not one.
pub open spec fn port_items(items: Seq<Seq<char>>) -> Option<Seq<(u16, u16)>>
    decreases items.len(),
{
    if items.len() == 0 {
        Some(Seq::empty())
    } else {
        match (port_items(items.drop_last()), port_item(items.last())) {
            (Some(r), Some(x)) => Some(r.push(x)),
            _ => None,
        }
    }
}

/// A comma-separated port list such as `80,443,8000-8080`: its ranges, or
/// none when any item is neither a port nor an ascending range.
pub open spec fn parsed_port_list(text: Seq<char>) -> Option<Seq<(u16, u16)>> {
    port_items(split_on(text, ','))
}

/// The ranges of a port list are well formed.
proof fn lemma_port_items_well_formed(items: Seq<Seq<char>>)
    ensures
        port_items(items) matches Some(r) ==> ranges_well_formed(r),
    decreases items.len(),
{
    if items.len() > 0 {
        lemma_port_items_well_formed(items.drop_last());
    }
}

/// A list whose prefix holds a bad item has no ranges.
proof fn lemma_port_items_prefix_none(items: Seq<Seq<char>>, k: int)
    requires
        0 <= k <= items.len(),
        port_items(items.take(k)) is None,
    ensures
        port_items(items) is None,
    decreases items.len() - k,
{
    if k < items.len() {
        assert(items.take(k + 1).drop_last() =~= items.take(k));
        lemma_port_items_prefix_none(items, k + 1);
    } else {
        assert(items.take(k) =~= items);
    }
}

/// Parse a decimal `u16` (`str::parse::<u16>`, that is `from_str_radix`
/// with radix 10: an optional `+` followed by digits only, an error for an
/// empty text, any other character or a value that overflows).
#[verifier::external_body]
fn parse_u16(s: &str) -> (r: Option<u16>)
    ensures
        r == parsed_u16(s@),
{
    s.parse::<u16>().ok()
}

/// Split characters at every `sep`.
fn split_chars(s: &Vec<char>, sep: char) -> (v: Vec<Vec<char>>)
    ensures
        v@.map_values(|x: Vec<char>| x@) == split_on(s@, sep),
{
    let mut done: Vec<Vec<char>> = Vec::new();
    let mut cur: Vec<char> = Vec::new();
    let mut i: usize = 0;
    while i < s.len()
        invariant
            i <= s@.len(),
            done@.map_values(|x: Vec<char>| x@).push(cur@) == split_on(s@.take(i as int), sep),
        decreases s.len() - i,
    {
        let c = s[i];
        proof {
            assert(s@.take(i + 1).drop_last() =~= s@.take(i as int));
            assert(s@.take(i + 1).last() == c);
        }
        if c == sep {
            let ghost before = done@.map_values(|x: Vec<char>| x@);
            done.push(cur);
            cur = Vec::new();
            proof {
                assert(done@.map_values(|x: Vec<char>| x@) =~= before.push(split_on(s@.take(i as int), sep).last()));
                assert(done@.map_values(|x: Vec<char>| x@).push(cur@)
                    =~= split_on(s@.take(i as int), sep).push(Seq::empty()));
            }
        } else {
            cur.push(c);
            proof {
                let p = split_on(s@.take(i as int), sep);
                assert(done@.map_values(|x: Vec<char>| x@).push(cur@) =~= p.update(p.len() - 1, p.last().push(c)));
            }
        }
        i = i + 1;
    }
    let ghost before = done@.map_values(|x: Vec<char>| x@);
    done.push(cur);
    proof {
        assert(s@.take(s@.len() as int) =~= s@);
        assert(done@.map_values(|x: Vec<char>| x@) =~= before.push(cur@));
    }
    done
}

/// One item of a port list.
fn parse_item(t: &Vec<char>) -> (r: Option<(u16, u16)>)
    ensures
        r == port_item(t@),
{
    let parts = split_chars(t, '-');
    proof {
        assert(parts@.map_values(|x: Vec<char>| x@).len() == parts@.len());
    }
    if parts.len() == 1 {
        let a = string_from_chars(&parts[0]);
        proof {
            assert(parts@.map_values(|x: Vec<char>| x@)[0] == parts@[0]@);
        }
        match parse_u16(a.as_str()) {
            Some(n) => Some((n, n)),
            None => None,
        }
    } else if parts.len() == 2 {
        let a = string_from_chars(&parts[0]);
        let b = string_from_chars(&parts[1]);
        proof {
            assert(parts@.map_values(|x: Vec<char>| x@)[0] == parts@[0]@);
            assert(parts@.map_values(|x: Vec<char>| x@)[1] == parts@[1]@);
        }
        match (parse_u16(a.as_str()), parse_u16(b.as_str())) {
            (Some(x), Some(y)) => if x <= y { Some((x, y)) } else { None },
            _ => None,
        }
    } else {
        None
    }
}

/// A range of TCP/UDP port numbers.
#[derive(Debug, PartialEq, Eq)]
pub struct PortRange {
    /// Inclusive `(start, end)` pairs.
    pub ranges: Vec<(u16, u16)>,
}

impl View for PortRange {
    type V = Seq<(u16, u16)>;

    open spec fn view(&self) -> Seq<(u16, u16)> {
        self.ranges@
    }
}

impl Clone for PortRange {
    fn clone(&self) -> (r: Self)
        ensures
            r@ == self@,
    {
        let mut v: Vec<(u16, u16)> = Vec::new();
        let n = self.ranges.len();
        let mut i: usize = 0;
        while i < n
            invariant
                n == self@.len(),
                i <= n,
                v@ =~= self@.take(i as int),
            decreases n - i,
        {
            v.push(self.ranges[i]);
            i = i + 1;
        }
        proof {
            assert(self@.take(n as int) =~= self@);
        }
        PortRange { ranges: v }
    }
}

impl Default for PortRange {
    fn default() -> (r: Self)
        ensures
            r@ == seq![(1u16, 1024u16)],
    {
        Self::top_1000()
    }
}

impl PortRange {
    /// Parse a comma-separated port list such as `80,443,8000-8080`: each
    /// item a port or an ascending range `A-B`, no spaces. `None` when any
    /// item is not one.
    pub fn parse_list(text: &str) -> (r: Option<PortRange>)
        ensures
            r is None <==> parsed_port_list(text@) is None,
            r matches Some(p) ==> Some(p@) == parsed_port_list(text@),
            r matches Some(p) ==> ranges_well_formed(p@),
    {
        let chars = chars_of(text);
        let items = split_chars(&chars, ',');
        let ghost views = items@.map_values(|x: Vec<char>| x@);
        let mut out: Vec<(u16, u16)> = Vec::new();
        let mut k: usize = 0;
        while k < items.len()
            invariant
                k <= items@.len(),
                views == items@.map_values(|x: Vec<char>| x@),
                views == split_on(text@, ','),
                port_items(views.take(k as int)) == Some(out@),
            decreases items.len() - k,
        {
            proof {
                assert(views.take(k + 1).drop_last() =~= views.take(k as int));
                assert(views.take(k + 1).last() == items@[k as int]@);
            }
            match parse_item(&items[k]) {
                Some(x) => {
                    out.push(x);
                },
                None => {
                    proof {
                        assert(port_items(views.take(k + 1)) is None);
                        lemma_port_items_prefix_none(views, k + 1);
                        assert(views.take(views.len() as int) =~= views);
                    }
                    return None;
                },
            }
            k = k + 1;
        }
        proof {
            assert(views.take(views.len() as int) =~= views);
            lemma_port_items_well_formed(views);
        }
        Some(PortRange { ranges: out })
    }

    /// Ports 1–1024.
    pub fn top_1000() -> (r: Self)
        ensures
            r@ == seq![(1u16, 1024u16)],
    {
        let mut v: Vec<(u16, u16)> = Vec::new();
        v.push((1, 1024));
        PortRange { ranges: v }
    }

    /// All 65535 ports.
    pub fn all() -> (r: Self)
        ensures
            r@ == seq![(1u16, 65535u16)],
    {
        let mut v: Vec<(u16, u16)> = Vec::new();
        v.push((1, 65535));
        PortRange { ranges: v }
    }

    /// Single port.
    pub fn single(port: u16) -> (r: Self)
        ensures
            r@ == seq![(port, port)],
    {
        let mut v: Vec<(u16, u16)> = Vec::new();
        v.push((port, port));
        PortRange { ranges: v }
    }

    /// Returns true if the port falls in any range.
    pub fn contains(&self, port: u16) -> (b: bool)
        ensures
            b == ranges_contain(self@, port),
    {
        let n = self.ranges.len();
        let mut i: usize = 0;
        while i < n
            invariant
                n == self@.len(),
                i <= n,
                forall|j: int| 0 <= j < i ==> !(#[trigger] self@[j].0 <= port && port <= self@[j].1),
            decreases n - i,
        {
            let (s, e) = self.ranges[i];
            if port >= s && port <= e {
                return true;
            }
            i = i + 1;
        }
        false
    }

    /// Total port count.
    pub fn count(&self) -> (n: usize)
        requires
            ranges_well_formed(self@),
            range_total(self@) <= usize::MAX,
        ensures
            n == range_total(self@),
    {
        let len = self.ranges.len();
        let mut total: usize = 0;
        let mut i: usize = 0;
        while i < len
            invariant
                len == self@.len(),
                i <= len,
                ranges_well_formed(self@),
                range_total(self@) <= usize::MAX,
                total == range_total(self@.take(i as int)),
            decreases len - i,
        {
            let (s, e) = self.ranges[i];
            proof {
                assert(self@.take(i + 1).drop_last() =~= self@.take(i as int));
                assert(self@[i as int].0 <= self@[i as int].1);
                lemma_range_total_prefix(self@, i as int + 1);
            }
            total = total + ((e as usize) - (s as usize) + 1);
            i = i + 1;
        }
        proof {
            assert(self@.take(len as int) =~= self@);
        }
        total
    }

    /// All port numbers, range after range, as an iterator.
    pub fn iter(&self) -> (it: std::vec::IntoIter<u16>)
        ensures
            it.remaining() == ports_of(self@),
    {
        let v = self.port_list();
        v.into_iter()
    }

    /// All port numbers, range after range.
    pub fn port_list(&self) -> (v: Vec<u16>)
        ensures
            v@ == ports_of(self@),
    {
        let n = self.ranges.len();
        let mut out: Vec<u16> = Vec::new();
        let mut i: usize = 0;
        while i < n
            invariant
                n == self@.len(),
                i <= n,
                out@ == ports_of(self@.take(i as int)),
            decreases n - i,
        {
            let (s, e) = self.ranges[i];
            proof {
                assert(self@.take(i + 1).drop_last() =~= self@.take(i as int));
            }
            if s <= e {
                let ghost base = out@;
                let mut p: u16 = s;
                loop
                    invariant_except_break
                        s <= p <= e,
                        out@ =~= base + Seq::new((p - s) as nat, |k: int| (s + k) as u16),
                    ensures
                        out@ =~= base + span(s, e),
                    decreases e - p,
                {
                    out.push(p);
                    if p == e {
                        break;
                    }
                    p = p + 1;
                }
                proof {
                    assert(out@ =~= ports_of(self@.take(i + 1)));
                }
            } else {
                proof {
                    assert(out@ =~= ports_of(self@.take(i + 1)));
                }
            }
            i = i + 1;
        }
        proof {
            assert(self@.take(n as int) =~= self@);
        }
        out
    }
}

/// The port count of well-formed ranges is the number of ports that
/// iteration yields.
pub proof fn law_count_is_iteration_length(r: PortRange)
    requires
        ranges_well_formed(r@),
    ensures
        range_total(r@) == ports_of(r@).len(),
{
    lemma_total_is_len(r@);
}

proof fn lemma_total_is_len(r: Seq<(u16, u16)>)
    requires
        ranges_well_formed(r),
    ensures
        range_total(r) == ports_of(r).len(),
    decreases r.len(),
{
    if r.len() > 0 {
        assert(r.last() == r[r.len() - 1]);
        lemma_total_is_len(r.drop_last());
    }
}

/// A port is contained in a range list exactly when iteration yields it.
pub proof fn law_contains_iff_iterated(r: PortRange, port: u16)
    ensures
        ranges_contain(r@, port) <==> ports_of(r@).contains(port),
{
    lemma_contains_iff(r@, port);
}

proof fn lemma_contains_iff(r: Seq<(u16, u16)>, port: u16)
    ensures
        ranges_contain(r, port) <==> ports_of(r).contains(port),
    decreases r.len(),
{
    if r.len() > 0 {
        let d = r.drop_last();
        let (s, e) = r.last();
        lemma_contains_iff(d, port);
        let sp = span(s, e);
        let pd = ports_of(d);
        assert(ports_of(r) == pd + sp);
        if ranges_contain(r, port) {
            let i = choose|i: int| 0 <= i < r.len() && #[trigger] r[i].0 <= port && port <= r[i].1;
            if i == r.len() - 1 {
                assert(sp[port - s] == port);
                assert((pd + sp)[pd.len() + port - s] == port);
            } else {
                assert(d[i] == r[i]);
                assert(ranges_contain(d, port));
                let j = choose|j: int| 0 <= j < pd.len() && pd[j] == port;
                assert((pd + sp)[j] == port);
            }
        }
        if ports_of(r).contains(port) {
            let j = choose|j: int| 0 <= j < (pd + sp).len() && (pd + sp)[j] == port;
            if j < pd.len() {
                assert(pd[j] == port);
                assert(pd.contains(port));
                let i = choose|i: int| 0 <= i < d.len() && #[trigger] d[i].0 <= port && port <= d[i].1;
                assert(r[i] == d[i]);
            } else {
                assert(sp[j - pd.len()] == port);
                assert(r[r.len() - 1].0 <= port && port <= r[r.len() - 1].1);
            }
        }
    }
}

} // verus!
