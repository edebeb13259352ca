//! Monitored rows and the order in which the table shows them.

use vstd::prelude::*;
use vstd::utf8::encode_utf8;

use crate::order::{
    bytes_less,
    bytes_lt,
    lemma_bytes_lt_asym,
    lemma_bytes_lt_total,
    lemma_bytes_lt_trans,
    text_eq,
};

verus! {

broadcast use vstd::seq_lib::group_to_multiset_ensures;

/// One line of the status table.
#[derive(Clone, Debug)]
pub struct RowPart {
    pub host: String,
    pub service: String,
    pub output: String,
    pub state: u8,
}

/// What a row shows.
pub struct RowView {
    pub host: Seq<char>,
    pub service: Seq<char>,
    pub output: Seq<char>,
    pub state: u8,
}

impl View for RowPart {
    type V = RowView;

    open spec fn view(&self) -> RowView {
        RowView {
            host: self.host@,
            service: self.service@,
            output: self.output@,
            state: self.state,
        }
    }
}

pub open spec fn row_views(s: Seq<RowPart>) -> Seq<RowView> {
    s.map_values(|x: RowPart| x@)
}

/// The UTF-8 bytes of a string, by which strings are ordered.
pub open spec fn text_bytes(s: String) -> Seq<u8> {
    encode_utf8(s@)
}

/// `a` is shown before `b`: higher state first, then host, service and
/// output in ascending byte order.
pub open spec fn row_lt(a: RowPart, b: RowPart) -> bool {
    ||| a.state > b.state
    ||| a.state == b.state && bytes_lt(text_bytes(a.host), text_bytes(b.host))
    ||| a.state == b.state && text_bytes(a.host) == text_bytes(b.host) && bytes_lt(
        text_bytes(a.service),
        text_bytes(b.service),
    )
    ||| a.state == b.state && text_bytes(a.host) == text_bytes(b.host) && text_bytes(a.service)
        == text_bytes(b.service) && bytes_lt(text_bytes(a.output), text_bytes(b.output))
}

/// The two rows agree on every field the order looks at.
pub open spec fn row_key_eq(a: RowPart, b: RowPart) -> bool {
    &&& a.state == b.state
    &&& text_bytes(a.host) == text_bytes(b.host)
    &&& text_bytes(a.service) == text_bytes(b.service)
    &&& text_bytes(a.output) == text_bytes(b.output)
}

/// No row of `s` should come before an earlier one.
pub open spec fn rows_sorted(s: Seq<RowPart>) -> bool {
    forall|i: int, j: int| 0 <= i < j < s.len() ==> !row_lt(#[trigger] s[j], #[trigger] s[i])
}

pub proof fn lemma_row_lt_asym(a: RowPart, b: RowPart)
    requires
        row_lt(a, b),
    ensures
        !row_lt(b, a),
{
    if bytes_lt(text_bytes(a.host), text_bytes(b.host)) {
        lemma_bytes_lt_asym(text_bytes(a.host), text_bytes(b.host));
    }
    if bytes_lt(text_bytes(a.service), text_bytes(b.service)) {
        lemma_bytes_lt_asym(text_bytes(a.service), text_bytes(b.service));
    }
    if bytes_lt(text_bytes(a.output), text_bytes(b.output)) {
        lemma_bytes_lt_asym(text_bytes(a.output), text_bytes(b.output));
    }
    if bytes_lt(text_bytes(b.host), text_bytes(a.host)) {
        lemma_bytes_lt_asym(text_bytes(b.host), text_bytes(a.host));
    }
    if bytes_lt(text_bytes(b.service), text_bytes(a.service)) {
        lemma_bytes_lt_asym(text_bytes(b.service), text_bytes(a.service));
    }
}

pub proof fn lemma_row_lt_trans(a: RowPart, b: RowPart, c: RowPart)
    requires
        row_lt(a, b),
        row_lt(b, c),
    ensures
        row_lt(a, c),
{
    if bytes_lt(text_bytes(a.host), text_bytes(b.host)) && bytes_lt(
        text_bytes(b.host),
        text_bytes(c.host),
    ) {
        lemma_bytes_lt_trans(text_bytes(a.host), text_bytes(b.host), text_bytes(c.host));
    }
    if bytes_lt(text_bytes(a.service), text_bytes(b.service)) && bytes_lt(
        text_bytes(b.service),
        text_bytes(c.service),
    ) {
        lemma_bytes_lt_trans(
            text_bytes(a.service),
            text_bytes(b.service),
            text_bytes(c.service),
        );
    }
    if bytes_lt(text_bytes(a.output), text_bytes(b.output)) && bytes_lt(
        text_bytes(b.output),
        text_bytes(c.output),
    ) {
        lemma_bytes_lt_trans(text_bytes(a.output), text_bytes(b.output), text_bytes(c.output));
    }
}

pub proof fn lemma_row_lt_total(a: RowPart, b: RowPart)
    ensures
        row_lt(a, b) || row_lt(b, a) || row_key_eq(a, b),
{
    lemma_bytes_lt_total(text_bytes(a.host), text_bytes(b.host));
    lemma_bytes_lt_total(text_bytes(a.service), text_bytes(b.service));
    lemma_bytes_lt_total(text_bytes(a.output), text_bytes(b.output));
}

impl RowPart {
    /// Whether `self` is shown strictly before `other`.
    pub fn precedes(&self, other: &RowPart) -> (r: bool)
        ensures
            r == row_lt(*self, *other),
    {
        if self.state != other.state {
            return self.state > other.state;
        }
        let (ah, bh) = (self.host.as_str().as_bytes(), other.host.as_str().as_bytes());
        if bytes_less(ah, bh) {
            return true;
        }
        if bytes_less(bh, ah) {
            proof {
                lemma_bytes_lt_asym(bh@, ah@);
            }
            return false;
        }
        proof {
            lemma_bytes_lt_total(ah@, bh@);
        }
        let (a_s, b_s) = (self.service.as_str().as_bytes(), other.service.as_str().as_bytes());
        if bytes_less(a_s, b_s) {
            return true;
        }
        if bytes_less(b_s, a_s) {
            proof {
                lemma_bytes_lt_asym(b_s@, a_s@);
            }
            return false;
        }
        proof {
            lemma_bytes_lt_total(a_s@, b_s@);
        }
        let (ao, bo) = (self.output.as_str().as_bytes(), other.output.as_str().as_bytes());
        bytes_less(ao, bo)
    }
}

impl PartialEq for RowPart {
    fn eq(&self, other: &RowPart) -> (r: bool) {
        self.state == other.state && text_eq(self.host.as_str(), other.host.as_str()) && text_eq(
            self.service.as_str(),
            other.service.as_str(),
        ) && text_eq(self.output.as_str(), other.output.as_str())
    }
}

impl vstd::std_specs::cmp::PartialEqSpecImpl for RowPart {
    open spec fn obeys_eq_spec() -> bool {
        true
    }

    open spec fn eq_spec(&self, other: &RowPart) -> bool {
        self@ == other@
    }
}

/// Display order as an ordering: `Less` where `a` is shown first.
pub open spec fn row_ordering(a: RowPart, b: RowPart) -> Option<core::cmp::Ordering> {
    if row_lt(a, b) {
        Some(core::cmp::Ordering::Less)
    } else if row_lt(b, a) {
        Some(core::cmp::Ordering::Greater)
    } else {
        Some(core::cmp::Ordering::Equal)
    }
}

impl PartialOrd for RowPart {
    fn partial_cmp(&self, other: &RowPart) -> (r: Option<core::cmp::Ordering>) {
        if self.precedes(other) {
            Some(core::cmp::Ordering::Less)
        } else if other.precedes(self) {
            Some(core::cmp::Ordering::Greater)
        } else {
            Some(core::cmp::Ordering::Equal)
        }
    }
}

impl vstd::std_specs::cmp::PartialOrdSpecImpl for RowPart {
    open spec fn obeys_partial_cmp_spec() -> bool {
        true
    }

    open spec fn partial_cmp_spec(&self, other: &RowPart) -> Option<core::cmp::Ordering> {
        row_ordering(*self, *other)
    }
}

/// Sorts rows into display order: the result holds the same rows, and no
/// row comes before one that precedes it.
pub fn sort_rows(rows: Vec<RowPart>) -> (r: Vec<RowPart>)
    ensures
        r@.to_multiset() == rows@.to_multiset(),
        row_views(r@).to_multiset() == row_views(rows@).to_multiset(),
        rows_sorted(r@),
{
    let mut rest = rows;
    let mut out: Vec<RowPart> = Vec::new();
    while rest.len() > 0
        invariant
            rows_sorted(out@),
            out@.to_multiset().add(rest@.to_multiset()) == rows@.to_multiset(),
            row_views(out@).to_multiset().add(row_views(rest@).to_multiset()) == row_views(
                rows@,
            ).to_multiset(),
        decreases rest@.len(),
    {
        let ghost before = rest@;
        let x = rest.pop().unwrap();
        proof {
            assert(before =~= rest@.push(x));
            assert(row_views(before) =~= row_views(rest@).push(x@));
        }
        let mut j: usize = 0;
        while j < out.len() && !x.precedes(&out[j])
            invariant
                j <= out@.len(),
                forall|k: int| 0 <= k < j ==> !row_lt(x, #[trigger] out@[k]),
            decreases out@.len() - j,
        {
            j = j + 1;
        }
        let ghost prev = out@;
        out.insert(j, x);
        proof {
            assert forall|a: int, b: int| 0 <= a < b < out@.len() implies !row_lt(
                #[trigger] out@[b],
                #[trigger] out@[a],
            ) by {
                if b < j {
                    assert(out@[a] == prev[a] && out@[b] == prev[b]);
                } else if b == j {
                    assert(out@[a] == prev[a]);
                } else if a == j {
                    assert(out@[b] == prev[b - 1]);
                    if row_lt(prev[b - 1], x) {
                        if b - 1 == j {
                            lemma_row_lt_asym(x, prev[j as int]);
                        } else {
                            lemma_row_lt_trans(prev[b - 1], x, prev[j as int]);
                        }
                    }
                } else if a < j {
                    assert(out@[a] == prev[a] && out@[b] == prev[b - 1]);
                } else {
                    assert(out@[a] == prev[a - 1] && out@[b] == prev[b - 1]);
                }
            }
            vstd::seq_lib::to_multiset_insert(prev, j as int, x);
            assert(out@.to_multiset().add(rest@.to_multiset()) =~= rows@.to_multiset());
            assert(row_views(out@) =~= row_views(prev).insert(j as int, x@));
            vstd::seq_lib::to_multiset_insert(row_views(prev), j as int, x@);
            assert(row_views(out@).to_multiset().add(row_views(rest@).to_multiset())
                =~= row_views(rows@).to_multiset());
        }
    }
    out
}

/// A sorted sequence puts a row before every row that it precedes.
pub proof fn law_sorted_rows_follow_order(s: Seq<RowPart>, i: int, j: int)
    requires
        rows_sorted(s),
        0 <= i < s.len(),
        0 <= j < s.len(),
        row_lt(s[i], s[j]),
    ensures
        i < j,
{
    if j < i {
        assert(!row_lt(s[i], s[j]));
    }
    if i == j {
        lemma_row_lt_asym(s[i], s[j]);
    }
}

/// In a sorted sequence an earlier row either precedes a later one or
/// agrees with it on every field the order looks at.
pub proof fn law_sorted_rows_are_ordered(s: Seq<RowPart>, i: int, j: int)
    requires
        rows_sorted(s),
        0 <= i < j < s.len(),
    ensures
        row_lt(s[i], s[j]) || row_key_eq(s[i], s[j]),
{
    lemma_row_lt_total(s[i], s[j]);
}

} // verus!
