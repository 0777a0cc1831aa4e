use vstd::prelude::*;
use vstd::seq_lib::group_to_multiset_ensures;
use vstd::multiset::{group_multiset_axioms, Multiset};
use vstd::string::*;

verus! {

/// The tunnel protocol that a relay serves.
#[derive(Clone, Copy, Debug, PartialEq, Eq)]
pub enum EndpointKind {
    OpenVpn,
    Bridge,
    Wireguard,
    Other,
}

/// One selectable server.
#[derive(Clone, Debug, PartialEq, Eq)]
pub struct Relay {
    pub hostname: String,
    pub endpoint_type: EndpointKind,
}

/// A city and the relays that stand in it.
#[derive(Clone, Debug, PartialEq, Eq)]
pub struct RelayListCity {
    pub name: String,
    pub code: String,
    pub relays: Vec<Relay>,
}

/// A region (a country) and its cities.
#[derive(Clone, Debug, PartialEq, Eq)]
pub struct RelayListCountry {
    pub name: String,
    pub code: String,
    pub cities: Vec<RelayListCity>,
}

/// The hierarchy of selectable locations, as the daemon lists it.
#[derive(Clone, Debug, PartialEq, Eq)]
pub struct RelayList {
    pub countries: Vec<RelayListCountry>,
}

/// Ordinal comparison of two names from position `i` on.
pub open spec fn name_le_from(a: Seq<char>, b: Seq<char>, i: int) -> bool
    decreases a.len() - i,
{
    if i >= a.len() {
        true
    } else if i >= b.len() {
        false
    } else if a[i] != b[i] {
        a[i] < b[i]
    } else {
        name_le_from(a, b, i + 1)
    }
}

/// Case-sensitive ordinal order of names: character by character, a proper
/// prefix first.
pub open spec fn name_le(a: Seq<char>, b: Seq<char>) -> bool {
    name_le_from(a, b, 0)
}

/// The region names of a list, in its order.
pub open spec fn names(s: Seq<RelayListCountry>) -> Seq<Seq<char>> {
    s.map_values(|c: RelayListCountry| c.name@)
}

/// The names stand in ascending order.
pub open spec fn names_sorted(s: Seq<Seq<char>>) -> bool {
    forall|i: int, j: int| 0 <= i < j < s.len() ==> #[trigger] name_le(s[i], s[j])
}

/// `out` holds the regions of `input`, ordered by name.
pub open spec fn sorts_regions(input: Seq<RelayListCountry>, out: Seq<RelayListCountry>) -> bool {
    &&& names_sorted(names(out))
    &&& out.to_multiset() == input.to_multiset()
    &&& names(out).to_multiset() == names(input).to_multiset()
}

proof fn lemma_name_le_total(a: Seq<char>, b: Seq<char>, i: int)
    requires
        0 <= i,
    ensures
        name_le_from(a, b, i) || name_le_from(b, a, i),
    decreases a.len() - i,
{
    if i < a.len() && i < b.len() {
        if a[i] == b[i] {
            lemma_name_le_total(a, b, i + 1);
        }
    }
}

proof fn lemma_name_le_trans(a: Seq<char>, b: Seq<char>, c: Seq<char>, i: int)
    requires
        0 <= i,
        name_le_from(a, b, i),
        name_le_from(b, c, i),
    ensures
        name_le_from(a, c, i),
    decreases a.len() - i,
{
    if i < a.len() && i < b.len() && i < c.len() && a[i] == b[i] && b[i] == c[i] {
        lemma_name_le_trans(a, b, c, i + 1);
    }
}

proof fn lemma_name_le_antisym(a: Seq<char>, b: Seq<char>, i: int)
    requires
        0 <= i <= a.len(),
        i <= b.len(),
        a.subrange(0, i) == b.subrange(0, i),
        name_le_from(a, b, i),
        name_le_from(b, a, i),
    ensures
        a == b,
    decreases a.len() - i,
{
    if i >= a.len() {
        assert(a =~= a.subrange(0, i));
        assert(b =~= b.subrange(0, i));
    } else {
        assert(a.subrange(0, i + 1) =~= a.subrange(0, i).push(a[i]));
        assert(b.subrange(0, i + 1) =~= b.subrange(0, i).push(b[i]));
        lemma_name_le_antisym(a, b, i + 1);
    }
}

/// Two lists of names in ascending order that hold the same names are the
/// same list.
proof fn lemma_sorted_names_unique(a: Seq<Seq<char>>, b: Seq<Seq<char>>)
    requires
        names_sorted(a),
        names_sorted(b),
        a.to_multiset() == b.to_multiset(),
    ensures
        a == b,
    decreases a.len(),
{
    broadcast use group_to_multiset_ensures, group_multiset_axioms;

    assert(a.to_multiset().len() == a.len());
    assert(b.to_multiset().len() == b.len());
    if a.len() == 0 {
        assert(a =~= b);
    } else {
        let x = a[0];
        let y = b[0];
        assert(a.contains(x));
        assert(a.to_multiset().count(x) > 0);
        assert(b.to_multiset().count(x) > 0);
        assert(b.contains(x));
        let k = choose|k: int| 0 <= k < b.len() && b[k] == x;
        assert(b.contains(y));
        assert(b.to_multiset().count(y) > 0);
        assert(a.to_multiset().count(y) > 0);
        assert(a.contains(y));
        let m = choose|m: int| 0 <= m < a.len() && a[m] == y;
        if k > 0 {
            assert(name_le(b[0], b[k]));
        }
        if m > 0 {
            assert(name_le(a[0], a[m]));
        }
        if x != y {
            assert(x.subrange(0, 0) =~= y.subrange(0, 0));
            lemma_name_le_antisym(x, y, 0);
        }
        let ra = a.remove(0);
        let rb = b.remove(0);
        assert(ra.to_multiset() == a.to_multiset().remove(x));
        assert(rb.to_multiset() == b.to_multiset().remove(y));
        assert forall|i: int, j: int| 0 <= i < j < ra.len() implies #[trigger] name_le(
            ra[i],
            ra[j],
        ) by {
            assert(ra[i] == a[i + 1] && ra[j] == a[j + 1]);
        }
        assert forall|i: int, j: int| 0 <= i < j < rb.len() implies #[trigger] name_le(
            rb[i],
            rb[j],
        ) by {
            assert(rb[i] == b[i + 1] && rb[j] == b[j + 1]);
        }
        lemma_sorted_names_unique(ra, rb);
        assert(a =~= seq![x] + ra);
        assert(b =~= seq![y] + rb);
    }
}

/// The region order of a catalog does not depend on the order in which the
/// daemon listed the regions: two listings of the same region names, each
/// put in order, give the same sequence of names.
pub proof fn lemma_region_order_independent(
    x: Seq<RelayListCountry>,
    y: Seq<RelayListCountry>,
    sx: Seq<RelayListCountry>,
    sy: Seq<RelayListCountry>,
)
    requires
        names(x).to_multiset() == names(y).to_multiset(),
        sorts_regions(x, sx),
        sorts_regions(y, sy),
    ensures
        names(sx) == names(sy),
{
    lemma_sorted_names_unique(names(sx), names(sy));
}

/// Case-sensitive ordinal comparison of two names.
pub fn name_le_exec(a: &str, b: &str) -> (r: bool)
    ensures
        r == name_le(a@, b@),
{
    let la = a.unicode_len();
    let lb = b.unicode_len();
    let mut i: usize = 0;
    while i < la && i < lb
        invariant
            la == a@.len(),
            lb == b@.len(),
            i <= la,
            i <= lb,
            name_le(a@, b@) == name_le_from(a@, b@, i as int),
        decreases la - i,
    {
        let ca = a.get_char(i);
        let cb = b.get_char(i);
        if ca != cb {
            return ca < cb;
        }
        i = i + 1;
    }
    i == la
}

/// Orders regions by name, ascending.
pub fn sort_regions(countries: Vec<RelayListCountry>) -> (out: Vec<RelayListCountry>)
    ensures
        sorts_regions(countries@, out@),
{
    broadcast use group_to_multiset_ensures, group_multiset_axioms;

    let mut rest = countries;
    let mut out: Vec<RelayListCountry> = Vec::new();
    while rest.len() > 0
        invariant
            names_sorted(names(out@)),
            out@.to_multiset().add(rest@.to_multiset()) == countries@.to_multiset(),
            names(out@).to_multiset().add(names(rest@).to_multiset()) == names(
                countries@,
            ).to_multiset(),
        decreases rest.len(),
    {
        let ghost rest0 = rest@;
        let x = rest.remove(0);
        assert(names(rest@) =~= names(rest0).remove(0));
        assert(names(rest0)[0] == x.name@);
        proof {
            vstd::seq_lib::to_multiset_remove(rest0, 0);
            vstd::seq_lib::to_multiset_remove(names(rest0), 0);
            vstd::seq_lib::to_multiset_contains(rest0, rest0[0]);
            vstd::seq_lib::to_multiset_contains(names(rest0), names(rest0)[0]);
        }
        assert(rest0[0] == x);
        assert(rest0.contains(x));
        assert(rest0.to_multiset().count(x) > 0);
        assert(names(rest0).contains(x.name@));
        assert(names(rest0).to_multiset().count(x.name@) > 0);
        let mut pos: usize = out.len();
        while pos > 0
            invariant
                pos <= out.len(),
                forall|k: int| pos <= k < out.len() ==> !name_le(out@[k].name@, x.name@),
            ensures
                pos <= out.len(),
                forall|k: int| pos <= k < out.len() ==> !name_le(out@[k].name@, x.name@),
                pos == 0 || name_le(out@[pos - 1].name@, x.name@),
            decreases pos,
        {
            if name_le_exec(out[pos - 1].name.as_str(), x.name.as_str()) {
                break;
            }
            pos = pos - 1;
        }
        let ghost old_out = out@;
        let ghost xn = x.name@;
        out.insert(pos, x);
        let ghost on = names(old_out);
        assert(names(out@) =~= on.insert(pos as int, xn));
        proof {
            vstd::seq_lib::to_multiset_insert(old_out, pos as int, x);
            vstd::seq_lib::to_multiset_insert(on, pos as int, xn);
        }
        assert(out@.to_multiset() == old_out.to_multiset().insert(x));
        assert(names(out@).to_multiset() == on.to_multiset().insert(xn));
        assert(out@.to_multiset().add(rest@.to_multiset()) =~= old_out.to_multiset().add(
            rest0.to_multiset(),
        ));
        assert(names(out@).to_multiset().add(names(rest@).to_multiset()) =~= on.to_multiset().add(
            names(rest0).to_multiset(),
        ));
        assert forall|i: int, j: int| 0 <= i < j < out@.len() implies #[trigger] name_le(
            names(out@)[i],
            names(out@)[j],
        ) by {
            let p = pos as int;
            if j < p {
            } else if j == p {
                if i < p - 1 {
                    assert(name_le(on[i], on[p - 1]));
                    lemma_name_le_trans(on[i], on[p - 1], xn, 0);
                }
            } else if i < p {
                assert(name_le(on[i], on[j - 1]));
            } else if i == p {
                assert(!name_le(on[j - 1], xn));
                lemma_name_le_total(xn, on[j - 1], 0);
            } else {
                assert(name_le(on[i - 1], on[j - 1]));
            }
        }
    }
    assert(rest@.to_multiset().len() == 0);
    assert(names(rest@).to_multiset().len() == 0);
    assert(rest@.to_multiset() =~= Multiset::empty());
    assert(names(rest@).to_multiset() =~= Multiset::empty());
    assert(out@.to_multiset() =~= out@.to_multiset().add(rest@.to_multiset()));
    assert(names(out@).to_multiset() =~= names(out@).to_multiset().add(
        names(rest@).to_multiset(),
    ));
    out
}

impl RelayList {
    /// Puts the regions in ascending order of name.
    pub fn sort_by_name(&mut self)
        ensures
            sorts_regions(old(self).countries@, final(self).countries@),
    {
        let mut countries: Vec<RelayListCountry> = Vec::new();
        std::mem::swap(&mut countries, &mut self.countries);
        self.countries = sort_regions(countries);
    }
}

} // verus!
