//! What the branch popup lists for a search: the recent branches, every local branch in
//! case-insensitive order, and the remote branches, each narrowed to the names holding
//! the search text; and the labels of its New Branch and Pull rows.
use vstd::prelude::*;
use vstd::string::StrSliceExecFns;
use vstd::string::StringSliceAdditionalSpecFns;
use crate::bytes::{concat, copy_bytes, decimal, decimal_spec};
use crate::branch::bytes_view;
use crate::model::Kyde;
use crate::merge::{opt_bytes, quoted, quoted_bytes};

verus! {

/// What std's `str::to_lowercase` makes of `s` read as UTF-8 (Unicode lower-casing).
pub uninterp spec fn lowercase(s: Seq<u8>) -> Seq<u8>;

/// What std's `str::trim` keeps of `s` read as UTF-8 (Unicode white space cut at both
/// ends).
pub uninterp spec fn trimmed(s: Seq<u8>) -> Seq<u8>;

/// `s` lower-cased by std's `str::to_lowercase` (invalid UTF-8 read as U+FFFD); nothing
/// more is claimed of it than that it is that function of `s`.
#[verifier::external_body]
pub(crate) fn to_lower(s: &Vec<u8>) -> (r: Vec<u8>)
    ensures
        r@ == lowercase(s@),
{
    String::from_utf8_lossy(s).to_lowercase().into_bytes()
}

/// `s` with surrounding white space cut by std's `str::trim` (invalid UTF-8 read as
/// U+FFFD); nothing more is claimed of it than that it is that function of `s`.
#[verifier::external_body]
pub(crate) fn trim_bytes(s: &Vec<u8>) -> (r: Vec<u8>)
    ensures
        r@ == trimmed(s@),
{
    String::from_utf8_lossy(s).trim().as_bytes().to_vec()
}

/// Byte-wise lexicographic order, the order of `String`.
pub open spec fn lex_lt(a: Seq<u8>, b: Seq<u8>) -> bool
    decreases a.len(),
{
    if b.len() == 0 {
        false
    } else if a.len() == 0 {
        true
    } else if a[0] != b[0] {
        a[0] < b[0]
    } else {
        lex_lt(a.drop_first(), b.drop_first())
    }
}

pub proof fn lemma_lex_lt_trans(a: Seq<u8>, b: Seq<u8>, c: Seq<u8>)
    requires
        lex_lt(a, b),
        lex_lt(b, c),
    ensures
        lex_lt(a, c),
    decreases a.len(),
{
    if a.len() > 0 && b.len() > 0 && c.len() > 0 && a[0] == b[0] && b[0] == c[0] {
        lemma_lex_lt_trans(a.drop_first(), b.drop_first(), c.drop_first());
    }
}

/// See [`lex_lt`].
pub fn lex_less(a: &Vec<u8>, b: &Vec<u8>) -> (r: bool)
    ensures
        r == lex_lt(a@, b@),
{
    let mut i: usize = 0;
    assert(a@.skip(0) =~= a@ && b@.skip(0) =~= b@);
    while i < a.len() && i < b.len()
        invariant
            i <= a@.len(),
            i <= b@.len(),
            lex_lt(a@, b@) == lex_lt(a@.skip(i as int), b@.skip(i as int)),
        decreases a@.len() - i,
    {
        proof {
            assert(a@.skip(i as int).drop_first() =~= a@.skip(i + 1));
            assert(b@.skip(i as int).drop_first() =~= b@.skip(i + 1));
            assert(a@.skip(i as int)[0] == a@[i as int]);
            assert(b@.skip(i as int)[0] == b@[i as int]);
        }
        if a[i] != b[i] {
            return a[i] < b[i];
        }
        i = i + 1;
    }
    proof {
        assert(a@.skip(i as int).len() == a@.len() - i);
        assert(b@.skip(i as int).len() == b@.len() - i);
    }
    i < b.len()
}

/// A name with the key it is ordered by.
pub type Keyed = (Seq<u8>, Seq<u8>);

/// `x` put into `s` after every element whose key is not above its own.
pub open spec fn insert_by_key(s: Seq<Keyed>, x: Keyed) -> Seq<Keyed>
    decreases s.len(),
{
    if s.len() == 0 {
        seq![x]
    } else if lex_lt(x.0, s[0].0) {
        seq![x] + s
    } else {
        seq![s[0]] + insert_by_key(s.drop_first(), x)
    }
}

/// The stable sort of `s` by key: what `sort_by_key` gives.
pub open spec fn sort_by_key_spec(s: Seq<Keyed>) -> Seq<Keyed>
    decreases s.len(),
{
    if s.len() == 0 {
        s
    } else {
        insert_by_key(sort_by_key_spec(s.drop_last()), s.last())
    }
}

/// Where [`insert_by_key`] puts `x`.
pub open spec fn insert_pos(s: Seq<Keyed>, x: Keyed) -> int
    decreases s.len(),
{
    if s.len() == 0 {
        0
    } else if lex_lt(x.0, s[0].0) {
        0
    } else {
        1 + insert_pos(s.drop_first(), x)
    }
}

pub proof fn lemma_insert_pos(s: Seq<Keyed>, x: Keyed)
    ensures
        0 <= insert_pos(s, x) <= s.len(),
        forall|k: int| 0 <= k < insert_pos(s, x) ==> !lex_lt(x.0, #[trigger] s[k].0),
        insert_pos(s, x) < s.len() ==> lex_lt(x.0, s[insert_pos(s, x)].0),
        insert_by_key(s, x) == s.insert(insert_pos(s, x), x),
    decreases s.len(),
{
    if s.len() > 0 && !lex_lt(x.0, s[0].0) {
        let t = s.drop_first();
        lemma_insert_pos(t, x);
        assert forall|k: int| 0 <= k < insert_pos(s, x) implies !lex_lt(x.0, #[trigger] s[k].0) by {
            if k > 0 {
                assert(s[k] == t[k - 1]);
            }
        }
        assert(insert_by_key(s, x) =~= s.insert(insert_pos(s, x), x));
    } else if s.len() > 0 {
        assert(insert_by_key(s, x) =~= s.insert(0, x));
    } else {
        assert(insert_by_key(s, x) =~= s.insert(0, x));
    }
}

/// Keys never decrease along `s`.
pub open spec fn key_sorted(s: Seq<Keyed>) -> bool {
    forall|i: int, j: int| 0 <= i < j < s.len() ==> !lex_lt(#[trigger] s[j].0, #[trigger] s[i].0)
}

pub proof fn lemma_insert_keeps_sorted(s: Seq<Keyed>, x: Keyed)
    requires
        key_sorted(s),
    ensures
        key_sorted(insert_by_key(s, x)),
        insert_by_key(s, x).to_multiset() == s.to_multiset().insert(x),
{
    broadcast use vstd::seq_lib::group_to_multiset_ensures;
    lemma_insert_pos(s, x);
    let p = insert_pos(s, x);
    let r = insert_by_key(s, x);
    vstd::seq_lib::to_multiset_insert(s, p, x);
    s.insert_ensures(p, x);
    assert forall|i: int, j: int| 0 <= i < j < r.len() implies !lex_lt(#[trigger] r[j].0, #[trigger] r[i].0) by {
        if j < p {
            assert(r[i] == s[i] && r[j] == s[j]);
            assert(!lex_lt(s[j].0, s[i].0));
        } else if j == p {
            assert(r[i] == s[i] && r[j] == x);
            assert(!lex_lt(x.0, s[i].0));
        } else if i == p {
            assert(r[i] == x && r[j] == s[j - 1]);
            if lex_lt(s[j - 1].0, x.0) {
                lemma_lex_lt_trans(s[j - 1].0, x.0, s[p].0);
                if j - 1 > p {
                    assert(!lex_lt(s[j - 1].0, s[p].0));
                } else {
                    lemma_lex_lt_irrefl(s[p].0);
                }
            }
        } else if i < p {
            assert(r[i] == s[i] && r[j] == s[j - 1]);
            assert(!lex_lt(s[j - 1].0, s[i].0));
        } else {
            assert(r[i] == s[i - 1] && r[j] == s[j - 1]);
            assert(!lex_lt(s[j - 1].0, s[i - 1].0));
        }
    }
}

pub proof fn lemma_lex_lt_irrefl(a: Seq<u8>)
    ensures
        !lex_lt(a, a),
    decreases a.len(),
{
    if a.len() > 0 {
        lemma_lex_lt_irrefl(a.drop_first());
    }
}

/// The branch list is ordered case-insensitively and holds exactly the names it was given:
/// a stable sort by key yields keys that never decrease, and the same elements.
pub proof fn law_sort_by_key_sorted(s: Seq<Keyed>)
    ensures
        key_sorted(sort_by_key_spec(s)),
        sort_by_key_spec(s).to_multiset() == s.to_multiset(),
    decreases s.len(),
{
    broadcast use vstd::seq_lib::group_to_multiset_ensures;
    if s.len() > 0 {
        law_sort_by_key_sorted(s.drop_last());
        lemma_insert_keeps_sorted(sort_by_key_spec(s.drop_last()), s.last());
        assert(s.drop_last().push(s.last()) =~= s);
    } else {
        assert(key_sorted(s));
    }
}

/// The names of `items` sorted stably by their keys (see [`sort_by_key_spec`]).
pub fn sort_names_by_key(items: Vec<(Vec<u8>, Vec<u8>)>) -> (r: Vec<Vec<u8>>)
    ensures
        bytes_view(r@) == sort_by_key_spec(keyed_view(items@)).map_values(|x: Keyed| x.1),
{
    let mut out: Vec<(Vec<u8>, Vec<u8>)> = Vec::new();
    let mut i: usize = 0;
    let ghost kv = keyed_view(items@);
    while i < items.len()
        invariant
            i <= items@.len(),
            kv == keyed_view(items@),
            keyed_view(out@) == sort_by_key_spec(kv.subrange(0, i as int)),
        decreases items@.len() - i,
    {
        let ghost o = keyed_view(out@);
        let ghost x = kv[i as int];
        let mut j: usize = 0;
        while j < out.len() && !lex_less(&items[i].0, &out[j].0)
            invariant
                j <= out@.len(),
                o == keyed_view(out@),
                x == kv[i as int],
                kv == keyed_view(items@),
                i < items@.len(),
                forall|k: int| 0 <= k < j ==> !lex_lt(x.0, #[trigger] o[k].0),
            decreases out@.len() - j,
        {
            j = j + 1;
        }
        proof {
            lemma_insert_pos(o, x);
            let p = insert_pos(o, x);
            if (j as int) < p {
                assert(!lex_lt(x.0, o[j as int].0));
            }
            if p < j {
                assert(!lex_lt(x.0, o[p].0));
            }
            assert(kv.subrange(0, i + 1).drop_last() =~= kv.subrange(0, i as int));
            assert(kv.subrange(0, i + 1).last() == x);
        }
        let item = (copy_bytes(&items[i].0), copy_bytes(&items[i].1));
        out.insert(j, item);
        proof {
            assert(keyed_view(out@) =~= o.insert(j as int, x));
        }
        i = i + 1;
    }
    proof {
        assert(kv.subrange(0, items@.len() as int) =~= kv);
    }
    let mut r: Vec<Vec<u8>> = Vec::new();
    let mut k: usize = 0;
    let ghost sorted = keyed_view(out@);
    while k < out.len()
        invariant
            k <= out@.len(),
            sorted == keyed_view(out@),
            bytes_view(r@) == sorted.subrange(0, k as int).map_values(|x: Keyed| x.1),
        decreases out@.len() - k,
    {
        let ghost before = r@;
        r.push(copy_bytes(&out[k].1));
        proof {
            assert(bytes_view(r@) =~= bytes_view(before).push(sorted[k as int].1));
            assert(sorted.subrange(0, k + 1) =~= sorted.subrange(0, k as int).push(sorted[k as int]));
            assert(bytes_view(r@) =~= sorted.subrange(0, k + 1).map_values(|x: Keyed| x.1));
        }
        k = k + 1;
    }
    proof {
        assert(sorted.subrange(0, out@.len() as int) =~= sorted);
    }
    r
}

pub open spec fn keyed_view(v: Seq<(Vec<u8>, Vec<u8>)>) -> Seq<Keyed> {
    v.map_values(|x: (Vec<u8>, Vec<u8>)| (x.0@, x.1@))
}


/// Whether `hay` holds `needle` at some offset.
pub open spec fn holds_sub(hay: Seq<u8>, needle: Seq<u8>) -> bool {
    exists|i: int| 0 <= i && i + needle.len() <= hay.len() && #[trigger] hay.subrange(i, i + needle.len()) == needle
}

/// See [`holds_sub`].
pub fn holds_bytes(hay: &Vec<u8>, needle: &Vec<u8>) -> (r: bool)
    ensures
        r == holds_sub(hay@, needle@),
{
    if needle.len() > hay.len() {
        return false;
    }
    let hl: usize = hay.len();
    let last = hl - needle.len();
    let mut i: usize = 0;
    while i <= last
        invariant
            hl == hay@.len(),
            i <= last,
            last == hay@.len() - needle@.len(),
            needle@.len() <= hay@.len(),
            forall|k: int| 0 <= k < i ==> #[trigger] hay@.subrange(k, k + needle@.len()) != needle@,
        decreases last + 1 - i,
    {
        let mut j: usize = 0;
        let mut same = true;
        while j < needle.len()
            invariant
                j <= needle@.len(),
                hl == hay@.len(),
                i <= last,
                last == hay@.len() - needle@.len(),
                needle@.len() <= hay@.len(),
                same == (forall|t: int| 0 <= t < j ==> hay@[i + t] == needle@[t]),
            decreases needle@.len() - j,
        {
            if hay[i + j] != needle[j] {
                same = false;
            }
            j = j + 1;
        }
        if same {
            assert(hay@.subrange(i as int, i + needle@.len()) =~= needle@);
            return true;
        }
        proof {
            let t = choose|t: int| 0 <= t < needle@.len() && hay@[i + t] != needle@[t];
            assert(hay@.subrange(i as int, i + needle@.len())[t] != needle@[t]);
        }
        if i == last {
            return false;
        }
        i = i + 1;
    }
    false
}

/// A branch matches the search `ql` (already trimmed and lower-cased): every branch for an
/// empty search, else one whose lower-cased name holds it.
pub open spec fn name_matches(ql: Seq<u8>, b: Seq<u8>) -> bool {
    ql.len() == 0 || holds_sub(lowercase(b), ql)
}

/// The first five matching branches in their listed order (most recent first), the
/// current branch left out.
pub open spec fn recent_spec(list: Seq<Seq<u8>>, current: Option<Seq<u8>>, ql: Seq<u8>) -> Seq<Seq<u8>> {
    let f = list.filter(|b: Seq<u8>| current != Some(b) && name_matches(ql, b));
    if f.len() <= 5 {
        f
    } else {
        f.take(5)
    }
}

/// Every matching branch, ordered by its lower-cased name (ties keep their order).
pub open spec fn all_spec(list: Seq<Seq<u8>>, ql: Seq<u8>) -> Seq<Seq<u8>> {
    sort_by_key_spec(
        list.filter(|b: Seq<u8>| name_matches(ql, b)).map_values(|b: Seq<u8>| (lowercase(b), b)),
    ).map_values(|x: Keyed| x.1)
}

/// The New Branch row: the trimmed search text, quoted, once there is one.
pub open spec fn new_branch_label_spec(q: Seq<u8>) -> Seq<u8> {
    if lowercase(trimmed(q)).len() == 0 {
        "+ New Branch".spec_bytes()
    } else {
        "+ New Branch  ".spec_bytes() + quoted(trimmed(q))
    }
}

/// The Pull row: "Pulling…" while a pull runs, with the count of commits behind when
/// there are any.
pub open spec fn pull_label_spec(pulling: bool, behind: Option<usize>) -> Seq<u8> {
    if pulling {
        "↓ Pulling…".spec_bytes()
    } else if behind matches Some(n) && n > 0 {
        "↓ Pull  (".spec_bytes() + decimal_spec(behind.unwrap() as nat) + ")".spec_bytes()
    } else {
        "↓ Pull".spec_bytes()
    }
}

/// What the branch popup shows for a search.
pub struct BranchPopup {
    pub recent: Vec<Vec<u8>>,
    pub all: Vec<Vec<u8>>,
    pub remotes: Vec<Vec<u8>>,
    pub new_label: Vec<u8>,
    pub pull_label: Vec<u8>,
}

/// The names of `list` that match `ql`, each with its lower-cased form.
fn matching_keyed(list: &Vec<Vec<u8>>, ql: &Vec<u8>) -> (r: Vec<(Vec<u8>, Vec<u8>)>)
    ensures
        keyed_view(r@) == bytes_view(list@).filter(|b: Seq<u8>| name_matches(ql@, b)).map_values(
            |b: Seq<u8>| (lowercase(b), b),
        ),
{
    let ghost lv = bytes_view(list@);
    let ghost f = |b: Seq<u8>| name_matches(ql@, b);
    let ghost g = |b: Seq<u8>| (lowercase(b), b);
    let mut r: Vec<(Vec<u8>, Vec<u8>)> = Vec::new();
    let mut i: usize = 0;
    while i < list.len()
        invariant
            i <= list@.len(),
            lv == bytes_view(list@),
            f == (|b: Seq<u8>| name_matches(ql@, b)),
            g == (|b: Seq<u8>| (lowercase(b), b)),
            keyed_view(r@) == lv.subrange(0, i as int).filter(f).map_values(g),
        decreases list@.len() - i,
    {
        let ghost pre = lv.subrange(0, i as int);
        proof {
            assert(lv.subrange(0, i + 1) =~= pre.push(lv[i as int]));
            crate::path::lemma_filter_push(pre, lv[i as int], f);
        }
        let key = to_lower(&list[i]);
        let m = ql.len() == 0 || holds_bytes(&key, ql);
        if m {
            let ghost before = r@;
            r.push((key, copy_bytes(&list[i])));
            proof {
                assert(keyed_view(r@) =~= keyed_view(before).push(g(lv[i as int])));
                assert(pre.filter(f).push(lv[i as int]).map_values(g) =~= pre.filter(f).map_values(g).push(
                    g(lv[i as int]),
                ));
            }
        }
        i = i + 1;
    }
    assert(lv.subrange(0, list@.len() as int) =~= lv);
    r
}

/// The names of `list` that match `ql`.
fn matching(list: &Vec<Vec<u8>>, ql: &Vec<u8>) -> (r: Vec<Vec<u8>>)
    ensures
        bytes_view(r@) == bytes_view(list@).filter(|b: Seq<u8>| name_matches(ql@, b)),
{
    let ghost lv = bytes_view(list@);
    let ghost f = |b: Seq<u8>| name_matches(ql@, b);
    let mut r: Vec<Vec<u8>> = Vec::new();
    let mut i: usize = 0;
    while i < list.len()
        invariant
            i <= list@.len(),
            lv == bytes_view(list@),
            f == (|b: Seq<u8>| name_matches(ql@, b)),
            bytes_view(r@) == lv.subrange(0, i as int).filter(f),
        decreases list@.len() - i,
    {
        let ghost pre = lv.subrange(0, i as int);
        proof {
            assert(lv.subrange(0, i + 1) =~= pre.push(lv[i as int]));
            crate::path::lemma_filter_push(pre, lv[i as int], f);
        }
        let key = to_lower(&list[i]);
        if ql.len() == 0 || holds_bytes(&key, ql) {
            let ghost before = r@;
            r.push(copy_bytes(&list[i]));
            assert(bytes_view(r@) =~= bytes_view(before).push(lv[i as int]));
        }
        i = i + 1;
    }
    assert(lv.subrange(0, list@.len() as int) =~= lv);
    r
}

/// The first five names of `list` other than `current` that match `ql`.
fn recent_matching(list: &Vec<Vec<u8>>, current: &Option<Vec<u8>>, ql: &Vec<u8>) -> (r: Vec<Vec<u8>>)
    ensures
        bytes_view(r@) == recent_spec(bytes_view(list@), opt_bytes(*current), ql@),
{
    let ghost lv = bytes_view(list@);
    let ghost cur = opt_bytes(*current);
    let ghost f = |b: Seq<u8>| cur != Some(b) && name_matches(ql@, b);
    let mut r: Vec<Vec<u8>> = Vec::new();
    let mut i: usize = 0;
    while i < list.len()
        invariant
            i <= list@.len(),
            lv == bytes_view(list@),
            cur == opt_bytes(*current),
            f == (|b: Seq<u8>| cur != Some(b) && name_matches(ql@, b)),
            bytes_view(r@) == (if lv.subrange(0, i as int).filter(f).len() <= 5 {
                lv.subrange(0, i as int).filter(f)
            } else {
                lv.subrange(0, i as int).filter(f).take(5)
            }),
        decreases list@.len() - i,
    {
        let ghost pre = lv.subrange(0, i as int);
        let ghost fp = pre.filter(f);
        proof {
            assert(lv.subrange(0, i + 1) =~= pre.push(lv[i as int]));
            crate::path::lemma_filter_push(pre, lv[i as int], f);
        }
        let is_current = match current {
            Some(c) => crate::bytes::bytes_eq(c, &list[i]),
            None => false,
        };
        let key = to_lower(&list[i]);
        if !is_current && (ql.len() == 0 || holds_bytes(&key, ql)) {
            if r.len() < 5 {
                let ghost before = r@;
                r.push(copy_bytes(&list[i]));
                assert(bytes_view(r@) =~= bytes_view(before).push(lv[i as int]));
                assert(fp.len() < 5);
            } else {
                assert(fp.len() >= 5);
                assert(fp.push(lv[i as int]).take(5) =~= (if fp.len() <= 5 {
                    fp
                } else {
                    fp.take(5)
                }));
            }
        }
        i = i + 1;
    }
    assert(lv.subrange(0, list@.len() as int) =~= lv);
    r
}

impl Kyde {
    /// What the branch popup shows for the search text `query`: see [`recent_spec`],
    /// [`all_spec`], the remote branches that match, [`new_branch_label_spec`] and
    /// [`pull_label_spec`].
    pub fn branch_popup(&self, query: &Vec<u8>) -> (r: BranchPopup)
        ensures
            ({
                let ql = lowercase(trimmed(query@));
                &&& bytes_view(r.recent@) == recent_spec(bytes_view(self.branch.list@), opt_bytes(self.current_branch), ql)
                &&& bytes_view(r.all@) == all_spec(bytes_view(self.branch.list@), ql)
                &&& bytes_view(r.remotes@) == bytes_view(self.branch.remotes@).filter(|b: Seq<u8>| name_matches(ql, b))
                &&& r.new_label@ == new_branch_label_spec(query@)
                &&& r.pull_label@ == pull_label_spec(self.sync.pulling, self.sync.behind)
            }),
    {
        let q = trim_bytes(query);
        let ql = to_lower(&q);
        let recent = recent_matching(&self.branch.list, &self.current_branch, &ql);
        let all = sort_names_by_key(matching_keyed(&self.branch.list, &ql));
        let remotes = matching(&self.branch.remotes, &ql);
        let new_label = if ql.len() == 0 {
            "+ New Branch".as_bytes_vec()
        } else {
            concat(&"+ New Branch  ".as_bytes_vec(), &quoted_bytes(&q))
        };
        let pull_label = if self.sync.pulling {
            "↓ Pulling…".as_bytes_vec()
        } else {
            match self.sync.behind {
                Some(n) if n > 0 => {
                    let a = concat(&"↓ Pull  (".as_bytes_vec(), &decimal(n));
                    concat(&a, &")".as_bytes_vec())
                },
                _ => "↓ Pull".as_bytes_vec(),
            }
        };
        BranchPopup { recent, all, remotes, new_label, pull_label }
    }
}

} // verus!
