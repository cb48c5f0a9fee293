//! File-system paths as component lists, with the component semantics of
//! `std::path::Path`: equality, `starts_with`, `parent`, `file_name`, `join` and
//! `ancestors` all work on whole components. The repo root is the empty relative path.
use vstd::prelude::*;
use crate::bytes::{bytes_eq, copy_bytes};

verus! {

/// A path: an optional root plus its normal components (each a UTF-8 byte string).
pub struct FsPath {
    pub absolute: bool,
    pub parts: Vec<Vec<u8>>,
}

/// The mathematical value of a path: whether it is rooted, and its components.
pub type PathV = (bool, Seq<Seq<u8>>);

pub open spec fn parts_view(parts: Seq<Vec<u8>>) -> Seq<Seq<u8>> {
    parts.map_values(|b: Vec<u8>| b@)
}

impl View for FsPath {
    type V = PathV;

    open spec fn view(&self) -> PathV {
        (self.absolute, parts_view(self.parts@))
    }
}

/// The values of a list of paths.
pub open spec fn paths_view(v: Seq<FsPath>) -> Seq<PathV> {
    v.map_values(|p: FsPath| p@)
}

/// The empty relative path `""` (the repo root).
pub open spec fn root_v() -> PathV {
    (false, Seq::empty())
}

pub open spec fn is_empty_v(p: PathV) -> bool {
    !p.0 && p.1.len() == 0
}

pub open spec fn is_prefix(a: Seq<Seq<u8>>, b: Seq<Seq<u8>>) -> bool {
    a.len() <= b.len() && b.subrange(0, a.len() as int) == a
}

/// `Path::starts_with`: `base` is a whole-component prefix of `p`. Every path starts
/// with the empty path.
pub open spec fn starts_with_v(p: PathV, base: PathV) -> bool {
    is_empty_v(base) || (p.0 == base.0 && is_prefix(base.1, p.1))
}

/// `Path::join`: an absolute `rest` replaces the base, else its components are appended.
pub open spec fn join_v(base: PathV, rest: PathV) -> PathV {
    if rest.0 {
        rest
    } else {
        (base.0, base.1 + rest.1)
    }
}

/// `base` joined with the single component `name`.
pub open spec fn child_v(base: PathV, name: Seq<u8>) -> PathV {
    (base.0, base.1.push(name))
}

/// `Path::parent`: `None` for the empty path and for a bare root.
pub open spec fn parent_v(p: PathV) -> Option<PathV> {
    if p.1.len() == 0 {
        None
    } else {
        Some((p.0, p.1.drop_last()))
    }
}

/// The parent, or the empty path where there is none (`parent().unwrap_or_default()`).
pub open spec fn parent_or_root_v(p: PathV) -> PathV {
    match parent_v(p) {
        Some(q) => q,
        None => root_v(),
    }
}

/// `Path::file_name`: the last component.
pub open spec fn file_name_v(p: PathV) -> Option<Seq<u8>> {
    if p.1.len() == 0 {
        None
    } else {
        Some(p.1.last())
    }
}

/// `Path::strip_prefix(old)` then `new.join(rest)`, with `p == old` mapping to `new`:
/// where a path lands when `old` is renamed to `new`. `None` when `p` is not at or
/// under `old`.
pub open spec fn remap_v(p: PathV, old: PathV, new: PathV) -> Option<PathV> {
    if p == old {
        Some(new)
    } else if !starts_with_v(p, old) {
        None
    } else if is_empty_v(old) {
        Some(join_v(new, p))
    } else {
        Some((new.0, new.1 + p.1.skip(old.1.len() as int)))
    }
}

/// Components joined with `'/'` between them.
pub open spec fn join_slash(parts: Seq<Seq<u8>>) -> Seq<u8>
    decreases parts.len(),
{
    if parts.len() == 0 {
        Seq::empty()
    } else if parts.len() == 1 {
        parts[0]
    } else {
        join_slash(parts.drop_last()) + seq![47u8] + parts.last()
    }
}

/// How a path displays (`Path::display`): a leading `'/'` when rooted, then the
/// components joined with `'/'`.
pub open spec fn display_v(p: PathV) -> Seq<u8> {
    if p.0 {
        seq![47u8] + join_slash(p.1)
    } else {
        join_slash(p.1)
    }
}

/// The strict ancestors of `p` (`p.ancestors().skip(1)`): every shorter component
/// prefix, with the same root.
pub open spec fn is_strict_ancestor_v(a: PathV, p: PathV) -> bool {
    a.0 == p.0 && a.1.len() < p.1.len() && p.1.subrange(0, a.1.len() as int) == a.1
}

pub proof fn lemma_parts_view_push(parts: Seq<Vec<u8>>, b: Vec<u8>)
    ensures
        parts_view(parts.push(b)) == parts_view(parts).push(b@),
{
    assert(parts_view(parts.push(b)) =~= parts_view(parts).push(b@));
}

impl FsPath {
    /// The empty relative path (the repo root).
    pub fn root() -> (r: FsPath)
        ensures
            r@ == root_v(),
    {
        let r = FsPath { absolute: false, parts: Vec::new() };
        assert(r@.1 =~= Seq::<Seq<u8>>::empty());
        r
    }

    /// A relative path from its components.
    pub fn from_parts(parts: Vec<Vec<u8>>, absolute: bool) -> (r: FsPath)
        ensures
            r@ == (absolute, parts_view(parts@)),
    {
        FsPath { absolute, parts }
    }

    /// An owned copy.
    pub fn duplicate(&self) -> (r: FsPath)
        ensures
            r@ == self@,
    {
        let mut parts: Vec<Vec<u8>> = Vec::new();
        let mut i: usize = 0;
        while i < self.parts.len()
            invariant
                i <= self.parts.len(),
                parts_view(parts@) == parts_view(self.parts@).subrange(0, i as int),
            decreases self.parts.len() - i,
        {
            let c = copy_bytes(&self.parts[i]);
            proof {
                lemma_parts_view_push(parts@, c);
            }
            parts.push(c);
            i = i + 1;
            assert(parts_view(parts@) =~= parts_view(self.parts@).subrange(0, i as int));
        }
        assert(parts_view(self.parts@).subrange(0, i as int) =~= parts_view(self.parts@));
        FsPath { absolute: self.absolute, parts }
    }

    /// `as_os_str().is_empty()`.
    pub fn is_empty(&self) -> (r: bool)
        ensures
            r == is_empty_v(self@),
    {
        !self.absolute && self.parts.len() == 0
    }

    /// `Path::is_absolute`.
    pub fn is_absolute(&self) -> (r: bool)
        ensures
            r == self@.0,
    {
        self.absolute
    }

    /// Component-wise equality (`Path == Path`).
    pub fn same(&self, other: &FsPath) -> (r: bool)
        ensures
            r == (self@ == other@),
    {
        if self.absolute != other.absolute || self.parts.len() != other.parts.len() {
            proof {
                if self@ == other@ {
                    assert(self@.1.len() == self.parts@.len());
                    assert(other@.1.len() == other.parts@.len());
                }
            }
            return false;
        }
        let mut i: usize = 0;
        while i < self.parts.len()
            invariant
                i <= self.parts.len(),
                self.parts.len() == other.parts.len(),
                self@.1.subrange(0, i as int) == other@.1.subrange(0, i as int),
            decreases self.parts.len() - i,
        {
            if !bytes_eq(&self.parts[i], &other.parts[i]) {
                assert(self@.1[i as int] != other@.1[i as int]);
                return false;
            }
            assert(self@.1.subrange(0, i + 1) =~= self@.1.subrange(0, i as int).push(
                self@.1[i as int],
            ));
            assert(other@.1.subrange(0, i + 1) =~= other@.1.subrange(0, i as int).push(
                other@.1[i as int],
            ));
            i = i + 1;
        }
        assert(self@.1 =~= self@.1.subrange(0, i as int));
        assert(other@.1 =~= other@.1.subrange(0, i as int));
        true
    }

    /// Whether the first `n` components of `self` are exactly `base`'s components.
    fn parts_prefix(&self, base: &FsPath) -> (r: bool)
        ensures
            r == is_prefix(base@.1, self@.1),
    {
        if base.parts.len() > self.parts.len() {
            return false;
        }
        let n = base.parts.len();
        let mut i: usize = 0;
        while i < n
            invariant
                i <= n,
                n == base.parts.len(),
                n <= self.parts.len(),
                self@.1.subrange(0, i as int) == base@.1.subrange(0, i as int),
            decreases n - i,
        {
            if !bytes_eq(&self.parts[i], &base.parts[i]) {
                assert(self@.1.subrange(0, n as int)[i as int] == self@.1[i as int]);
                return false;
            }
            assert(self@.1.subrange(0, i + 1) =~= self@.1.subrange(0, i as int).push(
                self@.1[i as int],
            ));
            assert(base@.1.subrange(0, i + 1) =~= base@.1.subrange(0, i as int).push(
                base@.1[i as int],
            ));
            i = i + 1;
        }
        assert(base@.1 =~= base@.1.subrange(0, n as int));
        true
    }

    /// `Path::starts_with`.
    pub fn starts_with(&self, base: &FsPath) -> (r: bool)
        ensures
            r == starts_with_v(self@, base@),
    {
        if base.is_empty() {
            return true;
        }
        self.absolute == base.absolute && self.parts_prefix(base)
    }

    /// `Path::file_name`, as an owned byte string.
    pub fn file_name(&self) -> (r: Option<Vec<u8>>)
        ensures
            match r {
                Some(n) => file_name_v(self@) == Some(n@),
                None => file_name_v(self@) is None,
            },
    {
        if self.parts.len() == 0 {
            None
        } else {
            Some(copy_bytes(&self.parts[self.parts.len() - 1]))
        }
    }

    /// The first `n` components, with the same root.
    pub fn prefix(&self, n: usize) -> (r: FsPath)
        requires
            n <= self@.1.len(),
        ensures
            r@ == (self@.0, self@.1.subrange(0, n as int)),
    {
        let mut parts: Vec<Vec<u8>> = Vec::new();
        let mut i: usize = 0;
        while i < n
            invariant
                i <= n,
                n <= self.parts.len(),
                parts_view(parts@) == parts_view(self.parts@).subrange(0, i as int),
            decreases n - i,
        {
            let c = copy_bytes(&self.parts[i]);
            proof {
                lemma_parts_view_push(parts@, c);
            }
            parts.push(c);
            i = i + 1;
            assert(parts_view(parts@) =~= parts_view(self.parts@).subrange(0, i as int));
        }
        FsPath { absolute: self.absolute, parts }
    }

    /// `Path::parent`.
    pub fn parent(&self) -> (r: Option<FsPath>)
        ensures
            match r {
                Some(q) => parent_v(self@) == Some(q@),
                None => parent_v(self@) is None,
            },
    {
        if self.parts.len() == 0 {
            None
        } else {
            let q = self.prefix(self.parts.len() - 1);
            assert(q@.1 =~= self@.1.drop_last());
            Some(q)
        }
    }

    /// `parent().unwrap_or_default()`.
    pub fn parent_or_root(&self) -> (r: FsPath)
        ensures
            r@ == parent_or_root_v(self@),
    {
        match self.parent() {
            Some(q) => q,
            None => FsPath::root(),
        }
    }

    /// `self.join(name)` for a single component.
    pub fn child(&self, name: &Vec<u8>) -> (r: FsPath)
        ensures
            r@ == child_v(self@, name@),
    {
        let mut r = self.duplicate();
        let c = copy_bytes(name);
        proof {
            lemma_parts_view_push(r.parts@, c);
        }
        r.parts.push(c);
        r
    }

    /// `Path::join`.
    pub fn join(&self, rest: &FsPath) -> (r: FsPath)
        ensures
            r@ == join_v(self@, rest@),
    {
        if rest.absolute {
            return rest.duplicate();
        }
        let mut r = self.duplicate();
        let mut i: usize = 0;
        while i < rest.parts.len()
            invariant
                i <= rest.parts.len(),
                r@ == (self@.0, self@.1 + rest@.1.subrange(0, i as int)),
            decreases rest.parts.len() - i,
        {
            let c = copy_bytes(&rest.parts[i]);
            proof {
                lemma_parts_view_push(r.parts@, c);
            }
            r.parts.push(c);
            i = i + 1;
            assert(r@.1 =~= self@.1 + rest@.1.subrange(0, i as int));
        }
        assert(rest@.1.subrange(0, i as int) =~= rest@.1);
        r
    }

    /// The path as displayed (see [`display_v`]).
    pub fn display_bytes(&self) -> (r: Vec<u8>)
        ensures
            r@ == display_v(self@),
    {
        let mut out: Vec<u8> = Vec::new();
        if self.absolute {
            out.push(47u8);
        }
        let ghost pre = out@;
        let mut i: usize = 0;
        assert(parts_view(self.parts@.subrange(0, 0)) =~= Seq::<Seq<u8>>::empty());
        assert(pre + join_slash(Seq::<Seq<u8>>::empty()) =~= pre);
        while i < self.parts.len()
            invariant
                i <= self.parts@.len(),
                out@ == pre + join_slash(parts_view(self.parts@.subrange(0, i as int))),
            decreases self.parts@.len() - i,
        {
            let ghost prev = parts_view(self.parts@.subrange(0, i as int));
            let ghost next = parts_view(self.parts@.subrange(0, i + 1));
            assert(next.drop_last() =~= prev);
            assert(next.last() == self.parts@[i as int]@);
            if i > 0 {
                out.push(47u8);
            }
            let mut c = copy_bytes(&self.parts[i]);
            out.append(&mut c);
            assert(out@ =~= pre + join_slash(next));
            i = i + 1;
        }
        assert(self.parts@.subrange(0, self.parts@.len() as int) =~= self.parts@);
        out
    }

    /// The strict ancestors of `self`, nearest first (`ancestors().skip(1)`).
    pub fn strict_ancestors(&self) -> (r: Vec<FsPath>)
        ensures
            r@.len() == self@.1.len(),
            forall|k: int|
                0 <= k < r@.len() ==> (#[trigger] r@[k])@ == (self@.0, self@.1.subrange(
                    0,
                    self@.1.len() - 1 - k,
                )),
    {
        let mut r: Vec<FsPath> = Vec::new();
        let n = self.parts.len();
        let mut k: usize = 0;
        while k < n
            invariant
                k <= n,
                n == self@.1.len(),
                r@.len() == k,
                forall|j: int|
                    0 <= j < k ==> (#[trigger] r@[j])@ == (self@.0, self@.1.subrange(
                        0,
                        n - 1 - j,
                    )),
            decreases n - k,
        {
            let a = self.prefix(n - 1 - k);
            r.push(a);
            k = k + 1;
        }
        r
    }
}

/// If `p` is `old` or lives under it, `p` with the `old` prefix replaced by `new` (so
/// renaming a folder repoints every path beneath it); `None` when `p` is unrelated.
pub fn remap_under(p: &FsPath, old: &FsPath, new: &FsPath) -> (r: Option<FsPath>)
    ensures
        match r {
            Some(q) => remap_v(p@, old@, new@) == Some(q@),
            None => remap_v(p@, old@, new@) is None,
        },
{
    if p.same(old) {
        return Some(new.duplicate());
    }
    if !p.starts_with(old) {
        return None;
    }
    if old.is_empty() {
        return Some(new.join(p));
    }
    let mut r = new.duplicate();
    let start = old.parts.len();
    let mut i: usize = start;
    while i < p.parts.len()
        invariant
            start <= i <= p.parts.len(),
            start == old@.1.len(),
            r@ == (new@.0, new@.1 + p@.1.subrange(start as int, i as int)),
        decreases p.parts.len() - i,
    {
        let c = copy_bytes(&p.parts[i]);
        proof {
            lemma_parts_view_push(r.parts@, c);
        }
        r.parts.push(c);
        i = i + 1;
        assert(r@.1 =~= new@.1 + p@.1.subrange(start as int, i as int));
    }
    assert(p@.1.subrange(start as int, i as int) =~= p@.1.skip(start as int));
    Some(r)
}

/// Renaming `old` to `new` and back returns every path at or under `old` to where it was.
pub proof fn law_remap_round_trip(p: PathV, old: PathV, new: PathV)
    requires
        remap_v(p, old, new) is Some,
        !is_empty_v(old),
        !is_empty_v(new),
        old.0 == new.0,
    ensures
        remap_v(remap_v(p, old, new).unwrap(), new, old) == Some(p),
{
    let q = remap_v(p, old, new).unwrap();
    if p == old {
        assert(q == new);
    } else {
        assert(q == (new.0, new.1 + p.1.skip(old.1.len() as int)));
        assert(q.1.subrange(0, new.1.len() as int) =~= new.1);
        assert(starts_with_v(q, new));
        let back = (old.0, old.1 + q.1.skip(new.1.len() as int));
        assert(q.1.skip(new.1.len() as int) =~= p.1.skip(old.1.len() as int));
        assert(p.1 =~= p.1.subrange(0, old.1.len() as int) + p.1.skip(old.1.len() as int));
        assert(back.1 =~= p.1);
        if q == new {
            assert(q.1.len() == new.1.len());
            assert(p.1.len() == old.1.len());
            assert(p.1 =~= old.1);
        }
    }
}

/// Whether some element of `v` is the path `x`.
pub open spec fn has_path(v: Seq<FsPath>, x: PathV) -> bool {
    exists|i: int| 0 <= i < v.len() && (#[trigger] v[i])@ == x
}

/// A list of paths read as a set.
pub open spec fn path_set(v: Seq<FsPath>) -> Set<PathV> {
    Set::new(|x: PathV| has_path(v, x))
}

/// Index of the first element of `v` equal to `p`.
pub fn position_path(v: &Vec<FsPath>, p: &FsPath) -> (r: Option<usize>)
    ensures
        match r {
            Some(i) => i < v@.len() && v@[i as int]@ == p@ && forall|j: int|
                0 <= j < i ==> (#[trigger] v@[j])@ != p@,
            None => !has_path(v@, p@),
        },
{
    let mut i: usize = 0;
    while i < v.len()
        invariant
            i <= v.len(),
            forall|j: int| 0 <= j < i ==> (#[trigger] v@[j])@ != p@,
        decreases v.len() - i,
    {
        if v[i].same(p) {
            return Some(i);
        }
        i = i + 1;
    }
    None
}

/// `v.contains(p)`.
pub fn contains_path(v: &Vec<FsPath>, p: &FsPath) -> (r: bool)
    ensures
        r == has_path(v@, p@),
{
    position_path(v, p).is_some()
}

/// A copy of a list of paths.
pub fn copy_paths(v: &Vec<FsPath>) -> (r: Vec<FsPath>)
    ensures
        paths_view(r@) == paths_view(v@),
{
    let mut r: Vec<FsPath> = Vec::new();
    let mut i: usize = 0;
    while i < v.len()
        invariant
            i <= v@.len(),
            paths_view(r@) == paths_view(v@.subrange(0, i as int)),
        decreases v@.len() - i,
    {
        let ghost before = r@;
        r.push(v[i].duplicate());
        assert(paths_view(r@) =~= paths_view(before).push(v@[i as int]@));
        assert(paths_view(v@.subrange(0, i + 1)) =~= paths_view(v@.subrange(0, i as int)).push(v@[i as int]@));
        i = i + 1;
    }
    assert(v@.subrange(0, v@.len() as int) =~= v@);
    r
}

/// `set.insert(p)`: appended when absent, the list unchanged otherwise.
pub fn insert_path(v: &mut Vec<FsPath>, p: FsPath)
    ensures
        has_path(old(v)@, p@) ==> final(v)@ == old(v)@,
        !has_path(old(v)@, p@) ==> final(v)@ == old(v)@.push(p),
        path_set(final(v)@) == path_set(old(v)@).insert(p@),
{
    if !contains_path(v, &p) {
        let ghost pv = p@;
        v.push(p);
        assert forall|x: PathV| has_path(v@, x) <==> (has_path(old(v)@, x) || x == pv) by {
            if has_path(v@, x) {
                let i = choose|i: int| 0 <= i < v@.len() && (#[trigger] v@[i])@ == x;
                if i < old(v)@.len() {
                    assert(old(v)@[i] == v@[i]);
                }
            }
            if has_path(old(v)@, x) {
                let i = choose|i: int| 0 <= i < old(v)@.len() && (#[trigger] old(v)@[i])@ == x;
                assert(v@[i] == old(v)@[i]);
            }
            if x == pv {
                assert(v@[old(v)@.len() as int]@ == x);
            }
        }
        assert(path_set(v@) =~= path_set(old(v)@).insert(pv));
    } else {
        assert(path_set(old(v)@) =~= path_set(old(v)@).insert(p@));
    }
}

/// `set.remove(p)`: every element equal to `p` dropped, the others kept in order.
/// Returns whether `p` was present.
pub proof fn lemma_has_path_push(s: Seq<FsPath>, e: FsPath, x: PathV)
    ensures
        has_path(s.push(e), x) <==> (has_path(s, x) || e@ == x),
{
    if has_path(s.push(e), x) {
        let k = choose|k: int| 0 <= k < s.push(e).len() && (#[trigger] s.push(e)[k])@ == x;
        if k < s.len() {
            assert(s[k] == s.push(e)[k]);
        }
    }
    if has_path(s, x) {
        let k = choose|k: int| 0 <= k < s.len() && (#[trigger] s[k])@ == x;
        assert(s.push(e)[k] == s[k]);
    }
    if e@ == x {
        assert(s.push(e)[s.len() as int]@ == x);
    }
}

pub proof fn lemma_filter_push<A>(s: Seq<A>, e: A, f: spec_fn(A) -> bool)
    ensures
        s.push(e).filter(f) == if f(e) {
            s.filter(f).push(e)
        } else {
            s.filter(f)
        },
{
    reveal(Seq::filter);
    assert(s.push(e).drop_last() =~= s);
}

pub fn remove_path(v: &mut Vec<FsPath>, p: &FsPath) -> (r: bool)
    ensures
        r == has_path(old(v)@, p@),
        path_set(final(v)@) == path_set(old(v)@).remove(p@),
        paths_view(final(v)@) == paths_view(old(v)@).filter(|x: PathV| x != p@),
{
    let ghost pv = p@;
    let ghost keep = |x: PathV| x != pv;
    let ghost orig = v@;
    let mut out: Vec<FsPath> = Vec::new();
    let mut found = false;
    let mut i: usize = 0;
    while i < v.len()
        invariant
            i <= v@.len(),
            v@ == orig,
            pv == p@,
            keep == (|x: PathV| x != pv),
            paths_view(out@) == paths_view(orig.subrange(0, i as int)).filter(keep),
            found == has_path(orig.subrange(0, i as int), pv),
            forall|x: PathV| #[trigger]
                has_path(out@, x) <==> (has_path(orig.subrange(0, i as int), x) && x != pv),
        decreases v@.len() - i,
    {
        let ghost pre = orig.subrange(0, i as int);
        let ghost e = orig[i as int];
        let ghost out_old = out@;
        assert(forall|x: PathV| #[trigger]
            has_path(out_old, x) <==> (has_path(pre, x) && x != pv));
        assert(orig.subrange(0, i + 1) =~= pre.push(e));
        assert(paths_view(pre.push(e)) =~= paths_view(pre).push(e@));
        proof {
            lemma_filter_push(paths_view(pre), e@, keep);
        }
        let is_p = v[i].same(p);
        assert(v@[i as int] == e);
        if is_p {
            found = true;
            assert(e@ == pv);
            assert forall|x: PathV| #[trigger]
                has_path(out@, x) <==> (has_path(pre.push(e), x) && x != pv) by {
                lemma_has_path_push(pre, e, x);
                assert(has_path(out_old, x) <==> (has_path(pre, x) && x != pv));
            }
        } else {
            let c = v[i].duplicate();
            assert(c@ == e@);
            assert(e@ != pv);
            out.push(c);
            assert(paths_view(out@) =~= paths_view(out_old).push(e@));
            assert forall|x: PathV| #[trigger]
                has_path(out@, x) <==> (has_path(pre.push(e), x) && x != pv) by {
                lemma_has_path_push(pre, e, x);
                lemma_has_path_push(out_old, c, x);
                assert(has_path(out_old, x) <==> (has_path(pre, x) && x != pv));
            }
        }
        proof {
            lemma_has_path_push(pre, e, pv);
        }
        i = i + 1;
    }
    assert(orig.subrange(0, i as int) =~= orig);
    assert((|x: PathV| x != p@) == keep);
    *v = out;
    assert(path_set(v@) =~= path_set(orig).remove(pv));
    found
}

/// Toggle membership of `p`: removed when present, inserted otherwise.
pub fn toggle_path(v: &mut Vec<FsPath>, p: FsPath)
    ensures
        path_set(final(v)@) == if has_path(old(v)@, p@) {
            path_set(old(v)@).remove(p@)
        } else {
            path_set(old(v)@).insert(p@)
        },
{
    if !remove_path(v, &p) {
        insert_path(v, p);
    }
}

/// Toggling the same path twice leaves the set as it was.
pub proof fn law_toggle_twice(s: Set<PathV>, p: PathV)
    ensures
        (if s.contains(p) { s.remove(p) } else { s.insert(p) }).contains(p) ==> (if s.contains(
            p,
        ) {
            s.remove(p)
        } else {
            s.insert(p)
        }).remove(p) == s,
        !(if s.contains(p) { s.remove(p) } else { s.insert(p) }).contains(p) ==> (if s.contains(
            p,
        ) {
            s.remove(p)
        } else {
            s.insert(p)
        }).insert(p) == s,
{
    if s.contains(p) {
        assert(s.remove(p).insert(p) =~= s);
    } else {
        assert(s.insert(p).remove(p) =~= s);
    }
}

} // verus!
