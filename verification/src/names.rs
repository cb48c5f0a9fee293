//! Names: parsing a typed path, and picking a free name for a pasted or copied file
//! (Finder style: "name copy.ext", "name copy 2.ext", …).
use vstd::prelude::*;
use crate::bytes::{bytes_eq, concat, copy_bytes, decimal, decimal_spec, split_name, split_name_spec};
use crate::path::{lemma_parts_view_push, parts_view, FsPath, PathV};

verus! {

/// Close the component being read: empty and `.` components are dropped.
pub open spec fn flush(parts: Seq<Seq<u8>>, cur: Seq<u8>) -> Seq<Seq<u8>> {
    if cur.len() == 0 || cur == seq![46u8] {
        parts
    } else {
        parts.push(cur)
    }
}

/// The components read so far and the component being read, over `b`.
pub open spec fn comps_state(b: Seq<u8>) -> (Seq<Seq<u8>>, Seq<u8>)
    decreases b.len(),
{
    if b.len() == 0 {
        (Seq::empty(), Seq::empty())
    } else {
        let st = comps_state(b.drop_last());
        if b.last() == 47u8 {
            (flush(st.0, st.1), Seq::empty())
        } else {
            (st.0, st.1.push(b.last()))
        }
    }
}

/// `PathBuf::from` on a `/`-separated string: rooted when it starts with `/`, its
/// non-empty components in order, `.` components dropped.
pub open spec fn parse_path_spec(b: Seq<u8>) -> PathV {
    (b.len() > 0 && b[0] == 47u8, flush(comps_state(b).0, comps_state(b).1))
}

/// Parse a typed path (see [`parse_path_spec`]).
pub fn path_from_bytes(b: &Vec<u8>) -> (r: FsPath)
    ensures
        r@ == parse_path_spec(b@),
{
    let mut parts: Vec<Vec<u8>> = Vec::new();
    let mut cur: Vec<u8> = Vec::new();
    let mut i: usize = 0;
    while i < b.len()
        invariant
            i <= b@.len(),
            (parts_view(parts@), cur@) == comps_state(b@.subrange(0, i as int)),
        decreases b@.len() - i,
    {
        assert(b@.subrange(0, i + 1).drop_last() =~= b@.subrange(0, i as int));
        if b[i] == 47u8 {
            let keep = !(cur.len() == 0 || (cur.len() == 1 && cur[0] == 46u8));
            proof {
                if cur@.len() == 1 && cur@[0] == 46u8 {
                    assert(cur@ =~= seq![46u8]);
                }
            }
            if keep {
                proof {
                    lemma_parts_view_push(parts@, cur);
                }
                parts.push(cur);
            }
            cur = Vec::new();
        } else {
            cur.push(b[i]);
        }
        i = i + 1;
    }
    assert(b@.subrange(0, i as int) =~= b@);
    let keep = !(cur.len() == 0 || (cur.len() == 1 && cur[0] == 46u8));
    proof {
        if cur@.len() == 1 && cur@[0] == 46u8 {
            assert(cur@ =~= seq![46u8]);
        }
    }
    if keep {
        proof {
            lemma_parts_view_push(parts@, cur);
        }
        parts.push(cur);
    }
    let absolute = b.len() > 0 && b[0] == 47u8;
    FsPath::from_parts(parts, absolute)
}

/// The bytes of " copy".
pub open spec fn copy_word() -> Seq<u8> {
    seq![32u8, 99u8, 111u8, 112u8, 121u8]
}

/// Candidate `i` for a free name: the name itself, then "stem copy.ext", then
/// "stem copy 2.ext", "stem copy 3.ext", ….
pub open spec fn candidate_spec(name: Seq<u8>, i: nat) -> Seq<u8> {
    let (stem, ext) = split_name_spec(name);
    if i == 0 {
        name
    } else if i == 1 {
        stem + copy_word() + ext
    } else {
        stem + copy_word() + seq![32u8] + decimal_spec(i) + ext
    }
}

/// The number of candidates tried before giving up.
pub const CANDIDATE_LIMIT: usize = 10000;

/// The first free candidate among the first `CANDIDATE_LIMIT`, else "stem copy.ext".
pub open spec fn unique_name_spec(name: Seq<u8>, taken: Set<Seq<u8>>) -> Seq<u8> {
    if exists|i: nat| i < CANDIDATE_LIMIT && !taken.contains(#[trigger] candidate_spec(name, i)) {
        candidate_spec(
            name,
            choose|i: nat|
                i < CANDIDATE_LIMIT && !taken.contains(#[trigger] candidate_spec(name, i)) && forall|j: nat|
                    j < i ==> taken.contains(#[trigger] candidate_spec(name, j)),
        )
    } else {
        candidate_spec(name, 1)
    }
}

/// The names in a list.
pub open spec fn name_set(v: Seq<Vec<u8>>) -> Set<Seq<u8>> {
    Set::new(|x: Seq<u8>| exists|k: int| 0 <= k < v.len() && (#[trigger] v[k])@ == x)
}

/// Whether `x` is one of `names`.
pub fn name_taken(names: &Vec<Vec<u8>>, x: &Vec<u8>) -> (r: bool)
    ensures
        r == name_set(names@).contains(x@),
{
    let mut k: usize = 0;
    while k < names.len()
        invariant
            k <= names@.len(),
            forall|j: int| 0 <= j < k ==> (#[trigger] names@[j])@ != x@,
        decreases names@.len() - k,
    {
        if bytes_eq(&names[k], x) {
            return true;
        }
        k = k + 1;
    }
    false
}

/// Candidate `i` (see [`candidate_spec`]).
pub fn candidate(name: &Vec<u8>, i: usize) -> (r: Vec<u8>)
    ensures
        r@ == candidate_spec(name@, i as nat),
{
    if i == 0 {
        return copy_bytes(name);
    }
    let (stem, ext) = split_name(name);
    let mut word: Vec<u8> = Vec::new();
    word.push(32u8);
    word.push(99u8);
    word.push(111u8);
    word.push(112u8);
    word.push(121u8);
    assert(word@ =~= copy_word());
    let base = concat(&stem, &word);
    if i == 1 {
        concat(&base, &ext)
    } else {
        let mut sp: Vec<u8> = Vec::new();
        sp.push(32u8);
        let with_sp = concat(&base, &sp);
        let digits = decimal(i);
        let with_num = concat(&with_sp, &digits);
        let r = concat(&with_num, &ext);
        assert(sp@ =~= seq![32u8]);
        r
    }
}

/// A name not among `taken` for a copy of `name` (see [`unique_name_spec`]).
pub fn unique_name(name: &Vec<u8>, taken: &Vec<Vec<u8>>) -> (r: Vec<u8>)
    ensures
        r@ == unique_name_spec(name@, name_set(taken@)),
{
    let ghost t = name_set(taken@);
    let mut i: usize = 0;
    while i < CANDIDATE_LIMIT
        invariant
            i <= CANDIDATE_LIMIT,
            t == name_set(taken@),
            forall|j: nat| j < i ==> t.contains(#[trigger] candidate_spec(name@, j)),
        decreases CANDIDATE_LIMIT - i,
    {
        let c = candidate(name, i);
        if !name_taken(taken, &c) {
            proof {
                let k = choose|k: nat|
                    k < CANDIDATE_LIMIT && !t.contains(#[trigger] candidate_spec(name@, k)) && forall|j: nat|
                        j < k ==> t.contains(#[trigger] candidate_spec(name@, j));
                assert(!t.contains(candidate_spec(name@, i as nat)));
                if k < i {
                    assert(t.contains(candidate_spec(name@, k)));
                }
                if k > i {
                    assert(t.contains(candidate_spec(name@, i as nat)));
                }
            }
            return c;
        }
        i = i + 1;
    }
    proof {
        if exists|k: nat| k < CANDIDATE_LIMIT && !t.contains(#[trigger] candidate_spec(name@, k)) {
            let k = choose|k: nat| k < CANDIDATE_LIMIT && !t.contains(#[trigger] candidate_spec(name@, k));
            assert(t.contains(candidate_spec(name@, k)));
        }
    }
    candidate(name, 1)
}

} // verus!
