//! File operations on the Browse tree: the new-file / new-folder / rename prompt, moves
//! (repointing every piece of Browse state under the moved path), drag and drop, the
//! tree clipboard, paste targets and free names, and deletion. The host performs the
//! disk work each decision asks for and reports back.
use vstd::prelude::*;
use vstd::string::StrSliceExecFns;
use vstd::string::StringSliceAdditionalSpecFns;
use crate::bytes::concat;
use crate::browse::{opt_view, tabs_after_open};
use crate::branch_list::{trim_bytes, trimmed};
use crate::model::{BrowseState, DeleteTarget, Effect, Kyde, Mode, MoveKind, NamePrompt, TreeClip};
use crate::names::{name_set, parse_path_spec, path_from_bytes, unique_name, unique_name_spec};
use crate::path::{
    child_v, file_name_v, insert_path, is_empty_v, is_strict_ancestor_v, join_v,
    parent_or_root_v, parent_v, path_set, paths_view, remap_under, remap_v, remove_path,
    root_v, starts_with_v, FsPath, PathV
};

verus! {

/// The format of an image on the clipboard.
#[derive(Clone, Copy, PartialEq, Eq, Structural, Debug)]
pub enum ImageFormat {
    Png,
    Jpeg,
    Gif,
    Webp,
    Bmp,
    Tiff,
    Svg,
}

pub open spec fn image_ext_spec(format: ImageFormat) -> Seq<u8> {
    match format {
        ImageFormat::Png => "png".spec_bytes(),
        ImageFormat::Jpeg => "jpg".spec_bytes(),
        ImageFormat::Gif => "gif".spec_bytes(),
        ImageFormat::Webp => "webp".spec_bytes(),
        ImageFormat::Bmp => "bmp".spec_bytes(),
        ImageFormat::Tiff => "tiff".spec_bytes(),
        ImageFormat::Svg => "svg".spec_bytes(),
    }
}

/// The file extension for a pasted image of `format`.
pub fn image_ext(format: ImageFormat) -> (r: Vec<u8>)
    ensures
        r@ == image_ext_spec(format),
{
    match format {
        ImageFormat::Png => "png".as_bytes_vec(),
        ImageFormat::Jpeg => "jpg".as_bytes_vec(),
        ImageFormat::Gif => "gif".as_bytes_vec(),
        ImageFormat::Webp => "webp".as_bytes_vec(),
        ImageFormat::Bmp => "bmp".as_bytes_vec(),
        ImageFormat::Tiff => "tiff".as_bytes_vec(),
        ImageFormat::Svg => "svg".as_bytes_vec(),
    }
}

/// The name a pasted image is saved under (before making it free in its folder):
/// "image." and its format's extension.
pub fn pasted_image_name(format: ImageFormat) -> (r: Vec<u8>)
    ensures
        r@ == "image.".spec_bytes() + image_ext_spec(format),
{
    concat(&"image.".as_bytes_vec(), &image_ext(format))
}

/// A disk operation the host performs for a decision.
pub enum FsOp {
    CreateFile(FsPath),
    CreateFolder(FsPath),
    Rename { from: FsPath, to: FsPath, kind: MoveKind },
}

/// Where a path lands after `old` moved to `new` (unchanged when unrelated).
pub open spec fn moved_v(p: PathV, old: PathV, new: PathV) -> PathV {
    match remap_v(p, old, new) {
        Some(q) => q,
        None => p,
    }
}

/// A list of paths after `old` moved to `new`.
pub open spec fn moved_all(v: Seq<PathV>, old: PathV, new: PathV) -> Seq<PathV> {
    v.map_values(|p: PathV| moved_v(p, old, new))
}

/// Every path of `v` repointed after `old` moved to `new`.
pub fn remap_all(v: &mut Vec<FsPath>, from: &FsPath, to: &FsPath)
    ensures
        paths_view(final(v)@) == moved_all(paths_view(old(v)@), from@, to@),
{
    let ghost orig = paths_view(v@);
    let mut i: usize = 0;
    while i < v.len()
        invariant
            i <= v@.len(),
            v@.len() == orig.len(),
            forall|j: int| 0 <= j < i ==> (#[trigger] v@[j])@ == moved_v(orig[j], from@, to@),
            forall|j: int| i <= j < v@.len() ==> (#[trigger] v@[j])@ == orig[j],
        decreases v@.len() - i,
    {
        match remap_under(&v[i], from, to) {
            Some(n) => {
                v.set(i, n);
            },
            None => {},
        }
        i = i + 1;
    }
    assert(paths_view(v@) =~= moved_all(orig, from@, to@));
}

/// The target of a drop of `src` onto folder `dest`: `None` when nothing should move —
/// `src` has no name, already lives in `dest`, or `dest` is `src` or lies inside it.
pub open spec fn drop_target(src: PathV, dest: PathV) -> Option<PathV> {
    match file_name_v(src) {
        None => None,
        Some(name) => if parent_or_root_v(src) == dest || dest == src || starts_with_v(dest, src) {
            None
        } else {
            Some(child_v(dest, name))
        },
    }
}

/// The paths a clipboard op acts on: the multi-selection if any, else the selected row;
/// the repo root and absolute (scratch) paths are left out.
pub open spec fn movable(p: PathV) -> bool {
    !is_empty_v(p) && !p.0
}

/// Filtering a list whose elements all pass keeps it whole.
pub proof fn lemma_filter_all<A>(s: Seq<A>, f: spec_fn(A) -> bool)
    requires
        forall|i: int| 0 <= i < s.len() ==> f(#[trigger] s[i]),
    ensures
        s.filter(f) == s,
    decreases s.len(),
{
    if s.len() == 0 {
        reveal(Seq::filter);
        assert(s.filter(f) =~= s);
    } else {
        let pre = s.drop_last();
        assert forall|i: int| 0 <= i < pre.len() implies f(#[trigger] pre[i]) by {
            assert(pre[i] == s[i]);
        }
        lemma_filter_all(pre, f);
        crate::path::lemma_filter_push(pre, s.last(), f);
        assert(pre.push(s.last()) =~= s);
    }
}

/// Keep the movable paths of `v`, in order.
pub fn movable_only(v: &Vec<FsPath>) -> (r: Vec<FsPath>)
    ensures
        paths_view(r@) == paths_view(v@).filter(|p: PathV| movable(p)),
{
    let ghost f = |p: PathV| movable(p);
    let mut r: Vec<FsPath> = Vec::new();
    let mut i: usize = 0;
    while i < v.len()
        invariant
            i <= v@.len(),
            f == (|p: PathV| movable(p)),
            paths_view(r@) == paths_view(v@.subrange(0, i as int)).filter(f),
        decreases v@.len() - i,
    {
        let ghost pre = v@.subrange(0, i as int);
        assert(v@.subrange(0, i + 1) =~= pre.push(v@[i as int]));
        assert(paths_view(pre.push(v@[i as int])) =~= paths_view(pre).push(v@[i as int]@));
        proof {
            crate::path::lemma_filter_push(paths_view(pre), v@[i as int]@, f);
        }
        if !v[i].is_empty() && !v[i].is_absolute() {
            let c = v[i].duplicate();
            let ghost r0 = r@;
            r.push(c);
            assert(paths_view(r@) =~= paths_view(r0).push(c@));
        }
        i = i + 1;
    }
    assert(v@.subrange(0, i as int) =~= v@);
    r
}

/// One move or copy of a paste.
pub enum PasteStep {
    /// Move (a cut) `from` to `to`.
    Move { from: FsPath, to: FsPath },
    /// Copy `from` to `to`, recursively for a folder.
    Copy { from: FsPath, to: FsPath },
}

/// A paste step as a value: whether it moves, its source and its destination.
pub open spec fn step_v(s: PasteStep) -> (bool, PathV, PathV) {
    match s {
        PasteStep::Move { from, to } => (true, from@, to@),
        PasteStep::Copy { from, to } => (false, from@, to@),
    }
}

pub open spec fn steps_view(v: Seq<PasteStep>) -> Seq<(bool, PathV, PathV)> {
    v.map_values(|s: PasteStep| step_v(s))
}

/// Whether a cut of `src` into `dest` is skipped: it is there already, or `dest` is
/// `src` itself or inside it.
pub open spec fn cut_skipped(src: PathV, dest: PathV) -> bool {
    parent_or_root_v(src) == dest || dest == src || starts_with_v(dest, src)
}

/// The steps of pasting the first `n` of `paths` into `dest`, with the names taken in it
/// afterwards: a cut moves each named path not skipped; a copy takes a free name (see
/// [`unique_name_spec`]), which is taken from then on. Unnamed paths are skipped.
pub open spec fn paste_state(
    paths: Seq<FsPath>,
    dest: PathV,
    cut: bool,
    taken: Set<Seq<u8>>,
    n: nat,
) -> (Seq<(bool, PathV, PathV)>, Set<Seq<u8>>)
    decreases n,
{
    if n == 0 {
        (Seq::empty(), taken)
    } else {
        let (steps, t) = paste_state(paths, dest, cut, taken, (n - 1) as nat);
        let src = paths[n - 1]@;
        match file_name_v(src) {
            None => (steps, t),
            Some(name) => if cut {
                if cut_skipped(src, dest) {
                    (steps, t)
                } else {
                    (steps.push((true, src, child_v(dest, name))), t)
                }
            } else {
                let u = unique_name_spec(name, t);
                (steps.push((false, src, child_v(dest, u))), t.insert(u))
            },
        }
    }
}

/// Appending a name adds it to the set of names.
pub proof fn lemma_name_set_push(v: Seq<Vec<u8>>, x: Vec<u8>)
    ensures
        name_set(v.push(x)) == name_set(v).insert(x@),
{
    assert forall|y: Seq<u8>| name_set(v.push(x)).contains(y) <==> name_set(v).insert(x@).contains(y) by {
        if name_set(v.push(x)).contains(y) {
            let k = choose|k: int| 0 <= k < v.push(x).len() && (#[trigger] v.push(x)[k])@ == y;
            if k < v.len() {
                assert(v[k] == v.push(x)[k]);
            }
        }
        if name_set(v).contains(y) {
            let k = choose|k: int| 0 <= k < v.len() && (#[trigger] v[k])@ == y;
            assert(v.push(x)[k] == v[k]);
        }
        if y == x@ {
            assert(v.push(x)[v.len() as int]@ == y);
        }
    }
    assert(name_set(v.push(x)) =~= name_set(v).insert(x@));
}

/// The steps of pasting `paths` into `dest` (see [`paste_state`]), given the names
/// already in `dest` (`taken`).
pub fn paste_steps(paths: &Vec<FsPath>, dest: &FsPath, cut: bool, taken: &Vec<Vec<u8>>) -> (r: Vec<PasteStep>)
    ensures
        steps_view(r@) == paste_state(paths@, dest@, cut, name_set(taken@), paths@.len()).0,
{
    let mut names: Vec<Vec<u8>> = Vec::new();
    let mut k: usize = 0;
    while k < taken.len()
        invariant
            k <= taken@.len(),
            names@.len() == k,
            forall|j: int| 0 <= j < k ==> (#[trigger] names@[j])@ == taken@[j]@,
        decreases taken@.len() - k,
    {
        names.push(crate::bytes::copy_bytes(&taken[k]));
        k = k + 1;
    }
    assert(name_set(names@) =~= name_set(taken@)) by {
        assert forall|y: Seq<u8>| name_set(names@).contains(y) <==> name_set(taken@).contains(y) by {
            if name_set(names@).contains(y) {
                let j = choose|j: int| 0 <= j < names@.len() && (#[trigger] names@[j])@ == y;
                assert(taken@[j]@ == y);
            }
            if name_set(taken@).contains(y) {
                let j = choose|j: int| 0 <= j < taken@.len() && (#[trigger] taken@[j])@ == y;
                assert(names@[j]@ == y);
            }
        }
    }
    let mut r: Vec<PasteStep> = Vec::new();
    let mut i: usize = 0;
    while i < paths.len()
        invariant
            i <= paths@.len(),
            steps_view(r@) == paste_state(paths@, dest@, cut, name_set(taken@), i as nat).0,
            name_set(names@) == paste_state(paths@, dest@, cut, name_set(taken@), i as nat).1,
        decreases paths@.len() - i,
    {
        let src = &paths[i];
        match src.file_name() {
            None => {},
            Some(name) => {
                if cut {
                    let parent = src.parent_or_root();
                    let skip = parent.same(dest) || dest.same(src) || dest.starts_with(src);
                    if !skip {
                        let ghost before = r@;
                        let to = dest.child(&name);
                        r.push(PasteStep::Move { from: src.duplicate(), to });
                        assert(steps_view(r@) =~= steps_view(before).push(step_v(r@.last())));
                    }
                } else {
                    let u = unique_name(&name, &names);
                    let to = dest.child(&u);
                    let ghost before = r@;
                    r.push(PasteStep::Copy { from: src.duplicate(), to });
                    assert(steps_view(r@) =~= steps_view(before).push(step_v(r@.last())));
                    let ghost nb = names@;
                    names.push(u);
                    proof {
                        lemma_name_set_push(nb, names@.last());
                    }
                }
            },
        }
        i = i + 1;
    }
    r
}

impl Kyde {
    /// Paste the tree clipboard into `dest_dir` (a file pastes into its folder;
    /// `dest_is_file` read from disk), given the names already there (`taken`). Returns
    /// the destination folder and the moves (a cut) or copies to perform; a cut empties
    /// the clipboard. `None` when the tree clipboard is empty: the host then pastes what
    /// the system clipboard holds. The menu closes either way.
    pub fn paste_into(&mut self, dest_dir: FsPath, dest_is_file: bool, taken: &Vec<Vec<u8>>) -> (r: Option<(FsPath, Vec<PasteStep>)>)
        ensures
            !final(self).menu_open,
            ({
                let dest = if old(self).repo_root is Some && dest_is_file {
                    parent_or_root_v(dest_dir@)
                } else {
                    dest_dir@
                };
                match old(self).browse.clipboard {
                    None => r is None && final(self).browse.clipboard is None,
                    Some(clip) => {
                        &&& r matches Some(x) && x.0@ == dest && steps_view(x.1@) == paste_state(
                            clip.paths@,
                            dest,
                            clip.cut,
                            name_set(taken@),
                            clip.paths@.len(),
                        ).0
                        &&& if clip.cut {
                            final(self).browse.clipboard is None
                        } else {
                            final(self).browse.clipboard == old(self).browse.clipboard
                        }
                    },
                }
            }),
            *final(self) == (Kyde { menu_open: final(self).menu_open, browse: BrowseState { clipboard: final(self).browse.clipboard, ..old(self).browse }, ..*old(self) }),
    {
        self.menu_open = false;
        let dest = self.ensure_dest_dir(dest_dir, dest_is_file);
        let (steps, cut) = match &self.browse.clipboard {
            None => {
                return None;
            },
            Some(clip) => (paste_steps(&clip.paths, &dest, clip.cut, taken), clip.cut),
        };
        if cut {
            self.browse.clipboard = None;
        }
        Some((dest, steps))
    }

    /// Open the "new file" prompt for folder `dir` (`""` = repo root).
    pub fn start_new_file(&mut self, dir: FsPath) -> (effects: Vec<Effect>)
        ensures
            !final(self).menu_open,
            final(self).name_prompt matches Some(NamePrompt::NewFile(d)) && d@ == dir@,
            effects@ == seq![Effect::FocusNameInput],
            *final(self) == (Kyde { menu_open: false, name_prompt: final(self).name_prompt, ..*old(self) }),
    {
        self.start_name_prompt(NamePrompt::NewFile(dir))
    }

    /// Open the "new folder" prompt for folder `dir` (`""` = repo root).
    pub fn start_new_folder(&mut self, dir: FsPath) -> (effects: Vec<Effect>)
        ensures
            !final(self).menu_open,
            final(self).name_prompt matches Some(NamePrompt::NewFolder(d)) && d@ == dir@,
            effects@ == seq![Effect::FocusNameInput],
            *final(self) == (Kyde { menu_open: false, name_prompt: final(self).name_prompt, ..*old(self) }),
    {
        self.start_name_prompt(NamePrompt::NewFolder(dir))
    }

    /// Open a name prompt with an empty input.
    pub fn start_name_prompt(&mut self, prompt: NamePrompt) -> (effects: Vec<Effect>)
        ensures
            !final(self).menu_open,
            final(self).name_prompt == Some(prompt),
            effects@ == seq![Effect::FocusNameInput],
            *final(self) == (Kyde { menu_open: false, name_prompt: Some(prompt), ..*old(self) }),
    {
        self.menu_open = false;
        self.name_prompt = Some(prompt);
        let mut effects: Vec<Effect> = Vec::new();
        effects.push(Effect::FocusNameInput);
        effects
    }

    /// Open the "rename" prompt for `path`; the input is prefilled with the returned
    /// current name.
    pub fn start_rename(&mut self, path: FsPath) -> (r: (Vec<Effect>, Vec<u8>))
        ensures
            !final(self).menu_open,
            final(self).name_prompt matches Some(NamePrompt::Rename(p)) && p@ == path@,
            r.0@ == seq![Effect::FocusNameInput],
            r.1@ == match file_name_v(path@) {
                Some(n) => n,
                None => Seq::<u8>::empty(),
            },
            *final(self) == (Kyde { menu_open: false, name_prompt: final(self).name_prompt, ..*old(self) }),
    {
        self.menu_open = false;
        let cur = match path.file_name() {
            Some(n) => n,
            None => Vec::new(),
        };
        self.name_prompt = Some(NamePrompt::Rename(path));
        let mut effects: Vec<Effect> = Vec::new();
        effects.push(Effect::FocusNameInput);
        (effects, cur)
    }

    /// Dismiss the name prompt.
    pub fn cancel_name_prompt(&mut self) -> (effects: Vec<Effect>)
        ensures
            final(self).name_prompt is None,
            effects@ == seq![Effect::FocusRoot],
            *final(self) == (Kyde { name_prompt: None, ..*old(self) }),
    {
        self.name_prompt = None;
        let mut effects: Vec<Effect> = Vec::new();
        effects.push(Effect::FocusRoot);
        effects
    }

    /// Apply the name prompt with the typed `name`, white space cut at both ends: the file
    /// or folder to create inside the prompt's folder, or the rename of the prompt's path
    /// within its folder. A blank name just closes the prompt, as does renaming to the
    /// same path.
    pub fn confirm_name_prompt(&mut self, name: Vec<u8>) -> (r: (Vec<Effect>, Option<FsOp>))
        ensures
            *final(self) == (Kyde { name_prompt: None, ..*old(self) }),
            old(self).name_prompt is None ==> r.0@.len() == 0 && r.1 is None,
            old(self).name_prompt is Some ==> r.0@ == seq![Effect::FocusRoot],
            old(self).name_prompt is Some && trimmed(name@).len() == 0 ==> r.1 is None,
            trimmed(name@).len() > 0 ==> match old(self).name_prompt {
                Some(NamePrompt::NewFile(dir)) => r.1 matches Some(FsOp::CreateFile(p))
                    && p@ == join_v(dir@, parse_path_spec(trimmed(name@))),
                Some(NamePrompt::NewFolder(dir)) => r.1 matches Some(FsOp::CreateFolder(p))
                    && p@ == join_v(dir@, parse_path_spec(trimmed(name@))),
                Some(NamePrompt::Rename(path)) => {
                    let dst = match parent_v(path@) {
                        Some(d) => join_v(d, parse_path_spec(trimmed(name@))),
                        None => parse_path_spec(trimmed(name@)),
                    };
                    if dst == path@ {
                        r.1 is None
                    } else {
                        r.1 matches Some(FsOp::Rename { from, to, kind }) && from@ == path@ && to@ == dst
                            && kind == MoveKind::Rename
                    }
                },
                None => true,
            },
    {
        let prompt = self.name_prompt.take();
        let mut effects: Vec<Effect> = Vec::new();
        let prompt = match prompt {
            Some(p) => p,
            None => {
                return (effects, None);
            },
        };
        effects.push(Effect::FocusRoot);
        let name = trim_bytes(&name);
        if name.len() == 0 {
            return (effects, None);
        }
        let typed = path_from_bytes(&name);
        match prompt {
            NamePrompt::NewFile(dir) => (effects, Some(FsOp::CreateFile(dir.join(&typed)))),
            NamePrompt::NewFolder(dir) => (effects, Some(FsOp::CreateFolder(dir.join(&typed)))),
            NamePrompt::Rename(path) => {
                let dst = match path.parent() {
                    Some(d) => d.join(&typed),
                    None => typed,
                };
                (effects, self.move_path(&path, &dst, MoveKind::Rename))
            },
        }
    }

    /// `rel` resolved against the open project's root; `Err` when no project is open.
    pub fn project_abs(&self, rel: &FsPath) -> (r: Result<FsPath, ()>)
        ensures
            match self.repo_root {
                Some(root) => r matches Ok(p) && p@ == join_v(root@, rel@),
                None => r is Err,
            },
    {
        match &self.repo_root {
            Some(root) => Ok(root.join(rel)),
            None => Err(()),
        }
    }

    /// A file the prompt asked for was created: refresh, open it, and focus the editor.
    pub fn after_create_file(&mut self, rel: FsPath) -> (effects: Vec<Effect>)
        ensures
            opt_view(final(self).browse.open_path) == Some(rel@),
            final(self).browse.tabs_v() == tabs_after_open(old(self).browse.tabs_v(), opt_view(old(self).browse.preview_tab), rel@, false),
            effects@ == seq![
                Effect::Refresh,
                Effect::LoadOpenFile,
                Effect::ScrollTabIntoView,
                Effect::LoadFontPreview,
                Effect::FocusEditor,
            ],
            old(self).browse.wf() ==> final(self).browse.wf(),
            *final(self) == (Kyde {
                browse: BrowseState {
                    open_tabs: final(self).browse.open_tabs,
                    preview_tab: final(self).browse.preview_tab,
                    open_path: final(self).browse.open_path,
                    selected_path: final(self).browse.selected_path,
                    ..old(self).browse
                },
                ..*old(self)
            }),
    {
        let mut effects: Vec<Effect> = Vec::new();
        effects.push(Effect::Refresh);
        let mut opened = self.open_file(rel);
        effects.append(&mut opened);
        effects.push(Effect::FocusEditor);
        effects
    }

    /// A folder the prompt asked for was created: keep it in the tree (it is invisible to
    /// git while empty), expand down to it, select it, and refresh.
    pub fn after_create_folder(&mut self, rel: FsPath) -> (effects: Vec<Effect>)
        ensures
            path_set(final(self).browse.extra_dirs@) == path_set(old(self).browse.extra_dirs@).insert(rel@),
            path_set(final(self).browse.expanded@) == path_set(old(self).browse.expanded@).union(
                Set::new(|a: PathV| is_strict_ancestor_v(a, rel@) || a == root_v())),
            opt_view(final(self).browse.selected_path) == Some(rel@),
            effects@ == seq![Effect::Refresh],
            *final(self) == (Kyde { browse: BrowseState { selected_path: final(self).browse.selected_path, expanded: final(self).browse.expanded, extra_dirs: final(self).browse.extra_dirs, ..old(self).browse }, ..*old(self) }),
    {
        insert_path(&mut self.browse.extra_dirs, rel.duplicate());
        let ancs = rel.strict_ancestors();
        let ghost t = rel@;
        let ghost base = path_set(self.browse.expanded@);
        let ghost extra = self.browse.extra_dirs;
        let ghost pre = *self;
        let mut k: usize = 0;
        while k < ancs.len()
            invariant
                k <= ancs@.len(),
                ancs@.len() == t.1.len(),
                self.browse.extra_dirs == extra,
                *self == (Kyde { browse: BrowseState { expanded: self.browse.expanded, ..pre.browse }, ..pre }),
                pre == (Kyde { browse: BrowseState { extra_dirs: pre.browse.extra_dirs, ..old(self).browse }, ..*old(self) }),
                forall|m: int| 0 <= m < ancs@.len() ==> (#[trigger] ancs@[m])@ == (t.0, t.1.subrange(0, t.1.len() - 1 - m)),
                path_set(self.browse.expanded@) == base.union(Set::new(|a: PathV| exists|m: int| 0 <= m < k && (#[trigger] ancs@[m])@ == a)),
            decreases ancs@.len() - k,
        {
            let ghost before = path_set(self.browse.expanded@);
            insert_path(&mut self.browse.expanded, ancs[k].duplicate());
            k = k + 1;
            assert(path_set(self.browse.expanded@) =~= base.union(Set::new(|a: PathV| exists|m: int| 0 <= m < k && (#[trigger] ancs@[m])@ == a))) by {
                assert forall|a: PathV| path_set(self.browse.expanded@).contains(a) <==> (base.contains(a) || exists|m: int| 0 <= m < k && (#[trigger] ancs@[m])@ == a) by {
                    if exists|m: int| 0 <= m < k && (#[trigger] ancs@[m])@ == a {
                        let m = choose|m: int| 0 <= m < k && (#[trigger] ancs@[m])@ == a;
                        if m < k - 1 {
                            assert(exists|m2: int| 0 <= m2 < k - 1 && (#[trigger] ancs@[m2])@ == a);
                        }
                    }
                    if before.contains(a) && !base.contains(a) {
                        let m = choose|m: int| 0 <= m < k - 1 && (#[trigger] ancs@[m])@ == a;
                        assert(0 <= m < k);
                    }
                }
            }
        }
        let ghost mid = path_set(self.browse.expanded@);
        insert_path(&mut self.browse.expanded, FsPath::root());
        assert(Set::new(|a: PathV| exists|m: int| 0 <= m < k && (#[trigger] ancs@[m])@ == a) =~= Set::new(|a: PathV| is_strict_ancestor_v(a, t))) by {
            assert forall|a: PathV| (exists|m: int| 0 <= m < k && (#[trigger] ancs@[m])@ == a) <==> is_strict_ancestor_v(a, t) by {
                if is_strict_ancestor_v(a, t) {
                    let m = t.1.len() - 1 - a.1.len();
                    assert(ancs@[m]@ == a);
                }
            }
        }
        assert(path_set(self.browse.expanded@) =~= base.union(Set::new(|a: PathV| is_strict_ancestor_v(a, t) || a == root_v())));
        self.browse.selected_path = Some(rel);
        let mut effects: Vec<Effect> = Vec::new();
        effects.push(Effect::Refresh);
        effects
    }

    /// Start moving `from` to `to`: the rename the host must perform, or `None` when the
    /// two are the same path.
    pub fn move_path(&self, from: &FsPath, to: &FsPath, kind: MoveKind) -> (r: Option<FsOp>)
        ensures
            from@ == to@ ==> r is None,
            from@ != to@ ==> (r matches Some(FsOp::Rename { from: f, to: t, kind: k }) && f@ == from@
                && t@ == to@ && k == kind),
    {
        if to.same(from) {
            None
        } else {
            Some(FsOp::Rename { from: from.duplicate(), to: to.duplicate(), kind })
        }
    }

    /// The host moved `from` to `to` on disk: record the move in local history, repoint
    /// every piece of Browse state at or under `from` — the tabs, the active and selected
    /// paths, the expansion and the kept empty folders — then refresh and reopen the
    /// active file at its new path.
    #[verifier::rlimit(60)]
    pub fn finish_move(&mut self, from: &FsPath, to: &FsPath, kind: MoveKind) -> (effects: Vec<Effect>)
        ensures
            final(self).browse.tabs_v() == match opt_view(old(self).browse.open_path) {
                Some(o) => match remap_v(o, from@, to@) {
                    Some(n) => tabs_after_open(moved_all(old(self).browse.tabs_v(), from@, to@), opt_view(old(self).browse.preview_tab), n, false),
                    None => moved_all(old(self).browse.tabs_v(), from@, to@),
                },
                None => moved_all(old(self).browse.tabs_v(), from@, to@),
            },
            old(self).browse.wf() ==> final(self).browse.tabs_v() == moved_all(old(self).browse.tabs_v(), from@, to@),
            paths_view(final(self).browse.expanded@) == moved_all(paths_view(old(self).browse.expanded@), from@, to@),
            paths_view(final(self).browse.extra_dirs@) == moved_all(paths_view(old(self).browse.extra_dirs@), from@, to@),
            opt_view(final(self).browse.selected_path) == match (opt_view(old(self).browse.open_path), opt_view(old(self).browse.selected_path)) {
                (Some(o), _) if remap_v(o, from@, to@) is Some => remap_v(o, from@, to@),
                (_, Some(s)) => Some(moved_v(s, from@, to@)),
                (_, None) => None,
            },
            match opt_view(old(self).browse.open_path) {
                Some(o) => match remap_v(o, from@, to@) {
                    Some(n) => opt_view(final(self).browse.open_path) == Some(n) && effects@ == seq![
                        Effect::RecordMove(kind),
                        Effect::Refresh,
                        Effect::LoadOpenFile,
                        Effect::ScrollTabIntoView,
                        Effect::LoadFontPreview,
                    ],
                    None => opt_view(final(self).browse.open_path) == Some(o)
                        && effects@ == seq![Effect::RecordMove(kind), Effect::Refresh],
                },
                None => final(self).browse.open_path is None
                    && effects@ == seq![Effect::RecordMove(kind), Effect::Refresh],
            },
            *final(self) == (Kyde { browse: BrowseState { selected_path: final(self).browse.selected_path, expanded: final(self).browse.expanded, extra_dirs: final(self).browse.extra_dirs, open_tabs: final(self).browse.open_tabs, open_path: final(self).browse.open_path, preview_tab: final(self).browse.preview_tab, ..old(self).browse }, ..*old(self) }),
    {
        let ghost tabs0 = self.browse.tabs_v();
        remap_all(&mut self.browse.open_tabs, from, to);
        let reopen = match &self.browse.open_path {
            Some(o) => remap_under(o, from, to),
            None => None,
        };
        let new_sel = match &self.browse.selected_path {
            Some(sel) => remap_under(sel, from, to),
            None => None,
        };
        match new_sel {
            Some(n) => {
                self.browse.selected_path = Some(n);
            },
            None => {},
        }
        remap_all(&mut self.browse.expanded, from, to);
        remap_all(&mut self.browse.extra_dirs, from, to);
        let mut effects: Vec<Effect> = Vec::new();
        effects.push(Effect::RecordMove(kind));
        effects.push(Effect::Refresh);
        match reopen {
            Some(o) => {
                proof {
                    if old(self).browse.wf() {
                        let oo = opt_view(old(self).browse.open_path).unwrap();
                        let w = choose|w: int| 0 <= w < tabs0.len() && tabs0[w] == oo;
                        assert(self.browse.tabs_v()[w] == o@);
                    }
                }
                let mut opened = self.open_file(o);
                effects.append(&mut opened);
            },
            None => {},
        }
        effects
    }

    /// Drop the dragged `src` onto folder `dest_dir`: the move to perform, or `None` for
    /// a no-op drop (see [`drop_target`]). A real drop also expands `dest_dir`.
    pub fn drop_onto_dir(&mut self, src: FsPath, dest_dir: FsPath) -> (r: Option<FsOp>)
        ensures
            match drop_target(src@, dest_dir@) {
                Some(t) => {
                    &&& r matches Some(FsOp::Rename { from, to, kind }) && from@ == src@ && to@ == t
                        && kind == MoveKind::Move
                    &&& path_set(final(self).browse.expanded@) == path_set(old(self).browse.expanded@).insert(dest_dir@)
                    &&& *final(self) == (Kyde {
                        browse: BrowseState { expanded: final(self).browse.expanded, ..old(self).browse },
                        ..*old(self)
                    })
                },
                None => r is None && *final(self) == *old(self),
            },
    {
        let name = match src.file_name() {
            Some(n) => n,
            None => {
                return None;
            },
        };
        let src_parent = src.parent_or_root();
        if src_parent.same(&dest_dir) {
            return None;
        }
        if dest_dir.same(&src) || dest_dir.starts_with(&src) {
            return None;
        }
        let to = dest_dir.child(&name);
        insert_path(&mut self.browse.expanded, dest_dir);
        assert(to@ != src@) by {
            if to@ == src@ {
                assert(to@.1.len() == dest_dir@.1.len() + 1);
                assert(src@.1.drop_last() =~= dest_dir@.1);
                assert(parent_or_root_v(src@) == dest_dir@);
            }
        }
        Some(FsOp::Rename { from: src, to, kind: MoveKind::Move })
    }

    /// The tree paths a clipboard or keyboard op acts on: the multi-selection if any, else
    /// the selected row; the repo root and scratch (absolute) paths are left out.
    pub fn tree_selection(&self) -> (r: Vec<FsPath>)
        ensures
            paths_view(r@) == tree_selection_spec(self.browse),
    {
        if self.browse.multi_selected.len() == 0 {
            let mut r: Vec<FsPath> = Vec::new();
            match &self.browse.selected_path {
                Some(p) => {
                    if !p.is_empty() && !p.is_absolute() {
                        r.push(p.duplicate());
                        assert(paths_view(r@) =~= seq![p@]);
                    } else {
                        assert(paths_view(r@) =~= Seq::<PathV>::empty());
                    }
                },
                None => {
                    assert(paths_view(r@) =~= Seq::<PathV>::empty());
                },
            }
            r
        } else {
            movable_only(&self.browse.multi_selected)
        }
    }

    /// Put the movable `paths` on the tree clipboard (`cut`: a later paste moves them);
    /// with none left nothing is put there. The context menu closes either way.
    pub fn clip_paths(&mut self, paths: Vec<FsPath>, cut: bool)
        ensures
            !final(self).menu_open,
            paths_view(paths@).filter(|p: PathV| movable(p)).len() == 0 ==> final(self).browse.clipboard == old(self).browse.clipboard,
            paths_view(paths@).filter(|p: PathV| movable(p)).len() > 0 ==> (final(self).browse.clipboard matches Some(c)
                && paths_view(c.paths@) == paths_view(paths@).filter(|p: PathV| movable(p)) && c.cut == cut),
            *final(self) == (Kyde { menu_open: false, browse: BrowseState { clipboard: final(self).browse.clipboard, ..old(self).browse }, ..*old(self) }),
    {
        let kept = movable_only(&paths);
        self.menu_open = false;
        if kept.len() == 0 {
            return;
        }
        self.browse.clipboard = Some(TreeClip { paths: kept, cut });
    }

    /// The shared tail of a paste: reveal the destination, select the last pasted item,
    /// and refresh.
    pub fn finish_paste(&mut self, dest_dir: FsPath, last: Option<FsPath>) -> (effects: Vec<Effect>)
        ensures
            path_set(final(self).browse.expanded@) == path_set(old(self).browse.expanded@).insert(dest_dir@),
            opt_view(final(self).browse.selected_path) == match last {
                Some(l) => Some(l@),
                None => opt_view(old(self).browse.selected_path),
            },
            effects@ == seq![Effect::Refresh],
            *final(self) == (Kyde { browse: BrowseState { expanded: final(self).browse.expanded, selected_path: final(self).browse.selected_path, ..old(self).browse }, ..*old(self) }),
    {
        insert_path(&mut self.browse.expanded, dest_dir);
        match last {
            Some(l) => {
                self.browse.selected_path = Some(l);
            },
            None => {},
        }
        let mut effects: Vec<Effect> = Vec::new();
        effects.push(Effect::Refresh);
        effects
    }

    /// A free path in folder `dir_rel` for a copy named `name`, given the names already
    /// in that folder (`taken`): the name itself, else "name copy", "name copy 2", ….
    pub fn unique_dest(&self, dir_rel: &FsPath, name: &Vec<u8>, taken: &Vec<Vec<u8>>) -> (r: FsPath)
        ensures
            r@ == child_v(dir_rel@, unique_name_spec(name@, name_set(taken@))),
    {
        let n = unique_name(name, taken);
        dir_rel.child(&n)
    }

    /// Where an external (absolute) `src_abs` is copied into `dest_dir`: a free name there
    /// (`taken` = the names already in it); `None` when `src_abs` has no name.
    pub fn copy_external_into(&self, src_abs: &FsPath, dest_dir: &FsPath, taken: &Vec<Vec<u8>>) -> (r: Option<FsPath>)
        ensures
            match file_name_v(src_abs@) {
                Some(n) => r matches Some(p) && p@ == child_v(dest_dir@, unique_name_spec(n, name_set(taken@))),
                None => r is None,
            },
    {
        let name = match src_abs.file_name() {
            Some(n) => n,
            None => {
                return None;
            },
        };
        Some(self.unique_dest(dest_dir, &name, taken))
    }

    /// A paste destination that is a real folder (`""` = the repo root): a file becomes
    /// its folder (`dest_is_file` read from disk). The host creates the folder when
    /// missing. Without a project the destination is kept as it is.
    pub fn ensure_dest_dir(&self, dest_dir: FsPath, dest_is_file: bool) -> (r: FsPath)
        ensures
            r@ == if self.repo_root is Some && dest_is_file {
                parent_or_root_v(dest_dir@)
            } else {
                dest_dir@
            },
    {
        if self.repo_root.is_none() {
            return dest_dir;
        }
        if dest_is_file {
            dest_dir.parent_or_root()
        } else {
            dest_dir
        }
    }

    /// Files dragged in from outside: the folder they are copied into (see
    /// [`Kyde::ensure_dest_dir`]); `None` when nothing was dropped. The host copies each
    /// source to [`Kyde::copy_external_into`]'s path and finishes with
    /// [`Kyde::finish_paste`].
    pub fn drop_external_paths(&self, paths: &Vec<FsPath>, dest_dir: FsPath, dest_is_file: bool) -> (r: Option<FsPath>)
        ensures
            if paths@.len() == 0 {
                r is None
            } else {
                r matches Some(d) && d@ == if self.repo_root is Some && dest_is_file {
                    parent_or_root_v(dest_dir@)
                } else {
                    dest_dir@
                }
            },
    {
        if paths.len() == 0 {
            return None;
        }
        Some(self.ensure_dest_dir(dest_dir, dest_is_file))
    }

    /// Copy `from_rel` to `to_rel` within the project: the absolute source and
    /// destination for the host's recursive copy; `Err` without a project.
    pub fn copy_path(&self, from_rel: &FsPath, to_rel: &FsPath) -> (r: Result<(FsPath, FsPath), ()>)
        ensures
            match self.repo_root {
                Some(root) => r matches Ok(x) && x.0@ == join_v(root@, from_rel@) && x.1@ == join_v(root@, to_rel@),
                None => r is Err,
            },
    {
        let src = match self.project_abs(from_rel) {
            Ok(p) => p,
            Err(()) => {
                return Err(());
            },
        };
        let dst = match self.project_abs(to_rel) {
            Ok(p) => p,
            Err(()) => {
                return Err(());
            },
        };
        Ok((src, dst))
    }

    /// Where a keyboard paste lands: a selected folder (`selected_is_dir`) itself, a
    /// selected file's folder, else the repo root.
    pub fn paste_target(&self, selected_is_dir: bool) -> (r: FsPath)
        ensures
            r@ == match opt_view(self.browse.selected_path) {
                Some(p) => if !p.0 && !is_empty_v(p) {
                    if selected_is_dir {
                        p
                    } else {
                        parent_or_root_v(p)
                    }
                } else {
                    root_v()
                },
                None => root_v(),
            },
    {
        match &self.browse.selected_path {
            Some(p) => if !p.is_absolute() && !p.is_empty() {
                if selected_is_dir {
                    p.duplicate()
                } else {
                    p.parent_or_root()
                }
            } else {
                FsPath::root()
            },
            None => FsPath::root(),
        }
    }

    /// Ask to delete `path` (`is_dir` read from disk): the confirm dialog opens.
    pub fn open_delete(&mut self, path: FsPath, is_dir: bool)
        ensures
            !final(self).menu_open,
            final(self).delete_target matches Some(t) && t.path@ == path@ && t.is_dir == is_dir,
            *final(self) == (Kyde { menu_open: false, delete_target: final(self).delete_target, ..*old(self) }),
    {
        self.menu_open = false;
        self.delete_target = Some(DeleteTarget { path, is_dir });
    }

    /// Confirm the pending delete: the target the host removes from disk.
    pub fn do_delete(&mut self) -> (r: Option<DeleteTarget>)
        ensures
            final(self).delete_target is None,
            r == old(self).delete_target,
            *final(self) == (Kyde { delete_target: None, ..*old(self) }),
    {
        self.delete_target.take()
    }

    /// The host deleted `path`: drop its tabs, fall back to the last tab if it was the
    /// active file, clear the selection if it was selected, and refresh.
    pub fn finish_delete(&mut self, path: &FsPath) -> (effects: Vec<Effect>)
        ensures
            final(self).browse.tabs_v() == old(self).browse.tabs_v().filter(|x: PathV| x != path@),
            opt_view(final(self).browse.open_path) == if opt_view(old(self).browse.open_path) == Some(path@) {
                if final(self).browse.tabs_v().len() == 0 {
                    None
                } else {
                    Some(final(self).browse.tabs_v().last())
                }
            } else {
                opt_view(old(self).browse.open_path)
            },
            opt_view(final(self).browse.selected_path) == if opt_view(old(self).browse.selected_path) == Some(path@) {
                None
            } else {
                opt_view(old(self).browse.selected_path)
            },
            effects@ == seq![Effect::Refresh],
            *final(self) == (Kyde { browse: BrowseState { open_path: final(self).browse.open_path, selected_path: final(self).browse.selected_path, open_tabs: final(self).browse.open_tabs, ..old(self).browse }, ..*old(self) }),
    {
        remove_path(&mut self.browse.open_tabs, path);
        let active = match &self.browse.open_path {
            Some(p) => p.same(path),
            None => false,
        };
        if active {
            let n = self.browse.open_tabs.len();
            self.browse.open_path = if n == 0 {
                None
            } else {
                Some(self.browse.open_tabs[n - 1].duplicate())
            };
        }
        let sel = match &self.browse.selected_path {
            Some(p) => p.same(path),
            None => false,
        };
        if sel {
            self.browse.selected_path = None;
        }
        let mut effects: Vec<Effect> = Vec::new();
        effects.push(Effect::Refresh);
        effects
    }

    /// Backspace in Browse: ask to delete the selected tree row (`is_dir` read from disk).
    pub fn act_delete_file(&mut self, is_dir: bool)
        ensures
            old(self).mode == Mode::Browse && old(self).browse.selected_path is Some ==> {
                &&& !final(self).menu_open
                &&& final(self).delete_target matches Some(t) && t.path@ == old(self).browse.selected_path.unwrap()@ && t.is_dir == is_dir
            },
            !(old(self).mode == Mode::Browse && old(self).browse.selected_path is Some) ==> *final(self) == *old(self),
    {
        if self.mode != Mode::Browse {
            return;
        }
        match &self.browse.selected_path {
            Some(p) => {
                let path = p.duplicate();
                self.open_delete(path, is_dir);
            },
            None => {},
        }
    }

    /// ⌘C in Browse: copy the tree selection to the tree clipboard.
    pub fn act_copy_files(&mut self)
        ensures
            old(self).mode != Mode::Browse ==> *final(self) == *old(self),
            old(self).mode == Mode::Browse ==> {
                &&& !final(self).menu_open
                &&& clipped(old(self).browse, final(self).browse.clipboard, false)
            },
    {
        if self.mode != Mode::Browse {
            return;
        }
        let sel = self.tree_selection();
        proof {
            lemma_selection_movable(self.browse);
            lemma_filter_all(paths_view(sel@), |p: PathV| movable(p));
        }
        self.clip_paths(sel, false);
    }

    /// ⌘X in Browse: cut the tree selection (a paste moves it).
    pub fn act_cut_files(&mut self)
        ensures
            old(self).mode != Mode::Browse ==> *final(self) == *old(self),
            old(self).mode == Mode::Browse ==> {
                &&& !final(self).menu_open
                &&& clipped(old(self).browse, final(self).browse.clipboard, true)
            },
    {
        if self.mode != Mode::Browse {
            return;
        }
        let sel = self.tree_selection();
        proof {
            lemma_selection_movable(self.browse);
            lemma_filter_all(paths_view(sel@), |p: PathV| movable(p));
        }
        self.clip_paths(sel, true);
    }

    /// ⌘V in Browse: the folder to paste into (see [`Kyde::paste_target`]).
    pub fn act_paste_files(&self, selected_is_dir: bool) -> (r: Option<FsPath>)
        ensures
            self.mode != Mode::Browse ==> r is None,
            self.mode == Mode::Browse ==> (r matches Some(d) && d@ == match opt_view(self.browse.selected_path) {
                Some(p) => if !p.0 && !is_empty_v(p) {
                    if selected_is_dir {
                        p
                    } else {
                        parent_or_root_v(p)
                    }
                } else {
                    root_v()
                },
                None => root_v(),
            }),
    {
        if self.mode != Mode::Browse {
            return None;
        }
        Some(self.paste_target(selected_is_dir))
    }

    /// A scratch file was created at `path`: refresh, switch to Browse, open it, and
    /// focus the editor.
    pub fn after_create_scratch(&mut self, path: FsPath) -> (effects: Vec<Effect>)
        ensures
            final(self).mode == Mode::Browse,
            opt_view(final(self).browse.open_path) == Some(path@),
            effects@ == seq![
                Effect::Refresh,
                Effect::LoadOpenFile,
                Effect::ScrollTabIntoView,
                Effect::LoadFontPreview,
                Effect::FocusEditor,
            ],
            *final(self) == (Kyde {
                mode: Mode::Browse,
                browse: BrowseState {
                    open_tabs: final(self).browse.open_tabs,
                    preview_tab: final(self).browse.preview_tab,
                    open_path: final(self).browse.open_path,
                    selected_path: final(self).browse.selected_path,
                    ..old(self).browse
                },
                ..*old(self)
            }),
    {
        let mut effects: Vec<Effect> = Vec::new();
        effects.push(Effect::Refresh);
        self.mode = Mode::Browse;
        let mut opened = self.open_file(path);
        effects.append(&mut opened);
        effects.push(Effect::FocusEditor);
        effects
    }
}


/// The tree rows that copy and cut act on: the multi-selection, else the selected row,
/// keeping only what can move.
pub open spec fn tree_selection_spec(b: BrowseState) -> Seq<PathV> {
    if b.multi_selected@.len() == 0 {
        match opt_view(b.selected_path) {
            Some(p) => if movable(p) {
                seq![p]
            } else {
                Seq::<PathV>::empty()
            },
            None => Seq::<PathV>::empty(),
        }
    } else {
        paths_view(b.multi_selected@).filter(|p: PathV| movable(p))
    }
}

/// The tree clipboard after copying (`cut` false) or cutting the selection of `b`: it
/// holds the selection, unless there is none, when it stays as it was.
pub open spec fn clipped(b: BrowseState, clip: Option<TreeClip>, cut: bool) -> bool {
    if tree_selection_spec(b).len() == 0 {
        clip == b.clipboard
    } else {
        clip matches Some(c) && paths_view(c.paths@) == tree_selection_spec(b) && c.cut == cut
    }
}

/// Every row of the selection can move.
pub proof fn lemma_selection_movable(b: BrowseState)
    ensures
        forall|i: int| 0 <= i < tree_selection_spec(b).len() ==> movable(#[trigger] tree_selection_spec(b)[i]),
{
    if b.multi_selected@.len() > 0 {
        let s = paths_view(b.multi_selected@);
        assert forall|i: int| 0 <= i < tree_selection_spec(b).len() implies movable(#[trigger] tree_selection_spec(b)[i]) by {
            s.lemma_filter_pred(|p: PathV| movable(p), i);
        }
    }
}

} // verus!
