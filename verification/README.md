# kyde

The view logic of Kyde, a small git-aware code editor, as a Verus-verified library.

The editor's window state is plain data (`model::Kyde`); every user action is a
function that updates it and returns the `Effect`s the host must carry out (load a
file, focus an input, run a git command, open a window). The decisions carry
`requires`/`ensures` contracts proved by Verus, and the properties that span several
operations are stated as `law_*` proof functions.

Layout:

- `src/` — the verified library, one module per area: `path`, `names` and `bytes`
  (paths, free names, byte strings), `browse` and `tabs` (tree and tab strip),
  `file_ops` (create, rename, move, paste, delete), `find` and `finder` (the find bar,
  the go-to-file / content / action finder with its fuzzy ranking), `commit`, `git_ops`,
  `diff`, `compare`, `merge` (three-way resolution), `local_history`, `branch`,
  `branch_list`, `projects`, `terminal`, `notifications`, `changelog`, `panels`
  (labels and rows the panels show).
- `tests/` — tests of the library on concrete values.
- `app/` — the host side for the disk and processes: std path conversion, creating,
  moving, copying and deleting files, reading a comparison side, the time zone.
