//! The worktree list that `git worktree list --porcelain` prints, and lookups in it.

use vstd::prelude::*;

use crate::text::{chars_of, has_prefix, line_ranges, lines, string_of, strip_prefix, trim, trim_range};

verus! {

/// One worktree of a repository: where it lies, and the branch ref checked out there.
#[derive(Debug)]
pub struct WorktreeEntry {
    pub path: String,
    pub branch: Option<String>,
}

/// A worktree as plain text: its path and, when one is checked out, its branch ref.
pub type EntryView = (Seq<char>, Option<Seq<char>>);

/// The characters of an optional string.
pub open spec fn opt_view(o: Option<String>) -> Option<Seq<char>> {
    match o {
        Some(s) => Some(s@),
        None => None,
    }
}

impl WorktreeEntry {
    pub open spec fn view(&self) -> EntryView {
        (self.path@, opt_view(self.branch))
    }
}

/// The views of a list of entries.
pub open spec fn entries_view(v: Seq<WorktreeEntry>) -> Seq<EntryView> {
    v.map_values(|e: WorktreeEntry| e.view())
}

/// `worktree ` opens the stanza of one worktree.
pub open spec fn worktree_tag() -> Seq<char> {
    seq!['w', 'o', 'r', 'k', 't', 'r', 'e', 'e', ' ']
}

/// `branch ` names the ref checked out in the current worktree.
pub open spec fn branch_tag() -> Seq<char> {
    seq!['b', 'r', 'a', 'n', 'c', 'h', ' ']
}

/// What the reader holds between lines: the finished entries, and the path and branch of the
/// stanza being read.
pub struct ReadState {
    pub entries: Seq<EntryView>,
    pub path: Option<Seq<char>>,
    pub branch: Option<Seq<char>>,
}

/// Closes the current stanza: its path, with its branch, becomes an entry.
/// Without a path, nothing changes.
pub open spec fn close_stanza(st: ReadState) -> ReadState {
    match st.path {
        Some(p) => ReadState { entries: st.entries.push((p, st.branch)), path: None, branch: None },
        None => st,
    }
}

/// How one line changes what the reader holds. A blank line closes the stanza; a `worktree`
/// line closes it and opens one at the trimmed path; a `branch` line records the trimmed ref;
/// any other line is ignored.
pub open spec fn read_line(st: ReadState, line: Seq<char>) -> ReadState {
    if trim(line).len() == 0 {
        close_stanza(st)
    } else if strip_prefix(line, worktree_tag()) is Some {
        let c = close_stanza(st);
        ReadState {
            entries: c.entries,
            path: Some(trim(strip_prefix(line, worktree_tag())->0)),
            branch: None,
        }
    } else if strip_prefix(line, branch_tag()) is Some {
        ReadState {
            entries: st.entries,
            path: st.path,
            branch: Some(trim(strip_prefix(line, branch_tag())->0)),
        }
    } else {
        st
    }
}

/// The reader's state after the first `n` of `lines`.
pub open spec fn read_lines(lines: Seq<Seq<char>>, n: nat) -> ReadState
    decreases n,
{
    if n == 0 {
        ReadState { entries: Seq::empty(), path: None, branch: None }
    } else {
        read_line(read_lines(lines, (n - 1) as nat), lines[n - 1])
    }
}

/// The worktrees that the porcelain listing `text` describes, in the order listed.
pub open spec fn porcelain_entries(text: Seq<char>) -> Seq<EntryView> {
    close_stanza(read_lines(lines(text), lines(text).len())).entries
}

fn worktree_tag_chars() -> (r: Vec<char>)
    ensures
        r@ == worktree_tag(),
{
    let r = vec!['w', 'o', 'r', 'k', 't', 'r', 'e', 'e', ' '];
    assert(r@ == worktree_tag());
    r
}

fn branch_tag_chars() -> (r: Vec<char>)
    ensures
        r@ == branch_tag(),
{
    let r = vec!['b', 'r', 'a', 'n', 'c', 'h', ' '];
    assert(r@ == branch_tag());
    r
}

/// Whether the exec state of the reader is the spec state `st`.
pub open spec fn holds_state(
    entries: Seq<WorktreeEntry>,
    path: Option<String>,
    branch: Option<String>,
    st: ReadState,
) -> bool {
    &&& entries_view(entries) == st.entries
    &&& opt_view(path) == st.path
    &&& opt_view(branch) == st.branch
}

fn close_current(
    entries: &mut Vec<WorktreeEntry>,
    path: &mut Option<String>,
    branch: &mut Option<String>,
)
    ensures
        holds_state(
            final(entries)@,
            *final(path),
            *final(branch),
            close_stanza(ReadState {
                entries: entries_view(old(entries)@),
                path: opt_view(*old(path)),
                branch: opt_view(*old(branch)),
            }),
        ),
{
    if path.is_some() {
        let p = path.take().unwrap();
        let b = branch.take();
        let ghost before = entries@;
        entries.push(WorktreeEntry { path: p, branch: b });
        assert(entries_view(entries@) == entries_view(before).push((p@, opt_view(b))));
    }
}

/// Reads the worktrees from the output of `git worktree list --porcelain`: each `worktree`
/// line opens an entry at its trimmed path, a `branch` line gives the entry its trimmed ref,
/// and a blank line or the end of the text closes it.
pub fn parse_worktree_list(text: &str) -> (r: Vec<WorktreeEntry>)
    ensures
        entries_view(r@) == porcelain_entries(text@),
{
    let v = chars_of(text);
    let ranges = line_ranges(&v);
    let wt = worktree_tag_chars();
    let br = branch_tag_chars();
    let ghost ls = lines(v@);
    let mut entries: Vec<WorktreeEntry> = Vec::new();
    let mut path: Option<String> = None;
    let mut branch: Option<String> = None;
    let mut k: usize = 0;
    assert(entries_view(entries@) =~= Seq::<EntryView>::empty());
    while k < ranges.len()
        invariant
            ls == lines(v@),
            wt@ == worktree_tag(),
            br@ == branch_tag(),
            ranges@.len() == ls.len(),
            forall|m: int|
                #![trigger ranges@[m]]
                0 <= m < ranges@.len() ==> {
                    &&& ranges@[m].0 <= ranges@[m].1 <= v@.len()
                    &&& v@.subrange(ranges@[m].0 as int, ranges@[m].1 as int) == ls[m]
                },
            k <= ranges@.len(),
            holds_state(entries@, path, branch, read_lines(ls, k as nat)),
        decreases ranges@.len() - k,
    {
        let (a, b) = ranges[k];
        let ghost line = ls[k as int];
        assert(v@.subrange(a as int, b as int) == line);
        let (ta, tb) = trim_range(&v, a, b);
        if ta == tb {
            close_current(&mut entries, &mut path, &mut branch);
        } else if has_prefix(&v, a, b, &wt) {
            close_current(&mut entries, &mut path, &mut branch);
            let (pa, pb) = trim_range(&v, a + 9, b);
            assert(v@.subrange(a + 9, b as int) == line.skip(9));
            path = Some(string_of(&v, pa, pb));
            branch = None;
        } else if has_prefix(&v, a, b, &br) {
            let (ra, rb) = trim_range(&v, a + 7, b);
            assert(v@.subrange(a + 7, b as int) == line.skip(7));
            branch = Some(string_of(&v, ra, rb));
        }
        k = k + 1;
    }
    assert(v@ == text@);
    close_current(&mut entries, &mut path, &mut branch);
    entries
}

/// Where in `entries` the first worktree with the branch ref `target` is, if any.
pub open spec fn first_with_branch(entries: Seq<EntryView>, target: Seq<char>) -> Option<int>
    decreases entries.len(),
{
    if entries.len() == 0 {
        None
    } else if entries[0].1 == Some(target) {
        Some(0)
    } else {
        match first_with_branch(entries.drop_first(), target) {
            Some(i) => Some(i + 1),
            None => None,
        }
    }
}

/// `first_with_branch` finds the first match, and only when there is one.
pub proof fn lemma_first_with_branch(entries: Seq<EntryView>, target: Seq<char>)
    ensures
        match first_with_branch(entries, target) {
            Some(i) => 0 <= i < entries.len() && entries[i].1 == Some(target)
                && forall|j: int| 0 <= j < i ==> entries[j].1 != Some(target),
            None => forall|j: int| 0 <= j < entries.len() ==> entries[j].1 != Some(target),
        },
    decreases entries.len(),
{
    if entries.len() > 0 {
        let rest = entries.drop_first();
        lemma_first_with_branch(rest, target);
        if entries[0].1 != Some(target) {
            match first_with_branch(rest, target) {
                Some(i) => {
                    assert(entries[i + 1] == rest[i]);
                    assert forall|j: int| 0 <= j < i + 1 implies entries[j].1 != Some(target) by {
                        if j > 0 {
                            assert(entries[j] == rest[j - 1]);
                        }
                    }
                },
                None => {
                    assert forall|j: int| 0 <= j < entries.len() implies entries[j].1 != Some(target) by {
                        if j > 0 {
                            assert(entries[j] == rest[j - 1]);
                        }
                    }
                },
            }
        }
    }
}

/// Where in `entries` the first worktree with the branch ref `target` is; see
/// `first_with_branch`.
pub fn position_of_branch(entries: &Vec<WorktreeEntry>, target: &String) -> (r: Option<usize>)
    ensures
        match r {
            Some(i) => first_with_branch(entries_view(entries@), target@) == Some(i as int),
            None => first_with_branch(entries_view(entries@), target@) is None,
        },
{
    let ghost ev = entries_view(entries@);
    proof {
        lemma_first_with_branch(ev, target@);
    }
    let mut i: usize = 0;
    while i < entries.len()
        invariant
            ev == entries_view(entries@),
            i <= entries@.len(),
            forall|j: int| 0 <= j < i ==> ev[j].1 != Some(target@),
            match first_with_branch(ev, target@) {
                Some(k) => 0 <= k < ev.len() && ev[k].1 == Some(target@)
                    && forall|j: int| 0 <= j < k ==> ev[j].1 != Some(target@),
                None => forall|j: int| 0 <= j < ev.len() ==> ev[j].1 != Some(target@),
            },
        decreases entries@.len() - i,
    {
        assert(ev[i as int] == entries@[i as int].view());
        match &entries[i].branch {
            Some(b) => {
                if *b == *target {
                    assert(ev[i as int].1 == Some(target@));
                    return Some(i);
                }
            },
            None => {},
        }
        i = i + 1;
    }
    None
}

/// Whether `line` opens a worktree stanza: it is not blank and starts with `worktree `.
pub open spec fn is_worktree_line(line: Seq<char>) -> bool {
    trim(line).len() != 0 && strip_prefix(line, worktree_tag()) is Some
}

/// The trimmed paths that the `worktree` lines among `ls` name, in order.
pub open spec fn worktree_paths(ls: Seq<Seq<char>>) -> Seq<Seq<char>>
    decreases ls.len(),
{
    if ls.len() == 0 {
        Seq::empty()
    } else {
        let rest = worktree_paths(ls.drop_last());
        if is_worktree_line(ls.last()) {
            rest.push(trim(strip_prefix(ls.last(), worktree_tag())->0))
        } else {
            rest
        }
    }
}

/// The paths the reader holds: those of the finished entries, then that of the open stanza.
pub open spec fn held_paths(st: ReadState) -> Seq<Seq<char>> {
    let done = st.entries.map_values(|e: EntryView| e.0);
    match st.path {
        Some(p) => done.push(p),
        None => done,
    }
}

proof fn lemma_close_keeps_paths(st: ReadState)
    ensures
        held_paths(close_stanza(st)) == held_paths(st),
{
    if let Some(p) = st.path {
        let c = close_stanza(st);
        assert(c.entries.map_values(|e: EntryView| e.0) =~= st.entries.map_values(|e: EntryView| e.0).push(p));
    }
}

proof fn lemma_read_lines_paths(ls: Seq<Seq<char>>, n: nat)
    requires
        n <= ls.len(),
    ensures
        held_paths(read_lines(ls, n)) == worktree_paths(ls.take(n as int)),
    decreases n,
{
    if n == 0 {
        assert(read_lines(ls, 0).entries.map_values(|e: EntryView| e.0) =~= Seq::<Seq<char>>::empty());
        assert(ls.take(0) =~= Seq::<Seq<char>>::empty());
    } else {
        let m = (n - 1) as nat;
        lemma_read_lines_paths(ls, m);
        let st = read_lines(ls, m);
        let line = ls[m as int];
        assert(ls.take(n as int).drop_last() =~= ls.take(m as int));
        assert(ls.take(n as int).last() == line);
        lemma_close_keeps_paths(st);
        if trim(line).len() == 0 {
        } else if strip_prefix(line, worktree_tag()) is Some {
            let c = close_stanza(st);
            assert(c.entries.map_values(|e: EntryView| e.0) == held_paths(c));
        }
    }
}

/// Each `worktree` line of the listing yields exactly one entry, in the order of the lines,
/// with the trimmed path that the line names.
pub proof fn law_one_entry_per_worktree_line(text: Seq<char>)
    ensures
        porcelain_entries(text).map_values(|e: EntryView| e.0) == worktree_paths(lines(text)),
{
    let ls = lines(text);
    lemma_read_lines_paths(ls, ls.len());
    assert(ls.take(ls.len() as int) =~= ls);
    let st = read_lines(ls, ls.len());
    lemma_close_keeps_paths(st);
    assert(close_stanza(st).path is None);
}

/// Whether `line` ends the stanza being read: a blank line, or a `worktree` line that opens
/// the next one.
pub open spec fn ends_stanza(line: Seq<char>) -> bool {
    trim(line).len() == 0 || strip_prefix(line, worktree_tag()) is Some
}

/// The branch recorded after `line`, `acc` being the one recorded before it: the trimmed ref
/// of a `branch` line, or `acc` for any other line.
pub open spec fn record_branch(line: Seq<char>, acc: Option<Seq<char>>) -> Option<Seq<char>> {
    if strip_prefix(line, branch_tag()) is Some {
        Some(trim(strip_prefix(line, branch_tag())->0))
    } else {
        acc
    }
}

/// The branch of the stanza whose lines go on from `k`, `acc` being the one recorded before
/// `k`: the trimmed ref of its last `branch` line, up to the line that ends the stanza.
pub open spec fn stanza_branch(ls: Seq<Seq<char>>, k: int, acc: Option<Seq<char>>) -> Option<Seq<char>>
    decreases ls.len() - k,
{
    if k < 0 || k >= ls.len() || ends_stanza(ls[k]) {
        acc
    } else {
        stanza_branch(ls, k + 1, record_branch(ls[k], acc))
    }
}

/// The branch recorded over the lines `k..n`, `acc` being the one recorded before `k`.
pub open spec fn branch_between(ls: Seq<Seq<char>>, k: int, n: int, acc: Option<Seq<char>>) -> Option<Seq<char>>
    decreases n - k,
{
    if k >= n {
        acc
    } else {
        branch_between(ls, k + 1, n, record_branch(ls[k], acc))
    }
}

proof fn lemma_branch_between_step(ls: Seq<Seq<char>>, k: int, n: int, acc: Option<Seq<char>>)
    requires
        k <= n,
    ensures
        branch_between(ls, k, n + 1, acc) == record_branch(ls[n], branch_between(ls, k, n, acc)),
    decreases n - k,
{
    if k < n {
        lemma_branch_between_step(ls, k + 1, n, record_branch(ls[k], acc));
    } else {
        assert(branch_between(ls, k + 1, n + 1, record_branch(ls[k], acc)) == record_branch(ls[k], acc));
    }
}

proof fn lemma_stanza_branch_between(ls: Seq<Seq<char>>, k: int, c: int, acc: Option<Seq<char>>)
    requires
        0 <= k <= c <= ls.len(),
        forall|j: int| k <= j < c ==> !ends_stanza(#[trigger] ls[j]),
        c == ls.len() || ends_stanza(ls[c]),
    ensures
        stanza_branch(ls, k, acc) == branch_between(ls, k, c, acc),
    decreases c - k,
{
    if k < c {
        lemma_stanza_branch_between(ls, k + 1, c, record_branch(ls[k], acc));
    }
}

proof fn lemma_entries_grow(ls: Seq<Seq<char>>, n: nat, m: nat)
    requires
        n <= m,
    ensures
        read_lines(ls, n).entries.len() <= read_lines(ls, m).entries.len(),
        forall|i: int|
            0 <= i < read_lines(ls, n).entries.len() ==> #[trigger] read_lines(ls, m).entries[i]
                == read_lines(ls, n).entries[i],
    decreases m - n,
{
    if n < m {
        let p = (m - 1) as nat;
        lemma_entries_grow(ls, n, p);
        let before = read_lines(ls, p);
        let after = read_lines(ls, m);
        assert(forall|i: int| 0 <= i < before.entries.len() ==> #[trigger] after.entries[i] == before.entries[i]);
    }
}

proof fn lemma_stanza_walk(ls: Seq<Seq<char>>, w: int, n: nat)
    requires
        0 <= w < n <= ls.len(),
        is_worktree_line(ls[w]),
        forall|j: int| w + 1 <= j < n ==> !ends_stanza(#[trigger] ls[j]),
        read_lines(ls, n) == (ReadState {
            entries: read_lines(ls, (w + 1) as nat).entries,
            path: Some(trim(strip_prefix(ls[w], worktree_tag())->0)),
            branch: branch_between(ls, w + 1, n as int, None),
        }),
    ensures
        ({
            let done = close_stanza(read_lines(ls, ls.len())).entries;
            let k = read_lines(ls, (w + 1) as nat).entries.len();
            k < done.len() && done[k as int] == (
                trim(strip_prefix(ls[w], worktree_tag())->0),
                stanza_branch(ls, w + 1, None),
            )
        }),
    decreases ls.len() - n,
{
    let k = read_lines(ls, (w + 1) as nat).entries.len();
    let p = trim(strip_prefix(ls[w], worktree_tag())->0);
    if n == ls.len() {
        lemma_stanza_branch_between(ls, w + 1, n as int, None);
    } else if ends_stanza(ls[n as int]) {
        lemma_stanza_branch_between(ls, w + 1, n as int, None);
        let next = read_lines(ls, n + 1);
        assert(next.entries.len() == k + 1);
        assert(next.entries[k as int] == (p, branch_between(ls, w + 1, n as int, None)));
        lemma_entries_grow(ls, n + 1, ls.len());
        let last = read_lines(ls, ls.len());
        assert(last.entries[k as int] == next.entries[k as int]);
        assert(close_stanza(last).entries[k as int] == last.entries[k as int]);
    } else {
        lemma_branch_between_step(ls, w + 1, n as int, None);
        lemma_stanza_walk(ls, w, n + 1);
    }
}

/// Each `worktree` line of the listing yields the entry that comes after the entries of the
/// `worktree` lines before it; the entry has the trimmed path of the line and the branch of
/// its stanza: the trimmed ref of the last `branch` line before a blank line or the next
/// `worktree` line, and none when there is no such line.
pub proof fn law_entry_of_worktree_line(text: Seq<char>, w: int)
    requires
        0 <= w < lines(text).len(),
        is_worktree_line(lines(text)[w]),
    ensures
        ({
            let ls = lines(text);
            let k = worktree_paths(ls.take(w)).len();
            k < porcelain_entries(text).len() && porcelain_entries(text)[k as int] == (
                trim(strip_prefix(ls[w], worktree_tag())->0),
                stanza_branch(ls, w + 1, None),
            )
        }),
{
    let ls = lines(text);
    let n = (w + 1) as nat;
    lemma_read_lines_paths(ls, n);
    assert(ls.take(n as int).drop_last() =~= ls.take(w));
    assert(ls.take(n as int).last() == ls[w]);
    let st = read_lines(ls, n);
    assert(st.entries.map_values(|e: EntryView| e.0).len() == st.entries.len());
    assert(st.path == Some(trim(strip_prefix(ls[w], worktree_tag())->0)));
    assert(st.branch is None);
    assert(branch_between(ls, w + 1, n as int, None) is None);
    assert(held_paths(st).len() == st.entries.len() + 1);
    assert(worktree_paths(ls.take(n as int)).len() == worktree_paths(ls.take(w)).len() + 1);
    lemma_stanza_walk(ls, w, n);
}

} // verus!
