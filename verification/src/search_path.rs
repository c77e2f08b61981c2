//! The persistent executable search path: a list of directories in one string, separated
//! by `;`.
//!
//! The list is read from and written to the operating system by the caller. What is decided
//! here is which directories are added to it, and whether it has to be written at all.
use crate::locate::{choose_executable, located, Probe};
use crate::paths::{after_last, containing_dir, join, joined, lemma_after_last, parent_dir};
use crate::text::{chars_of, starts_at};
use vstd::prelude::*;
use vstd::string::*;

verus! {

/// `c` separates the entries of a search path.
pub open spec fn is_list_separator(c: char) -> bool {
    c == ';'
}

/// The entries of a search path, in order. A list without `;` has one entry, which may be
/// empty.
pub open spec fn entries(list: Seq<char>) -> Seq<Seq<char>>
    decreases list.len(),
{
    let k = after_last(list, |c: char| is_list_separator(c));
    if 0 < k <= list.len() {
        entries(list.subrange(0, k - 1)).push(list.subrange(k, list.len() as int))
    } else {
        seq![list]
    }
}

/// The search path names `entry`: one of its entries is `entry`, character for character.
pub open spec fn lists_entry(list: Seq<char>, entry: Seq<char>) -> bool {
    entries(list).contains(entry)
}

/// How many of `items` equal `entry`.
pub open spec fn count_of(items: Seq<Seq<char>>, entry: Seq<char>) -> nat
    decreases items.len(),
{
    if items.len() == 0 {
        0
    } else {
        count_of(items.drop_last(), entry) + if items.last() == entry {
            1nat
        } else {
            0nat
        }
    }
}

/// How often the search path names `entry`.
pub open spec fn occurrences(list: Seq<char>, entry: Seq<char>) -> nat {
    count_of(entries(list), entry)
}

/// The search path after `entry` was added: unchanged where it names `entry` already,
/// else with `;` and `entry` behind it.
pub open spec fn with_entry(list: Seq<char>, entry: Seq<char>) -> Seq<char> {
    if lists_entry(list, entry) {
        list
    } else {
        list + seq![';'] + entry
    }
}

/// The search path after each of `added` was added in turn.
pub open spec fn with_entries(list: Seq<char>, added: Seq<Seq<char>>) -> Seq<char>
    decreases added.len(),
{
    if added.len() == 0 {
        list
    } else {
        with_entry(with_entries(list, added.drop_last()), added.last())
    }
}

/// `entry` has no `;` in it, so that it is one entry of any list it is added to.
pub open spec fn is_single_entry(entry: Seq<char>) -> bool {
    forall|i: int| 0 <= i < entry.len() ==> !is_list_separator(#[trigger] entry[i])
}

/// The entries of a list that was extended by `;` and one entry.
pub proof fn lemma_entries_of_extended(list: Seq<char>, entry: Seq<char>)
    requires
        is_single_entry(entry),
    ensures
        entries(list + seq![';'] + entry) == entries(list).push(entry),
{
    let p = |c: char| is_list_separator(c);
    let whole = list + seq![';'] + entry;
    let k = list.len() + 1;
    assert(p(whole[k - 1]));
    assert forall|j: int| k <= j < whole.len() implies !p(#[trigger] whole[j]) by {
        assert(whole[j] == entry[j - k]);
    }
    lemma_after_last(whole, p, k as int);
    assert(whole.subrange(0, k - 1) =~= list);
    assert(whole.subrange(k as int, whole.len() as int) =~= entry);
}

/// A count is positive exactly for what occurs.
pub proof fn lemma_count_of_contains(items: Seq<Seq<char>>, entry: Seq<char>)
    ensures
        count_of(items, entry) > 0 <==> items.contains(entry),
    decreases items.len(),
{
    if items.len() > 0 {
        let front = items.drop_last();
        lemma_count_of_contains(front, entry);
        if items.contains(entry) {
            let i = choose|i: int| 0 <= i < items.len() && items[i] == entry;
            if i < front.len() {
                assert(front[i] == entry);
            }
        }
        if front.contains(entry) {
            let i = choose|i: int| 0 <= i < front.len() && front[i] == entry;
            assert(items[i] == entry);
        }
        if items.last() == entry {
            assert(items[items.len() - 1] == entry);
        }
    }
}

/// Adding a directory is idempotent: adding it a second time changes nothing.
pub proof fn lemma_with_entry_idempotent(list: Seq<char>, entry: Seq<char>)
    requires
        is_single_entry(entry),
    ensures
        lists_entry(with_entry(list, entry), entry),
        with_entry(with_entry(list, entry), entry) == with_entry(list, entry),
{
    if !lists_entry(list, entry) {
        lemma_entries_of_extended(list, entry);
        let after = entries(list).push(entry);
        assert(after[after.len() - 1] == entry);
    }
}

/// A list that named a directory at most once names it exactly once after the directory
/// was added, however often it was added.
pub proof fn lemma_with_entry_occurs_once(list: Seq<char>, entry: Seq<char>)
    requires
        is_single_entry(entry),
        occurrences(list, entry) <= 1,
    ensures
        occurrences(with_entry(list, entry), entry) == 1,
        occurrences(with_entry(with_entry(list, entry), entry), entry) == 1,
{
    lemma_with_entry_idempotent(list, entry);
    lemma_count_of_contains(entries(list), entry);
    if !lists_entry(list, entry) {
        lemma_entries_of_extended(list, entry);
        assert(entries(list).push(entry).drop_last() =~= entries(list));
    }
}

/// Adding never removes: what the list named before, it names afterwards.
pub proof fn lemma_with_entry_keeps(list: Seq<char>, entry: Seq<char>, other: Seq<char>)
    requires
        is_single_entry(entry),
        lists_entry(list, other),
    ensures
        lists_entry(with_entry(list, entry), other),
{
    if !lists_entry(list, entry) {
        lemma_entries_of_extended(list, entry);
        let i = choose|i: int| 0 <= i < entries(list).len() && entries(list)[i] == other;
        assert(entries(list).push(entry)[i] == other);
    }
}

/// Whether the search path names `entry`.
pub fn list_contains(list: &str, entry: &str) -> (r: bool)
    ensures
        r == lists_entry(list@, entry@),
{
    let v = chars_of(list);
    let e = chars_of(entry);
    let mut to: usize = v.len();
    assert(v@.subrange(0, to as int) =~= v@);
    loop
        invariant
            to <= v.len(),
            v@ == list@,
            e@ == entry@,
            lists_entry(v@, e@) == lists_entry(v@.subrange(0, to as int), e@),
        decreases to,
    {
        let ghost head = v@.subrange(0, to as int);
        let mut k: usize = to;
        while k > 0 && v[k - 1] != ';'
            invariant
                k <= to <= v.len(),
                forall|j: int| k <= j < to ==> !is_list_separator(#[trigger] v@[j]),
            decreases k,
        {
            k = k - 1;
        }
        proof {
            let p = |c: char| is_list_separator(c);
            assert forall|j: int| k <= j < head.len() implies !p(#[trigger] head[j]) by {
                assert(head[j] == v@[j]);
            }
            if k > 0 {
                assert(head[k - 1] == v@[k - 1]);
            }
            lemma_after_last(head, p, k as int);
            assert(head.subrange(k as int, head.len() as int) =~= v@.subrange(
                k as int,
                to as int,
            ));
        }
        let same: bool = to - k == e.len() && starts_at(&v, &e, k);
        assert(same == (v@.subrange(k as int, to as int) == e@));
        if same {
            proof {
                let items = entries(head);
                assert(items[items.len() - 1] == e@);
            }
            return true;
        }
        if k == 0 {
            proof {
                let items = entries(head);
                assert(items =~= seq![head]);
                if items.contains(e@) {
                    let i = choose|i: int| 0 <= i < items.len() && items[i] == e@;
                    assert(items[i] == head);
                }
            }
            return false;
        }
        proof {
            let front = v@.subrange(0, k - 1);
            assert(head.subrange(0, k - 1) =~= front);
            let items = entries(head);
            let last = v@.subrange(k as int, to as int);
            assert(items == entries(front).push(last));
            if items.contains(e@) {
                let i = choose|i: int| 0 <= i < items.len() && items[i] == e@;
                assert(i < entries(front).len());
                assert(entries(front)[i] == e@);
            }
            if entries(front).contains(e@) {
                let i = choose|i: int| 0 <= i < entries(front).len() && entries(front)[i] == e@;
                assert(items[i] == e@);
            }
        }
        to = k - 1;
    }
}

/// The search path with `entry` added where it was missing.
pub fn add_entry(list: &str, entry: &str) -> (out: String)
    ensures
        out@ == with_entry(list@, entry@),
{
    let mut out = String::from_str(list);
    if !list_contains(list, entry) {
        proof {
            reveal_strlit(";");
            assert(";"@ =~= seq![';']);
        }
        out.append(";");
        out.append(entry);
    }
    out
}

/// Whose search path is changed.
#[derive(Clone, Copy, Debug, PartialEq, Eq, Structural)]
pub enum Scope {
    /// The search path of the user.
    User,
    /// The search path of the machine, for every user.
    System,
}

impl Scope {
    /// The registry key, below the scope's root, that holds the search path as the value
    /// `Path`.
    pub open spec fn key_text(self) -> Seq<char> {
        match self {
            Scope::User => "Environment"@,
            Scope::System => "System\\CurrentControlSet\\Control\\Session Manager\\Environment"@,
        }
    }

    /// The registry key that holds the search path.
    pub fn environment_key(self) -> (out: &'static str)
        ensures
            out@ == self.key_text(),
    {
        match self {
            Scope::User => "Environment",
            Scope::System => "System\\CurrentControlSet\\Control\\Session Manager\\Environment",
        }
    }
}

/// A search path to be persisted.
#[derive(Debug, PartialEq, Eq)]
pub struct Publication {
    /// The new value of the search path.
    pub value: String,
    /// Whether `value` differs from the value that was read, so that it has to be written.
    pub changed: bool,
}

impl Publication {
    /// Whether running programs are told of the change: where the user asked for it and
    /// the search path was written.
    pub fn announces(&self, requested: bool) -> (out: bool)
        ensures
            out == (requested && self.changed),
    {
        requested && self.changed
    }
}

/// Whether each of the three installable tools was found at its two candidate places below
/// the tools directory.
#[derive(Clone, Copy, Debug, PartialEq, Eq)]
pub struct ToolProbes {
    pub colmap: Probe,
    pub glomap: Probe,
    pub ffmpeg: Probe,
}

/// The directory that the tool `name` adds to the search path: the one that holds its
/// executable below `root/name`, where a probe found it.
pub open spec fn tool_entry(root: Seq<char>, name: Seq<char>, probe: Probe) -> Option<Seq<char>> {
    match located(joined(root, name), name, probe) {
        Some(exe) => containing_dir(exe),
        None => None,
    }
}

/// `items`, with `item` behind them where there is one.
pub open spec fn push_some(items: Seq<Seq<char>>, item: Option<Seq<char>>) -> Seq<Seq<char>> {
    match item {
        Some(dir) => items.push(dir),
        None => items,
    }
}

/// The directories that one publication adds, in order: the install directory of the
/// application, then the directory of each tool that is installed.
pub open spec fn published_dirs(
    install_dir: Seq<char>,
    root: Seq<char>,
    probes: ToolProbes,
) -> Seq<Seq<char>> {
    push_some(
        push_some(
            push_some(seq![install_dir], tool_entry(root, "colmap"@, probes.colmap)),
            tool_entry(root, "glomap"@, probes.glomap),
        ),
        tool_entry(root, "ffmpeg"@, probes.ffmpeg),
    )
}

/// The search path that a publication leaves: `current` where the tools directory does not
/// exist, else `current` with the published directories added.
pub open spec fn published(
    current: Seq<char>,
    install_dir: Seq<char>,
    root: Seq<char>,
    root_exists: bool,
    probes: ToolProbes,
) -> Seq<char> {
    if root_exists {
        with_entries(current, published_dirs(install_dir, root, probes))
    } else {
        current
    }
}

/// Adding to a list changes it exactly when its length grows.
pub proof fn lemma_with_entries_grows(list: Seq<char>, added: Seq<Seq<char>>)
    ensures
        with_entries(list, added).len() >= list.len(),
        with_entries(list, added) == list <==> with_entries(list, added).len() == list.len(),
        with_entries(list, added).subrange(0, list.len() as int) == list,
    decreases added.len(),
{
    if added.len() == 0 {
        assert(list.subrange(0, list.len() as int) =~= list);
    } else {
        let before = with_entries(list, added.drop_last());
        lemma_with_entries_grows(list, added.drop_last());
        let after = with_entry(before, added.last());
        assert(after.subrange(0, list.len() as int) =~= before.subrange(0, list.len() as int));
    }
}

fn add_tool_entry(list: String, root: &str, name: &str, probe: Probe) -> (out: String)
    ensures
        out@ == match tool_entry(root@, name@, probe) {
            Some(dir) => with_entry(list@, dir),
            None => list@,
        },
{
    let tool_dir = join(root, name);
    match choose_executable(tool_dir.as_str(), name, probe) {
        Some(exe) => match parent_dir(exe.as_str()) {
            Some(dir) => add_entry(list.as_str(), dir.as_str()),
            None => list,
        },
        None => list,
    }
}

/// Decides what a publication writes. `current` is the search path as it was read,
/// `install_dir` the directory of the application, `root` the tools directory and
/// `root_exists` whether it exists.
pub fn plan_publication(
    current: &str,
    install_dir: &str,
    root: &str,
    root_exists: bool,
    probes: ToolProbes,
) -> (out: Publication)
    ensures
        out.value@ == published(current@, install_dir@, root@, root_exists, probes),
        out.changed == (out.value@ != current@),
{
    if !root_exists {
        return Publication { value: String::from_str(current), changed: false };
    }
    let ghost d0 = seq![install_dir@];
    let ghost d1 = push_some(d0, tool_entry(root@, "colmap"@, probes.colmap));
    let ghost d2 = push_some(d1, tool_entry(root@, "glomap"@, probes.glomap));
    let ghost d3 = push_some(d2, tool_entry(root@, "ffmpeg"@, probes.ffmpeg));
    let v0 = add_entry(current, install_dir);
    proof {
        assert(d0.drop_last() =~= Seq::<Seq<char>>::empty());
        assert(with_entries(current@, d0.drop_last()) == current@);
        assert(v0@ == with_entries(current@, d0));
    }
    let v1 = add_tool_entry(v0, root, "colmap", probes.colmap);
    proof {
        if d1 != d0 {
            assert(d1.drop_last() =~= d0);
        }
        assert(v1@ == with_entries(current@, d1));
    }
    let v2 = add_tool_entry(v1, root, "glomap", probes.glomap);
    proof {
        if d2 != d1 {
            assert(d2.drop_last() =~= d1);
        }
        assert(v2@ == with_entries(current@, d2));
    }
    let v3 = add_tool_entry(v2, root, "ffmpeg", probes.ffmpeg);
    proof {
        if d3 != d2 {
            assert(d3.drop_last() =~= d2);
        }
        assert(v3@ == with_entries(current@, d3));
        lemma_with_entries_grows(current@, d3);
    }
    let changed: bool = v3.as_str().unicode_len() != current.unicode_len();
    Publication { value: v3, changed }
}

} // verus!
