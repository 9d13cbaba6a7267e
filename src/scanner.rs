//! The decisions of in-place mode: which roots to walk, what a file's new
//! content is, and in what order which entries are renamed to what.
use vstd::prelude::*;
use crate::args::{rules_view, Args};
use crate::text::string_of;
use crate::replacer::{apply_rule_list, apply_rules, rules_well_formed, FileContent};

verus! {

/// An entry found by the walk.
#[derive(Debug)]
pub struct Entry {
    /// The last component of its path, where it has a name
    pub name: Option<String>,
    /// The number of components of its path
    pub depth: usize,
    /// Whether the walk found a directory here
    pub is_dir: bool,
}

/// A rename to perform: the entry at `index` of the walk gets `new_name`.
#[derive(Debug)]
pub struct PlannedRename {
    /// Index of the entry in the walk
    pub index: usize,
    /// Its new last path component
    pub new_name: String,
}

/// The new name of an entry, where it gets one: the rules are applied to its
/// name where the toggle for its kind is on, and a name that stays the same
/// is no rename.
pub open spec fn new_name_of(e: Entry, a: Args) -> Option<Seq<char>> {
    match e.name {
        Some(n) => if (e.is_dir && a.rename_dir) || (!e.is_dir && a.rename_file) {
            let m = apply_rules(n@, rules_view(a.rules@), a.case_enabled);
            if m != n@ {
                Some(m)
            } else {
                None
            }
        } else {
            None
        },
        None => None,
    }
}

/// The entry at `x` is renamed before the one at `y`: it is deeper, or as
/// deep and earlier in the walk.
pub open spec fn renamed_before(entries: Seq<Entry>, x: int, y: int) -> bool {
    entries[x].depth > entries[y].depth || (entries[x].depth == entries[y].depth && x < y)
}

/// `plan` renames exactly the entries that get a new name, each once, to
/// that name, deepest first.
pub open spec fn is_rename_plan(entries: Seq<Entry>, plan: Seq<PlannedRename>, a: Args) -> bool {
    &&& forall|i: int|
        0 <= i < plan.len() ==> {
            &&& (#[trigger] plan[i]).index < entries.len()
            &&& new_name_of(entries[plan[i].index as int], a) == Some(plan[i].new_name@)
        }
    &&& forall|i: int, j: int|
        0 <= i < j < plan.len() ==> renamed_before(
            entries,
            (#[trigger] plan[i]).index as int,
            (#[trigger] plan[j]).index as int,
        )
    &&& forall|k: int|
        0 <= k < entries.len() && (#[trigger] new_name_of(entries[k], a)) is Some ==> exists|
            i: int,
        |
            0 <= i < plan.len() && (#[trigger] plan[i]).index == k
}

/// The new name of a walked entry, where it gets one.
pub fn rename_path(entry: &Entry, args: &Args) -> (r: Option<String>)
    requires
        rules_well_formed(args.rules@),
    ensures
        match r {
            Some(m) => new_name_of(*entry, *args) == Some(m@),
            None => new_name_of(*entry, *args) is None,
        },
{
    match &entry.name {
        Some(n) => {
            if (entry.is_dir && args.rename_dir) || (!entry.is_dir && args.rename_file) {
                let m = apply_rule_list(n.as_str(), &args.rules, args.case_enabled);
                if m == *n {
                    None
                } else {
                    Some(m)
                }
            } else {
                None
            }
        },
        None => None,
    }
}

/// Plan the renames of one walk: every entry that gets a new name, deepest
/// first, so that no rename moves a path that a later rename still uses.
pub fn scan_and_replace(entries: &Vec<Entry>, args: &Args) -> (plan: Vec<PlannedRename>)
    requires
        rules_well_formed(args.rules@),
    ensures
        is_rename_plan(entries@, plan@, *args),
{
    let n = entries.len();
    let mut deepest: usize = 0;
    let mut k: usize = 0;
    while k < n
        invariant
            n == entries@.len(),
            k <= n,
            forall|x: int| 0 <= x < k ==> (#[trigger] entries@[x]).depth <= deepest,
        decreases n - k,
    {
        if entries[k].depth > deepest {
            deepest = entries[k].depth;
        }
        k = k + 1;
    }
    let mut plan: Vec<PlannedRename> = Vec::new();
    let mut d: usize = deepest;
    let mut finished = false;
    while !finished
        invariant
            n == entries@.len(),
            rules_well_formed(args.rules@),
            forall|x: int| 0 <= x < n ==> (#[trigger] entries@[x]).depth <= deepest,
            d <= deepest,
            forall|i: int|
                0 <= i < plan@.len() ==> {
                    &&& (#[trigger] plan@[i]).index < n
                    &&& new_name_of(entries@[plan@[i].index as int], *args) == Some(
                        plan@[i].new_name@,
                    )
                    &&& !finished ==> entries@[plan@[i].index as int].depth > d
                },
            forall|i: int, j: int|
                0 <= i < j < plan@.len() ==> renamed_before(
                    entries@,
                    (#[trigger] plan@[i]).index as int,
                    (#[trigger] plan@[j]).index as int,
                ),
            forall|x: int|
                0 <= x < n && (finished || entries@[x].depth > d) && (#[trigger] new_name_of(
                    entries@[x],
                    *args,
                )) is Some ==> exists|i: int| 0 <= i < plan@.len() && (#[trigger] plan@[i]).index == x,
        decreases d + (if finished { 0int } else { 1int }),
    {
        let mut j: usize = 0;
        while j < n
            invariant
                n == entries@.len(),
                rules_well_formed(args.rules@),
                j <= n,
                forall|i: int|
                    0 <= i < plan@.len() ==> {
                        &&& (#[trigger] plan@[i]).index < n
                        &&& new_name_of(entries@[plan@[i].index as int], *args) == Some(
                            plan@[i].new_name@,
                        )
                        &&& (entries@[plan@[i].index as int].depth > d || (entries@[plan@[i].index as int].depth == d && plan@[i].index < j))
                    },
                forall|i: int, i2: int|
                    0 <= i < i2 < plan@.len() ==> renamed_before(
                        entries@,
                        (#[trigger] plan@[i]).index as int,
                        (#[trigger] plan@[i2]).index as int,
                    ),
                forall|x: int|
                    0 <= x < n && (entries@[x].depth > d || (entries@[x].depth == d && x < j))
                        && (#[trigger] new_name_of(entries@[x], *args)) is Some ==> exists|i: int|
                        0 <= i < plan@.len() && (#[trigger] plan@[i]).index == x,
            decreases n - j,
        {
            if entries[j].depth == d {
                match rename_path(&entries[j], args) {
                    Some(m) => {
                        let ghost before = plan@;
                        plan.push(PlannedRename { index: j, new_name: m });
                        assert(plan@[before.len() as int].index == j);
                        assert forall|x: int|
                            0 <= x < n && (entries@[x].depth > d || (entries@[x].depth == d && x
                                < j + 1)) && (#[trigger] new_name_of(entries@[x], *args)) is Some
                            implies exists|i: int|
                            0 <= i < plan@.len() && (#[trigger] plan@[i]).index == x by {
                            if x == j {
                                assert(plan@[before.len() as int].index == x);
                            } else {
                                let i = choose|i: int|
                                    0 <= i < before.len() && (#[trigger] before[i]).index == x;
                                assert(plan@[i] == before[i]);
                            }
                        }
                    },
                    None => {},
                }
            }
            j = j + 1;
        }
        if d == 0 {
            finished = true;
        } else {
            d = d - 1;
        }
    }
    plan
}

/// A deeper entry is renamed before a shallower one: a path inside a
/// directory is never renamed after the directory itself.
pub proof fn lemma_deeper_renamed_first(
    entries: Seq<Entry>,
    plan: Seq<PlannedRename>,
    a: Args,
    i: int,
    j: int,
)
    requires
        is_rename_plan(entries, plan, a),
        0 <= i < plan.len(),
        0 <= j < plan.len(),
        entries[plan[i].index as int].depth > entries[plan[j].index as int].depth,
    ensures
        i < j,
{
    if j < i {
        assert(renamed_before(entries, plan[j].index as int, plan[i].index as int));
    } else if i == j {
    }
}

/// The roots an in-place run walks: the given files, or the current
/// directory where none are given.
pub fn scan_roots(args: &Args) -> (r: Vec<String>)
    ensures
        args.files@.len() == 0 ==> r@.len() == 1 && r@[0]@ == seq!['.'],
        args.files@.len() > 0 ==> r@.len() == args.files@.len() && forall|i: int|
            0 <= i < r@.len() ==> (#[trigger] r@[i])@ == args.files@[i]@,
{
    let mut roots: Vec<String> = Vec::new();
    if args.files.len() == 0 {
        let dot: Vec<char> = vec!['.'];
        roots.push(string_of(&dot));
        return roots;
    }
    let mut i: usize = 0;
    while i < args.files.len()
        invariant
            i <= args.files@.len(),
            roots@.len() == i,
            forall|k: int| 0 <= k < i ==> (#[trigger] roots@[k])@ == args.files@[k]@,
        decreases args.files@.len() - i,
    {
        roots.push(args.files[i].clone());
        i = i + 1;
    }
    roots
}

/// The new content of a file in in-place mode, where it changes: text with
/// the rules applied, written back only where that differs; content that is
/// not text is never rewritten.
pub fn process_file_content(content: FileContent, args: &Args) -> (r: Option<String>)
    requires
        rules_well_formed(args.rules@),
    ensures
        content is Binary ==> r is None,
        content matches FileContent::Text(t) ==> {
            let m = apply_rules(t@, rules_view(args.rules@), args.case_enabled);
            &&& m == t@ ==> r is None
            &&& m != t@ ==> (r matches Some(u) && u@ == m)
        },
{
    match content {
        FileContent::Text(t) => {
            let m = apply_rule_list(t.as_str(), &args.rules, args.case_enabled);
            if m == t {
                None
            } else {
                Some(m)
            }
        },
        FileContent::Binary(_) => None,
    }
}

} // verus!
