//! The transformations of copy mode: what a copied file holds, what a copied
//! entry is called, and what to do with a (source, target) pair.
use vstd::prelude::*;
use crate::args::{rules_view, ReplacementRule};
use crate::replacer::{apply_rule_list, apply_rules, rules_well_formed, FileContent};

verus! {

/// Apply all replacement rules to a string, each with its case variants.
pub fn apply_all_replacements(content: &str, rules: &Vec<ReplacementRule>) -> (r: String)
    requires
        rules_well_formed(rules@),
    ensures
        r@ == apply_rules(content@, rules_view(rules@), true),
{
    apply_rule_list(content, rules, true)
}

/// Whether the component at `i` of a path of `n` components names a
/// directory: every component but the last does, and the last does where the
/// entry is a directory.
pub open spec fn component_is_dir(i: int, n: int, leaf_is_dir: bool) -> bool {
    i < n - 1 || leaf_is_dir
}

/// A path component after transformation: the rules are applied where the
/// toggle for its kind is on.
pub open spec fn transformed_component(
    c: Seq<char>,
    is_dir: bool,
    rules: Seq<(Seq<char>, Seq<char>)>,
    rename_file: bool,
    rename_dir: bool,
) -> Seq<char> {
    if (is_dir && rename_dir) || (!is_dir && rename_file) {
        apply_rules(c, rules, true)
    } else {
        c
    }
}

/// Transform a relative path, given as its components, by applying the rules
/// to each component whose kind is to be renamed. Whether a component is a
/// directory is decided by the traversal: all but the last are, and the last
/// is where `leaf_is_dir`.
pub fn transform_path(
    path: &Vec<String>,
    leaf_is_dir: bool,
    rules: &Vec<ReplacementRule>,
    rename_file: bool,
    rename_dir: bool,
) -> (r: Vec<String>)
    requires
        rules_well_formed(rules@),
    ensures
        r@.len() == path@.len(),
        forall|i: int|
            0 <= i < path@.len() ==> (#[trigger] r@[i])@ == transformed_component(
                path@[i]@,
                component_is_dir(i, path@.len() as int, leaf_is_dir),
                rules_view(rules@),
                rename_file,
                rename_dir,
            ),
{
    let mut result: Vec<String> = Vec::new();
    let n = path.len();
    let mut i: usize = 0;
    while i < n
        invariant
            n == path@.len(),
            i <= n,
            rules_well_formed(rules@),
            result@.len() == i,
            forall|k: int|
                0 <= k < i ==> (#[trigger] result@[k])@ == transformed_component(
                    path@[k]@,
                    component_is_dir(k, n as int, leaf_is_dir),
                    rules_view(rules@),
                    rename_file,
                    rename_dir,
                ),
        decreases n - i,
    {
        let is_dir = i + 1 < n || leaf_is_dir;
        let component = if (is_dir && rename_dir) || (!is_dir && rename_file) {
            apply_all_replacements(path[i].as_str(), rules)
        } else {
            path[i].clone()
        };
        result.push(component);
        i = i + 1;
    }
    result
}

/// The name of the directory that a directory copy creates inside an
/// existing target directory: the source's name, transformed where
/// directories are renamed.
pub fn copy_root_name(source_name: &str, rules: &Vec<ReplacementRule>, rename_dir: bool) -> (r:
    String)
    requires
        rules_well_formed(rules@),
    ensures
        r@ == transformed_component(source_name@, true, rules_view(rules@), false, rename_dir),
{
    if rename_dir {
        apply_all_replacements(source_name, rules)
    } else {
        source_name.to_owned()
    }
}

/// What a copy writes for a file of the given content: text with the rules
/// applied, bytes that are not text as they are.
pub fn copied_content(content: FileContent, rules: &Vec<ReplacementRule>) -> (r: FileContent)
    requires
        rules_well_formed(rules@),
    ensures
        content matches FileContent::Text(t) ==> (r matches FileContent::Text(u) && u@
            == apply_rules(t@, rules_view(rules@), true)),
        content is Binary ==> r == content,
{
    match content {
        FileContent::Text(t) => FileContent::Text(apply_all_replacements(t.as_str(), rules)),
        FileContent::Binary(b) => FileContent::Binary(b),
    }
}

/// What to do with one (source, target) pair of a copy.
#[derive(Debug, Clone, Copy, PartialEq, Eq, Structural)]
pub enum CopyAction {
    /// The source does not exist: an error for this pair
    MissingSource,
    /// A directory cannot be copied onto a file: this pair is skipped
    DirectoryOntoFile,
    /// Copy a single file
    CopyFile,
    /// Copy a directory tree
    CopyDirectory,
    /// The source is neither a file nor a directory
    UnsupportedSource,
}

/// Classify a copy pair from what the file system holds at its source and
/// target.
pub fn copy_action(
    source_exists: bool,
    source_is_file: bool,
    source_is_dir: bool,
    target_exists: bool,
    target_is_file: bool,
) -> (r: CopyAction)
    ensures
        r == (if !source_exists {
            CopyAction::MissingSource
        } else if source_is_dir && target_exists && target_is_file {
            CopyAction::DirectoryOntoFile
        } else if source_is_file {
            CopyAction::CopyFile
        } else if source_is_dir {
            CopyAction::CopyDirectory
        } else {
            CopyAction::UnsupportedSource
        }),
{
    if !source_exists {
        CopyAction::MissingSource
    } else if source_is_dir && target_exists && target_is_file {
        CopyAction::DirectoryOntoFile
    } else if source_is_file {
        CopyAction::CopyFile
    } else if source_is_dir {
        CopyAction::CopyDirectory
    } else {
        CopyAction::UnsupportedSource
    }
}

} // verus!
