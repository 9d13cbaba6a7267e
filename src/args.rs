//! The run configuration: replacement rules, copy specifications and the
//! mode of a run, with their validation.
use vstd::prelude::*;

verus! {

/// Execution mode of the application.
#[derive(Debug, Clone, Copy, PartialEq, Eq, Structural)]
pub enum Mode {
    /// No specific mode
    Unspecified,
    /// Read from standard input, write to standard output
    StdinStdout,
    /// Replace only file contents
    Files,
    /// Replace file contents and file and directory names
    FilesAndNames,
    /// Copy files and directories with replacements
    Copy,
}

impl Default for Mode {
    fn default() -> (r: Mode)
        ensures
            r == Mode::Unspecified,
    {
        Mode::Unspecified
    }
}

/// Copy operation specification.
#[derive(Debug, Clone)]
pub struct CopySpec {
    /// Source path
    pub source: String,
    /// Target path
    pub target: String,
}

/// Replacement rule.
#[derive(Debug, Clone)]
pub struct ReplacementRule {
    /// String to replace
    pub from: String,
    /// String to replace it with
    pub to: String,
}

/// Run configuration: the raw command-line values and what is compiled from them.
#[derive(Debug)]
pub struct Args {
    /// Raw replacement rules, `FROM TO` pairs in order
    pub replacement_rules: Vec<String>,
    /// Raw copy arguments: sources followed by one target
    pub copy_specs_raw: Vec<String>,
    /// Files to process
    pub files: Vec<String>,
    /// Replace in file and directory names as well
    pub in_place: bool,
    /// Include files that match ignore-file patterns
    pub include_git_ignore: bool,
    /// Verbose output
    pub verbose: bool,
    /// Execution mode
    pub mode: Mode,
    /// Compiled list of replacement rules
    pub rules: Vec<ReplacementRule>,
    /// Compiled list of copy specifications
    pub copy_specs: Vec<CopySpec>,
    /// Case variants of each rule are replaced too
    pub case_enabled: bool,
    /// File names are transformed
    pub rename_file: bool,
    /// Directory names are transformed
    pub rename_dir: bool,
}

/// Why a configuration was refused.
#[derive(Debug, Clone, Copy, PartialEq, Eq, Structural)]
pub enum ArgsError {
    /// `--copy` was given fewer than a source and a target
    CopyNeedsSourceAndTarget,
    /// The raw replacement values do not come in `FROM TO` pairs
    UnpairedReplacement,
    /// A rule has an empty `FROM`
    EmptyFrom,
    /// Rules were given but there is nothing to apply them to
    NoReplacementTarget,
    /// No rules were given outside copy mode
    NoReplacementRules,
    /// Copy mode without copy specifications
    NoCopySpecs,
    /// Files mode without files
    NoInputFiles,
}

/// A rule as a pair of character sequences.
pub open spec fn rule_view(r: ReplacementRule) -> (Seq<char>, Seq<char>) {
    (r.from@, r.to@)
}

/// The rules of a list as pairs.
pub open spec fn rules_view(rules: Seq<ReplacementRule>) -> Seq<(Seq<char>, Seq<char>)> {
    rules.map_values(|r: ReplacementRule| rule_view(r))
}

/// `rules` with every rule of the same `from` removed, then `(from, to)`
/// appended: the later rule wins.
pub open spec fn add_rule(
    rules: Seq<(Seq<char>, Seq<char>)>,
    from: Seq<char>,
    to: Seq<char>,
) -> Seq<(Seq<char>, Seq<char>)> {
    rules.filter(|r: (Seq<char>, Seq<char>)| r.0 != from).push((from, to))
}

/// `rules` after adding the first `n` pairs of `raw` in order.
pub open spec fn add_pairs(
    rules: Seq<(Seq<char>, Seq<char>)>,
    raw: Seq<String>,
    n: nat,
) -> Seq<(Seq<char>, Seq<char>)>
    decreases n,
{
    if n == 0 {
        rules
    } else {
        add_rule(add_pairs(rules, raw, (n - 1) as nat), raw[2 * n - 2]@, raw[2 * n - 1]@)
    }
}

/// Some `FROM` value among the raw pairs is empty.
pub open spec fn has_empty_from(raw: Seq<String>) -> bool {
    exists|i: int| 0 <= i < raw.len() && i % 2 == 0 && (#[trigger] raw[i])@.len() == 0
}

/// Every field of `a` but `rules` equals that of `b`.
pub open spec fn same_but_rules(a: Args, b: Args) -> bool {
    &&& a.replacement_rules == b.replacement_rules
    &&& a.copy_specs_raw == b.copy_specs_raw
    &&& a.files == b.files
    &&& a.in_place == b.in_place
    &&& a.include_git_ignore == b.include_git_ignore
    &&& a.verbose == b.verbose
    &&& a.mode == b.mode
    &&& a.copy_specs == b.copy_specs
    &&& a.case_enabled == b.case_enabled
    &&& a.rename_file == b.rename_file
    &&& a.rename_dir == b.rename_dir
}

/// The checks that follow rule compilation, given the number of compiled
/// rules, the mode, the number of copy specifications and of files.
pub open spec fn consistency_error(n_rules: nat, mode: Mode, n_copies: nat, n_files: nat) -> Option<
    ArgsError,
> {
    if n_rules > 0 && mode == Mode::Unspecified {
        Some(ArgsError::NoReplacementTarget)
    } else if mode != Mode::Copy && n_rules == 0 {
        Some(ArgsError::NoReplacementRules)
    } else if mode == Mode::Copy && n_copies == 0 {
        Some(ArgsError::NoCopySpecs)
    } else if mode == Mode::Files && n_files == 0 {
        Some(ArgsError::NoInputFiles)
    } else {
        None
    }
}

/// The error in the raw replacement values, if any: they must come in
/// pairs, and no `FROM` may be empty.
pub open spec fn rule_error(raw: Seq<String>) -> Option<ArgsError> {
    if raw.len() % 2 == 1 {
        Some(ArgsError::UnpairedReplacement)
    } else if has_empty_from(raw) {
        Some(ArgsError::EmptyFrom)
    } else {
        None
    }
}

/// The rules of `a` once its raw pairs are added.
pub open spec fn compiled_rules(a: Args) -> Seq<(Seq<char>, Seq<char>)> {
    add_pairs(rules_view(a.rules@), a.replacement_rules@, a.replacement_rules@.len() / 2)
}

/// `Ok(())` where there is no error.
pub open spec fn outcome(e: Option<ArgsError>) -> Result<(), ArgsError> {
    match e {
        Some(e) => Err(e),
        None => Ok(()),
    }
}

fn copy_rule(r: &ReplacementRule) -> (c: ReplacementRule)
    ensures
        rule_view(c) == rule_view(*r),
{
    ReplacementRule { from: r.from.clone(), to: r.to.clone() }
}

/// Adds a rule to `rules`, evicting any earlier rule with the same `from`.
fn insert_rule(rules: &mut Vec<ReplacementRule>, from: String, to: String)
    ensures
        rules_view(final(rules)@) == add_rule(rules_view(old(rules)@), from@, to@),
{
    let ghost pred = |r: (Seq<char>, Seq<char>)| r.0 != from@;
    let mut kept: Vec<ReplacementRule> = Vec::new();
    let mut i: usize = 0;
    while i < rules.len()
        invariant
            i <= rules@.len(),
            rules@ == old(rules)@,
            pred == (|r: (Seq<char>, Seq<char>)| r.0 != from@),
            rules_view(kept@) == rules_view(rules@.subrange(0, i as int)).filter(pred),
        decreases rules@.len() - i,
    {
        let ghost prefix = rules_view(rules@.subrange(0, i as int));
        proof {
            assert(rules_view(rules@.subrange(0, i + 1)) =~= prefix.push(rule_view(rules@[i as int])));
            assert(prefix.push(rule_view(rules@[i as int])).drop_last() =~= prefix);
            reveal_with_fuel(Seq::filter, 1);
        }
        let same = rules[i].from == from;
        if !same {
            let c = copy_rule(&rules[i]);
            let ghost earlier = kept@;
            kept.push(c);
            assert(rules_view(kept@) =~= rules_view(earlier).push(rule_view(c)));
        }
        i = i + 1;
    }
    assert(rules@.subrange(0, rules@.len() as int) =~= rules@);
    let ghost before = kept@;
    kept.push(ReplacementRule { from, to });
    assert(rules_view(kept@) =~= rules_view(before).push((from@, to@)));
    *rules = kept;
}

/// Validate the raw replacement values, compile them into `args.rules`
/// (a later rule evicts an earlier one with the same `from`), then check
/// that the configuration is consistent.
pub fn validate_args(args: &mut Args) -> (r: Result<(), ArgsError>)
    ensures
        same_but_rules(*final(args), *old(args)),
        rule_error(old(args).replacement_rules@) is Some ==> r == Err::<(), ArgsError>(
            rule_error(old(args).replacement_rules@).unwrap(),
        ) && rules_view(final(args).rules@) == rules_view(old(args).rules@),
        rule_error(old(args).replacement_rules@) is None ==> rules_view(final(args).rules@)
            == compiled_rules(*old(args)) && r == outcome(
            consistency_error(
                final(args).rules@.len(),
                final(args).mode,
                final(args).copy_specs@.len(),
                final(args).files@.len(),
            ),
        ),
{
    let n = args.replacement_rules.len();
    if n > 0 {
        if n % 2 != 0 {
            return Err(ArgsError::UnpairedReplacement);
        }
        let mut i: usize = 0;
        while i < n
            invariant
                n == args.replacement_rules@.len(),
                n % 2 == 0,
                i <= n,
                i % 2 == 0,
                forall|k: int|
                    0 <= k < i && k % 2 == 0 ==> (#[trigger] args.replacement_rules@[k])@.len() > 0,
            decreases n - i,
        {
            if args.replacement_rules[i].as_str().is_empty() {
                return Err(ArgsError::EmptyFrom);
            }
            i = i + 2;
        }
        let ghost start = rules_view(args.rules@);
        let mut p: usize = 0;
        while p < n / 2
            invariant
                n == args.replacement_rules@.len(),
                n % 2 == 0,
                p <= n / 2,
                same_but_rules(*args, *old(args)),
                start == rules_view(old(args).rules@),
                rules_view(args.rules@) == add_pairs(start, args.replacement_rules@, p as nat),
            decreases n / 2 - p,
        {
            let from = args.replacement_rules[2 * p].clone();
            let to = args.replacement_rules[2 * p + 1].clone();
            insert_rule(&mut args.rules, from, to);
            p = p + 1;
        }
    }
    proof {
        if n == 0 {
            assert(add_pairs(rules_view(old(args).rules@), old(args).replacement_rules@, 0)
                == rules_view(old(args).rules@));
        }
    }
    if args.rules.len() > 0 && args.mode == Mode::Unspecified {
        return Err(ArgsError::NoReplacementTarget);
    }
    if args.mode != Mode::Copy && args.rules.len() == 0 {
        return Err(ArgsError::NoReplacementRules);
    }
    if args.mode == Mode::Copy && args.copy_specs.len() == 0 {
        return Err(ArgsError::NoCopySpecs);
    }
    if args.mode == Mode::Files && args.files.len() == 0 {
        return Err(ArgsError::NoInputFiles);
    }
    Ok(())
}

impl Default for Args {
    fn default() -> (r: Args)
        ensures
            r.replacement_rules@.len() == 0,
            r.copy_specs_raw@.len() == 0,
            r.files@.len() == 0,
            !r.in_place,
            !r.include_git_ignore,
            !r.verbose,
            r.mode == Mode::Unspecified,
            r.rules@.len() == 0,
            r.copy_specs@.len() == 0,
            r.case_enabled,
            r.rename_file,
            r.rename_dir,
    {
        Args {
            replacement_rules: Vec::new(),
            copy_specs_raw: Vec::new(),
            files: Vec::new(),
            in_place: false,
            include_git_ignore: false,
            verbose: false,
            mode: Mode::Unspecified,
            rules: Vec::new(),
            copy_specs: Vec::new(),
            case_enabled: true,
            rename_file: true,
            rename_dir: true,
        }
    }
}

/// A copy specification as a (source, target) pair.
pub open spec fn copy_view(c: CopySpec) -> (Seq<char>, Seq<char>) {
    (c.source@, c.target@)
}

/// The copy specifications of a list as pairs.
pub open spec fn copies_view(c: Seq<CopySpec>) -> Seq<(Seq<char>, Seq<char>)> {
    c.map_values(|x: CopySpec| copy_view(x))
}

/// Raw copy arguments as pairs: every argument but the last is a source,
/// and the last is the target of each.
pub open spec fn copy_pairs(raw: Seq<String>) -> Seq<(Seq<char>, Seq<char>)> {
    Seq::new((raw.len() - 1) as nat, |i: int| (raw[i]@, raw.last()@))
}

/// The mode a run takes: copy where copy arguments were given; else
/// in-place renaming, else file contents, else standard input where it is
/// not a terminal; else the mode already set.
pub open spec fn selected_mode(a: Args, stdin_is_terminal: bool) -> Mode {
    if a.copy_specs_raw@.len() > 0 {
        Mode::Copy
    } else if a.in_place {
        Mode::FilesAndNames
    } else if a.files@.len() > 0 {
        Mode::Files
    } else if !stdin_is_terminal {
        Mode::StdinStdout
    } else {
        a.mode
    }
}

/// Complete the raw command-line values into a run configuration: all
/// transformations are enabled, copy specifications are built from the raw
/// copy arguments, the mode is selected, and the rules are compiled and
/// validated.
pub fn parse(args: Args, stdin_is_terminal: bool) -> (r: Result<Args, ArgsError>)
    ensures
        args.copy_specs_raw@.len() == 1 ==> r == Err::<Args, ArgsError>(
            ArgsError::CopyNeedsSourceAndTarget,
        ),
        args.copy_specs_raw@.len() != 1 && rule_error(args.replacement_rules@) is Some ==> r
            == Err::<Args, ArgsError>(rule_error(args.replacement_rules@).unwrap()),
        args.copy_specs_raw@.len() != 1 && rule_error(args.replacement_rules@) is None ==> {
            let n_copies: nat = if args.copy_specs_raw@.len() > 0 {
                (args.copy_specs_raw@.len() - 1) as nat
            } else {
                0
            };
            let e = consistency_error(
                compiled_rules(args).len(),
                selected_mode(args, stdin_is_terminal),
                n_copies,
                args.files@.len(),
            );
            &&& e is Some ==> r == Err::<Args, ArgsError>(e.unwrap())
            &&& e is None ==> (r matches Ok(out) && {
                &&& out.mode == selected_mode(args, stdin_is_terminal)
                &&& rules_view(out.rules@) == compiled_rules(args)
                &&& args.copy_specs_raw@.len() > 0 ==> copies_view(out.copy_specs@) == copy_pairs(
                    args.copy_specs_raw@,
                )
                &&& args.copy_specs_raw@.len() == 0 ==> out.copy_specs@.len() == 0
                &&& out.case_enabled && out.rename_file && out.rename_dir
                &&& out.files == args.files
                &&& out.in_place == args.in_place
                &&& out.include_git_ignore == args.include_git_ignore
                &&& out.verbose == args.verbose
            })
        },
{
    let mut args = args;
    let ghost given = args;
    args.case_enabled = true;
    args.rename_file = true;
    args.rename_dir = true;
    args.copy_specs = Vec::new();
    let n = args.copy_specs_raw.len();
    if n > 0 {
        if n < 2 {
            return Err(ArgsError::CopyNeedsSourceAndTarget);
        }
        let target = args.copy_specs_raw[n - 1].clone();
        let mut i: usize = 0;
        while i < n - 1
            invariant
                2 <= n == args.copy_specs_raw@.len(),
                i <= n - 1,
                target@ == args.copy_specs_raw@.last()@,
                args.copy_specs_raw == given.copy_specs_raw,
                args.replacement_rules == given.replacement_rules,
                args.files == given.files,
                args.rules == given.rules,
                args.in_place == given.in_place,
                args.include_git_ignore == given.include_git_ignore,
                args.verbose == given.verbose,
                args.mode == given.mode,
                args.case_enabled && args.rename_file && args.rename_dir,
                copies_view(args.copy_specs@) == copy_pairs(args.copy_specs_raw@).subrange(
                    0,
                    i as int,
                ),
            decreases n - 1 - i,
        {
            let source = args.copy_specs_raw[i].clone();
            let spec_item = CopySpec { source, target: target.clone() };
            let ghost earlier = args.copy_specs@;
            args.copy_specs.push(spec_item);
            assert(copies_view(args.copy_specs@) =~= copies_view(earlier).push(
                copy_view(spec_item),
            ));
            i = i + 1;
            assert(copies_view(args.copy_specs@) =~= copy_pairs(args.copy_specs_raw@).subrange(
                0,
                i as int,
            ));
        }
        assert(copy_pairs(args.copy_specs_raw@).subrange(0, (n - 1) as int) =~= copy_pairs(
            args.copy_specs_raw@,
        ));
        args.mode = Mode::Copy;
    } else {
        if args.in_place {
            args.mode = Mode::FilesAndNames;
        } else if args.files.len() > 0 {
            args.mode = Mode::Files;
        } else if !stdin_is_terminal {
            args.mode = Mode::StdinStdout;
        }
    }
    match validate_args(&mut args) {
        Ok(()) => Ok(args),
        Err(e) => Err(e),
    }
}

} // verus!
