//! Applying a rule set to content: each rule in order, each rule's output
//! feeding the next.
use vstd::prelude::*;
use crate::args::{rule_view, rules_view, Args, ReplacementRule};
use crate::case::{case_aware_replace, replace_with_case_variants};
use crate::text::{chars_of, replace_all, replace_seq, string_of};

verus! {

/// The content of a file: text where it decodes as UTF-8, bytes otherwise.
#[derive(Debug)]
pub enum FileContent {
    /// Content that decodes as UTF-8
    Text(String),
    /// Content that does not
    Binary(Vec<u8>),
}

/// No rule of the list has an empty `from`.
pub open spec fn rules_well_formed(rules: Seq<ReplacementRule>) -> bool {
    forall|i: int| 0 <= i < rules.len() ==> (#[trigger] rules[i]).from@.len() > 0
}

/// One rule applied to `c`: with its case variants where `case_enabled`,
/// literally otherwise.
pub open spec fn apply_rule(c: Seq<char>, rule: (Seq<char>, Seq<char>), case_enabled: bool) -> Seq<
    char,
> {
    if case_enabled {
        case_aware_replace(c, rule.0, rule.1)
    } else {
        replace_all(c, rule.0, rule.1)
    }
}

/// The rules applied to `c` left to right.
pub open spec fn apply_rules(
    c: Seq<char>,
    rules: Seq<(Seq<char>, Seq<char>)>,
    case_enabled: bool,
) -> Seq<char>
    decreases rules.len(),
{
    if rules.len() == 0 {
        c
    } else {
        apply_rule(apply_rules(c, rules.drop_last(), case_enabled), rules.last(), case_enabled)
    }
}

/// Apply a single replacement, with its case variants where `case_enabled`.
pub fn apply_replacement(content: &str, from: &str, to: &str, case_enabled: bool) -> (r: String)
    requires
        from@.len() > 0,
    ensures
        r@ == apply_rule(content@, (from@, to@), case_enabled),
{
    if case_enabled {
        match replace_with_case_variants(content, from, to) {
            Ok(result) => result,
            Err(_) => {
                let c = chars_of(content);
                string_of(&replace_seq(&c, &chars_of(from), &chars_of(to)))
            },
        }
    } else {
        let c = chars_of(content);
        string_of(&replace_seq(&c, &chars_of(from), &chars_of(to)))
    }
}

/// Every rule of `rules` applied to `content` in order.
pub fn apply_rule_list(content: &str, rules: &Vec<ReplacementRule>, case_enabled: bool) -> (r:
    String)
    requires
        rules_well_formed(rules@),
    ensures
        r@ == apply_rules(content@, rules_view(rules@), case_enabled),
{
    let mut result = content.to_owned();
    let mut i: usize = 0;
    while i < rules.len()
        invariant
            i <= rules@.len(),
            rules_well_formed(rules@),
            result@ == apply_rules(content@, rules_view(rules@.subrange(0, i as int)), case_enabled),
        decreases rules@.len() - i,
    {
        proof {
            assert(rules_view(rules@.subrange(0, i + 1)).drop_last() =~= rules_view(
                rules@.subrange(0, i as int),
            ));
            assert(rules_view(rules@.subrange(0, i + 1)).last() == rule_view(rules@[i as int]));
            assert(rules@[i as int].from@.len() > 0);
        }
        result = apply_replacement(result.as_str(), rules[i].from.as_str(), rules[i].to.as_str(), case_enabled);
        i = i + 1;
    }
    assert(rules@.subrange(0, rules@.len() as int) =~= rules@);
    result
}

/// Replace content according to the rules and the case option of `args`.
/// It never fails.
pub fn replace_content(content: &str, args: &Args) -> (r: Result<String, String>)
    requires
        rules_well_formed(args.rules@),
    ensures
        r matches Ok(out) && out@ == apply_rules(content@, rules_view(args.rules@), args.case_enabled),
{
    Ok(apply_rule_list(content, &args.rules, args.case_enabled))
}

} // verus!
