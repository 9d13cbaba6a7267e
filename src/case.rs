//! Naming conventions: detecting the style of a token, converting a token to
//! a style, and replacing a rule together with its case variants.
use vstd::prelude::*;
use convert_case::{Case, Casing};
use crate::text::{chars_of, lemma_replace_absent, occurs, replace_all, replace_seq, string_of};

verus! {

/// String naming convention (case) types.
#[derive(Debug, Clone, Copy, PartialEq, Eq, Structural)]
pub enum StringCase {
    /// HelloWorld
    Pascal,
    /// hello-world
    Kebab,
    /// helloWorld
    Camel,
    /// HELLO_WORLD
    ScreamingSnake,
    /// hello_world
    Snake,
    /// anything else
    Unknown,
}

/// Whether `char::is_uppercase` holds of `c`.
pub uninterp spec fn upper_char(c: char) -> bool;

/// Whether `char::is_lowercase` holds of `c`.
pub uninterp spec fn lower_char(c: char) -> bool;

/// What `str::to_uppercase` returns for `s`.
pub uninterp spec fn upper_of(s: Seq<char>) -> Seq<char>;

/// What convert_case's `to_case` returns for `s` and the case that stands
/// for `style`.
pub uninterp spec fn cased(s: Seq<char>, style: StringCase) -> Seq<char>;

/// Relies on `char::is_uppercase` (the Unicode Uppercase property).
#[verifier::external_body]
fn is_upper(c: char) -> (r: bool)
    ensures
        r == upper_char(c),
{
    c.is_uppercase()
}

/// Relies on `char::is_lowercase` (the Unicode Lowercase property).
#[verifier::external_body]
fn is_lower(c: char) -> (r: bool)
    ensures
        r == lower_char(c),
{
    c.is_lowercase()
}

/// Relies on `str::to_uppercase`: the result depends on the characters alone.
#[verifier::external_body]
fn to_upper(s: &str) -> (r: String)
    ensures
        r@ == upper_of(s@),
{
    s.to_uppercase()
}

/// Relies on convert_case's `Casing::to_case`, which splits `s` into words at
/// the default boundaries and joins them in the target case; the result
/// depends on `s` and the case alone.
#[verifier::external_body]
fn to_case(s: &str, style: StringCase) -> (r: String)
    requires
        style != StringCase::Unknown,
    ensures
        r@ == cased(s@, style),
{
    let case = match style {
        StringCase::Pascal => Case::Pascal,
        StringCase::Kebab => Case::Kebab,
        StringCase::Camel => Case::Camel,
        StringCase::ScreamingSnake => Case::UpperSnake,
        // `Unknown` is excluded by the precondition.
        StringCase::Snake | StringCase::Unknown => Case::Snake,
    };
    s.to_case(case)
}

/// Some character of `s` is uppercase.
pub open spec fn has_upper(s: Seq<char>) -> bool {
    exists|i: int| 0 <= i < s.len() && upper_char(#[trigger] s[i])
}

/// Some character of `s` is lowercase.
pub open spec fn has_lower(s: Seq<char>) -> bool {
    exists|i: int| 0 <= i < s.len() && lower_char(#[trigger] s[i])
}

/// The first character of `s` is uppercase (an empty `s` has none).
pub open spec fn starts_upper(s: Seq<char>) -> bool {
    s.len() > 0 && upper_char(s[0])
}

/// The style of a token: a hyphen makes it kebab; an underscore makes it
/// screaming snake when uppercasing leaves it as it is, snake otherwise;
/// otherwise camel when it starts lowercase-or-uncased and has an uppercase
/// letter, Pascal when it starts uppercase and has a lowercase letter.
pub open spec fn detected(s: Seq<char>) -> StringCase {
    if s.contains('-') {
        StringCase::Kebab
    } else if s.contains('_') {
        if upper_of(s) == s {
            StringCase::ScreamingSnake
        } else {
            StringCase::Snake
        }
    } else if !starts_upper(s) && has_upper(s) {
        StringCase::Camel
    } else if starts_upper(s) && has_lower(s) {
        StringCase::Pascal
    } else {
        StringCase::Unknown
    }
}

/// A token converted to a style; `Unknown` leaves it as it is.
pub open spec fn converted(s: Seq<char>, style: StringCase) -> Seq<char> {
    if style == StringCase::Unknown {
        s
    } else {
        cased(s, style)
    }
}

/// Whether `c` occurs in `v`.
fn has_char(v: &Vec<char>, c: char) -> (r: bool)
    ensures
        r == v@.contains(c),
{
    let mut i: usize = 0;
    while i < v.len()
        invariant
            i <= v@.len(),
            forall|k: int| 0 <= k < i ==> v@[k] != c,
        decreases v@.len() - i,
    {
        if v[i] == c {
            assert(v@[i as int] == c);
            return true;
        }
        i = i + 1;
    }
    false
}

/// Whether some character of `v` is uppercase (`lower` false) or lowercase
/// (`lower` true).
fn any_cased(v: &Vec<char>, lower: bool) -> (r: bool)
    ensures
        lower ==> r == has_lower(v@),
        !lower ==> r == has_upper(v@),
{
    let mut i: usize = 0;
    while i < v.len()
        invariant
            i <= v@.len(),
            lower ==> forall|k: int| 0 <= k < i ==> !lower_char(#[trigger] v@[k]),
            !lower ==> forall|k: int| 0 <= k < i ==> !upper_char(#[trigger] v@[k]),
        decreases v@.len() - i,
    {
        let c = v[i];
        if (lower && is_lower(c)) || (!lower && is_upper(c)) {
            return true;
        }
        i = i + 1;
    }
    false
}

/// Detect the case style of a string.
pub fn detect_case(s: &str) -> (r: StringCase)
    ensures
        r == detected(s@),
{
    let v = chars_of(s);
    if has_char(&v, '-') {
        StringCase::Kebab
    } else if has_char(&v, '_') {
        let upper = to_upper(s);
        let same = upper == s.to_owned();
        if same {
            StringCase::ScreamingSnake
        } else {
            StringCase::Snake
        }
    } else {
        let first_upper = v.len() > 0 && is_upper(v[0]);
        if !first_upper && any_cased(&v, false) {
            StringCase::Camel
        } else if first_upper && any_cased(&v, true) {
            StringCase::Pascal
        } else {
            StringCase::Unknown
        }
    }
}

/// Convert a string to a specified case style.
pub fn convert_case(s: &str, case_type: &StringCase) -> (r: String)
    ensures
        r@ == converted(s@, *case_type),
{
    match case_type {
        StringCase::Unknown => s.to_owned(),
        _ => to_case(s, *case_type),
    }
}

/// The concrete styles in the order in which their variants are applied.
pub open spec fn style_at(k: int) -> StringCase {
    if k == 0 {
        StringCase::Pascal
    } else if k == 1 {
        StringCase::Kebab
    } else if k == 2 {
        StringCase::Camel
    } else if k == 3 {
        StringCase::ScreamingSnake
    } else {
        StringCase::Snake
    }
}

/// One variant pass: the `style` form of `from` is replaced in `acc` by the
/// `style` form of `to`, unless that form equals `from`, is empty, or does
/// not occur in the pristine content.
pub open spec fn variant_pass(
    pristine: Seq<char>,
    acc: Seq<char>,
    from: Seq<char>,
    to: Seq<char>,
    style: StringCase,
) -> Seq<char> {
    let fv = cased(from, style);
    if fv == from || fv.len() == 0 || !occurs(pristine, fv) {
        acc
    } else {
        replace_all(acc, fv, cased(to, style))
    }
}

/// The literal replacement followed by the variant passes of the first `k`
/// styles.
pub open spec fn variants_through(
    content: Seq<char>,
    from: Seq<char>,
    to: Seq<char>,
    k: nat,
) -> Seq<char>
    decreases k,
{
    if k == 0 {
        replace_all(content, from, to)
    } else {
        variant_pass(
            content,
            variants_through(content, from, to, (k - 1) as nat),
            from,
            to,
            style_at(k - 1),
        )
    }
}

/// `content` with `from` replaced by `to`, and then each case variant of
/// `from` that occurs in `content` replaced by the same variant of `to`.
pub open spec fn case_aware_replace(content: Seq<char>, from: Seq<char>, to: Seq<char>) -> Seq<
    char,
> {
    variants_through(content, from, to, 5)
}

fn style_for(k: usize) -> (r: StringCase)
    ensures
        r == style_at(k as int),
{
    if k == 0 {
        StringCase::Pascal
    } else if k == 1 {
        StringCase::Kebab
    } else if k == 2 {
        StringCase::Camel
    } else if k == 3 {
        StringCase::ScreamingSnake
    } else {
        StringCase::Snake
    }
}

/// Replace strings while considering multiple case variants. It never fails.
pub fn replace_with_case_variants(content: &str, from: &str, to: &str) -> (r: Result<
    String,
    String,
>)
    requires
        from@.len() > 0,
    ensures
        r matches Ok(out) && out@ == case_aware_replace(content@, from@, to@),
{
    let pristine = chars_of(content);
    let from_chars = chars_of(from);
    let to_chars = chars_of(to);
    let from_owned = from.to_owned();
    let mut result = replace_seq(&pristine, &from_chars, &to_chars);
    let mut k: usize = 0;
    while k < 5
        invariant
            k <= 5,
            from_owned@ == from@,
            pristine@ == content@,
            result@ == variants_through(content@, from@, to@, k as nat),
        decreases 5 - k,
    {
        let style = style_for(k);
        let from_variant = to_case(from, style);
        let fv = chars_of(from_variant.as_str());
        if !(from_variant == from_owned) && fv.len() > 0 && crate::text::contains_seq(
            &pristine,
            &fv,
        ) {
            let to_variant = to_case(to, style);
            let tv = chars_of(to_variant.as_str());
            result = replace_seq(&result, &fv, &tv);
        }
        k = k + 1;
    }
    Ok(string_of(&result))
}

/// `from` occurs in `content` in no form: neither literally nor as any of
/// its case variants.
pub open spec fn absent_in_every_form(content: Seq<char>, from: Seq<char>) -> bool {
    !occurs(content, from) && forall|k: int|
        0 <= k < 5 ==> !occurs(content, #[trigger] cased(from, style_at(k)))
}

proof fn lemma_absent_through(content: Seq<char>, from: Seq<char>, to: Seq<char>, k: nat)
    requires
        absent_in_every_form(content, from),
        k <= 5,
    ensures
        variants_through(content, from, to, k) == content,
    decreases k,
{
    if k == 0 {
        lemma_replace_absent(content, from, to);
    } else {
        lemma_absent_through(content, from, to, (k - 1) as nat);
        assert(!occurs(content, cased(from, style_at(k - 1))));
    }
}

/// A rule whose `from` occurs in the content in no form, literal or case
/// variant, leaves the content unchanged.
pub proof fn lemma_absent_rule_keeps_content(content: Seq<char>, from: Seq<char>, to: Seq<char>)
    requires
        absent_in_every_form(content, from),
    ensures
        case_aware_replace(content, from, to) == content,
{
    lemma_absent_through(content, from, to, 5);
}

} // verus!
