use mane::args::{parse, validate_args, Args, ArgsError, Mode, ReplacementRule};
use mane::case::{convert_case, detect_case, replace_with_case_variants, StringCase};
use mane::copier::{
    apply_all_replacements, copied_content, copy_action, copy_root_name, transform_path, CopyAction,
};
use mane::replacer::{apply_replacement, replace_content, FileContent};
use mane::scanner::{process_file_content, rename_path, scan_and_replace, scan_roots, Entry};
use mane::text::{contains_seq, replace_seq};

fn rule(from: &str, to: &str) -> ReplacementRule {
    ReplacementRule { from: from.to_string(), to: to.to_string() }
}

fn strings(items: &[&str]) -> Vec<String> {
    items.iter().map(|s| s.to_string()).collect()
}

fn chars(s: &str) -> Vec<char> {
    s.chars().collect()
}

const STYLES: [StringCase; 5] = [
    StringCase::Pascal,
    StringCase::Kebab,
    StringCase::Camel,
    StringCase::ScreamingSnake,
    StringCase::Snake,
];

#[test]
fn detect_of_converted_is_target_or_unknown() {
    for token in ["helloWorld", "HelloWorld", "hello_world", "HELLO_WORLD", "hello-world", "hello", "X", ""] {
        for style in STYLES {
            let once = convert_case(token, &style);
            let d = detect_case(&once);
            assert!(d == style || d == StringCase::Unknown, "{token} {style:?} -> {once} {d:?}");
            assert_eq!(convert_case(&once, &style), once);
        }
    }
}

#[test]
fn detect_edge_cases() {
    assert_eq!(detect_case(""), StringCase::Unknown);
    assert_eq!(detect_case("hello"), StringCase::Unknown);
    assert_eq!(detect_case("HELLO"), StringCase::Unknown);
    assert_eq!(detect_case("a_B-c"), StringCase::Kebab);
    assert_eq!(detect_case("Hello_world"), StringCase::Snake);
}

#[test]
fn convert_unknown_is_identity() {
    assert_eq!(convert_case("some_Mixed-token", &StringCase::Unknown), "some_Mixed-token");
}

#[test]
fn absent_rule_keeps_content() {
    let content = "nothing to see here\nat all";
    let r = replace_with_case_variants(content, "helloWorld", "goodMorning").unwrap();
    assert_eq!(r, content);
}

#[test]
fn all_variants_of_a_camel_rule() {
    let content = "HelloWorld helloWorld hello_world HELLO_WORLD hello-world";
    let r = apply_replacement(content, "helloWorld", "goodMorning", true);
    assert_eq!(r, "GoodMorning goodMorning good_morning GOOD_MORNING good-morning");
}

#[test]
fn single_word_rule_covers_lowercase() {
    let r = apply_replacement("Hello, World\nhello, world", "Hello", "Hi", true);
    assert_eq!(r, "Hi, World\nhi, world");
}

#[test]
fn literal_only_without_case_variants() {
    let r = apply_replacement("Hello, World\nhello, world", "Hello", "Hi", false);
    assert_eq!(r, "Hi, World\nhello, world");
}

#[test]
fn rules_compose_in_order() {
    let mut args = Args::default();
    args.rules = vec![rule("alpha", "beta"), rule("beta", "gamma")];
    args.case_enabled = false;
    assert_eq!(replace_content("alpha beta", &args).unwrap(), "gamma gamma");
}

#[test]
fn replace_seq_is_left_to_right_and_non_overlapping() {
    let r = replace_seq(&chars("aaaa"), &chars("aa"), &chars("b"));
    assert_eq!(r, chars("bb"));
    let r = replace_seq(&chars("xaaay"), &chars("aa"), &chars(""));
    assert_eq!(r, chars("xay"));
    assert!(contains_seq(&chars("abc"), &chars("bc")));
    assert!(!contains_seq(&chars("abc"), &chars("cb")));
    assert!(contains_seq(&chars(""), &chars("")));
}

#[test]
fn later_rule_overrides_same_from() {
    let mut args = Args::default();
    args.mode = Mode::Files;
    args.files = strings(&["f.txt"]);
    args.rules = vec![rule("x", "0"), rule("y", "9")];
    args.replacement_rules = strings(&["x", "1", "z", "3", "x", "2"]);
    assert_eq!(validate_args(&mut args), Ok(()));
    let got: Vec<(String, String)> = args.rules.iter().map(|r| (r.from.clone(), r.to.clone())).collect();
    let want: Vec<(String, String)> = vec![
        ("y".to_string(), "9".to_string()),
        ("z".to_string(), "3".to_string()),
        ("x".to_string(), "2".to_string()),
    ];
    assert_eq!(got, want);
}

#[test]
fn validation_errors() {
    let mut a = Args::default();
    a.replacement_rules = strings(&["x"]);
    assert_eq!(validate_args(&mut a), Err(ArgsError::UnpairedReplacement));

    let mut a = Args::default();
    a.replacement_rules = strings(&["", "y"]);
    assert_eq!(validate_args(&mut a), Err(ArgsError::EmptyFrom));

    let mut a = Args::default();
    a.replacement_rules = strings(&["x", "y"]);
    assert_eq!(validate_args(&mut a), Err(ArgsError::NoReplacementTarget));

    let mut a = Args::default();
    a.mode = Mode::StdinStdout;
    assert_eq!(validate_args(&mut a), Err(ArgsError::NoReplacementRules));

    let mut a = Args::default();
    a.mode = Mode::Copy;
    assert_eq!(validate_args(&mut a), Err(ArgsError::NoCopySpecs));

    let mut a = Args::default();
    a.mode = Mode::Files;
    a.replacement_rules = strings(&["x", "y"]);
    assert_eq!(validate_args(&mut a), Err(ArgsError::NoInputFiles));
}

#[test]
fn parse_builds_copy_specs() {
    let mut a = Args::default();
    a.copy_specs_raw = strings(&["src1", "src2", "dest"]);
    let out = parse(a, true).unwrap();
    assert_eq!(out.mode, Mode::Copy);
    assert_eq!(out.copy_specs.len(), 2);
    assert_eq!(out.copy_specs[0].source, "src1");
    assert_eq!(out.copy_specs[1].source, "src2");
    assert_eq!(out.copy_specs[1].target, "dest");

    let mut a = Args::default();
    a.copy_specs_raw = strings(&["only"]);
    assert_eq!(parse(a, true).err(), Some(ArgsError::CopyNeedsSourceAndTarget));
}

#[test]
fn parse_selects_mode() {
    let mut a = Args::default();
    a.replacement_rules = strings(&["x", "y"]);
    a.in_place = true;
    assert_eq!(parse(a, true).unwrap().mode, Mode::FilesAndNames);

    let mut a = Args::default();
    a.replacement_rules = strings(&["x", "y"]);
    a.files = strings(&["f"]);
    assert_eq!(parse(a, true).unwrap().mode, Mode::Files);

    let mut a = Args::default();
    a.replacement_rules = strings(&["x", "y"]);
    assert_eq!(parse(a, false).unwrap().mode, Mode::StdinStdout);

    let mut a = Args::default();
    a.replacement_rules = strings(&["x", "y"]);
    assert_eq!(parse(a, true).err(), Some(ArgsError::NoReplacementTarget));
}

#[test]
fn default_args() {
    let a = Args::default();
    assert_eq!(a.mode, Mode::Unspecified);
    assert!(a.case_enabled && a.rename_file && a.rename_dir);
    assert!(a.rules.is_empty() && a.files.is_empty());
}

#[test]
fn transform_path_respects_toggles() {
    let rules = vec![rule("helloWorld", "goodMorning")];
    let path = strings(&["hello_world", "HelloWorld.txt"]);
    assert_eq!(transform_path(&path, false, &rules, true, true), strings(&["good_morning", "GoodMorning.txt"]));
    assert_eq!(transform_path(&path, false, &rules, false, true), strings(&["good_morning", "HelloWorld.txt"]));
    assert_eq!(transform_path(&path, true, &rules, true, false), strings(&["hello_world", "HelloWorld.txt"]));
    assert_eq!(copy_root_name("hello-world", &rules, true), "good-morning");
    assert_eq!(copy_root_name("hello-world", &rules, false), "hello-world");
}

#[test]
fn copy_is_repeatable() {
    let rules = vec![rule("helloWorld", "goodMorning")];
    let path = strings(&["hello_world", "a.txt"]);
    assert_eq!(transform_path(&path, false, &rules, true, true), transform_path(&path, false, &rules, true, true));
    let text = "let helloWorld = HELLO_WORLD;";
    assert_eq!(apply_all_replacements(text, &rules), apply_all_replacements(text, &rules));
    assert_eq!(apply_all_replacements(text, &rules), "let goodMorning = GOOD_MORNING;");
}

#[test]
fn binary_content_passes_through() {
    let rules = vec![rule("a", "b")];
    let bytes = vec![0xffu8, 0x61, 0xfe, 0x00];
    match copied_content(FileContent::Binary(bytes.clone()), &rules) {
        FileContent::Binary(b) => assert_eq!(b, bytes),
        FileContent::Text(_) => panic!("binary content became text"),
    }
    match copied_content(FileContent::Text("a cat".to_string()), &rules) {
        FileContent::Text(t) => assert_eq!(t, "b cbt"),
        FileContent::Binary(_) => panic!("text content became binary"),
    }
    let mut args = Args::default();
    args.rules = rules;
    assert_eq!(process_file_content(FileContent::Binary(bytes), &args), None);
    assert_eq!(process_file_content(FileContent::Text("xyz".to_string()), &args), None);
    assert_eq!(process_file_content(FileContent::Text("abc".to_string()), &args), Some("bbc".to_string()));
}

#[test]
fn copy_actions() {
    assert_eq!(copy_action(false, false, false, false, false), CopyAction::MissingSource);
    assert_eq!(copy_action(true, false, true, true, true), CopyAction::DirectoryOntoFile);
    assert_eq!(copy_action(true, true, false, true, true), CopyAction::CopyFile);
    assert_eq!(copy_action(true, false, true, true, false), CopyAction::CopyDirectory);
    assert_eq!(copy_action(true, false, false, false, false), CopyAction::UnsupportedSource);
}

fn entry(name: &str, depth: usize, is_dir: bool) -> Entry {
    Entry { name: Some(name.to_string()), depth, is_dir }
}

#[test]
fn renames_deepest_first() {
    let mut args = Args::default();
    args.rules = vec![rule("foo", "bar")];
    let entries = vec![
        entry("foo", 1, true),
        entry("keep", 2, true),
        entry("foo.txt", 3, false),
        entry("foo", 2, true),
        Entry { name: None, depth: 0, is_dir: true },
    ];
    let plan = scan_and_replace(&entries, &args);
    let got: Vec<(usize, String)> = plan.iter().map(|p| (p.index, p.new_name.clone())).collect();
    assert_eq!(
        got,
        vec![(2, "bar.txt".to_string()), (3, "bar".to_string()), (0, "bar".to_string())]
    );
}

#[test]
fn rename_toggles() {
    let mut args = Args::default();
    args.rules = vec![rule("foo", "bar")];
    args.rename_file = false;
    assert_eq!(rename_path(&entry("foo.txt", 1, false), &args), None);
    assert_eq!(rename_path(&entry("foo", 1, true), &args), Some("bar".to_string()));
    args.rename_dir = false;
    assert_eq!(rename_path(&entry("foo", 1, true), &args), None);
}

#[test]
fn roots_default_to_current_directory() {
    let mut args = Args::default();
    assert_eq!(scan_roots(&args), strings(&["."]));
    args.files = strings(&["a", "b"]);
    assert_eq!(scan_roots(&args), strings(&["a", "b"]));
}
