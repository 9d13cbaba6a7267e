use mane::case::{convert_case, detect_case, replace_with_case_variants, StringCase};

#[test]
fn test_case_detection() {
    assert!(matches!(detect_case("HelloWorld"), StringCase::Pascal));
    assert!(matches!(detect_case("hello-world"), StringCase::Kebab));
    assert!(matches!(detect_case("helloWorld"), StringCase::Camel));
    assert!(matches!(detect_case("HELLO_WORLD"), StringCase::ScreamingSnake));
    assert!(matches!(detect_case("hello_world"), StringCase::Snake));
}

#[test]
fn test_case_conversion() {
    // Pascal case conversions
    assert_eq!(convert_case("HelloWorld", &StringCase::Pascal), "HelloWorld");
    assert_eq!(convert_case("hello-world", &StringCase::Pascal), "HelloWorld");
    assert_eq!(convert_case("helloWorld", &StringCase::Pascal), "HelloWorld");
    assert_eq!(convert_case("HELLO_WORLD", &StringCase::Pascal), "HelloWorld");
    assert_eq!(convert_case("hello_world", &StringCase::Pascal), "HelloWorld");

    // Kebab case conversions
    assert_eq!(convert_case("HelloWorld", &StringCase::Kebab), "hello-world");
    assert_eq!(convert_case("hello-world", &StringCase::Kebab), "hello-world");
    assert_eq!(convert_case("helloWorld", &StringCase::Kebab), "hello-world");
    assert_eq!(convert_case("HELLO_WORLD", &StringCase::Kebab), "hello-world");
    assert_eq!(convert_case("hello_world", &StringCase::Kebab), "hello-world");

    // Camel case conversions
    assert_eq!(convert_case("HelloWorld", &StringCase::Camel), "helloWorld");
    assert_eq!(convert_case("hello-world", &StringCase::Camel), "helloWorld");
    assert_eq!(convert_case("helloWorld", &StringCase::Camel), "helloWorld");
    assert_eq!(convert_case("HELLO_WORLD", &StringCase::Camel), "helloWorld");
    assert_eq!(convert_case("hello_world", &StringCase::Camel), "helloWorld");

    // ScreamingSnake case conversions
    assert_eq!(convert_case("HelloWorld", &StringCase::ScreamingSnake), "HELLO_WORLD");
    assert_eq!(convert_case("hello-world", &StringCase::ScreamingSnake), "HELLO_WORLD");
    assert_eq!(convert_case("helloWorld", &StringCase::ScreamingSnake), "HELLO_WORLD");
    assert_eq!(convert_case("HELLO_WORLD", &StringCase::ScreamingSnake), "HELLO_WORLD");
    assert_eq!(convert_case("hello_world", &StringCase::ScreamingSnake), "HELLO_WORLD");

    // Snake case conversions
    assert_eq!(convert_case("HelloWorld", &StringCase::Snake), "hello_world");
    assert_eq!(convert_case("hello-world", &StringCase::Snake), "hello_world");
    assert_eq!(convert_case("helloWorld", &StringCase::Snake), "hello_world");
    assert_eq!(convert_case("HELLO_WORLD", &StringCase::Snake), "hello_world");
    assert_eq!(convert_case("hello_world", &StringCase::Snake), "hello_world");
}

#[test]
fn test_replace_with_case_variants() {
    // Test with a simple example like in the spec
    let content = "Hello, World\nhello, world";

    // Test replacing "Hello" with "Hi"
    let result = replace_with_case_variants(content, "Hello", "Hi").unwrap();
    assert!(result.contains("Hi, World"));
    assert!(result.contains("hi, world"));

    // Test replacing "hello" with "hi" - use a fresh content string to avoid
    // being affected by previous replacements
    let content2 = "Hello, World\nhello, world";
    let result2 = replace_with_case_variants(content2, "hello", "hi").unwrap();
    // Check that both forms were replaced
    assert!(result2.contains("Hi, World"));
    assert!(result2.contains("hi, world"));

    // Test with multiple word replacement
    let content3 = "HelloWorld helloWorld hello_world HELLO_WORLD hello-world";

    // Test replacing "HelloWorld" with "GoodMorning"
    let result3 = replace_with_case_variants(content3, "HelloWorld", "GoodMorning").unwrap();
    assert!(result3.contains("GoodMorning"));
    assert!(result3.contains("goodMorning"));
    assert!(result3.contains("good_morning"));
    assert!(result3.contains("GOOD_MORNING"));
    assert!(result3.contains("good-morning"));
}
