use nami::binding;
use nami::FormatSignal;

#[test]
fn test_s_macro_constant() {
    let s = FormatSignal::positional("Hello, world!", vec![]);
    assert_eq!(s.get(), "Hello, world!");
}

#[test]
fn test_s_macro_positional_args() {
    let name = "Alice";
    let age = 30;

    // 1 argument
    let s1 = FormatSignal::positional("Hello, {}!", vec![binding(name.to_string())]);
    assert_eq!(s1.get(), "Hello, Alice!");

    // 2 arguments
    let s2 = FormatSignal::positional(
        "{} is {} years old.",
        vec![binding(name.to_string()), binding(format!("{}", age))],
    );
    assert_eq!(s2.get(), "Alice is 30 years old.");

    let s3 = FormatSignal::positional(
        "{} {} {} {}",
        vec![
            binding(format!("{}", 1)),
            binding(format!("{}", 2)),
            binding(format!("{}", 3)),
            binding(format!("{}", 4)),
        ],
    );
    assert_eq!(s3.get(), "1 2 3 4");
}

#[test]
fn test_s_macro_named_args() {
    let name = "Bob";
    let age = 42;

    // 1 argument
    let s1 = FormatSignal::named(
        "Hello, {name}!",
        vec![("name".to_string(), binding(name.to_string()))],
    )
    .unwrap();
    assert_eq!(s1.get(), "Hello, Bob!");

    // 2 arguments
    let s2 = FormatSignal::named(
        "{name} is {age} years old.",
        vec![
            ("name".to_string(), binding(name.to_string())),
            ("age".to_string(), binding(format!("{}", age))),
        ],
    )
    .unwrap();
    assert_eq!(s2.get(), "Bob is 42 years old.");

    let s3 = FormatSignal::named(
        "{a} {b} {c} {d}",
        vec![
            ("a".to_string(), binding(format!("{}", 1))),
            ("b".to_string(), binding(format!("{}", 2))),
            ("c".to_string(), binding(format!("{}", 3))),
            ("d".to_string(), binding(format!("{}", 4))),
        ],
    )
    .unwrap();
    assert_eq!(s3.get(), "1 2 3 4");
}

#[test]
fn test_s_macro_reactivity_positional() {
    let name = binding("Alice".to_string());
    let mut s = FormatSignal::positional("Hello, {}!", vec![name]);

    assert_eq!(s.get(), "Hello, Alice!");

    let _ = s.set_arg(0, "Bob".to_string());
    assert_eq!(s.get(), "Hello, Bob!");
}

#[test]
fn test_s_macro_reactivity_named() {
    let name = binding("Alice".to_string());
    let mut s =
        FormatSignal::named("Hello, {name}!", vec![("name".to_string(), name)]).unwrap();

    assert_eq!(s.get(), "Hello, Alice!");

    let _ = s.set_arg(0, "Bob".to_string());
    assert_eq!(s.get(), "Hello, Bob!");
}

#[test]
fn test_s_macro_escaped_braces() {
    let s = FormatSignal::positional("This should have {{escaped}} braces.", vec![]);
    assert_eq!(s.get(), "This should have {escaped} braces.");
}

#[test]
fn test_analyze_format_string() {
    let (has_pos, has_named, count, names) = nami::analyze_format_string("{} and {x} and {}");
    assert!(has_pos);
    assert!(has_named);
    assert_eq!(count, 2);
    assert_eq!(names, vec!["x".to_string()]);

    let (has_pos, has_named, count, names) =
        nami::analyze_format_string("{name} twice {name} and {other:>8}");
    assert!(!has_pos);
    assert!(has_named);
    assert_eq!(count, 0);
    assert_eq!(names, vec!["name".to_string(), "other".to_string()]);

    let (has_pos, has_named, count, names) = nami::analyze_format_string("{{literal}} only");
    assert!(!has_pos);
    assert!(!has_named);
    assert_eq!(count, 0);
    assert!(names.is_empty());
}

#[test]
fn test_named_format_requires_every_name() {
    // A template naming an argument that is not provided cannot be built.
    let missing = FormatSignal::named(
        "Hello, {name}!",
        vec![("other".to_string(), binding("x".to_string()))],
    );
    assert!(missing.is_none());

    // A positional placeholder cannot be filled from named arguments.
    let mixed = FormatSignal::named(
        "{} and {name}",
        vec![("name".to_string(), binding("x".to_string()))],
    );
    assert!(mixed.is_none());
}

#[test]
fn test_format_specifier_names_the_variable() {
    // `{x:>8}` names `x`: the specifier after the colon is ignored.
    let (_, has_named, _, names) = nami::analyze_format_string("{x:>8}");
    assert!(has_named);
    assert_eq!(names, vec!["x".to_string()]);
}
