use platform_detect::text::same_text;

#[test]
fn equal_texts_are_the_same() {
    assert!(same_text("", ""));
    assert!(same_text("linux", "linux"));
    assert!(same_text("x86_64", &String::from("x86_64")));
    assert!(same_text("日本語", "日本語"));
}

#[test]
fn different_texts_are_not_the_same() {
    assert!(!same_text("linux", "macos"));
    assert!(!same_text("linux", "linuX"));
    assert!(!same_text("linux", "Linux"));
    assert!(!same_text("i386", "i486"));
    assert!(!same_text("é", "e"));
    assert!(!same_text("日本語", "日本誤"));
}

#[test]
fn a_prefix_is_not_the_same() {
    assert!(!same_text("mips", "mips64"));
    assert!(!same_text("mips64", "mips"));
    assert!(!same_text("", "sh"));
    assert!(!same_text("sh", ""));
}

#[test]
fn same_text_agrees_with_std_equality() {
    let samples = ["", "a", "ab", "ba", "abc", "s390", "s390x", "ß", "ss", "\u{0}"];
    for a in samples {
        for b in samples {
            assert_eq!(same_text(a, b), a == b);
        }
    }
}
