use winlog::{contains_str, gen_rust, hash_line, parse_define, should_regenerate};

#[test]
fn parse_define_with_cast_and_parens() {
    let d = parse_define("#define SOMETHING   ((DWORD)0x1200L)").unwrap();
    assert_eq!(d.name, "SOMETHING");
    assert_eq!(d.value, "0x1200");
}

#[test]
fn parse_define_mc_header_line() {
    let d = parse_define("#define MSG_ERROR                        ((DWORD)0xC0000001L)").unwrap();
    assert_eq!(d.name, "MSG_ERROR");
    assert_eq!(d.value, "0xC0000001");
}

#[test]
fn parse_define_without_cast() {
    let d = parse_define("#define FACILITY_SYSTEM 0x0").unwrap();
    assert_eq!(d.name, "FACILITY_SYSTEM");
    assert_eq!(d.value, "0x0");
}

#[test]
fn parse_define_cast_without_outer_paren() {
    let d = parse_define("#define X (DWORD)0x2").unwrap();
    assert_eq!(d.name, "X");
    assert_eq!(d.value, "0x2");
}

#[test]
fn parse_define_value_in_parens_only() {
    let d = parse_define("#define X (0x10)").unwrap();
    assert_eq!(d.name, "X");
    assert_eq!(d.value, "0x10");
}

#[test]
fn parse_define_tab_separated_value() {
    let d = parse_define("#define NAME\t \t0xabcDEF123").unwrap();
    assert_eq!(d.name, "NAME");
    assert_eq!(d.value, "0xabcDEF123");
}

#[test]
fn parse_define_requires_the_literal_space() {
    // the prefix is `#define ` with a space; a tab there is no define line
    assert!(parse_define("#define\tNAME 0x1").is_none());
}

#[test]
fn parse_define_rejects_other_lines() {
    assert!(parse_define("").is_none());
    assert!(parse_define("// a comment").is_none());
    assert!(parse_define("#define").is_none());
    assert!(parse_define("#define NAME").is_none());
    assert!(parse_define("#define NAME    ").is_none());
    assert!(parse_define("#define NAME 1200").is_none());
    assert!(parse_define("#define NAME 0x").is_none());
    assert!(parse_define("#define NAME (DWORD)").is_none());
    assert!(parse_define("#ifdef NAME 0x1").is_none());
    assert!(parse_define(" #define NAME 0x1").is_none());
}

#[test]
fn parse_define_requires_space_after_name() {
    assert!(parse_define("#define NAME0x1").is_none());
}

#[test]
fn gen_rust_emits_one_const_per_define() {
    let lines = vec![
        String::from("// a generated header"),
        String::from("#define MSG_ERROR                        ((DWORD)0xC0000001L)"),
        String::from(""),
        String::from("#define MSG_WARNING                      ((DWORD)0x80000002L)"),
        String::from("#define MSG_INFO                         ((DWORD)0x40000003L)"),
    ];
    let generated = gen_rust(&lines);
    assert_eq!(
        generated,
        "pub const MSG_ERROR: u32 = 0xC0000001;\n\
         pub const MSG_WARNING: u32 = 0x80000002;\n\
         pub const MSG_INFO: u32 = 0x40000003;\n"
    );
}

#[test]
fn gen_rust_on_empty_input() {
    let lines: Vec<String> = Vec::new();
    assert_eq!(gen_rust(&lines), "");
}

#[test]
fn contains_str_finds_substrings() {
    assert!(contains_str("abcdef", "cde"));
    assert!(contains_str("abcdef", ""));
    assert!(contains_str("abcdef", "abcdef"));
    assert!(!contains_str("abcdef", "abcdefg"));
    assert!(!contains_str("abcdef", "xyz"));
    assert!(!contains_str("", "x"));
    assert!(contains_str("", ""));
}

#[test]
fn stamped_output_is_current() {
    let hash = "9f86d081884c7d659a2feaa0c55ad015a3bf4f1b2b0b822cd15d6c15b0f00a08";
    let lines = vec![
        hash_line(hash),
        String::from("pub const MSG_ERROR: u32 = 0xC0000001;"),
    ];
    assert!(!should_regenerate(&lines, hash));
}

#[test]
fn should_regenerate_looks_for_the_hash() {
    let hash = "9f86d081884c7d659a2feaa0c55ad015a3bf4f1b2b0b822cd15d6c15b0f00a08";
    let stale = vec![
        String::from("pub const MSG_ERROR: u32 = 0xC0000001;"),
        String::from("some other line"),
    ];
    assert!(should_regenerate(&stale, hash));

    let fresh = vec![
        format!("// Generated from a source with SHA256 {}.", hash),
        String::from("pub const MSG_ERROR: u32 = 0xC0000001;"),
    ];
    assert!(!should_regenerate(&fresh, hash));
}
