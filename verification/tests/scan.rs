use radon::scan::{parse_autotools_deps, parse_make_deps, read_quoted_field};

#[test]
fn make_deps_are_read_from_the_marker_line() {
    let text = "CC=gcc\n# DEPENDENCIES: foo,bar\nall:\n\tcc main.c\n";
    assert_eq!(parse_make_deps(text), vec!["foo", "bar"]);
}

#[test]
fn make_deps_are_trimmed() {
    assert_eq!(parse_make_deps("# DEPENDENCIES:  a , b\t,c  "), vec!["a", "b", "c"]);
}

#[test]
fn make_deps_without_a_marker_are_empty() {
    assert_eq!(parse_make_deps("all:\n\tcc main.c\n"), Vec::<String>::new());
    assert_eq!(parse_make_deps(""), Vec::<String>::new());
    assert_eq!(parse_make_deps("# dependencies: foo"), Vec::<String>::new());
}

#[test]
fn make_deps_come_from_the_first_marker_line_only() {
    let text = "# DEPENDENCIES: one\n# DEPENDENCIES: two\n";
    assert_eq!(parse_make_deps(text), vec!["one"]);
}

#[test]
fn make_deps_end_at_the_second_colon() {
    assert_eq!(parse_make_deps("# DEPENDENCIES: a,b: c"), vec!["a", "b"]);
}

#[test]
fn make_deps_of_an_empty_list_are_one_empty_name() {
    assert_eq!(parse_make_deps("# DEPENDENCIES:\n"), vec![""]);
}

#[test]
fn make_deps_follow_the_first_colon_of_the_line() {
    assert_eq!(parse_make_deps("x: y # DEPENDENCIES: a"), vec!["y # DEPENDENCIES"]);
}

#[test]
fn make_deps_ignore_a_carriage_return_before_the_line_feed() {
    assert_eq!(parse_make_deps("# DEPENDENCIES: foo,bar\r\nall:\r\n"), vec!["foo", "bar"]);
}

#[test]
fn autotools_deps_follow_the_macros() {
    assert_eq!(parse_autotools_deps(""), Vec::<String>::new());
    assert_eq!(parse_autotools_deps("AC_PROG_CC\n"), vec!["gcc"]);
    assert_eq!(parse_autotools_deps("AC_PROG_CXX\n"), vec!["g++"]);
    assert_eq!(parse_autotools_deps("PKG_CHECK_MODULES([X], [x])"), vec!["pkg-config"]);
    assert_eq!(
        parse_autotools_deps("AC_PROG_CXX\nAC_PROG_CC\nPKG_CHECK_MODULES"),
        vec!["pkg-config", "gcc", "g++"]
    );
}

#[test]
fn quoted_fields_are_read_from_the_first_line_of_their_key() {
    let text = "name = \"x\"\nversion = \"1.2.3\"\nversion = \"9\"\n";
    assert_eq!(read_quoted_field(text, "version"), Some("1.2.3".to_string()));
    assert_eq!(read_quoted_field(text, "name"), Some("x".to_string()));
    assert_eq!(read_quoted_field(text, "hash"), None);
}

#[test]
fn quoted_fields_need_the_key_at_the_start_of_the_line() {
    assert_eq!(read_quoted_field("  version = \"1\"", "version"), None);
    assert_eq!(read_quoted_field("version=\"1\"", "version"), None);
    assert_eq!(read_quoted_field("version = 1", "version"), None);
    assert_eq!(read_quoted_field("version = \"1", "version"), Some("1".to_string()));
    assert_eq!(read_quoted_field("version = \"\"", "version"), Some("".to_string()));
}
