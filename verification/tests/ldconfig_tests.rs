use pwninit::ldconfig::{begins_at_root, parse_ldconfig, LibraryPaths, LINE_PATTERN};

fn path_of(paths: &LibraryPaths, name: &str) -> Option<String> {
    paths.get(&name.to_string()).cloned()
}

#[test]
fn parse_resolves_the_c_library() {
    let paths = parse_ldconfig("\tlibc.so.6 (libc6,x86-64) => /lib/x86_64-linux-gnu/libc.so.6\n");
    assert_eq!(path_of(&paths, "libc.so.6"), Some("/lib/x86_64-linux-gnu/libc.so.6".to_string()));
    assert_eq!(path_of(&paths, "ld-linux-x86-64.so.2"), None);
}

#[test]
fn parse_of_an_empty_listing_finds_nothing() {
    let paths = parse_ldconfig("");
    assert_eq!(path_of(&paths, "libc.so.6"), None);
    assert_eq!(path_of(&paths, "ld-linux-x86-64.so.2"), None);
}

#[test]
fn parse_reads_a_whole_listing() {
    let listing = "129 libs found in cache `/etc/ld.so.cache'\n\
\tlibz.so.1 (libc6,x86-64) => /lib/x86_64-linux-gnu/libz.so.1\n\
\tlibstdc++.so.6 (libc6,x86-64) => /lib/x86_64-linux-gnu/libstdc++.so.6\n\
\tlibc.so.6 (libc6,x86-64, OS ABI: Linux 3.2.0) => /lib/x86_64-linux-gnu/libc.so.6\n\
\tld-linux-x86-64.so.2 (ELF) => /lib64/ld-linux-x86-64.so.2\n\
Cache generated by: ldconfig (Ubuntu GLIBC 2.35-0ubuntu3.1) stable release version 2.35\n";
    let paths = parse_ldconfig(listing);
    assert_eq!(path_of(&paths, "libz.so.1"), Some("/lib/x86_64-linux-gnu/libz.so.1".to_string()));
    assert_eq!(
        path_of(&paths, "libstdc++.so.6"),
        None,
        "a name with a plus sign is outside the pattern"
    );
    assert_eq!(path_of(&paths, "libc.so.6"), Some("/lib/x86_64-linux-gnu/libc.so.6".to_string()));
    assert_eq!(path_of(&paths, "ld-linux-x86-64.so.2"), Some("/lib64/ld-linux-x86-64.so.2".to_string()));
    assert_eq!(path_of(&paths, "129"), None);
    assert_eq!(path_of(&paths, "Cache"), None);
}

#[test]
fn parse_lets_the_last_line_of_a_name_win() {
    let listing = "\tlibc.so.6 (libc6,x86-64) => /lib/x86_64-linux-gnu/libc.so.6\n\
\tlibm.so.6 (libc6,x86-64) => /lib/x86_64-linux-gnu/libm.so.6\n\
\tlibc.so.6 (libc6) => /lib32/libc.so.6\n";
    let paths = parse_ldconfig(listing);
    assert_eq!(path_of(&paths, "libc.so.6"), Some("/lib32/libc.so.6".to_string()));
    assert_eq!(path_of(&paths, "libm.so.6"), Some("/lib/x86_64-linux-gnu/libm.so.6".to_string()));
}

#[test]
fn parse_twice_gives_the_same() {
    let listing = "\tlibc.so.6 (libc6,x86-64) => /a/libc.so.6\n\tlibc.so.6 (libc6) => /b/libc.so.6\n";
    let first = parse_ldconfig(listing);
    let second = parse_ldconfig(listing);
    assert_eq!(path_of(&first, "libc.so.6"), Some("/b/libc.so.6".to_string()));
    assert_eq!(path_of(&first, "libc.so.6"), path_of(&second, "libc.so.6"));
}

#[test]
fn parse_passes_over_lines_of_another_shape() {
    let listing = "libc.so.6 (libc6,x86-64) => /lib/libc.so.6\n\
\tlibm.so.6 => /lib/libm.so.6\n\
\tlibdl.so.2 (libc6,x86-64) => relative/libdl.so.2 trailing\n\
\tlibrt.so.1 (libc6,x86-64) =>\n\
\n\
\tlibpthread.so.0 (libc6,x86-64) => /lib/libpthread.so.0\n";
    let paths = parse_ldconfig(listing);
    assert_eq!(path_of(&paths, "libc.so.6"), None, "no whitespace before the name");
    assert_eq!(path_of(&paths, "libm.so.6"), None, "no description");
    assert_eq!(path_of(&paths, "libdl.so.2"), None, "text after the path");
    assert_eq!(path_of(&paths, "librt.so.1"), None, "no path");
    assert_eq!(path_of(&paths, "libpthread.so.0"), Some("/lib/libpthread.so.0".to_string()));
}

#[test]
fn parse_passes_over_a_path_that_is_not_absolute() {
    let paths = parse_ldconfig("\tfoo.so (libc6) => rel/path/foo.so\n");
    assert_eq!(path_of(&paths, "foo.so"), None);
    let paths = parse_ldconfig("\tfoo.so (libc6) => ./foo.so\n\tbar.so (libc6) => /lib/bar.so\n");
    assert_eq!(path_of(&paths, "foo.so"), None);
    assert_eq!(path_of(&paths, "bar.so"), Some("/lib/bar.so".to_string()));
}

#[test]
fn parse_keeps_an_absolute_path_that_a_later_relative_one_does_not_replace() {
    let paths = parse_ldconfig("\tfoo.so (libc6) => /lib/foo.so\n\tfoo.so (libc6) => lib/foo.so\n");
    assert_eq!(path_of(&paths, "foo.so"), Some("/lib/foo.so".to_string()));
}

#[test]
fn parse_passes_over_a_line_that_does_not_begin_with_whitespace() {
    let paths = parse_ldconfig("junk libfoo (x) => /p\n\tlibbar (x) => /q\n");
    assert_eq!(path_of(&paths, "libfoo"), None);
    assert_eq!(path_of(&paths, "libbar"), Some("/q".to_string()));
}

#[test]
fn begins_at_root_asks_for_a_slash_first() {
    assert!(begins_at_root("/"));
    assert!(begins_at_root("/lib/libc.so.6"));
    assert!(!begins_at_root(""));
    assert!(!begins_at_root("lib/libc.so.6"));
    assert!(!begins_at_root("./libc.so.6"));
}

#[test]
fn parse_reads_lines_that_end_in_carriage_return_and_line_feed() {
    let paths = parse_ldconfig("\tlibc.so.6 (libc6,x86-64) => /lib/libc.so.6\r\n\tlibm.so.6 (libc6) => /lib/libm.so.6\r\n");
    assert_eq!(path_of(&paths, "libc.so.6"), Some("/lib/libc.so.6".to_string()));
    assert_eq!(path_of(&paths, "libm.so.6"), Some("/lib/libm.so.6".to_string()));
}

#[test]
fn parse_agrees_with_the_pattern_line_by_line() {
    let listing = [
        "header",
        "  liba.so (x) => /a",
        "\tlib-b.so.1 (libc6, hwcap: 0x1) => /usr/lib/lib-b.so.1",
        " x (y) => /z (w) => /v",
        "\tlibc.so (libc6) => /lib/libc.so ",
        "",
    ]
    .join("\n");
    let listing = listing.as_str();
    let re = regex::Regex::new(LINE_PATTERN).unwrap();
    let paths = parse_ldconfig(listing);
    let mut seen = 0;
    for line in listing.lines() {
        if let Some(caps) = re.captures(line) {
            let name = caps.name("name").unwrap().as_str();
            let path = caps.name("path").unwrap().as_str();
            assert_eq!(path_of(&paths, name), Some(path.to_string()), "{:?}", line);
            seen += 1;
        }
    }
    assert_eq!(seen, 3);
    assert_eq!(path_of(&paths, "x"), Some("/v".to_string()));
    assert_eq!(path_of(&paths, "libc.so"), None);
}

#[test]
fn paths_insert_replaces_and_get_finds() {
    let mut paths = LibraryPaths::new();
    assert_eq!(path_of(&paths, "a"), None);
    paths.insert("a".to_string(), "/1".to_string());
    paths.insert("b".to_string(), "/2".to_string());
    assert_eq!(path_of(&paths, "a"), Some("/1".to_string()));
    assert_eq!(path_of(&paths, "b"), Some("/2".to_string()));
    paths.insert("a".to_string(), "/3".to_string());
    assert_eq!(path_of(&paths, "a"), Some("/3".to_string()));
    assert_eq!(path_of(&paths, "b"), Some("/2".to_string()));
    assert_eq!(path_of(&paths, "c"), None);
}

#[test]
fn paths_record_needs_a_name_and_a_path() {
    let mut paths = LibraryPaths::new();
    paths.record(None);
    paths.record(Some((Some("a".to_string()), None)));
    paths.record(Some((None, Some("/a".to_string()))));
    assert_eq!(path_of(&paths, "a"), None);
    paths.record(Some((Some("a".to_string()), Some("/a".to_string()))));
    assert_eq!(path_of(&paths, "a"), Some("/a".to_string()));
    paths.record(Some((Some("a".to_string()), Some("/b".to_string()))));
    assert_eq!(path_of(&paths, "a"), Some("/b".to_string()));
    paths.record(Some((Some("a".to_string()), Some("c/d".to_string()))));
    assert_eq!(path_of(&paths, "a"), Some("/b".to_string()));
    paths.record(Some((Some("e".to_string()), Some("".to_string()))));
    assert_eq!(path_of(&paths, "e"), None);
}

#[test]
fn the_pattern_compiles() {
    assert!(regex::Regex::new(LINE_PATTERN).is_ok());
}
