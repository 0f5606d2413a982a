use file_sorter::paths::{extension, file_name, join, last_index};
use file_sorter::text::decimal;

#[test]
fn extension_is_what_follows_the_last_dot() {
    assert_eq!(extension("report.txt"), Some("txt".to_string()));
    assert_eq!(extension("archive.tar.gz"), Some("gz".to_string()));
    assert_eq!(extension("/home/me/inbox/photo.JPG"), Some("JPG".to_string()));
}

#[test]
fn extension_is_absent_without_a_dot() {
    assert_eq!(extension("Makefile"), None);
    assert_eq!(extension(""), None);
    assert_eq!(extension("dir/"), None);
}

#[test]
fn extension_ignores_dots_in_folders() {
    assert_eq!(extension("backup.d/notes"), None);
    assert_eq!(extension("backup.d/notes.md"), Some("md".to_string()));
}

#[test]
fn extension_of_hidden_files() {
    assert_eq!(extension(".bashrc"), None);
    assert_eq!(extension("dir/.bashrc"), None);
    assert_eq!(extension(".config.toml"), Some("toml".to_string()));
}

#[test]
fn extension_may_be_empty() {
    assert_eq!(extension("draft."), Some(String::new()));
    assert_eq!(extension("..."), Some(String::new()));
}

#[test]
fn extension_of_dot_names() {
    assert_eq!(extension("."), None);
    assert_eq!(extension(".."), None);
    assert_eq!(extension("dir/.."), None);
}

#[test]
fn extension_counts_characters_not_bytes() {
    assert_eq!(extension("résumé.pdf"), Some("pdf".to_string()));
    assert_eq!(extension("notes.тхт"), Some("тхт".to_string()));
}

#[test]
fn file_name_is_the_last_segment() {
    assert_eq!(file_name("a/b/c.txt"), "c.txt");
    assert_eq!(file_name("c.txt"), "c.txt");
    assert_eq!(file_name("a/b/"), "");
    assert_eq!(file_name("/"), "");
    assert_eq!(file_name(""), "");
}

#[test]
fn last_index_finds_the_last_occurrence() {
    assert_eq!(last_index("a.b.c", '.'), Some(3));
    assert_eq!(last_index("abc", '.'), None);
    assert_eq!(last_index("", '.'), None);
    assert_eq!(last_index(".", '.'), Some(0));
    assert_eq!(last_index("é.é", '.'), Some(1));
}

#[test]
fn join_puts_one_separator_between() {
    assert_eq!(join("inbox", "a.txt"), "inbox/a.txt");
    assert_eq!(join("/srv/inbox", "Images"), "/srv/inbox/Images");
}

#[test]
fn join_adds_no_second_separator() {
    assert_eq!(join("inbox/", "a.txt"), "inbox/a.txt");
    assert_eq!(join("/", "a.txt"), "/a.txt");
}

#[test]
fn join_with_an_empty_side() {
    assert_eq!(join("", "a.txt"), "a.txt");
    assert_eq!(join("inbox", ""), "inbox/");
    assert_eq!(join("", ""), "");
}

#[test]
fn join_lets_a_rooted_name_stand() {
    assert_eq!(join("inbox", "/var/archive"), "/var/archive");
}

#[test]
fn join_agrees_with_the_standard_library() {
    let cases = [
        ("inbox", "a.txt"),
        ("inbox/", "a.txt"),
        ("", "a.txt"),
        ("inbox", ""),
        ("inbox", "/abs"),
        ("/", "x"),
        ("a/b", "c/d"),
        ("a//", "b"),
    ];
    for (base, name) in cases {
        let expected = std::path::Path::new(base).join(name);
        assert_eq!(Some(join(base, name).as_str()), expected.to_str());
    }
}

#[test]
fn extension_agrees_with_the_standard_library_on_file_paths() {
    let cases = [
        "report.txt",
        "dir/report.txt",
        "archive.tar.gz",
        ".bashrc",
        "dir/.bashrc",
        "draft.",
        "Makefile",
        "a.b/c",
        "..",
        "dir/..",
        "...",
        "",
        "x/.a.b",
    ];
    for path in cases {
        let expected = std::path::Path::new(path)
            .extension()
            .and_then(|e| e.to_str())
            .map(|e| e.to_string());
        assert_eq!(extension(path), expected);
    }
}

#[test]
fn decimal_writes_digits() {
    assert_eq!(decimal(0), "0");
    assert_eq!(decimal(7), "7");
    assert_eq!(decimal(10), "10");
    assert_eq!(decimal(1905), "1905");
    assert_eq!(decimal(u64::MAX), "18446744073709551615");
}
