use esp_test::config::listing::{entry_line, list, visit, DirEntry, FileType, Visit};

fn file(name: &str, path: &str) -> DirEntry {
    DirEntry { kind: FileType::File, name: name.to_string(), path: path.to_string(), entries: vec![] }
}

fn dir(name: &str, path: &str, entries: Vec<DirEntry>) -> DirEntry {
    DirEntry { kind: FileType::Dir, name: name.to_string(), path: path.to_string(), entries }
}

#[test]
fn files_are_reported_under_any_name() {
    assert_eq!(visit(FileType::File, "config.toml"), Visit::Report);
    assert_eq!(visit(FileType::File, "."), Visit::Report);
    assert_eq!(visit(FileType::File, ".."), Visit::Report);
    assert_eq!(visit(FileType::File, ""), Visit::Report);
}

#[test]
fn dot_directories_are_skipped() {
    assert_eq!(visit(FileType::Dir, "."), Visit::Skip);
    assert_eq!(visit(FileType::Dir, ".."), Visit::Skip);
}

#[test]
fn other_directories_are_entered() {
    for name in ["etc", "...", ".a", "a.", "", ". ", "．", ".é"] {
        assert_eq!(visit(FileType::Dir, name), Visit::Descend, "{name:?}");
    }
}

#[test]
fn lines_carry_kind_and_path() {
    assert_eq!(entry_line(FileType::File, "/config.toml"), "F /config.toml");
    assert_eq!(entry_line(FileType::Dir, "/certs"), "D /certs");
    assert_eq!(entry_line(FileType::Dir, ""), "D ");
    assert_eq!(entry_line(FileType::File, "/ä/ö"), "F /ä/ö");
}

#[test]
fn empty_directory_lists_nothing() {
    assert_eq!(list(&vec![]), Vec::<String>::new());
    assert_eq!(list(&vec![dir(".", "/.", vec![]), dir("..", "/..", vec![])]), Vec::<String>::new());
}

#[test]
fn walk_of_a_small_tree_logs_in_visiting_order() {
    let tree = vec![
        dir(".", "/.", vec![]),
        dir("..", "/..", vec![]),
        file("config.toml", "/config.toml"),
        dir(
            "certs",
            "/certs",
            vec![
                dir(".", "/certs/.", vec![]),
                dir("..", "/certs/..", vec![]),
                file("root.pem", "/certs/root.pem"),
                dir("old", "/certs/old", vec![file("x", "/certs/old/x")]),
                file("z.pem", "/certs/z.pem"),
            ],
        ),
        dir("empty", "/empty", vec![]),
        file("z", "/z"),
    ];
    assert_eq!(
        list(&tree),
        vec![
            "F /config.toml",
            "D /certs",
            "F /certs/root.pem",
            "D /certs/old",
            "F /certs/old/x",
            "F /certs/z.pem",
            "D /empty",
            "F /z",
        ]
    );
}

#[test]
fn what_lies_under_a_file_or_a_dot_directory_is_not_listed() {
    let hidden = vec![file("ghost", "/ghost")];
    let tree = vec![
        DirEntry { kind: FileType::File, name: "a".to_string(), path: "/a".to_string(), entries: vec![file("b", "/a/b")] },
        dir(".", "/.", hidden),
    ];
    assert_eq!(list(&tree), vec!["F /a"]);
}
