use std::collections::VecDeque;
use std::rc::Rc;

use fs_graph::adapter::property_value;
use fs_graph::path::{file_extension, join_path, str_equal};
use fs_graph::scan::is_excluded_directory;
use fs_graph::{
    directory_contains_file_handler, directory_subdirectory_handler, DirEntryInfo,
    DirectoryContainsFileIterator, DirectoryEdge, DirectoryVertex, EntryKind, FieldValue,
    FileVertex, FilesystemInterpreter, FilesystemVertex, Neighbors, OriginIterator,
    QueryContext, SubdirectoryIterator,
};

fn dir(name: &str, path: &str) -> DirectoryVertex {
    DirectoryVertex { name: name.to_owned(), path: path.to_owned() }
}

fn entry(name: &str, kind: EntryKind) -> DirEntryInfo {
    DirEntryInfo { name: name.to_owned(), kind }
}

fn root_vertex() -> DirectoryVertex {
    let interpreter = FilesystemInterpreter::new("root".to_owned());
    let mut start = interpreter.resolve_starting_vertices("OriginDirectory", &Vec::new());
    match start.next() {
        Some(FilesystemVertex::Directory(d)) => d,
        other => panic!("unexpected start vertex {:?}", other),
    }
}

fn files_of(scan: &DirectoryContainsFileIterator, listing: &[DirEntryInfo]) -> Vec<FilesystemVertex> {
    listing.iter().filter_map(|e| scan.vertex_for_entry(e)).collect()
}

fn subdirectories_of(scan: &SubdirectoryIterator, listing: &[DirEntryInfo]) -> Vec<FilesystemVertex> {
    listing.iter().filter_map(|e| scan.vertex_for_entry(e)).collect()
}

fn context(active: Option<FilesystemVertex>, row: u32) -> QueryContext<u32> {
    QueryContext { active_vertex: active, row }
}

#[test]
fn origin_iterator_yields_its_vertex_once() {
    let mut it = OriginIterator::new(dir("<origin>", ""));
    assert_eq!(it.next(), Some(FilesystemVertex::Directory(dir("<origin>", ""))));
    assert_eq!(it.next(), None);
    assert_eq!(it.next(), None);
}

#[test]
fn starting_vertex_is_the_root() {
    let root = root_vertex();
    assert_eq!(root.name, "<origin>");
    assert_eq!(root.path, "");
}

#[test]
fn join_path_of_root_is_the_name() {
    assert_eq!(join_path("", "b"), "b");
    assert_eq!(join_path("a", "x.txt"), "a/x.txt");
    assert_eq!(join_path("a/b", "c"), "a/b/c");
}

#[test]
fn extension_cases() {
    assert_eq!(file_extension("b"), None);
    assert_eq!(file_extension("Makefile"), None);
    assert_eq!(file_extension("a.b.c"), Some("c".to_owned()));
    assert_eq!(file_extension("x.txt"), Some("txt".to_owned()));
    assert_eq!(file_extension(".profile"), Some("profile".to_owned()));
    assert_eq!(file_extension("archive."), Some("".to_owned()));
    assert_eq!(file_extension(".."), Some("".to_owned()));
    assert_eq!(file_extension("é.ü"), Some("ü".to_owned()));
}

#[test]
fn str_equal_compares_characters() {
    assert!(str_equal("Directory", "Directory"));
    assert!(!str_equal("Directory", "File"));
    assert!(!str_equal("ab", "abc"));
    assert!(str_equal("", ""));
}

#[test]
fn excluded_directory_names() {
    assert!(is_excluded_directory(".git"));
    assert!(is_excluded_directory(".vscode"));
    assert!(is_excluded_directory("target"));
    assert!(!is_excluded_directory("targets"));
    assert!(!is_excluded_directory("src"));
}

#[test]
fn file_scan_keeps_regular_files_only() {
    let scan = DirectoryContainsFileIterator::new(Rc::new("root".to_owned()), &dir("a", "a"));
    let listing = vec![
        entry("x.txt", EntryKind::RegularFile),
        entry("sub", EntryKind::Directory),
        entry("link", EntryKind::Other),
        entry("locked", EntryKind::Unreadable),
        entry("README", EntryKind::RegularFile),
    ];
    let files = files_of(&scan, &listing);
    assert_eq!(
        files,
        vec![
            FilesystemVertex::File(FileVertex {
                name: "x.txt".to_owned(),
                extension: Some("txt".to_owned()),
                path: "a/x.txt".to_owned(),
            }),
            FilesystemVertex::File(FileVertex {
                name: "README".to_owned(),
                extension: None,
                path: "a/README".to_owned(),
            }),
        ]
    );
}

#[test]
fn file_path_is_parent_path_slash_name() {
    let parent = dir("c", "a/b/c");
    let scan = DirectoryContainsFileIterator::new(Rc::new("/srv".to_owned()), &parent);
    for name in ["one", "two.rs", "three.tar.gz"] {
        match scan.vertex_for_entry(&entry(name, EntryKind::RegularFile)) {
            Some(FilesystemVertex::File(f)) => {
                assert_eq!(f.path, format!("{}/{}", parent.path, f.name));
                assert_eq!(f.name, name);
            }
            other => panic!("unexpected {:?}", other),
        }
    }
}

#[test]
fn subdirectory_scan_never_yields_excluded_names() {
    let scan = SubdirectoryIterator::new(Rc::new("root".to_owned()), &root_vertex());
    let listing = vec![
        entry(".git", EntryKind::Directory),
        entry("src", EntryKind::Directory),
        entry(".vscode", EntryKind::Directory),
        entry("target", EntryKind::Directory),
        entry("notes.md", EntryKind::RegularFile),
        entry("gone", EntryKind::Unreadable),
        entry("docs", EntryKind::Directory),
    ];
    let dirs = subdirectories_of(&scan, &listing);
    assert_eq!(
        dirs,
        vec![
            FilesystemVertex::Directory(dir("src", "src")),
            FilesystemVertex::Directory(dir("docs", "docs")),
        ]
    );
}

#[test]
fn hidden_file_extension_follows_its_dot() {
    let scan = DirectoryContainsFileIterator::new(Rc::new("root".to_owned()), &dir("a", "a"));
    match scan.vertex_for_entry(&entry(".bashrc", EntryKind::RegularFile)) {
        Some(FilesystemVertex::File(f)) => {
            assert_eq!(f.extension, Some("bashrc".to_owned()));
            assert_eq!(f.path, "a/.bashrc");
        }
        other => panic!("unexpected {:?}", other),
    }
}

#[test]
fn excluded_name_as_a_file_is_still_listed() {
    let scan = DirectoryContainsFileIterator::new(Rc::new("root".to_owned()), &dir("a", "a"));
    let files = files_of(&scan, &[entry("target", EntryKind::RegularFile)]);
    assert_eq!(files.len(), 1);
}

#[test]
fn listing_path_joins_origin_and_directory() {
    let origin = Rc::new("/data/root".to_owned());
    let files = DirectoryContainsFileIterator::new(origin.clone(), &dir("a", "a"));
    assert_eq!(files.listing_path(), "/data/root/a");
    let subdirs = SubdirectoryIterator::new(origin, &dir("<origin>", ""));
    assert_eq!(subdirs.listing_path(), "/data/root/");
    assert_eq!(subdirs.directory(), &dir("<origin>", ""));
}

#[test]
fn handlers_build_the_matching_scan() {
    let origin = Rc::new("root".to_owned());
    let vertex = FilesystemVertex::Directory(dir("a", "a"));
    match directory_contains_file_handler(origin.clone(), &vertex) {
        Neighbors::Files(scan) => assert_eq!(scan.directory(), &dir("a", "a")),
        other => panic!("unexpected {:?}", other),
    }
    match directory_subdirectory_handler(origin, &vertex) {
        Neighbors::Subdirectories(scan) => assert_eq!(scan.directory(), &dir("a", "a")),
        other => panic!("unexpected {:?}", other),
    }
}

#[test]
fn resolver_keeps_count_and_order() {
    let interpreter = FilesystemInterpreter::new("root".to_owned());
    let contexts: VecDeque<QueryContext<u32>> = VecDeque::from(vec![
        context(Some(FilesystemVertex::Directory(dir("a", "a"))), 0),
        context(None, 1),
        context(Some(FilesystemVertex::Directory(dir("b", "b"))), 2),
        context(None, 3),
    ]);
    let resolver =
        interpreter.resolve_neighbors(contexts, "Directory", "out_Directory_ContainsFile", &Vec::new());
    let pairs = resolver.into_pairs();
    assert_eq!(pairs.len(), 4);
    let rows: Vec<u32> = pairs.iter().map(|(c, _)| c.row).collect();
    assert_eq!(rows, vec![0, 1, 2, 3]);
    assert!(matches!(&pairs[0].1, Neighbors::Files(s) if s.directory() == &dir("a", "a")));
    assert!(matches!(pairs[1].1, Neighbors::Empty));
    assert!(matches!(&pairs[2].1, Neighbors::Files(s) if s.directory() == &dir("b", "b")));
    assert!(matches!(pairs[3].1, Neighbors::Empty));
}

#[test]
fn resolver_of_no_contexts_yields_nothing() {
    let interpreter = FilesystemInterpreter::new("root".to_owned());
    let mut resolver = interpreter.resolve_neighbors::<u32>(
        VecDeque::new(),
        "Directory",
        "out_Directory_Subdirectory",
        &Vec::new(),
    );
    assert!(resolver.next().is_none());
    assert!(resolver.next().is_none());
}

#[test]
fn subdirectory_edge_pairs_with_subdirectory_scans() {
    let interpreter = FilesystemInterpreter::new("root".to_owned());
    let contexts = VecDeque::from(vec![context(Some(FilesystemVertex::Directory(root_vertex())), 7)]);
    let mut resolver =
        interpreter.resolve_neighbors(contexts, "Directory", "out_Directory_Subdirectory", &Vec::new());
    match resolver.next() {
        Some((c, Neighbors::Subdirectories(scan))) => {
            assert_eq!(c.row, 7);
            assert_eq!(scan.listing_path(), "root/");
        }
        other => panic!("unexpected {:?}", other),
    }
    assert!(resolver.next().is_none());
}

#[test]
fn abandoning_a_resolver_midway_is_harmless() {
    let interpreter = FilesystemInterpreter::new("root".to_owned());
    for round in 0..1000u32 {
        let contexts = VecDeque::from(vec![
            context(Some(FilesystemVertex::Directory(dir("a", "a"))), round),
            context(Some(FilesystemVertex::Directory(dir("b", "b"))), round + 1),
        ]);
        let mut resolver =
            interpreter.resolve_neighbors(contexts, "Directory", "out_Directory_ContainsFile", &Vec::new());
        let first = resolver.next();
        assert!(first.is_some());
        drop(resolver);
    }
}

#[test]
fn absent_vertex_gives_null_for_every_property() {
    let declared = [
        ("Directory", "name"),
        ("Directory", "path"),
        ("Directory", "__typename"),
        ("File", "name"),
        ("File", "path"),
        ("File", "extension"),
        ("File", "__typename"),
    ];
    for (vertex_type, property) in declared {
        assert_eq!(property_value(&None, vertex_type, property), FieldValue::Null);
    }
}

#[test]
fn typename_is_the_declared_type() {
    let d = Some(FilesystemVertex::Directory(dir("a", "a")));
    let f = Some(FilesystemVertex::File(FileVertex {
        name: "b".to_owned(),
        extension: None,
        path: "b".to_owned(),
    }));
    assert_eq!(property_value(&d, "Directory", "__typename"), FieldValue::String("Directory".to_owned()));
    assert_eq!(property_value(&f, "File", "__typename"), FieldValue::String("File".to_owned()));
}

#[test]
fn resolve_property_reads_fields_in_order() {
    let interpreter = FilesystemInterpreter::new("root".to_owned());
    let contexts = VecDeque::from(vec![
        context(
            Some(FilesystemVertex::File(FileVertex {
                name: "x.txt".to_owned(),
                extension: Some("txt".to_owned()),
                path: "a/x.txt".to_owned(),
            })),
            0,
        ),
        context(None, 1),
        context(
            Some(FilesystemVertex::File(FileVertex {
                name: "b".to_owned(),
                extension: None,
                path: "b".to_owned(),
            })),
            2,
        ),
    ]);
    let values = interpreter.resolve_property(contexts, "File", "extension");
    let got: Vec<(u32, FieldValue)> = values.into_iter().map(|(c, v)| (c.row, v)).collect();
    assert_eq!(
        got,
        vec![
            (0, FieldValue::String("txt".to_owned())),
            (1, FieldValue::Null),
            (2, FieldValue::Null),
        ]
    );
}

#[test]
fn directory_properties() {
    let d = Some(FilesystemVertex::Directory(dir("a", "a")));
    assert_eq!(property_value(&d, "Directory", "name"), FieldValue::String("a".to_owned()));
    assert_eq!(property_value(&d, "Directory", "path"), FieldValue::String("a".to_owned()));
    let root = Some(FilesystemVertex::Directory(root_vertex()));
    assert_eq!(property_value(&root, "Directory", "name"), FieldValue::String("<origin>".to_owned()));
    assert_eq!(property_value(&root, "Directory", "path"), FieldValue::String(String::new()));
}

#[test]
fn end_to_end_two_level_traversal() {
    // root/ holds the directory a/ (which holds x.txt) and the file b.
    let root_listing = vec![entry("a", EntryKind::Directory), entry("b", EntryKind::RegularFile)];
    let a_listing = vec![entry("x.txt", EntryKind::RegularFile)];
    let interpreter = FilesystemInterpreter::new("root".to_owned());
    let root = FilesystemVertex::Directory(root_vertex());

    // OriginDirectory -> out_Directory_Subdirectory -> out_Directory_ContainsFile
    let mut subdirs = interpreter.resolve_neighbors(
        VecDeque::from(vec![context(Some(root.clone()), 0)]),
        "Directory",
        "out_Directory_Subdirectory",
        &Vec::new(),
    );
    let subdir_vertices = match subdirs.next() {
        Some((_, Neighbors::Subdirectories(scan))) => subdirectories_of(&scan, &root_listing),
        other => panic!("unexpected {:?}", other),
    };
    assert_eq!(subdir_vertices, vec![FilesystemVertex::Directory(dir("a", "a"))]);

    let mut files = interpreter.resolve_neighbors(
        subdir_vertices.into_iter().map(|v| context(Some(v), 1)).collect(),
        "Directory",
        "out_Directory_ContainsFile",
        &Vec::new(),
    );
    let nested = match files.next() {
        Some((_, Neighbors::Files(scan))) => {
            assert_eq!(scan.listing_path(), "root/a");
            files_of(&scan, &a_listing)
        }
        other => panic!("unexpected {:?}", other),
    };
    assert!(files.next().is_none());
    assert_eq!(
        nested,
        vec![FilesystemVertex::File(FileVertex {
            name: "x.txt".to_owned(),
            extension: Some("txt".to_owned()),
            path: "a/x.txt".to_owned(),
        })]
    );

    // OriginDirectory -> out_Directory_ContainsFile
    let mut direct = interpreter.resolve_neighbors(
        VecDeque::from(vec![context(Some(root), 0)]),
        "Directory",
        "out_Directory_ContainsFile",
        &Vec::new(),
    );
    let top_files = match direct.next() {
        Some((_, Neighbors::Files(scan))) => files_of(&scan, &root_listing),
        other => panic!("unexpected {:?}", other),
    };
    assert_eq!(
        top_files,
        vec![FilesystemVertex::File(FileVertex {
            name: "b".to_owned(),
            extension: None,
            path: "b".to_owned(),
        })]
    );
}

#[test]
fn vertices_compare_by_structure() {
    let a = FilesystemVertex::Directory(dir("a", "a"));
    assert_eq!(a.clone(), a);
    assert_ne!(a, FilesystemVertex::Directory(dir("a", "b")));
    let f = FilesystemVertex::File(FileVertex {
        name: "a".to_owned(),
        extension: None,
        path: "a".to_owned(),
    });
    assert_ne!(a, f);
    let g = FilesystemVertex::File(FileVertex {
        name: "a".to_owned(),
        extension: Some(String::new()),
        path: "a".to_owned(),
    });
    assert_ne!(f, g);
    assert_eq!(DirectoryEdge::ContainsFile, DirectoryEdge::ContainsFile);
}
