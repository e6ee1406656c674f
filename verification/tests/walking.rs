use fsbridge::search::DirEntry;
use fsbridge::search::search_tree;
use fsbridge::transfer::CopyAction;
use fsbridge::transfer::copy_dir_plan;

fn sample_tree() -> Vec<DirEntry> {
    vec![
        DirEntry::File { name: "abc.txt".to_string(), modified: 1 },
        DirEntry::Dir {
            name: "Abandon".to_string(),
            modified: 2,
            entries: vec![
                DirEntry::File { name: "xABCy".to_string(), modified: 3 },
                DirEntry::Dir {
                    name: "deep".to_string(),
                    modified: 4,
                    entries: vec![DirEntry::File { name: "last-abc".to_string(), modified: 5 }],
                },
            ],
        },
        DirEntry::File { name: "other".to_string(), modified: 6 },
    ]
}

#[test]
fn search_is_case_insensitive() {
    let tree = sample_tree();
    let lower = search_tree(&tree, "abc");
    let upper = search_tree(&tree, "ABC");
    assert_eq!(lower.len(), upper.len());
    for (a, b) in lower.iter().zip(upper.iter()) {
        assert_eq!(a.name, b.name);
        assert_eq!(a.node_type, b.node_type);
        assert_eq!(a.modified, b.modified);
        assert_eq!(a.path, b.path);
    }
}

#[test]
fn search_records_parent_paths_depth_first() {
    let tree = sample_tree();
    let hits = search_tree(&tree, "abc");
    assert_eq!(hits.len(), 3);

    assert_eq!(hits[0].name, "abc.txt");
    assert_eq!(hits[0].node_type, "file");
    assert_eq!(hits[0].modified, "1");
    assert!(hits[0].path.is_empty());

    assert_eq!(hits[1].name, "xABCy");
    assert_eq!(hits[1].node_type, "file");
    assert_eq!(hits[1].path, vec!["Abandon".to_string()]);

    assert_eq!(hits[2].name, "last-abc");
    assert_eq!(hits[2].path, vec!["Abandon".to_string(), "deep".to_string()]);
}

#[test]
fn search_matches_directories_before_descending() {
    let tree = sample_tree();
    let hits = search_tree(&tree, "aban");
    assert_eq!(hits.len(), 1);
    assert_eq!(hits[0].name, "Abandon");
    assert_eq!(hits[0].node_type, "folder");
    assert!(hits[0].path.is_empty());
}

#[test]
fn search_without_hits_is_empty() {
    let tree = sample_tree();
    assert!(search_tree(&tree, "zzz").is_empty());
}

#[test]
fn search_of_empty_tree_is_empty() {
    let tree: Vec<DirEntry> = Vec::new();
    assert!(search_tree(&tree, "a").is_empty());
}

#[test]
fn copy_plan_reproduces_nested_subtree() {
    let tree = vec![
        DirEntry::File { name: "top.txt".to_string(), modified: 1 },
        DirEntry::Dir {
            name: "inner".to_string(),
            modified: 2,
            entries: vec![
                DirEntry::File { name: "leaf.bin".to_string(), modified: 3 },
                DirEntry::Dir {
                    name: "deeper".to_string(),
                    modified: 4,
                    entries: vec![DirEntry::File { name: "end".to_string(), modified: 5 }],
                },
            ],
        },
    ];
    let plan = copy_dir_plan(&tree, "/src/item", "/dst/item");
    let mut rendered: Vec<String> = Vec::new();
    for action in &plan {
        match action {
            CopyAction::MakeDir { path } => rendered.push(format!("mkdir {}", path)),
            CopyAction::CopyFile { from, to } => rendered.push(format!("copy {} {}", from, to)),
        }
    }
    assert_eq!(
        rendered,
        vec![
            "mkdir /dst/item".to_string(),
            "copy /src/item/top.txt /dst/item/top.txt".to_string(),
            "mkdir /dst/item/inner".to_string(),
            "copy /src/item/inner/leaf.bin /dst/item/inner/leaf.bin".to_string(),
            "mkdir /dst/item/inner/deeper".to_string(),
            "copy /src/item/inner/deeper/end /dst/item/inner/deeper/end".to_string(),
        ]
    );
}

#[test]
fn copy_plan_of_empty_directory_only_creates_it() {
    let tree: Vec<DirEntry> = Vec::new();
    let plan = copy_dir_plan(&tree, "/s", "/d");
    assert_eq!(plan.len(), 1);
    assert!(matches!(&plan[0], CopyAction::MakeDir { path } if path == "/d"));
}
