use fsbridge::content::encode_content;
use fsbridge::content::find_extension;
use fsbridge::content::mime_for;
use fsbridge::decimal::u64_to_decimal;
use fsbridge::errors::FsErrorKind;
use fsbridge::errors::OsErrorKind;
use fsbridge::errors::OsFailure;
use fsbridge::errors::classify_os_failure;
use fsbridge::mutate::child_target;
use fsbridge::mutate::rename_targets;
use fsbridge::mutate::transfer_targets;
use fsbridge::names::check_name;
use fsbridge::nodes::EntryInfo;
use fsbridge::nodes::EntryKind;
use fsbridge::nodes::ItemReference;
use fsbridge::nodes::list_nodes;
use fsbridge::nodes::root_node;
use fsbridge::paths::check_within;
use fsbridge::paths::join_child;
use fsbridge::paths::request_path;
use fsbridge::paths::resolve_verdict;

#[test]
fn safe_names_pass() {
    assert!(check_name("report.txt"));
    assert!(check_name("nested-folder"));
    assert!(check_name("..."));
    assert!(check_name("a b c"));
}

#[test]
fn unsafe_names_fail() {
    assert!(!check_name(""));
    assert!(!check_name("."));
    assert!(!check_name(".."));
    assert!(!check_name("a/b"));
    assert!(!check_name("a\\b"));
    assert!(!check_name("../escape"));
    assert!(!check_name("/absolute"));
}

#[test]
fn request_path_appends_segments() {
    let segs = vec!["docs".to_string(), "notes".to_string()];
    assert_eq!(request_path("/home/u", &segs), "/home/u/docs/notes");
    let none: Vec<String> = Vec::new();
    assert_eq!(request_path("/home/u", &none), "/home/u");
}

#[test]
fn containment_accepts_root_and_descendants() {
    assert!(check_within("/home/u", "/home/u"));
    assert!(check_within("/home/u", "/home/u/docs"));
    assert!(check_within("/", "/etc"));
}

#[test]
fn containment_rejects_outsiders() {
    assert!(!check_within("/home/u", "/home/uother"));
    assert!(!check_within("/home/u", "/etc"));
    assert!(!check_within("/home/u", "/home"));
}

#[test]
fn escape_is_access_denied() {
    let out = resolve_verdict("/home/u", "/home/u/../../etc", Ok("/etc".to_string()));
    let e = out.unwrap_err();
    assert_eq!(e.kind, FsErrorKind::AccessDenied);
    assert_eq!(e.path, "/etc");
}

#[test]
fn resolution_failure_keeps_classification() {
    let out = resolve_verdict(
        "/home/u",
        "/home/u/gone",
        Err(OsFailure { kind: OsErrorKind::NotFound, message: "no such file".to_string() }),
    );
    let e = out.unwrap_err();
    assert_eq!(e.kind, FsErrorKind::NotFound);
    assert_eq!(e.path, "/home/u/gone");
    assert_eq!(e.message, "no such file");
}

#[test]
fn resolution_within_succeeds() {
    let out = resolve_verdict("/home/u", "/home/u/docs", Ok("/home/u/docs".to_string()));
    assert_eq!(out.unwrap(), "/home/u/docs");
}

#[test]
fn os_failures_map_onto_taxonomy() {
    let cases = [
        (OsErrorKind::NotFound, FsErrorKind::NotFound),
        (OsErrorKind::AlreadyExists, FsErrorKind::AlreadyExists),
        (OsErrorKind::PermissionDenied, FsErrorKind::IoError),
        (OsErrorKind::Other, FsErrorKind::IoError),
    ];
    for (os, fs) in cases {
        let e = classify_os_failure(
            OsFailure { kind: os, message: "m".to_string() },
            "/p".to_string(),
        );
        assert_eq!(e.kind, fs);
        assert_eq!(e.path, "/p");
        assert_eq!(e.message, "m");
    }
}

#[test]
fn decimal_rendering() {
    assert_eq!(u64_to_decimal(0), "0");
    assert_eq!(u64_to_decimal(7), "7");
    assert_eq!(u64_to_decimal(1700000000), "1700000000");
    assert_eq!(u64_to_decimal(u64::MAX), "18446744073709551615");
}

#[test]
fn empty_directory_lists_empty() {
    let entries: Vec<EntryInfo> = Vec::new();
    assert_eq!(list_nodes(&entries).len(), 0);
}

#[test]
fn listing_matches_entries() {
    let entries = vec![
        EntryInfo { name: "a.txt".to_string(), kind: EntryKind::File, modified_secs: 10 },
        EntryInfo { name: "sub".to_string(), kind: EntryKind::Folder, modified_secs: 20 },
        EntryInfo { name: "pipe".to_string(), kind: EntryKind::Other, modified_secs: 30 },
    ];
    let nodes = list_nodes(&entries);
    assert_eq!(nodes.len(), 3);

    assert_eq!(nodes[0].name, "a.txt");
    assert_eq!(nodes[0].node_type, "file");
    assert_eq!(nodes[0].modified, "10");
    assert!(nodes[0].children.is_none());
    assert!(nodes[0].children_loaded.is_none());
    assert!(nodes[0].content.is_none());

    assert_eq!(nodes[1].name, "sub");
    assert_eq!(nodes[1].node_type, "folder");
    assert_eq!(nodes[1].modified, "20");
    assert_eq!(nodes[1].children.as_ref().map(|c| c.len()), Some(0));
    assert_eq!(nodes[1].children_loaded, Some(false));

    assert_eq!(nodes[2].node_type, "file");
}

#[test]
fn root_node_is_unexpanded_folder() {
    let n = root_node(42);
    assert_eq!(n.name, "My Computer");
    assert_eq!(n.node_type, "folder");
    assert_eq!(n.modified, "42");
    assert_eq!(n.children.as_ref().map(|c| c.len()), Some(0));
    assert_eq!(n.children_loaded, Some(false));
    assert!(n.content.is_none());
}

#[test]
fn extension_lookup() {
    assert_eq!(find_extension("a.txt").as_deref(), Some("txt"));
    assert_eq!(find_extension("archive.tar.gz").as_deref(), Some("gz"));
    assert_eq!(find_extension("trailing.").as_deref(), Some(""));
    assert_eq!(find_extension("noext"), None);
    assert_eq!(find_extension(".gitignore"), None);
}

#[test]
fn mime_table() {
    assert_eq!(mime_for("txt"), "text/plain");
    assert_eq!(mime_for("json"), "application/json");
    assert_eq!(mime_for("html"), "text/html");
    assert_eq!(mime_for("htm"), "text/html");
    assert_eq!(mime_for("css"), "text/css");
    assert_eq!(mime_for("js"), "application/javascript");
    assert_eq!(mime_for("png"), "image/png");
    assert_eq!(mime_for("jpg"), "image/jpeg");
    assert_eq!(mime_for("jpeg"), "image/jpeg");
    assert_eq!(mime_for("gif"), "image/gif");
    assert_eq!(mime_for("svg"), "image/svg+xml");
    assert_eq!(mime_for("webp"), "image/webp");
    assert_eq!(mime_for("bmp"), "image/bmp");
    assert_eq!(mime_for("exe"), "application/octet-stream");
    assert_eq!(mime_for(""), "application/octet-stream");
}

#[test]
fn text_file_travels_as_data_uri() {
    let bytes = b"hello".to_vec();
    assert_eq!(encode_content("greeting.txt", &bytes), "data:text/plain;base64,aGVsbG8=");
}

#[test]
fn upper_case_extension_still_classifies() {
    let bytes = b"{}".to_vec();
    assert_eq!(encode_content("data.JSON", &bytes), "data:application/json;base64,e30=");
}

#[test]
fn binary_bytes_travel_verbatim() {
    let bytes = vec![0xffu8, 0x00u8];
    assert_eq!(
        encode_content("blob.bin", &bytes),
        "data:application/octet-stream;base64,/wA="
    );
    let image = vec![0xffu8, 0x00u8];
    assert_eq!(encode_content("pic.png", &image), "data:image/png;base64,/wA=");
}

#[test]
fn empty_file_has_empty_payload() {
    let bytes: Vec<u8> = Vec::new();
    assert_eq!(encode_content("empty.txt", &bytes), "data:text/plain;base64,");
}

#[test]
fn child_target_joins_safe_names() {
    assert_eq!(child_target("/home/u/docs", "new.txt").unwrap(), "/home/u/docs/new.txt");
    let e = child_target("/home/u/docs", "../up").unwrap_err();
    assert_eq!(e.kind, FsErrorKind::InvalidName);
    assert_eq!(e.path, "../up");
}

#[test]
fn rename_targets_validate_both_names() {
    let (from, to) = rename_targets("/d", "a.txt", "b.txt").unwrap();
    assert_eq!(from, "/d/a.txt");
    assert_eq!(to, "/d/b.txt");
    let e = rename_targets("/d", "a/b", "c").unwrap_err();
    assert_eq!(e.kind, FsErrorKind::InvalidName);
    assert_eq!(e.path, "a/b");
    let e = rename_targets("/d", "a", "c/d").unwrap_err();
    assert_eq!(e.path, "c/d");
}

#[test]
fn rename_then_listing_shows_new_name_only() {
    let (from, to) = rename_targets("/d", "old.txt", "new.txt").unwrap();
    let mut listing = vec!["/d/other".to_string(), from.clone()];
    // The operating-system rename replaces the source path with the
    // destination path, as the ghost model in the library states.
    listing.retain(|p| *p != from);
    listing.push(to.clone());
    assert!(listing.contains(&"/d/new.txt".to_string()));
    assert!(!listing.contains(&"/d/old.txt".to_string()));
}

#[test]
fn create_then_delete_leaves_no_trace() {
    let created = child_target("/d", "x").unwrap();
    let deleted = child_target("/d", "x").unwrap();
    assert_eq!(created, deleted);
    let mut listing: Vec<String> = vec!["/d/y".to_string()];
    listing.push(created);
    listing.retain(|p| *p != deleted);
    assert!(!listing.contains(&"/d/x".to_string()));
    assert!(listing.contains(&"/d/y".to_string()));
}

#[test]
fn transfer_targets_mirror_the_name() {
    let item = ItemReference { name: "item".to_string(), item_type: "file".to_string() };
    let (from, to) = transfer_targets("/src", "/dst", &item).unwrap();
    assert_eq!(from, "/src/item");
    assert_eq!(to, "/dst/item");
    let bad = ItemReference { name: "..".to_string(), item_type: "folder".to_string() };
    let e = transfer_targets("/src", "/dst", &bad).unwrap_err();
    assert_eq!(e.kind, FsErrorKind::InvalidName);
}

#[test]
fn join_child_concatenates() {
    assert_eq!(join_child("/a", "b"), "/a/b");
}

#[test]
fn batch_move_completes_up_to_first_failure() {
    // One existing item before one missing item: the first move lands
    // and stays; the failure reports the missing item alone.
    let mut src = vec!["present".to_string()];
    let mut dst: Vec<String> = Vec::new();
    let items = ["present".to_string(), "missing".to_string()];
    let mut failure: Option<usize> = None;
    for (i, item) in items.iter().enumerate() {
        if let Some(pos) = src.iter().position(|n| n == item) {
            let moved = src.remove(pos);
            dst.push(moved);
        } else {
            failure = Some(i);
            break;
        }
    }
    assert_eq!(failure, Some(1));
    assert!(dst.contains(&"present".to_string()));
    assert!(!src.contains(&"present".to_string()));
}
