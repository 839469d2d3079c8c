use path_inspector::fs_tree::{get_directory_size, FsNode, PathStat};
use path_inspector::metadata::{get_file_metadata, FileMetadata};
use path_inspector::path_name::{extension_of_name, file_name_of};

#[test]
fn regular_file_record() {
    let stat = PathStat::NotDir { size: Some(42) };
    let m = get_file_metadata("/tmp/report.v2.csv", &stat);
    assert_eq!(m.name, "report.v2.csv");
    assert_eq!(m.size, 42);
    assert_eq!(m.path, "/tmp/report.v2.csv");
    assert!(!m.is_dir);
    assert_eq!(m.extension, "csv");
}

#[test]
fn directory_with_file_and_subdirectory() {
    let sub = FsNode::Dir { entries: vec![FsNode::File { size: 5 }] };
    let stat = PathStat::Dir { entries: Some(vec![FsNode::File { size: 10 }, sub]) };
    let m = get_file_metadata("/tmp/a", &stat);
    assert_eq!(m.name, "a");
    assert_eq!(m.size, 15);
    assert_eq!(m.path, "/tmp/a");
    assert!(m.is_dir);
    assert_eq!(m.extension, "");
}

#[test]
fn empty_directory_has_size_zero() {
    let stat = PathStat::Dir { entries: Some(Vec::new()) };
    let m = get_file_metadata("/tmp/empty", &stat);
    assert!(m.is_dir);
    assert_eq!(m.size, 0);
}

#[test]
fn flat_directory_sums_file_sizes() {
    let entries = vec![
        FsNode::File { size: 1 },
        FsNode::File { size: 2 },
        FsNode::File { size: 3 },
    ];
    let stat = PathStat::Dir { entries: Some(entries) };
    let m = get_file_metadata("/data", &stat);
    assert_eq!(m.size, 6);
}

#[test]
fn nested_directories_aggregate_recursively() {
    let level3 = FsNode::Dir { entries: vec![FsNode::File { size: 7 }] };
    let level2 = FsNode::Dir { entries: vec![level3] };
    let stat = PathStat::Dir { entries: Some(vec![level2]) };
    let m = get_file_metadata("/outer", &stat);
    assert_eq!(m.size, 7);
}

#[test]
fn missing_path_degrades_to_zero() {
    let stat = PathStat::NotDir { size: None };
    let m = get_file_metadata("/no/such/place.txt", &stat);
    assert!(!m.is_dir);
    assert_eq!(m.size, 0);
    assert_eq!(m.name, "place.txt");
    assert_eq!(m.path, "/no/such/place.txt");
}

#[test]
fn unreadable_file_degrades_to_zero() {
    let stat = PathStat::NotDir { size: None };
    let m = get_file_metadata("/root/locked.bin", &stat);
    assert!(!m.is_dir);
    assert_eq!(m.size, 0);
}

#[test]
fn failed_traversal_degrades_to_zero() {
    let stat = PathStat::Dir { entries: None };
    let m = get_file_metadata("/tmp/denied", &stat);
    assert!(m.is_dir);
    assert_eq!(m.size, 0);
    assert_eq!(m.name, "denied");
}

#[test]
fn inspection_is_idempotent() {
    let stat = PathStat::Dir {
        entries: Some(vec![FsNode::File { size: 4 }, FsNode::Other]),
    };
    let m1 = get_file_metadata("/tmp/twice", &stat);
    let m2 = get_file_metadata("/tmp/twice", &stat);
    assert_eq!(m1.name, m2.name);
    assert_eq!(m1.size, m2.size);
    assert_eq!(m1.path, m2.path);
    assert_eq!(m1.is_dir, m2.is_dir);
    assert_eq!(m1.extension, m2.extension);
}

#[test]
fn special_entries_contribute_nothing() {
    let entries = vec![FsNode::File { size: 3 }, FsNode::Other, FsNode::Other];
    let stat = PathStat::Dir { entries: Some(entries) };
    let m = get_file_metadata("/tmp/links", &stat);
    assert_eq!(m.size, 3);

    let only_links = PathStat::Dir { entries: Some(vec![FsNode::Other]) };
    let m2 = get_file_metadata("/tmp/onlylinks", &only_links);
    assert_eq!(m2.size, 0);
}

#[test]
fn directory_size_is_computed_directly() {
    let entries = vec![
        FsNode::File { size: 100 },
        FsNode::Dir { entries: vec![FsNode::File { size: 20 }, FsNode::Other] },
    ];
    assert_eq!(get_directory_size(&entries), 120);
    assert_eq!(get_directory_size(&Vec::new()), 0);
}

#[test]
fn directory_size_saturates_instead_of_overflowing() {
    let entries = vec![FsNode::File { size: u64::MAX }, FsNode::File { size: 1 }];
    assert_eq!(get_directory_size(&entries), u64::MAX);
}

#[test]
fn name_of_ordinary_paths() {
    assert_eq!(file_name_of("/tmp/a/x.txt"), "x.txt");
    assert_eq!(file_name_of("relative/path"), "path");
    assert_eq!(file_name_of("justaname"), "justaname");
    assert_eq!(file_name_of("/tmp/a/"), "a");
    assert_eq!(file_name_of("//double//slash//"), "slash");
}

#[test]
fn name_of_paths_without_a_component() {
    assert_eq!(file_name_of(""), "");
    assert_eq!(file_name_of("/"), "");
    assert_eq!(file_name_of("///"), "");
    assert_eq!(file_name_of("."), "");
    assert_eq!(file_name_of(".."), "");
    assert_eq!(file_name_of("/tmp/.."), "");
    assert_eq!(file_name_of("foo/../"), "");
}

#[test]
fn name_skips_current_directory_components() {
    assert_eq!(file_name_of("foo/."), "foo");
    assert_eq!(file_name_of("a/./"), "a");
    assert_eq!(file_name_of("./x"), "x");
}

#[test]
fn extension_of_ordinary_names() {
    assert_eq!(extension_of_name("report.v2.csv"), "csv");
    assert_eq!(extension_of_name("archive.tar.gz"), "gz");
    assert_eq!(extension_of_name("plain"), "");
    assert_eq!(extension_of_name("project.v2"), "v2");
}

#[test]
fn extension_of_dotted_edge_cases() {
    assert_eq!(extension_of_name(".gitignore"), "");
    assert_eq!(extension_of_name("trailing."), "");
    assert_eq!(extension_of_name(""), "");
    assert_eq!(extension_of_name("..."), "");
}

#[test]
fn directory_record_keeps_string_extension() {
    let stat = PathStat::Dir { entries: Some(Vec::new()) };
    let m = get_file_metadata("/srv/project.v2", &stat);
    assert!(m.is_dir);
    assert_eq!(m.extension, "v2");
}

#[test]
fn default_record_is_empty() {
    let m = FileMetadata::default();
    assert_eq!(m.name, "");
    assert_eq!(m.size, 0);
    assert_eq!(m.path, "");
    assert!(!m.is_dir);
    assert_eq!(m.extension, "");
}
