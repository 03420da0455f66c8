use asset_server::assets::asset_path_allowed;

#[test]
fn plain_asset_paths_are_allowed() {
    assert!(asset_path_allowed("/u2net.onnx"));
    assert!(asset_path_allowed("/sub/dir/model.onnx"));
    assert!(asset_path_allowed(""));
    assert!(asset_path_allowed("/"));
    assert!(asset_path_allowed("/./a"));
    assert!(asset_path_allowed("/..."));
    assert!(asset_path_allowed("/a/..b"));
    assert!(asset_path_allowed("/b../c"));
}

#[test]
fn parent_segments_are_refused() {
    assert!(!asset_path_allowed("/../secret"));
    assert!(!asset_path_allowed(".."));
    assert!(!asset_path_allowed("/a/../../etc/passwd"));
    assert!(!asset_path_allowed("/a/.."));
    assert!(!asset_path_allowed("/a/../b"));
}
