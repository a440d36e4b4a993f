use chatterbox_desktop::layout::{env_file_candidates, join_path, script_layout};

#[test]
fn joins_paths_like_std() {
    for (dir, name) in [("/a", "b"), ("/a/", "b"), ("", "b"), ("/a", "/abs"), ("a", "..")] {
        let expected = std::path::Path::new(dir).join(name).to_string_lossy().to_string();
        assert_eq!(join_path(dir, name), expected);
    }
}

#[test]
fn env_files_tried() {
    assert_eq!(env_file_candidates(true, "/src/app/src-tauri", None), vec!["/src/app/src-tauri/../.env"]);
    assert_eq!(
        env_file_candidates(false, "/src/app/src-tauri", Some("/Applications/C.app/Contents/MacOS".to_string())),
        vec![
            "/Applications/C.app/Contents/MacOS/.env",
            "/Applications/C.app/Contents/MacOS/../Resources/.env",
        ]
    );
    assert!(env_file_candidates(false, "/m", None).is_empty());
}

#[test]
fn script_and_working_directory() {
    assert_eq!(
        script_layout(true, "/w/desktop/src-tauri", ""),
        (
            "/w/desktop/src-tauri/../python_ipc_server.py".to_string(),
            "/w/desktop/src-tauri/../../chatterbox".to_string()
        )
    );
    assert_eq!(
        script_layout(false, "/w", "/opt/c/resources"),
        ("/opt/c/resources/python_ipc_server.py".to_string(), "/opt/c/resources".to_string())
    );
}
