use zellij_sshd::download::Download;

#[test]
fn test_from_download() {
    let download = Download::from("https://github.com/example/plugin.wasm");
    assert_eq!(download.url, "https://github.com/example/plugin.wasm");
    assert_eq!(download.file_name, "plugin.wasm");
}

#[test]
fn test_empty_download() {
    let d1 = Download::from("https://example.com");
    assert_eq!(d1.url, "https://example.com");
    assert_eq!(d1.file_name, "");

    let d2 = Download::from("github.com");
    assert_eq!(d2.url, "");
    assert_eq!(d2.file_name, "");
}

#[test]
fn download_keeps_deep_paths() {
    let d = Download::from("https://host.example/dir/sub/archive.tar.gz");
    assert_eq!(d.url, "https://host.example/dir/sub/archive.tar.gz");
    assert_eq!(d.file_name, "archive.tar.gz");
}

#[test]
fn download_default_is_empty() {
    let d = Download::default();
    assert_eq!(d.url, "");
    assert_eq!(d.file_name, "");
}
