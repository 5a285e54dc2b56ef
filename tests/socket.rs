use ravenwm::socket::SocketPath;

#[test]
fn override_path_wins() {
    let p = SocketPath::new(Some("/tmp/wm.sock".to_string()), Some("/run/user/1".to_string()));
    assert_eq!(p.unwrap().as_str(), "/tmp/wm.sock");
}

#[test]
fn runtime_dir_fallback() {
    let p = SocketPath::new(None, Some("/run/user/1000".to_string()));
    assert_eq!(p.unwrap().as_str(), "/run/user/1000/ravenwm.sock");
}

#[test]
fn runtime_dir_with_trailing_slash() {
    let p = SocketPath::new(None, Some("/run/user/1000/".to_string()));
    assert_eq!(p.unwrap().as_str(), "/run/user/1000/ravenwm.sock");
}

#[test]
fn empty_runtime_dir() {
    let p = SocketPath::new(None, Some(String::new()));
    assert_eq!(p.unwrap().as_str(), "ravenwm.sock");
}

#[test]
fn no_variables_no_path() {
    assert!(SocketPath::new(None, None).is_none());
}
