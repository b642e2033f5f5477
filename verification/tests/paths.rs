use proxypal_config::paths::{proxy_config_dir, proxy_config_file, resolve_proxy_config_paths};

#[test]
fn dir_hangs_under_the_platform_base() {
    let d = proxy_config_dir(Some("/home/alice/.config".to_string()));
    assert_eq!(d, "/home/alice/.config/proxypal");
}

#[test]
fn dir_falls_back_to_current_directory() {
    let d = proxy_config_dir(None);
    assert_eq!(d, "./proxypal");
}

#[test]
fn file_sits_inside_the_directory() {
    let f = proxy_config_file("/home/alice/.config/proxypal".to_string());
    assert_eq!(f, "/home/alice/.config/proxypal/proxy-config.yaml");
}

#[test]
fn resolved_paths_are_consistent() {
    let (dir, file) = resolve_proxy_config_paths();
    assert!(dir.ends_with("/proxypal"));
    assert_eq!(file, format!("{}/proxy-config.yaml", dir));
}

#[test]
fn resolved_dir_uses_the_platform_config_dir() {
    // dirs::config_dir answers from the environment; the resolved directory
    // must hang directly under whatever it answered.
    if let Some(base) = dirs::config_dir() {
        let (dir, _) = resolve_proxy_config_paths();
        assert_eq!(dir, format!("{}/proxypal", base.to_string_lossy()));
    }
}
