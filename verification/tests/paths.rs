use filesharing::config::{views_mount, Config, Features, ViewsMount};
use filesharing::paths::{files_path, link_path};

fn default_root() -> String {
    Config::from_values(None, None, None, None, Features { custom_client: false, disable_default_client: false })
        .root_folder
}

#[test]
fn filepath_is_correct() {
    let root = default_root();
    let result = format!("{}/{}", root, "filename.rs");
    assert_eq!(files_path(&root, "filename.rs"), result);
    assert_eq!(files_path(&root, &"filename.rs".to_string()), result);
}

#[test]
fn files_path_joins_folder_and_name() {
    assert_eq!(files_path("/srv/files", "a1b2.png"), "/srv/files/a1b2.png");
    assert_eq!(files_path("", "x"), "/x");
}

#[test]
fn link_path_without_custom_client_is_unchanged() {
    let f = Features { custom_client: false, disable_default_client: false };
    assert_eq!(link_path(&f, "/"), "/");
    assert_eq!(link_path(&f, "/users"), "/users");
}

#[test]
fn link_path_with_custom_client_moves_under_legacy() {
    let f = Features { custom_client: true, disable_default_client: false };
    assert_eq!(link_path(&f, "/"), "/legacy");
    assert_eq!(link_path(&f, "/users"), "/legacy/users");
    assert_eq!(link_path(&f, "/assets/styles.css"), "/legacy/assets/styles.css");
}

#[test]
fn config_defaults() {
    let c = Config::from_values(None, None, None, None, Features { custom_client: false, disable_default_client: false });
    assert_eq!(c.server_port, "9800");
    assert_eq!(c.server_domain, "http://localhost:9800");
    assert_eq!(c.server_name, "Filehost");
    assert_eq!(c.root_folder, "files");
    assert_eq!(c.listen_address(), "0.0.0.0:9800");
    assert_eq!(c.public_link("abc.txt"), "http://localhost:9800/abc.txt");
}

#[test]
fn config_domain_follows_configured_port() {
    let c = Config::from_values(
        Some("3000".to_string()),
        None,
        Some("Share".to_string()),
        Some("/data".to_string()),
        Features { custom_client: false, disable_default_client: false },
    );
    assert_eq!(c.server_domain, "http://localhost:3000");
    assert_eq!(c.server_name, "Share");
    assert_eq!(c.root_folder, "/data");
    let d = Config::from_values(
        Some("3000".to_string()),
        Some("https://files.example".to_string()),
        None,
        None,
        Features { custom_client: false, disable_default_client: false },
    );
    assert_eq!(d.server_domain, "https://files.example");
}

#[test]
fn features_from_names() {
    let f = Features::from_names(&vec!["custom_client".to_string(), "other".to_string()]);
    assert!(f.custom_client);
    assert!(!f.disable_default_client);
    let g = Features::from_names(&vec![]);
    assert!(!g.custom_client && !g.disable_default_client);
}

#[test]
fn views_are_mounted_by_features() {
    assert_eq!(views_mount(&Features { custom_client: false, disable_default_client: true }), ViewsMount::AtRoot);
    assert_eq!(views_mount(&Features { custom_client: true, disable_default_client: false }), ViewsMount::UnderLegacy);
    assert_eq!(views_mount(&Features { custom_client: true, disable_default_client: true }), ViewsMount::Hidden);
}
