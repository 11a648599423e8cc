use filesharing::config::Features;
use filesharing::permissions::Permissions;
use filesharing::views::{checkbox, file_icon, nav, nav_item, page_title, permission_rows, Routes};

#[test]
fn visitor_navigation() {
    let f = Features { custom_client: false, disable_default_client: false };
    let items = nav(&f, Routes::SignIn, None, None);
    let shown: Vec<(&str, &str, bool)> = items.iter().map(|i| (i.href.as_str(), i.label.as_str(), i.current)).collect();
    assert_eq!(shown, vec![("/", "home", false), ("/upload", "upload", false), ("/files", "files", false), ("/signin", "signin", true)]);
}

#[test]
fn manager_navigation_under_legacy() {
    let f = Features { custom_client: true, disable_default_client: false };
    let items = nav(&f, Routes::Users, Some("ann".to_string()), Some(Permissions::all()));
    let shown: Vec<(&str, &str, bool)> = items.iter().map(|i| (i.href.as_str(), i.label.as_str(), i.current)).collect();
    assert_eq!(shown, vec![
        ("/legacy", "home", false),
        ("/legacy/upload", "upload", false),
        ("/legacy/files", "files", false),
        ("/legacy/users", "users", true),
        ("/legacy/profile", "ann", false),
    ]);
}

#[test]
fn small_view_pieces() {
    assert_eq!(page_title("Filehost", "Upload"), "Filehost - Upload");
    let rows = permission_rows(Permissions::listing());
    assert_eq!(rows.len(), 4);
    assert_eq!((rows[2].label.as_str(), rows[2].name.as_str(), rows[2].granted), ("List files", "list_files", true));
    assert!(!rows[0].granted);
    let c = checkbox("Manage users", "manage_users", true);
    assert!(c.granted);
    assert_eq!(file_icon(true), "assets/key.svg");
    assert_eq!(file_icon(false), "assets/unlocked.svg");
    let item = nav_item(Routes::Files, Routes::Files, "/files".to_string(), "files".to_string());
    assert!(item.current);
}
