use filesharing::models::{FileDB, UserDB};
use filesharing::schedule::{expired_files, expired_users, plan_deletion, scheduled_deletion};

fn f(name: &str, destroy: Option<i64>) -> FileDB {
    FileDB {
        saved_name: name.to_string(), file_name: "x".to_string(), file_type: "t".to_string(),
        destroy, password: None, user_id: 1, created_at: None,
    }
}

fn u(id: i64, terminate: Option<i64>) -> UserDB {
    UserDB { id, username: format!("u{}", id), password: String::new(), terminate }
}

#[test]
fn files_past_their_time_are_deleted() {
    let files = vec![f("a", Some(5)), f("b", None), f("c", Some(10)), f("d", Some(11)), f("e", Some(-3))];
    assert_eq!(expired_files(&files, 10), vec!["a".to_string(), "e".to_string()]);
    assert!(expired_files(&files, -100).is_empty());
}

#[test]
fn accounts_past_their_end_are_deleted() {
    let users = vec![u(1, Some(100)), u(2, None), u(3, Some(99))];
    assert_eq!(expired_users(&users, 100), vec![3]);
    let p = plan_deletion(&vec![f("a", Some(1))], &users, 101);
    assert_eq!(p.files, vec!["a".to_string()]);
    assert_eq!(p.users, vec![1, 3]);
}

#[test]
fn clean_up_now() {
    let p = scheduled_deletion(&vec![f("old", Some(0)), f("future", Some(i64::MAX))], &vec![u(1, Some(1))]).unwrap();
    assert_eq!(p.files, vec!["old".to_string()]);
    assert_eq!(p.users, vec![1]);
}
