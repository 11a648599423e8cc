use filesharing::models::UserDB;
use filesharing::permissions::PermissionsDB;
use filesharing::paths::files_path;
use filesharing::forms::{form_field, FormField};
use filesharing::status::Status;
use filesharing::upload::{
    chunk_directory, chunk_path, concatenate_files, file_extension, name_stem, plan_upload, put_upload_file,
    record_saved, saved_file_name, upload_file, ChunkForm, ChunkStep, UploadForm,
};

#[test]
fn form_fields_by_name() {
    assert_eq!(form_field("file"), FormField::File);
    assert_eq!(form_field("filename"), FormField::Filename);
    assert_eq!(form_field("file_name"), FormField::FileName);
    assert_eq!(form_field("manage_users"), FormField::ManageUsers);
    assert_eq!(form_field("Username"), FormField::Other);
    assert_eq!(form_field(""), FormField::Other);
    assert!(UploadForm::wants_text(FormField::Mime));
    assert!(!UploadForm::wants_text(FormField::File));
    assert!(ChunkForm::wants_text(FormField::Index));
    assert!(!ChunkForm::wants_text(FormField::Final));
}

#[test]
fn stored_names() {
    assert_eq!(file_extension("photo.final.png"), "png");
    assert_eq!(file_extension("README"), "README");
    assert_eq!(saved_file_name("0f3c", "photo.final.png"), "0f3c.png");
    assert_eq!(saved_file_name("0f3c", "README"), "0f3c.README");
    assert_eq!(name_stem("0f3c.png"), "0f3c");
}

#[test]
fn upload_without_contents_is_refused() {
    let form = UploadForm::new();
    let e = plan_upload(form, "id", 7, "files", "http://h").unwrap_err();
    assert_eq!(e.status, Status::BadRequest);
    assert_eq!(e.message, "No file included");
}

#[test]
fn plain_upload_plan() {
    let mut form = UploadForm::new();
    form.take_file("cat.jpg".to_string(), "image/jpeg".to_string(), vec![1, 2, 3]);
    form.take_destroy("2030-01-01T00:00".to_string());
    assert!(form.take_password(""));
    let p = plan_upload(form, "abcd", 7, "files", "http://h").unwrap();
    assert_eq!(p.saved_name, "abcd.jpg");
    assert_eq!(p.stored_path, "files/abcd.jpg");
    assert_eq!(p.file_name, "cat.jpg");
    assert_eq!(p.file_type, "image/jpeg");
    assert_eq!(p.data, vec![1, 2, 3]);
    assert!(p.password_hash.is_none());
    assert_eq!(p.destroy.as_deref(), Some("2030-01-01T00:00"));
    assert!(p.chunk_dir.is_none());
    assert_eq!(p.reply.status, Status::Success);
    assert_eq!(p.reply.body, "http://h/abcd.jpg");
}

#[test]
fn chunked_upload_plan() {
    let mut form = UploadForm::new();
    form.take_filename("movie.mp4".to_string());
    form.take_mime("video/mp4".to_string());
    let p = plan_upload(form, "abcd", 7, "files", "http://h").unwrap();
    assert_eq!(p.saved_name, "abcd.mp4");
    assert_eq!(p.chunk_dir.as_deref(), Some("files/abcd"));
    assert!(p.destroy.is_none());
    assert_eq!(p.reply.body, "abcd.mp4");
}

fn uploader(upload: bool) -> (UserDB, PermissionsDB) {
    let row = UserDB { id: 3, username: "ann".to_string(), password: bcrypt::hash("pw", 4).unwrap(), terminate: None };
    let rights = PermissionsDB { id: 3, manage_users: false, upload_files: upload, list_files: true, delete_files: false };
    (row, rights)
}

#[test]
fn random_upload_name_keeps_extension() {
    let mut form = UploadForm::new();
    form.take_filename("archive.tar.gz".to_string());
    let (row, rights) = uploader(true);
    let p = upload_file("pw", Some(row), Some(rights), form, "files", "http://h").unwrap();
    assert_eq!(p.saved_name.len(), 36 + 3);
    assert!(p.saved_name.ends_with(".gz"));
    assert_eq!(p.user_id, 3);
    let id = &p.saved_name[..36];
    assert_eq!(p.chunk_dir, Some(format!("files/{}", id)));
    assert_eq!(chunk_directory("files", &p.saved_name), format!("files/{}", id));
}

#[test]
fn upload_needs_the_upload_right() {
    let mut form = UploadForm::new();
    form.take_file("a.txt".to_string(), "text/plain".to_string(), b"hi".to_vec());
    let (row, rights) = uploader(false);
    let e = upload_file("pw", Some(row), Some(rights), form, "files", "http://h").unwrap_err();
    assert_eq!((e.status, e.message.as_str()), (Status::Forbidden, "Lacking required permissions"));

    let mut form = UploadForm::new();
    form.take_file("a.txt".to_string(), "text/plain".to_string(), b"hi".to_vec());
    let (row, rights) = uploader(true);
    let e = upload_file("wrong", Some(row), Some(rights), form, "files", "http://h").unwrap_err();
    assert_eq!((e.status, e.message.as_str()), (Status::Forbidden, "Wrong password"));

    let (row, rights) = uploader(true);
    let e = upload_file("pw", Some(row), Some(rights), UploadForm::new(), "files", "http://h").unwrap_err();
    assert_eq!((e.status, e.message.as_str()), (Status::BadRequest, "No file included"));

    let mut form = UploadForm::new();
    form.take_file("a.txt".to_string(), "text/plain".to_string(), b"hi".to_vec());
    let (row, rights) = uploader(true);
    let p = upload_file("pw", Some(row), Some(rights), form, "files", "http://h").unwrap();
    assert_eq!(p.user_id, 3);
    assert_eq!(p.reply.body, format!("http://h/{}", p.saved_name));
    assert!(p.saved_name.ends_with(".txt"));
}

#[test]
fn saving_steps() {
    assert!(record_saved(true).is_ok());
    let e = record_saved(false).unwrap_err();
    assert_eq!((e.status, e.message.as_str()), (Status::InternalServerError, "Couldn't save"));
}

#[test]
fn upload_password_is_hashed() {
    let mut form = UploadForm::new();
    assert!(form.take_password("s3cret"));
    let h = form.password_hash.clone().unwrap();
    assert!(h.starts_with("$2b$12$"));
    assert_eq!(h.len(), 60);
    assert_ne!(h, "s3cret");
    assert!(bcrypt::verify("s3cret", &h).unwrap());
}

#[test]
fn chunk_index_parsing() {
    let mut c = ChunkForm::new();
    assert!(c.take_index("12"));
    assert_eq!(c.index, 12);
    assert!(!c.take_index("x"));
    assert!(!c.take_index("3000000000"));
    assert_eq!(c.index, 12);
    assert!(c.take_index("-1"));
    assert_eq!(c.index, -1);
}

#[test]
fn chunk_steps() {
    let mut c = ChunkForm::new();
    c.take_filename("abcd.mp4".to_string());
    let e = put_upload_file(c, "files", "http://h", false).unwrap_err();
    assert_eq!(e.status, Status::BadRequest);
    assert_eq!(e.message, "Can't write to a file that hasn't been initiated. Path doesn't exist");

    let mut c = ChunkForm::new();
    c.take_filename("abcd.mp4".to_string());
    let e = put_upload_file(c, "files", "http://h", true).unwrap_err();
    assert_eq!(e.message, "No file included");

    let mut c = ChunkForm::new();
    c.take_filename("abcd.mp4".to_string());
    c.take_chunk(vec![9; 4]);
    assert!(c.take_index("3"));
    match put_upload_file(c, "files", "http://h", true).unwrap() {
        ChunkStep::Store { path, data, reply } => {
            assert_eq!(path, "files/abcd/abcd-3");
            assert_eq!(data, vec![9; 4]);
            assert_eq!(reply.status, Status::Success);
            assert_eq!(reply.body, "http://h/abcd.mp4");
        }
        other => panic!("unexpected {:?}", other),
    }

    let mut c = ChunkForm::new();
    c.take_filename("abcd.mp4".to_string());
    c.take_final();
    match put_upload_file(c, "files", "http://h", true).unwrap() {
        ChunkStep::Assemble { directory, stem, target, record, reply } => {
            assert_eq!(directory, "files/abcd");
            assert_eq!(stem, "abcd");
            assert_eq!(target, "files/abcd.mp4");
            assert_eq!(record, "abcd.mp4");
            assert_eq!((reply.status, reply.body.as_str()), (Status::Success, "http://h/abcd.mp4"));
        }
        other => panic!("unexpected {:?}", other),
    }
}

#[test]
fn chunks_are_assembled_in_order() {
    let parts = concatenate_files("files", "abcd", 12);
    assert_eq!(parts.len(), 12);
    assert_eq!(parts[0], "files/abcd/abcd-0");
    assert_eq!(parts[11], "files/abcd/abcd-11");
    assert!(concatenate_files("files", "abcd", 0).is_empty());
}

#[test]
fn chunks_at_different_positions_use_different_files() {
    let parts = concatenate_files("files", "abcd", 12);
    for i in 0..parts.len() {
        for j in 0..parts.len() {
            assert_eq!(parts[i] == parts[j], i == j);
        }
    }
    assert_ne!(chunk_path("files", "abcd", 1), chunk_path("files", "abcd", 11));
    assert_ne!(chunk_path("files", "abcd", 1), chunk_path("files", "abcd", -1));
}

#[test]
fn chunked_upload_answer_leads_back_to_its_folder() {
    let mut form = UploadForm::new();
    form.take_filename("movie.mp4".to_string());
    let p = plan_upload(form, "abcd", 7, "files", "http://h").unwrap();
    assert_eq!(Some(chunk_directory("files", &p.reply.body)), p.chunk_dir);
    assert_eq!(files_path("files", &p.reply.body), p.stored_path);
    assert_eq!(p.reply.body, p.saved_name);
}
