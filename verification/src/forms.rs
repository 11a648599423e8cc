//! The fields of the multipart forms that the pages post. Each handler reads a
//! field's contents only when the field's name is one it knows.

use vstd::prelude::*;
use crate::text::same_text;

verus! {

/// The form fields that some handler knows, by name.
#[derive(Clone, Copy, Debug, PartialEq, Eq, Structural)]
pub enum FormField {
    /// `username`
    Username,
    /// `password`
    Password,
    /// `delete`
    Delete,
    /// `file_name`
    FileName,
    /// `file`
    File,
    /// `filename`
    Filename,
    /// `mime`
    Mime,
    /// `destroy`
    Destroy,
    /// `chunk`
    Chunk,
    /// `index`
    Index,
    /// `final`
    Final,
    /// `terminate`
    Terminate,
    /// `manage_users`
    ManageUsers,
    /// `upload_files`
    UploadFiles,
    /// `list_files`
    ListFiles,
    /// `delete_files`
    DeleteFiles,
    /// Any other name.
    Other,
}

/// The field that a part named `name` is.
pub open spec fn field_named(name: Seq<char>) -> FormField {
    if name == "username"@ {
        FormField::Username
    } else if name == "password"@ {
        FormField::Password
    } else if name == "delete"@ {
        FormField::Delete
    } else if name == "file_name"@ {
        FormField::FileName
    } else if name == "file"@ {
        FormField::File
    } else if name == "filename"@ {
        FormField::Filename
    } else if name == "mime"@ {
        FormField::Mime
    } else if name == "destroy"@ {
        FormField::Destroy
    } else if name == "chunk"@ {
        FormField::Chunk
    } else if name == "index"@ {
        FormField::Index
    } else if name == "final"@ {
        FormField::Final
    } else if name == "terminate"@ {
        FormField::Terminate
    } else if name == "manage_users"@ {
        FormField::ManageUsers
    } else if name == "upload_files"@ {
        FormField::UploadFiles
    } else if name == "list_files"@ {
        FormField::ListFiles
    } else if name == "delete_files"@ {
        FormField::DeleteFiles
    } else {
        FormField::Other
    }
}

/// The field that a part named `name` is.
pub fn form_field(name: &str) -> (f: FormField)
    ensures
        f == field_named(name@),
{
    if same_text(name, "username") {
        FormField::Username
    } else if same_text(name, "password") {
        FormField::Password
    } else if same_text(name, "delete") {
        FormField::Delete
    } else if same_text(name, "file_name") {
        FormField::FileName
    } else if same_text(name, "file") {
        FormField::File
    } else if same_text(name, "filename") {
        FormField::Filename
    } else if same_text(name, "mime") {
        FormField::Mime
    } else if same_text(name, "destroy") {
        FormField::Destroy
    } else if same_text(name, "chunk") {
        FormField::Chunk
    } else if same_text(name, "index") {
        FormField::Index
    } else if same_text(name, "final") {
        FormField::Final
    } else if same_text(name, "terminate") {
        FormField::Terminate
    } else if same_text(name, "manage_users") {
        FormField::ManageUsers
    } else if same_text(name, "upload_files") {
        FormField::UploadFiles
    } else if same_text(name, "list_files") {
        FormField::ListFiles
    } else if same_text(name, "delete_files") {
        FormField::DeleteFiles
    } else {
        FormField::Other
    }
}

} // verus!
