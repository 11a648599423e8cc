//! Handing out stored files: by the download form, which asks for the password of a
//! protected file, and by direct link, which only serves unprotected files.

use vstd::prelude::*;
use crate::db::file_not_found;
use crate::forms::FormField;
use crate::models::File;
use crate::password::{bcrypt_verify, bcrypt_verify_result};
use crate::status::{api_error, ApiError, Reply, Status};
use crate::text::{join2, join3};

verus! {

/// What the download form has sent so far.
#[derive(Debug)]
pub struct DownloadForm {
    pub file_name: String,
    pub password: String,
}

impl DownloadForm {
    /// A form with nothing sent yet.
    pub fn new() -> (f: DownloadForm)
        ensures
            f.file_name@ == Seq::<char>::empty(),
            f.password@ == Seq::<char>::empty(),
    {
        DownloadForm { file_name: String::new(), password: String::new() }
    }

    /// Takes the text of a part: `file_name` or `password`; other parts change nothing.
    pub fn take_text(&mut self, field: FormField, text: String)
        ensures
            final(self).file_name == (if field == FormField::FileName {
                text
            } else {
                old(self).file_name
            }),
            final(self).password == (if field == FormField::Password {
                text
            } else {
                old(self).password
            }),
    {
        match field {
            FormField::FileName => {
                self.file_name = text;
            },
            FormField::Password => {
                self.password = text;
            },
            _ => {},
        }
    }
}

/// What the delete button's form has sent: the stored name of the file to delete.
#[derive(Debug)]
pub struct DeleteFileForm {
    pub saved_name: String,
}

impl DeleteFileForm {
    /// A form with nothing sent yet.
    pub fn new() -> (f: DeleteFileForm)
        ensures
            f.saved_name@ == Seq::<char>::empty(),
    {
        DeleteFileForm { saved_name: String::new() }
    }

    /// Takes the text of a part: only `delete` counts.
    pub fn take_text(&mut self, field: FormField, text: String)
        ensures
            final(self).saved_name == (if field == FormField::Delete {
                text
            } else {
                old(self).saved_name
            }),
    {
        if field == FormField::Delete {
            self.saved_name = text;
        }
    }
}

/// The `Content-Disposition` value that makes a browser save the file under `name`.
pub open spec fn attachment_header(name: Seq<char>) -> Seq<char> {
    "attachment; filename=\""@ + name + "\""@
}

/// The `Content-Disposition` value for saving a file called `name`.
pub fn content_disposition(name: &str) -> (r: String)
    ensures
        r@ == attachment_header(name@),
{
    join3("attachment; filename=\"", name, "\"")
}

/// A file to send: which stored file, and the headers that go with it.
#[derive(Debug)]
pub struct Download {
    pub saved_name: String,
    pub content_type: String,
    pub content_disposition: String,
}

/// Why a download of a file protected by `password_hash` (if any) is refused when
/// `password` is presented: the password is wrong, or the stored hash cannot be read.
pub open spec fn download_refusal(password_hash: Option<Seq<char>>, password: Seq<char>) -> Option<
    (Status, Seq<char>),
> {
    match password_hash {
        None => None,
        Some(h) => match bcrypt_verify_result(password, h) {
            Ok(true) => None,
            Ok(false) => Some(file_not_found()),
            Err(m) => Some(
                (Status::InternalServerError, "Error with password hash verification: "@ + m),
            ),
        },
    }
}

/// The stored password hash of a file, as text.
pub open spec fn hash_text(password: Option<String>) -> Option<Seq<char>> {
    match password {
        Some(h) => Some(h@),
        None => None,
    }
}

/// A placeholder hash that no password matches, checked when a file is not found so that
/// a missing file takes as long to answer as a wrong password.
pub const DECOY_HASH: &'static str = "$2b$12$wAfhk5/7W7mjQ/bJf/N.K..3F3YNN2r.Wkmq2JZLzKqRzVQIeOfwK";

/// Decides a download from the form: `found` is the lookup of the named file. A missing
/// file is refused as the lookup refused it; a protected file needs its password, and a
/// wrong one is answered as if the file were missing.
pub fn download_file(found: Result<File, ApiError>, password: &str) -> (r: Result<Download, ApiError>)
    ensures
        match found {
            Err(e) => r matches Err(e2) && e2.status == e.status && e2.message@ == e.message@,
            Ok(f) => match download_refusal(hash_text(f.password), password@) {
                Some(refusal) => r matches Err(e) && (e.status, e.message@) == refusal,
                None => r matches Ok(d) && d.saved_name == f.saved_name && d.content_type
                    == f.file_type && d.content_disposition@ == attachment_header(f.file_name@),
            },
        },
{
    let f = match found {
        Err(e) => {
            let _ = bcrypt_verify("never", DECOY_HASH);
            return Err(e);
        },
        Ok(f) => f,
    };
    match &f.password {
        Some(h) => {
            match bcrypt_verify(password, h.as_str()) {
                Ok(true) => {},
                Ok(false) => {
                    return Err(api_error(Status::NotFound, "File not found"));
                },
                Err(m) => {
                    return Err(
                        ApiError {
                            status: Status::InternalServerError,
                            message: join2("Error with password hash verification: ", m.as_str()),
                        },
                    );
                },
            }
        },
        None => {},
    }
    let disposition = content_disposition(f.file_name.as_str());
    Ok(Download { saved_name: f.saved_name, content_type: f.file_type, content_disposition: disposition })
}

/// A file uploaded with a password is handed out to whoever presents that password.
pub proof fn lemma_password_opens_download(password: Seq<char>, hash: Seq<char>)
    requires
        bcrypt_verify_result(password, hash) == Ok::<bool, Seq<char>>(true),
    ensures
        download_refusal(Some(hash), password) is None,
{
}

/// A wrong password gets the same answer as a file that does not exist, so the answer
/// does not tell whether a name is taken.
pub proof fn lemma_wrong_password_looks_missing(password: Seq<char>, hash: Seq<char>)
    requires
        bcrypt_verify_result(password, hash) == Ok::<bool, Seq<char>>(false),
    ensures
        download_refusal(Some(hash), password) == Some(file_not_found()),
{
}

/// Decides a direct link to a stored file: `found` is the lookup of the stored name. A
/// protected file is answered as if it did not exist; otherwise the answer is the stored
/// name and media type to send.
pub fn get_file(found: Result<File, ApiError>) -> (r: Result<(String, String), ApiError>)
    ensures
        match found {
            Err(e) => r matches Err(e2) && e2.status == e.status && e2.message@ == e.message@,
            Ok(f) => if f.password is Some {
                r matches Err(e) && (e.status, e.message@) == file_not_found()
            } else {
                r matches Ok((name, media)) && name == f.saved_name && media == f.file_type
            },
        },
{
    match found {
        Err(e) => Err(e),
        Ok(f) => {
            if f.password.is_some() {
                Err(api_error(Status::NotFound, "File not found"))
            } else {
                Ok((f.saved_name, f.file_type))
            }
        },
    }
}

/// The page answered after the delete button: `<p>deleted</p>` on success, the failure's
/// message in a paragraph with its status otherwise.
pub fn delete_file_route(deletion: Result<Reply, ApiError>) -> (r: Reply)
    ensures
        match deletion {
            Ok(_) => r.status == Status::Success && r.body@ == "<p>deleted</p>"@,
            Err(e) => r.status == e.status && r.body@ == "<p>"@ + e.message@ + "</p>"@,
        },
{
    match deletion {
        Ok(_) => Reply { status: Status::Success, body: crate::text::owned("<p>deleted</p>") },
        Err(e) => Reply { status: e.status, body: join3("<p>", e.message.as_str(), "</p>") },
    }
}

} // verus!
