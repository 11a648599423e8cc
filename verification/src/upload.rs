//! Uploads: the upload form, the name a file is stored under, and uploads sent in
//! chunks that are put together once the last one has arrived.

use vstd::prelude::*;
use crate::forms::FormField;
use crate::ids::{is_lower_hex, is_uuid_text, random_uuid};
use crate::password::{bcrypt_hash, bcrypt_verify_result};
use crate::auth::{auth_refusal, check_auth, lemma_accepted_sign_in};
use crate::models::UserDB;
use crate::paths::{file_path, files_path};
use crate::permissions::{Permissions, PermissionsDB};
use crate::status::{api_error, reply, ApiError, Reply, Status};
use crate::text::{
    after_last, before_first, decimal_i64, decimal_text, join3, lemma_after_last_has_no_sep,
    lemma_after_last_of_joined, lemma_before_first_of_joined, lemma_decimal_text_injective, owned,
    parse_i64, parsed_integer, push_char, text_after_last, text_before_first,
};

verus! {

// ----- stored names --------------------------------------------------------------------------

/// The extension of an uploaded file's name: what follows its last `.`, or the whole name
/// when it has no `.` (so every name has one).
pub open spec fn extension_of(name: Seq<char>) -> Seq<char> {
    after_last(name, '.')
}

/// The name a file is stored under: the random identifier, a `.` and the extension of the
/// uploaded name.
pub open spec fn saved_name_for(id: Seq<char>, name: Seq<char>) -> Seq<char> {
    id + seq!['.'] + extension_of(name)
}

/// The part of a stored name before its first `.`, which names the folder of its chunks.
pub open spec fn stem_of(name: Seq<char>) -> Seq<char> {
    before_first(name, '.')
}

/// The extension of an uploaded file's name.
pub fn file_extension(name: &str) -> (r: String)
    ensures
        r@ == extension_of(name@),
{
    text_after_last(name, '.')
}

/// The part of `name` before its first `.`.
pub fn name_stem(name: &str) -> (r: String)
    ensures
        r@ == stem_of(name@),
{
    text_before_first(name, '.')
}

/// The name under which an upload called `name` is stored, given the identifier `id`.
pub fn saved_file_name(id: &str, name: &str) -> (r: String)
    ensures
        r@ == saved_name_for(id@, name@),
{
    let ext = file_extension(name);
    let mut r = owned(id);
    push_char(&mut r, '.');
    vstd::string::StringExecFns::append(&mut r, ext.as_str());
    r
}

/// A stored name splits back into its identifier and the upload's extension, as long as
/// the identifier has no `.`: the chunks of an upload go to the folder named after its
/// identifier, and the stored file keeps the uploaded file's extension.
pub proof fn lemma_saved_name_parts(id: Seq<char>, name: Seq<char>)
    requires
        !id.contains('.'),
    ensures
        stem_of(saved_name_for(id, name)) == id,
        extension_of(saved_name_for(id, name)) == extension_of(name),
{
    lemma_after_last_has_no_sep(name, '.');
    lemma_before_first_of_joined(id, '.', extension_of(name));
    lemma_after_last_of_joined(id, '.', extension_of(name));
}

/// Identifiers in `uuid` form hold no `.`.
pub proof fn lemma_uuid_has_no_dot(id: Seq<char>)
    requires
        is_uuid_text(id),
    ensures
        !id.contains('.'),
{
    if id.contains('.') {
        let k = choose|k: int| 0 <= k < id.len() && id[k] == '.';
        assert(id[k] == '-' || is_lower_hex(id[k]));
    }
}

// ----- the upload form -----------------------------------------------------------------------

/// What the upload form has sent so far.
#[derive(Debug)]
pub struct UploadForm {
    /// The uploaded file's name.
    pub name: String,
    /// Its media type.
    pub data_type: String,
    /// The hash of the password that protects it, if one was given.
    pub password_hash: Option<String>,
    /// When it is to be deleted, as the form wrote it (empty when not given).
    pub destroy: String,
    /// Its contents (empty for an upload sent in chunks).
    pub file: Vec<u8>,
    /// Whether the contents come later, in chunks.
    pub chunk: bool,
}

impl UploadForm {
    /// A form with nothing sent yet.
    pub fn new() -> (f: UploadForm)
        ensures
            f.name@ == Seq::<char>::empty(),
            f.data_type@ == Seq::<char>::empty(),
            f.password_hash is None,
            f.destroy@ == Seq::<char>::empty(),
            f.file@ == Seq::<u8>::empty(),
            !f.chunk,
    {
        UploadForm {
            name: String::new(),
            data_type: String::new(),
            password_hash: None,
            destroy: String::new(),
            file: Vec::new(),
            chunk: false,
        }
    }

    /// The `file` part: the file's name, media type and contents.
    pub fn take_file(&mut self, file_name: String, content_type: String, data: Vec<u8>)
        ensures
            final(self).name == file_name,
            final(self).data_type == content_type,
            final(self).file == data,
            final(self).password_hash == old(self).password_hash,
            final(self).destroy == old(self).destroy,
            final(self).chunk == old(self).chunk,
    {
        self.name = file_name;
        self.data_type = content_type;
        self.file = data;
    }

    /// The `filename` part: the name of a file whose contents follow in chunks.
    pub fn take_filename(&mut self, text: String)
        ensures
            final(self).name == text,
            final(self).chunk,
            final(self).data_type == old(self).data_type,
            final(self).file == old(self).file,
            final(self).password_hash == old(self).password_hash,
            final(self).destroy == old(self).destroy,
    {
        self.name = text;
        self.chunk = true;
    }

    /// The `mime` part: the media type of a file sent in chunks.
    pub fn take_mime(&mut self, text: String)
        ensures
            final(self).data_type == text,
            final(self).name == old(self).name,
            final(self).file == old(self).file,
            final(self).password_hash == old(self).password_hash,
            final(self).destroy == old(self).destroy,
            final(self).chunk == old(self).chunk,
    {
        self.data_type = text;
    }

    /// The `destroy` part: when the file is to be deleted.
    pub fn take_destroy(&mut self, text: String)
        ensures
            final(self).destroy == text,
            final(self).name == old(self).name,
            final(self).data_type == old(self).data_type,
            final(self).file == old(self).file,
            final(self).password_hash == old(self).password_hash,
            final(self).chunk == old(self).chunk,
    {
        self.destroy = text;
    }

    /// The `password` part: a non-empty password is hashed and protects the file; an
    /// empty one changes nothing. Answers `false` when no hash could be made (the server
    /// stops there).
    pub fn take_password(&mut self, text: &str) -> (ok: bool)
        ensures
            text@.len() == 0 ==> ok && *final(self) == *old(self),
            text@.len() > 0 && ok ==> (final(self).password_hash matches Some(h) && h@.len() == 60
                && bcrypt_verify_result(text@, h@) == Ok::<bool, Seq<char>>(true)),
            !ok ==> text@.len() > 0 && final(self).password_hash == old(self).password_hash,
            final(self).name == old(self).name,
            final(self).data_type == old(self).data_type,
            final(self).file == old(self).file,
            final(self).destroy == old(self).destroy,
            final(self).chunk == old(self).chunk,
    {
        if text.is_empty() {
            return true;
        }
        match bcrypt_hash(text) {
            Some(h) => {
                self.password_hash = Some(h);
                true
            },
            None => false,
        }
    }
}

impl UploadForm {
    /// Whether the form reads the text of `field`: its `filename`, `mime`, `password`
    /// and `destroy` parts (the `file` part is read as a file).
    pub fn wants_text(field: FormField) -> (r: bool)
        ensures
            r == (field == FormField::Filename || field == FormField::Mime || field
                == FormField::Password || field == FormField::Destroy),
    {
        field == FormField::Filename || field == FormField::Mime || field == FormField::Password
            || field == FormField::Destroy
    }
}

/// What storing an upload takes: the stored name, where the contents go, the database
/// record and the answer to send.
#[derive(Debug)]
pub struct UploadPlan {
    pub saved_name: String,
    /// Where the contents are written.
    pub stored_path: String,
    pub file_name: String,
    pub file_type: String,
    /// The account that uploaded the file and owns its record.
    pub user_id: i64,
    pub data: Vec<u8>,
    pub password_hash: Option<String>,
    /// The deletion time to record, when one was given.
    pub destroy: Option<String>,
    /// The folder to make for the chunks, for an upload sent in chunks.
    pub chunk_dir: Option<String>,
    /// The answer: the stored name for an upload sent in chunks (the client names it
    /// when it sends them), its public address otherwise.
    pub reply: Reply,
}

/// `p` is the plan for storing `form` for the account `owner` under the identifier `id`,
/// with files kept in `root` and the site reachable at `domain`.
pub open spec fn upload_plan_of(
    p: UploadPlan,
    form: UploadForm,
    id: Seq<char>,
    owner: i64,
    root: Seq<char>,
    domain: Seq<char>,
) -> bool {
    let saved = saved_name_for(id, form.name@);
    &&& p.saved_name@ == saved
    &&& p.stored_path@ == file_path(root, saved)
    &&& p.file_name == form.name
    &&& p.file_type == form.data_type
    &&& p.user_id == owner
    &&& p.data == form.file
    &&& p.password_hash == form.password_hash
    &&& p.destroy == (if form.destroy@.len() > 0 {
        Some(form.destroy)
    } else {
        None
    })
    &&& (if form.chunk {
        p.chunk_dir matches Some(d) && d@ == file_path(root, stem_of(saved))
    } else {
        p.chunk_dir is None
    })
    &&& p.reply.status == Status::Success
    &&& p.reply.body@ == (if form.chunk {
        saved
    } else {
        domain + "/"@ + saved
    })
}

/// How an upload is stored once the form is complete, given the identifier `id` to
/// store it under and the account `owner` that uploads it. A form without contents that
/// is not a chunked upload is refused with `400 No file included`.
pub fn plan_upload(form: UploadForm, id: &str, owner: i64, root: &str, domain: &str) -> (r: Result<
    UploadPlan,
    ApiError,
>)
    ensures
        match r {
            Ok(p) => (form.file@.len() > 0 || form.chunk) && upload_plan_of(
                p,
                form,
                id@,
                owner,
                root@,
                domain@,
            ),
            Err(e) => form.file@.len() == 0 && !form.chunk && e.status == Status::BadRequest
                && e.message@ == "No file included"@,
        },
{
    if form.file.len() == 0 && !form.chunk {
        return Err(api_error(Status::BadRequest, "No file included"));
    }
    let saved = saved_file_name(id, form.name.as_str());
    let stored_path = files_path(root, saved.as_str());
    let destroy = if form.destroy.as_str().is_empty() {
        None
    } else {
        Some(form.destroy)
    };
    let chunk_dir = if form.chunk {
        let stem = name_stem(saved.as_str());
        Some(files_path(root, stem.as_str()))
    } else {
        None
    };
    let answer = if form.chunk {
        reply(Status::Success, saved.as_str())
    } else {
        let link = join3(domain, "/", saved.as_str());
        reply(Status::Success, link.as_str())
    };
    Ok(
        UploadPlan {
            saved_name: saved,
            stored_path,
            file_name: form.name,
            file_type: form.data_type,
            user_id: owner,
            data: form.file,
            password_hash: form.password_hash,
            destroy,
            chunk_dir,
            reply: answer,
        },
    )
}

/// The refusal when no identifier could be drawn for a new upload (the system gave no
/// randomness).
pub open spec fn no_identifier() -> (Status, Seq<char>) {
    (Status::InternalServerError, "Couldn't make a file name"@)
}

/// Decides an upload from the signed-in request: `user` is the stored account with the
/// presented name (if any), `permissions` its rights row (if any) and `password` the
/// presented password. An account that does not sign in with the right to upload is
/// refused as `check_auth` refuses it; a form without contents that is not a chunked
/// upload gets `400 No file included`; otherwise the upload is stored under a fresh random
/// identifier and belongs to the account. A chunked upload gets a folder named after the
/// identifier alone, and the stored name keeps the uploaded file's extension.
pub fn upload_file(
    password: &str,
    user: Option<UserDB>,
    permissions: Option<PermissionsDB>,
    form: UploadForm,
    root: &str,
    domain: &str,
) -> (r: Result<UploadPlan, ApiError>)
    ensures
        match auth_refusal(password@, user, permissions, Some(Permissions::spec_uploading())) {
            Some(refusal) => r matches Err(e) && (e.status, e.message@) == refusal,
            None => match r {
                Ok(p) => {
                    &&& form.file@.len() > 0 || form.chunk
                    &&& exists|id: Seq<char>| is_uuid_text(id) && #[trigger] upload_plan_of(
                        p,
                        form,
                        id,
                        user.unwrap().id,
                        root@,
                        domain@,
                    ) && (form.chunk ==> (p.chunk_dir matches Some(d) && d@ == file_path(root@, id)))
                    &&& extension_of(p.saved_name@) == extension_of(form.name@)
                    &&& p.user_id == user.unwrap().id
                },
                Err(e) => if form.file@.len() == 0 && !form.chunk {
                    e.status == Status::BadRequest && e.message@ == "No file included"@
                } else {
                    (e.status, e.message@) == no_identifier()
                },
            },
        },
{
    let account = match check_auth(password, user, permissions, Some(Permissions::uploading())) {
        Ok(a) => a,
        Err(e) => {
            return Err(e);
        },
    };
    if form.file.len() == 0 && !form.chunk {
        return Err(api_error(Status::BadRequest, "No file included"));
    }
    let id = match random_uuid() {
        Some(id) => id,
        None => {
            return Err(api_error(Status::InternalServerError, "Couldn't make a file name"));
        },
    };
    let ghost form0 = form;
    let r = plan_upload(form, id.as_str(), account.id, root, domain);
    proof {
        lemma_uuid_has_no_dot(id@);
        lemma_saved_name_parts(id@, form0.name@);
    }
    r
}

/// A database step of storing an upload: `500 Couldn't save` when it failed.
pub fn record_saved(ran: bool) -> (r: Result<(), ApiError>)
    ensures
        ran ==> r is Ok,
        !ran ==> (r matches Err(e) && e.status == Status::InternalServerError && e.message@
            == "Couldn't save"@),
{
    if ran {
        Ok(())
    } else {
        Err(api_error(Status::InternalServerError, "Couldn't save"))
    }
}

// ----- uploads in chunks ---------------------------------------------------------------------

/// What a chunk request has sent so far.
#[derive(Debug)]
pub struct ChunkForm {
    /// The stored name of the upload the chunk belongs to.
    pub filename: String,
    /// The chunk's contents.
    pub chunk: Vec<u8>,
    /// Its position among the chunks.
    pub index: i32,
    /// Whether this request announces that all chunks have been sent.
    pub finished: bool,
}

/// The path of the chunk at `index` of the upload with stem `stem`:
/// `<root>/<stem>/<stem>-<index>`.
pub open spec fn chunk_part_path(root: Seq<char>, stem: Seq<char>, index: int) -> Seq<char> {
    file_path(root, stem) + "/"@ + stem + "-"@ + decimal_text(index)
}

/// Chunks at different positions are stored in different files, so no chunk overwrites
/// another.
pub proof fn lemma_chunk_paths_distinct(root: Seq<char>, stem: Seq<char>, i: int, j: int)
    requires
        i != j,
    ensures
        chunk_part_path(root, stem, i) != chunk_part_path(root, stem, j),
{
    let head = file_path(root, stem) + "/"@ + stem + "-"@;
    let a = chunk_part_path(root, stem, i);
    let b = chunk_part_path(root, stem, j);
    assert(a =~= head + decimal_text(i));
    assert(b =~= head + decimal_text(j));
    if a == b {
        assert(a.subrange(head.len() as int, a.len() as int) =~= decimal_text(i));
        assert(b.subrange(head.len() as int, b.len() as int) =~= decimal_text(j));
        lemma_decimal_text_injective(i, j);
    }
}

/// The name that a chunked upload answers with leads back to it: the chunk folder of
/// that name is the folder the upload makes, and the chunks put together land where the
/// upload's record says the file is stored.
pub proof fn lemma_chunked_upload_round_trip(
    p: UploadPlan,
    form: UploadForm,
    id: Seq<char>,
    owner: i64,
    root: Seq<char>,
    domain: Seq<char>,
)
    requires
        upload_plan_of(p, form, id, owner, root, domain),
        form.chunk,
    ensures
        p.chunk_dir matches Some(d) && d@ == file_path(root, stem_of(p.reply.body@)),
        p.stored_path@ == file_path(root, p.reply.body@),
        p.reply.body@ == p.saved_name@,
{
}

impl ChunkForm {
    /// A request with nothing sent yet.
    pub fn new() -> (f: ChunkForm)
        ensures
            f.filename@ == Seq::<char>::empty(),
            f.chunk@ == Seq::<u8>::empty(),
            f.index == 0,
            !f.finished,
    {
        ChunkForm { filename: String::new(), chunk: Vec::new(), index: 0, finished: false }
    }

    /// The `chunk` part: the chunk's contents.
    pub fn take_chunk(&mut self, data: Vec<u8>)
        ensures
            final(self).chunk == data,
            final(self).filename == old(self).filename,
            final(self).index == old(self).index,
            final(self).finished == old(self).finished,
    {
        self.chunk = data;
    }

    /// The `filename` part: which upload the chunk belongs to.
    pub fn take_filename(&mut self, text: String)
        ensures
            final(self).filename == text,
            final(self).chunk == old(self).chunk,
            final(self).index == old(self).index,
            final(self).finished == old(self).finished,
    {
        self.filename = text;
    }

    /// The `final` part: all chunks have been sent.
    pub fn take_final(&mut self)
        ensures
            final(self).finished,
            final(self).filename == old(self).filename,
            final(self).chunk == old(self).chunk,
            final(self).index == old(self).index,
    {
        self.finished = true;
    }

    /// The `index` part: the chunk's position, a decimal number that fits in an `i32`.
    /// Answers `false`, and changes nothing, when the text is no such number (the server
    /// stops there).
    pub fn take_index(&mut self, text: &str) -> (ok: bool)
        ensures
            ok == ((parsed_integer(text@) matches Some(v)) && i32::MIN <= parsed_integer(text@)->0 <= i32::MAX),
            ok ==> parsed_integer(text@) == Some(final(self).index as int),
            !ok ==> final(self).index == old(self).index,
            final(self).filename == old(self).filename,
            final(self).chunk == old(self).chunk,
            final(self).finished == old(self).finished,
    {
        match parse_i64(text) {
            Some(v) => {
                if v < -2147483648 || v > 2147483647 {
                    false
                } else {
                    self.index = v as i32;
                    true
                }
            },
            None => false,
        }
    }
}

impl ChunkForm {
    /// Whether the request reads the text of `field`: its `filename` and `index` parts
    /// (`chunk` is read as bytes, and `final` counts by its presence alone).
    pub fn wants_text(field: FormField) -> (r: bool)
        ensures
            r == (field == FormField::Filename || field == FormField::Index),
    {
        field == FormField::Filename || field == FormField::Index
    }
}

/// The folder that holds the chunks of the upload stored as `filename`.
pub fn chunk_directory(root: &str, filename: &str) -> (r: String)
    ensures
        r@ == file_path(root@, stem_of(filename@)),
{
    let stem = name_stem(filename);
    files_path(root, stem.as_str())
}

/// The path of the chunk at `index` of the upload with stem `stem`.
pub fn chunk_path(root: &str, stem: &str, index: i64) -> (r: String)
    ensures
        r@ == chunk_part_path(root@, stem@, index as int),
{
    let dir = files_path(root, stem);
    let number = decimal_i64(index);
    let head = join3(dir.as_str(), "/", stem);
    join3(head.as_str(), "-", number.as_str())
}

/// What a chunk request leads to. Each step carries the answer to send once its disk
/// work is done.
#[derive(Debug)]
pub enum ChunkStep {
    /// All chunks are there: put the chunks in `directory` together into `target`, then
    /// mark the upload stored as `record` complete.
    Assemble { directory: String, stem: String, target: String, record: String, reply: Reply },
    /// Write the chunk's contents to `path`.
    Store { path: String, data: Vec<u8>, reply: Reply },
}

/// The answer to a chunk request that went through: `200` and the public address of the
/// upload stored as `filename`.
pub open spec fn chunk_reply(reply: Reply, domain: Seq<char>, filename: Seq<char>) -> bool {
    reply.status == Status::Success && reply.body@ == domain + "/"@ + filename
}

/// Decides a chunk request, given whether the upload's chunk folder exists. A request for
/// an upload that was not started is refused (`400`), the announcement of the last chunk
/// puts the chunks together and marks the upload complete, and a chunk without contents
/// is refused (`400 No file included`); any other chunk is stored at its position. Both
/// steps answer `200` with the upload's public address at `domain`.
pub fn put_upload_file(form: ChunkForm, root: &str, domain: &str, directory_exists: bool) -> (r: Result<
    ChunkStep,
    ApiError,
>)
    ensures
        !directory_exists ==> (r matches Err(e) && e.status == Status::BadRequest && e.message@
            == "Can't write to a file that hasn't been initiated. Path doesn't exist"@),
        directory_exists && form.finished ==> (r matches Ok(
            ChunkStep::Assemble { directory, stem, target, record, reply },
        ) && directory@ == file_path(root@, stem_of(form.filename@)) && stem@ == stem_of(
            form.filename@,
        ) && target@ == file_path(root@, form.filename@) && record == form.filename
            && chunk_reply(reply, domain@, form.filename@)),
        directory_exists && !form.finished && form.chunk@.len() == 0 ==> (r matches Err(e)
            && e.status == Status::BadRequest && e.message@ == "No file included"@),
        directory_exists && !form.finished && form.chunk@.len() > 0 ==> (r matches Ok(
            ChunkStep::Store { path, data, reply },
        ) && path@ == chunk_part_path(root@, stem_of(form.filename@), form.index as int) && data
            == form.chunk && chunk_reply(reply, domain@, form.filename@)),
{
    let stem = name_stem(form.filename.as_str());
    if !directory_exists {
        return Err(
            api_error(
                Status::BadRequest,
                "Can't write to a file that hasn't been initiated. Path doesn't exist",
            ),
        );
    }
    let link = join3(domain, "/", form.filename.as_str());
    let answer = reply(Status::Success, link.as_str());
    if form.finished {
        let directory = files_path(root, stem.as_str());
        let target = files_path(root, form.filename.as_str());
        return Ok(ChunkStep::Assemble { directory, stem, target, record: form.filename, reply: answer });
    }
    if form.chunk.len() == 0 {
        return Err(api_error(Status::BadRequest, "No file included"));
    }
    let path = chunk_path(root, stem.as_str(), form.index as i64);
    Ok(ChunkStep::Store { path, data: form.chunk, reply: answer })
}

/// The chunk files to put together, in order, for an upload whose folder holds `count`
/// of them: the chunks at positions `0` to `count - 1`.
pub fn concatenate_files(root: &str, stem: &str, count: usize) -> (parts: Vec<String>)
    requires
        count <= i64::MAX,
    ensures
        parts.len() == count,
        forall|i: int| 0 <= i < count ==> (#[trigger] parts[i])@ == chunk_part_path(root@, stem@, i),
{
    let mut parts: Vec<String> = Vec::new();
    let mut i: usize = 0;
    while i < count
        invariant
            count <= i64::MAX,
            i <= count,
            parts.len() == i,
            forall|k: int| 0 <= k < i ==> (#[trigger] parts[k])@ == chunk_part_path(root@, stem@, k),
        decreases count - i,
    {
        parts.push(chunk_path(root, stem, i as i64));
        i += 1;
    }
    parts
}


/// An upload that nothing refuses was sent by an existing account presenting its own
/// password, whose rights row holds `upload_files`.
pub proof fn lemma_upload_needs_upload_right(
    password: Seq<char>,
    user: Option<UserDB>,
    permissions: Option<PermissionsDB>,
)
    requires
        auth_refusal(password, user, permissions, Some(Permissions::spec_uploading())) is None,
    ensures
        user is Some && permissions is Some,
        bcrypt_verify_result(password, user.unwrap().password@) == Ok::<bool, Seq<char>>(true),
        permissions.unwrap().upload_files,
{
    lemma_accepted_sign_in(password, user, permissions, Some(Permissions::spec_uploading()));
}

/// The plan records what the form sent: the same name, media type and contents, the same
/// password hash (a protected upload stays protected, an open one stays open), the
/// deletion time exactly when one was written, and the uploading account as owner; the
/// file goes to `<root>/<stored name>`, and the stored name is the identifier, a `.` and
/// what follows the last `.` of the uploaded name.
pub proof fn lemma_upload_plan_records_the_form(
    p: UploadPlan,
    form: UploadForm,
    id: Seq<char>,
    owner: i64,
    root: Seq<char>,
    domain: Seq<char>,
)
    requires
        upload_plan_of(p, form, id, owner, root, domain),
    ensures
        p.password_hash == form.password_hash,
        form.password_hash is Some ==> p.password_hash is Some,
        p.file_name == form.name,
        p.file_type == form.data_type,
        p.data == form.file,
        p.user_id == owner,
        form.destroy@.len() > 0 ==> p.destroy == Some(form.destroy),
        form.destroy@.len() == 0 ==> p.destroy is None,
        p.stored_path@ == root + seq!['/'] + p.saved_name@,
        p.saved_name@ == id + seq!['.'] + after_last(form.name@, '.'),
        form.chunk ==> p.reply.body@ == p.saved_name@,
        !form.chunk ==> p.reply.body@ == domain + seq!['/'] + p.saved_name@,
        p.reply.status == Status::Success,
{
    assert("/"@ =~= seq!['/']) by {
        reveal_strlit("/");
    }
}

} // verus!
