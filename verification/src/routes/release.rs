//! Releases of a channel: showing one by id, the latest and the one before
//! it, downloading the latest one's file, and storing a new one.
use vstd::prelude::*;
use vstd::string::{StringExecFns, StringSliceAdditionalSpecFns};
use crate::configuration::Settings;
use crate::digest::{fingerprint, fingerprint_of};
use crate::paths::{component_views, file_name, join_path, joined_path, path_file_name, pushed_path};
use crate::routes::channel::{channel_dir, channel_path};
use crate::routes::project::project_dir;
use crate::routes::error::{lookup, lookup_result, step_succeeded, APIError};

verus! {

/// A release as it is stored: where its file lies and which channel it
/// belongs to.
#[derive(Debug, PartialEq, Eq)]
pub struct ReleaseRow {
    pub id: i64,
    pub version: String,
    pub hash: Vec<u8>,
    pub path: String,
    pub channel_id: i64,
    pub created_at: i64,
    pub updated_at: i64,
}

/// A release as the API shows it.
#[derive(Debug, PartialEq, Eq)]
pub struct ReleaseResponse {
    pub id: i64,
    pub version: String,
    pub hash: Vec<u8>,
    pub created_at: i64,
    pub updated_at: i64,
}

/// What the API shows of a stored release: everything but its file's path
/// and its channel.
pub open spec fn release_response(row: ReleaseRow) -> ReleaseResponse {
    ReleaseResponse {
        id: row.id,
        version: row.version,
        hash: row.hash,
        created_at: row.created_at,
        updated_at: row.updated_at,
    }
}

impl From<ReleaseRow> for ReleaseResponse {
    fn from(row: ReleaseRow) -> (r: Self)
        ensures
            r == release_response(row),
    {
        ReleaseResponse {
            id: row.id,
            version: row.version,
            hash: row.hash,
            created_at: row.created_at,
            updated_at: row.updated_at,
        }
    }
}

impl vstd::std_specs::convert::FromSpecImpl<ReleaseRow> for ReleaseResponse {
    open spec fn obeys_from_spec() -> bool {
        true
    }

    open spec fn from_spec(v: ReleaseRow) -> Self {
        release_response(v)
    }
}

/// `{"release": ...}`
#[derive(Debug, PartialEq, Eq)]
pub struct ReleaseBody {
    pub release: ReleaseResponse,
}

/// `base` raised to the power `exp`.
pub open spec fn power(base: nat, exp: nat) -> nat
    decreases exp,
{
    if exp == 0 {
        1
    } else {
        base * power(base, (exp - 1) as nat)
    }
}

proof fn lemma_power_grows(base: nat, i: nat, exp: nat)
    requires
        base >= 1,
        i <= exp,
    ensures
        power(base, i) <= power(base, exp),
    decreases exp,
{
    if i < exp {
        lemma_power_grows(base, i, (exp - 1) as nat);
        let p = power(base, (exp - 1) as nat);
        assert(base * p >= p) by (nonlinear_arith)
            requires
                base >= 1,
        ;
    }
}

/// `base` raised to the power `exp`, where that fits in a `usize`.
fn checked_power(base: usize, exp: u32) -> (r: Option<usize>)
    ensures
        r matches Some(v) ==> v == power(base as nat, exp as nat),
        base >= 1 && power(base as nat, exp as nat) <= usize::MAX ==> r is Some,
{
    let mut acc: usize = 1;
    let mut i: u32 = 0;
    while i < exp
        invariant
            i <= exp,
            acc == power(base as nat, i as nat),
        decreases exp - i,
    {
        proof {
            if base >= 1 {
                lemma_power_grows(base as nat, (i + 1) as nat, exp as nat);
            }
        }
        match acc.checked_mul(base) {
            Some(next) => {
                acc = next;
            },
            None => {
                return None;
            },
        }
        i = i + 1;
    }
    Some(acc)
}

/// The largest request body the release routes accept: 15 times ten to the
/// seventh bytes.
pub fn body_limit() -> (r: usize)
    ensures
        r == 15 * power(10, 7),
        r == 150_000_000,
{
    let base: usize = 10;
    proof {
        reveal_with_fuel(power, 8);
    }
    let result = match checked_power(base, 7) {
        Some(result) => result,
        None => 0,
    };
    15 * result
}

/// The answer to a lookup of a release, from the outcome of its query.
pub open spec fn release_reply(found: Result<Option<ReleaseRow>, String>) -> Result<ReleaseBody, APIError> {
    match lookup_result(found) {
        Ok(row) => Ok(ReleaseBody { release: release_response(row) }),
        Err(e) => Err(e),
    }
}

/// The answer to a lookup of a release by id, from the outcome of that query.
pub fn show_project_release(found: Result<Option<ReleaseRow>, String>) -> (r: Result<ReleaseBody, APIError>)
    ensures
        r == release_reply(found),
{
    match lookup(found) {
        Ok(row) => Ok(ReleaseBody { release: ReleaseResponse::from(row) }),
        Err(e) => Err(e),
    }
}

/// The release before the latest one of a channel, from the outcome of the
/// query for the channel's two newest releases (newest first): the last row
/// of that answer, `NotFound` where there is none.
pub fn show_previous_project_release(rows: Result<Vec<ReleaseRow>, String>) -> (r: Result<
    ReleaseBody,
    APIError,
>)
    ensures
        match rows {
            Err(m) => r == Err::<ReleaseBody, APIError>(APIError::SqlError(m)),
            Ok(v) => if v@.len() == 0 {
                r == Err::<ReleaseBody, APIError>(APIError::NotFound)
            } else {
                r == Ok::<ReleaseBody, APIError>(ReleaseBody { release: release_response(v@.last()) })
            },
        },
{
    match rows {
        Err(m) => Err(APIError::SqlError(m)),
        Ok(mut v) => match v.pop() {
            None => Err(APIError::NotFound),
            Some(row) => Ok(ReleaseBody { release: ReleaseResponse::from(row) }),
        },
    }
}

/// The bytes of the media type that asks for a release's JSON description.
pub open spec fn json_media_type() -> Seq<u8> {
    "application/json".spec_bytes()
}

/// The bytes of the media type that asks for a release's file.
pub open spec fn binary_media_type() -> Seq<u8> {
    "application/octet-stream".spec_bytes()
}

fn bytes_equal(a: &[u8], b: &[u8]) -> (r: bool)
    ensures
        r == (a@ == b@),
{
    if a.len() != b.len() {
        return false;
    }
    let mut i: usize = 0;
    while i < a.len()
        invariant
            a.len() == b.len(),
            i <= a.len(),
            forall|j: int| 0 <= j < i ==> a@[j] == b@[j],
        decreases a.len() - i,
    {
        if a[i] != b[i] {
            return false;
        }
        i = i + 1;
    }
    assert(a@ =~= b@);
    true
}

/// Whether `http` accepts a text as a header value: every byte is a tab or at
/// least 32 and not 127. On text this is: every character is a tab, or is
/// neither a control character below 32 nor DEL (the bytes of every
/// character beyond ASCII are all at least 128).
pub open spec fn header_value_valid(s: Seq<char>) -> bool {
    forall|i: int| 0 <= i < s.len() ==> #[trigger] header_char_valid(s[i])
}

/// Whether one character may stand in a header value.
pub open spec fn header_char_valid(c: char) -> bool {
    c == '\t' || ((c as u32) >= 32 && (c as u32) != 127)
}

/// Checks a header value.
///
/// Trusted: calls `http::HeaderValue::from_str` (as `axum` re-exports it).
/// Its source accepts exactly the texts whose bytes are all tabs or at least
/// 32 and not 127, and its error's text is "failed to parse header value".
#[verifier::external_body]
fn check_header_value(s: &str) -> (r: Result<(), String>)
    ensures
        r is Ok <==> header_value_valid(s@),
        r is Err ==> r->Err_0@ == "failed to parse header value"@,
{
    match axum::http::HeaderValue::from_str(s) {
        Ok(_) => Ok(()),
        Err(e) => Err(e.to_string()),
    }
}

/// The value of the `Content-Disposition` header that offers a file under
/// its name.
pub open spec fn attachment_disposition(name: Seq<char>) -> Seq<char> {
    "attachment; filename=\""@ + name + "\""@
}

/// How the latest release is answered.
#[derive(Debug, PartialEq, Eq)]
pub enum LatestReleaseReply {
    /// Its JSON description.
    Json(ReleaseBody),
    /// Its file, streamed from `path`, with these header values.
    Binary { path: String, content_type: String, content_disposition: String },
}

/// What is known so far while the latest release is answered.
#[derive(Debug)]
pub struct LatestReleaseProgress {
    /// Outcome of the query for the channel's newest release.
    pub fetch: Option<Result<Option<ReleaseRow>, String>>,
    /// Outcome of opening the release's file.
    pub open: Option<Result<(), String>>,
}

impl LatestReleaseProgress {
    pub fn new() -> (r: Self)
        ensures
            r.fetch is None,
            r.open is None,
    {
        LatestReleaseProgress { fetch: None, open: None }
    }
}

/// What to do next while the latest release is answered.
#[derive(Debug)]
pub enum LatestReleaseAction {
    /// Query the newest release of this channel of this project.
    FetchLatest { project_name: String, channel_name: String },
    /// Open this file for reading.
    OpenFile(String),
    /// Answer the request.
    Respond(Result<LatestReleaseReply, APIError>),
}

/// The answer to a request for the latest release's file, once the file is
/// open: the header values, or the error that stops it.
pub open spec fn binary_reply_ok(
    row: ReleaseRow,
    reply: LatestReleaseReply,
) -> bool {
    &&& path_file_name(row.path@) is Some
    &&& header_value_valid(attachment_disposition(path_file_name(row.path@)->0))
    &&& reply matches LatestReleaseReply::Binary { path, content_type, content_disposition }
    &&& path@ == row.path@
    &&& content_type@ == "application/octet-stream"@
    &&& content_disposition@ == attachment_disposition(path_file_name(row.path@)->0)
}

/// The next step of answering a request for a channel's latest release. The
/// release is looked up first (a database error or `NotFound` is the
/// answer); then the `Accept` header decides: `application/json` is answered
/// with the release's description, `application/octet-stream` with its file
/// (`NotFound` where the file cannot be opened, an internal error where its
/// path has no file name, a header error where the name cannot stand in a
/// header), no header with `RequestError` and any other with
/// `UnsupportedMediaType`.
pub fn show_latest_project_release(
    accept: &Option<Vec<u8>>,
    project_name: &String,
    channel_name: &String,
    progress: &mut LatestReleaseProgress,
) -> (r: LatestReleaseAction)
    ensures
        match old(progress).fetch {
            None => r matches LatestReleaseAction::FetchLatest { project_name: p, channel_name: c }
                && p@ == project_name@ && c@ == channel_name@,
            Some(Err(m)) => r == LatestReleaseAction::Respond(Err(APIError::SqlError(m))),
            Some(Ok(None)) => r == LatestReleaseAction::Respond(Err(APIError::NotFound)),
            Some(Ok(Some(row))) => match accept {
                None => r == LatestReleaseAction::Respond(Err(APIError::RequestError)),
                Some(media) => if media@ == json_media_type() {
                    r == LatestReleaseAction::Respond(
                        Ok(LatestReleaseReply::Json((ReleaseBody { release: release_response(row) }))),
                    )
                } else if media@ == binary_media_type() {
                    match old(progress).open {
                        None => r matches LatestReleaseAction::OpenFile(p) && p@ == row.path@,
                        Some(Err(_)) => r == LatestReleaseAction::Respond(Err(APIError::NotFound)),
                        Some(Ok(_)) => match path_file_name(row.path@) {
                            None => r == LatestReleaseAction::Respond(Err(APIError::InternalError)),
                            Some(name) => if header_value_valid(attachment_disposition(name)) {
                                r matches LatestReleaseAction::Respond(Ok(reply)) && binary_reply_ok(row, reply)
                            } else {
                                r matches LatestReleaseAction::Respond(Err(APIError::HeaderError(d)))
                                    && d@ == "failed to parse header value"@
                            },
                        },
                    }
                } else {
                    r == LatestReleaseAction::Respond(Err(APIError::UnsupportedMediaType))
                },
            },
        },
        final(progress).open == old(progress).open,
        r is Respond ==> final(progress).fetch is None,
        !(r is Respond) ==> final(progress).fetch == old(progress).fetch,
{
    let row = match progress.fetch.take() {
        None => {
            return LatestReleaseAction::FetchLatest {
                project_name: project_name.clone(),
                channel_name: channel_name.clone(),
            };
        },
        Some(Err(m)) => return LatestReleaseAction::Respond(Err(APIError::SqlError(m))),
        Some(Ok(None)) => return LatestReleaseAction::Respond(Err(APIError::NotFound)),
        Some(Ok(Some(row))) => row,
    };
    let media = match accept {
        None => return LatestReleaseAction::Respond(Err(APIError::RequestError)),
        Some(media) => media,
    };
    if bytes_equal(media.as_slice(), "application/json".as_bytes()) {
        return LatestReleaseAction::Respond(
            Ok(LatestReleaseReply::Json(ReleaseBody { release: ReleaseResponse::from(row) })),
        );
    }
    if !bytes_equal(media.as_slice(), "application/octet-stream".as_bytes()) {
        return LatestReleaseAction::Respond(Err(APIError::UnsupportedMediaType));
    }
    match &progress.open {
        None => {
            let path = row.path.clone();
            progress.fetch = Some(Ok(Some(row)));
            return LatestReleaseAction::OpenFile(path);
        },
        Some(Err(_)) => return LatestReleaseAction::Respond(Err(APIError::NotFound)),
        Some(Ok(())) => {},
    }
    let content_type = "application/octet-stream".to_owned();
    proof {
        reveal_strlit("application/octet-stream");
        assert(header_value_valid(content_type@));
    }
    match check_header_value(content_type.as_str()) {
        Ok(()) => {},
        Err(d) => return LatestReleaseAction::Respond(Err(APIError::HeaderError(d))),
    }
    let name = match file_name(row.path.as_str()) {
        None => return LatestReleaseAction::Respond(Err(APIError::InternalError)),
        Some(name) => name,
    };
    let content_disposition = "attachment; filename=\"".to_owned().concat(name.as_str()).concat("\"");
    match check_header_value(content_disposition.as_str()) {
        Ok(()) => {},
        Err(d) => return LatestReleaseAction::Respond(Err(APIError::HeaderError(d))),
    }
    LatestReleaseAction::Respond(
        Ok(LatestReleaseReply::Binary { path: row.path, content_type, content_disposition }),
    )
}

/// The name a release's file is stored under: the project's name, `v`, then
/// the version.
pub open spec fn release_file_name(project: Seq<char>, version: Seq<char>) -> Seq<char> {
    project + "v"@ + version
}

/// Where a release's file is stored: its name pushed onto its channel's
/// directory.
pub open spec fn release_file(
    release_path: Seq<char>,
    project: Seq<char>,
    channel: Seq<char>,
    version: Seq<char>,
) -> Seq<char> {
    joined_path(seq![channel_dir(release_path, project, channel), release_file_name(project, version)])
}

/// Where a release's file is stored.
pub fn release_path(settings: &Settings, project_name: &String, channel_name: &String, version: &String) -> (r:
    String)
    ensures
        r@ == release_file(
            settings.application.release_path@,
            project_name@,
            channel_name@,
            version@,
        ),
{
    let channel = channel_path(settings, project_name.as_str(), channel_name.as_str());
    let name = project_name.clone().concat("v").concat(version.as_str());
    let parts = vec![channel, name];
    let r = join_path(&parts);
    proof {
        assert(component_views(parts@) =~= seq![parts@[0]@, parts@[1]@]);
    }
    r
}

/// What is known so far while a release is stored.
#[derive(Debug)]
pub struct CreateReleaseProgress {
    /// Outcome of creating the channel's directory.
    pub directory: Option<Result<(), String>>,
    /// Outcome of moving the uploaded file to the release's path.
    pub persist: Option<Result<(), String>>,
    /// The contents read back from the moved file, or the error reading it.
    pub contents: Option<Result<Vec<u8>, String>>,
    /// Outcome of inserting the release's row.
    pub insert: Option<Result<(), String>>,
}

impl CreateReleaseProgress {
    pub fn new() -> (r: Self)
        ensures
            r.directory is None,
            r.persist is None,
            r.contents is None,
            r.insert is None,
    {
        CreateReleaseProgress { directory: None, persist: None, contents: None, insert: None }
    }
}

/// What to do next while a release is stored.
#[derive(Debug)]
pub enum CreateReleaseAction {
    /// Create this directory and its missing parents.
    CreateDirAll(String),
    /// Move the uploaded temporary file to this path.
    PersistUpload(String),
    /// Read the contents of the moved file.
    ReadPersisted,
    /// Insert a release row into the channel of this name.
    InsertRelease { version: String, hash: String, path: String, channel_name: String },
    /// Answer the request.
    Respond(Result<(), APIError>),
}

/// The next step of storing an uploaded release of a project's channel:
/// create the channel's directory, move the upload to the release's path,
/// fingerprint its contents, and insert the release's row with its version,
/// fingerprint and path. The first failure is the answer, and nothing is
/// written to the database before the file is in place.
pub fn create_project_release(
    settings: &Settings,
    project_name: &String,
    channel_name: &String,
    version: &String,
    progress: &CreateReleaseProgress,
) -> (r: CreateReleaseAction)
    ensures
        match progress.directory {
            None => r matches CreateReleaseAction::CreateDirAll(d) && d@ == channel_dir(
                settings.application.release_path@,
                project_name@,
                channel_name@,
            ),
            Some(Err(m)) => r == CreateReleaseAction::Respond(Err(APIError::FsError(m))),
            Some(Ok(_)) => match progress.persist {
                None => r matches CreateReleaseAction::PersistUpload(p) && p@ == release_file(
                    settings.application.release_path@,
                    project_name@,
                    channel_name@,
                    version@,
                ),
                Some(Err(m)) => r == CreateReleaseAction::Respond(Err(APIError::PersistBinaryError(m))),
                Some(Ok(_)) => match progress.contents {
                    None => r == CreateReleaseAction::ReadPersisted,
                    Some(Err(m)) => r == CreateReleaseAction::Respond(Err(APIError::FsError(m))),
                    Some(Ok(bytes)) => match progress.insert {
                        None => r matches CreateReleaseAction::InsertRelease {
                            version: v,
                            hash,
                            path,
                            channel_name: c,
                        } && v@ == version@ && hash@ == fingerprint_of(bytes@) && path@ == release_file(
                            settings.application.release_path@,
                            project_name@,
                            channel_name@,
                            version@,
                        ) && c@ == channel_name@,
                        Some(Err(m)) => r == CreateReleaseAction::Respond(Err(APIError::SqlError(m))),
                        Some(Ok(_)) => r == CreateReleaseAction::Respond(Ok(())),
                    },
                },
            },
        },
{
    match &progress.directory {
        None => return CreateReleaseAction::CreateDirAll(
            channel_path(settings, project_name.as_str(), channel_name.as_str()),
        ),
        Some(Err(m)) => return CreateReleaseAction::Respond(Err(APIError::FsError(m.clone()))),
        Some(Ok(())) => {},
    }
    match &progress.persist {
        None => return CreateReleaseAction::PersistUpload(
            release_path(settings, project_name, channel_name, version),
        ),
        Some(Err(m)) => return CreateReleaseAction::Respond(
            Err(APIError::PersistBinaryError(m.clone())),
        ),
        Some(Ok(())) => {},
    }
    let bytes = match &progress.contents {
        None => return CreateReleaseAction::ReadPersisted,
        Some(Err(m)) => return CreateReleaseAction::Respond(Err(APIError::FsError(m.clone()))),
        Some(Ok(bytes)) => bytes,
    };
    match &progress.insert {
        None => CreateReleaseAction::InsertRelease {
            version: version.clone(),
            hash: fingerprint(bytes.as_slice()),
            path: release_path(settings, project_name, channel_name, version),
            channel_name: channel_name.clone(),
        },
        Some(Err(m)) => CreateReleaseAction::Respond(Err(APIError::SqlError(m.clone()))),
        Some(Ok(())) => CreateReleaseAction::Respond(Ok(())),
    }
}

/// A stored release's file is offered for download under the name it was
/// stored with (the project's name, `v`, the version), provided neither the
/// project's name nor the version holds a `/`.
pub proof fn law_download_name_is_stored_name(
    release_path: Seq<char>,
    project: Seq<char>,
    channel: Seq<char>,
    version: Seq<char>,
)
    requires
        forall|i: int| 0 <= i < project.len() ==> project[i] != '/',
        forall|i: int| 0 <= i < version.len() ==> version[i] != '/',
    ensures
        path_file_name(release_file(release_path, project, channel, version)) == Some(
            release_file_name(project, version),
        ),
{
    reveal_strlit("v");
    let name = release_file_name(project, version);
    let dir = channel_dir(release_path, project, channel);
    assert(name[project.len() as int] == 'v');
    assert forall|i: int| 0 <= i < name.len() implies name[i] != '/' by {
        if i < project.len() {
            assert(name[i] == project[i]);
        } else if i > project.len() {
            assert(name[i] == version[i - project.len() - 1]);
        }
    }
    assert(name != seq!['.']) by {
        if name.len() == 1 {
            assert(name[0] == 'v');
        }
    }
    assert(name != seq!['.', '.']) by {
        if name.len() == 2 {
            assert(name[0] == 'v' || name[1] == 'v');
        }
    }
    let parts = seq![dir, name];
    assert(parts.drop_last() =~= seq![dir]);
    assert(parts.drop_last().drop_last() =~= Seq::<Seq<char>>::empty());
    crate::paths::lemma_push_onto_empty(dir);
    crate::paths::law_file_name_of_pushed(dir, name);
    reveal_with_fuel(joined_path, 3);
    assert(joined_path(parts) == pushed_path(dir, name));
}

/// Whether `prefix` is where the path `p` starts.
pub open spec fn starts_with(p: Seq<char>, prefix: Seq<char>) -> bool {
    prefix.len() <= p.len() && p.subrange(0, prefix.len() as int) == prefix
}

/// A release's file lies inside its channel's directory, which lies inside
/// its project's directory, which lies inside the release directory, as long
/// as neither the project's nor the channel's name starts with `/` (an
/// absolute name replaces the path built so far).
pub proof fn law_release_file_under_release_path(
    release_path: Seq<char>,
    project: Seq<char>,
    channel: Seq<char>,
    version: Seq<char>,
)
    requires
        !(project.len() > 0 && project[0] == '/'),
        !(channel.len() > 0 && channel[0] == '/'),
    ensures
        starts_with(project_dir(release_path, project), release_path),
        starts_with(channel_dir(release_path, project, channel), project_dir(release_path, project)),
        starts_with(
            release_file(release_path, project, channel, version),
            channel_dir(release_path, project, channel),
        ),
{
    reveal_strlit("v");
    reveal_with_fuel(joined_path, 4);
    let pd = project_dir(release_path, project);
    let cd = channel_dir(release_path, project, channel);
    let name = release_file_name(project, version);
    crate::paths::lemma_push_onto_empty(release_path);
    assert(seq![release_path, project].drop_last() =~= seq![release_path]);
    assert(seq![release_path].drop_last() =~= Seq::<Seq<char>>::empty());
    assert(pd == pushed_path(release_path, project));
    crate::paths::law_push_relative_extends(release_path, project);
    assert(seq![release_path, project, channel].drop_last() =~= seq![release_path, project]);
    assert(cd == pushed_path(pd, channel));
    crate::paths::law_push_relative_extends(pd, channel);
    if project.len() == 0 {
        assert(name[0] == 'v');
    } else {
        assert(name[0] == project[0]);
    }
    assert(seq![cd, name].drop_last() =~= seq![cd]);
    crate::paths::lemma_push_onto_empty(cd);
    assert(release_file(release_path, project, channel, version) == pushed_path(cd, name));
    crate::paths::law_push_relative_extends(cd, name);
}

/// What the API shows of a release keeps every public field of its row.
pub proof fn law_release_response_keeps_public_fields(row: ReleaseRow)
    ensures
        release_response(row).id == row.id,
        release_response(row).version == row.version,
        release_response(row).hash == row.hash,
        release_response(row).created_at == row.created_at,
        release_response(row).updated_at == row.updated_at,
{
}

/// A release lookup that found a row is answered with that row's public
/// fields; `NotFound` only where nothing was found; a database error only
/// where the query failed.
pub proof fn law_release_lookup_answers_with_the_found_row(found: Result<Option<ReleaseRow>, String>)
    ensures
        match found {
            Ok(Some(row)) => release_reply(found) == Ok::<ReleaseBody, APIError>(
                ReleaseBody {
                    release: ReleaseResponse {
                        id: row.id,
                        version: row.version,
                        hash: row.hash,
                        created_at: row.created_at,
                        updated_at: row.updated_at,
                    },
                },
            ),
            Ok(None) => release_reply(found) == Err::<ReleaseBody, APIError>(APIError::NotFound),
            Err(m) => release_reply(found) == Err::<ReleaseBody, APIError>(APIError::SqlError(m)),
        },
{
}

/// The stored file name is the project's name, `v`, and the version, in that
/// order and nothing else.
pub proof fn law_release_file_name_layout(project: Seq<char>, version: Seq<char>)
    ensures
        release_file_name(project, version).len() == project.len() + 1 + version.len(),
        release_file_name(project, version).subrange(0, project.len() as int) == project,
        release_file_name(project, version)[project.len() as int] == 'v',
        release_file_name(project, version).subrange(
            (project.len() + 1) as int,
            release_file_name(project, version).len() as int,
        ) == version,
{
    reveal_strlit("v");
    let n = release_file_name(project, version);
    assert(n.subrange(0, project.len() as int) =~= project);
    assert(n.subrange((project.len() + 1) as int, n.len() as int) =~= version);
}

/// With a release directory that does not end in `/` and plain project and
/// channel names, the directories and the release file are laid out as
/// `<release_path>/<project>/<channel>/<project>v<version>`.
pub proof fn law_release_tree_layout(
    release_path: Seq<char>,
    project: Seq<char>,
    channel: Seq<char>,
    version: Seq<char>,
)
    requires
        release_path.len() > 0,
        release_path.last() != '/',
        crate::paths::is_plain_component(project),
        crate::paths::is_plain_component(channel),
    ensures
        project_dir(release_path, project) == release_path + seq!['/'] + project,
        channel_dir(release_path, project, channel) == release_path + seq!['/'] + project + seq!['/']
            + channel,
        release_file(release_path, project, channel, version) == release_path + seq!['/'] + project
            + seq!['/'] + channel + seq!['/'] + release_file_name(project, version),
{
    reveal_strlit("v");
    reveal_with_fuel(joined_path, 4);
    crate::paths::lemma_push_onto_empty(release_path);
    assert(seq![release_path, project].drop_last() =~= seq![release_path]);
    assert(seq![release_path].drop_last() =~= Seq::<Seq<char>>::empty());
    assert(seq![release_path, project, channel].drop_last() =~= seq![release_path, project]);
    let pd = release_path + seq!['/'] + project;
    assert(project[0] != '/');
    assert(project_dir(release_path, project) == pd);
    assert(pd.last() == project.last());
    assert(project.last() != '/');
    let cd = pd + seq!['/'] + channel;
    assert(channel[0] != '/');
    assert(channel_dir(release_path, project, channel) == cd);
    assert(cd.last() == channel.last());
    assert(channel.last() != '/');
    let name = release_file_name(project, version);
    assert(name[0] == project[0]);
    crate::paths::lemma_push_onto_empty(cd);
    assert(seq![cd, name].drop_last() =~= seq![cd]);
    assert(release_file(release_path, project, channel, version) == cd + seq!['/'] + name);
}

} // verus!
