use botifactory::configuration::Settings;
use botifactory::routes::channel::{
    channel_path, create_project_channel, show_channel_by_id, show_project_channel, ChannelBody, ChannelJson,
    CreateChannel, CreateChannelAction, CreateChannelProgress,
};
use botifactory::routes::error::{APIError, ErrorBody};
use botifactory::routes::health_check::health_check;
use botifactory::routes::project::{
    create_project, project_path, show_project, CreateProject, CreateProjectAction, CreateProjectProgress,
    ProjectBody, ProjectJson,
};
use botifactory::routes::release::{
    body_limit, create_project_release, release_path, show_latest_project_release, show_previous_project_release,
    show_project_release, CreateReleaseAction, CreateReleaseProgress, LatestReleaseAction, LatestReleaseProgress,
    LatestReleaseReply, ReleaseBody, ReleaseResponse, ReleaseRow,
};
use botifactory::startup::listen_address;

fn project(name: &str) -> ProjectJson {
    ProjectJson { id: 7, name: name.to_string(), created_at: 100, updated_at: 101 }
}

fn channel(name: &str) -> ChannelJson {
    ChannelJson { id: 3, name: name.to_string(), project_id: 7, created_at: 200, updated_at: 201 }
}

fn row(id: i64, version: &str, path: &str) -> ReleaseRow {
    ReleaseRow {
        id,
        version: version.to_string(),
        hash: b"abcd".to_vec(),
        path: path.to_string(),
        channel_id: 3,
        created_at: 300 + id,
        updated_at: 400 + id,
    }
}

fn response(r: &ReleaseRow) -> ReleaseResponse {
    ReleaseResponse {
        id: r.id,
        version: r.version.clone(),
        hash: r.hash.clone(),
        created_at: r.created_at,
        updated_at: r.updated_at,
    }
}

#[test]
fn every_error_has_its_status_and_message() {
    let cases = [
        (APIError::InternalError, 500, "Internal Error"),
        (APIError::RequestError, 400, "Bad Request"),
        (APIError::NotFound, 404, "Not found"),
        (
            APIError::UnsupportedMediaType,
            415,
            "Unsupported media type. Supported types are 'application/octet-stream' and 'application/json'",
        ),
        (APIError::SqlError("no such table".to_string()), 500, "Database Error: no such table"),
        (APIError::FsError("denied".to_string()), 500, "Filesystem Error: denied"),
        (APIError::HeaderError("bad".to_string()), 500, "Bad header: bad"),
        (APIError::PersistBinaryError("gone".to_string()), 500, "Persisting temporary file error: gone"),
    ];
    for (error, status, message) in cases {
        assert_eq!(error.into_response(), (status, ErrorBody::new(message.to_string())));
    }
}

#[test]
fn error_descriptions() {
    assert_eq!(APIError::NotFound.to_string(), "Not found");
    assert_eq!(APIError::UnsupportedMediaType.to_string(), "Unsupported content type");
    assert_eq!(APIError::SqlError("x".to_string()).to_string(), "Database error");
    assert_eq!(APIError::PersistBinaryError("x".to_string()).to_string(), "Bad header value");
}

#[test]
fn health_check_is_ok() {
    assert_eq!(health_check(), 200);
}

#[test]
fn project_lookup() {
    assert_eq!(show_project(Ok(Some(project("bot")))), Ok(ProjectBody { project: project("bot") }));
    assert_eq!(show_project(Ok(None)), Err(APIError::NotFound));
    assert_eq!(show_project(Err("locked".to_string())), Err(APIError::SqlError("locked".to_string())));
}

#[test]
fn project_creation_runs_its_steps_in_order() {
    let settings = Settings::default();
    let payload = CreateProject { name: "bot".to_string() };
    assert_eq!(project_path(&settings, "bot"), "/releases/bot");
    let mut progress = CreateProjectProgress::new();
    match create_project(&settings, &payload, &mut progress) {
        CreateProjectAction::CreateDirAll(path) => assert_eq!(path, "/releases/bot"),
        other => panic!("unexpected {other:?}"),
    }
    progress.directory = Some(Ok(()));
    match create_project(&settings, &payload, &mut progress) {
        CreateProjectAction::InsertProject(name) => assert_eq!(name, "bot"),
        other => panic!("unexpected {other:?}"),
    }
    progress.insert = Some(Ok(()));
    match create_project(&settings, &payload, &mut progress) {
        CreateProjectAction::FetchProject(name) => assert_eq!(name, "bot"),
        other => panic!("unexpected {other:?}"),
    }
    progress.fetch = Some(Ok(Some(project("bot"))));
    match create_project(&settings, &payload, &mut progress) {
        CreateProjectAction::Respond(r) => assert_eq!(r, Ok(ProjectBody { project: project("bot") })),
        other => panic!("unexpected {other:?}"),
    }
}

#[test]
fn project_creation_stops_at_a_directory_failure() {
    let settings = Settings::default();
    let payload = CreateProject { name: "bot".to_string() };
    let mut progress = CreateProjectProgress::new();
    progress.directory = Some(Err("read-only".to_string()));
    match create_project(&settings, &payload, &mut progress) {
        CreateProjectAction::Respond(r) => assert_eq!(r, Err(APIError::FsError("read-only".to_string()))),
        other => panic!("unexpected {other:?}"),
    }
}

#[test]
fn project_creation_reports_database_failures() {
    let settings = Settings::default();
    let payload = CreateProject { name: "bot".to_string() };
    let mut progress = CreateProjectProgress::new();
    progress.directory = Some(Ok(()));
    progress.insert = Some(Err("UNIQUE constraint failed".to_string()));
    match create_project(&settings, &payload, &mut progress) {
        CreateProjectAction::Respond(r) => {
            assert_eq!(r, Err(APIError::SqlError("UNIQUE constraint failed".to_string())))
        },
        other => panic!("unexpected {other:?}"),
    }
    progress.insert = Some(Ok(()));
    progress.fetch = Some(Ok(None));
    match create_project(&settings, &payload, &mut progress) {
        CreateProjectAction::Respond(r) => assert_eq!(r, Err(APIError::NotFound)),
        other => panic!("unexpected {other:?}"),
    }
}

#[test]
fn channel_lookups() {
    assert_eq!(show_project_channel(Ok(Some(channel("stable")))), Ok(ChannelBody { channel: channel("stable") }));
    assert_eq!(show_channel_by_id(Ok(None)), Err(APIError::NotFound));
    assert_eq!(show_channel_by_id(Err("e".to_string())), Err(APIError::SqlError("e".to_string())));
}

#[test]
fn channel_creation_runs_its_steps_in_order() {
    let settings = Settings::default();
    let project_name = "bot".to_string();
    let payload = CreateChannel { channel_name: "stable".to_string() };
    assert_eq!(channel_path(&settings, "bot", "stable"), "/releases/bot/stable");
    let mut progress = CreateChannelProgress::new();
    match create_project_channel(&settings, &project_name, &payload, &mut progress) {
        CreateChannelAction::CreateDirAll(path) => assert_eq!(path, "/releases/bot/stable"),
        other => panic!("unexpected {other:?}"),
    }
    progress.directory = Some(Ok(()));
    match create_project_channel(&settings, &project_name, &payload, &mut progress) {
        CreateChannelAction::InsertChannel { channel_name, project_name } => {
            assert_eq!((channel_name.as_str(), project_name.as_str()), ("stable", "bot"))
        },
        other => panic!("unexpected {other:?}"),
    }
    progress.insert = Some(Ok(()));
    match create_project_channel(&settings, &project_name, &payload, &mut progress) {
        CreateChannelAction::FetchChannel { channel_name, project_name } => {
            assert_eq!((channel_name.as_str(), project_name.as_str()), ("stable", "bot"))
        },
        other => panic!("unexpected {other:?}"),
    }
    progress.fetch = Some(Ok(Some(channel("stable"))));
    match create_project_channel(&settings, &project_name, &payload, &mut progress) {
        CreateChannelAction::Respond(r) => assert_eq!(r, Ok(ChannelBody { channel: channel("stable") })),
        other => panic!("unexpected {other:?}"),
    }
}

#[test]
fn release_response_keeps_the_public_fields() {
    let r = row(1, "1.0", "/releases/bot/stable/botv1.0");
    let expected = response(&r);
    assert_eq!(ReleaseResponse::from(r), expected);
}

#[test]
fn release_lookup_by_id() {
    let r = row(1, "1.0", "/p");
    assert_eq!(show_project_release(Ok(Some(r.clone_row()))), Ok(ReleaseBody { release: response(&r) }));
    assert_eq!(show_project_release(Ok(None)), Err(APIError::NotFound));
}

trait CloneRow {
    fn clone_row(&self) -> ReleaseRow;
}

impl CloneRow for ReleaseRow {
    fn clone_row(&self) -> ReleaseRow {
        ReleaseRow {
            id: self.id,
            version: self.version.clone(),
            hash: self.hash.clone(),
            path: self.path.clone(),
            channel_id: self.channel_id,
            created_at: self.created_at,
            updated_at: self.updated_at,
        }
    }
}

#[test]
fn previous_release_is_the_older_of_the_two_newest() {
    let newest = row(2, "2.0", "/p2");
    let older = row(1, "1.0", "/p1");
    let expected = response(&older);
    assert_eq!(
        show_previous_project_release(Ok(vec![newest.clone_row(), older])),
        Ok(ReleaseBody { release: expected })
    );
    assert_eq!(
        show_previous_project_release(Ok(vec![newest.clone_row()])),
        Ok(ReleaseBody { release: response(&newest) })
    );
    assert_eq!(show_previous_project_release(Ok(vec![])), Err(APIError::NotFound));
    assert_eq!(show_previous_project_release(Err("e".to_string())), Err(APIError::SqlError("e".to_string())));
}

fn latest(accept: Option<&[u8]>, stored: Option<ReleaseRow>, open: Option<Result<(), String>>) -> LatestReleaseAction {
    let accept = accept.map(|a| a.to_vec());
    let mut progress = LatestReleaseProgress::new();
    progress.fetch = Some(Ok(stored));
    progress.open = open;
    show_latest_project_release(&accept, &"bot".to_string(), &"stable".to_string(), &mut progress)
}

#[test]
fn latest_release_is_fetched_first() {
    let mut progress = LatestReleaseProgress::new();
    match show_latest_project_release(&None, &"bot".to_string(), &"stable".to_string(), &mut progress) {
        LatestReleaseAction::FetchLatest { project_name, channel_name } => {
            assert_eq!((project_name.as_str(), channel_name.as_str()), ("bot", "stable"))
        },
        other => panic!("unexpected {other:?}"),
    }
}

#[test]
fn latest_release_not_found_comes_before_the_accept_header() {
    match latest(None, None, None) {
        LatestReleaseAction::Respond(r) => assert_eq!(r, Err(APIError::NotFound)),
        other => panic!("unexpected {other:?}"),
    }
}

#[test]
fn latest_release_as_json() {
    let r = row(5, "5.0", "/releases/bot/stable/botv5.0");
    let expected = response(&r);
    match latest(Some(b"application/json"), Some(r), None) {
        LatestReleaseAction::Respond(reply) => {
            assert_eq!(reply, Ok(LatestReleaseReply::Json(ReleaseBody { release: expected })))
        },
        other => panic!("unexpected {other:?}"),
    }
}

#[test]
fn latest_release_accept_errors() {
    match latest(None, Some(row(5, "5.0", "/x")), None) {
        LatestReleaseAction::Respond(r) => assert_eq!(r, Err(APIError::RequestError)),
        other => panic!("unexpected {other:?}"),
    }
    match latest(Some(b"text/html"), Some(row(5, "5.0", "/x")), None) {
        LatestReleaseAction::Respond(r) => assert_eq!(r, Err(APIError::UnsupportedMediaType)),
        other => panic!("unexpected {other:?}"),
    }
}

#[test]
fn latest_release_as_a_file() {
    let path = "/releases/bot/stable/botv5.0";
    match latest(Some(b"application/octet-stream"), Some(row(5, "5.0", path)), None) {
        LatestReleaseAction::OpenFile(p) => assert_eq!(p, path),
        other => panic!("unexpected {other:?}"),
    }
    match latest(Some(b"application/octet-stream"), Some(row(5, "5.0", path)), Some(Err("missing".to_string()))) {
        LatestReleaseAction::Respond(r) => assert_eq!(r, Err(APIError::NotFound)),
        other => panic!("unexpected {other:?}"),
    }
    match latest(Some(b"application/octet-stream"), Some(row(5, "5.0", path)), Some(Ok(()))) {
        LatestReleaseAction::Respond(r) => assert_eq!(
            r,
            Ok(LatestReleaseReply::Binary {
                path: path.to_string(),
                content_type: "application/octet-stream".to_string(),
                content_disposition: "attachment; filename=\"botv5.0\"".to_string(),
            })
        ),
        other => panic!("unexpected {other:?}"),
    }
}

#[test]
fn latest_release_file_without_a_usable_name() {
    match latest(Some(b"application/octet-stream"), Some(row(5, "5.0", "/releases/..")), Some(Ok(()))) {
        LatestReleaseAction::Respond(r) => assert_eq!(r, Err(APIError::InternalError)),
        other => panic!("unexpected {other:?}"),
    }
    match latest(Some(b"application/octet-stream"), Some(row(5, "5.0", "/releases/bad\nname")), Some(Ok(()))) {
        LatestReleaseAction::Respond(r) => {
            assert_eq!(r, Err(APIError::HeaderError("failed to parse header value".to_string())))
        },
        other => panic!("unexpected {other:?}"),
    }
}

#[test]
fn release_upload_runs_its_steps_in_order() {
    let settings = Settings::default();
    let (p, c, v) = ("bot".to_string(), "stable".to_string(), "1.2".to_string());
    assert_eq!(release_path(&settings, &p, &c, &v), "/releases/bot/stable/botv1.2");
    let mut progress = CreateReleaseProgress::new();
    match create_project_release(&settings, &p, &c, &v, &progress) {
        CreateReleaseAction::CreateDirAll(d) => assert_eq!(d, "/releases/bot/stable"),
        other => panic!("unexpected {other:?}"),
    }
    progress.directory = Some(Ok(()));
    match create_project_release(&settings, &p, &c, &v, &progress) {
        CreateReleaseAction::PersistUpload(d) => assert_eq!(d, "/releases/bot/stable/botv1.2"),
        other => panic!("unexpected {other:?}"),
    }
    progress.persist = Some(Ok(()));
    match create_project_release(&settings, &p, &c, &v, &progress) {
        CreateReleaseAction::ReadPersisted => {},
        other => panic!("unexpected {other:?}"),
    }
    progress.contents = Some(Ok(b"abc".to_vec()));
    match create_project_release(&settings, &p, &c, &v, &progress) {
        CreateReleaseAction::InsertRelease { version, hash, path, channel_name } => {
            assert_eq!(version, "1.2");
            assert_eq!(hash, "ba7816bf8f01cfea414140de5dae2223b00361a396177a9cb410ff61f20015ad");
            assert_eq!(path, "/releases/bot/stable/botv1.2");
            assert_eq!(channel_name, "stable");
        },
        other => panic!("unexpected {other:?}"),
    }
    progress.insert = Some(Ok(()));
    match create_project_release(&settings, &p, &c, &v, &progress) {
        CreateReleaseAction::Respond(r) => assert_eq!(r, Ok(())),
        other => panic!("unexpected {other:?}"),
    }
}

#[test]
fn release_upload_failures() {
    let settings = Settings::default();
    let (p, c, v) = ("bot".to_string(), "stable".to_string(), "1.2".to_string());
    let mut progress = CreateReleaseProgress::new();
    progress.directory = Some(Ok(()));
    progress.persist = Some(Err("cross-device link".to_string()));
    match create_project_release(&settings, &p, &c, &v, &progress) {
        CreateReleaseAction::Respond(r) => {
            assert_eq!(r, Err(APIError::PersistBinaryError("cross-device link".to_string())))
        },
        other => panic!("unexpected {other:?}"),
    }
    progress.persist = Some(Ok(()));
    progress.contents = Some(Err("io".to_string()));
    match create_project_release(&settings, &p, &c, &v, &progress) {
        CreateReleaseAction::Respond(r) => assert_eq!(r, Err(APIError::FsError("io".to_string()))),
        other => panic!("unexpected {other:?}"),
    }
    progress.contents = Some(Ok(vec![]));
    progress.insert = Some(Err("no channel".to_string()));
    match create_project_release(&settings, &p, &c, &v, &progress) {
        CreateReleaseAction::Respond(r) => assert_eq!(r, Err(APIError::SqlError("no channel".to_string()))),
        other => panic!("unexpected {other:?}"),
    }
}

#[test]
fn download_name_is_the_stored_name() {
    let settings = Settings::default();
    let stored = release_path(&settings, &"bot".to_string(), &"stable".to_string(), &"2.0".to_string());
    match latest(Some(b"application/octet-stream"), Some(row(9, "2.0", &stored)), Some(Ok(()))) {
        LatestReleaseAction::Respond(Ok(LatestReleaseReply::Binary { content_disposition, .. })) => {
            assert_eq!(content_disposition, "attachment; filename=\"botv2.0\"")
        },
        other => panic!("unexpected {other:?}"),
    }
}

#[test]
fn body_limit_is_150_megabytes() {
    assert_eq!(body_limit(), 150_000_000);
}

#[test]
fn listens_on_host_and_port() {
    let settings = Settings::default();
    assert_eq!(listen_address(&settings), "localhost:3000");
    let mut settings = Settings::default();
    settings.application.host = "0.0.0.0".to_string();
    settings.application.port = 8;
    assert_eq!(listen_address(&settings), "0.0.0.0:8");
}

#[test]
fn release_files_stay_inside_the_release_tree_for_relative_names() {
    let settings = Settings::default();
    let (p, c, v) = ("bot".to_string(), "stable".to_string(), "3".to_string());
    let file = release_path(&settings, &p, &c, &v);
    let dir = channel_path(&settings, "bot", "stable");
    assert!(file.starts_with(&dir));
    assert!(dir.starts_with(&project_path(&settings, "bot")));
    assert!(project_path(&settings, "bot").starts_with("/releases"));
}

#[test]
fn an_absolute_project_name_replaces_the_release_tree() {
    let settings = Settings::default();
    assert_eq!(channel_path(&settings, "/tmp", "stable"), "/tmp/stable");
    assert_eq!(release_path(&settings, &"/tmp".to_string(), &"stable".to_string(), &"1".to_string()), "/tmpv1");
}
