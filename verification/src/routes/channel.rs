//! Release channels of a project: looking one up, and creating one together
//! with its release directory.
use vstd::prelude::*;
use crate::configuration::Settings;
use crate::paths::{component_views, join_path, joined_path};
use crate::routes::error::{lookup, lookup_result, step_succeeded, APIError};

verus! {

/// A release channel as the API shows it.
#[derive(Debug, PartialEq, Eq)]
pub struct ChannelJson {
    pub id: i64,
    pub name: String,
    pub project_id: i64,
    pub created_at: i64,
    pub updated_at: i64,
}

/// `{"channel": ...}`
#[derive(Debug, PartialEq, Eq)]
pub struct ChannelBody {
    pub channel: ChannelJson,
}

/// The request to create a channel.
#[derive(Debug, PartialEq, Eq)]
pub struct CreateChannel {
    pub channel_name: String,
}

/// The answer to a channel lookup, from the outcome of its query.
pub open spec fn channel_reply(found: Result<Option<ChannelJson>, String>) -> Result<ChannelBody, APIError> {
    match lookup_result(found) {
        Ok(c) => Ok(ChannelBody { channel: c }),
        Err(e) => Err(e),
    }
}

fn channel_lookup(found: Result<Option<ChannelJson>, String>) -> (r: Result<ChannelBody, APIError>)
    ensures
        r == channel_reply(found),
{
    match lookup(found) {
        Ok(channel) => Ok(ChannelBody { channel }),
        Err(e) => Err(e),
    }
}

/// The answer to a lookup of a channel by project and channel name, from the
/// outcome of that query.
pub fn show_project_channel(found: Result<Option<ChannelJson>, String>) -> (r: Result<ChannelBody, APIError>)
    ensures
        r == channel_reply(found),
{
    channel_lookup(found)
}

/// The answer to a lookup of a channel by id, from the outcome of that query.
pub fn show_channel_by_id(found: Result<Option<ChannelJson>, String>) -> (r: Result<ChannelBody, APIError>)
    ensures
        r == channel_reply(found),
{
    channel_lookup(found)
}

/// The directory of a channel's releases: the project's name and then the
/// channel's name pushed onto the release directory.
pub open spec fn channel_dir(release_path: Seq<char>, project: Seq<char>, channel: Seq<char>) -> Seq<char> {
    joined_path(seq![release_path, project, channel])
}

/// The directory of a channel's releases.
pub fn channel_path(settings: &Settings, project_name: &str, channel_name: &str) -> (r: String)
    ensures
        r@ == channel_dir(settings.application.release_path@, project_name@, channel_name@),
{
    let parts = vec![
        settings.application.release_path.clone(),
        project_name.to_owned(),
        channel_name.to_owned(),
    ];
    let r = join_path(&parts);
    proof {
        assert(component_views(parts@) =~= seq![
            settings.application.release_path@,
            project_name@,
            channel_name@,
        ]);
    }
    r
}

/// What is known so far while a channel is created.
#[derive(Debug)]
pub struct CreateChannelProgress {
    /// Outcome of creating the channel's directory.
    pub directory: Option<Result<(), String>>,
    /// Outcome of inserting the channel's row.
    pub insert: Option<Result<(), String>>,
    /// Outcome of reading the new row back.
    pub fetch: Option<Result<Option<ChannelJson>, String>>,
}

impl CreateChannelProgress {
    pub fn new() -> (r: Self)
        ensures
            r.directory is None,
            r.insert is None,
            r.fetch is None,
    {
        CreateChannelProgress { directory: None, insert: None, fetch: None }
    }
}

/// What to do next while a channel is created.
#[derive(Debug)]
pub enum CreateChannelAction {
    /// Create this directory and its missing parents.
    CreateDirAll(String),
    /// Insert a channel of this name into the project of this name.
    InsertChannel { channel_name: String, project_name: String },
    /// Read the channel of this name in the project of this name.
    FetchChannel { channel_name: String, project_name: String },
    /// Answer the request.
    Respond(Result<ChannelBody, APIError>),
}

/// The next step of creating a channel in a project: create its directory,
/// insert its row, read the row back and answer with it. The first failure is
/// the answer: a file system error before anything is written to the
/// database, a database error after.
pub fn create_project_channel(
    settings: &Settings,
    project_name: &String,
    payload: &CreateChannel,
    progress: &mut CreateChannelProgress,
) -> (r: CreateChannelAction)
    ensures
        match old(progress).directory {
            None => r matches CreateChannelAction::CreateDirAll(d) && d@ == channel_dir(
                settings.application.release_path@,
                project_name@,
                payload.channel_name@,
            ),
            Some(Err(m)) => r == CreateChannelAction::Respond(Err(APIError::FsError(m))),
            Some(Ok(_)) => match old(progress).insert {
                None => r matches CreateChannelAction::InsertChannel { channel_name, project_name: p }
                    && channel_name@ == payload.channel_name@ && p@ == project_name@,
                Some(Err(m)) => r == CreateChannelAction::Respond(Err(APIError::SqlError(m))),
                Some(Ok(_)) => match old(progress).fetch {
                    None => r matches CreateChannelAction::FetchChannel { channel_name, project_name: p }
                        && channel_name@ == payload.channel_name@ && p@ == project_name@,
                    Some(f) => r == CreateChannelAction::Respond(channel_reply(f)),
                },
            },
        },
        final(progress).directory == old(progress).directory,
        final(progress).insert == old(progress).insert,
        step_succeeded(old(progress).directory) && step_succeeded(old(progress).insert)
            ==> final(progress).fetch is None,
        !(step_succeeded(old(progress).directory) && step_succeeded(old(progress).insert))
            ==> final(progress).fetch == old(progress).fetch,
{
    match &progress.directory {
        None => return CreateChannelAction::CreateDirAll(
            channel_path(settings, project_name.as_str(), payload.channel_name.as_str()),
        ),
        Some(Err(m)) => return CreateChannelAction::Respond(Err(APIError::FsError(m.clone()))),
        Some(Ok(())) => {},
    }
    match &progress.insert {
        None => return CreateChannelAction::InsertChannel {
            channel_name: payload.channel_name.clone(),
            project_name: project_name.clone(),
        },
        Some(Err(m)) => return CreateChannelAction::Respond(Err(APIError::SqlError(m.clone()))),
        Some(Ok(())) => {},
    }
    match progress.fetch.take() {
        None => CreateChannelAction::FetchChannel {
            channel_name: payload.channel_name.clone(),
            project_name: project_name.clone(),
        },
        Some(found) => CreateChannelAction::Respond(channel_lookup(found)),
    }
}

/// A channel lookup that found a channel is answered with that very channel,
/// whatever its fields; `NotFound` only where nothing was found; a database
/// error only where the query failed.
pub proof fn law_channel_lookup_answers_with_the_found_channel(found: Result<Option<ChannelJson>, String>)
    ensures
        match found {
            Ok(Some(c)) => channel_reply(found) == Ok::<ChannelBody, APIError>(ChannelBody { channel: c }),
            Ok(None) => channel_reply(found) == Err::<ChannelBody, APIError>(APIError::NotFound),
            Err(m) => channel_reply(found) == Err::<ChannelBody, APIError>(APIError::SqlError(m)),
        },
{
}

} // verus!
