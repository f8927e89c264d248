//! Projects: looking one up by name and creating one together with its
//! release directory.
use vstd::prelude::*;
use crate::configuration::Settings;
use crate::paths::{component_views, join_path, joined_path};
use crate::routes::error::{lookup, lookup_result, step_succeeded, APIError};

verus! {

/// A project as the API shows it.
#[derive(Debug, PartialEq, Eq)]
pub struct ProjectJson {
    pub id: i64,
    pub name: String,
    pub created_at: i64,
    pub updated_at: i64,
}

/// `{"project": ...}`
#[derive(Debug, PartialEq, Eq)]
pub struct ProjectBody {
    pub project: ProjectJson,
}

/// The request to create a project.
#[derive(Debug, PartialEq, Eq)]
pub struct CreateProject {
    pub name: String,
}

/// The answer to a project lookup, from the outcome of the query by name.
pub fn show_project(found: Result<Option<ProjectJson>, String>) -> (r: Result<ProjectBody, APIError>)
    ensures
        match lookup_result(found) {
            Ok(p) => r == Ok::<ProjectBody, APIError>(ProjectBody { project: p }),
            Err(e) => r == Err::<ProjectBody, APIError>(e),
        },
{
    match lookup(found) {
        Ok(project) => Ok(ProjectBody { project }),
        Err(e) => Err(e),
    }
}

/// The directory of a project's releases: the project's name pushed onto the
/// release directory.
pub open spec fn project_dir(release_path: Seq<char>, name: Seq<char>) -> Seq<char> {
    joined_path(seq![release_path, name])
}

/// The directory of a project's releases.
pub fn project_path(settings: &Settings, name: &str) -> (r: String)
    ensures
        r@ == project_dir(settings.application.release_path@, name@),
{
    let parts = vec![settings.application.release_path.clone(), name.to_owned()];
    let r = join_path(&parts);
    proof {
        assert(component_views(parts@) =~= seq![settings.application.release_path@, name@]);
    }
    r
}

/// What is known so far while a project is created.
#[derive(Debug)]
pub struct CreateProjectProgress {
    /// Outcome of creating the project's directory.
    pub directory: Option<Result<(), String>>,
    /// Outcome of inserting the project's row.
    pub insert: Option<Result<(), String>>,
    /// Outcome of reading the new row back.
    pub fetch: Option<Result<Option<ProjectJson>, String>>,
}

impl CreateProjectProgress {
    pub fn new() -> (r: Self)
        ensures
            r.directory is None,
            r.insert is None,
            r.fetch is None,
    {
        CreateProjectProgress { directory: None, insert: None, fetch: None }
    }
}

/// What to do next while a project is created.
#[derive(Debug)]
pub enum CreateProjectAction {
    /// Create this directory and its missing parents.
    CreateDirAll(String),
    /// Insert a project of this name.
    InsertProject(String),
    /// Read the project of this name.
    FetchProject(String),
    /// Answer the request.
    Respond(Result<ProjectBody, APIError>),
}

/// The next step of creating a project: create its directory, insert its row,
/// read the row back and answer with it. The first failure is the answer: a
/// file system error before anything is written to the database, a database
/// error after.
pub fn create_project(
    settings: &Settings,
    payload: &CreateProject,
    progress: &mut CreateProjectProgress,
) -> (r: CreateProjectAction)
    ensures
        match old(progress).directory {
            None => r matches CreateProjectAction::CreateDirAll(d)
                && d@ == project_dir(settings.application.release_path@, payload.name@),
            Some(Err(m)) => r == CreateProjectAction::Respond(Err(APIError::FsError(m))),
            Some(Ok(_)) => match old(progress).insert {
                None => r matches CreateProjectAction::InsertProject(n) && n@ == payload.name@,
                Some(Err(m)) => r == CreateProjectAction::Respond(Err(APIError::SqlError(m))),
                Some(Ok(_)) => match old(progress).fetch {
                    None => r matches CreateProjectAction::FetchProject(n) && n@ == payload.name@,
                    Some(f) => match lookup_result(f) {
                        Ok(p) => r == CreateProjectAction::Respond(Ok((ProjectBody { project: p }))),
                        Err(e) => r == CreateProjectAction::Respond(Err(e)),
                    },
                },
            },
        },
        final(progress).directory == old(progress).directory,
        final(progress).insert == old(progress).insert,
        step_succeeded(old(progress).directory) && step_succeeded(old(progress).insert)
            ==> final(progress).fetch is None,
        !(step_succeeded(old(progress).directory) && step_succeeded(old(progress).insert))
            ==> final(progress).fetch == old(progress).fetch,
{
    match &progress.directory {
        None => return CreateProjectAction::CreateDirAll(project_path(settings, payload.name.as_str())),
        Some(Err(m)) => return CreateProjectAction::Respond(Err(APIError::FsError(m.clone()))),
        Some(Ok(())) => {},
    }
    match &progress.insert {
        None => return CreateProjectAction::InsertProject(payload.name.clone()),
        Some(Err(m)) => return CreateProjectAction::Respond(Err(APIError::SqlError(m.clone()))),
        Some(Ok(())) => {},
    }
    match progress.fetch.take() {
        None => CreateProjectAction::FetchProject(payload.name.clone()),
        Some(found) => CreateProjectAction::Respond(show_project(found)),
    }
}

} // verus!
