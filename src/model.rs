use vstd::prelude::*;
use vstd::view::View as _;

verus! {

#[verifier::external_type_specification]
#[verifier::external_body]
pub struct ExRepository(git2::Repository);

#[verifier::external_type_specification]
#[verifier::external_body]
pub struct ExGitError(git2::Error);

/// Whether the main loop keeps going.
#[derive(Debug, Clone, Copy, PartialEq, Eq, Structural)]
pub enum RunningState {
    Running,
    Done,
}

/// The screen that the content area shows.
#[derive(Debug, Clone, Copy, PartialEq, Eq, Structural)]
pub enum View {
    Status,
    Log,
    Branches,
    Files,
}

/// libgit2's error code for an object or repository that was not found.
pub const GIT_ENOTFOUND: i32 = -3;

/// libgit2's error code for an invalid operation or input.
pub const GIT_EINVALID: i32 = -21;

/// libgit2's error code for a repository not owned by the current user.
pub const GIT_EOWNER: i32 = -36;

/// Why a repository could not be discovered.
#[derive(Debug, Clone, Copy, PartialEq, Eq, Structural)]
pub enum LoadError {
    /// No repository at the path or any of its ancestors.
    NotFound,
    /// A repository was found but the current user may not use it.
    PermissionDenied,
    /// The repository or the path is malformed.
    Invalid,
    /// Any other failure reported by the Git library.
    Other,
}

/// The whole application state.
pub struct Model {
    /// The repository handle, present iff the latest load succeeded.
    pub repository: Option<git2::Repository>,
    /// The path from which repository discovery starts.
    pub current_path: String,
    pub running_state: RunningState,
    pub current_view: View,
    /// Cursor into the list that the current view shows.
    pub selected_index: usize,
}

/// Relies on git2::Repository::discover: opens the repository found at `path`
/// or the nearest ancestor that holds one. What it finds depends on the disk,
/// so nothing is stated of the outcome.
#[verifier::external_body]
fn discover(path: &str) -> (r: Result<git2::Repository, git2::Error>) {
    git2::Repository::discover(path)
}

/// Relies on git2::Error::raw_code: libgit2's numeric code for a failure.
#[verifier::external_body]
fn raw_error_code(e: &git2::Error) -> (r: i32) {
    e.raw_code()
}

/// How a libgit2 error code reads as a discovery failure.
pub open spec fn load_error_spec(code: i32) -> LoadError {
    if code == GIT_ENOTFOUND {
        LoadError::NotFound
    } else if code == GIT_EOWNER {
        LoadError::PermissionDenied
    } else if code == GIT_EINVALID {
        LoadError::Invalid
    } else {
        LoadError::Other
    }
}

/// Sorts a libgit2 error code into a discovery failure.
pub fn load_error_of(code: i32) -> (r: LoadError)
    ensures
        r == load_error_spec(code),
{
    if code == GIT_ENOTFOUND {
        LoadError::NotFound
    } else if code == GIT_EOWNER {
        LoadError::PermissionDenied
    } else if code == GIT_EINVALID {
        LoadError::Invalid
    } else {
        LoadError::Other
    }
}

impl Model {
    /// The state at start-up, searching for a repository from `path`; no
    /// repository is loaded yet.
    pub fn with_path(path: String) -> (m: Model)
        ensures
            m.repository.is_none(),
            m.current_path@ == path@,
            m.running_state == RunningState::Running,
            m.current_view == View::Status,
            m.selected_index == 0,
    {
        Model {
            repository: None,
            current_path: path,
            running_state: RunningState::Running,
            current_view: View::Status,
            selected_index: 0,
        }
    }

    /// The start-up state searching from `path`, after a first attempt to
    /// load a repository there. A failed load is not fatal: the state is
    /// returned without a repository.
    pub fn new(path: String) -> (m: Model)
        ensures
            m.current_path@ == path@,
            m.running_state == RunningState::Running,
            m.current_view == View::Status,
            m.selected_index == 0,
    {
        let mut m = Model::with_path(path);
        let _ = m.load_repository();
        m
    }

    /// Discovers a repository from `current_path` and stores the handle;
    /// on failure any earlier handle is dropped.
    pub fn load_repository(&mut self) -> (r: Result<(), LoadError>)
        ensures
            r.is_ok() <==> final(self).repository.is_some(),
            final(self).current_path == old(self).current_path,
            final(self).running_state == old(self).running_state,
            final(self).current_view == old(self).current_view,
            final(self).selected_index == old(self).selected_index,
    {
        match discover(self.current_path.as_str()) {
            Ok(repo) => {
                self.repository = Some(repo);
                Ok(())
            },
            Err(e) => {
                self.repository = None;
                Err(load_error_of(raw_error_code(&e)))
            },
        }
    }

    /// Whether a repository handle is held.
    pub fn has_repository(&self) -> (r: bool)
        ensures
            r == self.repository.is_some(),
    {
        self.repository.is_some()
    }
}

impl Default for Model {
    /// The start-up state with the working directory, written `.`, as the
    /// search path.
    fn default() -> (m: Model)
        ensures
            m.repository.is_none(),
            m.current_path@ == "."@,
            m.running_state == RunningState::Running,
            m.current_view == View::Status,
            m.selected_index == 0,
    {
        Model::with_path(String::from_str("."))
    }
}

} // verus!
