use ggit::model::{load_error_of, LoadError, GIT_EINVALID, GIT_ENOTFOUND, GIT_EOWNER, Model, RunningState, View};
use ggit::screen::status_text;

#[test]
fn default_state() {
    let model = Model::default();
    assert!(!model.has_repository());
    assert_eq!(model.current_path, ".");
    assert_eq!(model.running_state, RunningState::Running);
    assert_eq!(model.current_view, View::Status);
    assert_eq!(model.selected_index, 0);
}

#[test]
fn with_path_keeps_path() {
    let model = Model::with_path("/some/where".to_string());
    assert_eq!(model.current_path, "/some/where");
    assert!(!model.has_repository());
}

#[test]
fn load_without_repository_fails_and_shows_explanation() {
    let mut model = Model::with_path("/".to_string());
    assert_eq!(model.load_repository(), Err(LoadError::NotFound));
    assert!(!model.has_repository());
    assert_eq!(
        status_text(&model),
        "No Git repository found in: /\n\nNavigate to a Git repository or initialize one."
    );
}

#[test]
fn load_from_missing_directory_fails() {
    let mut model = Model::with_path("/no/such/directory/anywhere".to_string());
    assert!(model.load_repository().is_err());
    assert!(!model.has_repository());
}

#[test]
fn new_without_repository_still_gives_a_state() {
    let model = Model::new("/".to_string());
    assert!(!model.has_repository());
    assert_eq!(model.current_path, "/");
    assert_eq!(model.running_state, RunningState::Running);
    assert_eq!(model.current_view, View::Status);
    assert_eq!(model.selected_index, 0);
}

#[test]
fn error_codes_sort_into_load_errors() {
    assert_eq!(load_error_of(GIT_ENOTFOUND), LoadError::NotFound);
    assert_eq!(load_error_of(-3), LoadError::NotFound);
    assert_eq!(load_error_of(GIT_EOWNER), LoadError::PermissionDenied);
    assert_eq!(load_error_of(-36), LoadError::PermissionDenied);
    assert_eq!(load_error_of(GIT_EINVALID), LoadError::Invalid);
    assert_eq!(load_error_of(-21), LoadError::Invalid);
    assert_eq!(load_error_of(-1), LoadError::Other);
    assert_eq!(load_error_of(-14), LoadError::Other);
    assert_eq!(load_error_of(0), LoadError::Other);
}

#[test]
fn error_codes_match_git2() {
    assert_eq!(GIT_ENOTFOUND, git2::Error::new(git2::ErrorCode::NotFound, git2::ErrorClass::None, "x").raw_code());
    assert_eq!(GIT_EOWNER, git2::Error::new(git2::ErrorCode::Owner, git2::ErrorClass::None, "x").raw_code());
    assert_eq!(GIT_EINVALID, git2::Error::new(git2::ErrorCode::Invalid, git2::ErrorClass::None, "x").raw_code());
}
