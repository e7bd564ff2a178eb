use vstd::prelude::*;
use vstd::view::View as _;
use crate::model::{Model, View};

verus! {

/// The title of the whole window.
pub const APP_TITLE: &'static str = "ggit";

/// The text of the status view when a repository at `repo_path` is open.
pub open spec fn found_text(repo_path: Seq<char>, current_path: Seq<char>) -> Seq<char> {
    "Repository: "@ + repo_path + "\nWorking Directory: "@ + current_path
        + "\n\nStatus information will go here..."@
}

/// The text of the status view when no repository is open.
pub open spec fn missing_text(current_path: Seq<char>) -> Seq<char> {
    "No Git repository found in: "@ + current_path
        + "\n\nNavigate to a Git repository or initialize one."@
}

/// The tab titles of the header, in order.
pub open spec fn tab_titles_spec() -> Seq<&'static str> {
    seq!["Status", "Log", "Branches", "Files"]
}

/// Position of a view's tab in the header.
pub open spec fn tab_position(view: View) -> usize {
    match view {
        View::Status => 0,
        View::Log => 1,
        View::Branches => 2,
        View::Files => 3,
    }
}

/// Title of the frame around a view's content.
pub open spec fn title_of(view: View) -> &'static str {
    match view {
        View::Status => "Status",
        View::Log => "Commit Log",
        View::Branches => "Branches",
        View::Files => "Files",
    }
}

/// The entries of a list view; the status view has none.
pub open spec fn items_of(view: View, has_repository: bool) -> Seq<&'static str> {
    if !has_repository {
        match view {
            View::Status => seq![],
            _ => seq!["No repository available"],
        }
    } else {
        match view {
            View::Status => seq![],
            View::Log => seq![
                "commit abc123 - Add initial commit",
                "commit def456 - Update README",
                "commit ghi789 - Fix bug in parser",
            ],
            View::Branches => seq!["* main", "  feature/new-ui", "  bugfix/parser-error"],
            View::Files => seq!["M  src/main.rs", "A  src/model.rs", "?? temp.txt"],
        }
    }
}

/// Relies on git2::Repository::path: the location of the `.git` directory
/// (or of a bare repository), shown as text. It depends on the disk, so
/// nothing is stated of it.
#[verifier::external_body]
fn repository_path(repo: &git2::Repository) -> (r: String) {
    repo.path().display().to_string()
}

/// The tab titles of the header, in order.
pub fn tab_titles() -> (r: Vec<&'static str>)
    ensures
        r@ == tab_titles_spec(),
{
    let r = vec!["Status", "Log", "Branches", "Files"];
    assert(r@ =~= tab_titles_spec());
    r
}

/// Position of the current view's tab in the header.
pub fn tab_index(view: View) -> (r: usize)
    ensures
        r == tab_position(view),
        r < tab_titles_spec().len(),
{
    match view {
        View::Status => 0,
        View::Log => 1,
        View::Branches => 2,
        View::Files => 3,
    }
}

/// Title of the frame around a view's content.
pub fn view_title(view: View) -> (r: &'static str)
    ensures
        r == title_of(view),
{
    match view {
        View::Status => "Status",
        View::Log => "Commit Log",
        View::Branches => "Branches",
        View::Files => "Files",
    }
}

/// The status text, given the path of the open repository if there is one.
pub fn status_text_for(repo_path: Option<&str>, current_path: &str) -> (r: String)
    ensures
        repo_path matches Some(p) ==> r@ == found_text(p@, current_path@),
        repo_path is None ==> r@ == missing_text(current_path@),
{
    match repo_path {
        Some(p) => {
            let mut s = String::from_str("Repository: ");
            s.append(p);
            s.append("\nWorking Directory: ");
            s.append(current_path);
            s.append("\n\nStatus information will go here...");
            s
        },
        None => {
            let mut s = String::from_str("No Git repository found in: ");
            s.append(current_path);
            s.append("\n\nNavigate to a Git repository or initialize one.");
            s
        },
    }
}

/// The text of the status view for the current state.
pub fn status_text(model: &Model) -> (r: String)
    ensures
        model.repository.is_none() ==> r@ == missing_text(model.current_path@),
        model.repository.is_some() ==> exists|p: Seq<char>|
            r@ == #[trigger] found_text(p, model.current_path@),
{
    match &model.repository {
        Some(repo) => {
            let p = repository_path(repo);
            let r = status_text_for(Some(p.as_str()), model.current_path.as_str());
            assert(r@ == found_text(p@, model.current_path@));
            r
        },
        None => status_text_for(None, model.current_path.as_str()),
    }
}

/// The entries of the list that `view` shows.
pub fn list_items(view: View, has_repository: bool) -> (r: Vec<&'static str>)
    ensures
        r@ == items_of(view, has_repository),
{
    let r: Vec<&'static str> = if !has_repository {
        match view {
            View::Status => vec![],
            _ => vec!["No repository available"],
        }
    } else {
        match view {
            View::Status => vec![],
            View::Log => vec![
                "commit abc123 - Add initial commit",
                "commit def456 - Update README",
                "commit ghi789 - Fix bug in parser",
            ],
            View::Branches => vec!["* main", "  feature/new-ui", "  bugfix/parser-error"],
            View::Files => vec!["M  src/main.rs", "A  src/model.rs", "?? temp.txt"],
        }
    };
    assert(r@ =~= items_of(view, has_repository));
    r
}

} // verus!
