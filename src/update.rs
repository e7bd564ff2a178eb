use vstd::prelude::*;
use crate::model::{Model, RunningState, View};

verus! {

/// Every action that can change the application state.
#[derive(Debug, Clone, Copy, PartialEq, Eq, Structural)]
pub enum Message {
    /// Quit the application.
    Quit,
    /// Show another view.
    SwitchView(View),
    /// Move the selection up.
    SelectUp,
    /// Move the selection down.
    SelectDown,
    /// Reload the repository.
    Refresh,
    /// Go to the first item.
    SelectFirst,
    /// Go to the last item.
    SelectLast,
}

/// `post` keeps the path and the repository handle of `pre`.
pub open spec fn same_repository(pre: &Model, post: &Model) -> bool {
    post.current_path == pre.current_path && post.repository == pre.repository
}

/// What one message does: `post` is the state after `msg` is applied to `pre`.
/// A refresh may find a repository or not; every other message leaves the
/// repository handle alone.
pub open spec fn transitioned(pre: &Model, msg: Message, post: &Model) -> bool {
    match msg {
        Message::Quit => same_repository(pre, post) && post.running_state == RunningState::Done
            && post.current_view == pre.current_view && post.selected_index
            == pre.selected_index,
        Message::SwitchView(v) => same_repository(pre, post) && post.running_state
            == pre.running_state && post.current_view == v && post.selected_index == 0,
        Message::SelectUp => same_repository(pre, post) && post.running_state == pre.running_state
            && post.current_view == pre.current_view && post.selected_index == (
        if pre.selected_index > 0 {
            (pre.selected_index - 1) as usize
        } else {
            0
        }),
        Message::SelectDown => same_repository(pre, post) && post.running_state
            == pre.running_state && post.current_view == pre.current_view && post.selected_index
            == (if pre.selected_index < usize::MAX {
            (pre.selected_index + 1) as usize
        } else {
            usize::MAX
        }),
        Message::Refresh => post.current_path == pre.current_path && post.running_state
            == pre.running_state && post.current_view == pre.current_view && post.selected_index
            == pre.selected_index,
        Message::SelectFirst => same_repository(pre, post) && post.running_state
            == pre.running_state && post.current_view == pre.current_view && post.selected_index
            == 0,
        Message::SelectLast => same_repository(pre, post) && post.running_state
            == pre.running_state && post.current_view == pre.current_view && post.selected_index
            == usize::MAX,
    }
}

/// Applies `msg` to the state. The result is a follow-up message to apply
/// before the next redraw; no message asks for one at present.
pub fn update(model: &mut Model, msg: Message) -> (r: Option<Message>)
    ensures
        transitioned(old(model), msg, final(model)),
        r.is_none(),
{
    match msg {
        Message::Quit => {
            model.running_state = RunningState::Done;
        },
        Message::SwitchView(view) => {
            model.current_view = view;
            model.selected_index = 0;
        },
        Message::SelectUp => {
            if model.selected_index > 0 {
                model.selected_index = model.selected_index - 1;
            }
        },
        Message::SelectDown => {
            if model.selected_index < usize::MAX {
                model.selected_index = model.selected_index + 1;
            }
        },
        Message::Refresh => {
            // A failed load leaves no repository; the error itself is not kept.
            let _ = model.load_repository();
        },
        Message::SelectFirst => {
            model.selected_index = 0;
        },
        Message::SelectLast => {
            model.selected_index = usize::MAX;
        },
    }
    None
}

/// Applies `msg` and every follow-up message it leads to, then reports
/// whether the application is done.
pub fn run_chain(model: &mut Model, msg: Message) -> (done: bool)
    ensures
        transitioned(old(model), msg, final(model)),
        done == (final(model).running_state == RunningState::Done),
        msg == Message::Quit ==> done,
{
    let mut current: Option<Message> = Some(msg);
    while current.is_some()
        invariant
            current.is_some() ==> current == Some(msg) && *model == *old(model),
            current.is_none() ==> transitioned(old(model), msg, model),
        decreases
            (if current.is_some() { 1int } else { 0int }),
    {
        let m = current.unwrap();
        current = update(model, m);
    }
    model.running_state == RunningState::Done
}

/// After `Quit` the application is done, whatever the state before.
pub proof fn quit_is_terminal(pre: &Model, post: &Model)
    requires
        transitioned(pre, Message::Quit, post),
    ensures
        post.running_state == RunningState::Done,
{
}

/// Switching to any view shows that view with the selection on its first item.
pub proof fn switch_view_resets_selection(pre: &Model, v: View, post: &Model)
    requires
        transitioned(pre, Message::SwitchView(v), post),
    ensures
        post.current_view == v,
        post.selected_index == 0,
{
}

/// Moving up never goes below the first item, and stays there once it is
/// reached.
pub proof fn select_up_stops_at_first(pre: &Model, post: &Model)
    requires
        transitioned(pre, Message::SelectUp, post),
    ensures
        post.selected_index <= pre.selected_index,
        pre.selected_index == 0 ==> post.selected_index == 0,
        pre.selected_index > 0 ==> post.selected_index == pre.selected_index - 1,
{
}

/// Moving down and then up returns to the same item, below the largest
/// representable index.
pub proof fn select_down_then_up(s0: &Model, s1: &Model, s2: &Model)
    requires
        s0.selected_index < usize::MAX,
        transitioned(s0, Message::SelectDown, s1),
        transitioned(s1, Message::SelectUp, s2),
    ensures
        s2.selected_index == s0.selected_index,
        s2.current_view == s0.current_view,
        s2.running_state == s0.running_state,
        same_repository(s0, s2),
{
}

} // verus!
