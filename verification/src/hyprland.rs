//! What is asked of the compositor, and what it tells.

use crate::clients::{search_list, Search};
use vstd::prelude::*;
use vstd::utf8::encode_utf8;

verus! {

/// What happens to workspaces and windows.
#[derive(Debug, PartialEq, Eq)]
pub enum Event {
    Workspace { id: usize },
    CreateWorkspace { id: usize },
    DestroyWorkspace { id: usize },
    ActiveWindow { class: String, title: String },
    Urgent { win: String },
}

/// What the compositor is told to do.
#[derive(Debug, Clone, Copy, PartialEq, Eq, Structural)]
pub enum Command {
    /// To switch to a workspace.
    Workspace(u8),
}

/// What the compositor is asked.
#[derive(Debug, Clone, Copy, PartialEq, Eq, Structural)]
pub enum Query {
    ActiveWindow,
    Clients,
}

/// What an answer is for.
#[derive(Debug, PartialEq, Eq)]
pub enum HyprlandReqToken {
    ActiveWindow,
    Urgent { win: String },
}

/// The model of a [`HyprlandReqToken`].
pub enum ReqTokenView {
    ActiveWindow,
    Urgent { win: Seq<char> },
}

impl View for HyprlandReqToken {
    type V = ReqTokenView;

    open spec fn view(&self) -> ReqTokenView {
        match self {
            HyprlandReqToken::ActiveWindow => ReqTokenView::ActiveWindow,
            HyprlandReqToken::Urgent { win } => ReqTokenView::Urgent { win: win@ },
        }
    }
}

/// What is sent to the compositor.
#[derive(Debug, PartialEq, Eq)]
pub enum HyprlandRequest {
    Command(Command),
    Query { query: Query, token: HyprlandReqToken },
}

/// The model of a [`HyprlandRequest`].
pub enum RequestView {
    Command(Command),
    Query { query: Query, token: ReqTokenView },
}

impl View for HyprlandRequest {
    type V = RequestView;

    open spec fn view(&self) -> RequestView {
        match self {
            HyprlandRequest::Command(command) => RequestView::Command(*command),
            HyprlandRequest::Query { query, token } => RequestView::Query {
                query: *query,
                token: token@,
            },
        }
    }
}

/// What a search of the answer gives, where it is a list of clients.
pub open spec fn search_for(token: ReqTokenView, answer: Seq<char>) -> Search {
    match token {
        ReqTokenView::ActiveWindow => Search::Missing,
        ReqTokenView::Urgent { win } => search_list(encode_utf8(win), encode_utf8(answer)),
    }
}

} // verus!
