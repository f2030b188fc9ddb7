//! Command and reply values exchanged between the transport and the manager.
use vstd::prelude::*;

verus! {

/// Offset to apply to every tracked window, relative to its reference position.
#[derive(Debug, Clone, Copy, PartialEq, Eq, Structural)]
pub struct UpdatePayload {
    pub x: i32,
    pub y: i32,
}

/// Names one window by its handle.
#[derive(Debug, Clone, Copy, PartialEq, Eq, Structural)]
pub struct HwndPayload {
    pub hwnd: isize,
}

/// A decoded client command.
#[derive(Debug, Clone, Copy, PartialEq, Eq, Structural)]
pub enum Action {
    Start,
    Stop,
    Capture,
    Add(HwndPayload),
    Remove(HwndPayload),
    RemoveAll,
    Update(UpdatePayload),
    /// Issued by the transport for a new connection, to learn the full state.
    Refresh,
}

/// The handles of the tracked windows, in insertion order.
#[derive(Debug, Clone, PartialEq, Eq)]
pub struct HwndsPayload {
    pub hwnds: Vec<isize>,
}

/// Whether tracking is active, and the tracked handles in insertion order.
#[derive(Debug, Clone, PartialEq, Eq)]
pub struct StatePayload {
    pub started: bool,
    pub hwnds: Vec<isize>,
}

/// A state event published to every observer.
#[derive(Debug, Clone, PartialEq, Eq)]
pub enum Reply {
    Started,
    Stopped,
    CurrentManagedHwnds(HwndsPayload),
    State(StatePayload),
}

/// The mathematical value of a [`Reply`].
pub enum ReplyView {
    Started,
    Stopped,
    CurrentManagedHwnds(Seq<isize>),
    State(bool, Seq<isize>),
}

impl View for Reply {
    type V = ReplyView;

    open spec fn view(&self) -> ReplyView {
        match self {
            Reply::Started => ReplyView::Started,
            Reply::Stopped => ReplyView::Stopped,
            Reply::CurrentManagedHwnds(p) => ReplyView::CurrentManagedHwnds(p.hwnds@),
            Reply::State(p) => ReplyView::State(p.started, p.hwnds@),
        }
    }
}

/// The view of an optional reply.
pub open spec fn reply_opt_view(r: Option<Reply>) -> Option<ReplyView> {
    match r {
        Some(x) => Some(x@),
        None => None,
    }
}

} // verus!
