//! The command processor: one command at a time against the registry.
//!
//! Work that only the windowing system can do is handed out as an [`Effect`]; the
//! caller performs it and hands the result back as an [`Answer`], until the
//! command is finished and its reply, if any, is known.
use vstd::prelude::*;
use crate::protocol::{Action, HwndsPayload, Reply, ReplyView, StatePayload, reply_opt_view};
use crate::registry::{
    Placement,
    Registry,
    RegistryView,
    WindowState,
    handles_of,
    placements,
    tracks,
    with_window,
    without,
};

verus! {

/// The absolute rectangle of a window on screen.
#[derive(Debug, Clone, Copy, PartialEq, Eq, Structural)]
pub struct Rect {
    pub left: i32,
    pub top: i32,
    pub right: i32,
    pub bottom: i32,
}

/// What the processor asks for next.
#[derive(Debug, Clone, PartialEq, Eq)]
pub enum Effect {
    /// The command is done; publish the reply, if there is one.
    Finished(Option<Reply>),
    /// Find the top-level window under the cursor.
    LocateCursor,
    /// Read the rectangle of this window.
    ReadRect(isize),
    /// Move each window to its position and report the ones that are gone.
    Move(Vec<Placement>),
}

/// The result of the work that an [`Effect`] asked for.
#[derive(Debug, Clone, PartialEq, Eq)]
pub enum Answer {
    /// The top-level window under the cursor, if one was found.
    CursorWindow(Option<isize>),
    /// The rectangle of the window, or `None` if the window is gone.
    RectRead(isize, Option<Rect>),
    /// The handles whose move failed because the window is gone.
    Moved(Vec<isize>),
}

/// The mathematical value of an [`Effect`].
pub enum EffectView {
    Finished(Option<ReplyView>),
    LocateCursor,
    ReadRect(isize),
    Move(Seq<Placement>),
}

/// The mathematical value of an [`Answer`].
pub enum AnswerView {
    CursorWindow(Option<isize>),
    RectRead(isize, Option<Rect>),
    Moved(Seq<isize>),
}

impl View for Effect {
    type V = EffectView;

    open spec fn view(&self) -> EffectView {
        match self {
            Effect::Finished(r) => EffectView::Finished(reply_opt_view(*r)),
            Effect::LocateCursor => EffectView::LocateCursor,
            Effect::ReadRect(h) => EffectView::ReadRect(*h),
            Effect::Move(ps) => EffectView::Move(ps@),
        }
    }
}

impl View for Answer {
    type V = AnswerView;

    open spec fn view(&self) -> AnswerView {
        match self {
            Answer::CursorWindow(h) => AnswerView::CursorWindow(*h),
            Answer::RectRead(h, r) => AnswerView::RectRead(*h, *r),
            Answer::Moved(gone) => AnswerView::Moved(gone@),
        }
    }
}

/// The snapshot reply for the windows `ws`.
pub open spec fn snapshot(ws: Seq<WindowState>) -> ReplyView {
    ReplyView::CurrentManagedHwnds(handles_of(ws))
}

/// The full-state reply for `m`.
pub open spec fn full_state(m: RegistryView) -> ReplyView {
    ReplyView::State(m.tracking, handles_of(m.windows))
}

/// `m` with its windows replaced by `ws`.
pub open spec fn with_windows(m: RegistryView, ws: Seq<WindowState>) -> RegistryView {
    RegistryView { tracking: m.tracking, windows: ws }
}

/// The first step of adding window `h`: nothing if it is tracked, else read its rectangle.
pub open spec fn add_step(m: RegistryView, h: isize) -> EffectView {
    if tracks(m.windows, h) {
        EffectView::Finished(None)
    } else {
        EffectView::ReadRect(h)
    }
}

/// The registry after a command, and what the processor asks for next.
pub open spec fn process_spec(m: RegistryView, a: Action) -> (RegistryView, EffectView) {
    match a {
        Action::Start => (
            RegistryView { tracking: true, windows: m.windows },
            EffectView::Finished(Some(ReplyView::Started)),
        ),
        Action::Stop => (
            RegistryView { tracking: false, windows: m.windows },
            EffectView::Finished(Some(ReplyView::Stopped)),
        ),
        Action::Capture => (m, EffectView::LocateCursor),
        Action::Add(p) => (m, add_step(m, p.hwnd)),
        Action::Remove(p) => {
            let ws = without(m.windows, seq![p.hwnd]);
            (with_windows(m, ws), EffectView::Finished(Some(snapshot(ws))))
        },
        Action::RemoveAll => (
            with_windows(m, Seq::empty()),
            EffectView::Finished(Some(snapshot(Seq::empty()))),
        ),
        Action::Update(o) => (
            m,
            if m.tracking {
                EffectView::Move(placements(m.windows, o.x, o.y))
            } else {
                EffectView::Finished(None)
            },
        ),
        Action::Refresh => (m, EffectView::Finished(Some(full_state(m)))),
    }
}

/// The registry after the answer to an effect, and what the processor asks for next.
pub open spec fn resume_spec(m: RegistryView, a: AnswerView) -> (RegistryView, EffectView) {
    match a {
        AnswerView::CursorWindow(None) => (m, EffectView::Finished(None)),
        AnswerView::CursorWindow(Some(h)) => (m, add_step(m, h)),
        AnswerView::RectRead(_, None) => (m, EffectView::Finished(None)),
        AnswerView::RectRead(h, Some(r)) => {
            if tracks(m.windows, h) {
                (m, EffectView::Finished(None))
            } else {
                let ws = with_window(m.windows, WindowState { hwnd: h, init_x: r.left, init_y: r.top });
                (with_windows(m, ws), EffectView::Finished(Some(snapshot(ws))))
            }
        },
        AnswerView::Moved(gone) => {
            let ws = without(m.windows, gone);
            (
                with_windows(m, ws),
                if ws.len() < m.windows.len() {
                    EffectView::Finished(Some(snapshot(ws)))
                } else {
                    EffectView::Finished(None)
                },
            )
        },
    }
}

/// The snapshot reply for the current windows.
fn snapshot_reply(reg: &Registry) -> (r: Reply)
    ensures
        r@ == snapshot(reg@.windows),
{
    Reply::CurrentManagedHwnds(HwndsPayload { hwnds: reg.handles() })
}

/// See [`add_step`].
fn add_first_step(reg: &Registry, h: isize) -> (e: Effect)
    ensures
        e@ == add_step(reg@, h),
{
    if reg.contains(h) {
        Effect::Finished(None)
    } else {
        Effect::ReadRect(h)
    }
}

/// Starts processing command `a`.
pub fn process(reg: &mut Registry, a: Action) -> (e: Effect)
    ensures
        (final(reg)@, e@) == process_spec(old(reg)@, a),
{
    match a {
        Action::Start => {
            reg.set_tracking(true);
            Effect::Finished(Some(Reply::Started))
        },
        Action::Stop => {
            reg.set_tracking(false);
            Effect::Finished(Some(Reply::Stopped))
        },
        Action::Capture => Effect::LocateCursor,
        Action::Add(p) => add_first_step(reg, p.hwnd),
        Action::Remove(p) => {
            let gone: Vec<isize> = vec![p.hwnd];
            reg.remove_matching(&gone);
            assert(gone@ =~= seq![p.hwnd]);
            Effect::Finished(Some(snapshot_reply(reg)))
        },
        Action::RemoveAll => {
            reg.clear();
            Effect::Finished(Some(snapshot_reply(reg)))
        },
        Action::Update(o) => {
            if reg.is_tracking() {
                Effect::Move(reg.placements(o.x, o.y))
            } else {
                Effect::Finished(None)
            }
        },
        Action::Refresh => {
            let started = reg.is_tracking();
            let hwnds = reg.handles();
            Effect::Finished(Some(Reply::State(StatePayload { started, hwnds })))
        },
    }
}

/// Continues the command in progress with the answer to the effect it asked for.
pub fn resume(reg: &mut Registry, a: Answer) -> (e: Effect)
    ensures
        (final(reg)@, e@) == resume_spec(old(reg)@, a@),
{
    match a {
        Answer::CursorWindow(None) => Effect::Finished(None),
        Answer::CursorWindow(Some(h)) => add_first_step(reg, h),
        Answer::RectRead(_, None) => Effect::Finished(None),
        Answer::RectRead(h, Some(r)) => {
            let w = WindowState { hwnd: h, init_x: r.left, init_y: r.top };
            if reg.upsert(w) {
                Effect::Finished(Some(snapshot_reply(reg)))
            } else {
                Effect::Finished(None)
            }
        },
        Answer::Moved(gone) => {
            let n = reg.remove_matching(&gone);
            if n > 0 {
                Effect::Finished(Some(snapshot_reply(reg)))
            } else {
                Effect::Finished(None)
            }
        },
    }
}

} // verus!
