//! Properties of command sequences, stated over the processor's specification.
use vstd::prelude::*;
use crate::processor::{AnswerView, EffectView, Rect, process_spec, resume_spec, snapshot};
use crate::protocol::{Action, HwndPayload, ReplyView, UpdatePayload};
use crate::registry::{
    Placement,
    RegistryView,
    WindowState,
    handles_of,
    placements,
    stays,
    target,
    tracks,
    unique_handles,
    without,
};

verus! {

/// Removing the handles of an empty list keeps every window.
proof fn lemma_without_nothing(ws: Seq<WindowState>, gone: Seq<isize>)
    requires
        gone.len() == 0,
    ensures
        without(ws, gone) == ws,
    decreases ws.len(),
{
    reveal_with_fuel(Seq::filter, 1);
    if ws.len() > 0 {
        lemma_without_nothing(ws.drop_last(), gone);
        assert(ws.drop_last().push(ws.last()) =~= ws);
    }
}

/// A window stays exactly when it was there and its handle is not in `gone`;
/// fewer windows remain exactly when some window's handle is in `gone`.
proof fn lemma_without_members(ws: Seq<WindowState>, gone: Seq<isize>)
    ensures
        forall|w: WindowState|
            #[trigger] without(ws, gone).contains(w) <==> (ws.contains(w) && !gone.contains(
                w.hwnd,
            )),
        without(ws, gone).len() < ws.len() <==> exists|i: int|
            0 <= i < ws.len() && gone.contains(#[trigger] ws[i].hwnd),
        without(ws, gone).len() <= ws.len(),
    decreases ws.len(),
{
    broadcast use vstd::seq_lib::group_filter_ensures;

    reveal_with_fuel(Seq::filter, 1);
    let keep = |w: WindowState| stays(gone, w);
    assert forall|w: WindowState| #[trigger]
        without(ws, gone).contains(w) <==> (ws.contains(w) && !gone.contains(w.hwnd)) by {
        if without(ws, gone).contains(w) {
            ws.lemma_filter_contains_rev(keep, w);
            let k = choose|k: int| 0 <= k < without(ws, gone).len() && without(ws, gone)[k] == w;
            ws.lemma_filter_pred(keep, k);
        }
        if ws.contains(w) && !gone.contains(w.hwnd) {
            let i = choose|i: int| 0 <= i < ws.len() && ws[i] == w;
            ws.lemma_filter_contains(keep, i);
        }
    }
    if ws.len() > 0 {
        let rest = ws.drop_last();
        lemma_without_members(rest, gone);
        if exists|i: int| 0 <= i < rest.len() && gone.contains(#[trigger] rest[i].hwnd) {
            let i = choose|i: int| 0 <= i < rest.len() && gone.contains(#[trigger] rest[i].hwnd);
            assert(gone.contains(ws[i].hwnd));
        }
        if exists|i: int| 0 <= i < ws.len() && gone.contains(#[trigger] ws[i].hwnd) {
            let i = choose|i: int| 0 <= i < ws.len() && gone.contains(#[trigger] ws[i].hwnd);
            if i < ws.len() - 1 {
                assert(gone.contains(rest[i].hwnd));
            }
        }
    }
}

/// Adding the same window twice leaves exactly one entry for it: once the first
/// add has found the window, the second one asks for nothing and changes nothing.
pub proof fn lemma_add_idempotent(m: RegistryView, h: isize, r: Rect)
    requires
        unique_handles(m.windows),
    ensures
        ({
            let add = Action::Add(HwndPayload { hwnd: h });
            let (m1, e1) = process_spec(m, add);
            let m2 = if e1 == EffectView::ReadRect(h) {
                resume_spec(m1, AnswerView::RectRead(h, Some(r))).0
            } else {
                m1
            };
            &&& tracks(m2.windows, h)
            &&& unique_handles(m2.windows)
            &&& process_spec(m2, add) == (m2, EffectView::Finished(None))
        }),
{
    let ws = m.windows;
    if !tracks(ws, h) {
        let w = WindowState { hwnd: h, init_x: r.left, init_y: r.top };
        let ws2 = ws.push(w);
        assert(ws2[ws.len() as int].hwnd == h);
        assert forall|i: int, j: int| 0 <= i < j < ws2.len() implies ws2[i].hwnd != ws2[j].hwnd by {
            if j == ws.len() {
                assert(ws[i].hwnd != h);
            }
        }
    }
}

/// Offsets are not cumulative: whatever update came before, and whichever windows
/// it lost, the next update asks each remaining window to go to its reference
/// position plus the new offset, and the references are still the captured ones.
pub proof fn lemma_offsets_absolute(
    m: RegistryView,
    first: UpdatePayload,
    gone: Seq<isize>,
    next: UpdatePayload,
)
    requires
        m.tracking,
    ensures
        ({
            let (m1, e1) = process_spec(m, Action::Update(first));
            let m2 = resume_spec(m1, AnswerView::Moved(gone)).0;
            let (m3, e3) = process_spec(m2, Action::Update(next));
            &&& e1 == EffectView::Move(placements(m.windows, first.x, first.y))
            &&& m3 == m2
            &&& e3 == EffectView::Move(placements(m2.windows, next.x, next.y))
            &&& placements(m2.windows, next.x, next.y).len() == m2.windows.len()
            &&& forall|i: int|
                #![trigger m2.windows[i]]
                0 <= i < m2.windows.len() ==> {
                    let w = m2.windows[i];
                    let p = placements(m2.windows, next.x, next.y)[i];
                    &&& p == Placement {
                        hwnd: w.hwnd,
                        x: target(w.init_x, next.x),
                        y: target(w.init_y, next.y),
                    }
                    &&& i32::MIN <= w.init_x + next.x <= i32::MAX ==> p.x == w.init_x + next.x
                    &&& i32::MIN <= w.init_y + next.y <= i32::MAX ==> p.y == w.init_y + next.y
                    &&& m.windows.contains(w)
                }
            &&& gone.len() == 0 ==> m2 == m
        }),
{
    lemma_without_members(m.windows, gone);
    let m2 = resume_spec(m, AnswerView::Moved(gone)).0;
    assert forall|i: int| 0 <= i < m2.windows.len() implies m.windows.contains(
        #[trigger] m2.windows[i],
    ) by {
        assert(without(m.windows, gone).contains(m2.windows[i]));
    }
    if gone.len() == 0 {
        lemma_without_nothing(m.windows, gone);
    }
}

/// While tracking is inactive an update asks for no move and publishes nothing.
pub proof fn lemma_idle_update(m: RegistryView, o: UpdatePayload)
    requires
        !m.tracking,
    ensures
        process_spec(m, Action::Update(o)) == (m, EffectView::Finished(None)),
{
}

/// After the moves of an update, exactly the windows reported gone leave, the
/// others keep their order and references, and one snapshot of the survivors is
/// published exactly when some tracked window was lost.
pub proof fn lemma_failure_isolation(m: RegistryView, gone: Seq<isize>)
    ensures
        ({
            let (m1, e) = resume_spec(m, AnswerView::Moved(gone));
            &&& m1.tracking == m.tracking
            &&& m1.windows == without(m.windows, gone)
            &&& forall|w: WindowState|
                #[trigger] m1.windows.contains(w) <==> (m.windows.contains(w) && !gone.contains(
                    w.hwnd,
                ))
            &&& (exists|i: int| 0 <= i < m.windows.len() && gone.contains(#[trigger] m.windows[i].hwnd))
                ==> e == EffectView::Finished(Some(snapshot(m1.windows)))
            &&& !(exists|i: int| 0 <= i < m.windows.len() && gone.contains(#[trigger] m.windows[i].hwnd))
                ==> e == EffectView::Finished(None)
        }),
{
    lemma_without_members(m.windows, gone);
}

/// Commands take effect in the order they are processed: start, add a window,
/// update, then remove that window leaves tracking on and nothing tracked,
/// whatever the windowing system answered along the way.
pub proof fn lemma_processing_order(h: isize, rect: Option<Rect>, gone: Seq<isize>)
    ensures
        ({
            let m0 = RegistryView { tracking: false, windows: Seq::empty() };
            let m1 = process_spec(m0, Action::Start).0;
            let (m2, e2) = process_spec(m1, Action::Add(HwndPayload { hwnd: h }));
            let m3 = resume_spec(m2, AnswerView::RectRead(h, rect)).0;
            let (m4, e4) = process_spec(m3, Action::Update(UpdatePayload { x: 5, y: 5 }));
            let m5 = resume_spec(m4, AnswerView::Moved(gone)).0;
            let m6 = process_spec(m5, Action::Remove(HwndPayload { hwnd: h })).0;
            &&& e2 == EffectView::ReadRect(h)
            &&& e4 == EffectView::Move(placements(m3.windows, 5, 5))
            &&& m6.tracking
            &&& m6.windows.len() == 0
        }),
{
    let m0 = RegistryView { tracking: false, windows: Seq::<WindowState>::empty() };
    let m1 = process_spec(m0, Action::Start).0;
    let m2 = process_spec(m1, Action::Add(HwndPayload { hwnd: h })).0;
    let m3 = resume_spec(m2, AnswerView::RectRead(h, rect)).0;
    let m5 = resume_spec(m3, AnswerView::Moved(gone)).0;
    lemma_without_members(m3.windows, gone);
    let ws = without(m5.windows, seq![h]);
    lemma_without_members(m5.windows, seq![h]);
    assert(forall|i: int| 0 <= i < m3.windows.len() ==> m3.windows[i].hwnd == h);
    assert forall|i: int| 0 <= i < m5.windows.len() implies #[trigger] m5.windows[i].hwnd == h by {
        assert(m5.windows.contains(m5.windows[i]));
    }
    if ws.len() > 0 {
        assert(ws.contains(ws[0]));
        assert(m5.windows.contains(ws[0]));
        assert(seq![h][0] == h);
    }
}

/// Refresh changes nothing, so two refreshes in a row publish the same state.
pub proof fn lemma_refresh_pure(m: RegistryView)
    ensures
        ({
            let (m1, e1) = process_spec(m, Action::Refresh);
            let (m2, e2) = process_spec(m1, Action::Refresh);
            &&& m1 == m
            &&& m2 == m
            &&& e1 == e2
            &&& e1 == EffectView::Finished(
                Some(ReplyView::State(m.tracking, handles_of(m.windows))),
            )
        }),
{
}

} // verus!
