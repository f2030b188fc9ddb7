//! The registry of tracked windows and the tracking flag.
use vstd::prelude::*;

verus! {

/// A tracked window and the position captured when it was added.
#[derive(Debug, Clone, Copy, PartialEq, Eq, Structural)]
pub struct WindowState {
    pub hwnd: isize,
    pub init_x: i32,
    pub init_y: i32,
}

/// Where one window is to be moved.
#[derive(Debug, Clone, Copy, PartialEq, Eq, Structural)]
pub struct Placement {
    pub hwnd: isize,
    pub x: i32,
    pub y: i32,
}

/// The mathematical value of a [`Registry`].
pub struct RegistryView {
    pub tracking: bool,
    pub windows: Seq<WindowState>,
}

/// The handles of `ws`, in order.
pub open spec fn handles_of(ws: Seq<WindowState>) -> Seq<isize> {
    ws.map_values(|w: WindowState| w.hwnd)
}

/// Some window of `ws` has handle `h`.
pub open spec fn tracks(ws: Seq<WindowState>, h: isize) -> bool {
    exists|i: int| 0 <= i < ws.len() && #[trigger] ws[i].hwnd == h
}

/// No two windows of `ws` share a handle.
pub open spec fn unique_handles(ws: Seq<WindowState>) -> bool {
    forall|i: int, j: int| 0 <= i < j < ws.len() ==> ws[i].hwnd != ws[j].hwnd
}

/// `ws` with `w` appended, unless its handle is tracked already.
pub open spec fn with_window(ws: Seq<WindowState>, w: WindowState) -> Seq<WindowState> {
    if tracks(ws, w.hwnd) {
        ws
    } else {
        ws.push(w)
    }
}

/// The window is not named in `gone`.
pub open spec fn stays(gone: Seq<isize>, w: WindowState) -> bool {
    !gone.contains(w.hwnd)
}

/// `ws` without the windows whose handle is in `gone`, order kept.
pub open spec fn without(ws: Seq<WindowState>, gone: Seq<isize>) -> Seq<WindowState> {
    ws.filter(|w: WindowState| stays(gone, w))
}

/// `r + d`, held to the range of `i32`.
pub open spec fn target(r: i32, d: i32) -> i32 {
    let s = r + d;
    if s > i32::MAX {
        i32::MAX
    } else if s < i32::MIN {
        i32::MIN
    } else {
        s as i32
    }
}

/// Where window `w` goes under offset `(dx, dy)`.
pub open spec fn placement_of(w: WindowState, dx: i32, dy: i32) -> Placement {
    Placement { hwnd: w.hwnd, x: target(w.init_x, dx), y: target(w.init_y, dy) }
}

/// The placement of every window of `ws` under offset `(dx, dy)`, in order.
pub open spec fn placements(ws: Seq<WindowState>, dx: i32, dy: i32) -> Seq<Placement> {
    ws.map_values(|w: WindowState| placement_of(w, dx, dy))
}

/// Adds `d` to the coordinate `r`, saturating at the bounds of `i32`.
pub fn offset_coordinate(r: i32, d: i32) -> (t: i32)
    ensures
        t == target(r, d),
{
    let s: i64 = r as i64 + d as i64;
    if s > i32::MAX as i64 {
        i32::MAX
    } else if s < i32::MIN as i64 {
        i32::MIN
    } else {
        s as i32
    }
}

/// Whether `h` is one of `hs`.
fn holds(hs: &Vec<isize>, h: isize) -> (r: bool)
    ensures
        r == hs@.contains(h),
{
    let mut i: usize = 0;
    while i < hs.len()
        invariant
            i <= hs.len(),
            forall|k: int| 0 <= k < i ==> hs@[k] != h,
        decreases hs.len() - i,
    {
        if hs[i] == h {
            return true;
        }
        i += 1;
    }
    false
}

/// The tracked windows, in insertion order, and whether tracking is active.
pub struct Registry {
    tracking: bool,
    windows: Vec<WindowState>,
}

impl View for Registry {
    type V = RegistryView;

    closed spec fn view(&self) -> RegistryView {
        RegistryView { tracking: self.tracking, windows: self.windows@ }
    }
}

impl Registry {
    #[verifier::type_invariant]
    spec fn inv(&self) -> bool {
        unique_handles(self.windows@)
    }

    /// An empty registry, tracking inactive.
    pub fn new() -> (r: Registry)
        ensures
            r@.tracking == false,
            r@.windows == Seq::<WindowState>::empty(),
    {
        Registry { tracking: false, windows: Vec::new() }
    }

    /// Whether offset updates take effect.
    pub fn is_tracking(&self) -> (r: bool)
        ensures
            r == self@.tracking,
    {
        self.tracking
    }

    /// Turns tracking on or off; the windows stay as they are.
    pub fn set_tracking(&mut self, on: bool)
        ensures
            final(self)@.tracking == on,
            final(self)@.windows == old(self)@.windows,
    {
        proof {
            use_type_invariant(&*self);
        }
        self.tracking = on;
    }

    /// Whether a window with handle `h` is tracked.
    pub fn contains(&self, h: isize) -> (r: bool)
        ensures
            r == tracks(self@.windows, h),
    {
        let mut i: usize = 0;
        while i < self.windows.len()
            invariant
                i <= self.windows@.len(),
                forall|k: int| 0 <= k < i ==> self.windows@[k].hwnd != h,
            decreases self.windows.len() - i,
        {
            if self.windows[i].hwnd == h {
                return true;
            }
            i += 1;
        }
        false
    }

    /// Appends `w` unless its handle is tracked already; says whether it did.
    pub fn upsert(&mut self, w: WindowState) -> (inserted: bool)
        ensures
            inserted == !tracks(old(self)@.windows, w.hwnd),
            final(self)@.windows == with_window(old(self)@.windows, w),
            final(self)@.tracking == old(self)@.tracking,
    {
        proof {
            use_type_invariant(&*self);
        }
        if self.contains(w.hwnd) {
            return false;
        }
        let mut ws: Vec<WindowState> = Vec::new();
        std::mem::swap(&mut ws, &mut self.windows);
        let ghost before = ws@;
        ws.push(w);
        assert forall|i: int, j: int| 0 <= i < j < ws@.len() implies ws@[i].hwnd != ws@[j].hwnd by {
            if j == ws@.len() - 1 {
                assert(before[i].hwnd != w.hwnd);
            } else {
                assert(ws@[i] == before[i] && ws@[j] == before[j]);
            }
        }
        self.windows = ws;
        true
    }

    /// Removes every window whose handle is in `gone`; returns how many went.
    pub fn remove_matching(&mut self, gone: &Vec<isize>) -> (n: usize)
        ensures
            final(self)@.windows == without(old(self)@.windows, gone@),
            n == old(self)@.windows.len() - final(self)@.windows.len(),
            final(self)@.tracking == old(self)@.tracking,
    {
        proof {
            use_type_invariant(&*self);
        }
        let ghost ws = self.windows@;
        let ghost keep = |w: WindowState| stays(gone@, w);
        let mut kept: Vec<WindowState> = Vec::new();
        let mut i: usize = 0;
        while i < self.windows.len()
            invariant
                i <= ws.len(),
                ws == self.windows@,
                unique_handles(ws),
                keep == (|w: WindowState| stays(gone@, w)),
                kept@ == ws.take(i as int).filter(keep),
                kept@.len() <= i,
                unique_handles(kept@),
                forall|k: int| 0 <= k < kept@.len() ==> ws.take(i as int).contains(#[trigger] kept@[k]),
            decreases self.windows.len() - i,
        {
            let w = self.windows[i];
            proof {
                assert(ws.take(i + 1).drop_last() =~= ws.take(i as int));
                reveal_with_fuel(Seq::filter, 1);
            }
            if !holds(gone, w.hwnd) {
                let ghost prev = kept@;
                proof {
                    assert forall|k: int| 0 <= k < prev.len() implies prev[k].hwnd != w.hwnd by {
                        assert(ws.take(i as int).contains(prev[k]));
                        let j = choose|j: int| 0 <= j < i && ws.take(i as int)[j] == prev[k];
                        assert(ws[j] == prev[k]);
                    }
                }
                kept.push(w);
                proof {
                    assert forall|k: int| 0 <= k < kept@.len() implies ws.take(i + 1).contains(
                        #[trigger] kept@[k],
                    ) by {
                        if k == kept@.len() - 1 {
                            assert(ws.take(i + 1)[i as int] == w);
                        } else {
                            assert(kept@[k] == prev[k]);
                            assert(ws.take(i as int).contains(prev[k]));
                            let j = choose|j: int| 0 <= j < i && ws.take(i as int)[j] == prev[k];
                            assert(ws.take(i + 1)[j] == prev[k]);
                        }
                    }
                    assert forall|a: int, b: int| 0 <= a < b < kept@.len() implies kept@[a].hwnd
                        != kept@[b].hwnd by {
                        if b == kept@.len() - 1 {
                            assert(kept@[a] == prev[a]);
                        } else {
                            assert(kept@[a] == prev[a] && kept@[b] == prev[b]);
                        }
                    }
                }
            } else {
                proof {
                    assert forall|k: int| 0 <= k < kept@.len() implies ws.take(i + 1).contains(
                        #[trigger] kept@[k],
                    ) by {
                        assert(ws.take(i as int).contains(kept@[k]));
                        let j = choose|j: int| 0 <= j < i && ws.take(i as int)[j] == kept@[k];
                        assert(ws.take(i + 1)[j] == kept@[k]);
                    }
                }
            }
            i += 1;
        }
        proof {
            assert(ws.take(ws.len() as int) =~= ws);
        }
        let n = self.windows.len() - kept.len();
        self.windows = kept;
        n
    }

    /// Removes every window.
    pub fn clear(&mut self)
        ensures
            final(self)@.windows == Seq::<WindowState>::empty(),
            final(self)@.tracking == old(self)@.tracking,
    {
        self.windows = Vec::new();
    }

    /// The tracked handles, in insertion order.
    pub fn handles(&self) -> (r: Vec<isize>)
        ensures
            r@ == handles_of(self@.windows),
    {
        let mut r: Vec<isize> = Vec::new();
        let mut i: usize = 0;
        while i < self.windows.len()
            invariant
                i <= self.windows@.len(),
                r@.len() == i,
                forall|k: int| 0 <= k < i ==> r@[k] == self.windows@[k].hwnd,
            decreases self.windows.len() - i,
        {
            r.push(self.windows[i].hwnd);
            i += 1;
        }
        assert(r@ =~= handles_of(self.windows@));
        r
    }

    /// Where each window goes under offset `(dx, dy)`, in order.
    pub fn placements(&self, dx: i32, dy: i32) -> (r: Vec<Placement>)
        ensures
            r@ == placements(self@.windows, dx, dy),
    {
        let mut r: Vec<Placement> = Vec::new();
        let mut i: usize = 0;
        while i < self.windows.len()
            invariant
                i <= self.windows@.len(),
                r@.len() == i,
                forall|k: int| 0 <= k < i ==> r@[k] == placement_of(self.windows@[k], dx, dy),
            decreases self.windows.len() - i,
        {
            let w = self.windows[i];
            let p = Placement {
                hwnd: w.hwnd,
                x: offset_coordinate(w.init_x, dx),
                y: offset_coordinate(w.init_y, dy),
            };
            r.push(p);
            i += 1;
        }
        assert(r@ =~= placements(self.windows@, dx, dy));
        r
    }
}

} // verus!
