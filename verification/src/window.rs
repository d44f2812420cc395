//! The compositor's window table: each window is named by a generational
//! handle, remembers the size it was configured to, and is found again by
//! the id of its toplevel surface.

use vstd::prelude::*;
use crate::gen_vec::{GenHandle, GenVec};

verus! {

/// Names a window of the `WindowManager`.
pub type WindowHandle = GenHandle;

/// Names a client process.
pub type ProcessHandle = GenHandle;

/// The window table.
pub type WindowVec = GenVec<Window>;

/// A toplevel window: its configured size, whether it is shown, the id of
/// its toplevel surface and the process that owns it. Sending the configure
/// event to the surface is the caller's part of `set_size`.
#[derive(Clone, Copy, Debug, PartialEq, Eq, Structural)]
pub struct Window {
    pub size_x: u32,
    pub size_y: u32,
    pub visible: bool,
    pub toplevel: u64,
    pub process: ProcessHandle,
}

impl Window {
    fn new(toplevel: u64, process: ProcessHandle) -> (w: Self)
        ensures
            w == (Window { size_x: 0, size_y: 0, visible: true, toplevel, process }),
    {
        Window { size_x: 0, size_y: 0, visible: true, toplevel, process }
    }

    /// Records the size the window is configured to.
    pub fn set_size(&mut self, size_x: u32, size_y: u32)
        ensures
            *final(self) == (Window { size_x, size_y, ..*old(self) }),
    {
        self.size_x = size_x;
        self.size_y = size_y;
    }
}

/// Which window the pointer is over, and where.
#[derive(Clone, Copy, Debug, PartialEq, Eq, Structural)]
pub struct MouseState {
    pub hover_window: WindowHandle,
    pub x: u32,
    pub y: u32,
}

pub struct WindowManager {
    pub windows: WindowVec,
    pub mouse: Option<MouseState>,
}

impl WindowManager {
    pub fn new() -> (m: Self)
        ensures
            m.windows@ == Map::<WindowHandle, Window>::empty(),
            m.windows.slot_count() == 0,
            m.windows.generation_counter() == 0,
            m.mouse is None,
    {
        WindowManager { windows: GenVec::new(), mouse: None }
    }

    /// The handle of the window whose toplevel surface is `toplevel`; when
    /// several are, the one in the lowest slot.
    pub fn find_window_handle(&self, toplevel: u64) -> (r: Option<WindowHandle>)
        ensures
            match r {
                Some(h) => {
                    &&& self.windows@.dom().contains(h)
                    &&& self.windows@[h].toplevel == toplevel
                    &&& forall|g: WindowHandle|
                        #[trigger] self.windows@.dom().contains(g) && self.windows@[g].toplevel
                            == toplevel ==> h.idx <= g.idx
                },
                None => forall|g: WindowHandle|
                    #[trigger] self.windows@.dom().contains(g) ==> self.windows@[g].toplevel
                        != toplevel,
            },
    {
        let n = self.windows.len();
        let mut idx: usize = 0;
        while idx < n
            invariant
                n == self.windows.slot_count(),
                idx <= n,
                forall|g: WindowHandle|
                    #[trigger] self.windows@.dom().contains(g) && g.idx < idx
                        ==> self.windows@[g].toplevel != toplevel,
            decreases n - idx,
        {
            match self.windows.slot(idx) {
                Some((h, w)) => {
                    if w.toplevel == toplevel {
                        return Some(h);
                    }
                    proof {
                        assert forall|g: WindowHandle|
                            #[trigger] self.windows@.dom().contains(g) && g.idx < idx + 1
                                implies self.windows@[g].toplevel != toplevel by {
                            if g.idx == idx {
                                self.windows.lemma_one_handle_per_slot(g, h);
                            }
                        }
                    }
                },
                None => {},
            }
            idx = idx + 1;
        }
        proof {
            assert forall|g: WindowHandle| #[trigger] self.windows@.dom().contains(g) implies self.windows@[
                g
            ].toplevel != toplevel by {
                self.windows.lemma_live_handles_issued();
            }
        }
        None
    }

    /// Adds a window for `toplevel`, owned by `process`, configured to the
    /// given size; returns its handle.
    pub fn create_window(&mut self, toplevel: u64, process: ProcessHandle, size_x: u32, size_y: u32) -> (h: WindowHandle)
        requires
            old(self).windows.generation_counter() < u64::MAX,
            old(self).windows.slot_count() < u32::MAX,
        ensures
            !old(self).windows@.dom().contains(h),
            h.generation == old(self).windows.generation_counter() + 1,
            final(self).windows@ == old(self).windows@.insert(
                h,
                Window { size_x, size_y, visible: true, toplevel, process },
            ),
            final(self).windows.generation_counter() == h.generation,
            final(self).windows.slot_count() <= old(self).windows.slot_count() + 1,
            final(self).mouse == old(self).mouse,
    {
        let mut window = Window::new(toplevel, process);
        window.set_size(size_x, size_y);
        self.windows.add(window)
    }

    /// Removes the window `window_handle` names; a stale handle changes
    /// nothing.
    pub fn remove_window(&mut self, window_handle: WindowHandle)
        ensures
            final(self).windows@ == old(self).windows@.remove(window_handle),
            final(self).windows.generation_counter() == old(self).windows.generation_counter(),
            final(self).windows.slot_count() == old(self).windows.slot_count(),
            final(self).mouse == old(self).mouse,
    {
        self.windows.remove(&window_handle);
    }
}

} // verus!
