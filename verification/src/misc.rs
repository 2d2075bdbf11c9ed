//! Images and cursors.

use vstd::prelude::*;

use crate::enums::StandardCursorShape;
use crate::Error;
use crate::GLFWcursor;
use crate::Glfw;
use crate::NativeAction;
use crate::ReentranceAvoidanceCommand;

verus! {

/// One image pixel, four channels of eight bits.
#[derive(Clone, Copy, PartialEq, Eq, Structural, Debug)]
pub struct Pixel {
    pub red: u8,
    pub green: u8,
    pub blue: u8,
    pub alpha: u8,
}

/// A cursor image: `width * height` pixels in row-major order.
#[derive(Clone, PartialEq, Eq, Debug)]
pub struct Image {
    pub pixels: Vec<Pixel>,
    pub width: i32,
    pub height: i32,
}

impl Image {
    /// The pixel buffer matches the stated dimensions.
    pub open spec fn wf(self) -> bool {
        &&& 0 <= self.width
        &&& 0 <= self.height
        &&& self.pixels@.len() == self.width * self.height
    }

    /// A fully transparent black image of the given dimensions.
    pub fn new(width: i32, height: i32) -> (r: Image)
        requires
            0 <= width,
            0 <= height,
            width * height <= usize::MAX,
        ensures
            r.wf(),
            r.width == width,
            r.height == height,
            forall|i: int|
                0 <= i < r.pixels@.len() ==> r.pixels@[i] == (Pixel {
                    red: 0u8,
                    green: 0u8,
                    blue: 0u8,
                    alpha: 0u8,
                }),
    {
        proof {
            assert((width as usize as int) * (height as usize as int) == (width as int) * (
            height as int));
        }
        let n: usize = (width as usize) * (height as usize);
        let mut pixels: Vec<Pixel> = Vec::new();
        let mut i: usize = 0;
        while i < n
            invariant
                i <= n,
                pixels@.len() == i,
                forall|j: int|
                    0 <= j < i ==> pixels@[j] == (Pixel {
                        red: 0u8,
                        green: 0u8,
                        blue: 0u8,
                        alpha: 0u8,
                    }),
            decreases n - i,
        {
            pixels.push(Pixel { red: 0, green: 0, blue: 0, alpha: 0 });
            i = i + 1;
        }
        Image { pixels, width, height }
    }

    /// Reads the pixel at column `x` of row `y`.
    pub fn pixel(&self, x: usize, y: usize) -> (r: Pixel)
        requires
            self.wf(),
            x < self.width,
            y < self.height,
        ensures
            r == self.pixels@[y * self.width + x],
    {
        let len = self.pixels.len();
        proof {
            assert((y as int) * (self.width as int) + (x as int) < (self.width as int) * (
            self.height as int)) by (nonlinear_arith)
                requires
                    0 <= x < self.width,
                    0 <= y < self.height,
            ;
        }
        let index: usize = y * (self.width as usize) + x;
        self.pixels[index]
    }

    /// Replaces the pixel at column `x` of row `y`; nothing else changes.
    pub fn set_pixel(&mut self, x: usize, y: usize, pixel: Pixel)
        requires
            old(self).wf(),
            x < old(self).width,
            y < old(self).height,
        ensures
            final(self).wf(),
            final(self).width == old(self).width,
            final(self).height == old(self).height,
            final(self).pixels@ == old(self).pixels@.update(
                y * old(self).width + x,
                pixel,
            ),
    {
        let len = self.pixels.len();
        proof {
            assert((y as int) * (self.width as int) + (x as int) < (self.width as int) * (
            self.height as int)) by (nonlinear_arith)
                requires
                    0 <= x < self.width,
                    0 <= y < self.height,
            ;
        }
        let index: usize = y * (self.width as usize) + x;
        self.pixels.set(index, pixel);
    }
}

/// One entry of the session's cursor table.
#[derive(Clone, Copy, PartialEq, Eq, Structural, Debug)]
pub struct CursorRecord {
    /// The native handle, fixed for the record's whole life.
    pub handle: GLFWcursor,
    /// False once the native cursor has actually been destroyed.
    pub alive: bool,
}

/// The owning handle to one cursor of the session.
#[derive(Clone, Copy, PartialEq, Eq, Structural, Debug)]
pub struct Cursor {
    /// Index of the cursor's record in the session's table.
    pub id: usize,
}

/// The cursor table after record `i`'s native cursor is destroyed.
pub open spec fn spec_cursor_destroyed(cs: Seq<CursorRecord>, i: int) -> Seq<CursorRecord> {
    cs.update(i, CursorRecord { alive: false, ..cs[i] })
}

impl Glfw {
    /// The handle names a live record of this session's cursor table.
    pub open spec fn cursor_ok(self, id: int) -> bool {
        0 <= id < self.cursors@.len() && self.cursors@[id].alive
    }

    /// Creates a cursor from an image.  The runner performs the native
    /// creation call and reports its outcome through `native`; on success
    /// the session records the new handle, on failure it is unchanged.
    pub fn create_cursor(
        &mut self,
        image: &Image,
        xhot: i32,
        yhot: i32,
        native: Result<GLFWcursor, Error>,
    ) -> (r: Result<Cursor, Error>)
        requires
            old(self).wf(),
            image.wf(),
        ensures
            final(self).wf(),
            final(self).monitors.entries@ == old(self).monitors.entries@,
            final(self).windows@ == old(self).windows@,
            final(self).processing_events == old(self).processing_events,
            final(self).deferred@ == old(self).deferred@,
            final(self).monitor_callback == old(self).monitor_callback,
            final(self).joystick_callback == old(self).joystick_callback,
            match native {
                Ok(h) => {
                    &&& r matches Ok(c) && c.id == old(self).cursors@.len()
                    &&& final(self).cursors@ == old(self).cursors@.push(
                        (CursorRecord { handle: h, alive: true }),
                    )
                },
                Err(e) => {
                    &&& r matches Err(e2) && e2 == e
                    &&& final(self).cursors@ == old(self).cursors@
                },
            },
    {
        match native {
            Ok(handle) => {
                let id = self.cursors.len();
                self.cursors.push(CursorRecord { handle, alive: true });
                Ok(Cursor { id })
            },
            Err(e) => Err(e),
        }
    }

    /// Creates one of the native library's standard cursors; the same
    /// record-keeping as [`Glfw::create_cursor`].
    pub fn create_standard_cursor(
        &mut self,
        shape: StandardCursorShape,
        native: Result<GLFWcursor, Error>,
    ) -> (r: Result<Cursor, Error>)
        requires
            old(self).wf(),
        ensures
            final(self).wf(),
            final(self).monitors.entries@ == old(self).monitors.entries@,
            final(self).windows@ == old(self).windows@,
            final(self).processing_events == old(self).processing_events,
            final(self).deferred@ == old(self).deferred@,
            final(self).monitor_callback == old(self).monitor_callback,
            final(self).joystick_callback == old(self).joystick_callback,
            match native {
                Ok(h) => {
                    &&& r matches Ok(c) && c.id == old(self).cursors@.len()
                    &&& final(self).cursors@ == old(self).cursors@.push(
                        (CursorRecord { handle: h, alive: true }),
                    )
                },
                Err(e) => {
                    &&& r matches Err(e2) && e2 == e
                    &&& final(self).cursors@ == old(self).cursors@
                },
            },
    {
        match native {
            Ok(handle) => {
                let id = self.cursors.len();
                self.cursors.push(CursorRecord { handle, alive: true });
                Ok(Cursor { id })
            },
            Err(e) => Err(e),
        }
    }

    /// Requests destruction of a cursor.  Inside event processing the real
    /// destruction is deferred — cursors have no visible state, so nothing
    /// is hidden — and the record stays alive until the queue is drained;
    /// outside event processing it is destroyed at once.
    pub fn destroy_cursor(&mut self, cursor: Cursor) -> (act: Option<NativeAction>)
        requires
            old(self).wf(),
            old(self).cursor_ok(cursor.id as int),
        ensures
            final(self).wf(),
            final(self).monitors.entries@ == old(self).monitors.entries@,
            final(self).windows@ == old(self).windows@,
            final(self).processing_events == old(self).processing_events,
            final(self).monitor_callback == old(self).monitor_callback,
            final(self).joystick_callback == old(self).joystick_callback,
            old(self).processing_events ==> {
                &&& final(self).cursors@ == old(self).cursors@
                &&& final(self).deferred@ == old(self).deferred@.push(
                    ReentranceAvoidanceCommand::DestroyCursor(cursor.id),
                )
                &&& act is None
            },
            !old(self).processing_events ==> {
                &&& final(self).cursors@ == spec_cursor_destroyed(
                    old(self).cursors@,
                    cursor.id as int,
                )
                &&& final(self).deferred@ == old(self).deferred@
                &&& act == Some(
                    NativeAction::DestroyCursor(old(self).cursors@[cursor.id as int].handle),
                )
            },
    {
        let rec = self.cursors[cursor.id];
        if self.processing_events {
            self.deferred.push(ReentranceAvoidanceCommand::DestroyCursor(cursor.id));
            proof {
                crate::lemma_cmds_in_range_push(
                    old(self).deferred@,
                    ReentranceAvoidanceCommand::DestroyCursor(cursor.id),
                    old(self).windows@.len() as int,
                    old(self).cursors@.len() as int,
                );
            }
            None
        } else {
            self.cursors.set(cursor.id, CursorRecord { alive: false, ..rec });
            Some(NativeAction::DestroyCursor(rec.handle))
        }
    }
}

} // verus!
