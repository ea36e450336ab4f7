use vstd::prelude::*;

verus! {

/// A size in physical pixels.
#[derive(Debug, Copy, Clone, PartialEq, Eq, Structural)]
pub struct PhysicalSize {
    pub width: u32,
    pub height: u32,
}

/// A position in physical pixels.
#[derive(Debug, Copy, Clone, PartialEq, Eq, Structural)]
pub struct PhysicalPosition {
    pub x: i32,
    pub y: i32,
}

/// The mirrored state of a window: its identity and the geometry last observed for it.
/// The scale factor is kept as its binary64 bit pattern.
#[derive(Debug, Copy, Clone, PartialEq, Eq, Structural)]
pub struct WindowRef {
    pub id: u128,
    pub scale_factor: u64,
    pub inner_size: PhysicalSize,
    pub outer_position: PhysicalPosition,
}

/// A mirror of window `id` with all geometry at zero.
pub open spec fn blank_window_ref(id: u128) -> WindowRef {
    WindowRef {
        id,
        scale_factor: 0,
        inner_size: PhysicalSize { width: 0, height: 0 },
        outer_position: PhysicalPosition { x: 0, y: 0 },
    }
}

impl WindowRef {
    pub fn new(id: u128) -> (r: Self)
        ensures
            r == blank_window_ref(id),
    {
        WindowRef {
            id,
            scale_factor: 0,
            inner_size: PhysicalSize { width: 0, height: 0 },
            outer_position: PhysicalPosition { x: 0, y: 0 },
        }
    }

    /// The identity of the window.
    pub fn id(&self) -> (r: u128)
        ensures
            r == self.id,
    {
        self.id
    }

    pub fn scale_factor(&self) -> (r: u64)
        ensures
            r == self.scale_factor,
    {
        self.scale_factor
    }

    pub fn outer_position(&self) -> (r: PhysicalPosition)
        ensures
            r == self.outer_position,
    {
        self.outer_position
    }

    pub fn inner_size(&self) -> (r: PhysicalSize)
        ensures
            r == self.inner_size,
    {
        self.inner_size
    }

    pub fn set_inner_size(&mut self, size: PhysicalSize)
        ensures
            *final(self) == (WindowRef { inner_size: size, ..*old(self) }),
    {
        self.inner_size = size;
    }

    pub fn set_scale_factor(&mut self, scale_factor: u64)
        ensures
            *final(self) == (WindowRef { scale_factor, ..*old(self) }),
    {
        self.scale_factor = scale_factor;
    }

    pub fn set_outer_position(&mut self, position: PhysicalPosition)
        ensures
            *final(self) == (WindowRef { outer_position: position, ..*old(self) }),
    {
        self.outer_position = position;
    }
}

/// A native window just built, with what was read from it: its identity, scale factor
/// (as bits), inner size and, where the platform gives one, its outer position.
pub struct NativeWindow<W> {
    pub window: W,
    pub id: u128,
    pub scale_factor: u64,
    pub inner_size: PhysicalSize,
    pub outer_position: Option<PhysicalPosition>,
}

/// The mirror that a freshly built window starts with.
pub open spec fn initial_window_ref<W>(built: NativeWindow<W>) -> WindowRef {
    WindowRef {
        id: built.id,
        scale_factor: built.scale_factor,
        inner_size: built.inner_size,
        outer_position: match built.outer_position {
            Some(p) => p,
            None => PhysicalPosition { x: 0, y: 0 },
        },
    }
}

} // verus!
