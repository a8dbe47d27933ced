use vstd::prelude::*;

verus! {

/// Horizontal position a window is created at when the builder was given
/// none.
pub const DEFAULT_POS_X: i32 = 100;

/// Vertical position a window is created at when the builder was given none.
pub const DEFAULT_POS_Y: i32 = 100;

/// The immutable creation parameters of a window, assembled once by the
/// builder and consumed exactly once at creation.
pub struct WindowInfo {
    pub title: String,
    pub width: u32,
    pub height: u32,
    pub x: i32,
    pub y: i32,
}

impl WindowInfo {
    /// Start building creation parameters; title and extent are required,
    /// the position stays unset until `pos` supplies one.
    pub fn builder(title: &str, width: u32, height: u32) -> (b: WindowInfoBuilder)
        ensures
            b.title@ == title@,
            b.width == width,
            b.height == height,
            b.x is None,
            b.y is None,
    {
        WindowInfoBuilder::new(title, width, height)
    }
}

/// Builder for `WindowInfo`: pure data assembly that never fails.
pub struct WindowInfoBuilder {
    pub title: String,
    pub width: u32,
    pub height: u32,
    pub x: Option<i32>,
    pub y: Option<i32>,
}

impl WindowInfoBuilder {
    /// A builder with the required fields set and the position unset.
    pub fn new(title: &str, width: u32, height: u32) -> (b: Self)
        ensures
            b.title@ == title@,
            b.width == width,
            b.height == height,
            b.x is None,
            b.y is None,
    {
        Self { title: title.to_owned(), width, height, x: None, y: None }
    }

    /// Set the position the window is created at.
    pub fn pos(self, x: i32, y: i32) -> (b: Self)
        ensures
            b.title == self.title,
            b.width == self.width,
            b.height == self.height,
            b.x == Some(x),
            b.y == Some(y),
    {
        Self { x: Some(x), y: Some(y), ..self }
    }

    /// The position `build` resolves: the one that was set, or the
    /// documented default.
    pub open spec fn spec_resolved_x(self) -> i32 {
        match self.x {
            Some(x) => x,
            None => DEFAULT_POS_X,
        }
    }

    /// The vertical counterpart of `spec_resolved_x`.
    pub open spec fn spec_resolved_y(self) -> i32 {
        match self.y {
            Some(y) => y,
            None => DEFAULT_POS_Y,
        }
    }

    /// Assemble the creation parameters. Always succeeds; an unset position
    /// resolves to the documented default rather than failing.
    pub fn build(self) -> (info: WindowInfo)
        ensures
            info.title == self.title,
            info.width == self.width,
            info.height == self.height,
            info.x == self.spec_resolved_x(),
            info.y == self.spec_resolved_y(),
    {
        let x: i32 = match self.x {
            Some(x) => x,
            None => DEFAULT_POS_X,
        };
        let y: i32 = match self.y {
            Some(y) => y,
            None => DEFAULT_POS_Y,
        };
        WindowInfo { title: self.title, width: self.width, height: self.height, x, y }
    }
}

} // verus!
