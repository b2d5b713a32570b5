use vstd::prelude::*;

verus! {

/// The frame buffer's size and the part of it a player should see.
#[derive(Clone, Copy, PartialEq, Eq, Structural)]
pub struct DisplayWindow {
    pub buffer_width: i32,
    pub buffer_height: i32,
    pub visible_x: i32,
    pub visible_y: i32,
    pub visible_width: i32,
    pub visible_height: i32,
}

impl DisplayWindow {
    /// The whole 256 x 240 picture.
    pub fn new() -> (r: Self)
        ensures
            r == (DisplayWindow {
                buffer_width: 256,
                buffer_height: 240,
                visible_x: 0,
                visible_y: 0,
                visible_width: 256,
                visible_height: 240,
            }),
    {
        DisplayWindow {
            buffer_width: 256,
            buffer_height: 240,
            visible_x: 0,
            visible_y: 0,
            visible_width: 256,
            visible_height: 240,
        }
    }

    /// Shows the raw signal, edges and all.
    pub fn set_mode_overscan(&mut self)
        ensures
            *final(self) == (DisplayWindow { visible_x: 0, visible_y: 0, visible_width: 256, visible_height: 240, ..*old(self) }),
    {
        self.visible_x = 0;
        self.visible_y = 0;
        self.visible_width = 256;
        self.visible_height = 240;
    }

    /// A television's crop: eight pixels off each edge.
    pub fn set_mode_cropped_ntsc(&mut self)
        ensures
            *final(self) == (DisplayWindow { visible_x: 8, visible_y: 8, visible_width: 240, visible_height: 224, ..*old(self) }),
    {
        self.visible_x = 8;
        self.visible_y = 8;
        self.visible_width = 240;
        self.visible_height = 224;
    }
}

} // verus!
