//! The GUI bridge: the state behind the tile palette and what each frame
//! hands to the immediate-mode GUI.

use vstd::prelude::*;
use crate::mouse::{MouseInput, MouseState};

verus! {

/// Title of the palette window.
pub const PALETTE_TITLE: &'static str = "Tiles";

/// Width of the palette window when it first appears, in pixels.
pub const PALETTE_WIDTH: u32 = 150;

/// The palette window first appears this many times lower than the drawable
/// area is high.
pub const PALETTE_HEIGHT_DIVISOR: u32 = 25;

/// Side of one tile button, in pixels.
pub const TILE_BUTTON_SIDE: u32 = 10;

/// The id under which the GUI renderer's texture table keeps a texture: an
/// opaque handle of the `imgui` crate, carried through unread.
#[verifier::external_type_specification]
#[verifier::external_body]
pub struct ExTextureId(imgui::TextureId);

/// How the palette window is declared. Place and size hold from the moment
/// the window first appears; the user may move and resize it afterwards.
#[derive(Clone, Copy, Debug, PartialEq, Eq)]
pub struct PaletteWindow {
    /// The window's title.
    pub title: &'static str,
    /// Where the window's top left corner is put, in pixels.
    pub position: (u32, u32),
    /// The window's width, in pixels.
    pub width: u32,
    /// The window is this many times lower than the drawable area is high.
    pub height_divisor: u32,
    /// Whether the user may move the window.
    pub movable: bool,
    /// Whether the user may resize the window.
    pub resizable: bool,
    /// Side of each tile button, in pixels.
    pub button_side: u32,
}

/// The palette window as every frame declares it: titled "Tiles", at the
/// top left corner, movable and resizable.
pub open spec fn palette_window() -> PaletteWindow {
    PaletteWindow {
        title: PALETTE_TITLE,
        position: (0, 0),
        width: PALETTE_WIDTH,
        height_divisor: PALETTE_HEIGHT_DIVISOR,
        movable: true,
        resizable: true,
        button_side: TILE_BUTTON_SIDE,
    }
}

/// What one frame declares to the GUI.
#[derive(Debug, PartialEq, Eq)]
pub struct Frame {
    /// The mouse state to feed into the GUI's input model before the frame
    /// begins.
    pub input: MouseInput,
    /// The one window of the frame.
    pub window: PaletteWindow,
    /// The texture ids of the image buttons inside the palette window, in
    /// the order in which they are declared.
    pub buttons: Vec<imgui::TextureId>,
}

/// The bridge between the window host and the GUI: the buffered mouse state
/// and the texture id of every tile in the palette.
pub struct GameGui {
    mouse_state: MouseState,
    tile_texture_ids: Vec<Option<imgui::TextureId>>,
}

impl GameGui {
    /// Every tile of the palette has a texture id.
    #[verifier::type_invariant]
    spec fn every_tile_registered(&self) -> bool {
        forall|i: int| 0 <= i < self.tile_texture_ids@.len() ==> self.tile_texture_ids@[i] is Some
    }

    /// The buffered mouse state.
    pub closed spec fn mouse(&self) -> MouseState {
        self.mouse_state
    }

    /// The texture ids of the palette's tiles, in palette order.
    pub closed spec fn tiles(&self) -> Seq<Option<imgui::TextureId>> {
        self.tile_texture_ids@
    }

    /// Builds the bridge from the texture ids that the renderer's texture
    /// table gave to the uploaded sprites, in the order of the sprite files.
    ///
    /// The palette holds exactly these ids, none missing, in this order; the
    /// mouse buffer starts empty.
    pub fn new(texture_ids: Vec<imgui::TextureId>) -> (gui: GameGui)
        ensures
            gui.tiles() == texture_ids@.map_values(|id: imgui::TextureId| Some(id)),
            gui.mouse() == MouseState::empty(),
    {
        let mut tile_texture_ids: Vec<Option<imgui::TextureId>> = Vec::new();
        let mut index: usize = 0;
        while index < texture_ids.len()
            invariant
                index <= texture_ids@.len(),
                tile_texture_ids@.len() == index,
                forall|i: int| 0 <= i < index ==> tile_texture_ids@[i] == Some(texture_ids@[i]),
            decreases texture_ids@.len() - index,
        {
            tile_texture_ids.push(Some(texture_ids[index]));
            index += 1;
        }
        assert(tile_texture_ids@ =~= texture_ids@.map_values(|id: imgui::TextureId| Some(id)));
        GameGui { mouse_state: MouseState::default(), tile_texture_ids }
    }

    /// Plans one frame: the buffered mouse state goes to the GUI's input
    /// model and the wheel delta is cleared, and the frame declares the
    /// palette window with one image button per tile, in palette order.
    pub fn render(&mut self) -> (frame: Frame)
        ensures
            frame.input == old(self).mouse().input(),
            final(self).mouse() == old(self).mouse().consumed(),
            final(self).tiles() == old(self).tiles(),
            frame.window == palette_window(),
            frame.buttons@.len() == old(self).tiles().len(),
            forall|i: int|
                0 <= i < frame.buttons@.len() ==> old(self).tiles()[i] == Some(
                    #[trigger] frame.buttons@[i],
                ),
    {
        proof {
            use_type_invariant(&*self);
        }
        let input = self.update_mouse();
        let mut buttons: Vec<imgui::TextureId> = Vec::new();
        let mut index: usize = 0;
        while index < self.tile_texture_ids.len()
            invariant
                index <= self.tile_texture_ids@.len(),
                buttons@.len() == index,
                forall|i: int|
                    0 <= i < self.tile_texture_ids@.len() ==> self.tile_texture_ids@[i] is Some,
                forall|i: int|
                    0 <= i < index ==> self.tile_texture_ids@[i] == Some(#[trigger] buttons@[i]),
            decreases self.tile_texture_ids@.len() - index,
        {
            buttons.push(self.tile_texture_ids[index].unwrap());
            index += 1;
        }
        let window = PaletteWindow {
            title: PALETTE_TITLE,
            position: (0, 0),
            width: PALETTE_WIDTH,
            height_divisor: PALETTE_HEIGHT_DIVISOR,
            movable: true,
            resizable: true,
            button_side: TILE_BUTTON_SIDE,
        };
        Frame { input, window, buttons }
    }

    /// Hands the buffered mouse state to the frame and clears the wheel
    /// delta.
    fn update_mouse(&mut self) -> (input: MouseInput)
        ensures
            input == old(self).mouse().input(),
            final(self).mouse() == old(self).mouse().consumed(),
            final(self).tile_texture_ids == old(self).tile_texture_ids,
    {
        proof {
            use_type_invariant(&*self);
        }
        self.mouse_state.take_input()
    }

    /// Records the cursor position. The host reports it as two
    /// single-precision numbers, passed here by their bit patterns; each is
    /// truncated toward zero to whole pixels.
    pub fn update_mouse_pos(&mut self, x: u32, y: u32)
        ensures
            final(self).mouse() == old(self).mouse().moved(x, y),
            final(self).tiles() == old(self).tiles(),
    {
        proof {
            use_type_invariant(&*self);
        }
        self.mouse_state.update_pos(x, y);
    }

    /// Overwrites the press flags `(left, right, middle)`.
    pub fn update_mouse_down(&mut self, pressed: (bool, bool, bool))
        ensures
            final(self).mouse() == old(self).mouse().with_pressed(pressed),
            final(self).tiles() == old(self).tiles(),
    {
        proof {
            use_type_invariant(&*self);
        }
        self.mouse_state.update_down(pressed);
    }
}

} // verus!
