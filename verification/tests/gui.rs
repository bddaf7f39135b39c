use imgui::TextureId;
use tile_editor::gui::{
    GameGui, PaletteWindow, PALETTE_HEIGHT_DIVISOR, PALETTE_TITLE, PALETTE_WIDTH,
    TILE_BUTTON_SIDE,
};
use tile_editor::mouse::{pressed_by, MouseButton};

fn ids(numbers: &[usize]) -> Vec<TextureId> {
    numbers.iter().map(|number| TextureId::from(*number)).collect()
}

#[test]
fn palette_has_one_button_per_texture_in_order() {
    let mut gui = GameGui::new(ids(&[0, 1, 2, 3]));
    assert_eq!(gui.render().buttons, ids(&[0, 1, 2, 3]));
    let mut gui = GameGui::new(ids(&[7, 3, 3, usize::MAX, 0]));
    let buttons = gui.render().buttons;
    assert_eq!(buttons.len(), 5);
    assert_eq!(buttons[0].id(), 7);
    assert_eq!(buttons[1].id(), 3);
    assert_eq!(buttons[2].id(), 3);
    assert_eq!(buttons[3].id(), usize::MAX);
    assert_eq!(buttons[4].id(), 0);
}

#[test]
fn empty_palette_has_no_buttons() {
    let mut gui = GameGui::new(Vec::new());
    let frame = gui.render();
    assert!(frame.buttons.is_empty());
    assert_eq!(frame.input.pos, (0, 0));
    assert_eq!(frame.input.down, [false; 5]);
    assert_eq!(frame.input.wheel, 0);
}

#[test]
fn buttons_are_the_same_every_frame() {
    let mut gui = GameGui::new(ids(&[4, 5]));
    assert_eq!(gui.render().buttons, ids(&[4, 5]));
    gui.update_mouse_pos(3.0f32.to_bits(), 4.0f32.to_bits());
    gui.update_mouse_down((true, true, true));
    assert_eq!(gui.render().buttons, ids(&[4, 5]));
}

#[test]
fn frame_reports_truncated_cursor_position() {
    let mut gui = GameGui::new(ids(&[0]));
    gui.update_mouse_pos(101.9f32.to_bits(), (-0.25f32).to_bits());
    assert_eq!(gui.render().input.pos, (101, 0));
    gui.update_mouse_pos((-17.99f32).to_bits(), 799.5f32.to_bits());
    assert_eq!(gui.render().input.pos, (-17, 799));
}

#[test]
fn frame_after_press_and_release_reports_all_released() {
    let mut gui = GameGui::new(ids(&[0]));
    gui.update_mouse_down(pressed_by(MouseButton::Left));
    gui.update_mouse_down((false, false, false));
    assert_eq!(gui.render().input.down, [false, false, false, false, false]);
}

#[test]
fn frame_between_press_and_release_reports_the_button() {
    let mut gui = GameGui::new(ids(&[0]));
    gui.update_mouse_down(pressed_by(MouseButton::Right));
    assert_eq!(gui.render().input.down, [false, true, false, false, false]);
    gui.update_mouse_down(pressed_by(MouseButton::Middle));
    assert_eq!(gui.render().input.down, [false, false, true, false, false]);
}

#[test]
fn wheel_is_zero_on_consecutive_frames() {
    let mut gui = GameGui::new(ids(&[0, 1]));
    assert_eq!(gui.render().input.wheel, 0);
    assert_eq!(gui.render().input.wheel, 0);
}

#[test]
fn palette_window_layout() {
    assert_eq!(PALETTE_TITLE, "Tiles");
    assert_eq!(PALETTE_WIDTH, 150);
    assert_eq!(PALETTE_HEIGHT_DIVISOR, 25);
    assert_eq!(TILE_BUTTON_SIDE, 10);
}

#[test]
fn every_frame_declares_the_same_palette_window() {
    let expected = PaletteWindow {
        title: "Tiles",
        position: (0, 0),
        width: 150,
        height_divisor: 25,
        movable: true,
        resizable: true,
        button_side: 10,
    };
    let mut gui = GameGui::new(ids(&[0, 1]));
    assert_eq!(gui.render().window, expected);
    gui.update_mouse_pos(30.0f32.to_bits(), 40.0f32.to_bits());
    gui.update_mouse_down((true, false, false));
    assert_eq!(gui.render().window, expected);
    assert_eq!(GameGui::new(Vec::new()).render().window, expected);
}

#[test]
fn ids_from_a_texture_table_reach_the_buttons_in_order() {
    let mut table: imgui::Textures<&str> = imgui::Textures::new();
    let registered: Vec<TextureId> =
        ["grass", "sand", "water"].iter().map(|name| table.insert(*name)).collect();
    let mut gui = GameGui::new(registered);
    let buttons = gui.render().buttons;
    assert_eq!(buttons.len(), 3);
    assert_eq!(table.get(buttons[0]), Some(&"grass"));
    assert_eq!(table.get(buttons[1]), Some(&"sand"));
    assert_eq!(table.get(buttons[2]), Some(&"water"));
}
