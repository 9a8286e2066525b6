use interactive_drawing::events::{Action, DrawingState, Event, Flow, Stamp};
use interactive_drawing::input::{Input, Key, MouseButton};
use interactive_drawing::paint::{Brush, BrushKeys, Color};
use interactive_drawing::texture::{rgba_upload_layout, texture_extent};

fn no_keys() -> BrushKeys {
    BrushKeys { key1: false, key2: false, key3: false, comma: false, period: false, key9: false, key0: false }
}

fn rgba(r: u8, g: u8, b: u8, a: u8) -> Color {
    Color { r, g, b, a }
}

#[test]
fn initial_brush_is_red_size_ten_alpha_sixteen() {
    let b = Brush::initial();
    assert_eq!(b.color, rgba(255, 0, 0, 255));
    assert_eq!(b.size, 10);
    assert_eq!(b.alpha, 16);
}

#[test]
fn color_keys_pick_presets_with_current_alpha() {
    let mut b = Brush::initial();
    b.apply_keys(BrushKeys { key1: true, ..no_keys() });
    assert_eq!(b.color, rgba(128, 0, 128, 16));
    b.apply_keys(BrushKeys { key2: true, ..no_keys() });
    assert_eq!(b.color, rgba(0, 0, 125, 16));
    b.apply_keys(BrushKeys { key3: true, ..no_keys() });
    assert_eq!(b.color, rgba(17, 49, 12, 16));
}

#[test]
fn key1_wins_over_key2_and_key3() {
    let mut b = Brush::initial();
    b.apply_keys(BrushKeys { key1: true, key2: true, key3: true, ..no_keys() });
    assert_eq!(b.color, rgba(128, 0, 128, 16));
    let mut b = Brush::initial();
    b.apply_keys(BrushKeys { key2: true, key3: true, ..no_keys() });
    assert_eq!(b.color, rgba(0, 0, 125, 16));
}

#[test]
fn comma_lowers_alpha_and_sets_color_alpha() {
    let mut b = Brush::initial();
    b.apply_keys(BrushKeys { comma: true, ..no_keys() });
    assert_eq!(b.alpha, 11);
    assert_eq!(b.color, rgba(255, 0, 0, 11));
}

#[test]
fn comma_stops_at_the_floor() {
    let mut b = Brush::initial();
    for _ in 0..10 {
        b.apply_keys(BrushKeys { comma: true, ..no_keys() });
    }
    assert_eq!(b.alpha, 1);
    assert_eq!(b.color.a, 1);
}

#[test]
fn period_raises_alpha_and_stops_at_251() {
    let mut b = Brush::initial();
    b.apply_keys(BrushKeys { period: true, ..no_keys() });
    assert_eq!(b.alpha, 21);
    for _ in 0..100 {
        b.apply_keys(BrushKeys { period: true, ..no_keys() });
    }
    assert_eq!(b.alpha, 251);
    assert_eq!(b.color, rgba(255, 0, 0, 251));
}

#[test]
fn period_from_249_reaches_254() {
    let mut b = Brush { color: rgba(0, 0, 0, 0), size: 10, alpha: 249 };
    b.apply_keys(BrushKeys { period: true, ..no_keys() });
    assert_eq!(b.alpha, 254);
    b.apply_keys(BrushKeys { period: true, ..no_keys() });
    assert_eq!(b.alpha, 254);
}

#[test]
fn comma_wins_over_period() {
    let mut b = Brush::initial();
    b.apply_keys(BrushKeys { comma: true, period: true, ..no_keys() });
    assert_eq!(b.alpha, 11);
}

#[test]
fn color_key_uses_alpha_before_transparency_key() {
    let mut b = Brush::initial();
    b.apply_keys(BrushKeys { key1: true, comma: true, ..no_keys() });
    assert_eq!(b.color, rgba(128, 0, 128, 11));
}

#[test]
fn alpha_without_transparency_key_leaves_color_alpha() {
    let mut b = Brush::initial();
    b.apply_keys(no_keys());
    assert_eq!(b, Brush::initial());
    assert_eq!(b.color.a, 255);
}

#[test]
fn size_keys_step_and_clamp() {
    let mut b = Brush::initial();
    b.apply_keys(BrushKeys { key9: true, ..no_keys() });
    assert_eq!(b.size, 9);
    b.apply_keys(BrushKeys { key0: true, ..no_keys() });
    assert_eq!(b.size, 10);
    for _ in 0..100 {
        b.apply_keys(BrushKeys { key0: true, ..no_keys() });
    }
    assert_eq!(b.size, 50);
    for _ in 0..100 {
        b.apply_keys(BrushKeys { key9: true, ..no_keys() });
    }
    assert_eq!(b.size, 1);
}

#[test]
fn key9_wins_over_key0() {
    let mut b = Brush::initial();
    b.apply_keys(BrushKeys { key9: true, key0: true, ..no_keys() });
    assert_eq!(b.size, 9);
}

#[test]
fn size_out_of_range_is_clamped_by_a_size_key() {
    let mut b = Brush { color: rgba(1, 2, 3, 4), size: 1000, alpha: 16 };
    b.apply_keys(BrushKeys { key9: true, ..no_keys() });
    assert_eq!(b.size, 50);
    let mut b = Brush { color: rgba(1, 2, 3, 4), size: -7, alpha: 16 };
    b.apply_keys(BrushKeys { key0: true, ..no_keys() });
    assert_eq!(b.size, 1);
}

#[test]
fn input_key_read_after_write() {
    let mut input = Input::new();
    assert!(!input.is_key_down(Key::Comma));
    input.handle_key_event(Some(Key::Comma), true);
    assert!(input.is_key_down(Key::Comma));
    assert!(!input.is_key_down(Key::Period));
    input.handle_key_event(Some(Key::Other(42)), true);
    input.handle_key_event(Some(Key::Comma), true);
    input.handle_key_event(Some(Key::Comma), false);
    assert!(!input.is_key_down(Key::Comma));
    assert!(input.is_key_down(Key::Other(42)));
    assert!(!input.is_key_down(Key::Other(43)));
    input.handle_key_event(None, false);
    assert!(input.is_key_down(Key::Other(42)));
}

#[test]
fn input_button_read_after_write() {
    let mut input = Input::new();
    input.handle_mouse_button(MouseButton::Left, true);
    input.handle_mouse_button(MouseButton::Other(7), true);
    assert!(input.is_mouse_down(MouseButton::Left));
    assert!(!input.is_mouse_down(MouseButton::Right));
    input.handle_mouse_button(MouseButton::Left, false);
    assert!(!input.is_mouse_down(MouseButton::Left));
    assert!(input.is_mouse_down(MouseButton::Other(7)));
    assert!(!input.is_key_down(Key::Key1));
}

#[test]
fn brush_keys_read_the_held_keys() {
    let mut input = Input::new();
    input.handle_key_event(Some(Key::Key3), true);
    input.handle_key_event(Some(Key::Key0), true);
    let k = input.brush_keys();
    assert_eq!(k, BrushKeys { key3: true, key0: true, ..no_keys() });
}

#[test]
fn close_requested_exits() {
    let mut s = DrawingState::new(640, 480);
    let st = s.step(Event::CloseRequested);
    assert_eq!(st.flow, Flow::Exit);
    assert_eq!(st.action, Action::Nothing);
}

#[test]
fn other_events_wait() {
    let mut s = DrawingState::new(640, 480);
    assert_eq!(s.step(Event::Other).flow, Flow::Wait);
    assert_eq!(s.step(Event::CursorMoved).action, Action::Nothing);
    assert_eq!(s.brush, Brush::initial());
}

#[test]
fn resize_reconfigures() {
    let mut s = DrawingState::new(640, 480);
    let st = s.step(Event::Resized { width: 1024, height: 768 });
    assert_eq!(st.flow, Flow::Wait);
    assert_eq!(st.action, Action::Reconfigure { width: 1024, height: 768 });
    assert_eq!((s.surface_width, s.surface_height), (1024, 768));
}

#[test]
fn redraw_without_left_button_does_not_stamp() {
    let mut s = DrawingState::new(640, 480);
    s.step(Event::Key { key: Some(Key::Key1), pressed: true });
    s.step(Event::MouseButton { button: MouseButton::Right, pressed: true });
    let st = s.step(Event::RedrawRequested);
    assert_eq!(st.action, Action::Redraw { stamp: None });
    assert_eq!(s.brush.color, rgba(128, 0, 128, 16));
}

#[test]
fn redraw_with_left_button_stamps_with_new_brush() {
    let mut s = DrawingState::new(640, 480);
    s.step(Event::Key { key: Some(Key::Key2), pressed: true });
    s.step(Event::Key { key: Some(Key::Period), pressed: true });
    s.step(Event::Key { key: Some(Key::Key0), pressed: true });
    s.step(Event::MouseButton { button: MouseButton::Left, pressed: true });
    let st = s.step(Event::RedrawRequested);
    assert_eq!(
        st.action,
        Action::Redraw { stamp: Some(Stamp { color: rgba(0, 0, 125, 21), size: 11 }) }
    );
    s.step(Event::Key { key: Some(Key::Key0), pressed: false });
    s.step(Event::MouseButton { button: MouseButton::Left, pressed: false });
    let st = s.step(Event::RedrawRequested);
    assert_eq!(st.action, Action::Redraw { stamp: None });
    assert_eq!(s.brush.size, 11);
    assert_eq!(s.brush.alpha, 26);
}

#[test]
fn many_frames_keep_brush_in_range() {
    let mut s = DrawingState::new(1, 1);
    s.step(Event::Key { key: Some(Key::Key9), pressed: true });
    s.step(Event::Key { key: Some(Key::Comma), pressed: true });
    for _ in 0..200 {
        s.step(Event::RedrawRequested);
    }
    assert_eq!(s.brush.size, 1);
    assert_eq!(s.brush.alpha, 1);
}

#[test]
fn upload_layout_is_four_bytes_per_texel() {
    let l = rgba_upload_layout(300, 200);
    assert_eq!(l.offset, 0);
    assert_eq!(l.bytes_per_row, Some(1200));
    assert_eq!(l.rows_per_image, Some(200));
    let l = rgba_upload_layout(u32::MAX / 4, 1);
    assert_eq!(l.bytes_per_row, Some(u32::MAX - 3));
}

#[test]
fn texture_extent_has_one_layer() {
    let e = texture_extent(300, 200);
    assert_eq!((e.width, e.height, e.depth_or_array_layers), (300, 200, 1));
}
