use triangle_gui::background::{triangle_indices, triangle_vertices, BackgroundState};
use triangle_gui::color::{Rgba, COLOR_SEED, ONE_BITS};
use triangle_gui::input::{ElementState, Key, KeyboardInput, Modifiers, WindowEvent};
use triangle_gui::pending::PendingOutput;
use triangle_gui::state::{EventAction, FrameAction, State, SurfaceError, SurfaceSize};

fn no_modifiers() -> Modifiers {
    Modifiers { shift: false, ctrl: false, alt: false, logo: false }
}

fn space(state: ElementState, modifiers: Modifiers, is_synthetic: bool) -> WindowEvent {
    WindowEvent::Keyboard(KeyboardInput { key: Some(Key::Space), state, modifiers, is_synthetic })
}

fn channels(c: Rgba) -> [f32; 4] {
    [f32::from_bits(c.r), f32::from_bits(c.g), f32::from_bits(c.b), f32::from_bits(c.a)]
}

#[test]
fn initial_color_is_the_fixed_constant() {
    let s = BackgroundState::new();
    assert_eq!(channels(s.clear_color()), [0.1, 0.2, 0.3, 1.0]);
}

#[test]
fn randomize_follows_the_seeded_generator() {
    let mut s = BackgroundState::new();
    let mut g = oorandom::Rand32::new(COLOR_SEED);
    for _ in 0..5 {
        s.randomize_color();
        let expected = [g.rand_float(), g.rand_float(), g.rand_float(), 1.0];
        assert_eq!(channels(s.clear_color()), expected);
    }
}

#[test]
fn randomize_is_reproducible_and_keeps_alpha() {
    let mut a = BackgroundState::new();
    let mut b = BackgroundState::new();
    let mut seen = Vec::new();
    for _ in 0..4 {
        a.randomize_color();
        b.randomize_color();
        assert_eq!(a.clear_color(), b.clear_color());
        assert_eq!(a.rng, b.rng);
        let c = a.clear_color();
        assert_eq!(c.a, ONE_BITS);
        for v in &channels(c)[..3] {
            assert!(*v >= 0.0 && *v < 1.0);
        }
        seen.push(c);
    }
    assert_ne!(seen[0], seen[1]);
    assert_ne!(seen[0], BackgroundState::new().clear_color());
}

#[test]
fn triangle_geometry() {
    let v = triangle_vertices();
    let pos: Vec<(f32, f32)> = v.iter().map(|p| (f32::from_bits(p.x), f32::from_bits(p.y))).collect();
    assert_eq!(pos, vec![(0.0, 1.0), (-1.0, -1.0), (1.0, -1.0)]);
    let col: Vec<[f32; 3]> =
        v.iter().map(|p| [f32::from_bits(p.r), f32::from_bits(p.g), f32::from_bits(p.b)]).collect();
    assert_eq!(col, vec![[1.0, 0.0, 0.0], [0.0, 1.0, 0.0], [0.0, 0.0, 1.0]]);
    assert_eq!(triangle_indices(), [0, 1, 2]);
}

#[test]
fn resize_with_zero_width_or_height_is_ignored() {
    let mut s = State::new(600, 600);
    assert!(!s.resize(0, 300));
    assert_eq!(s.window_size, SurfaceSize { width: 600, height: 600 });
    assert!(!s.resize(300, 0));
    assert_eq!(s.window_size, SurfaceSize { width: 600, height: 600 });
    assert!(!s.resize(0, 0));
    assert_eq!(s.window_size, SurfaceSize { width: 600, height: 600 });
}

#[test]
fn resize_with_area_takes_the_size() {
    let mut s = State::new(600, 600);
    assert!(s.resize(800, 450));
    assert_eq!(s.window_size, SurfaceSize { width: 800, height: 450 });
    assert!(s.resize(1, u32::MAX));
    assert_eq!(s.window_size, SurfaceSize { width: 1, height: u32::MAX });
}

#[test]
fn space_press_randomizes_once() {
    let mut s = State::new(600, 600);
    let before = s.background_state.clear_color();
    assert!(s.input(false, &space(ElementState::Pressed, no_modifiers(), false)));
    let mut expected = BackgroundState::new();
    expected.randomize_color();
    assert_eq!(s.background_state.clear_color(), expected.clear_color());
    assert_ne!(s.background_state.clear_color(), before);
}

#[test]
fn synthetic_or_modified_or_released_space_is_ignored() {
    let mut s = State::new(600, 600);
    let before = s.background_state.clear_color();
    assert!(!s.input(false, &space(ElementState::Pressed, no_modifiers(), true)));
    let shift = Modifiers { shift: true, ..no_modifiers() };
    assert!(!s.input(false, &space(ElementState::Pressed, shift, false)));
    let ctrl = Modifiers { ctrl: true, ..no_modifiers() };
    assert!(!s.input(false, &space(ElementState::Pressed, ctrl, false)));
    assert!(!s.input(false, &space(ElementState::Released, no_modifiers(), false)));
    let other = WindowEvent::Keyboard(KeyboardInput {
        key: Some(Key::Other),
        state: ElementState::Pressed,
        modifiers: no_modifiers(),
        is_synthetic: false,
    });
    assert!(!s.input(false, &other));
    let unknown = WindowEvent::Keyboard(KeyboardInput {
        key: None,
        state: ElementState::Pressed,
        modifiers: no_modifiers(),
        is_synthetic: false,
    });
    assert!(!s.input(false, &unknown));
    assert!(!s.input(false, &WindowEvent::Other));
    assert_eq!(s.background_state.clear_color(), before);
}

#[test]
fn gui_consumed_event_is_not_inspected() {
    let mut s = State::new(600, 600);
    let before = s.background_state.clear_color();
    assert!(s.input(true, &space(ElementState::Pressed, no_modifiers(), false)));
    assert!(s.input(true, &WindowEvent::Other));
    assert_eq!(s.background_state.clear_color(), before);
}

#[test]
fn window_events_map_to_loop_actions() {
    let mut s = State::new(600, 600);
    assert_eq!(s.handle_window_event(false, &WindowEvent::CloseRequested), EventAction::Exit);
    assert_eq!(s.handle_window_event(true, &WindowEvent::CloseRequested), EventAction::Nothing);
    let r = WindowEvent::Resized { width: 640, height: 480 };
    assert_eq!(s.handle_window_event(false, &r), EventAction::Reconfigure);
    assert_eq!(s.window_size, SurfaceSize { width: 640, height: 480 });
    let minimized = WindowEvent::Resized { width: 0, height: 0 };
    assert_eq!(s.handle_window_event(false, &minimized), EventAction::Nothing);
    assert_eq!(s.window_size, SurfaceSize { width: 640, height: 480 });
    let scaled = WindowEvent::ScaleFactorChanged { width: 1280, height: 960 };
    assert_eq!(s.handle_window_event(false, &scaled), EventAction::Reconfigure);
    assert_eq!(s.window_size, SurfaceSize { width: 1280, height: 960 });
    let before = s.background_state.clear_color();
    let press = space(ElementState::Pressed, no_modifiers(), false);
    assert_eq!(s.handle_window_event(false, &press), EventAction::Nothing);
    assert_ne!(s.background_state.clear_color(), before);
}

#[test]
fn frame_errors_map_to_actions() {
    let mut s = State::new(600, 600);
    s.resize(300, 200);
    assert_eq!(
        s.frame_error_action(SurfaceError::Lost),
        FrameAction::Reconfigure(SurfaceSize { width: 300, height: 200 })
    );
    assert_eq!(s.frame_error_action(SurfaceError::OutOfMemory), FrameAction::Exit);
    assert_eq!(s.frame_error_action(SurfaceError::Timeout), FrameAction::Skip);
    assert_eq!(s.frame_error_action(SurfaceError::Outdated), FrameAction::Skip);
}

#[test]
fn render_without_update_finds_nothing_pending() {
    let mut p: PendingOutput<Vec<u8>> = PendingOutput::new();
    assert!(!p.is_pending());
    assert_eq!(p.take(), None);
    p.put(vec![1, 2]);
    assert!(p.is_pending());
    assert_eq!(p.take(), Some(vec![1, 2]));
    assert_eq!(p.take(), None);
}

#[test]
fn pending_output_keeps_the_latest() {
    let mut p: PendingOutput<u32> = PendingOutput::new();
    p.put(1);
    p.put(2);
    assert_eq!(p.take(), Some(2));
}
