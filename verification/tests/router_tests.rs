use kairon::color::Color;
use kairon::geom::{CursorPos, Frac, Size};
use kairon::record::{Modifiers, Theme, WindowRecord};
use kairon::registry::{Registry, RegistryError};
use kairon::router::{
    process_event, process_events, redraw_failed, Action, Key, PlatformEvent, WindowEventKind,
};
use kairon::surface::{PixelFormat, SurfaceError};

fn record(id: u64, width: u32, height: u32) -> WindowRecord {
    WindowRecord::new(
        id,
        Size::new(width, height),
        PixelFormat::Bgra8UnormSrgb,
        Frac::one(),
        Theme::Dark,
    )
}

fn windowed(id: u64, kind: WindowEventKind) -> PlatformEvent {
    PlatformEvent::Windowed { id, kind }
}

fn two_window_registry() -> Registry {
    let mut registry = Registry::with_first_window(record(1, 1280, 720));
    registry.insert(record(2, 640, 480));
    registry
}

#[test]
fn registry_lookup() {
    let registry = two_window_registry();
    assert_eq!(registry.len(), 2);
    assert!(registry.contains(1));
    assert!(registry.contains(2));
    assert!(!registry.contains(3));
    assert_eq!(registry.get(2).unwrap().id, 2);
    assert_eq!(registry.get(3).unwrap_err(), RegistryError::NotFound);
}

#[test]
fn set_current_then_current_returns_it() {
    let mut registry = two_window_registry();
    registry.set_current(2);
    assert_eq!(registry.current_record().id, 2);
    assert_eq!(registry.current_record().size, Size::new(640, 480));
    registry.set_current(1);
    assert_eq!(registry.current_record().id, 1);
}

#[test]
fn unknown_identity_events_are_dropped() {
    let mut registry = two_window_registry();
    let before_current = registry.current;
    let before_len = registry.records.len();
    let before_size = registry.get(1).unwrap().size;
    let before_count = registry.get(1).unwrap().binding.reconfigure_count;
    let events = vec![
        windowed(9, WindowEventKind::Resized { size: Size::new(100, 100) }),
        windowed(9, WindowEventKind::CursorMoved { pos: CursorPos::new(3, 4) }),
        windowed(9, WindowEventKind::CloseRequested),
        windowed(9, WindowEventKind::RedrawRequested),
    ];
    let actions = process_events(&mut registry, &events);
    assert!(actions.is_empty());
    assert_eq!(registry.current, before_current);
    assert_eq!(registry.records.len(), before_len);
    assert_eq!(registry.get(1).unwrap().size, before_size);
    assert_eq!(registry.get(1).unwrap().binding.reconfigure_count, before_count);
}

#[test]
fn focus_follows_windowed_event() {
    let mut registry = two_window_registry();
    assert_eq!(registry.current, 1);
    let actions = process_event(
        &mut registry,
        windowed(2, WindowEventKind::CursorMoved { pos: CursorPos::new(10, 10) }),
    );
    assert_eq!(registry.current, 2);
    assert_eq!(registry.current_record().id, 2);
    assert_eq!(
        actions,
        vec![Action::SetImeCursorArea { id: 2, pos: CursorPos::new(10, 10) }]
    );
}

#[test]
fn resize_event_scenario() {
    let mut registry = Registry::with_first_window(record(1, 1280, 720));
    let actions = process_event(
        &mut registry,
        windowed(1, WindowEventKind::Resized { size: Size::new(0, 400) }),
    );
    assert!(actions.is_empty());
    let rec = registry.get(1).unwrap();
    assert_eq!(rec.binding.config.width, 1280);
    assert_eq!(rec.binding.config.height, 720);

    let actions = process_event(
        &mut registry,
        windowed(1, WindowEventKind::Resized { size: Size::new(800, 600) }),
    );
    assert_eq!(actions, vec![Action::RequestRedraw { id: 1 }]);
    let rec = registry.get(1).unwrap();
    assert_eq!(rec.binding.config.width, 800);
    assert_eq!(rec.binding.config.height, 600);
    assert_eq!(rec.size, Size::new(800, 600));
}

#[test]
fn cursor_move_recolors_without_redraw() {
    let mut registry = Registry::with_first_window(record(1, 200, 100));
    let actions = process_event(
        &mut registry,
        windowed(1, WindowEventKind::CursorMoved { pos: CursorPos::new(100, 50) }),
    );
    let rec = registry.get(1).unwrap();
    assert_eq!(rec.cursor, Some(CursorPos::new(100, 50)));
    assert_eq!(rec.clear_color.r, Frac::new(100, 200));
    assert_eq!(rec.clear_color.g, Frac::new(50, 100));
    assert_eq!(rec.clear_color.b, Frac::one());
    assert_eq!(rec.clear_color.a, Frac::one());
    assert_eq!(
        actions,
        vec![Action::SetImeCursorArea { id: 1, pos: CursorPos::new(100, 50) }]
    );
}

#[test]
fn redraw_on_visible_record_acquires_frame() {
    let mut registry = Registry::with_first_window(record(1, 800, 600));
    let actions = process_event(&mut registry, windowed(1, WindowEventKind::RedrawRequested));
    assert_eq!(actions, vec![Action::AcquireFrame { id: 1 }]);
}

#[test]
fn redraw_on_occluded_record_does_nothing() {
    let mut registry = Registry::with_first_window(record(1, 800, 600));
    process_event(&mut registry, windowed(1, WindowEventKind::Occluded { hidden: true }));
    let before = registry.get(1).unwrap().binding.submission_count;
    let actions = process_event(&mut registry, windowed(1, WindowEventKind::RedrawRequested));
    assert!(actions.is_empty());
    assert_eq!(registry.get(1).unwrap().binding.submission_count, before);
}

#[test]
fn occlusion_events_toggle_and_redraw() {
    let mut registry = Registry::with_first_window(record(1, 800, 600));
    let actions = process_event(&mut registry, windowed(1, WindowEventKind::Occluded { hidden: true }));
    assert!(actions.is_empty());
    assert!(registry.get(1).unwrap().occluded);
    let actions = process_event(&mut registry, windowed(1, WindowEventKind::Occluded { hidden: false }));
    assert_eq!(actions, vec![Action::RequestRedraw { id: 1 }]);
    assert!(!registry.get(1).unwrap().occluded);
}

#[test]
fn escape_press_signals_exit() {
    let mut registry = Registry::with_first_window(record(1, 800, 600));
    let actions = process_event(
        &mut registry,
        windowed(1, WindowEventKind::KeyboardInput { key: Key::Escape, pressed: true }),
    );
    assert_eq!(actions, vec![Action::Exit]);
}

#[test]
fn escape_release_and_other_keys_ignored() {
    let mut registry = Registry::with_first_window(record(1, 800, 600));
    let actions = process_event(
        &mut registry,
        windowed(1, WindowEventKind::KeyboardInput { key: Key::Escape, pressed: false }),
    );
    assert!(actions.is_empty());
    let actions = process_event(
        &mut registry,
        windowed(1, WindowEventKind::KeyboardInput { key: Key::Other, pressed: true }),
    );
    assert!(actions.is_empty());
}

#[test]
fn close_requested_signals_exit() {
    let mut registry = Registry::with_first_window(record(1, 800, 600));
    let actions = process_event(&mut registry, windowed(1, WindowEventKind::CloseRequested));
    assert_eq!(actions, vec![Action::Exit]);
}

#[test]
fn scale_factor_reaches_ui_session() {
    let mut registry = Registry::with_first_window(record(1, 800, 600));
    let actions = process_event(
        &mut registry,
        windowed(1, WindowEventKind::ScaleFactorChanged { scale: Frac::new(2, 1) }),
    );
    assert!(actions.is_empty());
    assert_eq!(registry.get(1).unwrap().ui.scale, Frac::new(2, 1));
}

#[test]
fn theme_change_repaints() {
    let mut registry = Registry::with_first_window(record(1, 800, 600));
    let actions = process_event(
        &mut registry,
        windowed(1, WindowEventKind::ThemeChanged { theme: Theme::Light }),
    );
    assert_eq!(actions, vec![Action::RequestRedraw { id: 1 }]);
    assert_eq!(registry.get(1).unwrap().theme, Theme::Light);
}

#[test]
fn modifiers_are_tracked() {
    let mut registry = Registry::with_first_window(record(1, 800, 600));
    let modifiers = Modifiers { shift: true, ctrl: false, alt: true, logo: false };
    let actions = process_event(
        &mut registry,
        windowed(1, WindowEventKind::ModifiersChanged { modifiers }),
    );
    assert!(actions.is_empty());
    assert_eq!(registry.get(1).unwrap().modifiers, modifiers);
}

#[test]
fn cursor_left_event_clears_position() {
    let mut registry = Registry::with_first_window(record(1, 800, 600));
    process_event(
        &mut registry,
        windowed(1, WindowEventKind::CursorMoved { pos: CursorPos::new(1, 2) }),
    );
    process_event(&mut registry, windowed(1, WindowEventKind::CursorLeft));
    assert_eq!(registry.get(1).unwrap().cursor, None);
}

#[test]
fn idle_tick_redraws_current_window() {
    let mut registry = two_window_registry();
    registry.set_current(2);
    let actions = process_event(&mut registry, PlatformEvent::AboutToWait);
    assert_eq!(actions, vec![Action::RequestRedraw { id: 2 }]);
}

#[test]
fn lost_surface_reconfigures_and_retries() {
    let mut registry = Registry::with_first_window(record(1, 1024, 768));
    let before = registry.get(1).unwrap().binding.reconfigure_count;
    let actions = redraw_failed(&mut registry, 1, SurfaceError::Lost);
    assert_eq!(actions, vec![Action::RequestRedraw { id: 1 }]);
    assert!(!actions.contains(&Action::Exit));
    let rec = registry.get(1).unwrap();
    assert_eq!(rec.binding.reconfigure_count, before + 1);
    assert_eq!(rec.binding.config.width, 1024);
    assert_eq!(rec.binding.config.height, 768);
    assert!(!rec.binding.lost);
}

#[test]
fn out_of_memory_terminates_exactly_once() {
    let mut registry = Registry::with_first_window(record(1, 1024, 768));
    let actions = redraw_failed(&mut registry, 1, SurfaceError::OutOfMemory);
    assert_eq!(actions, vec![Action::Exit]);
    assert_eq!(actions.iter().filter(|a| **a == Action::Exit).count(), 1);
    assert_eq!(registry.get(1).unwrap().binding.reconfigure_count, 1);
}

#[test]
fn transient_errors_wait_for_next_tick() {
    let mut registry = Registry::with_first_window(record(1, 1024, 768));
    let actions = redraw_failed(&mut registry, 1, SurfaceError::Outdated);
    assert!(actions.is_empty());
    let actions = redraw_failed(&mut registry, 1, SurfaceError::Timeout);
    assert!(actions.is_empty());
    assert_eq!(registry.get(1).unwrap().binding.reconfigure_count, 1);
}

#[test]
fn interleaved_events_keep_focus_correct() {
    let mut registry = two_window_registry();
    let events = vec![
        windowed(1, WindowEventKind::CursorMoved { pos: CursorPos::new(1, 1) }),
        windowed(2, WindowEventKind::Resized { size: Size::new(320, 240) }),
        windowed(1, WindowEventKind::RedrawRequested),
        windowed(2, WindowEventKind::RedrawRequested),
    ];
    let actions = process_events(&mut registry, &events);
    assert_eq!(registry.current, 2);
    assert_eq!(registry.get(2).unwrap().size, Size::new(320, 240));
    assert_eq!(
        actions,
        vec![
            Action::SetImeCursorArea { id: 1, pos: CursorPos::new(1, 1) },
            Action::RequestRedraw { id: 2 },
            Action::AcquireFrame { id: 1 },
            Action::AcquireFrame { id: 2 },
        ]
    );
}

#[test]
fn set_clear_color_is_pure_state() {
    let mut registry = Registry::with_first_window(record(1, 800, 600));
    let mut rec = registry.get(1).unwrap();
    let color = Color {
        r: Frac::new(1, 4),
        g: Frac::new(1, 2),
        b: Frac::new(3, 4),
        a: Frac::one(),
    };
    rec.set_clear_color(color);
    registry.update_record(rec);
    assert_eq!(registry.get(1).unwrap().clear_color, color);
    assert_eq!(registry.get(1).unwrap().binding.submission_count, 0);
}
