use cocoa_gui::{
    present_outcome, translate_event, Button, Canvas, Color, DrawCmd, DrawError, ElementState,
    Event, GpuSkiaRenderer, Modifiers, MouseButton, NativeEvent, Panel, Reaction, Rect,
    SurfaceAction, Translator, Widget, Window,
};

fn shift() -> Modifiers {
    Modifiers { shift: true, control: false, alt: false, meta: false }
}

fn control() -> Modifiers {
    Modifiers { shift: false, control: true, alt: false, meta: false }
}

fn rect(x: i32, y: i32, width: u32, height: u32) -> Rect {
    Rect { x, y, width, height }
}

fn two_buttons() -> Panel<Button> {
    let mut panel = Panel::new(rect(0, 0, 200, 100), Color::rgb(240, 240, 240));
    panel.push(Button::new(rect(0, 0, 100, 100)));
    panel.push(Button::new(rect(50, 0, 100, 100)));
    panel
}

fn press(x: i32, y: i32) -> Event {
    Event::MouseDown { x, y, button: MouseButton::Left, modifiers: Modifiers::empty() }
}

#[test]
fn cursor_position_stamps_button_press() {
    let mut t = Translator::new();
    let moved = translate_event(&NativeEvent::CursorMoved { x: 10, y: 20 }, &mut t);
    assert_eq!(moved, Some(Event::MouseMove { x: 10, y: 20, modifiers: Modifiers::empty() }));
    let pressed = translate_event(
        &NativeEvent::MouseInput { state: ElementState::Pressed, button: MouseButton::Left },
        &mut t,
    );
    assert_eq!(
        pressed,
        Some(Event::MouseDown { x: 10, y: 20, button: MouseButton::Left, modifiers: Modifiers::empty() })
    );
    let released = translate_event(
        &NativeEvent::MouseInput { state: ElementState::Released, button: MouseButton::Right },
        &mut t,
    );
    assert_eq!(
        released,
        Some(Event::MouseUp { x: 10, y: 20, button: MouseButton::Right, modifiers: Modifiers::empty() })
    );
    assert_eq!(t.cursor(), (10, 20));
}

#[test]
fn modifiers_follow_the_latest_report() {
    let mut t = Translator::new();
    assert_eq!(translate_event(&NativeEvent::ModifiersChanged(shift()), &mut t), None);
    let key = translate_event(
        &NativeEvent::KeyboardInput { state: ElementState::Pressed, key: Some(38) },
        &mut t,
    );
    assert_eq!(key, Some(Event::KeyDown { key: Some(38), modifiers: shift() }));
    translate_event(&NativeEvent::ModifiersChanged(control()), &mut t);
    let moved = translate_event(&NativeEvent::CursorMoved { x: -3, y: 7 }, &mut t);
    assert_eq!(moved, Some(Event::MouseMove { x: -3, y: 7, modifiers: control() }));
    assert_eq!(moved.unwrap().modifiers(), Some(control()));
    assert_eq!(t.modifiers(), control());
}

#[test]
fn focus_loss_clears_modifiers() {
    let mut t = Translator::new();
    translate_event(&NativeEvent::ModifiersChanged(shift()), &mut t);
    assert_eq!(translate_event(&NativeEvent::Focused(false), &mut t), Some(Event::FocusLost));
    assert!(t.modifiers().is_empty());
    let up = translate_event(
        &NativeEvent::KeyboardInput { state: ElementState::Released, key: None },
        &mut t,
    );
    assert_eq!(up, Some(Event::KeyUp { key: None, modifiers: Modifiers::empty() }));
}

#[test]
fn remaining_events_translate() {
    let mut t = Translator::new();
    assert_eq!(translate_event(&NativeEvent::ReceivedCharacter('z'), &mut t), Some(Event::CharInput('z')));
    assert_eq!(translate_event(&NativeEvent::Focused(true), &mut t), Some(Event::FocusGained));
    assert_eq!(
        translate_event(&NativeEvent::Resized { width: 640, height: 480 }, &mut t),
        Some(Event::Resized { width: 640, height: 480 })
    );
    assert_eq!(translate_event(&NativeEvent::RedrawRequested, &mut t), Some(Event::RedrawRequested));
    assert_eq!(translate_event(&NativeEvent::Unmapped, &mut t), None);
    assert_eq!(Event::FocusGained.modifiers(), None);
    assert_eq!(t, Translator::new());
}

#[test]
fn resize_twice_is_resize_once() {
    let mut r = GpuSkiaRenderer::new(800, 600);
    assert_eq!(r.resize(400, 300), SurfaceAction::Reallocate { width: 400, height: 300 });
    let once = r;
    assert_eq!(r.resize(400, 300), SurfaceAction::Keep);
    assert_eq!(r, once);
    assert_eq!(r.resize(0, 0), SurfaceAction::Keep);
    assert_eq!(r.resize(0, 900), SurfaceAction::Keep);
    assert_eq!(r.resize(900, 0), SurfaceAction::Keep);
    assert_eq!(r, GpuSkiaRenderer { width: 400, height: 300 });
}

#[test]
fn consumed_event_stops_at_the_consumer() {
    let mut panel = two_buttons();
    // (60, 10) lies on both buttons; the later one is on top and takes it.
    assert!(panel.on_event(&press(60, 10)));
    assert!(panel.children[1].pressed);
    assert!(!panel.children[0].pressed);
    assert!(!panel.hovered);
    // (10, 10) lies on the lower button only.
    assert!(panel.on_event(&press(10, 10)));
    assert!(panel.children[0].pressed);
}

#[test]
fn unconsumed_event_reaches_the_panel() {
    let mut panel = two_buttons();
    let moved = Event::MouseMove { x: 20, y: 20, modifiers: Modifiers::empty() };
    assert!(!panel.on_event(&moved));
    assert!(panel.hovered);
    assert!(!panel.on_event(&press(180, 50)));
    assert!(!panel.children[0].pressed && !panel.children[1].pressed);
    let away = Event::MouseMove { x: 500, y: 20, modifiers: Modifiers::empty() };
    assert!(!panel.on_event(&away));
    assert!(!panel.hovered);
}

#[test]
fn button_counts_clicks_released_over_it() {
    let mut b = Button::new(rect(10, 10, 20, 20));
    assert!(!b.on_event(&press(30, 30)));
    assert!(b.on_event(&press(10, 10)));
    assert!(b.pressed);
    let up = Event::MouseUp { x: 29, y: 29, button: MouseButton::Left, modifiers: Modifiers::empty() };
    assert!(b.on_event(&up));
    assert_eq!(b.clicks, 1);
    assert!(!b.pressed);
    assert!(!b.on_event(&up));
    b.on_event(&press(15, 15));
    let outside = Event::MouseUp { x: 0, y: 0, button: MouseButton::Left, modifiers: Modifiers::empty() };
    assert!(b.on_event(&outside));
    assert_eq!(b.clicks, 1);
    assert!(!b.pressed);
}

#[test]
fn rect_contains_its_top_left_edges_only() {
    let r = rect(-5, -5, 10, 10);
    assert!(r.contains(-5, -5));
    assert!(r.contains(4, 4));
    assert!(!r.contains(5, 0));
    assert!(!r.contains(0, 5));
    assert!(!r.contains(-6, 0));
    let max = rect(i32::MAX, i32::MAX, u32::MAX, u32::MAX);
    assert!(max.contains(i32::MAX, i32::MAX));
}

#[test]
fn panel_draws_background_then_children_in_order() {
    let mut panel = two_buttons();
    panel.on_event(&press(60, 10));
    let mut canvas = Canvas::new();
    panel.draw(&mut canvas);
    let gray = |v: u8| Color { r: v, g: v, b: v, a: 255 };
    let expected = vec![
        DrawCmd::FillRect { rect: rect(0, 0, 200, 100), color: gray(240) },
        DrawCmd::FillRect { rect: rect(0, 0, 100, 100), color: gray(230) },
        DrawCmd::StrokeRect { rect: rect(0, 0, 100, 100), color: gray(160) },
        DrawCmd::FillRect { rect: rect(50, 0, 100, 100), color: gray(180) },
        DrawCmd::StrokeRect { rect: rect(50, 0, 100, 100), color: gray(160) },
    ];
    assert_eq!(canvas.commands(), &expected);
}

#[test]
fn layout_assigns_the_rect_to_every_child_and_is_idempotent() {
    let mut panel = two_buttons();
    let target = rect(5, 6, 70, 80);
    panel.layout(target);
    assert_eq!(panel.rect, target);
    assert_eq!(panel.children[0].rect, target);
    assert_eq!(panel.children[1].rect, target);
    let mut first = Canvas::new();
    panel.draw(&mut first);
    panel.layout(target);
    let mut second = Canvas::new();
    panel.draw(&mut second);
    assert_eq!(first.commands(), second.commands());
}

#[test]
fn drawing_twice_gives_the_same_frame() {
    let mut window = Window::new(300, 200, two_buttons());
    window.handle_event(&NativeEvent::CursorMoved { x: 60, y: 10 });
    window.handle_event(&NativeEvent::MouseInput { state: ElementState::Pressed, button: MouseButton::Left });
    let first = window.render();
    let second = window.render();
    assert_eq!(first.canvas.commands(), second.canvas.commands());
    assert_eq!(first.canvas.commands()[0], DrawCmd::Clear(Color::rgb(255, 255, 255)));
    assert_eq!(first.canvas.commands().len(), 6);
}

#[test]
fn resize_then_draw_targets_the_new_size() {
    let mut window = Window::new(800, 600, two_buttons());
    assert_eq!(window.size(), (800, 600));
    let reaction = window.handle_event(&NativeEvent::Resized { width: 400, height: 300 });
    assert_eq!(reaction, Reaction::Resize(SurfaceAction::Reallocate { width: 400, height: 300 }));
    assert_eq!(window.size(), (400, 300));
    assert_eq!(window.renderer, GpuSkiaRenderer { width: 400, height: 300 });
    let frame = window.render();
    assert_eq!((frame.width, frame.height), (400, 300));
    assert_eq!(present_outcome(true), Ok(()));
}

#[test]
fn minimized_window_keeps_its_surface() {
    let mut window = Window::new(800, 600, two_buttons());
    let reaction = window.handle_event(&NativeEvent::Resized { width: 0, height: 0 });
    assert_eq!(reaction, Reaction::Resize(SurfaceAction::Keep));
    assert_eq!(window.size(), (0, 0));
    let frame = window.render();
    assert_eq!((frame.width, frame.height), (800, 600));
    let back = window.handle_event(&NativeEvent::Resized { width: 800, height: 600 });
    assert_eq!(back, Reaction::Resize(SurfaceAction::Keep));
}

#[test]
fn window_dispatches_translated_events() {
    let mut window = Window::new(300, 200, two_buttons());
    assert_eq!(window.handle_event(&NativeEvent::Unmapped), Reaction::Ignored);
    assert_eq!(window.handle_event(&NativeEvent::ModifiersChanged(shift())), Reaction::Ignored);
    window.handle_event(&NativeEvent::CursorMoved { x: 10, y: 10 });
    let r = window.handle_event(&NativeEvent::MouseInput { state: ElementState::Pressed, button: MouseButton::Left });
    let expected = Event::MouseDown { x: 10, y: 10, button: MouseButton::Left, modifiers: shift() };
    assert_eq!(r, Reaction::Dispatched { event: expected, consumed: true });
    assert!(window.dispatcher.root().children[0].pressed);
    let r = window.handle_event(&NativeEvent::ReceivedCharacter('a'));
    assert_eq!(r, Reaction::Dispatched { event: Event::CharInput('a'), consumed: false });
}

#[test]
fn failed_present_is_reported() {
    assert_eq!(present_outcome(false), Err(DrawError::PresentFailed));
}

#[test]
fn root_is_laid_out_over_the_window() {
    let mut window = Window::new(800, 600, two_buttons());
    window.handle_event(&NativeEvent::Resized { width: 400, height: 300 });
    window.layout_root();
    let whole = rect(0, 0, 400, 300);
    assert_eq!(window.dispatcher.root().rect, whole);
    assert_eq!(window.dispatcher.root().children[1].rect, whole);
    assert_eq!(window.size(), (400, 300));
}
