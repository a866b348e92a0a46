use hudhook::failure::Failure;
use hudhook::frame::{Frame, FrameAction, FrameEvent, IoUpdate, Point, Rect, Size};

const WINDOW: Rect = Rect { left: -10, top: 20, right: 790, bottom: 620 };
const SIZE: Size = Size { width: 800, height: 600 };

fn focusing() -> Frame {
    let frame = Frame::Describing;
    assert_eq!(frame.next(), FrameAction::Describe);
    let frame = frame.advance(FrameEvent::Described { window: Some(6) });
    assert_eq!(frame.next(), FrameAction::Measure { window: 6 });
    let frame = frame.advance(FrameEvent::Measured { rect: Some(WINDOW) });
    assert_eq!(frame.next(), FrameAction::FindForeground);
    frame
}

fn drawn(mouse_pos: Option<Point>) -> FrameAction {
    FrameAction::Draw { update: IoUpdate { display_size: Some(SIZE), mouse_pos } }
}

#[test]
fn active_window_gets_the_mouse() {
    let frame = focusing().advance(FrameEvent::ForegroundFound { window: 6 });
    assert_eq!(frame.next(), FrameAction::ReadCursor);
    let on_screen = Point { x: 100, y: 200 };
    let frame = frame.advance(FrameEvent::CursorRead { position: Some(on_screen) });
    assert_eq!(frame.next(), FrameAction::Localise { window: 6, position: on_screen });
    let inside = Point { x: 110, y: 180 };
    let frame = frame.advance(FrameEvent::Localised { position: Some(inside) });
    assert_eq!(frame.next(), drawn(Some(inside)));
    let frame = frame.advance(FrameEvent::Drawn);
    assert_eq!(frame.next(), FrameAction::Stop);
}

#[test]
fn child_of_the_active_window_gets_the_mouse() {
    let frame = focusing().advance(FrameEvent::ForegroundFound { window: 7 });
    assert_eq!(frame.next(), FrameAction::AskChild { parent: 7, child: 6 });
    let frame = frame.advance(FrameEvent::ChildAsked { is_child: true });
    assert_eq!(frame.next(), FrameAction::ReadCursor);
}

#[test]
fn inactive_window_keeps_the_mouse_as_it_was() {
    let other = focusing()
        .advance(FrameEvent::ForegroundFound { window: 7 })
        .advance(FrameEvent::ChildAsked { is_child: false });
    assert_eq!(other.next(), drawn(None));
    let nothing = focusing().advance(FrameEvent::ForegroundFound { window: 0 });
    assert_eq!(nothing.next(), drawn(None));
}

#[test]
fn unknown_mouse_stays_as_it_was() {
    let pointing = focusing().advance(FrameEvent::ForegroundFound { window: 6 });
    let unread = pointing.advance(FrameEvent::CursorRead { position: None });
    assert_eq!(unread.next(), drawn(None));
    let unplaced = pointing
        .advance(FrameEvent::CursorRead { position: Some(Point { x: 1, y: 2 }) })
        .advance(FrameEvent::Localised { position: None });
    assert_eq!(unplaced.next(), drawn(None));
}

#[test]
fn window_without_rectangle_is_drawn_as_it_was() {
    let frame = Frame::Measuring { window: 6 }.advance(FrameEvent::Measured { rect: None });
    assert_eq!(
        frame.next(),
        FrameAction::Draw { update: IoUpdate { display_size: None, mouse_pos: None } }
    );
}

#[test]
fn frame_fails_without_a_description() {
    let frame = Frame::Describing.advance(FrameEvent::Described { window: None });
    assert_eq!(frame.next(), FrameAction::Fail { failure: Failure::GetDesc });
    assert_eq!(Failure::GetDesc.message(), "GetDesc");
    assert_eq!(frame.advance(FrameEvent::Drawn), frame);
}

#[test]
fn null_window_in_the_foreground_is_never_active() {
    let frame = Frame::Focusing { window: 0, size: SIZE }
        .advance(FrameEvent::ForegroundFound { window: 0 });
    assert_eq!(frame.next(), drawn(None));
}

#[test]
fn rectangle_is_measured_by_its_edges() {
    assert_eq!(WINDOW.size(), SIZE);
    let inverted = Rect { left: 5, top: 5, right: 0, bottom: 1 };
    assert_eq!(inverted.size(), Size { width: -5, height: -4 });
}

#[test]
fn rectangle_too_wide_is_noticed() {
    let wide = Rect { left: i32::MIN, top: 0, right: 0, bottom: 0 };
    assert!(!wide.check());
    assert!(!FrameEvent::Measured { rect: Some(wide) }.check());
    let tall = Rect { left: 0, top: -1, right: 0, bottom: i32::MAX };
    assert!(!tall.check());
    let fitting = Rect { left: i32::MIN, top: 0, right: -1, bottom: i32::MAX };
    assert!(fitting.check());
    assert!(FrameEvent::Measured { rect: Some(fitting) }.check());
    assert!(FrameEvent::Measured { rect: None }.check());
}
