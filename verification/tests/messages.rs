use hudhook::message::{
    imgui_wnd_proc, Handled, Message, MessageAction, MessageCall, MessageEvent,
};
use hudhook::slots::HookSlots;

const MESSAGE: Message = Message { window: 6, id: 0x0100, wparam: 65, lparam: -1 };

fn slots() -> HookSlots {
    let mut slots = HookSlots::new();
    slots.keep_renderer(7);
    slots
}

fn looked(want_capture: bool, reply: Option<isize>) -> MessageCall {
    let call = imgui_wnd_proc(&slots(), MESSAGE);
    assert_eq!(call.next(), MessageAction::TryLock { renderer: 7 });
    let call = call.advance(MessageEvent::Tried { locked: true });
    assert_eq!(call.next(), MessageAction::Handle { message: MESSAGE });
    let handled = Handled { want_capture, reply };
    let call = call.advance(MessageEvent::Looked { handled, wnd_proc: 99 });
    assert_eq!(call.next(), MessageAction::Release { renderer: 7 });
    call.advance(MessageEvent::Released)
}

#[test]
fn reply_of_the_overlay_goes_before_all() {
    assert_eq!(looked(false, Some(7)).next(), MessageAction::Reply { reply: 7 });
    assert_eq!(looked(true, Some(7)).next(), MessageAction::Reply { reply: 7 });
    assert_eq!(looked(false, Some(0)).next(), MessageAction::Reply { reply: 0 });
}

#[test]
fn captured_message_is_answered_with_one() {
    assert_eq!(looked(true, None).next(), MessageAction::Reply { reply: 1 });
}

#[test]
fn other_message_goes_to_the_procedure_taken_over() {
    let call = looked(false, None);
    assert_eq!(call.next(), MessageAction::Forward { message: MESSAGE, wnd_proc: 99 });
    let call = call.advance(MessageEvent::Replied { reply: 12 });
    assert_eq!(call.next(), MessageAction::Reply { reply: 12 });
    assert_eq!(call.advance(MessageEvent::Replied { reply: 13 }), call);
}

#[test]
fn message_without_renderer_goes_to_the_system() {
    let busy = imgui_wnd_proc(&slots(), MESSAGE).advance(MessageEvent::Tried { locked: false });
    for call in [imgui_wnd_proc(&HookSlots::new(), MESSAGE), busy] {
        assert_eq!(call.next(), MessageAction::Default { message: MESSAGE });
        let call = call.advance(MessageEvent::Replied { reply: 12 });
        assert_eq!(call.next(), MessageAction::Reply { reply: 12 });
    }
}

#[test]
fn message_is_not_handed_on_before_the_renderer_is_released() {
    let handled = Handled { want_capture: false, reply: None };
    let call = imgui_wnd_proc(&slots(), MESSAGE)
        .advance(MessageEvent::Tried { locked: true })
        .advance(MessageEvent::Looked { handled, wnd_proc: 99 })
        .advance(MessageEvent::Replied { reply: 12 });
    assert_eq!(call.next(), MessageAction::Release { renderer: 7 });
}
