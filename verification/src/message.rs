//! What becomes of a message to the window.
use crate::slots::{HookSlots, SlotsView};
use vstd::prelude::*;

verus! {

/// The reply to a message that the overlay keeps to itself.
pub const CAPTURED: isize = 1;

/// A message to a window.
#[derive(Clone, Copy, Debug, PartialEq, Eq, Structural)]
pub struct Message {
    pub window: isize,
    pub id: u32,
    pub wparam: usize,
    pub lparam: isize,
}

/// What the overlay makes of a message.
#[derive(Clone, Copy, Debug, PartialEq, Eq)]
pub struct Handled {
    /// Whether the overlay wants to keep the message to itself.
    pub want_capture: bool,
    /// The reply, where the overlay has one.
    pub reply: Option<isize>,
}

/// What is left to do for a message.
#[derive(Clone, Copy, Debug, PartialEq, Eq, Structural)]
pub enum Conclusion {
    /// To reply.
    Reply { reply: isize },
    /// To call the window procedure that was taken over.
    Forward { message: Message, wnd_proc: isize },
}

/// A message, by the call it waits for.
#[derive(Clone, Copy, Debug, PartialEq, Eq, Structural)]
pub enum MessageCall {
    /// The renderer is to be locked, unless somebody else has.
    Locking { message: Message, renderer: usize },
    /// The overlay is to look at the message.
    Handling { message: Message, renderer: usize },
    /// The renderer is to be released.
    Releasing { renderer: usize, conclusion: Conclusion },
    /// The window procedure that was taken over is to be called.
    Forwarding { message: Message, wnd_proc: isize },
    /// The system's own procedure is to be called.
    Defaulting { message: Message },
    /// The reply is known.
    Replying { reply: isize },
}

/// The call that a message waits for.
#[derive(Clone, Copy, Debug, PartialEq, Eq, Structural)]
pub enum MessageAction {
    /// Try to lock the renderer.
    TryLock { renderer: usize },
    /// Let the overlay look at the message.
    Handle { message: Message },
    /// Release the renderer.
    Release { renderer: usize },
    /// Call the window procedure `wnd_proc`.
    Forward { message: Message, wnd_proc: isize },
    /// Call the system's own procedure.
    Default { message: Message },
    /// Reply.
    Reply { reply: isize },
}

/// What a call answered.
#[derive(Clone, Copy, Debug, PartialEq, Eq)]
pub enum MessageEvent {
    /// Whether the renderer has been locked; if not, somebody else has.
    Tried { locked: bool },
    /// What the overlay made of the message, and the window procedure that the renderer
    /// took over.
    Looked { handled: Handled, wnd_proc: isize },
    /// The renderer has been released.
    Released,
    /// The reply of the procedure that was called.
    Replied { reply: isize },
}

/// What is left to do once the overlay has looked at `message`: a reply of the overlay
/// goes before all else, then its wish to keep the message.
pub open spec fn concluded(message: Message, handled: Handled, wnd_proc: isize) -> Conclusion {
    match handled.reply {
        Some(reply) => Conclusion::Reply { reply },
        None => if handled.want_capture {
            Conclusion::Reply { reply: CAPTURED }
        } else {
            Conclusion::Forward { message, wnd_proc }
        },
    }
}

/// A message that starts to be seen to.
pub open spec fn message_started(slots: SlotsView, message: Message) -> MessageCall {
    match slots.renderer {
        Some(renderer) => MessageCall::Locking { message, renderer },
        None => MessageCall::Defaulting { message },
    }
}

impl MessageCall {
    /// The call to make.
    pub open spec fn request(self) -> MessageAction {
        match self {
            MessageCall::Locking { message, renderer } => MessageAction::TryLock { renderer },
            MessageCall::Handling { message, renderer } => MessageAction::Handle { message },
            MessageCall::Releasing { renderer, conclusion } => MessageAction::Release { renderer },
            MessageCall::Forwarding { message, wnd_proc } => MessageAction::Forward {
                message,
                wnd_proc,
            },
            MessageCall::Defaulting { message } => MessageAction::Default { message },
            MessageCall::Replying { reply } => MessageAction::Reply { reply },
        }
    }

    /// The message after an answer. An answer to a call that it does not wait for
    /// changes nothing.
    pub open spec fn after(self, event: MessageEvent) -> MessageCall {
        match (self, event) {
            (MessageCall::Locking { message, renderer }, MessageEvent::Tried { locked }) =>
                if locked {
                    MessageCall::Handling { message, renderer }
                } else {
                    MessageCall::Defaulting { message }
                },
            (
                MessageCall::Handling { message, renderer },
                MessageEvent::Looked { handled, wnd_proc },
            ) => MessageCall::Releasing {
                renderer,
                conclusion: concluded(message, handled, wnd_proc),
            },
            (MessageCall::Releasing { renderer, conclusion }, MessageEvent::Released) =>
                match conclusion {
                    Conclusion::Reply { reply } => MessageCall::Replying { reply },
                    Conclusion::Forward { message, wnd_proc } => MessageCall::Forwarding {
                        message,
                        wnd_proc,
                    },
                },
            (
                MessageCall::Forwarding { message, wnd_proc },
                MessageEvent::Replied { reply },
            ) => MessageCall::Replying { reply },
            (MessageCall::Defaulting { message }, MessageEvent::Replied { reply }) =>
                MessageCall::Replying { reply },
            _ => self,
        }
    }

    /// How many calls are left, at most.
    pub open spec fn calls_left(self) -> nat {
        match self {
            MessageCall::Locking { message, renderer } => 4,
            MessageCall::Handling { message, renderer } => 3,
            MessageCall::Releasing { renderer, conclusion } => 2,
            MessageCall::Forwarding { message, wnd_proc } => 1,
            MessageCall::Defaulting { message } => 1,
            MessageCall::Replying { reply } => 0,
        }
    }

    /// The renderer that is locked.
    pub open spec fn locked(self) -> Option<usize> {
        match self {
            MessageCall::Handling { message, renderer } => Some(renderer),
            MessageCall::Releasing { renderer, conclusion } => Some(renderer),
            _ => None,
        }
    }

    /// The call to make next.
    pub fn next(&self) -> (action: MessageAction)
        ensures
            action == self.request(),
    {
        match *self {
            MessageCall::Locking { renderer, .. } => MessageAction::TryLock { renderer },
            MessageCall::Handling { message, .. } => MessageAction::Handle { message },
            MessageCall::Releasing { renderer, .. } => MessageAction::Release { renderer },
            MessageCall::Forwarding { message, wnd_proc } => MessageAction::Forward {
                message,
                wnd_proc,
            },
            MessageCall::Defaulting { message } => MessageAction::Default { message },
            MessageCall::Replying { reply } => MessageAction::Reply { reply },
        }
    }

    /// Takes in what the last call answered.
    pub fn advance(self, event: MessageEvent) -> (call: MessageCall)
        ensures
            call == self.after(event),
    {
        match (self, event) {
            (MessageCall::Locking { message, renderer }, MessageEvent::Tried { locked }) => {
                if locked {
                    MessageCall::Handling { message, renderer }
                } else {
                    MessageCall::Defaulting { message }
                }
            },
            (
                MessageCall::Handling { message, renderer },
                MessageEvent::Looked { handled, wnd_proc },
            ) => {
                let conclusion = match handled.reply {
                    Some(reply) => Conclusion::Reply { reply },
                    None => {
                        if handled.want_capture {
                            Conclusion::Reply { reply: CAPTURED }
                        } else {
                            Conclusion::Forward { message, wnd_proc }
                        }
                    },
                };
                MessageCall::Releasing { renderer, conclusion }
            },
            (MessageCall::Releasing { conclusion, .. }, MessageEvent::Released) => {
                match conclusion {
                    Conclusion::Reply { reply } => MessageCall::Replying { reply },
                    Conclusion::Forward { message, wnd_proc } => MessageCall::Forwarding {
                        message,
                        wnd_proc,
                    },
                }
            },
            (MessageCall::Forwarding { .. }, MessageEvent::Replied { reply }) =>
                MessageCall::Replying { reply },
            (MessageCall::Defaulting { .. }, MessageEvent::Replied { reply }) =>
                MessageCall::Replying { reply },
            _ => self,
        }
    }
}

/// Starts to see to a message.
pub fn imgui_wnd_proc(slots: &HookSlots, message: Message) -> (call: MessageCall)
    ensures
        call == message_started(slots@, message),
{
    match slots.renderer() {
        Some(renderer) => MessageCall::Locking { message, renderer },
        None => MessageCall::Defaulting { message },
    }
}

/// Where there is no renderer, or somebody else has locked it, the message goes
/// unchanged to the system's own procedure, whose reply is the reply.
pub proof fn law_message_without_renderer_is_left_to_the_system(
    slots: SlotsView,
    message: Message,
    reply: isize,
)
    ensures
        ({
            let started = message_started(slots, message);
            let refused = started.after(MessageEvent::Tried { locked: false });
            let replied = refused.after(MessageEvent::Replied { reply });
            &&& slots.renderer is None ==> started == refused
            &&& slots.renderer is Some ==> started.request() == (MessageAction::TryLock {
                renderer: slots.renderer->0,
            })
            &&& refused.request() == (MessageAction::Default { message })
            &&& replied.request() == (MessageAction::Reply { reply })
        }),
{
}

/// With the renderer the overlay sees the message first, and the renderer is then
/// released. If the overlay has a reply, or wants to keep the message, no other
/// procedure is called; otherwise the message goes unchanged to the procedure that was
/// taken over, whose reply is the reply.
pub proof fn law_overlay_comes_first(
    slots: SlotsView,
    message: Message,
    handled: Handled,
    wnd_proc: isize,
    reply: isize,
)
    requires
        slots.renderer is Some,
    ensures
        ({
            let renderer = slots.renderer->0;
            let tried = message_started(slots, message).after(
                MessageEvent::Tried { locked: true },
            );
            let looked = tried.after(MessageEvent::Looked { handled, wnd_proc });
            let released = looked.after(MessageEvent::Released);
            let replied = released.after(MessageEvent::Replied { reply });
            &&& tried.request() == (MessageAction::Handle { message })
            &&& looked.request() == (MessageAction::Release { renderer })
            &&& handled.reply is Some ==> released.request() == (MessageAction::Reply {
                reply: handled.reply->0,
            })
            &&& handled.reply is None && handled.want_capture ==> released.request() == (
            MessageAction::Reply { reply: CAPTURED })
            &&& handled.reply is None && !handled.want_capture ==> {
                &&& released.request() == (MessageAction::Forward { message, wnd_proc })
                &&& replied.request() == (MessageAction::Reply { reply })
            }
        }),
{
}

/// Whatever the order of answers, the renderer is locked only by a lock that was asked
/// for and granted, and stays so until it has been released; whenever another procedure
/// is called or the reply is given, it is not locked.
pub proof fn law_no_procedure_is_called_under_the_lock(call: MessageCall, event: MessageEvent)
    ensures
        call.request() is Forward || call.request() is Default || call.request() is Reply
            || call.request() is TryLock ==> call.locked() is None,
        call.request() is Handle ==> call.locked() is Some,
        call.locked() is None && call.after(event).locked() is Some ==> {
            &&& call.request() == (MessageAction::TryLock {
                renderer: call.after(event).locked()->0,
            })
            &&& event == (MessageEvent::Tried { locked: true })
        },
        call.locked() is Some && call.after(event).locked() != call.locked() ==> {
            &&& call.request() == (MessageAction::Release { renderer: call.locked()->0 })
            &&& event is Released
            &&& call.after(event).locked() is None
        },
{
}

/// An answer brings the reply nearer or, where another call was waited for, changes
/// nothing: no call is made twice, and at most one procedure is called.
pub proof fn law_message_makes_each_call_once(call: MessageCall, event: MessageEvent)
    ensures
        call.after(event) == call || call.after(event).calls_left() < call.calls_left(),
        call.calls_left() == 0 <==> call.request() is Reply,
        call.calls_left() == 1 <==> call.request() is Forward || call.request() is Default,
{
}

/// A reply, once given, stands.
pub proof fn law_reply_stands(reply: isize, event: MessageEvent)
    ensures
        (MessageCall::Replying { reply }).after(event) == (MessageCall::Replying { reply }),
{
}

/// Only an answer to the call that a message waits for moves it.
pub proof fn law_unasked_answers_leave_a_message(call: MessageCall, event: MessageEvent)
    ensures
        call.after(event) != call ==> {
            ||| call.request() is TryLock && event is Tried
            ||| call.request() is Handle && event is Looked
            ||| call.request() is Release && event is Released
            ||| call.request() is Forward && event is Replied
            ||| call.request() is Default && event is Replied
        },
{
}

/// The reply to a message: the overlay's own where it has one; else 1 where it keeps the
/// message; else what the procedure that was taken over replied, or, where the overlay
/// did not get to see the message, the system's own procedure.
pub proof fn law_reply_comes_from_who_saw_the_message_last(
    slots: SlotsView,
    message: Message,
    locked: bool,
    handled: Handled,
    wnd_proc: isize,
    reply: isize,
)
    ensures
        ({
            let started = message_started(slots, message);
            let done = started.after(MessageEvent::Tried { locked }).after(
                MessageEvent::Looked { handled, wnd_proc },
            ).after(MessageEvent::Released).after(MessageEvent::Replied { reply });
            let seen = slots.renderer is Some && locked;
            &&& done.request() is Reply
            &&& !seen ==> done.request()->Reply_reply == reply
            &&& seen && handled.reply is Some ==> done.request()->Reply_reply == handled.reply->0
            &&& seen && handled.reply is None && handled.want_capture
                ==> done.request()->Reply_reply == 1
            &&& seen && handled.reply is None && !handled.want_capture
                ==> done.request()->Reply_reply == reply
        }),
{
}

} // verus!
