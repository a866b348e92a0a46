//! What the overlay learns about its window before it draws a frame.
use crate::failure::Failure;
use vstd::prelude::*;

verus! {

/// A point, in pixels.
#[derive(Clone, Copy, Debug, PartialEq, Eq, Structural)]
pub struct Point {
    pub x: i32,
    pub y: i32,
}

/// A rectangle on the screen, by its edges.
#[derive(Clone, Copy, Debug, PartialEq, Eq, Structural)]
pub struct Rect {
    pub left: i32,
    pub top: i32,
    pub right: i32,
    pub bottom: i32,
}

/// Width and height, in pixels.
#[derive(Clone, Copy, Debug, PartialEq, Eq, Structural)]
pub struct Size {
    pub width: i32,
    pub height: i32,
}

/// `n` is a value of the type `i32`.
pub open spec fn fits_i32(n: int) -> bool {
    i32::MIN <= n <= i32::MAX
}

impl Rect {
    /// The distances between the edges can be told.
    pub open spec fn is_measurable(self) -> bool {
        fits_i32(self.right - self.left) && fits_i32(self.bottom - self.top)
    }

    /// Whether the distances between the edges can be told.
    pub fn check(&self) -> (measurable: bool)
        ensures
            measurable == self.is_measurable(),
    {
        self.right.checked_sub(self.left).is_some() && self.bottom.checked_sub(self.top).is_some()
    }

    /// The distances between the edges.
    pub fn size(&self) -> (size: Size)
        requires
            self.is_measurable(),
        ensures
            size.width == self.right - self.left,
            size.height == self.bottom - self.top,
    {
        Size { width: self.right - self.left, height: self.bottom - self.top }
    }
}

/// The distances between the edges of `rect`.
pub open spec fn rect_size(rect: Rect) -> Size {
    Size { width: (rect.right - rect.left) as i32, height: (rect.bottom - rect.top) as i32 }
}

/// What is told to the user interface. A value that is absent stays as it was.
#[derive(Clone, Copy, Debug, PartialEq, Eq)]
pub struct IoUpdate {
    /// The size of the window.
    pub display_size: Option<Size>,
    /// The position of the mouse within the window.
    pub mouse_pos: Option<Point>,
}

/// A frame, by the call it waits for.
#[derive(Clone, Copy, Debug, PartialEq, Eq)]
pub enum Frame {
    /// The window is to be learnt from the swap chain.
    Describing,
    /// The window is to be measured.
    Measuring { window: isize },
    /// The window in the foreground is to be found.
    Focusing { window: isize, size: Size },
    /// Whether the window is a child of the one in the foreground is to be found out.
    Relating { window: isize, size: Size, active: isize },
    /// The position of the mouse on the screen is to be read.
    Pointing { window: isize, size: Size },
    /// It is to be turned into one within the window.
    Localising { window: isize, size: Size, position: Point },
    /// The frame is to be drawn.
    Drawing { update: IoUpdate },
    /// The frame has been drawn.
    Finished,
    /// The window could not be learnt.
    Failed { failure: Failure },
}

/// The call that a frame waits for.
#[derive(Clone, Copy, Debug, PartialEq, Eq)]
pub enum FrameAction {
    /// Ask the swap chain for its description.
    Describe,
    /// Ask for the rectangle of a window.
    Measure { window: isize },
    /// Ask for the window in the foreground.
    FindForeground,
    /// Ask whether `child` is a child of `parent`.
    AskChild { parent: isize, child: isize },
    /// Ask for the position of the mouse on the screen.
    ReadCursor,
    /// Turn a position on the screen into one within a window.
    Localise { window: isize, position: Point },
    /// Tell the user interface of the update, then draw it.
    Draw { update: IoUpdate },
    /// Nothing: the frame is over.
    Stop,
    /// Nothing: the frame has failed.
    Fail { failure: Failure },
}

/// What a call answered.
#[derive(Clone, Copy, Debug, PartialEq, Eq)]
pub enum FrameEvent {
    /// The window of the swap chain, if it described itself.
    Described { window: Option<isize> },
    /// The rectangle of the window, if it could be told.
    Measured { rect: Option<Rect> },
    /// The window in the foreground, null if there is none.
    ForegroundFound { window: isize },
    /// Whether the window is a child of the one in the foreground.
    ChildAsked { is_child: bool },
    /// The position of the mouse on the screen, if it could be told.
    CursorRead { position: Option<Point> },
    /// Its position within the window, if it could be told.
    Localised { position: Option<Point> },
    /// The frame has been drawn, with success or without.
    Drawn,
}

impl FrameEvent {
    /// A rectangle is measurable.
    pub open spec fn is_sound(self) -> bool {
        self matches FrameEvent::Measured { rect: Some(rect) } ==> rect.is_measurable()
    }

    /// Whether a rectangle, if there is one, is measurable.
    pub fn check(&self) -> (sound: bool)
        ensures
            sound == self.is_sound(),
    {
        match self {
            FrameEvent::Measured { rect: Some(rect) } => rect.check(),
            _ => true,
        }
    }
}

impl Frame {
    /// The call to make.
    pub open spec fn request(self) -> FrameAction {
        match self {
            Frame::Describing => FrameAction::Describe,
            Frame::Measuring { window } => FrameAction::Measure { window },
            Frame::Focusing { window, size } => FrameAction::FindForeground,
            Frame::Relating { window, size, active } => FrameAction::AskChild {
                parent: active,
                child: window,
            },
            Frame::Pointing { window, size } => FrameAction::ReadCursor,
            Frame::Localising { window, size, position } => FrameAction::Localise {
                window,
                position,
            },
            Frame::Drawing { update } => FrameAction::Draw { update },
            Frame::Finished => FrameAction::Stop,
            Frame::Failed { failure } => FrameAction::Fail { failure },
        }
    }

    /// The frame is ready to be drawn, in a window of `size`, the mouse as it was.
    pub open spec fn ready(size: Size) -> Frame {
        Frame::Drawing { update: IoUpdate { display_size: Some(size), mouse_pos: None } }
    }

    /// The frame after an answer. An answer to a call that it does not wait for changes
    /// nothing.
    pub open spec fn after(self, event: FrameEvent) -> Frame {
        match (self, event) {
            (Frame::Describing, FrameEvent::Described { window: Some(window) }) =>
                Frame::Measuring { window },
            (Frame::Describing, FrameEvent::Described { window: None }) => Frame::Failed {
                failure: Failure::GetDesc,
            },
            (Frame::Measuring { window }, FrameEvent::Measured { rect: Some(rect) }) =>
                Frame::Focusing { window, size: rect_size(rect) },
            (Frame::Measuring { window }, FrameEvent::Measured { rect: None }) => Frame::Drawing {
                update: IoUpdate { display_size: None, mouse_pos: None },
            },
            (Frame::Focusing { window, size }, FrameEvent::ForegroundFound { window: active }) =>
                if active == 0 {
                    Frame::ready(size)
                } else if active == window {
                    Frame::Pointing { window, size }
                } else {
                    Frame::Relating { window, size, active }
                },
            (Frame::Relating { window, size, active }, FrameEvent::ChildAsked { is_child }) =>
                if is_child {
                    Frame::Pointing { window, size }
                } else {
                    Frame::ready(size)
                },
            (
                Frame::Pointing { window, size },
                FrameEvent::CursorRead { position: Some(position) },
            ) => Frame::Localising { window, size, position },
            (Frame::Pointing { window, size }, FrameEvent::CursorRead { position: None }) =>
                Frame::ready(size),
            (
                Frame::Localising { window, size, position: on_screen },
                FrameEvent::Localised { position },
            ) => Frame::Drawing {
                update: IoUpdate { display_size: Some(size), mouse_pos: position },
            },
            (Frame::Drawing { update }, FrameEvent::Drawn) => Frame::Finished,
            _ => self,
        }
    }

    /// The call to make next.
    pub fn next(&self) -> (action: FrameAction)
        ensures
            action == self.request(),
    {
        match *self {
            Frame::Describing => FrameAction::Describe,
            Frame::Measuring { window } => FrameAction::Measure { window },
            Frame::Focusing { .. } => FrameAction::FindForeground,
            Frame::Relating { window, active, .. } => FrameAction::AskChild {
                parent: active,
                child: window,
            },
            Frame::Pointing { .. } => FrameAction::ReadCursor,
            Frame::Localising { window, position, .. } => FrameAction::Localise {
                window,
                position,
            },
            Frame::Drawing { update } => FrameAction::Draw { update },
            Frame::Finished => FrameAction::Stop,
            Frame::Failed { failure } => FrameAction::Fail { failure },
        }
    }

    /// Takes in what the last call answered.
    pub fn advance(self, event: FrameEvent) -> (frame: Frame)
        requires
            event.is_sound(),
        ensures
            frame == self.after(event),
    {
        match (self, event) {
            (Frame::Describing, FrameEvent::Described { window: Some(window) }) =>
                Frame::Measuring { window },
            (Frame::Describing, FrameEvent::Described { window: None }) => Frame::Failed {
                failure: Failure::GetDesc,
            },
            (Frame::Measuring { window }, FrameEvent::Measured { rect: Some(rect) }) => {
                let size = rect.size();
                Frame::Focusing { window, size }
            },
            (Frame::Measuring { .. }, FrameEvent::Measured { rect: None }) => Frame::Drawing {
                update: IoUpdate { display_size: None, mouse_pos: None },
            },
            (
                Frame::Focusing { window, size },
                FrameEvent::ForegroundFound { window: active },
            ) => {
                if active == 0 {
                    still(size)
                } else if active == window {
                    Frame::Pointing { window, size }
                } else {
                    Frame::Relating { window, size, active }
                }
            },
            (Frame::Relating { window, size, .. }, FrameEvent::ChildAsked { is_child }) => {
                if is_child {
                    Frame::Pointing { window, size }
                } else {
                    still(size)
                }
            },
            (
                Frame::Pointing { window, size },
                FrameEvent::CursorRead { position: Some(position) },
            ) => Frame::Localising { window, size, position },
            (Frame::Pointing { size, .. }, FrameEvent::CursorRead { position: None }) =>
                still(size),
            (Frame::Localising { size, .. }, FrameEvent::Localised { position }) =>
                Frame::Drawing {
                    update: IoUpdate { display_size: Some(size), mouse_pos: position },
                },
            (Frame::Drawing { .. }, FrameEvent::Drawn) => Frame::Finished,
            _ => self,
        }
    }
}

/// A frame ready to be drawn in a window of `size`, the mouse as it was.
fn still(size: Size) -> (frame: Frame)
    ensures
        frame == Frame::ready(size),
{
    Frame::Drawing { update: IoUpdate { display_size: Some(size), mouse_pos: None } }
}

/// Everything that the system would answer during one frame.
pub struct FrameAnswers {
    /// The window of the swap chain.
    pub window: isize,
    /// Its rectangle.
    pub rect: Option<Rect>,
    /// The window in the foreground.
    pub foreground: isize,
    /// Whether the former is a child of the latter.
    pub is_child: bool,
    /// The position of the mouse on the screen.
    pub cursor: Option<Point>,
    /// The position of the mouse within the window.
    pub local: Option<Point>,
}

impl FrameAnswers {
    /// The answer to a call.
    pub open spec fn answer(self, action: FrameAction) -> FrameEvent {
        match action {
            FrameAction::Describe => FrameEvent::Described { window: Some(self.window) },
            FrameAction::Measure { .. } => FrameEvent::Measured { rect: self.rect },
            FrameAction::FindForeground => FrameEvent::ForegroundFound { window: self.foreground },
            FrameAction::AskChild { .. } => FrameEvent::ChildAsked { is_child: self.is_child },
            FrameAction::ReadCursor => FrameEvent::CursorRead { position: self.cursor },
            FrameAction::Localise { .. } => FrameEvent::Localised { position: self.local },
            _ => FrameEvent::Drawn,
        }
    }

    /// The window, or one that it is a child of, is in the foreground.
    pub open spec fn is_active(self) -> bool {
        self.foreground != 0 && (self.foreground == self.window || self.is_child)
    }

    /// What the user interface is to be told: the size of the window wherever it can be
    /// measured, and the position of the mouse if the window is active besides.
    pub open spec fn update(self) -> IoUpdate {
        IoUpdate {
            display_size: match self.rect {
                Some(rect) => Some(rect_size(rect)),
                None => None,
            },
            mouse_pos: if self.rect is Some && self.is_active() && self.cursor is Some {
                self.local
            } else {
                None
            },
        }
    }
}

impl Frame {
    /// How many calls are left to make, at most.
    pub open spec fn calls_left(self) -> nat {
        match self {
            Frame::Describing => 7,
            Frame::Measuring { .. } => 6,
            Frame::Focusing { .. } => 5,
            Frame::Relating { .. } => 4,
            Frame::Pointing { .. } => 3,
            Frame::Localising { .. } => 2,
            Frame::Drawing { .. } => 1,
            Frame::Finished => 0,
            Frame::Failed { .. } => 0,
        }
    }

    /// The frame once every call up to the drawing has been answered.
    pub open spec fn answered(self, answers: FrameAnswers) -> Frame
        decreases self.calls_left(),
    {
        if self.calls_left() <= 1 {
            self
        } else {
            self.after(answers.answer(self.request())).answered(answers)
        }
    }
}

/// Every frame whose window is known is drawn, and the user interface is told of the
/// size of the window wherever it can be measured, and of the position of the mouse
/// if the window is active besides.
pub proof fn law_frame_draws_what_it_learnt(answers: FrameAnswers)
    ensures
        Frame::Describing.answered(answers).request() == (FrameAction::Draw {
            update: answers.update(),
        }),
{
    reveal_with_fuel(Frame::answered, 8);
}

/// While the window is not active nobody asks where the mouse is.
pub proof fn law_mouse_is_left_alone_while_inactive(
    window: isize,
    size: Size,
    foreground: isize,
    is_child: bool,
)
    requires
        foreground == 0 || (foreground != window && !is_child),
    ensures
        ({
            let focusing = (Frame::Focusing { window, size });
            let found = focusing.after(FrameEvent::ForegroundFound { window: foreground });
            let asked = found.after(FrameEvent::ChildAsked { is_child });
            &&& asked.request() == (FrameAction::Draw {
                update: IoUpdate { display_size: Some(size), mouse_pos: None },
            })
            &&& found == asked || found.request() == (FrameAction::AskChild {
                parent: foreground,
                child: window,
            })
        }),
{
}

/// A swap chain that does not describe itself ends the frame before it is drawn.
pub proof fn law_frame_without_window_fails(event: FrameEvent)
    ensures
        ({
            let failed = Frame::Describing.after(FrameEvent::Described { window: None });
            &&& failed.request() == (FrameAction::Fail { failure: Failure::GetDesc })
            &&& failed.after(event) == failed
        }),
{
}

/// An answer brings the drawing nearer or, where another call was waited for, changes
/// nothing.
pub proof fn law_answers_bring_the_drawing_nearer(frame: Frame, event: FrameEvent)
    ensures
        frame.after(event).calls_left() < frame.calls_left() || frame.after(event) == frame,
        frame.calls_left() == 0 <==> frame.request() is Stop || frame.request() is Fail,
{
}

/// A rectangle can be measured exactly where neither distance between its edges leaves
/// the range of its coordinates.
pub proof fn law_rectangles_out_of_range_are_noticed(rect: Rect)
    ensures
        rect.is_measurable() <==> {
            &&& -0x8000_0000 <= rect.right - rect.left <= 0x7fff_ffff
            &&& -0x8000_0000 <= rect.bottom - rect.top <= 0x7fff_ffff
        },
        (FrameEvent::Measured { rect: Some(rect) }).is_sound() <==> rect.is_measurable(),
        (FrameEvent::Measured { rect: None }).is_sound(),
{
}

/// Only a rectangle can be at fault in an answer.
pub proof fn law_other_answers_are_sound(event: FrameEvent)
    ensures
        event !is Measured ==> event.is_sound(),
{
}

/// The window is measured by its edges: the width is the distance from the left one to
/// the right one, the height that from the top to the bottom.
pub proof fn law_window_is_measured_by_its_edges(window: isize, rect: Rect)
    requires
        -0x8000_0000 <= rect.right - rect.left <= 0x7fff_ffff,
        -0x8000_0000 <= rect.bottom - rect.top <= 0x7fff_ffff,
    ensures
        ({
            let measured = (Frame::Measuring { window }).after(
                FrameEvent::Measured { rect: Some(rect) },
            );
            &&& measured matches Frame::Focusing { window: kept, size }
            &&& kept == window
            &&& size.width == rect.right - rect.left
            &&& size.height == rect.bottom - rect.top
        }),
{
}

/// What a frame is drawn with, by what the system answered. The size is told wherever the
/// window could be measured. The mouse is told if besides that the window is in the
/// foreground or a child of the window there, and the mouse could be found on the screen
/// and within the window; otherwise it stays as it was.
pub proof fn law_frame_is_drawn_with_size_and_mouse(
    window: isize,
    rect: Option<Rect>,
    foreground: isize,
    is_child: bool,
    cursor: Option<Point>,
    local: Option<Point>,
)
    requires
        rect matches Some(rect) ==> {
            &&& -0x8000_0000 <= rect.right - rect.left <= 0x7fff_ffff
            &&& -0x8000_0000 <= rect.bottom - rect.top <= 0x7fff_ffff
        },
    ensures
        ({
            let measuring = Frame::Describing.after(
                FrameEvent::Described { window: Some(window) },
            );
            let measured = measuring.after(FrameEvent::Measured { rect });
            let found = measured.after(FrameEvent::ForegroundFound { window: foreground });
            let related = found.after(FrameEvent::ChildAsked { is_child });
            let read = related.after(FrameEvent::CursorRead { position: cursor });
            let drawing = read.after(FrameEvent::Localised { position: local });
            let active = foreground != 0 && (foreground == window || is_child);
            &&& Frame::Describing.request() is Describe
            &&& measuring.request() == (FrameAction::Measure { window })
            &&& rect is Some ==> measured.request() is FindForeground
            &&& rect is Some && foreground != 0 && foreground != window ==> found.request() == (
            FrameAction::AskChild { parent: foreground, child: window })
            &&& rect is Some && active ==> related.request() is ReadCursor
            &&& rect is Some && active && cursor is Some ==> read.request() == (
            FrameAction::Localise { window, position: cursor->0 })
            &&& drawing.request() is Draw
            &&& rect is None ==> drawing.request()->update.display_size is None
            &&& rect is Some ==> {
                &&& drawing.request()->update.display_size is Some
                &&& drawing.request()->update.display_size->0.width == rect->0.right
                    - rect->0.left
                &&& drawing.request()->update.display_size->0.height == rect->0.bottom
                    - rect->0.top
            }
            &&& rect is Some && active && cursor is Some
                ==> drawing.request()->update.mouse_pos == local
            &&& rect is None || !active || cursor is None
                ==> drawing.request()->update.mouse_pos is None
            &&& drawing.after(FrameEvent::Drawn).request() is Stop
        }),
{
}

/// Only an answer to the call that a frame waits for moves it.
pub proof fn law_unasked_answers_leave_a_frame(frame: Frame, event: FrameEvent)
    ensures
        frame.after(event) != frame ==> {
            ||| frame.request() is Describe && event is Described
            ||| frame.request() is Measure && event is Measured
            ||| frame.request() is FindForeground && event is ForegroundFound
            ||| frame.request() is AskChild && event is ChildAsked
            ||| frame.request() is ReadCursor && event is CursorRead
            ||| frame.request() is Localise && event is Localised
            ||| frame.request() is Draw && event is Drawn
        },
{
}

} // verus!
