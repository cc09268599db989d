//! A library for handling button state and events.
//!
//! A [`ButtonController`] turns a stream of raw input samples (pointer
//! motion, primary-button press and release, touch start/move/end/cancel)
//! into discrete semantic events (mouse enter, mouse leave, press, click,
//! cancel) and a derived visual state usable to pick a rendering style.
//!
//! Events accumulate in an internal queue; the host is expected to read and
//! clear the queue after each intake call (see
//! [`ButtonController::events`] and [`ButtonController::clear_events`]).
//!
//! Positions are integer units in whatever space the host reports input; the
//! current layout rectangle and rendering transform are supplied fresh with
//! every sample. Timestamps are integer ticks of whatever never-regressing
//! clock the host uses; they matter only to the pressed-appearance grace
//! period, never to the click/cancel logic.

use vstd::prelude::*;

pub mod math;

use crate::math::{Matrix2d, Rectangle, Vec2d, det, is_inside, is_inside_spec};

verus! {

/// Button event signals.
#[derive(Clone, Copy, PartialEq, Eq, Structural, Debug)]
pub enum ButtonEvent {
    /// Mouse entered button.
    MouseEnter,
    /// Mouse left button.
    MouseLeave,
    /// Button was pressed.
    Press,
    /// The button was clicked.
    Click,
    /// The button press was canceled.
    Cancel,
}

/// One pointer-style input sample.
///
/// A raw sample may carry any combination of a cursor position, a
/// primary-button press signal and a primary-button release signal; most
/// input systems deliver one of them per sample. Signals of non-primary
/// buttons are the host's to drop before building a sample.
#[derive(Clone, Copy, PartialEq, Eq, Structural, Debug)]
pub struct PointerSample {
    /// New cursor position, if the sample carries motion.
    pub cursor: Option<Vec2d>,
    /// Whether the sample carries a primary-button press.
    pub press: bool,
    /// Whether the sample carries a primary-button release.
    pub release: bool,
}

/// The phase of a touch contact.
#[derive(Clone, Copy, PartialEq, Eq, Structural, Debug)]
pub enum TouchPhase {
    /// The contact began.
    Start,
    /// The contact moved.
    Move,
    /// The contact ended normally.
    End,
    /// The hardware canceled the contact.
    Cancel,
}

/// One touch-style input sample: a phase and a position, already scaled to
/// the same space in which pointer positions are reported.
#[derive(Clone, Copy, PartialEq, Eq, Structural, Debug)]
pub struct TouchSample {
    /// Which phase the contact is in.
    pub phase: TouchPhase,
    /// Position of the contact.
    pub position: Vec2d,
}

/// Mathematical model of a [`ButtonController`]: its flags, press timestamp
/// and the queue of pending events.
#[verifier::ext_equal]
pub ghost struct ButtonModel {
    /// Whether the last known position fell inside the rectangle.
    pub mouse_cursor_inside: bool,
    /// Whether the most recent press began inside the rectangle.
    pub was_inside: bool,
    /// Whether the primary button or touch contact is held down.
    pub pressed: bool,
    /// Tick of the most recent press, if any press ever happened.
    pub pressed_at: Option<u64>,
    /// Pending semantic events, oldest first.
    pub events: Seq<ButtonEvent>,
}

/// The model of a freshly created controller: all flags false, no press
/// recorded, no pending events.
pub open spec fn initial_model() -> ButtonModel {
    ButtonModel {
        mouse_cursor_inside: false,
        was_inside: false,
        pressed: false,
        pressed_at: None,
        events: Seq::empty(),
    }
}

/// How a cursor-motion observation updates the model: exactly one
/// `MouseEnter` or `MouseLeave` per transition of the inside flag, nothing on
/// a no-op resample.
pub open spec fn motion_step(s: ButtonModel, inside: bool) -> ButtonModel {
    if inside && !s.mouse_cursor_inside {
        ButtonModel {
            mouse_cursor_inside: true,
            events: s.events.push(ButtonEvent::MouseEnter),
            ..s
        }
    } else if !inside && s.mouse_cursor_inside {
        ButtonModel {
            mouse_cursor_inside: false,
            events: s.events.push(ButtonEvent::MouseLeave),
            ..s
        }
    } else {
        s
    }
}

/// How a primary-button press updates the model: accepted only while the
/// cursor is inside, in which case it sets the pressed flags, records the
/// press tick and emits `Press`; a press outside changes nothing.
pub open spec fn press_step(s: ButtonModel, now: u64) -> ButtonModel {
    if s.mouse_cursor_inside {
        ButtonModel {
            pressed: true,
            was_inside: true,
            pressed_at: Some(now),
            events: s.events.push(ButtonEvent::Press),
            ..s
        }
    } else {
        s
    }
}

/// The terminal event a release emits: `Click` when the cursor is inside,
/// `Cancel` when it left after an accepted press, nothing otherwise.
pub open spec fn release_events(s: ButtonModel) -> Seq<ButtonEvent> {
    if s.mouse_cursor_inside {
        s.events.push(ButtonEvent::Click)
    } else if s.was_inside {
        s.events.push(ButtonEvent::Cancel)
    } else {
        s.events
    }
}

/// How a primary-button release updates the model: the pressed flag drops
/// unconditionally, at most one terminal event is emitted, and `was_inside`
/// is cleared. The cursor-inside flag persists: a mouse cursor outlives the
/// release.
pub open spec fn release_step(s: ButtonModel) -> ButtonModel {
    ButtonModel {
        pressed: false,
        was_inside: false,
        events: release_events(s),
        ..s
    }
}

/// How one pointer sample updates the model: motion first, then press, then
/// release, each only if the sample carries it.
pub open spec fn pointer_step(
    s: ButtonModel,
    layout: Rectangle,
    transform: Matrix2d,
    sample: PointerSample,
    now: u64,
) -> ButtonModel {
    let s1 = match sample.cursor {
        Some(pos) => motion_step(s, is_inside_spec(pos, transform, layout)),
        None => s,
    };
    let s2 = if sample.press {
        press_step(s1, now)
    } else {
        s1
    };
    if sample.release {
        release_step(s2)
    } else {
        s2
    }
}

/// How a touch start updates the model: a contact beginning inside enters
/// and presses atomically (no separate enter event); one beginning outside is
/// never tracked.
pub open spec fn touch_start_step(s: ButtonModel, inside: bool, now: u64) -> ButtonModel {
    if inside {
        ButtonModel {
            pressed: true,
            was_inside: true,
            mouse_cursor_inside: true,
            pressed_at: Some(now),
            events: s.events.push(ButtonEvent::Press),
        }
    } else {
        s
    }
}

/// How a touch end updates the model: like a release, but it also clears the
/// cursor-inside flag, since no hover outlives a touch contact.
pub open spec fn touch_end_step(s: ButtonModel) -> ButtonModel {
    ButtonModel {
        pressed: false,
        was_inside: false,
        mouse_cursor_inside: false,
        events: release_events(s),
        ..s
    }
}

/// How one touch sample updates the model. A hardware cancel is a true
/// no-op, distinct from the semantic `Cancel` event.
pub open spec fn touch_step(
    s: ButtonModel,
    layout: Rectangle,
    transform: Matrix2d,
    sample: TouchSample,
    now: u64,
) -> ButtonModel {
    let inside = is_inside_spec(sample.position, transform, layout);
    match sample.phase {
        TouchPhase::Start => touch_start_step(s, inside, now),
        TouchPhase::Move => motion_step(s, inside),
        TouchPhase::End => touch_end_step(s),
        TouchPhase::Cancel => s,
    }
}

/// A press recorded at tick `pressed_at` still lies within the grace period
/// at tick `now`.
pub open spec fn within_grace(pressed_at: Option<u64>, grace: u64, now: u64) -> bool {
    match pressed_at {
        Some(t) => t <= now && now - t < grace,
        None => false,
    }
}

/// Whether the button should look pressed: either it is pressed, or the most
/// recent press is still within the grace period.
pub open spec fn appear_pressed_spec(s: ButtonModel, grace: u64, now: u64) -> bool {
    s.pressed || within_grace(s.pressed_at, grace, now)
}

/// The visual state chosen from the pressed appearance and the cursor-inside
/// flag; total over all four combinations.
pub open spec fn visual_of(appear_pressed: bool, mouse_cursor_inside: bool) -> ButtonState {
    if appear_pressed {
        if mouse_cursor_inside {
            ButtonState::Press
        } else {
            ButtonState::Cancel
        }
    } else {
        if mouse_cursor_inside {
            ButtonState::Hover
        } else {
            ButtonState::Inactive
        }
    }
}

/// The visual state of a model at tick `now` with the given grace period.
pub open spec fn state_spec(s: ButtonModel, grace: u64, now: u64) -> ButtonState {
    visual_of(appear_pressed_spec(s, grace, now), s.mouse_cursor_inside)
}

/// Stores state and events of a button.
pub struct ButtonController {
    mouse_cursor_inside: bool,
    was_inside: bool,
    pressed: bool,
    pressed_at: Option<u64>,
    events: Vec<ButtonEvent>,
}

impl View for ButtonController {
    type V = ButtonModel;

    closed spec fn view(&self) -> ButtonModel {
        ButtonModel {
            mouse_cursor_inside: self.mouse_cursor_inside,
            was_inside: self.was_inside,
            pressed: self.pressed,
            pressed_at: self.pressed_at,
            events: self.events@,
        }
    }
}

impl ButtonController {
    /// Creates a new button controller.
    pub fn new() -> (c: ButtonController)
        ensures
            c@ == initial_model(),
    {
        let c = ButtonController {
            mouse_cursor_inside: false,
            was_inside: false,
            pressed: false,
            pressed_at: None,
            events: Vec::new(),
        };
        c
    }

    /// Handles one pointer-style sample against the button's current layout
    /// rectangle and rendering transform; `now` is the current clock tick.
    ///
    /// Motion toggles the cursor-inside flag and emits one enter/leave event
    /// per transition; a press is accepted only while inside; a release drops
    /// the pressed flag and emits at most one `Click` or `Cancel`. New events
    /// are appended to the pending queue.
    pub fn event(
        &mut self,
        layout: Rectangle,
        transform: Matrix2d,
        sample: PointerSample,
        now: u64,
    )
        requires
            sample.cursor is Some ==> det(transform) != 0,
        ensures
            final(self)@ == pointer_step(old(self)@, layout, transform, sample, now),
    {
        if let Some(pos) = sample.cursor {
            let inside = is_inside(pos, transform, layout);
            if inside {
                if !self.mouse_cursor_inside {
                    self.mouse_cursor_inside = true;
                    self.events.push(ButtonEvent::MouseEnter);
                }
            } else {
                if self.mouse_cursor_inside {
                    self.mouse_cursor_inside = false;
                    self.events.push(ButtonEvent::MouseLeave);
                }
            }
        }
        if sample.press {
            if self.mouse_cursor_inside {
                self.pressed = true;
                self.was_inside = true;
                self.events.push(ButtonEvent::Press);
                self.pressed_at = Some(now);
            }
        }
        if sample.release {
            self.pressed = false;
            if self.mouse_cursor_inside {
                self.events.push(ButtonEvent::Click);
            } else if self.was_inside {
                self.events.push(ButtonEvent::Cancel);
            }
            self.was_inside = false;
        }
    }

    /// Handles one touch-style sample; the position must already be scaled
    /// to the space in which pointer positions are reported.
    ///
    /// A start inside presses and enters atomically; a move applies the same
    /// enter/leave logic as pointer motion; an end emits at most one terminal
    /// event and fully resets the hover state; a hardware cancel is a no-op.
    pub fn touch_event(
        &mut self,
        layout: Rectangle,
        transform: Matrix2d,
        sample: TouchSample,
        now: u64,
    )
        requires
            det(transform) != 0,
        ensures
            final(self)@ == touch_step(old(self)@, layout, transform, sample, now),
    {
        let inside = is_inside(sample.position, transform, layout);
        match sample.phase {
            TouchPhase::Start => {
                if inside {
                    self.pressed = true;
                    self.was_inside = true;
                    self.mouse_cursor_inside = true;
                    self.events.push(ButtonEvent::Press);
                    self.pressed_at = Some(now);
                }
            }
            TouchPhase::Move => {
                if inside {
                    if !self.mouse_cursor_inside {
                        self.mouse_cursor_inside = true;
                        self.events.push(ButtonEvent::MouseEnter);
                    }
                } else {
                    if self.mouse_cursor_inside {
                        self.mouse_cursor_inside = false;
                        self.events.push(ButtonEvent::MouseLeave);
                    }
                }
            }
            TouchPhase::End => {
                self.pressed = false;
                if self.mouse_cursor_inside {
                    self.events.push(ButtonEvent::Click);
                } else if self.was_inside {
                    self.events.push(ButtonEvent::Cancel);
                }
                self.was_inside = false;
                self.mouse_cursor_inside = false;
            }
            TouchPhase::Cancel => {}
        }
    }

    /// Returns true if the button should keep a pressed appearance: it is
    /// pressed, or the most recent press happened within `grace` ticks of
    /// `now`, giving fast click-release sequences a minimum of visible
    /// feedback.
    pub fn appear_pressed(&self, grace: u64, now: u64) -> (r: bool)
        ensures
            r == appear_pressed_spec(self@, grace, now),
    {
        match self.pressed_at {
            Some(t) => {
                if t <= now && now - t < grace {
                    true
                } else {
                    self.pressed
                }
            }
            None => self.pressed,
        }
    }

    /// Returns the visual button state at tick `now` with the given grace
    /// period.
    pub fn state(&self, grace: u64, now: u64) -> (s: ButtonState)
        ensures
            s == state_spec(self@, grace, now),
    {
        ButtonVisual {
            appear_pressed: self.appear_pressed(grace, now),
            mouse_cursor_inside: self.mouse_cursor_inside,
        }.state()
    }

    /// Whether the last known position fell inside the rectangle.
    pub fn mouse_cursor_inside(&self) -> (r: bool)
        ensures
            r == self@.mouse_cursor_inside,
    {
        self.mouse_cursor_inside
    }

    /// Whether the most recent press began inside the rectangle.
    pub fn was_inside(&self) -> (r: bool)
        ensures
            r == self@.was_inside,
    {
        self.was_inside
    }

    /// Whether the primary button or touch contact is held down.
    pub fn pressed(&self) -> (r: bool)
        ensures
            r == self@.pressed,
    {
        self.pressed
    }

    /// Tick of the most recent press, if any press ever happened.
    pub fn pressed_at(&self) -> (r: Option<u64>)
        ensures
            r == self@.pressed_at,
    {
        self.pressed_at
    }

    /// The pending semantic events, oldest first. Intake calls append to
    /// this queue; the host reads it after each call and clears it with
    /// [`Self::clear_events`].
    pub fn events(&self) -> (r: &Vec<ButtonEvent>)
        ensures
            r@ == self@.events,
    {
        &self.events
    }

    /// Empties the pending event queue; every flag and the press tick stay
    /// as they were.
    pub fn clear_events(&mut self)
        ensures
            final(self)@ == (ButtonModel { events: Seq::empty(), ..old(self)@ }),
    {
        self.events.clear();
    }
}

/// Law: a primary-button press while the cursor is outside the rectangle is
/// ignored entirely — it changes no flag, records no tick and emits nothing.
pub proof fn lemma_press_outside_is_noop(s: ButtonModel, now: u64)
    requires
        !s.mouse_cursor_inside,
    ensures
        press_step(s, now) == s,
{
}

/// Law: from any state with the cursor inside, a press followed immediately
/// by a release at the same position emits exactly `Press` then `Click`, and
/// leaves the button unpressed.
pub proof fn lemma_press_release_clicks(s: ButtonModel, now: u64)
    requires
        s.mouse_cursor_inside,
    ensures
        release_step(press_step(s, now)).events
            == s.events.push(ButtonEvent::Press).push(ButtonEvent::Click),
        !release_step(press_step(s, now)).pressed,
{
}

/// Law: from any state with the cursor inside, a press followed by motion to
/// a point outside and then a release emits exactly `Press`, `MouseLeave`,
/// `Cancel`.
pub proof fn lemma_press_leave_release_cancels(s: ButtonModel, now: u64)
    requires
        s.mouse_cursor_inside,
    ensures
        release_step(motion_step(press_step(s, now), false)).events
            == s.events.push(ButtonEvent::Press).push(ButtonEvent::MouseLeave).push(
            ButtonEvent::Cancel,
        ),
{
}

/// Law: a touch starting outside the rectangle, followed by a touch end,
/// emits no events at all, provided no earlier interaction is still pending.
pub proof fn lemma_touch_outside_then_end_is_silent(
    s: ButtonModel,
    layout: Rectangle,
    transform: Matrix2d,
    start: TouchSample,
    end: TouchSample,
    now_start: u64,
    now_end: u64,
)
    requires
        !s.mouse_cursor_inside,
        !s.was_inside,
        start.phase == TouchPhase::Start,
        !is_inside_spec(start.position, transform, layout),
        end.phase == TouchPhase::End,
    ensures
        touch_step(
            touch_step(s, layout, transform, start, now_start),
            layout,
            transform,
            end,
            now_end,
        ).events == s.events,
{
}

/// Law: intake calls only append to the pending queue. Whatever was queued
/// before a pointer or touch sample is still there, unchanged and in order,
/// after it; only the host removes events, by clearing the queue.
pub proof fn lemma_intake_only_appends(
    s: ButtonModel,
    layout: Rectangle,
    transform: Matrix2d,
    pointer: PointerSample,
    touch: TouchSample,
    now: u64,
)
    ensures
        pointer_step(s, layout, transform, pointer, now).events.len() >= s.events.len(),
        forall|i: int|
            0 <= i < s.events.len() ==> pointer_step(s, layout, transform, pointer, now).events[i]
                == s.events[i],
        touch_step(s, layout, transform, touch, now).events.len() >= s.events.len(),
        forall|i: int|
            0 <= i < s.events.len() ==> touch_step(s, layout, transform, touch, now).events[i]
                == s.events[i],
{
}

/// Law: while the most recent press is within the grace period the visual
/// state shows `Press` or `Cancel`, never `Hover` or `Inactive`; once the
/// grace period has elapsed (or no press was ever recorded) the visual state
/// reflects the real pressed and cursor-inside values.
pub proof fn lemma_grace_period_visual(s: ButtonModel, grace: u64, now: u64)
    ensures
        within_grace(s.pressed_at, grace, now) ==> (state_spec(s, grace, now) == ButtonState::Press
            || state_spec(s, grace, now) == ButtonState::Cancel),
        !within_grace(s.pressed_at, grace, now) ==> state_spec(s, grace, now) == visual_of(
            s.pressed,
            s.mouse_cursor_inside,
        ),
{
}

/// Law: feeding an identical motion-only pointer sample twice in a row can
/// produce an event only on the first call; the second call changes nothing.
pub proof fn lemma_motion_sample_idempotent(
    s: ButtonModel,
    layout: Rectangle,
    transform: Matrix2d,
    sample: PointerSample,
    now: u64,
)
    requires
        !sample.press,
        !sample.release,
    ensures
        pointer_step(pointer_step(s, layout, transform, sample, now), layout, transform, sample, now)
            == pointer_step(s, layout, transform, sample, now),
{
}

/// Stores the current state of button.
#[derive(Clone, Copy, PartialEq, Eq, Structural, Debug)]
pub enum ButtonState {
    /// Show inactive visual state.
    Inactive,
    /// Show hover visual state.
    Hover,
    /// Show press visual state.
    Press,
    /// Show cancel visual state.
    Cancel,
}

/// Stores the current visual state of button.
#[derive(Clone, Copy, PartialEq, Eq, Structural, Debug)]
pub struct ButtonVisual {
    /// Whether the button appears pressed.
    pub appear_pressed: bool,
    /// Whether mouse cursor is inside button layout.
    pub mouse_cursor_inside: bool,
}

impl ButtonVisual {
    /// Gets the current button state: pressed appearance inside is `Press`,
    /// outside is `Cancel`; otherwise inside is `Hover`, outside `Inactive`.
    pub fn state(&self) -> (s: ButtonState)
        ensures
            s == visual_of(self.appear_pressed, self.mouse_cursor_inside),
    {
        match (self.appear_pressed, self.mouse_cursor_inside) {
            (true, true) => ButtonState::Press,
            (true, false) => ButtonState::Cancel,
            (false, false) => ButtonState::Inactive,
            (false, true) => ButtonState::Hover,
        }
    }
}

} // verus!
