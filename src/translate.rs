//! Translation of platform window events into normalized [`Event`]s.
use vstd::prelude::*;

use crate::event::{Event, Modifiers, MouseButton};

verus! {

/// Whether a key or button went down or came up.
#[derive(Debug, Clone, Copy, PartialEq, Eq, Structural)]
pub enum ElementState {
    Pressed,
    Released,
}

/// A platform window event, reduced to the plain values the translator reads.
#[derive(Debug, Clone, Copy, PartialEq, Eq, Structural)]
pub enum NativeEvent {
    /// The cursor moved to a position in device pixels.
    CursorMoved { x: i32, y: i32 },
    /// A mouse button changed state; the platform gives no position with it.
    MouseInput { state: ElementState, button: MouseButton },
    /// A key changed state; `key` is `None` for a key the platform cannot classify.
    KeyboardInput { state: ElementState, key: Option<u32> },
    /// The platform reports the modifier keys now held.
    ModifiersChanged(Modifiers),
    ReceivedCharacter(char),
    Focused(bool),
    Resized { width: u32, height: u32 },
    RedrawRequested,
    /// Any event with no normalized counterpart.
    Unmapped,
}

/// The state the translator keeps across calls: the modifier keys held and
/// the last known cursor position.
#[derive(Debug, Clone, Copy, PartialEq, Eq, Structural)]
pub struct Translator {
    pub modifiers: Modifiers,
    pub cursor_x: i32,
    pub cursor_y: i32,
}

/// The translator's state after it has seen `e`.
pub open spec fn next_state(t: Translator, e: NativeEvent) -> Translator {
    match e {
        NativeEvent::CursorMoved { x, y } => Translator { cursor_x: x, cursor_y: y, ..t },
        NativeEvent::ModifiersChanged(m) => Translator { modifiers: m, ..t },
        NativeEvent::Focused(false) => Translator { modifiers: Modifiers::none(), ..t },
        _ => t,
    }
}

/// The normalized event that `e` maps to, seen by a translator in state `t`.
pub open spec fn translated(t: Translator, e: NativeEvent) -> Option<Event> {
    match e {
        NativeEvent::CursorMoved { x, y } => Some(
            Event::MouseMove { x, y, modifiers: t.modifiers },
        ),
        NativeEvent::MouseInput { state, button } => match state {
            ElementState::Pressed => Some(
                Event::MouseDown { x: t.cursor_x, y: t.cursor_y, button, modifiers: t.modifiers },
            ),
            ElementState::Released => Some(
                Event::MouseUp { x: t.cursor_x, y: t.cursor_y, button, modifiers: t.modifiers },
            ),
        },
        NativeEvent::KeyboardInput { state, key } => match state {
            ElementState::Pressed => Some(Event::KeyDown { key, modifiers: t.modifiers }),
            ElementState::Released => Some(Event::KeyUp { key, modifiers: t.modifiers }),
        },
        NativeEvent::ReceivedCharacter(c) => Some(Event::CharInput(c)),
        NativeEvent::Focused(true) => Some(Event::FocusGained),
        NativeEvent::Focused(false) => Some(Event::FocusLost),
        NativeEvent::Resized { width, height } => Some(Event::Resized { width, height }),
        NativeEvent::RedrawRequested => Some(Event::RedrawRequested),
        NativeEvent::ModifiersChanged(_) => None,
        NativeEvent::Unmapped => None,
    }
}

/// The translator's state after it has seen each event of `events` in turn.
pub open spec fn run(t: Translator, events: Seq<NativeEvent>) -> Translator
    decreases events.len(),
{
    if events.len() == 0 {
        t
    } else {
        next_state(run(t, events.drop_last()), events.last())
    }
}

/// The modifier set the platform reported last in `events`, or `initial`
/// where it reported none.
pub open spec fn last_reported(initial: Modifiers, events: Seq<NativeEvent>) -> Modifiers
    decreases events.len(),
{
    if events.len() == 0 {
        initial
    } else {
        match events.last() {
            NativeEvent::ModifiersChanged(m) => m,
            _ => last_reported(initial, events.drop_last()),
        }
    }
}

impl Translator {
    pub open spec fn new_spec() -> Translator {
        Translator { modifiers: Modifiers::none(), cursor_x: 0, cursor_y: 0 }
    }

    /// A translator with no modifier held and the cursor at the origin.
    pub fn new() -> (r: Translator)
        ensures
            r == Translator::new_spec(),
    {
        Translator { modifiers: Modifiers::empty(), cursor_x: 0, cursor_y: 0 }
    }

    /// The modifier keys currently held.
    pub fn modifiers(&self) -> (r: Modifiers)
        ensures
            r == self.modifiers,
    {
        self.modifiers
    }

    /// The last known cursor position.
    pub fn cursor(&self) -> (r: (i32, i32))
        ensures
            r == (self.cursor_x, self.cursor_y),
    {
        (self.cursor_x, self.cursor_y)
    }
}

/// Maps one platform event to at most one normalized event, and updates the
/// translator's modifier and cursor state.
///
/// Button events are stamped with the last cursor position; losing focus
/// clears the modifier set.
pub fn translate_event(event: &NativeEvent, translator: &mut Translator) -> (r: Option<Event>)
    ensures
        r == translated(*old(translator), *event),
        *final(translator) == next_state(*old(translator), *event),
        *event == NativeEvent::Focused(false) ==> final(translator).modifiers == Modifiers::none(),
{
    let t = *translator;
    match *event {
        NativeEvent::CursorMoved { x, y } => {
            translator.cursor_x = x;
            translator.cursor_y = y;
            Some(Event::MouseMove { x, y, modifiers: t.modifiers })
        },
        NativeEvent::MouseInput { state, button } => match state {
            ElementState::Pressed => Some(
                Event::MouseDown { x: t.cursor_x, y: t.cursor_y, button, modifiers: t.modifiers },
            ),
            ElementState::Released => Some(
                Event::MouseUp { x: t.cursor_x, y: t.cursor_y, button, modifiers: t.modifiers },
            ),
        },
        NativeEvent::KeyboardInput { state, key } => match state {
            ElementState::Pressed => Some(Event::KeyDown { key, modifiers: t.modifiers }),
            ElementState::Released => Some(Event::KeyUp { key, modifiers: t.modifiers }),
        },
        NativeEvent::ModifiersChanged(m) => {
            translator.modifiers = m;
            None
        },
        NativeEvent::ReceivedCharacter(c) => Some(Event::CharInput(c)),
        NativeEvent::Focused(true) => Some(Event::FocusGained),
        NativeEvent::Focused(false) => {
            translator.modifiers = Modifiers::empty();
            Some(Event::FocusLost)
        },
        NativeEvent::Resized { width, height } => Some(Event::Resized { width, height }),
        NativeEvent::RedrawRequested => Some(Event::RedrawRequested),
        NativeEvent::Unmapped => None,
    }
}

/// Along any run of platform events without a loss of focus, the translator's
/// modifier set is the one the platform reported last.
pub proof fn lemma_modifiers_follow_reports(t: Translator, events: Seq<NativeEvent>)
    requires
        forall|i: int| 0 <= i < events.len() ==> events[i] != NativeEvent::Focused(false),
    ensures
        run(t, events).modifiers == last_reported(t.modifiers, events),
    decreases events.len(),
{
    if events.len() > 0 {
        let prefix = events.drop_last();
        assert forall|i: int| 0 <= i < prefix.len() implies prefix[i] != NativeEvent::Focused(
            false,
        ) by {
            assert(prefix[i] == events[i]);
        }
        lemma_modifiers_follow_reports(t, prefix);
        assert(events.last() == events[events.len() - 1]);
    }
}

/// Along any run of platform events without a loss of focus, every translated
/// event that carries a modifier set carries the one the platform reported
/// last before it.
pub proof fn lemma_modifier_persistence(t: Translator, events: Seq<NativeEvent>, i: int)
    requires
        0 <= i < events.len(),
        forall|j: int| 0 <= j < events.len() ==> events[j] != NativeEvent::Focused(false),
    ensures
        translated(run(t, events.take(i)), events[i]) matches Some(ev) ==> (ev.modifiers_of()
            matches Some(m) ==> m == last_reported(t.modifiers, events.take(i))),
{
    let prefix = events.take(i);
    assert forall|j: int| 0 <= j < prefix.len() implies prefix[j] != NativeEvent::Focused(
        false,
    ) by {
        assert(prefix[j] == events[j]);
    }
    lemma_modifiers_follow_reports(t, prefix);
}

/// Whatever the translator held before, it holds no modifier after a loss of focus.
pub proof fn lemma_focus_loss_clears(t: Translator)
    ensures
        next_state(t, NativeEvent::Focused(false)).modifiers == Modifiers::none(),
        translated(t, NativeEvent::Focused(false)) == Some(Event::FocusLost),
{
}

/// A button press after a cursor move is stamped with that move's position.
pub proof fn lemma_cursor_stamping(t: Translator, x: i32, y: i32, button: MouseButton)
    ensures
        translated(
            next_state(t, NativeEvent::CursorMoved { x, y }),
            NativeEvent::MouseInput { state: ElementState::Pressed, button },
        ) == Some(Event::MouseDown { x, y, button, modifiers: t.modifiers }),
{
}

} // verus!
