//! Edge-triggered input listening. A listener keeps the previous tick's
//! observed status per button or key; on each update the embedding
//! application hands in the freshly polled statuses, the listener classifies
//! each transition against the stored status, and returns which registered
//! handlers to invoke, in registration order. Committing the new statuses
//! happens last, so classification always compares previous against new.
//!
//! The listener never runs a callback itself: it dispatches handler ids, and
//! whether a failing callback aborts the frame or is logged and skipped is
//! the embedding application's explicit policy.

use vstd::prelude::*;
use vstd::pervasive::VecAdditionalExecFns;
use crate::clock::Clock;
use crate::numeric::Point2;

verus! {

/// The mouse buttons the listener tracks.
#[derive(Clone, Copy, PartialEq, Eq, Structural, Debug, Hash)]
pub enum MouseButton {
    Left,
    Middle,
    Right,
}

/// A polled mouse-button status.
#[derive(Clone, Copy, PartialEq, Eq, Structural, Debug, Hash)]
pub enum MouseButtonStatus {
    MousePressed,
    MouseReleased,
}

/// A semantic mouse event derived from two successive statuses.
#[derive(Clone, Copy, PartialEq, Eq, Structural, Debug, Hash)]
pub enum MouseButtonEvent {
    Clicked,
    Pressed,
    Dragged,
}

/// What event a status transition raises: a change raises the edge event
/// (pressed or clicked), an unchanged held button raises a drag, and an
/// unchanged released button raises nothing.
pub open spec fn classify_mouse_spec(prev: MouseButtonStatus, cur: MouseButtonStatus) -> Option<
    MouseButtonEvent,
> {
    if cur != prev {
        match cur {
            MouseButtonStatus::MousePressed => Some(MouseButtonEvent::Pressed),
            MouseButtonStatus::MouseReleased => Some(MouseButtonEvent::Clicked),
        }
    } else if cur == MouseButtonStatus::MousePressed {
        Some(MouseButtonEvent::Dragged)
    } else {
        None
    }
}

/// Everything the listener tracks for one button: the last clicked point,
/// the status observed on the previous update, and the registered handlers
/// per event, in registration order.
pub struct ButtonRecord {
    pub last_clicked: Point2,
    pub status: MouseButtonStatus,
    pub clicked_handlers: Vec<u64>,
    pub pressed_handlers: Vec<u64>,
    pub dragged_handlers: Vec<u64>,
}

impl ButtonRecord {
    pub open spec fn handlers_for_spec(&self, event: MouseButtonEvent) -> Seq<u64> {
        match event {
            MouseButtonEvent::Clicked => self.clicked_handlers@,
            MouseButtonEvent::Pressed => self.pressed_handlers@,
            MouseButtonEvent::Dragged => self.dragged_handlers@,
        }
    }

    /// A fresh record: nothing clicked yet, button released, no handlers.
    pub fn new() -> (r: ButtonRecord)
        ensures
            r.last_clicked == (Point2 { x: 0, y: 0 }),
            r.status == MouseButtonStatus::MouseReleased,
            r.clicked_handlers@ == Seq::<u64>::empty(),
            r.pressed_handlers@ == Seq::<u64>::empty(),
            r.dragged_handlers@ == Seq::<u64>::empty(),
    {
        ButtonRecord {
            last_clicked: Point2 { x: 0, y: 0 },
            status: MouseButtonStatus::MouseReleased,
            clicked_handlers: Vec::new(),
            pressed_handlers: Vec::new(),
            dragged_handlers: Vec::new(),
        }
    }
}

/// One polled mouse state: the three button statuses and the cursor
/// position, as read from the host this tick.
#[derive(Clone, Copy, PartialEq, Eq, Structural, Debug)]
pub struct MousePoll {
    pub left: MouseButtonStatus,
    pub middle: MouseButtonStatus,
    pub right: MouseButtonStatus,
    pub position: Point2,
}

/// One handler invocation the embedding application owes: which handler to
/// call, and for which button and event it was registered.
#[derive(Clone, Copy, PartialEq, Eq, Structural, Debug)]
pub struct MouseDispatch {
    pub button: MouseButton,
    pub event: MouseButtonEvent,
    pub handler: u64,
}

/// A button record after one update against a polled status: the new status
/// is committed, and a click records the cursor position polled on the very
/// update that detected the released transition.
pub open spec fn record_after_poll_spec(
    rec: ButtonRecord,
    cur: MouseButtonStatus,
    pos: Point2,
) -> ButtonRecord {
    ButtonRecord {
        status: cur,
        last_clicked: if classify_mouse_spec(rec.status, cur) == Some(MouseButtonEvent::Clicked) {
            pos
        } else {
            rec.last_clicked
        },
        ..rec
    }
}

/// The handler invocations one button owes for one update, in registration
/// order.
pub open spec fn record_dispatches_spec(
    rec: ButtonRecord,
    button: MouseButton,
    cur: MouseButtonStatus,
) -> Seq<MouseDispatch> {
    match classify_mouse_spec(rec.status, cur) {
        None => Seq::empty(),
        Some(ev) => rec.handlers_for_spec(ev).map_values(
            |h: u64| MouseDispatch { button, event: ev, handler: h },
        ),
    }
}

/// Watches the three mouse buttons and dispatches registered handlers on
/// edge-triggered events.
pub struct MouseListener {
    pub left: ButtonRecord,
    pub middle: ButtonRecord,
    pub right: ButtonRecord,
}

impl MouseListener {
    pub open spec fn record_spec(&self, button: MouseButton) -> ButtonRecord {
        match button {
            MouseButton::Left => self.left,
            MouseButton::Middle => self.middle,
            MouseButton::Right => self.right,
        }
    }

    pub open spec fn handlers_spec(&self, button: MouseButton, event: MouseButtonEvent) -> Seq<
        u64,
    > {
        self.record_spec(button).handlers_for_spec(event)
    }

    /// A fresh listener: every button released, nothing clicked, no
    /// handlers.
    pub fn new() -> (r: MouseListener)
        ensures
            forall|b: MouseButton|
                (#[trigger] r.record_spec(b)).status == MouseButtonStatus::MouseReleased
                    && r.record_spec(b).last_clicked == (Point2 { x: 0, y: 0 }),
            forall|b: MouseButton, e: MouseButtonEvent|
                #[trigger] r.handlers_spec(b, e) == Seq::<u64>::empty(),
    {
        MouseListener { left: ButtonRecord::new(), middle: ButtonRecord::new(), right: ButtonRecord::new() }
    }

    /// Register one more handler for a button and event; handlers are
    /// append-only and fire in registration order.
    pub fn register_event_handler(&mut self, button: MouseButton, event: MouseButtonEvent, f: u64)
        ensures
            forall|b: MouseButton, e: MouseButtonEvent|
                #[trigger] final(self).handlers_spec(b, e) == (if b == button && e == event {
                    old(self).handlers_spec(b, e).push(f)
                } else {
                    old(self).handlers_spec(b, e)
                }),
            forall|b: MouseButton|
                (#[trigger] final(self).record_spec(b)).status == old(self).record_spec(b).status
                    && final(self).record_spec(b).last_clicked == old(self).record_spec(
                    b,
                ).last_clicked,
    {
        let rec = match button {
            MouseButton::Left => &mut self.left,
            MouseButton::Middle => &mut self.middle,
            MouseButton::Right => &mut self.right,
        };
        match event {
            MouseButtonEvent::Clicked => rec.clicked_handlers.push(f),
            MouseButtonEvent::Pressed => rec.pressed_handlers.push(f),
            MouseButtonEvent::Dragged => rec.dragged_handlers.push(f),
        }
    }

    /// The point recorded by the most recent click of this button.
    pub fn get_last_clicked(&self, button: MouseButton) -> (p: Point2)
        ensures
            p == self.record_spec(button).last_clicked,
    {
        match button {
            MouseButton::Left => self.left.last_clicked,
            MouseButton::Middle => self.middle.last_clicked,
            MouseButton::Right => self.right.last_clicked,
        }
    }

    /// One update pass: classify each button's transition against the stored
    /// status, record click positions, commit the polled statuses, and
    /// return every handler invocation owed, buttons in left-middle-right
    /// order and handlers in registration order.
    pub fn update(&mut self, poll: &MousePoll, _t: Clock) -> (d: Vec<MouseDispatch>)
        ensures
            final(self).left == record_after_poll_spec(old(self).left, poll.left, poll.position),
            final(self).middle == record_after_poll_spec(
                old(self).middle,
                poll.middle,
                poll.position,
            ),
            final(self).right == record_after_poll_spec(old(self).right, poll.right, poll.position),
            d@ == record_dispatches_spec(old(self).left, MouseButton::Left, poll.left)
                + record_dispatches_spec(old(self).middle, MouseButton::Middle, poll.middle)
                + record_dispatches_spec(old(self).right, MouseButton::Right, poll.right),
    {
        let mut d: Vec<MouseDispatch> = Vec::new();
        Self::flush_button_event(&mut self.left, MouseButton::Left, poll.left, poll.position, &mut d);
        let ghost d_left = d@;
        Self::flush_button_event(
            &mut self.middle,
            MouseButton::Middle,
            poll.middle,
            poll.position,
            &mut d,
        );
        Self::flush_button_event(
            &mut self.right,
            MouseButton::Right,
            poll.right,
            poll.position,
            &mut d,
        );
        proof {
            assert(d@ =~= record_dispatches_spec(old(self).left, MouseButton::Left, poll.left)
                + record_dispatches_spec(old(self).middle, MouseButton::Middle, poll.middle)
                + record_dispatches_spec(old(self).right, MouseButton::Right, poll.right));
        }
        d
    }

    /// Handle one button: classify, record a click position, append the
    /// owed handler invocations, and commit the new status.
    fn flush_button_event(
        rec: &mut ButtonRecord,
        button: MouseButton,
        cur: MouseButtonStatus,
        pos: Point2,
        out: &mut Vec<MouseDispatch>,
    )
        ensures
            *final(rec) == record_after_poll_spec(*old(rec), cur, pos),
            final(out)@ == old(out)@ + record_dispatches_spec(*old(rec), button, cur),
    {
        let prev = rec.status;
        let event: Option<MouseButtonEvent> = if cur != prev {
            match cur {
                MouseButtonStatus::MousePressed => Some(MouseButtonEvent::Pressed),
                MouseButtonStatus::MouseReleased => {
                    rec.last_clicked = pos;
                    Some(MouseButtonEvent::Clicked)
                },
            }
        } else {
            if cur == MouseButtonStatus::MousePressed {
                Some(MouseButtonEvent::Dragged)
            } else {
                None
            }
        };
        match event {
            Some(ev) => {
                let handlers = match ev {
                    MouseButtonEvent::Clicked => &rec.clicked_handlers,
                    MouseButtonEvent::Pressed => &rec.pressed_handlers,
                    MouseButtonEvent::Dragged => &rec.dragged_handlers,
                };
                let ghost base = out@;
                let n = handlers.len();
                let mut i: usize = 0;
                while i < n
                    invariant
                        i <= n,
                        n == handlers@.len(),
                        out@ =~= base + handlers@.take(i as int).map_values(
                            |h: u64| MouseDispatch { button, event: ev, handler: h },
                        ),
                    decreases n - i,
                {
                    out.push(MouseDispatch { button, event: ev, handler: handlers[i] });
                    proof {
                        assert(handlers@.take(i + 1) =~= handlers@.take(i as int).push(
                            handlers@[i as int],
                        ));
                        assert(handlers@.take(i + 1).map_values(
                            |h: u64| MouseDispatch { button, event: ev, handler: h },
                        ) =~= handlers@.take(i as int).map_values(
                            |h: u64| MouseDispatch { button, event: ev, handler: h },
                        ).push(MouseDispatch { button, event: ev, handler: handlers@[i as int] }));
                    }
                    i += 1;
                }
                proof {
                    assert(handlers@.take(n as int) =~= handlers@);
                    assert(out@ =~= base + record_dispatches_spec(*old(rec), button, cur));
                }
            },
            None => {
                proof {
                    assert(out@ =~= out@ + record_dispatches_spec(*old(rec), button, cur));
                }
            },
        }
        rec.status = cur;
    }
}

/// A strictly alternating poll run on one button raises exactly the edge
/// events: starting from a released stored status, a pressed poll raises the
/// press and the following released poll raises the click — no drag or idle
/// event appears in between — and the click records the cursor position of
/// the very update that detected the released transition.
pub proof fn lemma_mouse_alternating_polls(
    rec: ButtonRecord,
    button: MouseButton,
    pos1: Point2,
    pos2: Point2,
)
    requires
        rec.status == MouseButtonStatus::MouseReleased,
    ensures
        ({
            let rec1 = record_after_poll_spec(rec, MouseButtonStatus::MousePressed, pos1);
            let rec2 = record_after_poll_spec(rec1, MouseButtonStatus::MouseReleased, pos2);
            &&& record_dispatches_spec(rec, button, MouseButtonStatus::MousePressed)
                == rec.pressed_handlers@.map_values(
                |h: u64| MouseDispatch { button, event: MouseButtonEvent::Pressed, handler: h },
            )
            &&& record_dispatches_spec(rec1, button, MouseButtonStatus::MouseReleased)
                == rec1.clicked_handlers@.map_values(
                |h: u64| MouseDispatch { button, event: MouseButtonEvent::Clicked, handler: h },
            )
            &&& rec1.last_clicked == rec.last_clicked
            &&& rec2.last_clicked == pos2
        }),
{
}

/// The virtual keys the listener can track.
#[derive(Clone, Copy, PartialEq, Eq, Structural, Debug, Hash)]
pub enum VirtualKey {
    Left,
    Right,
    Up,
    Down,
    LeftSub,
    RightSub,
    UpSub,
    DownSub,
    LeftSubSub,
    RightSubSub,
    UpSubSub,
    DownSubSub,
    Action1,
    Action2,
    Action3,
    Action4,
    Action5,
    Action6,
    Action7,
    Action8,
    Mod1,
    Mod2,
    Mod3,
    Mod4,
    Unknown,
}

/// How many virtual keys there are.
pub const VIRTUAL_KEY_COUNT: usize = 25;

/// How many keyboard event kinds there are.
pub const KEYBOARD_EVENT_COUNT: usize = 5;

pub open spec fn virtual_key_index_spec(k: VirtualKey) -> int {
    match k {
        VirtualKey::Left => 0,
        VirtualKey::Right => 1,
        VirtualKey::Up => 2,
        VirtualKey::Down => 3,
        VirtualKey::LeftSub => 4,
        VirtualKey::RightSub => 5,
        VirtualKey::UpSub => 6,
        VirtualKey::DownSub => 7,
        VirtualKey::LeftSubSub => 8,
        VirtualKey::RightSubSub => 9,
        VirtualKey::UpSubSub => 10,
        VirtualKey::DownSubSub => 11,
        VirtualKey::Action1 => 12,
        VirtualKey::Action2 => 13,
        VirtualKey::Action3 => 14,
        VirtualKey::Action4 => 15,
        VirtualKey::Action5 => 16,
        VirtualKey::Action6 => 17,
        VirtualKey::Action7 => 18,
        VirtualKey::Action8 => 19,
        VirtualKey::Mod1 => 20,
        VirtualKey::Mod2 => 21,
        VirtualKey::Mod3 => 22,
        VirtualKey::Mod4 => 23,
        VirtualKey::Unknown => 24,
    }
}

/// The virtual key at a given index; out-of-range numbers map to `Unknown`.
pub open spec fn virtual_key_from_i32_spec(i: i32) -> VirtualKey {
    if i == 0 {
        VirtualKey::Left
    } else if i == 1 {
        VirtualKey::Right
    } else if i == 2 {
        VirtualKey::Up
    } else if i == 3 {
        VirtualKey::Down
    } else if i == 4 {
        VirtualKey::LeftSub
    } else if i == 5 {
        VirtualKey::RightSub
    } else if i == 6 {
        VirtualKey::UpSub
    } else if i == 7 {
        VirtualKey::DownSub
    } else if i == 8 {
        VirtualKey::LeftSubSub
    } else if i == 9 {
        VirtualKey::RightSubSub
    } else if i == 10 {
        VirtualKey::UpSubSub
    } else if i == 11 {
        VirtualKey::DownSubSub
    } else if i == 12 {
        VirtualKey::Action1
    } else if i == 13 {
        VirtualKey::Action2
    } else if i == 14 {
        VirtualKey::Action3
    } else if i == 15 {
        VirtualKey::Action4
    } else if i == 16 {
        VirtualKey::Action5
    } else if i == 17 {
        VirtualKey::Action6
    } else if i == 18 {
        VirtualKey::Action7
    } else if i == 19 {
        VirtualKey::Action8
    } else if i == 20 {
        VirtualKey::Mod1
    } else if i == 21 {
        VirtualKey::Mod2
    } else if i == 22 {
        VirtualKey::Mod3
    } else if i == 23 {
        VirtualKey::Mod4
    } else {
        VirtualKey::Unknown
    }
}

impl VirtualKey {
    /// The key's position in index-addressed tables.
    pub fn index(self) -> (i: usize)
        ensures
            i == virtual_key_index_spec(self),
            i < VIRTUAL_KEY_COUNT,
    {
        match self {
            VirtualKey::Left => 0,
            VirtualKey::Right => 1,
            VirtualKey::Up => 2,
            VirtualKey::Down => 3,
            VirtualKey::LeftSub => 4,
            VirtualKey::RightSub => 5,
            VirtualKey::UpSub => 6,
            VirtualKey::DownSub => 7,
            VirtualKey::LeftSubSub => 8,
            VirtualKey::RightSubSub => 9,
            VirtualKey::UpSubSub => 10,
            VirtualKey::DownSubSub => 11,
            VirtualKey::Action1 => 12,
            VirtualKey::Action2 => 13,
            VirtualKey::Action3 => 14,
            VirtualKey::Action4 => 15,
            VirtualKey::Action5 => 16,
            VirtualKey::Action6 => 17,
            VirtualKey::Action7 => 18,
            VirtualKey::Action8 => 19,
            VirtualKey::Mod1 => 20,
            VirtualKey::Mod2 => 21,
            VirtualKey::Mod3 => 22,
            VirtualKey::Mod4 => 23,
            VirtualKey::Unknown => 24,
        }
    }

    pub fn from_i32(i: i32) -> (k: VirtualKey)
        ensures
            k == virtual_key_from_i32_spec(i),
    {
        if i == 0 {
            VirtualKey::Left
        } else if i == 1 {
            VirtualKey::Right
        } else if i == 2 {
            VirtualKey::Up
        } else if i == 3 {
            VirtualKey::Down
        } else if i == 4 {
            VirtualKey::LeftSub
        } else if i == 5 {
            VirtualKey::RightSub
        } else if i == 6 {
            VirtualKey::UpSub
        } else if i == 7 {
            VirtualKey::DownSub
        } else if i == 8 {
            VirtualKey::LeftSubSub
        } else if i == 9 {
            VirtualKey::RightSubSub
        } else if i == 10 {
            VirtualKey::UpSubSub
        } else if i == 11 {
            VirtualKey::DownSubSub
        } else if i == 12 {
            VirtualKey::Action1
        } else if i == 13 {
            VirtualKey::Action2
        } else if i == 14 {
            VirtualKey::Action3
        } else if i == 15 {
            VirtualKey::Action4
        } else if i == 16 {
            VirtualKey::Action5
        } else if i == 17 {
            VirtualKey::Action6
        } else if i == 18 {
            VirtualKey::Action7
        } else if i == 19 {
            VirtualKey::Action8
        } else if i == 20 {
            VirtualKey::Mod1
        } else if i == 21 {
            VirtualKey::Mod2
        } else if i == 22 {
            VirtualKey::Mod3
        } else if i == 23 {
            VirtualKey::Mod4
        } else {
            VirtualKey::Unknown
        }
    }
}

/// A polled key status.
#[derive(Clone, Copy, PartialEq, Eq, Structural, Debug, Hash)]
pub enum KeyStatus {
    Pressed,
    Released,
    Unknown,
}

impl KeyStatus {
    /// `true` reads as pressed.
    pub fn positive_logic(b: bool) -> (s: KeyStatus)
        ensures
            s == (if b {
                KeyStatus::Pressed
            } else {
                KeyStatus::Released
            }),
    {
        if b {
            KeyStatus::Pressed
        } else {
            KeyStatus::Released
        }
    }

    /// `true` reads as released.
    pub fn negative_logic(b: bool) -> (s: KeyStatus)
        ensures
            s == (if b {
                KeyStatus::Released
            } else {
                KeyStatus::Pressed
            }),
    {
        if b {
            KeyStatus::Released
        } else {
            KeyStatus::Pressed
        }
    }
}

/// A semantic keyboard event derived from two successive statuses.
#[derive(Clone, Copy, PartialEq, Eq, Structural, Debug, Hash)]
pub enum KeyboardEvent {
    Typed,
    FirstPressed,
    KeepPressed,
    KeepReleased,
    Unknown,
}

pub open spec fn keyboard_event_index_spec(e: KeyboardEvent) -> int {
    match e {
        KeyboardEvent::Typed => 0,
        KeyboardEvent::FirstPressed => 1,
        KeyboardEvent::KeepPressed => 2,
        KeyboardEvent::KeepReleased => 3,
        KeyboardEvent::Unknown => 4,
    }
}

impl KeyboardEvent {
    pub fn index(self) -> (i: usize)
        ensures
            i == keyboard_event_index_spec(self),
            i < KEYBOARD_EVENT_COUNT,
    {
        match self {
            KeyboardEvent::Typed => 0,
            KeyboardEvent::FirstPressed => 1,
            KeyboardEvent::KeepPressed => 2,
            KeyboardEvent::KeepReleased => 3,
            KeyboardEvent::Unknown => 4,
        }
    }
}

/// What event a key transition raises: a change raises the edge event, no
/// change raises the held or idle event, and unknown statuses raise the
/// unknown event.
pub open spec fn classify_key_spec(prev: KeyStatus, cur: KeyStatus) -> KeyboardEvent {
    if cur != prev {
        match cur {
            KeyStatus::Pressed => KeyboardEvent::FirstPressed,
            KeyStatus::Released => KeyboardEvent::Typed,
            KeyStatus::Unknown => KeyboardEvent::Unknown,
        }
    } else {
        match cur {
            KeyStatus::Pressed => KeyboardEvent::KeepPressed,
            KeyStatus::Released => KeyboardEvent::KeepReleased,
            KeyStatus::Unknown => KeyboardEvent::Unknown,
        }
    }
}

/// Classify one key transition.
pub fn classify_key(prev: KeyStatus, cur: KeyStatus) -> (e: KeyboardEvent)
    ensures
        e == classify_key_spec(prev, cur),
{
    if cur != prev {
        match cur {
            KeyStatus::Pressed => KeyboardEvent::FirstPressed,
            KeyStatus::Released => KeyboardEvent::Typed,
            KeyStatus::Unknown => KeyboardEvent::Unknown,
        }
    } else {
        match cur {
            KeyStatus::Pressed => KeyboardEvent::KeepPressed,
            KeyStatus::Released => KeyboardEvent::KeepReleased,
            KeyStatus::Unknown => KeyboardEvent::Unknown,
        }
    }
}

/// A key input device the listener can mix.
#[derive(Clone, Copy, PartialEq, Eq, Structural, Debug, Hash)]
pub enum KeyInputDevice {
    GenericKeyboard,
    PS3Controller,
}

/// One polled keyboard state: per tracked device, the status of each of the
/// virtual keys, as read from the host this tick.
pub struct KeyPoll {
    pub statuses: Vec<Vec<KeyStatus>>,
}

impl KeyPoll {
    /// A poll is complete for a listener when it has one full row of key
    /// statuses per tracked device.
    pub open spec fn wf_for_spec(&self, n_devices: int) -> bool {
        &&& self.statuses@.len() == n_devices
        &&& forall|d: int|
            0 <= d < n_devices ==> (#[trigger] self.statuses@[d])@.len() == VIRTUAL_KEY_COUNT
    }
}

/// Whether any polled device reports the key at `idx` as pressed.
pub open spec fn any_pressed_spec(rows: Seq<Vec<KeyStatus>>, idx: int) -> bool {
    exists|d: int| 0 <= d < rows.len() && (#[trigger] rows[d])@[idx] == KeyStatus::Pressed
}

/// One handler invocation the embedding application owes: which handler to
/// call, and for which key and event it was registered.
#[derive(Clone, Copy, PartialEq, Eq, Structural, Debug)]
pub struct KeyDispatch {
    pub key: VirtualKey,
    pub event: KeyboardEvent,
    pub handler: u64,
}

/// One key visited during an update pass: the polled status is mixed across
/// devices, classified against the stored status, and then committed.
pub open spec fn kb_step_spec(key_map: Seq<KeyStatus>, rows: Seq<Vec<KeyStatus>>, key: VirtualKey) -> (
    Seq<KeyStatus>,
    KeyboardEvent,
) {
    let idx = virtual_key_index_spec(key);
    let cur = if any_pressed_spec(rows, idx) {
        KeyStatus::Pressed
    } else {
        KeyStatus::Released
    };
    (key_map.update(idx, cur), classify_key_spec(key_map[idx], cur))
}

/// A whole update pass over the listened keys, first to last: the new stored
/// statuses and the handler invocations owed, in listening order and, per
/// key, registration order.
pub open spec fn kb_run_spec(
    key_map: Seq<KeyStatus>,
    handlers: Seq<Vec<Vec<u64>>>,
    listening: Seq<VirtualKey>,
    rows: Seq<Vec<KeyStatus>>,
) -> (Seq<KeyStatus>, Seq<KeyDispatch>)
    decreases listening.len(),
{
    if listening.len() == 0 {
        (key_map, Seq::empty())
    } else {
        let key = listening[0];
        let idx = virtual_key_index_spec(key);
        let step = kb_step_spec(key_map, rows, key);
        let ds = (handlers[idx])@[keyboard_event_index_spec(step.1)]@.map_values(
            |h: u64| KeyDispatch { key, event: step.1, handler: h },
        );
        let rest = kb_run_spec(step.0, handlers, listening.skip(1), rows);
        (rest.0, ds + rest.1)
    }
}

/// Watches a chosen set of virtual keys over one or more devices and
/// dispatches registered handlers on edge-triggered events.
pub struct KeyboardListener {
    pub devices: Vec<KeyInputDevice>,
    pub listening: Vec<VirtualKey>,
    pub key_map: Vec<KeyStatus>,
    pub event_handlers: Vec<Vec<Vec<u64>>>,
}

impl KeyboardListener {
    /// The tables are complete: one stored status per virtual key and one
    /// handler list per key and event.
    pub open spec fn wf_spec(&self) -> bool {
        &&& self.key_map@.len() == VIRTUAL_KEY_COUNT
        &&& self.event_handlers@.len() == VIRTUAL_KEY_COUNT
        &&& forall|i: int|
            0 <= i < VIRTUAL_KEY_COUNT ==> (#[trigger] self.event_handlers@[i])@.len()
                == KEYBOARD_EVENT_COUNT
    }

    pub open spec fn handlers_spec(&self, key: VirtualKey, event: KeyboardEvent) -> Seq<u64> {
        (self.event_handlers@[virtual_key_index_spec(key)])@[keyboard_event_index_spec(event)]@
    }

    /// The empty 25-by-5 handler table and the all-released status table.
    fn empty_tables() -> (r: (Vec<KeyStatus>, Vec<Vec<Vec<u64>>>))
        ensures
            r.0@.len() == VIRTUAL_KEY_COUNT,
            forall|i: int| 0 <= i < VIRTUAL_KEY_COUNT ==> r.0@[i] == KeyStatus::Released,
            r.1@.len() == VIRTUAL_KEY_COUNT,
            forall|i: int|
                0 <= i < VIRTUAL_KEY_COUNT ==> (#[trigger] r.1@[i])@.len() == KEYBOARD_EVENT_COUNT,
            forall|i: int, j: int|
                0 <= i < VIRTUAL_KEY_COUNT && 0 <= j < KEYBOARD_EVENT_COUNT ==> (#[trigger] r.1@[i]@[j])@.len() == 0,
    {
        let mut key_map: Vec<KeyStatus> = Vec::new();
        let mut events: Vec<Vec<Vec<u64>>> = Vec::new();
        let mut i: usize = 0;
        while i < VIRTUAL_KEY_COUNT
            invariant
                i <= VIRTUAL_KEY_COUNT,
                key_map@.len() == i,
                forall|k: int| 0 <= k < i ==> key_map@[k] == KeyStatus::Released,
                events@.len() == i,
                forall|k: int|
                    0 <= k < i ==> (#[trigger] events@[k])@.len() == KEYBOARD_EVENT_COUNT,
                forall|k: int, j: int|
                    0 <= k < i && 0 <= j < KEYBOARD_EVENT_COUNT ==> (#[trigger] events@[k]@[j])@.len() == 0,
            decreases VIRTUAL_KEY_COUNT - i,
        {
            key_map.push(KeyStatus::Released);
            let mut row: Vec<Vec<u64>> = Vec::new();
            let mut j: usize = 0;
            while j < KEYBOARD_EVENT_COUNT
                invariant
                    j <= KEYBOARD_EVENT_COUNT,
                    row@.len() == j,
                    forall|k: int| 0 <= k < j ==> (#[trigger] row@[k])@.len() == 0,
                decreases KEYBOARD_EVENT_COUNT - j,
            {
                row.push(Vec::new());
                j += 1;
            }
            events.push(row);
            i += 1;
        }
        (key_map, events)
    }

    /// Track every virtual key on the given devices; all statuses start
    /// released and no handlers are registered.
    pub fn new(devices: Vec<KeyInputDevice>) -> (r: KeyboardListener)
        ensures
            r.wf_spec(),
            r.devices == devices,
            r.listening@.len() == VIRTUAL_KEY_COUNT,
            forall|k: int|
                0 <= k < VIRTUAL_KEY_COUNT ==> r.listening@[k] == virtual_key_from_i32_spec(
                    k as i32,
                ),
            forall|i: int| 0 <= i < VIRTUAL_KEY_COUNT ==> r.key_map@[i] == KeyStatus::Released,
            forall|k: VirtualKey, e: KeyboardEvent| #[trigger] r.handlers_spec(k, e) == Seq::<u64>::empty(),
    {
        let (key_map, events) = Self::empty_tables();
        let mut listening: Vec<VirtualKey> = Vec::new();
        let mut i: usize = 0;
        while i < VIRTUAL_KEY_COUNT
            invariant
                i <= VIRTUAL_KEY_COUNT,
                listening@.len() == i,
                forall|k: int| 0 <= k < i ==> listening@[k] == virtual_key_from_i32_spec(k as i32),
            decreases VIRTUAL_KEY_COUNT - i,
        {
            listening.push(VirtualKey::from_i32(i as i32));
            i += 1;
        }
        KeyboardListener { devices, listening, key_map, event_handlers: events }
    }

    /// Track only the given keys, trading completeness for polling cost; all
    /// statuses start released and no handlers are registered.
    pub fn new_masked(devices: Vec<KeyInputDevice>, listening: Vec<VirtualKey>) -> (r:
        KeyboardListener)
        ensures
            r.wf_spec(),
            r.devices == devices,
            r.listening == listening,
            forall|i: int| 0 <= i < VIRTUAL_KEY_COUNT ==> r.key_map@[i] == KeyStatus::Released,
            forall|k: VirtualKey, e: KeyboardEvent| #[trigger] r.handlers_spec(k, e) == Seq::<u64>::empty(),
    {
        let (key_map, events) = Self::empty_tables();
        KeyboardListener { devices, listening, key_map, event_handlers: events }
    }

    /// Register one more handler for a key and event; handlers are
    /// append-only and fire in registration order.
    pub fn register_event_handler(&mut self, key: VirtualKey, event: KeyboardEvent, f: u64)
        requires
            old(self).wf_spec(),
        ensures
            final(self).wf_spec(),
            forall|k: VirtualKey, e: KeyboardEvent|
                #[trigger] final(self).handlers_spec(k, e) == (if virtual_key_index_spec(k)
                    == virtual_key_index_spec(key) && keyboard_event_index_spec(e)
                    == keyboard_event_index_spec(event) {
                    old(self).handlers_spec(k, e).push(f)
                } else {
                    old(self).handlers_spec(k, e)
                }),
            final(self).key_map == old(self).key_map,
            final(self).listening == old(self).listening,
            final(self).devices == old(self).devices,
    {
        let ki = key.index();
        let ei = event.index();
        let mut row: Vec<Vec<u64>> = Vec::new();
        self.event_handlers.set_and_swap(ki, &mut row);
        let mut cell: Vec<u64> = Vec::new();
        row.set_and_swap(ei, &mut cell);
        cell.push(f);
        row.set_and_swap(ei, &mut cell);
        self.event_handlers.set_and_swap(ki, &mut row);
        proof {
            assert(self.event_handlers@[ki as int]@ =~= old(self).event_handlers@[ki as int]@.update(
                ei as int,
                self.event_handlers@[ki as int]@[ei as int],
            ));
        }
    }

    /// Mix the polled statuses of one key across every tracked device:
    /// pressed anywhere counts as pressed.
    pub fn current_key_status(&self, poll: &KeyPoll, vkey: &VirtualKey) -> (s: KeyStatus)
        requires
            poll.wf_for_spec(self.devices@.len() as int),
        ensures
            s == (if any_pressed_spec(poll.statuses@, virtual_key_index_spec(*vkey)) {
                KeyStatus::Pressed
            } else {
                KeyStatus::Released
            }),
    {
        let idx = vkey.index();
        let n = self.devices.len();
        let mut d: usize = 0;
        while d < n
            invariant
                d <= n,
                n == self.devices@.len(),
                poll.wf_for_spec(n as int),
                idx == virtual_key_index_spec(*vkey),
                idx < VIRTUAL_KEY_COUNT,
                forall|k: int|
                    0 <= k < d ==> (#[trigger] poll.statuses@[k])@[idx as int] != KeyStatus::Pressed,
            decreases n - d,
        {
            let row = &poll.statuses[d];
            if row[idx] == KeyStatus::Pressed {
                return KeyStatus::Pressed;
            }
            d += 1;
        }
        KeyStatus::Released
    }

    /// One update pass: visit every listened key in order, classify its
    /// transition against the stored status, commit the new status, and
    /// return every handler invocation owed, in listening then registration
    /// order.
    pub fn update(&mut self, poll: &KeyPoll, _t: Clock) -> (d: Vec<KeyDispatch>)
        requires
            old(self).wf_spec(),
            poll.wf_for_spec(old(self).devices@.len() as int),
        ensures
            final(self).wf_spec(),
            final(self).key_map@ == kb_run_spec(
                old(self).key_map@,
                old(self).event_handlers@,
                old(self).listening@,
                poll.statuses@,
            ).0,
            d@ == kb_run_spec(
                old(self).key_map@,
                old(self).event_handlers@,
                old(self).listening@,
                poll.statuses@,
            ).1,
            final(self).event_handlers == old(self).event_handlers,
            final(self).listening == old(self).listening,
            final(self).devices == old(self).devices,
    {
        let ghost orig_map = self.key_map@;
        let ghost orig_handlers = self.event_handlers@;
        let ghost orig_listening = self.listening@;
        let ghost rows = poll.statuses@;
        let mut d: Vec<KeyDispatch> = Vec::new();
        let n = self.listening.len();
        let mut i: usize = 0;
        proof {
            assert(orig_listening.skip(0) =~= orig_listening);
            assert(d@ + kb_run_spec(orig_map, orig_handlers, orig_listening, rows).1
                =~= kb_run_spec(orig_map, orig_handlers, orig_listening, rows).1);
        }
        while i < n
            invariant
                i <= n,
                n == orig_listening.len(),
                self.wf_spec(),
                self.listening == old(self).listening,
                self.listening@ == orig_listening,
                self.event_handlers == old(self).event_handlers,
                self.event_handlers@ == orig_handlers,
                self.devices == old(self).devices,
                poll.wf_for_spec(self.devices@.len() as int),
                rows == poll.statuses@,
                kb_run_spec(orig_map, orig_handlers, orig_listening, rows).0 == kb_run_spec(
                    self.key_map@,
                    orig_handlers,
                    orig_listening.skip(i as int),
                    rows,
                ).0,
                kb_run_spec(orig_map, orig_handlers, orig_listening, rows).1 == d@ + kb_run_spec(
                    self.key_map@,
                    orig_handlers,
                    orig_listening.skip(i as int),
                    rows,
                ).1,
            decreases n - i,
        {
            let ghost suffix = orig_listening.skip(i as int);
            let ghost pre_map = self.key_map@;
            let vkey = self.listening[i];
            let idx = vkey.index();
            let cur = self.current_key_status(poll, &vkey);
            let prev = self.key_map[idx];
            let ev = classify_key(prev, cur);
            let ei = ev.index();
            let handlers = &self.event_handlers[idx];
            let cell = &handlers[ei];
            let ghost base = d@;
            let m = cell.len();
            let mut k: usize = 0;
            while k < m
                invariant
                    k <= m,
                    m == cell@.len(),
                    d@ =~= base + cell@.take(k as int).map_values(
                        |h: u64| KeyDispatch { key: vkey, event: ev, handler: h },
                    ),
                decreases m - k,
            {
                d.push(KeyDispatch { key: vkey, event: ev, handler: cell[k] });
                proof {
                    assert(cell@.take(k + 1) =~= cell@.take(k as int).push(cell@[k as int]));
                    assert(cell@.take(k + 1).map_values(
                        |h: u64| KeyDispatch { key: vkey, event: ev, handler: h },
                    ) =~= cell@.take(k as int).map_values(
                        |h: u64| KeyDispatch { key: vkey, event: ev, handler: h },
                    ).push(KeyDispatch { key: vkey, event: ev, handler: cell@[k as int] }));
                }
                k += 1;
            }
            self.key_map.set(idx, cur);
            proof {
                assert(cell@.take(m as int) =~= cell@);
                assert(suffix[0] == orig_listening[i as int]);
                assert(suffix.skip(1) =~= orig_listening.skip(i as int + 1));
                assert(kb_step_spec(pre_map, rows, vkey).0 == self.key_map@);
                assert(kb_step_spec(pre_map, rows, vkey).1 == ev);
                assert(d@ =~= (base + cell@.map_values(
                    |h: u64| KeyDispatch { key: vkey, event: ev, handler: h },
                )));
            }
            i += 1;
        }
        proof {
            assert(orig_listening.skip(n as int) =~= Seq::<VirtualKey>::empty());
            assert(d@ + Seq::<KeyDispatch>::empty() =~= d@);
        }
        d
    }
}

/// A strictly alternating poll run on one listened key raises exactly the
/// edge events: starting from a released stored status, a pressed poll
/// raises the first-press event and the following released poll raises the
/// typed event — no held or idle event appears at either step.
pub proof fn lemma_key_alternating_polls(
    key_map: Seq<KeyStatus>,
    key: VirtualKey,
    rows_pressed: Seq<Vec<KeyStatus>>,
    rows_released: Seq<Vec<KeyStatus>>,
)
    requires
        0 <= virtual_key_index_spec(key) < key_map.len(),
        key_map[virtual_key_index_spec(key)] == KeyStatus::Released,
        any_pressed_spec(rows_pressed, virtual_key_index_spec(key)),
        !any_pressed_spec(rows_released, virtual_key_index_spec(key)),
    ensures
        kb_step_spec(key_map, rows_pressed, key).1 == KeyboardEvent::FirstPressed,
        kb_step_spec(kb_step_spec(key_map, rows_pressed, key).0, rows_released, key).1
            == KeyboardEvent::Typed,
{
}

/// A physical key code the keymap can bind to a virtual key.
#[derive(Clone, Copy, PartialEq, Eq, Structural, Debug, Hash)]
pub enum KeyCode {
    Left,
    Right,
    Up,
    Down,
    A,
    D,
    W,
    S,
    J,
    L,
    I,
    K,
    Z,
    X,
    C,
    V,
    N,
    M,
    Comma,
    Period,
}

/// The first binding of `code`, scanning the entries in order.
pub open spec fn assoc_lookup_spec(entries: Seq<(KeyCode, VirtualKey)>, code: KeyCode) -> Option<
    VirtualKey,
>
    decreases entries.len(),
{
    if entries.len() == 0 {
        None
    } else if entries[0].0 == code {
        Some(entries[0].1)
    } else {
        assoc_lookup_spec(entries.skip(1), code)
    }
}

/// The first key code bound to `virt`, scanning the entries in order.
pub open spec fn assoc_reverse_spec(entries: Seq<(KeyCode, VirtualKey)>, virt: VirtualKey) -> Option<
    KeyCode,
>
    decreases entries.len(),
{
    if entries.len() == 0 {
        None
    } else if entries[0].1 == virt {
        Some(entries[0].0)
    } else {
        assoc_reverse_spec(entries.skip(1), virt)
    }
}

/// The entries after rebinding `code`: the first existing binding is
/// replaced in place, or a new one is appended.
pub open spec fn assoc_update_spec(
    entries: Seq<(KeyCode, VirtualKey)>,
    code: KeyCode,
    virt: VirtualKey,
) -> Seq<(KeyCode, VirtualKey)>
    decreases entries.len(),
{
    if entries.len() == 0 {
        seq![(code, virt)]
    } else if entries[0].0 == code {
        seq![(code, virt)] + entries.skip(1)
    } else {
        seq![entries[0]] + assoc_update_spec(entries.skip(1), code, virt)
    }
}

/// A configurable binding from physical key codes to virtual keys.
pub trait ProgramableKey: Sized {
    /// The bindings, in scanning order.
    spec fn keymap_spec(&self) -> Seq<(KeyCode, VirtualKey)>;

    /// Rebind a physical key.
    fn update_config(&mut self, code: KeyCode, virt: VirtualKey)
        ensures
            final(self).keymap_spec() == assoc_update_spec(old(self).keymap_spec(), code, virt),
    ;

    /// The physical key bound to a virtual key; the caller must know the
    /// binding exists.
    fn virtual_to_real(&self, virt: VirtualKey) -> (r: KeyCode)
        requires
            assoc_reverse_spec(self.keymap_spec(), virt).is_some(),
        ensures
            Some(r) == assoc_reverse_spec(self.keymap_spec(), virt),
    ;

    /// The virtual key a physical key is bound to; unbound keys read as
    /// `Unknown`.
    fn real_to_virtual(&self, code: KeyCode) -> (r: VirtualKey)
        ensures
            r == (match assoc_lookup_spec(self.keymap_spec(), code) {
                Some(v) => v,
                None => VirtualKey::Unknown,
            }),
    ;
}

/// The bindings a generic keyboard starts with.
pub open spec fn default_keymap_spec() -> Seq<(KeyCode, VirtualKey)> {
    seq![
        (KeyCode::Left, VirtualKey::Left),
        (KeyCode::Right, VirtualKey::Right),
        (KeyCode::Up, VirtualKey::Up),
        (KeyCode::Down, VirtualKey::Down),
        (KeyCode::A, VirtualKey::LeftSub),
        (KeyCode::D, VirtualKey::RightSub),
        (KeyCode::W, VirtualKey::UpSub),
        (KeyCode::S, VirtualKey::DownSub),
        (KeyCode::J, VirtualKey::LeftSubSub),
        (KeyCode::L, VirtualKey::RightSubSub),
        (KeyCode::I, VirtualKey::UpSubSub),
        (KeyCode::K, VirtualKey::DownSubSub),
        (KeyCode::Z, VirtualKey::Action1),
        (KeyCode::X, VirtualKey::Action2),
        (KeyCode::C, VirtualKey::Action3),
        (KeyCode::V, VirtualKey::Action4),
        (KeyCode::N, VirtualKey::Action5),
        (KeyCode::M, VirtualKey::Action6),
        (KeyCode::Comma, VirtualKey::Action7),
        (KeyCode::Period, VirtualKey::Action8),
    ]
}

/// The keymap of a generic keyboard, held as an ordered list of bindings.
pub struct ProgramableGenericKey {
    pub key_map: Vec<(KeyCode, VirtualKey)>,
}

impl ProgramableGenericKey {
    /// The default bindings: arrows, two letter pads, eight action keys.
    pub fn new() -> (r: ProgramableGenericKey)
        ensures
            r.key_map@ == default_keymap_spec(),
    {
        let mut key_map: Vec<(KeyCode, VirtualKey)> = Vec::new();
        key_map.push((KeyCode::Left, VirtualKey::Left));
        key_map.push((KeyCode::Right, VirtualKey::Right));
        key_map.push((KeyCode::Up, VirtualKey::Up));
        key_map.push((KeyCode::Down, VirtualKey::Down));
        key_map.push((KeyCode::A, VirtualKey::LeftSub));
        key_map.push((KeyCode::D, VirtualKey::RightSub));
        key_map.push((KeyCode::W, VirtualKey::UpSub));
        key_map.push((KeyCode::S, VirtualKey::DownSub));
        key_map.push((KeyCode::J, VirtualKey::LeftSubSub));
        key_map.push((KeyCode::L, VirtualKey::RightSubSub));
        key_map.push((KeyCode::I, VirtualKey::UpSubSub));
        key_map.push((KeyCode::K, VirtualKey::DownSubSub));
        key_map.push((KeyCode::Z, VirtualKey::Action1));
        key_map.push((KeyCode::X, VirtualKey::Action2));
        key_map.push((KeyCode::C, VirtualKey::Action3));
        key_map.push((KeyCode::V, VirtualKey::Action4));
        key_map.push((KeyCode::N, VirtualKey::Action5));
        key_map.push((KeyCode::M, VirtualKey::Action6));
        key_map.push((KeyCode::Comma, VirtualKey::Action7));
        key_map.push((KeyCode::Period, VirtualKey::Action8));
        proof {
            assert(key_map@ =~= default_keymap_spec());
        }
        ProgramableGenericKey { key_map }
    }
}

impl ProgramableKey for ProgramableGenericKey {
    open spec fn keymap_spec(&self) -> Seq<(KeyCode, VirtualKey)> {
        self.key_map@
    }

    fn update_config(&mut self, code: KeyCode, virt: VirtualKey) {
        let ghost orig = self.key_map@;
        let n = self.key_map.len();
        let mut i: usize = 0;
        while i < n
            invariant
                i <= n,
                n == orig.len(),
                orig == old(self).key_map@,
                self.key_map@ == orig,
                forall|k: int| 0 <= k < i ==> (#[trigger] orig[k]).0 != code,
            decreases n - i,
        {
            let entry = self.key_map[i];
            if entry.0 == code {
                self.key_map.set(i, (code, virt));
                proof {
                    lemma_assoc_update_found(orig, code, virt, i as int);
                }
                return ;
            }
            i += 1;
        }
        self.key_map.push((code, virt));
        proof {
            lemma_assoc_update_missing(orig, code, virt);
        }
    }

    fn virtual_to_real(&self, virt: VirtualKey) -> (r: KeyCode) {
        let n = self.key_map.len();
        let mut i: usize = 0;
        proof {
            assert(self.key_map@.skip(0) =~= self.key_map@);
        }
        while i < n
            invariant
                i <= n,
                n == self.key_map@.len(),
                assoc_reverse_spec(self.key_map@, virt).is_some(),
                assoc_reverse_spec(self.key_map@, virt) == assoc_reverse_spec(
                    self.key_map@.skip(i as int),
                    virt,
                ),
            decreases n - i,
        {
            let entry = self.key_map[i];
            proof {
                assert(self.key_map@.skip(i as int)[0] == self.key_map@[i as int]);
                assert(self.key_map@.skip(i as int).skip(1) =~= self.key_map@.skip(i as int + 1));
            }
            if entry.1 == virt {
                return entry.0;
            }
            i += 1;
        }
        proof {
            assert(self.key_map@.skip(n as int) =~= Seq::<(KeyCode, VirtualKey)>::empty());
            assert(false);
        }
        KeyCode::Left
    }

    fn real_to_virtual(&self, code: KeyCode) -> (r: VirtualKey) {
        let n = self.key_map.len();
        let mut i: usize = 0;
        proof {
            assert(self.key_map@.skip(0) =~= self.key_map@);
        }
        while i < n
            invariant
                i <= n,
                n == self.key_map@.len(),
                assoc_lookup_spec(self.key_map@, code) == assoc_lookup_spec(
                    self.key_map@.skip(i as int),
                    code,
                ),
            decreases n - i,
        {
            let entry = self.key_map[i];
            proof {
                assert(self.key_map@.skip(i as int)[0] == self.key_map@[i as int]);
                assert(self.key_map@.skip(i as int).skip(1) =~= self.key_map@.skip(i as int + 1));
            }
            if entry.0 == code {
                return entry.1;
            }
            i += 1;
        }
        proof {
            assert(self.key_map@.skip(n as int) =~= Seq::<(KeyCode, VirtualKey)>::empty());
        }
        VirtualKey::Unknown
    }
}

/// Rebinding a key that is bound at position `i` (and nowhere earlier)
/// replaces exactly that entry.
proof fn lemma_assoc_update_found(
    entries: Seq<(KeyCode, VirtualKey)>,
    code: KeyCode,
    virt: VirtualKey,
    i: int,
)
    requires
        0 <= i < entries.len(),
        entries[i].0 == code,
        forall|k: int| 0 <= k < i ==> (#[trigger] entries[k]).0 != code,
    ensures
        assoc_update_spec(entries, code, virt) == entries.update(i, (code, virt)),
    decreases i,
{
    if i == 0 {
        assert(assoc_update_spec(entries, code, virt) == seq![(code, virt)] + entries.skip(1));
        assert(seq![(code, virt)] + entries.skip(1) =~= entries.update(0, (code, virt)));
    } else {
        assert(entries[0].0 != code);
        lemma_assoc_update_found(entries.skip(1), code, virt, i - 1);
        assert(seq![entries[0]] + entries.skip(1).update(i - 1, (code, virt)) =~= entries.update(
            i,
            (code, virt),
        ));
    }
}

/// Rebinding a key with no existing binding appends the new one.
proof fn lemma_assoc_update_missing(
    entries: Seq<(KeyCode, VirtualKey)>,
    code: KeyCode,
    virt: VirtualKey,
)
    requires
        forall|k: int| 0 <= k < entries.len() ==> (#[trigger] entries[k]).0 != code,
    ensures
        assoc_update_spec(entries, code, virt) == entries.push((code, virt)),
    decreases entries.len(),
{
    if entries.len() == 0 {
        assert(assoc_update_spec(entries, code, virt) =~= entries.push((code, virt)));
    } else {
        assert(entries[0].0 != code);
        assert(forall|k: int|
            0 <= k < entries.skip(1).len() ==> (#[trigger] entries.skip(1)[k]).0 != code);
        lemma_assoc_update_missing(entries.skip(1), code, virt);
        assert(seq![entries[0]] + entries.skip(1).push((code, virt)) =~= entries.push(
            (code, virt),
        ));
    }
}

} // verus!
