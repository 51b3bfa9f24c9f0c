//! Normalized input events and the raw notifications they are made from.

use vstd::prelude::*;

verus! {

/// The kinds of input event that are forwarded.
#[derive(Clone, Copy, Debug, PartialEq, Eq, Structural)]
pub enum InputKind {
    KeyPress,
    KeyRelease,
    MouseMove,
    ButtonPress,
    ButtonRelease,
}

impl InputKind {
    /// The kind's name as the consuming layer reads it.
    pub open spec fn spec_name(self) -> Seq<char> {
        match self {
            InputKind::KeyPress => "KeyPress"@,
            InputKind::KeyRelease => "KeyRelease"@,
            InputKind::MouseMove => "MouseMove"@,
            InputKind::ButtonPress => "ButtonPress"@,
            InputKind::ButtonRelease => "ButtonRelease"@,
        }
    }

    pub fn name(&self) -> (r: &'static str)
        ensures
            r@ == self.spec_name(),
    {
        proof {
            reveal_strlit("KeyPress");
            reveal_strlit("KeyRelease");
            reveal_strlit("MouseMove");
            reveal_strlit("ButtonPress");
            reveal_strlit("ButtonRelease");
        }
        match self {
            InputKind::KeyPress => "KeyPress",
            InputKind::KeyRelease => "KeyRelease",
            InputKind::MouseMove => "MouseMove",
            InputKind::ButtonPress => "ButtonPress",
            InputKind::ButtonRelease => "ButtonRelease",
        }
    }

    pub open spec fn is_key(self) -> bool {
        self == InputKind::KeyPress || self == InputKind::KeyRelease
    }

    pub open spec fn is_button(self) -> bool {
        self == InputKind::ButtonPress || self == InputKind::ButtonRelease
    }
}

/// A normalized input event. Pointer coordinates are held as the bit patterns of
/// the `f64` values that the capture source reported (`f64::to_bits`).
#[derive(Clone, Debug)]
pub struct GlobalInputEvent {
    pub kind: InputKind,
    pub key_code: Option<String>,
    pub button: Option<String>,
    pub x: Option<u64>,
    pub y: Option<u64>,
    pub timestamp: u64,
}

impl GlobalInputEvent {
    /// Exactly the fields that belong to the event's kind are present.
    pub open spec fn wf(&self) -> bool {
        &&& self.key_code.is_some() <==> self.kind.is_key()
        &&& self.button.is_some() <==> self.kind.is_button()
        &&& self.x.is_some() <==> self.kind == InputKind::MouseMove
        &&& self.y.is_some() <==> self.kind == InputKind::MouseMove
    }

    pub fn is_mouse_move(&self) -> (r: bool)
        ensures
            r == (self.kind == InputKind::MouseMove),
    {
        self.kind == InputKind::MouseMove
    }

    /// A copy of the event, equal to it.
    pub fn duplicate(&self) -> (r: GlobalInputEvent)
        ensures
            r == *self,
    {
        GlobalInputEvent {
            kind: self.kind,
            key_code: copy_text(&self.key_code),
            button: copy_text(&self.button),
            x: self.x,
            y: self.y,
            timestamp: self.timestamp,
        }
    }
}

/// A copy of an optional string, equal to it.
pub fn copy_text(s: &Option<String>) -> (r: Option<String>)
    ensures
        r == *s,
{
    match s {
        Some(t) => Some(t.clone()),
        None => None,
    }
}

/// A raw device notification as the capture source reports it. Key and button
/// names are the capture API's own names; coordinates are `f64` bit patterns.
#[derive(Clone, Debug)]
pub enum RawInputKind {
    KeyPress(String),
    KeyRelease(String),
    MouseMove { x: u64, y: u64 },
    ButtonPress(String),
    ButtonRelease(String),
    /// Any notification that is not forwarded (wheel, resync and the like).
    Other,
}

/// A raw notification with its capture time in milliseconds since the Unix epoch.
#[derive(Clone, Debug)]
pub struct RawInput {
    pub kind: RawInputKind,
    pub timestamp: u64,
}

/// The event that a raw notification normalizes to, if it is one that is forwarded.
pub open spec fn normalized(raw: RawInput) -> Option<GlobalInputEvent> {
    let t = raw.timestamp;
    match raw.kind {
        RawInputKind::KeyPress(k) => Some(
            GlobalInputEvent { kind: InputKind::KeyPress, key_code: Some(k), button: None, x: None, y: None, timestamp: t },
        ),
        RawInputKind::KeyRelease(k) => Some(
            GlobalInputEvent { kind: InputKind::KeyRelease, key_code: Some(k), button: None, x: None, y: None, timestamp: t },
        ),
        RawInputKind::MouseMove { x, y } => Some(
            GlobalInputEvent { kind: InputKind::MouseMove, key_code: None, button: None, x: Some(x), y: Some(y), timestamp: t },
        ),
        RawInputKind::ButtonPress(b) => Some(
            GlobalInputEvent { kind: InputKind::ButtonPress, key_code: None, button: Some(b), x: None, y: None, timestamp: t },
        ),
        RawInputKind::ButtonRelease(b) => Some(
            GlobalInputEvent { kind: InputKind::ButtonRelease, key_code: None, button: Some(b), x: None, y: None, timestamp: t },
        ),
        RawInputKind::Other => None,
    }
}

/// Normalizes a raw notification; unrecognized kinds give `None`. The event keeps
/// the notification's own capture time.
pub fn normalize_event(event: &RawInput) -> (r: Option<GlobalInputEvent>)
    ensures
        r == normalized(*event),
        r matches Some(e) ==> e.wf(),
{
    let timestamp = event.timestamp;
    match &event.kind {
        RawInputKind::KeyPress(key) => Some(GlobalInputEvent {
            kind: InputKind::KeyPress,
            key_code: Some(key.clone()),
            button: None,
            x: None,
            y: None,
            timestamp,
        }),
        RawInputKind::KeyRelease(key) => Some(GlobalInputEvent {
            kind: InputKind::KeyRelease,
            key_code: Some(key.clone()),
            button: None,
            x: None,
            y: None,
            timestamp,
        }),
        RawInputKind::MouseMove { x, y } => Some(GlobalInputEvent {
            kind: InputKind::MouseMove,
            key_code: None,
            button: None,
            x: Some(*x),
            y: Some(*y),
            timestamp,
        }),
        RawInputKind::ButtonPress(button) => Some(GlobalInputEvent {
            kind: InputKind::ButtonPress,
            key_code: None,
            button: Some(button.clone()),
            x: None,
            y: None,
            timestamp,
        }),
        RawInputKind::ButtonRelease(button) => Some(GlobalInputEvent {
            kind: InputKind::ButtonRelease,
            key_code: None,
            button: Some(button.clone()),
            x: None,
            y: None,
            timestamp,
        }),
        RawInputKind::Other => None,
    }
}

} // verus!
