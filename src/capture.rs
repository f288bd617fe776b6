//! Decisions of the capture layer: which notification ranges to subscribe
//! to, when registration has failed, and which pointer messages are clicks.
use vstd::prelude::*;
use crate::event::{
    EVENT_OBJECT_CREATE, EVENT_OBJECT_FOCUS, EVENT_OBJECT_REORDER, EVENT_OBJECT_SHOW,
    EVENT_SYSTEM_FOREGROUND, EVENT_SYSTEM_MINIMIZEEND, EVENT_SYSTEM_MINIMIZESTART,
};

verus! {

/// Pointer message: left button pressed.
pub const WM_LBUTTONDOWN: u32 = 0x0201;
/// Pointer message: right button pressed.
pub const WM_RBUTTONDOWN: u32 = 0x0204;
/// Pointer message: middle button pressed.
pub const WM_MBUTTONDOWN: u32 = 0x0207;

/// The notification ranges subscribed to, in order: foreground, create,
/// show, focus, minimize start to end, reorder.
pub open spec fn subscribed_ranges() -> Seq<(u32, u32)> {
    seq![
        (EVENT_SYSTEM_FOREGROUND, EVENT_SYSTEM_FOREGROUND),
        (EVENT_OBJECT_CREATE, EVENT_OBJECT_CREATE),
        (EVENT_OBJECT_SHOW, EVENT_OBJECT_SHOW),
        (EVENT_OBJECT_FOCUS, EVENT_OBJECT_FOCUS),
        (EVENT_SYSTEM_MINIMIZESTART, EVENT_SYSTEM_MINIMIZEEND),
        (EVENT_OBJECT_REORDER, EVENT_OBJECT_REORDER),
    ]
}

pub fn hook_ranges() -> (r: Vec<(u32, u32)>)
    ensures
        r@ == subscribed_ranges(),
{
    let r = vec![
        (EVENT_SYSTEM_FOREGROUND, EVENT_SYSTEM_FOREGROUND),
        (EVENT_OBJECT_CREATE, EVENT_OBJECT_CREATE),
        (EVENT_OBJECT_SHOW, EVENT_OBJECT_SHOW),
        (EVENT_OBJECT_FOCUS, EVENT_OBJECT_FOCUS),
        (EVENT_SYSTEM_MINIMIZESTART, EVENT_SYSTEM_MINIMIZEEND),
        (EVENT_OBJECT_REORDER, EVENT_OBJECT_REORDER),
    ];
    proof {
        assert(r@ =~= subscribed_ranges());
    }
    r
}

/// Why capture could not start.
#[derive(Debug, Clone, Copy, PartialEq, Eq, Structural)]
pub enum RegistrationError {
    /// Not one subscription succeeded, neither to window notifications nor
    /// to pointer presses.
    NoHooks,
}

impl RegistrationError {
    pub fn message(&self) -> (r: &'static str)
        ensures
            r@ == "No hooks could be set!"@,
    {
        "No hooks could be set!"
    }
}

/// The window-notification subscriptions that succeeded, or the fatal error
/// when no subscription at all succeeded: none of the window ranges and not
/// the pointer subscription (`pointer_ok`).
pub fn registration_outcome<H>(hooks: Vec<H>, pointer_ok: bool) -> (r: Result<Vec<H>, RegistrationError>)
    ensures
        r is Err <==> hooks@.len() == 0 && !pointer_ok,
        r is Ok ==> r->Ok_0@ == hooks@,
{
    if hooks.len() == 0 && !pointer_ok {
        Err(RegistrationError::NoHooks)
    } else {
        Ok(hooks)
    }
}

/// A low-level pointer notification with hook code `code` and message `msg`
/// is a button press.
pub open spec fn is_click_message(code: i32, msg: u32) -> bool {
    code >= 0 && (msg == WM_LBUTTONDOWN || msg == WM_RBUTTONDOWN || msg == WM_MBUTTONDOWN)
}

pub fn is_click(code: i32, msg: u32) -> (r: bool)
    ensures
        r == is_click_message(code, msg),
{
    code >= 0 && (msg == WM_LBUTTONDOWN || msg == WM_RBUTTONDOWN || msg == WM_MBUTTONDOWN)
}

} // verus!
