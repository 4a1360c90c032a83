use vstd::prelude::*;

verus! {

/// A transient user-visible notification.
pub struct Notif {
    pub message: String,
    pub notif_type: TypeNotifs,
}

impl Notif {
    /// An empty success notification, the initial value before anything has
    /// been reported.
    pub fn new() -> (r: Self)
        ensures
            r.message@.len() == 0,
            r.notif_type is Success,
    {
        Self { message: String::new(), notif_type: TypeNotifs::Success }
    }
}

/// The kind of a notification; share notifications stay visible longer.
#[derive(Clone, Copy, PartialEq, Eq, Structural, Debug)]
pub enum TypeNotifs {
    Success,
    Error,
    Share,
}

/// How long a notification of the given kind stays on screen, in
/// milliseconds: a share notification shows a URL the user must copy, so it
/// lingers; everything else fades quickly.
pub fn notif_timeout_ms(t: &TypeNotifs) -> (r: u32)
    ensures
        r == (if t is Share { 20000u32 } else { 3000u32 }),
{
    match t {
        TypeNotifs::Share => 20000,
        _ => 3000,
    }
}

} // verus!
