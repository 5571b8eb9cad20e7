//! Input events as the core sees them, and the requests it hands back:
//! the core decides, the surrounding program performs.

use vstd::prelude::*;

verus! {

/// The keys the interface distinguishes; anything else arrives as `Other`.
#[derive(Clone, Copy, Debug, PartialEq, Eq, Structural)]
pub enum KeyInput {
    Char(char),
    Up,
    Down,
    Left,
    Right,
    Enter,
    Backspace,
    Esc,
    Other,
}

/// The two tabs of the interface.
#[derive(Clone, Copy, Debug, PartialEq, Eq, Structural)]
pub enum Tab {
    Directories,
    Sessions,
}

/// What the interface asks its caller to do after handling a key: nothing,
/// or one of the provider operations the core cannot perform itself.
#[derive(Clone, Copy, Debug, PartialEq, Eq, Structural)]
pub enum Action {
    /// Nothing left to do.
    Idle,
    /// Fetch the current directory's listing again — the hidden-file
    /// filter changed — and hand it back through `change_directory`.
    ReloadListing,
    /// Move to the parent directory, if there is one, and hand the new
    /// listing back through `change_directory`.
    GoToParent,
    /// Enter the directory at this listing index and hand the new listing
    /// back through `change_directory`.
    EnterDirectory(usize),
    /// Create or attach a multiplexer session at the current directory;
    /// the interface is done.
    AttachCurrentDirectory,
    /// Attach to the session at this index; the interface is done.
    AttachSession(usize),
}

/// Unicode control codes: the C0 and C1 ranges and DEL.
pub open spec fn is_control_char(c: char) -> bool {
    (c as u32) < 32 || (127 <= (c as u32) < 160)
}

/// Whether `c` is a control code, exactly as `char::is_control` reports:
/// the C0 range, DEL, and the C1 range.
pub fn check_control_char(c: char) -> (r: bool)
    ensures
        r == is_control_char(c),
{
    let u = c as u32;
    u < 32 || (127 <= u && u < 160)
}

pub uninterp spec fn whitespace_char(c: char) -> bool;

/// Relies on char::is_whitespace: whether the character has the Unicode
/// White_Space property, a fact of the character alone.
#[verifier::external_body]
pub(crate) fn check_whitespace_char(c: char) -> (r: bool)
    ensures
        r == whitespace_char(c),
{
    c.is_whitespace()
}

} // verus!
