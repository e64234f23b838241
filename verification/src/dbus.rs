//! Request handling behind the DBus interface: which screen a request
//! captures and where its result is saved.

use crate::capture::Screen;
use crate::error::Error;
use vstd::prelude::*;

verus! {

/// What a capture request covers.
#[derive(Debug, Clone, Copy, PartialEq, Eq, Structural)]
pub enum CaptureKind {
    /// The screen under the pointer.
    CursorScreen,
    /// The whole root window, every monitor.
    All,
    /// The screen with this index.
    Screen(usize),
}

/// A negative screen number means the pointer's screen.
pub fn kind_for_screen(n: i32) -> (k: CaptureKind)
    ensures
        n < 0 ==> k == CaptureKind::CursorScreen,
        n >= 0 ==> k == CaptureKind::Screen(n as usize),
{
    if n < 0 {
        CaptureKind::CursorScreen
    } else {
        CaptureKind::Screen(n as usize)
    }
}

/// The save path of a request: empty (skip saving) with `no_save`, the
/// given path if there is one, else the automatic path.
pub open spec fn spec_resolve_save_path(path: Seq<char>, no_save: bool, auto: Seq<char>) -> Seq<char> {
    if no_save {
        Seq::empty()
    } else if path.len() != 0 {
        path
    } else {
        auto
    }
}

pub fn resolve_save_path(path: String, no_save: bool, auto: String) -> (r: String)
    ensures
        r@ == spec_resolve_save_path(path@, no_save, auto@),
{
    if no_save {
        return String::new();
    }
    if !path.as_str().is_empty() {
        return path;
    }
    auto
}

/// The screen with index `n`.
pub fn pick_screen(screens: &Vec<Screen>, n: usize) -> (r: Result<Screen, Error>)
    ensures
        n < screens@.len() ==> r == Ok::<Screen, Error>(screens@[n as int]),
        n >= screens@.len() ==> r == Err::<Screen, Error>(Error::ScreenOutOfRange { index: n }),
{
    if n < screens.len() {
        Ok(screens[n])
    } else {
        Err(Error::ScreenOutOfRange { index: n })
    }
}

/// Where a finished capture goes.
#[derive(Debug, Clone, Copy, PartialEq, Eq, Structural)]
pub struct Outputs {
    pub save: bool,
    pub copy: bool,
}

/// A capture is saved when it has a save path and copied when copying was
/// asked for; with neither it goes nowhere (and the caller warns).
pub fn plan_outputs(save_path: &str, copy: bool) -> (r: Outputs)
    ensures
        r.save == (save_path@.len() != 0),
        r.copy == copy,
{
    Outputs { save: !save_path.is_empty(), copy }
}

} // verus!
