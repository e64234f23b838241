//! Decisions of the XEmbed status-tray icon: how it reacts to each X event,
//! and where its right-click "Quit" popup goes.

use vstd::prelude::*;

verus! {

/// Side of the tray icon window.
pub const ICON: u16 = 22;

/// Size of the quit popup.
pub const POPUP_W: i16 = 96;
pub const POPUP_H: i16 = 28;

/// The X events the tray icon cares about.
#[derive(Debug, Clone, Copy, PartialEq, Eq, Structural)]
pub enum TrayEvent {
    Expose { window: u32 },
    Configure { window: u32, width: u16, height: u16 },
    ButtonPress { window: u32, button: u8, root_x: i16, root_y: i16 },
    Reparent { window: u32, parent: u32 },
    Destroy { window: u32 },
    /// A client message on `window` of type `kind`; `selection` is its
    /// second data word.
    ClientMessage { window: u32, kind: u32, selection: u32 },
    Other,
}

/// What the tray loop does next.
#[derive(Debug, Clone, Copy, PartialEq, Eq, Structural)]
pub enum TrayAction {
    /// Repaint the icon at its current size.
    Paint { width: u16, height: u16 },
    /// Start a region capture.
    Capture,
    /// Open the quit popup at the pointer.
    QuitMenu { root_x: i16, root_y: i16 },
    /// Ask the tray manager to dock the icon again.
    Redock,
    /// Build a new icon window (then `recreated`) and dock it.
    Recreate,
    Nothing,
}

/// Atoms and windows the loop compares against.
#[derive(Debug, Clone, Copy, PartialEq, Eq, Structural)]
pub struct TrayIds {
    pub root: u32,
    pub tray_selection: u32,
    pub manager: u32,
}

/// The icon window and its current size.
#[derive(Debug, Clone, Copy, PartialEq, Eq, Structural)]
pub struct TrayState {
    pub window: u32,
    pub width: u16,
    pub height: u16,
}

/// Expose of the icon: repaint. Configure of the icon: take the new size.
/// Left click: capture; right click: quit popup. Pushed back onto the root
/// window: redock. Icon destroyed: recreate. A MANAGER broadcast on the
/// root for the tray selection: redock. Anything else: nothing.
pub open spec fn spec_tray_step(s: TrayState, ev: TrayEvent, ids: TrayIds) -> (TrayState, TrayAction) {
    match ev {
        TrayEvent::Expose { window } => if window == s.window {
            (s, TrayAction::Paint { width: s.width, height: s.height })
        } else {
            (s, TrayAction::Nothing)
        },
        TrayEvent::Configure { window, width, height } => if window == s.window {
            (TrayState { window: s.window, width, height }, TrayAction::Nothing)
        } else {
            (s, TrayAction::Nothing)
        },
        TrayEvent::ButtonPress { window, button, root_x, root_y } => if window == s.window && button
            == 1 {
            (s, TrayAction::Capture)
        } else if window == s.window && button == 3 {
            (s, TrayAction::QuitMenu { root_x, root_y })
        } else {
            (s, TrayAction::Nothing)
        },
        TrayEvent::Reparent { window, parent } => if window == s.window && parent == ids.root {
            (s, TrayAction::Redock)
        } else {
            (s, TrayAction::Nothing)
        },
        TrayEvent::Destroy { window } => if window == s.window {
            (s, TrayAction::Recreate)
        } else {
            (s, TrayAction::Nothing)
        },
        TrayEvent::ClientMessage { window, kind, selection } => if window == ids.root && kind
            == ids.manager && selection == ids.tray_selection {
            (s, TrayAction::Redock)
        } else {
            (s, TrayAction::Nothing)
        },
        TrayEvent::Other => (s, TrayAction::Nothing),
    }
}

impl TrayState {
    /// A freshly created icon window, at the standard size.
    pub fn recreated(window: u32) -> (s: TrayState)
        ensures
            s == (TrayState { window, width: ICON, height: ICON }),
    {
        TrayState { window, width: ICON, height: ICON }
    }

    pub fn step(&mut self, ev: TrayEvent, ids: TrayIds) -> (a: TrayAction)
        ensures
            (*final(self), a) == spec_tray_step(*old(self), ev, ids),
    {
        match ev {
            TrayEvent::Expose { window } => {
                if window == self.window {
                    TrayAction::Paint { width: self.width, height: self.height }
                } else {
                    TrayAction::Nothing
                }
            },
            TrayEvent::Configure { window, width, height } => {
                if window == self.window {
                    self.width = width;
                    self.height = height;
                }
                TrayAction::Nothing
            },
            TrayEvent::ButtonPress { window, button, root_x, root_y } => {
                if window == self.window && button == 1 {
                    TrayAction::Capture
                } else if window == self.window && button == 3 {
                    TrayAction::QuitMenu { root_x, root_y }
                } else {
                    TrayAction::Nothing
                }
            },
            TrayEvent::Reparent { window, parent } => {
                if window == self.window && parent == ids.root {
                    TrayAction::Redock
                } else {
                    TrayAction::Nothing
                }
            },
            TrayEvent::Destroy { window } => {
                if window == self.window {
                    TrayAction::Recreate
                } else {
                    TrayAction::Nothing
                }
            },
            TrayEvent::ClientMessage { window, kind, selection } => {
                if window == ids.root && kind == ids.manager && selection == ids.tray_selection {
                    TrayAction::Redock
                } else {
                    TrayAction::Nothing
                }
            },
            TrayEvent::Other => TrayAction::Nothing,
        }
    }
}

/// Popup origin near the pointer at (`root_x`, `root_y`) on a root window
/// `screen_w` x `screen_h`: moved left (2 pixels from the edge) if it
/// would leave the right edge, flipped above the pointer if it would leave
/// the bottom, and never above or left of the origin.
pub open spec fn spec_place_popup(root_x: int, root_y: int, screen_w: int, screen_h: int) -> (int, int) {
    let x = if root_x + POPUP_W > screen_w {
        screen_w - POPUP_W - 2
    } else {
        root_x
    };
    let y = if root_y + POPUP_H > screen_h {
        if root_y - POPUP_H > 0 {
            root_y - POPUP_H
        } else {
            0
        }
    } else {
        root_y
    };
    (if x < 0 { 0 } else { x }, if y < 0 { 0 } else { y })
}

pub fn place_popup(root_x: i16, root_y: i16, screen_w: i16, screen_h: i16) -> (r: (i16, i16))
    requires
        root_x + POPUP_W <= i16::MAX,
        root_y + POPUP_H <= i16::MAX,
        root_x + POPUP_W > screen_w ==> screen_w - POPUP_W - 2 >= i16::MIN,
        root_y + POPUP_H > screen_h ==> root_y - POPUP_H >= i16::MIN,
    ensures
        (r.0 as int, r.1 as int) == spec_place_popup(
            root_x as int,
            root_y as int,
            screen_w as int,
            screen_h as int,
        ),
        r.0 >= 0,
        r.1 >= 0,
{
    let mut x: i16 = root_x;
    let mut y: i16 = root_y;
    if x + POPUP_W > screen_w {
        x = screen_w - POPUP_W - 2;
    }
    if y + POPUP_H > screen_h {
        let up = root_y - POPUP_H;
        y = if up > 0 {
            up
        } else {
            0
        };
    }
    if x < 0 {
        x = 0;
    }
    if y < 0 {
        y = 0;
    }
    (x, y)
}

/// A click at (`px`, `py`) falls on the popup placed at (`x`, `y`).
pub fn popup_hit(x: i16, y: i16, px: i16, py: i16) -> (r: bool)
    ensures
        r == (x <= px < x + POPUP_W && y <= py < y + POPUP_H),
{
    let px: i32 = px as i32;
    let py: i32 = py as i32;
    px >= x as i32 && px < x as i32 + POPUP_W as i32 && py >= y as i32 && py < y as i32
        + POPUP_H as i32
}

/// The dock request's data words: current time, SYSTEM_TRAY_REQUEST_DOCK,
/// the icon window.
pub fn dock_payload(window: u32) -> (r: [u32; 5])
    ensures
        r@ == seq![0u32, 0u32, window, 0u32, 0u32],
{
    let r = [0u32, 0u32, window, 0u32, 0u32];
    assert(r@ =~= seq![0u32, 0u32, window, 0u32, 0u32]);
    r
}

/// Law: on a root window at least as wide as the popup plus its margin,
/// the popup ends left of the right edge; with the pointer on screen it
/// ends above the bottom edge too.
pub proof fn lemma_popup_on_screen(root_x: int, root_y: int, screen_w: int, screen_h: int)
    requires
        screen_w >= POPUP_W + 2,
        screen_h >= POPUP_H,
        0 <= root_y <= screen_h,
    ensures
        ({
            let (x, y) = spec_place_popup(root_x, root_y, screen_w, screen_h);
            &&& 0 <= x
            &&& x + POPUP_W <= screen_w
            &&& 0 <= y
            &&& y + POPUP_H <= screen_h
        }),
{
}

} // verus!
