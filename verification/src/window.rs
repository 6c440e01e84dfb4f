//! The Wayland window's state and what each compositor event asks of it.

use vstd::prelude::*;
use vstd::string::StringSliceAdditionalSpecFns;

verus! {

/// The highest `wl_compositor` version the window binds.
pub const COMPOSITOR_VERSION: u32 = 4;

/// The `xdg_wm_base` version the window binds.
pub const WM_BASE_VERSION: u32 = 1;

/// A compositor event, with the values the window reacts to.
#[derive(Debug, PartialEq, Eq)]
pub enum WindowEvent {
    /// `wl_registry.global`: a global `name` offering `interface` (its bytes) at `version`.
    Global { name: u32, interface: Vec<u8>, version: u32 },
    /// `xdg_wm_base.ping`.
    Ping { serial: u32 },
    /// `xdg_surface.configure`.
    Configure { serial: u32 },
    /// `xdg_toplevel.close`.
    Close,
    /// Anything else.
    Other,
}

/// What the window must do in answer to an event.
#[derive(Debug, Clone, Copy, PartialEq, Eq, Structural)]
pub enum WindowAction {
    BindCompositor { name: u32, version: u32 },
    BindWmBase { name: u32, version: u32 },
    Pong { serial: u32 },
    AckConfigure { serial: u32 },
    Nothing,
}

/// Whether the window got its first configure and whether it was asked to close.
#[derive(Debug, Clone, Copy, PartialEq, Eq, Structural)]
pub struct WindowState {
    pub configured: bool,
    pub should_close: bool,
}

fn bytes_equal(a: &[u8], b: &[u8]) -> (r: bool)
    ensures
        r == (a@ == b@),
{
    if a.len() != b.len() {
        return false;
    }
    let mut i: usize = 0;
    while i < a.len()
        invariant
            a@.len() == b@.len(),
            i <= a@.len(),
            forall|k: int| 0 <= k < i ==> a@[k] == b@[k],
        decreases a@.len() - i,
    {
        if a[i] != b[i] {
            return false;
        }
        i = i + 1;
    }
    assert(a@ =~= b@);
    true
}

/// The answer to an event, and the state after it.
pub open spec fn spec_handle(s: WindowState, ev: WindowEvent) -> (WindowState, WindowAction) {
    match ev {
        WindowEvent::Global { name, interface, version } => if interface@
            == "wl_compositor".spec_bytes() {
            (
                s,
                WindowAction::BindCompositor {
                    name,
                    version: if version < COMPOSITOR_VERSION {
                        version
                    } else {
                        COMPOSITOR_VERSION
                    },
                },
            )
        } else if interface@ == "xdg_wm_base".spec_bytes() {
            (s, WindowAction::BindWmBase { name, version: WM_BASE_VERSION })
        } else {
            (s, WindowAction::Nothing)
        },
        WindowEvent::Ping { serial } => (s, WindowAction::Pong { serial }),
        WindowEvent::Configure { serial } => (
            WindowState { configured: true, ..s },
            WindowAction::AckConfigure { serial },
        ),
        WindowEvent::Close => (WindowState { should_close: true, ..s }, WindowAction::Nothing),
        WindowEvent::Other => (s, WindowAction::Nothing),
    }
}

impl WindowState {
    /// A window not configured yet and not asked to close.
    pub fn new() -> (r: WindowState)
        ensures
            !r.configured,
            !r.should_close,
    {
        WindowState { configured: false, should_close: false }
    }

    /// Reacts to a compositor event: binds the globals the window needs,
    /// answers pings, acknowledges configures and notes a close request.
    pub fn handle(&mut self, ev: &WindowEvent) -> (a: WindowAction)
        ensures
            (*final(self), a) == spec_handle(*old(self), *ev),
            !(*ev is Close) ==> final(self).should_close == old(self).should_close,
            !(*ev is Configure) ==> final(self).configured == old(self).configured,
            *ev is Close ==> final(self).should_close && a == WindowAction::Nothing,
            *ev is Other ==> *final(self) == *old(self) && a == WindowAction::Nothing,
    {
        match ev {
            WindowEvent::Global { name, interface, version } => {
                if bytes_equal(interface.as_slice(), "wl_compositor".as_bytes()) {
                    let v = if *version < COMPOSITOR_VERSION {
                        *version
                    } else {
                        COMPOSITOR_VERSION
                    };
                    WindowAction::BindCompositor { name: *name, version: v }
                } else if bytes_equal(interface.as_slice(), "xdg_wm_base".as_bytes()) {
                    WindowAction::BindWmBase { name: *name, version: WM_BASE_VERSION }
                } else {
                    WindowAction::Nothing
                }
            },
            WindowEvent::Ping { serial } => WindowAction::Pong { serial: *serial },
            WindowEvent::Configure { serial } => {
                self.configured = true;
                WindowAction::AckConfigure { serial: *serial }
            },
            WindowEvent::Close => {
                self.should_close = true;
                WindowAction::Nothing
            },
            WindowEvent::Other => WindowAction::Nothing,
        }
    }

    /// Whether to dispatch pending events at all: not once the window was asked to close.
    pub fn should_dispatch(&self) -> (r: bool)
        ensures
            r == !self.should_close,
    {
        !self.should_close
    }

    /// Whether the window stays open after a dispatch that succeeded
    /// (`dispatched`) or failed.
    pub fn keeps_running(&self, dispatched: bool) -> (r: bool)
        ensures
            r == (dispatched && !self.should_close),
    {
        dispatched && !self.should_close
    }
}

/// Only a close request marks the window as asked to close, and only a
/// configure marks it configured: every other event leaves those flags as
/// they were, and an event the window does not react to changes nothing.
pub proof fn lemma_only_close_closes(s: WindowState, ev: WindowEvent)
    ensures
        !(ev is Close) ==> spec_handle(s, ev).0.should_close == s.should_close,
        ev is Close ==> spec_handle(s, ev).0.should_close,
        !(ev is Configure) ==> spec_handle(s, ev).0.configured == s.configured,
        ev is Configure ==> spec_handle(s, ev).0.configured,
        ev is Other ==> spec_handle(s, ev) == (s, WindowAction::Nothing),
        ev is Close ==> spec_handle(s, ev).1 == WindowAction::Nothing,
{
}

/// A global is bound under the name it was advertised with; the compositor
/// at the smaller of the offered version and the window's own, the window
/// manager base at version 1. Pings and configures bind nothing.
pub proof fn lemma_binds_follow_the_advertisement(s: WindowState, ev: WindowEvent)
    ensures
        spec_handle(s, ev).1 matches WindowAction::BindCompositor { name: n, version: v } ==> (
        ev matches WindowEvent::Global { name, version, .. } && n == name && v <= version && v
            <= COMPOSITOR_VERSION && (v == version || v == COMPOSITOR_VERSION)),
        spec_handle(s, ev).1 matches WindowAction::BindWmBase { name: n, version: v } ==> (
        ev matches WindowEvent::Global { name, .. } && n == name && v == 1),
        spec_handle(s, ev).1 matches WindowAction::Pong { serial } ==> ev == (WindowEvent::Ping {
            serial,
        }),
        spec_handle(s, ev).1 matches WindowAction::AckConfigure { serial } ==> ev
            == (WindowEvent::Configure { serial }),
{
}

/// Once asked to close, a window stays asked to close whatever event comes next.
pub proof fn lemma_close_is_final(s: WindowState, ev: WindowEvent)
    requires
        s.should_close,
    ensures
        spec_handle(s, ev).0.should_close,
{
}

/// Once configured, a window stays configured whatever event comes next.
pub proof fn lemma_configured_is_final(s: WindowState, ev: WindowEvent)
    requires
        s.configured,
    ensures
        spec_handle(s, ev).0.configured,
{
}

/// Every configure is acknowledged with its own serial, and every ping is
/// answered with its own serial.
pub proof fn lemma_serials_echoed(s: WindowState, serial: u32)
    ensures
        spec_handle(s, WindowEvent::Configure { serial }).1 == (WindowAction::AckConfigure {
            serial,
        }),
        spec_handle(s, WindowEvent::Ping { serial }).1 == (WindowAction::Pong { serial }),
{
}

/// The compositor is never bound at a version above the one the window speaks.
pub proof fn lemma_compositor_version_capped(s: WindowState, ev: WindowEvent)
    ensures
        spec_handle(s, ev).1 matches WindowAction::BindCompositor { version, .. } ==> version
            <= COMPOSITOR_VERSION,
{
}

} // verus!
