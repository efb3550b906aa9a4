//! Sessions, tabs and windows: their kinds and states, sharing
//! permissions and window geometry.
use vstd::prelude::*;

pub mod keyed;
pub mod session_sharing;
pub mod tab_manager;
pub mod window_manager;

verus! {

/// Session types.
#[derive(Debug, Clone, Copy, PartialEq, Eq, Structural)]
pub enum SessionType {
    /// An ordinary session
    Normal,
    /// A detached session
    Detached,
    /// A shared session
    Shared,
    /// A temporary session
    Temporary,
}

/// Session states.
#[derive(Debug, Clone, Copy, PartialEq, Eq, Structural)]
pub enum SessionState {
    /// Running
    Active,
    /// Detached
    Detached,
    /// Suspended
    Suspended,
    /// Ended
    Terminated,
    /// Being recovered
    Recovering,
}

/// Tab types.
#[derive(Debug, Clone, Copy, PartialEq, Eq, Structural)]
pub enum TabType {
    /// An ordinary tab
    Normal,
    /// A system tab
    System,
    /// A shared tab
    Shared,
}

/// Window types.
#[derive(Debug, Clone, Copy, PartialEq, Eq, Structural)]
pub enum WindowType {
    /// An ordinary window
    Normal,
    /// A split window
    Split,
    /// A floating window
    Floating,
    /// A fullscreen window
    Fullscreen,
}

/// Sharing permissions.
#[derive(Debug, Clone, Copy, PartialEq, Eq, Structural)]
pub enum SharingPermission {
    /// Read only
    ReadOnly,
    /// Read and write
    ReadWrite,
    /// Administration
    Admin,
}

/// Window geometry.
#[derive(Debug, Clone, Copy, PartialEq, Eq, Structural)]
pub struct WindowGeometry {
    /// Left edge
    pub x: i32,
    /// Top edge
    pub y: i32,
    /// Width
    pub width: u32,
    /// Height
    pub height: u32,
}

impl Default for WindowGeometry {
    /// An 800 by 600 window at the origin.
    fn default() -> (g: Self)
        ensures
            g == (WindowGeometry { x: 0, y: 0, width: 800, height: 600 }),
    {
        WindowGeometry { x: 0, y: 0, width: 800, height: 600 }
    }
}

} // verus!
