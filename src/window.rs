//! The window settings the host reads from its configuration, and their errors.
use vstd::prelude::*;

verus! {

#[derive(Clone, Copy, Debug, PartialEq, Eq, Structural)]
pub enum WindowError {
    InitError,
    WindowCreationError,
    WindowNameNotRecoverable,
    WindowCursorNotRecoverable,
    WindowWidthNotRecoverable,
    WindowHeightNotRecoverable,
    WindowVSyncNotRecoverable,
    WindowAVSyncNotRecoverable,
}

/// The window fields as found in the configuration; `None` where a field is
/// absent or of the wrong kind.
pub struct WindowConfig {
    pub name: Option<String>,
    pub cursor: Option<bool>,
    pub width: Option<i64>,
    pub height: Option<i64>,
    pub vsync: Option<bool>,
    pub adaptive_vsync: Option<bool>,
}

/// Every window field, present.
pub struct WindowSettings {
    pub name: String,
    pub cursor: bool,
    pub width: i64,
    pub height: i64,
    pub vsync: bool,
    pub adaptive_vsync: bool,
}

/// The error for the first absent field, in the order name, cursor, width,
/// height, VSync, adaptive VSync.
pub open spec fn first_missing_field(c: WindowConfig) -> Option<WindowError> {
    if c.name is None {
        Some(WindowError::WindowNameNotRecoverable)
    } else if c.cursor is None {
        Some(WindowError::WindowCursorNotRecoverable)
    } else if c.width is None {
        Some(WindowError::WindowWidthNotRecoverable)
    } else if c.height is None {
        Some(WindowError::WindowHeightNotRecoverable)
    } else if c.vsync is None {
        Some(WindowError::WindowVSyncNotRecoverable)
    } else if c.adaptive_vsync is None {
        Some(WindowError::WindowAVSyncNotRecoverable)
    } else {
        None
    }
}

/// `s` holds the values of the fields of `c`.
pub open spec fn settings_of(c: WindowConfig, s: WindowSettings) -> bool {
    &&& c.name matches Some(n) && s.name@ == n@
    &&& c.cursor == Some(s.cursor)
    &&& c.width == Some(s.width)
    &&& c.height == Some(s.height)
    &&& c.vsync == Some(s.vsync)
    &&& c.adaptive_vsync == Some(s.adaptive_vsync)
}

/// Takes every window field out of the configuration, or reports the first
/// one that is absent.
pub fn window_settings(config: WindowConfig) -> (r: Result<WindowSettings, WindowError>)
    ensures
        first_missing_field(config) matches Some(e) ==> (r matches Err(re) && re == e),
        first_missing_field(config) is None ==> (r matches Ok(s) && settings_of(config, s)),
{
    let name = match config.name {
        Some(n) => n,
        None => return Err(WindowError::WindowNameNotRecoverable),
    };
    let cursor = match config.cursor {
        Some(c) => c,
        None => return Err(WindowError::WindowCursorNotRecoverable),
    };
    let width = match config.width {
        Some(w) => w,
        None => return Err(WindowError::WindowWidthNotRecoverable),
    };
    let height = match config.height {
        Some(h) => h,
        None => return Err(WindowError::WindowHeightNotRecoverable),
    };
    let vsync = match config.vsync {
        Some(v) => v,
        None => return Err(WindowError::WindowVSyncNotRecoverable),
    };
    let adaptive_vsync = match config.adaptive_vsync {
        Some(a) => a,
        None => return Err(WindowError::WindowAVSyncNotRecoverable),
    };
    Ok(WindowSettings { name, cursor, width, height, vsync, adaptive_vsync })
}

} // verus!
