//! The renderer controller's startup decisions: which window the renderer
//! binds to, and the startup-fatal failure kinds that abort it before the
//! loop ever runs. Every startup failure is reported once to a diagnostic
//! channel and never destabilizes the host.

use vstd::prelude::*;

verus! {

/// The startup-fatal failure kinds. Any of them aborts the renderer for
/// this window; the host keeps running without it.
#[derive(Clone, Copy, PartialEq, Eq, Structural, Debug)]
pub enum StartupError {
    NoWindowAvailable,
    SurfaceCreationFailed,
    NoCompatibleAdapter,
    DeviceCreationFailed,
}

/// Which window the renderer binds to: the well-known primary window when
/// it exists, else any currently open window.
#[derive(Clone, Copy, PartialEq, Eq, Structural, Debug)]
pub enum WindowChoice {
    Primary,
    AnyOpen,
}

/// Decides the target window from what the windowing collaborator
/// reports: whether the primary window exists, and how many windows are
/// open. Fails with `NoWindowAvailable` exactly when there is neither a
/// primary window nor any open one.
pub fn locate_window(has_primary: bool, open_windows: usize) -> (r: Result<
    WindowChoice,
    StartupError,
>)
    ensures
        has_primary ==> r == Ok::<WindowChoice, StartupError>(WindowChoice::Primary),
        !has_primary && open_windows > 0 ==> r == Ok::<WindowChoice, StartupError>(
            WindowChoice::AnyOpen,
        ),
        !has_primary && open_windows == 0 ==> r == Err::<WindowChoice, StartupError>(
            StartupError::NoWindowAvailable,
        ),
        r is Err <==> !has_primary && open_windows == 0,
{
    if has_primary {
        Ok(WindowChoice::Primary)
    } else if open_windows > 0 {
        Ok(WindowChoice::AnyOpen)
    } else {
        Err(StartupError::NoWindowAvailable)
    }
}

} // verus!
