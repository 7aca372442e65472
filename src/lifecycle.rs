//! The decisions of the module lifecycle as a state machine.
//!
//! The host performs the native work (mapping a library, resolving and
//! calling its entry points, touching files) and reports each outcome back as
//! a [`ModuleEvent`]; the machine answers with the next [`ModuleAction`].
use vstd::prelude::*;
use crate::module::Module;

verus! {

/// One of the three entry points every module exports.
#[derive(Clone, Copy, Debug, PartialEq, Eq, Structural)]
pub enum ModuleSymbol {
    OnLoad,
    OnUnload,
    Update,
}

impl ModuleSymbol {
    /// The exported name of the entry point.
    pub open spec fn spec_name(self) -> Seq<char> {
        match self {
            ModuleSymbol::OnLoad => "on_load"@,
            ModuleSymbol::OnUnload => "on_unload"@,
            ModuleSymbol::Update => "update"@,
        }
    }

    pub fn name(&self) -> (r: &'static str)
        ensures
            r@ == self.spec_name(),
    {
        match self {
            ModuleSymbol::OnLoad => "on_load",
            ModuleSymbol::OnUnload => "on_unload",
            ModuleSymbol::Update => "update",
        }
    }
}

/// The symbols are resolved in this order: `on_load`, `on_unload`, `update`.
pub open spec fn symbol_after(s: ModuleSymbol) -> Option<ModuleSymbol> {
    match s {
        ModuleSymbol::OnLoad => Some(ModuleSymbol::OnUnload),
        ModuleSymbol::OnUnload => Some(ModuleSymbol::Update),
        ModuleSymbol::Update => None,
    }
}

/// Where a module stands in its lifecycle.
#[derive(Clone, Copy, Debug, PartialEq, Eq, Structural)]
pub enum LifecycleState {
    Unloaded,
    Loaded,
    Running,
    Unloading,
}

/// A library mapping is held exactly in these states.
pub open spec fn library_open(s: LifecycleState) -> bool {
    !(s is Unloaded)
}

/// Every failure of the lifecycle, each of its own kind.
#[derive(Clone, Copy, Debug, PartialEq, Eq, Structural)]
pub enum ModuleError {
    /// The library file is missing, invalid or cannot be mapped.
    LoadError,
    /// A required export is absent.
    SymbolResolutionError { symbol: ModuleSymbol },
    /// `on_load` returned a nonzero status.
    OnLoadError { status: u32 },
    /// `on_unload` returned a nonzero status.
    OnUnloadError { status: u32 },
    /// `update` returned a nonzero status.
    UpdateError { status: u32 },
    /// The staged replacement could not be put in place.
    ReloadError,
}

/// What the host reports back after performing an action.
#[derive(Clone, Copy, Debug, PartialEq, Eq, Structural)]
pub enum ModuleEvent {
    LibraryOpened,
    LibraryOpenFailed,
    SymbolFound,
    SymbolMissing,
    StatusReturned { status: u32 },
    LibraryClosed,
    ArtifactFound,
    ArtifactAbsent,
    ArtifactInstalled,
    ArtifactInstallFailed,
}

/// What the machine asks the host to do next.
#[derive(Clone, Copy, Debug, PartialEq, Eq)]
pub enum ModuleAction {
    /// Map the module's library file.
    OpenLibrary,
    /// Look up one export in the mapped library.
    ResolveSymbol { symbol: ModuleSymbol },
    CallOnLoad,
    CallOnUnload,
    /// Call `update` with the time elapsed since the previous call.
    CallUpdate,
    /// Unmap the library; no entry point of it may be called afterwards.
    CloseLibrary,
    /// Report whether the staged replacement file exists.
    CheckArtifact,
    /// Move the staged replacement over the library file.
    InstallArtifact,
    /// The operation is over, with this outcome.
    Finished { result: Result<(), ModuleError> },
}

/// The request the machine is waiting on, if any.
#[derive(Clone, Copy, Debug)]
pub enum Step {
    Idle,
    Opening { reload: bool },
    Resolving { symbol: ModuleSymbol, reload: bool },
    Initializing,
    Updating,
    Unloading { reload: bool },
    /// Waiting for the unmap; `outcome` is reported once it is done, and a
    /// reload goes on when `reload` holds and the outcome is a success.
    Closing { outcome: Result<(), ModuleError>, reload: bool },
    CheckingArtifact,
    Installing,
}

/// The mutable part of a module: its lifecycle state and the pending step.
#[derive(Clone, Copy, Debug)]
pub struct Control {
    pub state: LifecycleState,
    pub step: Step,
}

/// The action that a step is waiting on.
pub open spec fn pending_action(step: Step) -> ModuleAction {
    match step {
        Step::Idle => ModuleAction::Finished { result: Ok(()) },
        Step::Opening { .. } => ModuleAction::OpenLibrary,
        Step::Resolving { symbol, .. } => ModuleAction::ResolveSymbol { symbol },
        Step::Initializing => ModuleAction::CallOnLoad,
        Step::Updating => ModuleAction::CallUpdate,
        Step::Unloading { .. } => ModuleAction::CallOnUnload,
        Step::Closing { .. } => ModuleAction::CloseLibrary,
        Step::CheckingArtifact => ModuleAction::CheckArtifact,
        Step::Installing => ModuleAction::InstallArtifact,
    }
}

/// The states a step can be taken in.
pub open spec fn control_wf(c: Control) -> bool {
    match c.step {
        Step::Idle => !(c.state is Unloading),
        Step::Opening { .. } => c.state is Unloaded,
        Step::Resolving { .. } => c.state is Loaded,
        Step::Initializing => c.state is Loaded,
        Step::Updating => c.state is Running,
        Step::Unloading { .. } => c.state is Unloading,
        Step::Closing { .. } => c.state is Loaded || c.state is Unloading,
        Step::CheckingArtifact => c.state is Unloaded,
        Step::Installing => c.state is Unloaded,
    }
}

pub open spec fn idle(state: LifecycleState) -> Control {
    Control { state, step: Step::Idle }
}

pub open spec fn finish(state: LifecycleState, result: Result<(), ModuleError>) -> (Control, ModuleAction) {
    (idle(state), ModuleAction::Finished { result })
}

/// Unmap first, then report `error`.
pub open spec fn close_with(state: LifecycleState, error: ModuleError) -> (Control, ModuleAction) {
    (
        Control { state, step: Step::Closing { outcome: Err(error), reload: false } },
        ModuleAction::CloseLibrary,
    )
}

/// What the status returned by `on_unload` makes of a teardown.
pub open spec fn unload_outcome(status: u32) -> Result<(), ModuleError> {
    if status == 0 {
        Ok(())
    } else {
        Err(ModuleError::OnUnloadError { status })
    }
}

/// What the status returned by `update` makes of a frame.
pub open spec fn update_outcome(status: u32) -> Result<(), ModuleError> {
    if status == 0 {
        Ok(())
    } else {
        Err(ModuleError::UpdateError { status })
    }
}

/// One transition: the next control and the action for the host. An event
/// that does not answer the pending request changes nothing, and the pending
/// request is asked again.
pub open spec fn next(c: Control, e: ModuleEvent) -> (Control, ModuleAction) {
    match (c.step, e) {
        (Step::Opening { reload }, ModuleEvent::LibraryOpened) => (
            Control { state: LifecycleState::Loaded, step: Step::Resolving { symbol: ModuleSymbol::OnLoad, reload } },
            ModuleAction::ResolveSymbol { symbol: ModuleSymbol::OnLoad },
        ),
        (Step::Opening { .. }, ModuleEvent::LibraryOpenFailed) => finish(
            LifecycleState::Unloaded,
            Err(ModuleError::LoadError),
        ),
        (Step::Resolving { symbol, reload }, ModuleEvent::SymbolFound) => match symbol_after(symbol) {
            Some(s) => (
                Control { state: c.state, step: Step::Resolving { symbol: s, reload } },
                ModuleAction::ResolveSymbol { symbol: s },
            ),
            None => if reload {
                (Control { state: c.state, step: Step::Initializing }, ModuleAction::CallOnLoad)
            } else {
                finish(c.state, Ok(()))
            },
        },
        (Step::Resolving { symbol, .. }, ModuleEvent::SymbolMissing) => close_with(
            c.state,
            ModuleError::SymbolResolutionError { symbol },
        ),
        (Step::Initializing, ModuleEvent::StatusReturned { status }) => if status == 0 {
            finish(LifecycleState::Running, Ok(()))
        } else {
            close_with(c.state, ModuleError::OnLoadError { status })
        },
        (Step::Updating, ModuleEvent::StatusReturned { status }) => finish(
            LifecycleState::Running,
            update_outcome(status),
        ),
        (Step::Unloading { reload }, ModuleEvent::StatusReturned { status }) => (
            Control { state: c.state, step: Step::Closing { outcome: unload_outcome(status), reload } },
            ModuleAction::CloseLibrary,
        ),
        (Step::Closing { outcome, reload }, ModuleEvent::LibraryClosed) => if reload && outcome is Ok {
            (
                Control { state: LifecycleState::Unloaded, step: Step::CheckingArtifact },
                ModuleAction::CheckArtifact,
            )
        } else {
            finish(LifecycleState::Unloaded, outcome)
        },
        (Step::CheckingArtifact, ModuleEvent::ArtifactFound) => (
            Control { state: LifecycleState::Unloaded, step: Step::Installing },
            ModuleAction::InstallArtifact,
        ),
        (Step::CheckingArtifact, ModuleEvent::ArtifactAbsent) => (
            Control { state: LifecycleState::Unloaded, step: Step::Opening { reload: true } },
            ModuleAction::OpenLibrary,
        ),
        (Step::Installing, ModuleEvent::ArtifactInstalled) => (
            Control { state: LifecycleState::Unloaded, step: Step::Opening { reload: true } },
            ModuleAction::OpenLibrary,
        ),
        (Step::Installing, ModuleEvent::ArtifactInstallFailed) => finish(
            LifecycleState::Unloaded,
            Err(ModuleError::ReloadError),
        ),
        _ => (c, pending_action(c.step)),
    }
}

/// Every transition keeps the control in a state its step can be taken in.
pub proof fn lemma_next_preserves_wf(c: Control, e: ModuleEvent)
    requires
        control_wf(c),
    ensures
        control_wf(next(c, e).0),
{
}

impl Control {
    /// Takes one transition of the machine.
    pub fn advance(self, e: ModuleEvent) -> (r: (Control, ModuleAction))
        ensures
            r == next(self, e),
    {
        let state = self.state;
        match (self.step, e) {
            (Step::Opening { reload }, ModuleEvent::LibraryOpened) => (
                Control {
                    state: LifecycleState::Loaded,
                    step: Step::Resolving { symbol: ModuleSymbol::OnLoad, reload },
                },
                ModuleAction::ResolveSymbol { symbol: ModuleSymbol::OnLoad },
            ),
            (Step::Opening { .. }, ModuleEvent::LibraryOpenFailed) => Self::finish(
                LifecycleState::Unloaded,
                Err(ModuleError::LoadError),
            ),
            (Step::Resolving { symbol, reload }, ModuleEvent::SymbolFound) => {
                let after = match symbol {
                    ModuleSymbol::OnLoad => Some(ModuleSymbol::OnUnload),
                    ModuleSymbol::OnUnload => Some(ModuleSymbol::Update),
                    ModuleSymbol::Update => None,
                };
                match after {
                    Some(s) => (
                        Control { state, step: Step::Resolving { symbol: s, reload } },
                        ModuleAction::ResolveSymbol { symbol: s },
                    ),
                    None => if reload {
                        (Control { state, step: Step::Initializing }, ModuleAction::CallOnLoad)
                    } else {
                        Self::finish(state, Ok(()))
                    },
                }
            },
            (Step::Resolving { symbol, .. }, ModuleEvent::SymbolMissing) => Self::close_with(
                state,
                ModuleError::SymbolResolutionError { symbol },
            ),
            (Step::Initializing, ModuleEvent::StatusReturned { status }) => {
                match Module::checked_on_load(status) {
                    Ok(_) => Self::finish(LifecycleState::Running, Ok(())),
                    Err(error) => Self::close_with(state, error),
                }
            },
            (Step::Updating, ModuleEvent::StatusReturned { status }) => {
                let result = match Module::checked_update(status) {
                    Ok(_) => Ok(()),
                    Err(error) => Err(error),
                };
                Self::finish(LifecycleState::Running, result)
            },
            (Step::Unloading { reload }, ModuleEvent::StatusReturned { status }) => {
                let outcome = match Module::checked_on_unload(status) {
                    Ok(_) => Ok(()),
                    Err(error) => Err(error),
                };
                (Control { state, step: Step::Closing { outcome, reload } }, ModuleAction::CloseLibrary)
            },
            (Step::Closing { outcome, reload }, ModuleEvent::LibraryClosed) => {
                if reload && outcome.is_ok() {
                    (
                        Control { state: LifecycleState::Unloaded, step: Step::CheckingArtifact },
                        ModuleAction::CheckArtifact,
                    )
                } else {
                    Self::finish(LifecycleState::Unloaded, outcome)
                }
            },
            (Step::CheckingArtifact, ModuleEvent::ArtifactFound) => (
                Control { state: LifecycleState::Unloaded, step: Step::Installing },
                ModuleAction::InstallArtifact,
            ),
            (Step::CheckingArtifact, ModuleEvent::ArtifactAbsent) => (
                Control { state: LifecycleState::Unloaded, step: Step::Opening { reload: true } },
                ModuleAction::OpenLibrary,
            ),
            (Step::Installing, ModuleEvent::ArtifactInstalled) => (
                Control { state: LifecycleState::Unloaded, step: Step::Opening { reload: true } },
                ModuleAction::OpenLibrary,
            ),
            (Step::Installing, ModuleEvent::ArtifactInstallFailed) => Self::finish(
                LifecycleState::Unloaded,
                Err(ModuleError::ReloadError),
            ),
            _ => (self, self.pending_action()),
        }
    }

    /// The action this control is waiting on.
    pub fn pending_action(&self) -> (r: ModuleAction)
        ensures
            r == pending_action(self.step),
    {
        match self.step {
            Step::Idle => ModuleAction::Finished { result: Ok(()) },
            Step::Opening { .. } => ModuleAction::OpenLibrary,
            Step::Resolving { symbol, .. } => ModuleAction::ResolveSymbol { symbol },
            Step::Initializing => ModuleAction::CallOnLoad,
            Step::Updating => ModuleAction::CallUpdate,
            Step::Unloading { .. } => ModuleAction::CallOnUnload,
            Step::Closing { .. } => ModuleAction::CloseLibrary,
            Step::CheckingArtifact => ModuleAction::CheckArtifact,
            Step::Installing => ModuleAction::InstallArtifact,
        }
    }

    fn finish(state: LifecycleState, result: Result<(), ModuleError>) -> (r: (Control, ModuleAction))
        ensures
            r == finish(state, result),
    {
        (Control { state, step: Step::Idle }, ModuleAction::Finished { result })
    }

    fn close_with(state: LifecycleState, error: ModuleError) -> (r: (Control, ModuleAction))
        ensures
            r == close_with(state, error),
    {
        (
            Control { state, step: Step::Closing { outcome: Err(error), reload: false } },
            ModuleAction::CloseLibrary,
        )
    }
}

} // verus!
