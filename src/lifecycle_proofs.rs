//! What the lifecycle machine guarantees over whole operations.
//!
//! Each operation starts from the control that its command in
//! [`crate::module`] sets, and is driven by the host's answers; [`run`] gives
//! the control it ends in and the actions asked of the host on the way.
use vstd::prelude::*;
use crate::lifecycle::{
    idle, library_open, next, unload_outcome, update_outcome, Control, LifecycleState, ModuleAction,
    ModuleError, ModuleEvent, ModuleSymbol, Step,
};

verus! {

/// Feeds `events` to the machine one by one, starting from `c`.
pub open spec fn run(c: Control, events: Seq<ModuleEvent>) -> (Control, Seq<ModuleAction>)
    decreases events.len(),
{
    if events.len() == 0 {
        (c, Seq::empty())
    } else {
        let (c1, a) = next(c, events[0]);
        let (cn, rest) = run(c1, events.drop_first());
        (cn, seq![a] + rest)
    }
}

/// The control right after `Module::load`.
pub open spec fn opening(reload: bool) -> Control {
    Control { state: LifecycleState::Unloaded, step: Step::Opening { reload } }
}

/// The control right after `Module::initialize`.
pub open spec fn initializing() -> Control {
    Control { state: LifecycleState::Loaded, step: Step::Initializing }
}

/// The control right after `Module::update`.
pub open spec fn updating() -> Control {
    Control { state: LifecycleState::Running, step: Step::Updating }
}

/// The control right after `Module::unload` (or `reload`, with `reload` set).
pub open spec fn unloading(reload: bool) -> Control {
    Control { state: LifecycleState::Unloading, step: Step::Unloading { reload } }
}

/// How many exports are resolved before `s`.
pub open spec fn symbol_index(s: ModuleSymbol) -> nat {
    match s {
        ModuleSymbol::OnLoad => 0,
        ModuleSymbol::OnUnload => 1,
        ModuleSymbol::Update => 2,
    }
}

/// The answers, to a load, of a library that maps but lacks the export `missing`.
pub open spec fn answers_lacking(missing: ModuleSymbol) -> Seq<ModuleEvent> {
    seq![ModuleEvent::LibraryOpened] + Seq::new(symbol_index(missing), |i: int| ModuleEvent::SymbolFound)
        + seq![ModuleEvent::SymbolMissing, ModuleEvent::LibraryClosed]
}

/// The answers, to a load, of a library that maps and exports all three entry points.
pub open spec fn answers_complete() -> Seq<ModuleEvent> {
    seq![
        ModuleEvent::LibraryOpened,
        ModuleEvent::SymbolFound,
        ModuleEvent::SymbolFound,
        ModuleEvent::SymbolFound,
    ]
}

/// The answers to the teardown half of a reload whose `on_unload` succeeds,
/// with or without a staged replacement that is installed.
pub open spec fn answers_reload_teardown(artifact: bool) -> Seq<ModuleEvent> {
    if artifact {
        seq![
            ModuleEvent::StatusReturned { status: 0 },
            ModuleEvent::LibraryClosed,
            ModuleEvent::ArtifactFound,
            ModuleEvent::ArtifactInstalled,
        ]
    } else {
        seq![
            ModuleEvent::StatusReturned { status: 0 },
            ModuleEvent::LibraryClosed,
            ModuleEvent::ArtifactAbsent,
        ]
    }
}

/// Running the concatenation of two answer lists is running one after the other.
pub proof fn lemma_run_append(c: Control, e1: Seq<ModuleEvent>, e2: Seq<ModuleEvent>)
    ensures
        run(c, e1 + e2).0 == run(run(c, e1).0, e2).0,
        run(c, e1 + e2).1 == run(c, e1).1 + run(run(c, e1).0, e2).1,
    decreases e1.len(),
{
    if e1.len() == 0 {
        assert(e1 + e2 =~= e2);
        assert(run(c, e1).1 + run(run(c, e1).0, e2).1 =~= run(c, e2).1);
    } else {
        let c1 = next(c, e1[0]).0;
        assert((e1 + e2).drop_first() =~= e1.drop_first() + e2);
        lemma_run_append(c1, e1.drop_first(), e2);
        assert(run(c, e1 + e2).1 =~= seq![next(c, e1[0]).1] + run(c1, e1.drop_first() + e2).1);
        assert(run(c, e1).1 + run(run(c, e1).0, e2).1 =~= seq![next(c, e1[0]).1] + (run(c1, e1.drop_first()).1
            + run(run(c1, e1.drop_first()).0, e2).1));
    }
}

/// A library that maps and exports the three entry points loads, and once
/// its `on_load` returns 0 the module is running.
pub proof fn lemma_complete_library_runs()
    ensures
        run(opening(false), answers_complete()).0 == idle(LifecycleState::Loaded),
        run(opening(false), answers_complete()).1 == seq![
            ModuleAction::ResolveSymbol { symbol: ModuleSymbol::OnLoad },
            ModuleAction::ResolveSymbol { symbol: ModuleSymbol::OnUnload },
            ModuleAction::ResolveSymbol { symbol: ModuleSymbol::Update },
            ModuleAction::Finished { result: Ok(()) },
        ],
        run(initializing(), seq![ModuleEvent::StatusReturned { status: 0 }]).0 == idle(LifecycleState::Running),
        run(initializing(), seq![ModuleEvent::StatusReturned { status: 0 }]).1
            == seq![ModuleAction::Finished { result: Ok(()) }],
{
    reveal_with_fuel(run, 5);
    assert(run(opening(false), answers_complete()).1 =~= seq![
        ModuleAction::ResolveSymbol { symbol: ModuleSymbol::OnLoad },
        ModuleAction::ResolveSymbol { symbol: ModuleSymbol::OnUnload },
        ModuleAction::ResolveSymbol { symbol: ModuleSymbol::Update },
        ModuleAction::Finished { result: Ok(()) },
    ]);
    assert(run(initializing(), seq![ModuleEvent::StatusReturned { status: 0 }]).1
        =~= seq![ModuleAction::Finished { result: Ok(()) }]);
}

/// A library that lacks any one of the three exports fails to load with an
/// error naming that export, and is unmapped before the error is reported.
pub proof fn lemma_missing_symbol_unmaps(missing: ModuleSymbol, reload: bool)
    ensures
        run(opening(reload), answers_lacking(missing)).0 == idle(LifecycleState::Unloaded),
        !library_open(run(opening(reload), answers_lacking(missing)).0.state),
        run(opening(reload), answers_lacking(missing)).1.last() == (ModuleAction::Finished {
            result: Err(ModuleError::SymbolResolutionError { symbol: missing }),
        }),
        run(opening(reload), answers_lacking(missing)).1.len() >= 2,
        run(opening(reload), answers_lacking(missing)).1[run(opening(reload), answers_lacking(missing)).1.len() - 2]
            == ModuleAction::CloseLibrary,
{
    reveal_with_fuel(run, 6);
    let found = ModuleEvent::SymbolFound;
    let tail = seq![ModuleEvent::SymbolMissing, ModuleEvent::LibraryClosed];
    match missing {
        ModuleSymbol::OnLoad => {
            assert(answers_lacking(missing) =~= seq![ModuleEvent::LibraryOpened] + tail);
        },
        ModuleSymbol::OnUnload => {
            assert(answers_lacking(missing) =~= seq![ModuleEvent::LibraryOpened, found] + tail);
        },
        ModuleSymbol::Update => {
            assert(answers_lacking(missing) =~= seq![ModuleEvent::LibraryOpened, found, found] + tail);
        },
    }
}

/// A teardown of a running module always ends unmapped and unloaded, whatever
/// `on_unload` returns; a nonzero status is reported as `OnUnloadError`. An
/// unloaded module admits no further command: each command requires a loaded
/// or running module.
pub proof fn lemma_unload_always_unmaps(status: u32)
    ensures
        run(unloading(false), seq![ModuleEvent::StatusReturned { status }, ModuleEvent::LibraryClosed]).0
            == idle(LifecycleState::Unloaded),
        !library_open(
            run(unloading(false), seq![ModuleEvent::StatusReturned { status }, ModuleEvent::LibraryClosed]).0.state,
        ),
        run(unloading(false), seq![ModuleEvent::StatusReturned { status }, ModuleEvent::LibraryClosed]).1
            == seq![ModuleAction::CloseLibrary, ModuleAction::Finished { result: unload_outcome(status) }],
        idle(LifecycleState::Unloaded) != idle(LifecycleState::Loaded),
        idle(LifecycleState::Unloaded) != idle(LifecycleState::Running),
{
    reveal_with_fuel(run, 3);
    assert(run(unloading(false), seq![ModuleEvent::StatusReturned { status }, ModuleEvent::LibraryClosed]).1
        =~= seq![ModuleAction::CloseLibrary, ModuleAction::Finished { result: unload_outcome(status) }]);
}

/// The control after one frame per status, each frame started by
/// `Module::update` and answered with that status from `update`.
pub open spec fn frames(c: Control, statuses: Seq<u32>) -> Control
    decreases statuses.len(),
{
    if statuses.len() == 0 {
        c
    } else {
        frames(
            next(Control { state: c.state, step: Step::Updating }, ModuleEvent::StatusReturned { status: statuses[0] }).0,
            statuses.drop_first(),
        )
    }
}

/// Failing frames are reported and leave the module running: after any
/// number of frames, whatever their statuses, the module is running and idle,
/// so that `update` can be called again.
pub proof fn lemma_failing_frames_keep_running(statuses: Seq<u32>)
    ensures
        frames(idle(LifecycleState::Running), statuses) == idle(LifecycleState::Running),
        forall|status: u32|
            #[trigger] run(updating(), seq![ModuleEvent::StatusReturned { status }]) == (
                idle(LifecycleState::Running),
                seq![ModuleAction::Finished { result: update_outcome(status) }],
            ),
    decreases statuses.len(),
{
    assert forall|status: u32|
        #[trigger] run(updating(), seq![ModuleEvent::StatusReturned { status }]) == (
            idle(LifecycleState::Running),
            seq![ModuleAction::Finished { result: update_outcome(status) }],
        ) by {
        reveal_with_fuel(run, 2);
        assert(run(updating(), seq![ModuleEvent::StatusReturned { status }]).1
            =~= seq![ModuleAction::Finished { result: update_outcome(status) }]);
    }
    if statuses.len() > 0 {
        lemma_failing_frames_keep_running(statuses.drop_first());
    }
}

/// The answers to a whole reload whose `on_unload` succeeds, with or without
/// an installed replacement, from a library that exports the three entry
/// points and whose `on_load` returns `status` (then unmapped, when nonzero).
pub open spec fn answers_reload(artifact: bool, status: u32) -> Seq<ModuleEvent> {
    answers_reload_teardown(artifact) + answers_complete() + if status == 0 {
        seq![ModuleEvent::StatusReturned { status }]
    } else {
        seq![ModuleEvent::StatusReturned { status }, ModuleEvent::LibraryClosed]
    }
}

/// The actions asked of the host by the teardown half of a reload.
pub open spec fn reload_teardown_actions(artifact: bool) -> Seq<ModuleAction> {
    if artifact {
        seq![ModuleAction::CloseLibrary, ModuleAction::CheckArtifact, ModuleAction::InstallArtifact, ModuleAction::OpenLibrary]
    } else {
        seq![ModuleAction::CloseLibrary, ModuleAction::CheckArtifact, ModuleAction::OpenLibrary]
    }
}

proof fn lemma_reload_halves(artifact: bool)
    ensures
        run(unloading(true), answers_reload_teardown(artifact)).0 == opening(true),
        run(unloading(true), answers_reload_teardown(artifact)).1 == reload_teardown_actions(artifact),
        run(opening(true), answers_complete()).0 == initializing(),
        run(opening(true), answers_complete()).1 == seq![
            ModuleAction::ResolveSymbol { symbol: ModuleSymbol::OnLoad },
            ModuleAction::ResolveSymbol { symbol: ModuleSymbol::OnUnload },
            ModuleAction::ResolveSymbol { symbol: ModuleSymbol::Update },
            ModuleAction::CallOnLoad,
        ],
{
    reveal_with_fuel(run, 5);
    assert(run(unloading(true), answers_reload_teardown(artifact)).1 =~= reload_teardown_actions(artifact));
    assert(run(opening(true), answers_complete()).1 =~= seq![
        ModuleAction::ResolveSymbol { symbol: ModuleSymbol::OnLoad },
        ModuleAction::ResolveSymbol { symbol: ModuleSymbol::OnUnload },
        ModuleAction::ResolveSymbol { symbol: ModuleSymbol::Update },
        ModuleAction::CallOnLoad,
    ]);
}

/// A reload tears the running module down and unmaps it before any file is
/// touched; a staged replacement is installed over the library file (and
/// none is asked for when there is none), the library is mapped again, and
/// `on_load` is called again. When it returns 0 the module is running; when
/// it fails the library is unmapped and the host holds no module, with the
/// `OnLoadError` reported.
pub proof fn lemma_reload(artifact: bool, status: u32)
    ensures
        run(unloading(true), answers_reload(artifact, status)).1 == reload_teardown_actions(artifact) + seq![
            ModuleAction::ResolveSymbol { symbol: ModuleSymbol::OnLoad },
            ModuleAction::ResolveSymbol { symbol: ModuleSymbol::OnUnload },
            ModuleAction::ResolveSymbol { symbol: ModuleSymbol::Update },
            ModuleAction::CallOnLoad,
        ] + if status == 0 {
            seq![ModuleAction::Finished { result: Ok(()) }]
        } else {
            seq![
                ModuleAction::CloseLibrary,
                ModuleAction::Finished { result: Err(ModuleError::OnLoadError { status }) },
            ]
        },
        status == 0 ==> run(unloading(true), answers_reload(artifact, status)).0 == idle(LifecycleState::Running),
        status != 0 ==> run(unloading(true), answers_reload(artifact, status)).0 == idle(LifecycleState::Unloaded),
        status != 0 ==> !library_open(run(unloading(true), answers_reload(artifact, status)).0.state),
{
    let teardown = answers_reload_teardown(artifact);
    let complete = answers_complete();
    let last = if status == 0 {
        seq![ModuleEvent::StatusReturned { status }]
    } else {
        seq![ModuleEvent::StatusReturned { status }, ModuleEvent::LibraryClosed]
    };
    lemma_reload_halves(artifact);
    lemma_run_append(unloading(true), teardown, complete);
    lemma_run_append(unloading(true), teardown + complete, last);
    reveal_with_fuel(run, 3);
    let finale = run(initializing(), last).1;
    if status == 0 {
        assert(finale =~= seq![ModuleAction::Finished { result: Ok(()) }]);
    } else {
        assert(finale =~= seq![
            ModuleAction::CloseLibrary,
            ModuleAction::Finished { result: Err(ModuleError::OnLoadError { status }) },
        ]);
    }
}

} // verus!
