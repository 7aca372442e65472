use std::collections::HashMap;

use surge_core::lifecycle::{LifecycleState, ModuleAction, ModuleError, ModuleEvent, ModuleSymbol};
use surge_core::module::{hot_reload_triggered, reload, Module, StartupConfig};

/// A library build: what it exports and what its entry points return.
#[derive(Clone)]
struct Build {
    exports: Vec<&'static str>,
    on_load: u32,
    on_unload: u32,
    update: u32,
}

impl Build {
    fn valid() -> Build {
        Build { exports: vec!["on_load", "on_unload", "update"], on_load: 0, on_unload: 0, update: 0 }
    }
}

/// A host with an in-memory file system; a file's bytes select the build it holds.
struct Host {
    files: HashMap<String, Vec<u8>>,
    builds: HashMap<Vec<u8>, Build>,
    mapped: Option<Build>,
    install_fails: bool,
    calls: Vec<&'static str>,
}

impl Host {
    fn new() -> Host {
        Host { files: HashMap::new(), builds: HashMap::new(), mapped: None, install_fails: false, calls: Vec::new() }
    }

    fn add_file(&mut self, path: &str, bytes: &[u8], build: Build) {
        self.files.insert(path.to_string(), bytes.to_vec());
        self.builds.insert(bytes.to_vec(), build);
    }

    fn perform(&mut self, module: &Module, action: ModuleAction) -> ModuleEvent {
        match action {
            ModuleAction::OpenLibrary => {
                assert!(self.mapped.is_none(), "a second mapping was opened");
                let build = self.files.get(module.library_path()).and_then(|b| self.builds.get(b)).cloned();
                match build {
                    Some(b) => {
                        self.mapped = Some(b);
                        ModuleEvent::LibraryOpened
                    }
                    None => ModuleEvent::LibraryOpenFailed,
                }
            }
            ModuleAction::ResolveSymbol { symbol } => {
                let lib = self.mapped.as_ref().expect("resolve without a mapping");
                if lib.exports.contains(&symbol.name()) {
                    ModuleEvent::SymbolFound
                } else {
                    ModuleEvent::SymbolMissing
                }
            }
            ModuleAction::CallOnLoad => {
                self.calls.push("on_load");
                ModuleEvent::StatusReturned { status: self.mapped.as_ref().expect("call without a mapping").on_load }
            }
            ModuleAction::CallOnUnload => {
                self.calls.push("on_unload");
                ModuleEvent::StatusReturned { status: self.mapped.as_ref().expect("call without a mapping").on_unload }
            }
            ModuleAction::CallUpdate => {
                self.calls.push("update");
                ModuleEvent::StatusReturned { status: self.mapped.as_ref().expect("call without a mapping").update }
            }
            ModuleAction::CloseLibrary => {
                assert!(self.mapped.is_some(), "close without a mapping");
                self.mapped = None;
                ModuleEvent::LibraryClosed
            }
            ModuleAction::CheckArtifact => {
                if self.files.contains_key(module.artifact_path()) {
                    ModuleEvent::ArtifactFound
                } else {
                    ModuleEvent::ArtifactAbsent
                }
            }
            ModuleAction::InstallArtifact => {
                assert!(self.mapped.is_none(), "the library file was replaced while mapped");
                if self.install_fails {
                    return ModuleEvent::ArtifactInstallFailed;
                }
                let bytes = self.files.remove(module.artifact_path()).expect("no artifact to install");
                self.files.insert(module.library_path().to_string(), bytes);
                ModuleEvent::ArtifactInstalled
            }
            ModuleAction::Finished { .. } => panic!("nothing to perform"),
        }
    }

    fn drive(&mut self, module: &mut Module, first: ModuleAction) -> Result<(), ModuleError> {
        let mut action = first;
        loop {
            if let ModuleAction::Finished { result } = action {
                assert!(module.is_idle());
                return result;
            }
            let event = self.perform(module, action);
            action = module.handle_event(event);
        }
    }

    /// Loads and initializes `name`, expecting both to succeed.
    fn start(&mut self, name: &str) -> Module {
        let (mut module, first) = Module::load(name);
        assert_eq!(self.drive(&mut module, first), Ok(()));
        let first = module.initialize();
        assert_eq!(self.drive(&mut module, first), Ok(()));
        module
    }
}

const LIB: &str = "libgame.so";
const STAGED: &str = "libgame.so.new";

#[test]
fn library_file_name_follows_platform_convention() {
    let (module, first) = Module::load("game");
    assert_eq!(first, ModuleAction::OpenLibrary);
    assert_eq!(module.name(), "game");
    assert_eq!(module.library_path(), LIB);
    assert_eq!(module.artifact_path(), STAGED);
    assert_eq!(module.state(), LifecycleState::Unloaded);
}

#[test]
fn load_then_initialize_runs() {
    let mut host = Host::new();
    host.add_file(LIB, b"v1", Build::valid());
    let (mut module, first) = Module::load("game");
    assert_eq!(host.drive(&mut module, first), Ok(()));
    assert_eq!(module.state(), LifecycleState::Loaded);
    let first = module.initialize();
    assert_eq!(first, ModuleAction::CallOnLoad);
    assert_eq!(host.drive(&mut module, first), Ok(()));
    assert_eq!(module.state(), LifecycleState::Running);
    assert!(host.mapped.is_some());
    assert_eq!(host.calls, vec!["on_load"]);
}

#[test]
fn missing_library_file_is_load_error() {
    let mut host = Host::new();
    let (mut module, first) = Module::load("game");
    assert_eq!(host.drive(&mut module, first), Err(ModuleError::LoadError));
    assert_eq!(module.state(), LifecycleState::Unloaded);
    assert!(host.mapped.is_none());
}

fn missing_export(missing: ModuleSymbol) {
    let mut host = Host::new();
    let mut build = Build::valid();
    build.exports.retain(|s| *s != missing.name());
    host.add_file(LIB, b"v1", build);
    let (mut module, first) = Module::load("game");
    assert_eq!(host.drive(&mut module, first), Err(ModuleError::SymbolResolutionError { symbol: missing }));
    assert_eq!(module.state(), LifecycleState::Unloaded);
    assert!(host.mapped.is_none());
    assert!(host.calls.is_empty());
    // Nothing stays mapped, so the same file opens again.
    host.builds.insert(b"v1".to_vec(), Build::valid());
    let (mut again, first) = Module::load("game");
    assert_eq!(host.drive(&mut again, first), Ok(()));
}

#[test]
fn missing_on_load_is_named_and_unmapped() {
    missing_export(ModuleSymbol::OnLoad);
}

#[test]
fn missing_on_unload_is_named_and_unmapped() {
    missing_export(ModuleSymbol::OnUnload);
}

#[test]
fn missing_update_is_named_and_unmapped() {
    missing_export(ModuleSymbol::Update);
}

#[test]
fn failing_on_load_unmaps_without_on_unload() {
    let mut host = Host::new();
    host.add_file(LIB, b"v1", Build { on_load: 3, ..Build::valid() });
    let (mut module, first) = Module::load("game");
    assert_eq!(host.drive(&mut module, first), Ok(()));
    let first = module.initialize();
    assert_eq!(host.drive(&mut module, first), Err(ModuleError::OnLoadError { status: 3 }));
    assert_eq!(module.state(), LifecycleState::Unloaded);
    assert!(host.mapped.is_none());
    assert_eq!(host.calls, vec!["on_load"]);
}

#[test]
fn unload_succeeds_and_unmaps() {
    let mut host = Host::new();
    host.add_file(LIB, b"v1", Build::valid());
    let mut module = host.start("game");
    let first = module.unload();
    assert_eq!(first, ModuleAction::CallOnUnload);
    assert_eq!(host.drive(&mut module, first), Ok(()));
    assert_eq!(module.state(), LifecycleState::Unloaded);
    assert!(host.mapped.is_none());
}

#[test]
fn unload_with_failing_status_still_unmaps() {
    let mut host = Host::new();
    host.add_file(LIB, b"v1", Build { on_unload: 9, ..Build::valid() });
    let mut module = host.start("game");
    let first = module.unload();
    assert_eq!(host.drive(&mut module, first), Err(ModuleError::OnUnloadError { status: 9 }));
    assert_eq!(module.state(), LifecycleState::Unloaded);
    assert!(host.mapped.is_none());
}

#[test]
fn hundred_failing_updates_keep_running() {
    let mut host = Host::new();
    host.add_file(LIB, b"v1", Build { update: 42, ..Build::valid() });
    let mut module = host.start("game");
    for _ in 0..100 {
        let first = module.update();
        assert_eq!(first, ModuleAction::CallUpdate);
        assert_eq!(host.drive(&mut module, first), Err(ModuleError::UpdateError { status: 42 }));
        assert_eq!(module.state(), LifecycleState::Running);
    }
    assert_eq!(host.calls.iter().filter(|c| **c == "update").count(), 100);
    let first = module.unload();
    assert_eq!(host.drive(&mut module, first), Ok(()));
}

#[test]
fn successful_update_is_ok() {
    let mut host = Host::new();
    host.add_file(LIB, b"v1", Build::valid());
    let mut module = host.start("game");
    let first = module.update();
    assert_eq!(host.drive(&mut module, first), Ok(()));
    assert_eq!(module.state(), LifecycleState::Running);
}

#[test]
fn reload_installs_staged_artifact() {
    let mut host = Host::new();
    host.add_file(LIB, b"v1", Build::valid());
    let mut module = host.start("game");
    host.add_file(STAGED, b"v2", Build::valid());
    let first = reload(&mut module);
    assert_eq!(first, ModuleAction::CallOnUnload);
    assert_eq!(host.drive(&mut module, first), Ok(()));
    assert_eq!(host.files.get(LIB).map(|b| b.as_slice()), Some(&b"v2"[..]));
    assert!(!host.files.contains_key(STAGED));
    assert_eq!(module.state(), LifecycleState::Running);
    assert_eq!(module.name(), "game");
    assert_eq!(host.calls, vec!["on_load", "on_unload", "on_load"]);
}

#[test]
fn reload_without_artifact_reloads_same_file() {
    let mut host = Host::new();
    host.add_file(LIB, b"v1", Build::valid());
    let mut module = host.start("game");
    let first = reload(&mut module);
    assert_eq!(host.drive(&mut module, first), Ok(()));
    assert_eq!(host.files.get(LIB).map(|b| b.as_slice()), Some(&b"v1"[..]));
    assert_eq!(module.state(), LifecycleState::Running);
    assert_eq!(host.calls, vec!["on_load", "on_unload", "on_load"]);
}

#[test]
fn reload_with_failing_on_load_leaves_no_module() {
    let mut host = Host::new();
    host.add_file(LIB, b"v1", Build::valid());
    let mut module = host.start("game");
    host.add_file(STAGED, b"v2", Build { on_load: 5, ..Build::valid() });
    let first = reload(&mut module);
    assert_eq!(host.drive(&mut module, first), Err(ModuleError::OnLoadError { status: 5 }));
    assert_eq!(module.state(), LifecycleState::Unloaded);
    assert!(host.mapped.is_none());
}

#[test]
fn reload_with_broken_artifact_is_load_error() {
    let mut host = Host::new();
    host.add_file(LIB, b"v1", Build::valid());
    let mut module = host.start("game");
    host.files.insert(STAGED.to_string(), b"garbage".to_vec());
    let first = reload(&mut module);
    assert_eq!(host.drive(&mut module, first), Err(ModuleError::LoadError));
    assert_eq!(module.state(), LifecycleState::Unloaded);
    assert!(host.mapped.is_none());
}

#[test]
fn reload_with_failing_install_is_reload_error() {
    let mut host = Host::new();
    host.add_file(LIB, b"v1", Build::valid());
    let mut module = host.start("game");
    host.add_file(STAGED, b"v2", Build::valid());
    host.install_fails = true;
    let first = reload(&mut module);
    assert_eq!(host.drive(&mut module, first), Err(ModuleError::ReloadError));
    assert_eq!(module.state(), LifecycleState::Unloaded);
    assert_eq!(host.files.get(LIB).map(|b| b.as_slice()), Some(&b"v1"[..]));
    assert!(host.mapped.is_none());
}

#[test]
fn reload_with_failing_on_unload_stops_unmapped() {
    let mut host = Host::new();
    host.add_file(LIB, b"v1", Build { on_unload: 2, ..Build::valid() });
    let mut module = host.start("game");
    host.add_file(STAGED, b"v2", Build::valid());
    let first = reload(&mut module);
    assert_eq!(host.drive(&mut module, first), Err(ModuleError::OnUnloadError { status: 2 }));
    assert_eq!(module.state(), LifecycleState::Unloaded);
    assert!(host.mapped.is_none());
    assert!(host.files.contains_key(STAGED));
}

#[test]
fn unrelated_event_repeats_pending_request() {
    let (mut module, _) = Module::load("game");
    assert_eq!(module.handle_event(ModuleEvent::LibraryClosed), ModuleAction::OpenLibrary);
    assert_eq!(module.state(), LifecycleState::Unloaded);
    assert_eq!(module.handle_event(ModuleEvent::LibraryOpened), ModuleAction::ResolveSymbol { symbol: ModuleSymbol::OnLoad });
    assert_eq!(module.handle_event(ModuleEvent::StatusReturned { status: 0 }), ModuleAction::ResolveSymbol { symbol: ModuleSymbol::OnLoad });
}

#[test]
fn status_conversions() {
    assert_eq!(Module::checked_on_load(0), Ok(0));
    assert_eq!(Module::checked_on_load(4), Err(ModuleError::OnLoadError { status: 4 }));
    assert_eq!(Module::checked_on_unload(0), Ok(0));
    assert_eq!(Module::checked_on_unload(u32::MAX), Err(ModuleError::OnUnloadError { status: u32::MAX }));
    assert_eq!(Module::checked_update(0), Ok(0));
    assert_eq!(Module::checked_update(1), Err(ModuleError::UpdateError { status: 1 }));
}

#[test]
fn symbol_names() {
    assert_eq!(ModuleSymbol::OnLoad.name(), "on_load");
    assert_eq!(ModuleSymbol::OnUnload.name(), "on_unload");
    assert_eq!(ModuleSymbol::Update.name(), "update");
}

#[test]
fn load_from_config_requires_a_name() {
    let none = StartupConfig { module_name: None };
    assert!(matches!(Module::load_from_config(&none), Err(ModuleError::LoadError)));
    let some = StartupConfig { module_name: Some("module_default".to_string()) };
    let (module, first) = Module::load_from_config(&some).ok().expect("a named module loads");
    assert_eq!(first, ModuleAction::OpenLibrary);
    assert_eq!(module.library_path(), "libmodule_default.so");
}

#[test]
fn hot_reload_fires_on_press_edge_only() {
    assert!(hot_reload_triggered(true, false));
    assert!(!hot_reload_triggered(true, true));
    assert!(!hot_reload_triggered(false, true));
    assert!(!hot_reload_triggered(false, false));
}
