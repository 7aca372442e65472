//! A module held by the host: its names and paths, and the operations the host
//! starts on it. Each operation is driven to its end through
//! [`Module::handle_event`].
use vstd::prelude::*;
use crate::lifecycle::{
    control_wf, idle, lemma_next_preserves_wf, next, Control, LifecycleState, ModuleAction,
    ModuleError, ModuleEvent, Step,
};

verus! {

/// The file name the platform gives a shared library built under a logical name.
pub uninterp spec fn platform_file_name_of(name: Seq<char>) -> Seq<char>;

/// Relies on `dlopen::utils::platform_file_name`: the platform's library
/// prefix, the name, a dot and the platform's extension, so that on a given
/// target the result depends on the name alone.
#[verifier::external_body]
fn platform_file_name(name: &str) -> (r: String)
    ensures
        r@ == platform_file_name_of(name@),
{
    dlopen::utils::platform_file_name(name).to_string_lossy().into_owned()
}

/// The path of the staged replacement of a library file.
pub open spec fn artifact_path_of(library_path: Seq<char>) -> Seq<char> {
    library_path + ".new"@
}

/// The abstract value of a [`Module`].
pub struct ModuleView {
    /// The logical name, without platform decoration.
    pub name: Seq<char>,
    /// The library file the module is mapped from.
    pub library_path: Seq<char>,
    /// Where a newer build of the library is staged.
    pub artifact_path: Seq<char>,
    pub control: Control,
}

/// A module just created by `load`, waiting for its library to be mapped.
pub open spec fn loading(name: Seq<char>) -> ModuleView {
    ModuleView {
        name,
        library_path: platform_file_name_of(name),
        artifact_path: artifact_path_of(platform_file_name_of(name)),
        control: Control { state: LifecycleState::Unloaded, step: Step::Opening { reload: false } },
    }
}

/// `m` with its control replaced.
pub open spec fn with_control(m: ModuleView, control: Control) -> ModuleView {
    ModuleView { control, ..m }
}

/// The module slot of a host: one logical module and where its lifecycle stands.
pub struct Module {
    name: String,
    library_path: String,
    artifact_path: String,
    control: Control,
}

impl View for Module {
    type V = ModuleView;

    closed spec fn view(&self) -> ModuleView {
        ModuleView {
            name: self.name@,
            library_path: self.library_path@,
            artifact_path: self.artifact_path@,
            control: self.control,
        }
    }
}

/// Whether the host should reload this frame: the hotkey went from released to held.
pub fn hot_reload_triggered(held: bool, held_before: bool) -> (r: bool)
    ensures
        r == (held && !held_before),
{
    held && !held_before
}

/// What the host reads from its configuration to start a module.
pub struct StartupConfig {
    /// The logical name of the module to load, when the configuration gives one.
    pub module_name: Option<String>,
}

impl Module {
    /// The paths follow from the name, and the control is in a state its step
    /// can be taken in.
    pub open spec fn wf(&self) -> bool {
        &&& self@.library_path == platform_file_name_of(self@.name)
        &&& self@.artifact_path == artifact_path_of(self@.library_path)
        &&& control_wf(self@.control)
    }

    /// Starts loading the module with logical name `name`: the library file
    /// name is derived from it, and the host is asked to map that file.
    pub fn load(name: &str) -> (r: (Module, ModuleAction))
        ensures
            r.0@ == loading(name@),
            r.0.wf(),
            r.1 == ModuleAction::OpenLibrary,
    {
        let library_path = platform_file_name(name);
        let mut artifact_path = library_path.clone();
        artifact_path.append(".new");
        let module = Module {
            name: String::from_str(name),
            library_path,
            artifact_path,
            control: Control { state: LifecycleState::Unloaded, step: Step::Opening { reload: false } },
        };
        (module, ModuleAction::OpenLibrary)
    }

    /// Starts loading the module that the configuration names; a
    /// configuration that names none is a `LoadError`.
    pub fn load_from_config(config: &StartupConfig) -> (r: Result<(Module, ModuleAction), ModuleError>)
        ensures
            config.module_name is None ==> r == Err::<(Module, ModuleAction), ModuleError>(ModuleError::LoadError),
            config.module_name matches Some(n) ==> r matches Ok((m, a)) && m@ == loading(n@) && m.wf()
                && a == ModuleAction::OpenLibrary,
    {
        match &config.module_name {
            None => Err(ModuleError::LoadError),
            Some(n) => Ok(Module::load(n.as_str())),
        }
    }

    /// Starts the module's initialization: the host is asked to call `on_load`.
    pub fn initialize(&mut self) -> (r: ModuleAction)
        requires
            old(self).wf(),
            old(self)@.control == idle(LifecycleState::Loaded),
        ensures
            final(self)@ == with_control(old(self)@, Control { state: LifecycleState::Loaded, step: Step::Initializing }),
            final(self).wf(),
            r == ModuleAction::CallOnLoad,
    {
        self.control = Control { state: LifecycleState::Loaded, step: Step::Initializing };
        ModuleAction::CallOnLoad
    }

    /// Starts one frame: the host is asked to call `update`.
    pub fn update(&mut self) -> (r: ModuleAction)
        requires
            old(self).wf(),
            old(self)@.control == idle(LifecycleState::Running),
        ensures
            final(self)@ == with_control(old(self)@, Control { state: LifecycleState::Running, step: Step::Updating }),
            final(self).wf(),
            r == ModuleAction::CallUpdate,
    {
        self.control = Control { state: LifecycleState::Running, step: Step::Updating };
        ModuleAction::CallUpdate
    }

    /// Starts the module's teardown: the host is asked to call `on_unload`,
    /// and the library is unmapped whatever it returns.
    pub fn unload(&mut self) -> (r: ModuleAction)
        requires
            old(self).wf(),
            old(self)@.control == idle(LifecycleState::Running),
        ensures
            final(self)@ == with_control(
                old(self)@,
                Control { state: LifecycleState::Unloading, step: Step::Unloading { reload: false } },
            ),
            final(self).wf(),
            r == ModuleAction::CallOnUnload,
    {
        self.control = Control { state: LifecycleState::Unloading, step: Step::Unloading { reload: false } };
        ModuleAction::CallOnUnload
    }

    /// Takes the outcome of the pending request and answers with the next one.
    pub fn handle_event(&mut self, event: ModuleEvent) -> (r: ModuleAction)
        requires
            old(self).wf(),
            !(old(self)@.control.step is Idle),
        ensures
            final(self)@ == with_control(old(self)@, next(old(self)@.control, event).0),
            final(self).wf(),
            r == next(old(self)@.control, event).1,
    {
        proof {
            lemma_next_preserves_wf(self.control, event);
        }
        let (control, action) = self.control.advance(event);
        self.control = control;
        action
    }

    /// The logical name.
    pub fn name(&self) -> (r: &str)
        ensures
            r@ == self@.name,
    {
        self.name.as_str()
    }

    /// The library file the module is mapped from.
    pub fn library_path(&self) -> (r: &str)
        ensures
            r@ == self@.library_path,
    {
        self.library_path.as_str()
    }

    /// Where a newer build of the library is staged.
    pub fn artifact_path(&self) -> (r: &str)
        ensures
            r@ == self@.artifact_path,
    {
        self.artifact_path.as_str()
    }

    pub fn state(&self) -> (r: LifecycleState)
        ensures
            r == self@.control.state,
    {
        self.control.state
    }

    /// Whether no operation is in progress.
    pub fn is_idle(&self) -> (r: bool)
        ensures
            r == (self@.control.step is Idle),
    {
        match self.control.step {
            Step::Idle => true,
            _ => false,
        }
    }

    /// Turns the status returned by `on_load` into an outcome.
    pub fn checked_on_load(status: u32) -> (r: Result<u32, ModuleError>)
        ensures
            status == 0 ==> r == Ok::<u32, ModuleError>(0),
            status != 0 ==> r == Err::<u32, ModuleError>(ModuleError::OnLoadError { status }),
    {
        if status != 0 {
            Err(ModuleError::OnLoadError { status })
        } else {
            Ok(status)
        }
    }

    /// Turns the status returned by `on_unload` into an outcome.
    pub fn checked_on_unload(status: u32) -> (r: Result<u32, ModuleError>)
        ensures
            status == 0 ==> r == Ok::<u32, ModuleError>(0),
            status != 0 ==> r == Err::<u32, ModuleError>(ModuleError::OnUnloadError { status }),
    {
        if status != 0 {
            Err(ModuleError::OnUnloadError { status })
        } else {
            Ok(status)
        }
    }

    /// Turns the status returned by `update` into an outcome.
    pub fn checked_update(status: u32) -> (r: Result<u32, ModuleError>)
        ensures
            status == 0 ==> r == Ok::<u32, ModuleError>(0),
            status != 0 ==> r == Err::<u32, ModuleError>(ModuleError::UpdateError { status }),
    {
        if status != 0 {
            Err(ModuleError::UpdateError { status })
        } else {
            Ok(status)
        }
    }
}

/// Starts a hot reload of a running module: it is torn down, its staged
/// replacement (if any) is moved over its library file, and it is loaded and
/// initialized again under the same name.
pub fn reload(module: &mut Module) -> (r: ModuleAction)
    requires
        old(module).wf(),
        old(module)@.control == idle(LifecycleState::Running),
    ensures
        final(module)@ == with_control(
            old(module)@,
            Control { state: LifecycleState::Unloading, step: Step::Unloading { reload: true } },
        ),
        final(module).wf(),
        r == ModuleAction::CallOnUnload,
{
    module.control = Control { state: LifecycleState::Unloading, step: Step::Unloading { reload: true } };
    ModuleAction::CallOnUnload
}

} // verus!
