//! The engine of an assessment: its target, its session, its modules and
//! its catalogue of commands.

use crate::commands::default_commands;
use crate::commands::filled;
use crate::commands::suggestion;
use crate::commands::template_named;
use crate::commands::terminal_command;
use crate::commands::terminal_line;
use crate::commands::SecurityCommandExecutor;
use crate::commands::SecurityCommandView;
use crate::ident::fresh_uuid;
use crate::ident::is_uuid_text;
use vstd::prelude::*;

verus! {

/// What an assessment is aimed at.
#[derive(Debug)]
pub struct Target {
    pub domain: String,
    pub scope: Vec<String>,
    pub excluded: Vec<String>,
}

/// How far a session has come.
#[derive(Debug)]
pub enum SessionStatus {
    Initialized,
    Reconnaissance,
    VulnerabilityAssessment,
    Exploitation,
    Completed,
    Failed(String),
}

/// One assessment of one target.
#[derive(Debug)]
pub struct PentestSession {
    pub target: Target,
    pub session_id: String,
    pub status: SessionStatus,
}

/// Why a module gave up.
#[derive(Debug)]
pub struct ModuleError {
    pub message: String,
}

/// A step of an assessment, which the engine runs against the target of
/// its session: it is initialized, executed and finalized, in this order.
pub trait PentestModule {
    fn initialize(&mut self, target: &Target) -> Result<(), ModuleError>;

    fn execute(&mut self) -> Result<(), ModuleError>;

    fn finalize(&mut self) -> Result<(), ModuleError>;

    fn get_name(&self) -> &str;
}

impl View for ModuleError {
    type V = Seq<char>;

    open spec fn view(&self) -> Seq<char> {
        self.message@
    }
}

/// The three steps of a module, in the order in which they are run.
#[derive(Clone, Copy, Debug, PartialEq, Eq, Structural)]
pub enum ModuleStep {
    Initialize,
    Execute,
    Finalize,
}

/// What becomes of a module once one of its steps has ended.
#[derive(Debug)]
pub enum StepProgress {
    /// The module goes on with this step.
    Next(ModuleStep),
    /// The module is through: with success after its last step, or with
    /// the error of the step that failed.
    Done(Result<(), ModuleError>),
}

/// What becomes of a run once one of its modules is through.
#[derive(Debug)]
pub enum RunProgress {
    /// The run goes on with the module at this place.
    Next(usize),
    /// The run is over: with success after its last module, or with the
    /// error of the module that failed.
    Done(Result<(), ModuleError>),
}

/// The view of a `StepProgress` and of a `RunProgress`: what comes next,
/// or how it ended.
pub enum ProgressView<T> {
    Next(T),
    Succeeded,
    Failed(Seq<char>),
}

/// How a step or a module that is through ended.
pub open spec fn ending<T>(outcome: Result<(), ModuleError>) -> ProgressView<T> {
    match outcome {
        Ok(_) => ProgressView::Succeeded,
        Err(e) => ProgressView::Failed(e@),
    }
}

impl View for StepProgress {
    type V = ProgressView<ModuleStep>;

    open spec fn view(&self) -> ProgressView<ModuleStep> {
        match self {
            StepProgress::Next(step) => ProgressView::Next(*step),
            StepProgress::Done(outcome) => ending(*outcome),
        }
    }
}

impl View for RunProgress {
    type V = ProgressView<int>;

    open spec fn view(&self) -> ProgressView<int> {
        match self {
            RunProgress::Next(module) => ProgressView::Next(*module as int),
            RunProgress::Done(outcome) => ending(*outcome),
        }
    }
}

/// The number of steps that a module has before it, the step `step` included.
pub open spec fn steps_left(step: ModuleStep) -> nat {
    match step {
        ModuleStep::Initialize => 3,
        ModuleStep::Execute => 2,
        ModuleStep::Finalize => 1,
    }
}

/// What becomes of a module once its step `step` has ended as `outcome`
/// tells: an error ends the module with that error, and success leads to
/// the step that follows, or ends the module after the last step.
pub open spec fn progress_after_step(step: ModuleStep, outcome: Result<(), ModuleError>) -> ProgressView<
    ModuleStep,
> {
    match outcome {
        Err(e) => ProgressView::Failed(e@),
        Ok(_) => match step {
            ModuleStep::Initialize => ProgressView::Next(ModuleStep::Execute),
            ModuleStep::Execute => ProgressView::Next(ModuleStep::Finalize),
            ModuleStep::Finalize => ProgressView::Succeeded,
        },
    }
}

/// What becomes of a run of `count` modules once the module at the place
/// `module` is through as `outcome` tells: an error ends the run with that
/// error, and success leads to the module that follows, or ends the run
/// after the last module.
pub open spec fn progress_after_module(module: int, count: int, outcome: Result<(), ModuleError>) -> ProgressView<
    int,
> {
    match outcome {
        Err(e) => ProgressView::Failed(e@),
        Ok(_) => if module + 1 < count {
            ProgressView::Next(module + 1)
        } else {
            ProgressView::Succeeded
        },
    }
}

/// The place of the module that a run begins with: the first, where there
/// is a session and a module; without either nothing is run.
pub open spec fn first_of_run(has_session: bool, count: int) -> Option<int> {
    if has_session && count > 0 {
        Some(0)
    } else {
        None
    }
}

/// Decides what becomes of a module once its step `step` has ended as
/// `outcome` tells.
pub fn after_step(step: ModuleStep, outcome: Result<(), ModuleError>) -> (r: StepProgress)
    ensures
        r@ == progress_after_step(step, outcome),
{
    match outcome {
        Err(e) => StepProgress::Done(Err(e)),
        Ok(()) => match step {
            ModuleStep::Initialize => StepProgress::Next(ModuleStep::Execute),
            ModuleStep::Execute => StepProgress::Next(ModuleStep::Finalize),
            ModuleStep::Finalize => StepProgress::Done(Ok(())),
        },
    }
}

/// Decides what becomes of a run of `count` modules once the module at the
/// place `module` is through as `outcome` tells.
pub fn after_module(module: usize, count: usize, outcome: Result<(), ModuleError>) -> (r:
    RunProgress)
    ensures
        r@ == progress_after_module(module as int, count as int, outcome),
{
    match outcome {
        Err(e) => RunProgress::Done(Err(e)),
        Ok(()) => {
            if count > 0 && module < count - 1 {
                RunProgress::Next(module + 1)
            } else {
                RunProgress::Done(Ok(()))
            }
        },
    }
}

/// The place of the module that a run of `count` modules begins with.
pub fn first_module(has_session: bool, count: usize) -> (r: Option<usize>)
    ensures
        match r {
            Some(i) => first_of_run(has_session, count as int) == Some(i as int),
            None => first_of_run(has_session, count as int) is None,
        },
{
    if has_session && count > 0 {
        Some(0)
    } else {
        None
    }
}

/// A module in the list of the engine.
pub struct ModuleSlot {
    pub module: Box<dyn PentestModule>,
}

/// A command line ready to be launched: the command itself, and the
/// command line that opens a terminal window and runs it there.
#[derive(Debug)]
pub struct Launch {
    pub command: String,
    pub terminal: String,
}

/// The catalogue holds no template of the name that was asked for.
#[derive(Debug)]
pub struct UnknownTemplate {
    pub name: String,
}

/// What becomes of a message that asks for a security command: nothing
/// where it asks for none, the command line of the template with the
/// parameters filled in, or the name of the template that is missing.
pub open spec fn launch_for(catalogue: Seq<SecurityCommandView>, message: Seq<char>) -> Result<
    Option<Seq<char>>,
    Seq<char>,
> {
    match suggestion(message) {
        None => Ok(None),
        Some((name, params)) => match template_named(catalogue, name) {
            Some(c) => Ok(Some(filled(c.template, params, params.len() as int))),
            None => Err(name),
        },
    }
}

/// The engine: the modules to run, the session at hand, and the catalogue of commands.
pub struct PentestEngine {
    modules: Vec<ModuleSlot>,
    current_session: Option<PentestSession>,
    command_executor: SecurityCommandExecutor,
}

impl PentestEngine {
    /// The number of modules added.
    pub closed spec fn module_count(&self) -> nat {
        self.modules@.len()
    }

    /// The identifier of the session at hand.
    pub closed spec fn session_id(&self) -> Option<Seq<char>> {
        match self.current_session {
            Some(s) => Some(s.session_id@),
            None => None,
        }
    }

    /// The templates of the catalogue.
    pub closed spec fn catalogue(&self) -> Seq<SecurityCommandView> {
        self.command_executor@
    }

    /// What the last command run from the catalogue left.
    pub closed spec fn last_output(&self) -> Option<Seq<char>> {
        self.command_executor.last()
    }

    /// An engine without modules and without a session, with the default
    /// catalogue, from which nothing was run yet.
    pub fn new() -> (r: Self)
        ensures
            r.module_count() == 0,
            r.session_id() is None,
            r.catalogue() == default_commands(),
            r.last_output() is None,
    {
        PentestEngine {
            modules: Vec::new(),
            current_session: None,
            command_executor: SecurityCommandExecutor::new(),
        }
    }

    /// Adds a module behind the ones that are there.
    pub fn add_module(&mut self, module: Box<dyn PentestModule>)
        ensures
            final(self).module_count() == old(self).module_count() + 1,
            final(self).session_id() == old(self).session_id(),
            final(self).catalogue() == old(self).catalogue(),
            final(self).last_output() == old(self).last_output(),
    {
        let slot = ModuleSlot { module };
        proof {
            // A trait object is opaque to the solver, so the length of the
            // list after the push is asked for by name.
            vstd::seq::axiom_seq_push_len(self.modules@, slot);
        }
        self.modules.push(slot);
    }

    /// Begins a session on `target`, under a fresh identifier, in place of
    /// the session at hand.
    pub fn start_session(&mut self, target: Target)
        ensures
            final(self).session_id() matches Some(id) && is_uuid_text(id),
            final(self).module_count() == old(self).module_count(),
            final(self).catalogue() == old(self).catalogue(),
            final(self).last_output() == old(self).last_output(),
    {
        self.current_session = Some(
            PentestSession { target, session_id: fresh_uuid(), status: SessionStatus::Initialized },
        );
    }

    /// Runs the modules against the target of the session, each through its
    /// three steps, in the order in which they were added. The first error
    /// of a module ends the run. Without a session, and without modules,
    /// nothing is run and nothing can fail.
    ///
    /// What a module returns is its own affair, so the contract promises
    /// success only where no module is asked. Where the run begins and
    /// what follows each module is decided by `first_module` and
    /// `after_module`, whose contracts are exact.
    pub fn run_modules(&mut self) -> (r: Result<(), ModuleError>)
        ensures
            old(self).session_id() is None || old(self).module_count() == 0 ==> r is Ok,
            final(self).module_count() == old(self).module_count(),
            final(self).session_id() == old(self).session_id(),
            final(self).catalogue() == old(self).catalogue(),
            final(self).last_output() == old(self).last_output(),
    {
        let mut modules: Vec<ModuleSlot> = Vec::new();
        core::mem::swap(&mut modules, &mut self.modules);
        let mut outcome: Result<(), ModuleError> = Ok(());
        let mut next = first_module(self.current_session.is_some(), modules.len());
        while next.is_some()
            invariant
                modules@.len() == old(self).modules@.len(),
                self.current_session == old(self).current_session,
                next matches Some(i) ==> i < modules@.len() && self.current_session is Some,
                old(self).current_session is None || old(self).modules@.len() == 0 ==> outcome
                    is Ok,
            decreases
                    (match next {
                        Some(i) => modules@.len() - i,
                        None => 0,
                    }),
        {
            let i = next.unwrap();
            let through = match &self.current_session {
                Some(session) => run_module(&mut modules[i], &session.target),
                None => Ok(()),
            };
            match after_module(i, modules.len(), through) {
                RunProgress::Next(j) => {
                    next = Some(j);
                },
                RunProgress::Done(ended) => {
                    outcome = ended;
                    next = None;
                },
            }
        }
        self.modules = modules;
        outcome
    }

    /// The catalogue of commands, to be read and changed.
    pub fn get_command_executor(&mut self) -> (r: &mut SecurityCommandExecutor)
        ensures
            r@ == old(self).catalogue(),
            r.last() == old(self).last_output(),
            final(self).catalogue() == final(r)@,
            final(self).last_output() == final(r).last(),
            final(self).module_count() == old(self).module_count(),
            final(self).session_id() == old(self).session_id(),
    {
        &mut self.command_executor
    }

    /// Reads from a message which security command a user asks for, and
    /// makes the command line ready to be launched.
    pub fn execute_security_command_from_intent(&self, user_message: &str) -> (r: Result<
        Option<Launch>,
        UnknownTemplate,
    >)
        ensures
            match r {
                Ok(Some(launch)) => launch_for(self.catalogue(), user_message@) == Ok::<
                    Option<Seq<char>>,
                    Seq<char>,
                >(Some(launch.command@)) && launch.terminal@ == terminal_line(launch.command@),
                Ok(None) => launch_for(self.catalogue(), user_message@) == Ok::<
                    Option<Seq<char>>,
                    Seq<char>,
                >(None),
                Err(e) => launch_for(self.catalogue(), user_message@) == Err::<
                    Option<Seq<char>>,
                    Seq<char>,
                >(e.name@),
            },
    {
        match self.command_executor.suggest_command_from_intent(user_message) {
            None => Ok(None),
            Some((name, params)) => match self.command_executor.command_line(
                name.as_str(),
                &params,
            ) {
                Some(command) => {
                    let terminal = terminal_command(command.as_str());
                    Ok(Some(Launch { command, terminal }))
                },
                None => Err(UnknownTemplate { name }),
            },
        }
    }
}

/// Runs one module through its three steps, up to its first error. What
/// each step returns is the affair of the module; what follows each step
/// is decided by `after_step`, whose contract is exact.
fn run_module(slot: &mut ModuleSlot, target: &Target) -> (r: Result<(), ModuleError>) {
    let mut step = ModuleStep::Initialize;
    loop
        decreases steps_left(step),
    {
        let outcome = match step {
            ModuleStep::Initialize => slot.module.initialize(target),
            ModuleStep::Execute => slot.module.execute(),
            ModuleStep::Finalize => slot.module.finalize(),
        };
        match after_step(step, outcome) {
            StepProgress::Next(following) => {
                step = following;
            },
            StepProgress::Done(ended) => {
                return ended;
            },
        }
    }
}

} // verus!
