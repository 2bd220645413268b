//! The deployment of a token-curated registry, step by step.
use vstd::prelude::*;
use vstd::string::*;
use crate::address::Address;
use crate::compile::{
    loaded_abi, loaded_bytecode, path_of, ArtifactFault, ArtifactFaultView, FileRead,
    FileReadView, Solc,
};
use crate::invocation::{
    exit_verdict, judge_exit, verdict_view, CommandView, CompileError, CompileErrorView,
    CompilerCommand,
};
use crate::libraries::LibraryRegistry;
use crate::plan::{
    compile_contracts, compile_libraries, constructor, constructor_arguments, library_pass,
    linked_pass, Stage, Unit,
};
use crate::request::{
    copy_bytes, CreationRequest, CreationView, DeploymentFault, DeploymentFaultView,
};
use crate::{library_creation, Config, Library, LIBRARY_GAS_LIMIT};

verus! {

/// The numbers that govern a registry: a set in force and a set for the
/// parameterizer itself.
#[derive(Clone, Copy, Debug, PartialEq, Eq)]
pub struct Parameters {
    pub min_deposit: u32,
    pub apply_stage_length: u32,
    pub commit_stage_length: u32,
    pub reveal_stage_length: u32,
    pub dispensation_percentage: u32,
    pub vote_quorum: u32,
    pub p_min_deposit: u32,
    pub p_apply_stage_length: u32,
    pub p_commit_stage_length: u32,
    pub p_reveal_stage_length: u32,
    pub p_dispensation_percentage: u32,
    pub p_vote_quorum: u32,
}

/// The contracts of a deployed registry.
#[derive(Clone, Copy, Debug, PartialEq, Eq)]
pub struct RegistryInfo {
    pub registry: Address,
    pub token: Address,
    pub voting: Address,
}

/// What a run is waiting for.
#[derive(Clone, Copy, Debug, PartialEq, Eq)]
pub enum Step {
    /// Nothing yet: the run has not begun.
    Idle,
    /// The end of the first compiler pass.
    CompilingLibraries,
    /// The bytecode file of a unit.
    Reading(Unit),
    /// The interface file of a contract.
    ReadingInterface(Unit),
    /// The confirmation that a unit was created.
    Deploying(Unit),
    /// The end of the second compiler pass.
    CompilingContracts,
    /// Nothing more: every unit is on the chain.
    Finished,
}

/// A creation that did not go through, and the unit it was for.
#[derive(Debug, PartialEq, Eq)]
pub struct DeploymentError {
    pub unit: Unit,
    pub fault: DeploymentFault,
}

/// A `DeploymentError` as a plain value.
pub struct DeploymentErrorView {
    pub unit: Unit,
    pub fault: DeploymentFaultView,
}

impl View for DeploymentError {
    type V = DeploymentErrorView;

    open spec fn view(&self) -> DeploymentErrorView {
        DeploymentErrorView { unit: self.unit, fault: self.fault@ }
    }
}

/// Why a run stopped.
#[derive(Debug, PartialEq, Eq)]
pub enum DeployError {
    /// A compiler pass failed.
    Compile { stage: Stage, error: CompileError },
    /// An artifact of a unit could not be loaded.
    Artifact { unit: Unit, fault: ArtifactFault },
    /// The creation of a unit did not go through.
    Deployment(DeploymentError),
    /// What was reported does not answer what the run was waiting for.
    Unexpected { step: Step },
}

/// A `DeployError` as a plain value.
pub enum DeployErrorView {
    Compile { stage: Stage, error: CompileErrorView },
    Artifact { unit: Unit, fault: ArtifactFaultView },
    Deployment(DeploymentErrorView),
    Unexpected { step: Step },
}

impl View for DeployError {
    type V = DeployErrorView;

    open spec fn view(&self) -> DeployErrorView {
        match self {
            DeployError::Compile { stage, error } => DeployErrorView::Compile {
                stage: *stage,
                error: error@,
            },
            DeployError::Artifact { unit, fault } => DeployErrorView::Artifact {
                unit: *unit,
                fault: fault@,
            },
            DeployError::Deployment(error) => DeployErrorView::Deployment(error@),
            DeployError::Unexpected { step } => DeployErrorView::Unexpected { step: *step },
        }
    }
}

impl DeployError {
    /// A second value that says the same.
    pub fn copy(&self) -> (error: DeployError)
        ensures
            error@ == self@,
    {
        match self {
            DeployError::Compile { stage, error } => DeployError::Compile {
                stage: *stage,
                error: error.copy(),
            },
            DeployError::Artifact { unit, fault } => DeployError::Artifact {
                unit: *unit,
                fault: fault.copy(),
            },
            DeployError::Deployment(error) => DeployError::Deployment(
                DeploymentError { unit: error.unit, fault: error.fault.copy() },
            ),
            DeployError::Unexpected { step } => DeployError::Unexpected { step: *step },
        }
    }
}

/// What the reason held in a run says, if the run holds one.
pub open spec fn reason(failure: Option<DeployError>) -> Option<DeployErrorView> {
    match failure {
        Some(error) => Some(error@),
        None => None,
    }
}

/// What happened outside since the last step.
#[derive(Debug)]
pub enum Event {
    /// The run is to begin.
    Start,
    /// The compiler ended, with this exit status and this error output.
    CompilerExited { status: Option<i32>, stderr: Vec<u8> },
    /// The compiler could not be started; `cause` is what was reported of it.
    CompilerNotStarted { cause: String },
    /// The file asked for was read, or could not be.
    FileRead(FileRead),
    /// The creation was confirmed; its receipt names this contract, or none.
    Confirmed { contract_address: Option<Address> },
    /// The creation was refused, or its confirmation failed; `cause` is what
    /// was reported of it.
    Rejected { cause: String },
}

/// An `Event` as a plain value.
pub enum EventView {
    Start,
    CompilerExited { status: Option<i32>, stderr: Seq<u8> },
    CompilerNotStarted { cause: Seq<char> },
    FileRead(FileReadView),
    Confirmed { contract_address: Option<Address> },
    Rejected { cause: Seq<char> },
}

impl View for Event {
    type V = EventView;

    open spec fn view(&self) -> EventView {
        match self {
            Event::Start => EventView::Start,
            Event::CompilerExited { status, stderr } => EventView::CompilerExited {
                status: *status,
                stderr: stderr@,
            },
            Event::CompilerNotStarted { cause } => EventView::CompilerNotStarted {
                cause: cause@,
            },
            Event::FileRead(read) => EventView::FileRead(read@),
            Event::Confirmed { contract_address } => EventView::Confirmed {
                contract_address: *contract_address,
            },
            Event::Rejected { cause } => EventView::Rejected { cause: cause@ },
        }
    }
}

/// What is to be done outside before the next step.
#[derive(Debug, PartialEq, Eq)]
pub enum Action {
    /// Run this command and report how it ended.
    RunCompiler(CompilerCommand),
    /// Read the file at this path and report what it holds.
    ReadFile { path: String },
    /// Send this creation, wait for its confirmation and report it.
    Submit(CreationRequest),
    /// Nothing: the registry is deployed.
    Done(RegistryInfo),
    /// Nothing: the run has stopped for this reason.
    Stop(DeployError),
}

/// An `Action` as a plain value.
pub enum ActionView {
    RunCompiler(CommandView),
    ReadFile { path: Seq<char> },
    Submit(CreationView),
    Done(RegistryInfo),
    Stop(DeployErrorView),
}

impl View for Action {
    type V = ActionView;

    open spec fn view(&self) -> ActionView {
        match self {
            Action::RunCompiler(command) => ActionView::RunCompiler(command@),
            Action::ReadFile { path } => ActionView::ReadFile { path: path@ },
            Action::Submit(request) => ActionView::Submit(request@),
            Action::Done(info) => ActionView::Done(*info),
            Action::Stop(error) => ActionView::Stop(error@),
        }
    }
}

/// The seconds between two looks at the chain while a contract creation is waited for.
pub const CONTRACT_POLL_SECONDS: u64 = 7;

/// A run as plain values: what it was given, how far it has come, and why it stopped.
pub struct DeploymentView {
    pub root: Seq<char>,
    pub output_dir: Seq<char>,
    pub packages_dir: Seq<char>,
    pub account: Address,
    pub params: Parameters,
    pub gas_limit: u64,
    pub step: Step,
    pub libraries: Seq<(Seq<char>, Address)>,
    pub contracts: Seq<Address>,
    pub pending: Seq<u8>,
    pub failure: Option<DeployErrorView>,
}

/// The libraries in the order in which they are bound.
pub open spec fn library_at(index: int) -> Unit {
    if index == 0 {
        Unit::Dll
    } else {
        Unit::AttributeStore
    }
}

/// How many libraries are bound while a run waits at `step`.
pub open spec fn bound_before(step: Step) -> nat {
    match step {
        Step::Idle => 0,
        Step::CompilingLibraries => 0,
        Step::Reading(Unit::Dll) => 0,
        Step::ReadingInterface(Unit::Dll) => 0,
        Step::Deploying(Unit::Dll) => 0,
        Step::Reading(Unit::AttributeStore) => 1,
        Step::ReadingInterface(Unit::AttributeStore) => 1,
        Step::Deploying(Unit::AttributeStore) => 1,
        _ => 2,
    }
}

/// How many contracts are on the chain while a run waits at `step`.
pub open spec fn deployed_before(step: Step) -> nat {
    match step {
        Step::Reading(unit) => unit.needs(),
        Step::ReadingInterface(unit) => unit.needs(),
        Step::Deploying(unit) => unit.needs(),
        Step::Finished => 4,
        _ => 0,
    }
}

/// How far a run has come, as a number that only grows.
pub open spec fn progress(step: Step) -> nat {
    match step {
        Step::Idle => 0,
        Step::CompilingLibraries => 1,
        Step::Reading(Unit::Dll) => 2,
        Step::ReadingInterface(Unit::Dll) => 3,
        Step::Deploying(Unit::Dll) => 4,
        Step::Reading(Unit::AttributeStore) => 5,
        Step::ReadingInterface(Unit::AttributeStore) => 6,
        Step::Deploying(Unit::AttributeStore) => 7,
        Step::CompilingContracts => 8,
        Step::Reading(Unit::Token) => 9,
        Step::ReadingInterface(Unit::Token) => 10,
        Step::Deploying(Unit::Token) => 11,
        Step::Reading(Unit::Voting) => 12,
        Step::ReadingInterface(Unit::Voting) => 13,
        Step::Deploying(Unit::Voting) => 14,
        Step::Reading(Unit::Parameterizer) => 15,
        Step::ReadingInterface(Unit::Parameterizer) => 16,
        Step::Deploying(Unit::Parameterizer) => 17,
        Step::Reading(Unit::Registry) => 18,
        Step::ReadingInterface(Unit::Registry) => 19,
        Step::Deploying(Unit::Registry) => 20,
        Step::Finished => 21,
    }
}

/// The stage that a step belongs to.
pub open spec fn stage_of(step: Step) -> Stage {
    match step {
        Step::Idle => Stage::CompileLibraries,
        Step::CompilingLibraries => Stage::CompileLibraries,
        Step::Reading(unit) => unit.stage(),
        Step::ReadingInterface(unit) => unit.stage(),
        Step::Deploying(unit) => unit.stage(),
        Step::CompilingContracts => Stage::CompileLinkedContracts,
        Step::Finished => Stage::DeployContracts,
    }
}

impl DeploymentView {
    /// What a run holds agrees with how far it has come: the libraries
    /// bound so far are the first of the fixed order under their names, as
    /// many contracts are on the chain as the step says, and no interface
    /// is read for a library.
    pub open spec fn consistent(self) -> bool {
        &&& self.libraries.len() == bound_before(self.step)
        &&& forall|i: int|
            0 <= i < self.libraries.len() ==> (#[trigger] self.libraries[i]).0 == library_at(
                i,
            ).name_text()
        &&& self.contracts.len() == deployed_before(self.step)
        &&& match self.step {
            Step::ReadingInterface(unit) => !unit.is_library(),
            _ => true,
        }
    }

    /// The run as it begins.
    pub open spec fn initial(
        root: Seq<char>,
        output_dir: Seq<char>,
        packages_dir: Seq<char>,
        account: Address,
        params: Parameters,
        gas_limit: u64,
    ) -> DeploymentView {
        DeploymentView {
            root,
            output_dir,
            packages_dir,
            account,
            params,
            gas_limit,
            step: Step::Idle,
            libraries: Seq::empty(),
            contracts: Seq::empty(),
            pending: Seq::empty(),
            failure: None,
        }
    }

    /// Where the artifact `file` lies.
    pub open spec fn artifact(self, file: Seq<char>) -> Seq<char> {
        path_of(self.root, self.output_dir, file)
    }

    /// The run stopped for `error`, where it stands.
    pub open spec fn failed(self, error: DeployErrorView) -> (DeploymentView, ActionView) {
        (DeploymentView { failure: Some(error), ..self }, ActionView::Stop(error))
    }

    /// The run waiting for the bytecode of `unit`.
    pub open spec fn reading(self, unit: Unit) -> (DeploymentView, ActionView) {
        (
            DeploymentView { step: Step::Reading(unit), pending: Seq::empty(), ..self },
            ActionView::ReadFile { path: self.artifact(unit.bin_text()) },
        )
    }

    /// The creation of the contract `unit` from the bytecode at hand and `interface`.
    pub open spec fn contract_creation(self, unit: Unit, interface: Seq<u8>) -> CreationView {
        CreationView {
            from: self.account,
            bytecode: self.pending,
            interface: Some(interface),
            arguments: constructor_arguments(unit, self.contracts, self.params),
            gas: self.gas_limit,
            confirmations: 0,
            poll_seconds: CONTRACT_POLL_SECONDS,
        }
    }

    /// The contracts of the registry, once all four are on the chain.
    pub open spec fn info(self) -> RegistryInfo {
        RegistryInfo { registry: self.contracts[3], token: self.contracts[0], voting: self.contracts[1] }
    }

    /// The run after the compiler ended while it waited at `stage`, going on with `unit`.
    pub open spec fn compiled(
        self,
        stage: Stage,
        verdict: Result<(), CompileErrorView>,
        unit: Unit,
    ) -> (
        DeploymentView,
        ActionView,
    ) {
        match verdict {
            Ok(_) => self.reading(unit),
            Err(error) => self.failed(DeployErrorView::Compile { stage, error }),
        }
    }

    /// The run after `unit` was created at `address`.
    pub open spec fn deployed(self, unit: Unit, address: Address) -> (DeploymentView, ActionView) {
        match unit {
            Unit::Dll => DeploymentView {
                libraries: self.libraries.push((unit.name_text(), address)),
                ..self
            }.reading(Unit::AttributeStore),
            Unit::AttributeStore => {
                let libraries = self.libraries.push((unit.name_text(), address));
                (
                    DeploymentView {
                        libraries,
                        step: Step::CompilingContracts,
                        pending: Seq::empty(),
                        ..self
                    },
                    ActionView::RunCompiler(
                        linked_pass(
                            self.root,
                            self.output_dir,
                            Seq::empty(),
                            self.packages_dir,
                            libraries,
                        ).command(),
                    ),
                )
            },
            Unit::Token => DeploymentView {
                contracts: self.contracts.push(address),
                ..self
            }.reading(Unit::Voting),
            Unit::Voting => DeploymentView {
                contracts: self.contracts.push(address),
                ..self
            }.reading(Unit::Parameterizer),
            Unit::Parameterizer => DeploymentView {
                contracts: self.contracts.push(address),
                ..self
            }.reading(Unit::Registry),
            Unit::Registry => {
                let done = DeploymentView {
                    contracts: self.contracts.push(address),
                    step: Step::Finished,
                    pending: Seq::empty(),
                    ..self
                };
                (done, ActionView::Done(done.info()))
            },
        }
    }

    /// One step of a run: the run after `event`, and what is to be done next.
    ///
    /// A run that has stopped stays as it is and says again why it stopped.
    /// A finished run stays as it is and names the registry again. A
    /// creation that is reported as rejected stops the run with the unit
    /// and the cause that was reported. An event that does not answer what
    /// the run was waiting for stops the run.
    pub open spec fn step(self, event: EventView) -> (DeploymentView, ActionView) {
        if let Some(error) = self.failure {
            (self, ActionView::Stop(error))
        } else {
            match (self.step, event) {
                (Step::Idle, EventView::Start) => (
                    DeploymentView { step: Step::CompilingLibraries, ..self },
                    ActionView::RunCompiler(
                        library_pass(
                            self.root,
                            self.output_dir,
                            Seq::empty(),
                            self.packages_dir,
                        ).command(),
                    ),
                ),
                (Step::CompilingLibraries, EventView::CompilerExited { status, stderr }) => {
                    self.compiled(
                        Stage::CompileLibraries,
                        exit_verdict(status, stderr),
                        Unit::Dll,
                    )
                },
                (Step::CompilingLibraries, EventView::CompilerNotStarted { cause }) => self.failed(
                    DeployErrorView::Compile {
                        stage: Stage::CompileLibraries,
                        error: CompileErrorView::NotStarted { cause },
                    },
                ),
                (Step::CompilingContracts, EventView::CompilerExited { status, stderr }) => {
                    self.compiled(
                        Stage::CompileLinkedContracts,
                        exit_verdict(status, stderr),
                        Unit::Token,
                    )
                },
                (Step::CompilingContracts, EventView::CompilerNotStarted { cause }) => self.failed(
                    DeployErrorView::Compile {
                        stage: Stage::CompileLinkedContracts,
                        error: CompileErrorView::NotStarted { cause },
                    },
                ),
                (Step::Reading(unit), EventView::FileRead(read)) => match loaded_bytecode(read) {
                    Err(fault) => self.failed(DeployErrorView::Artifact { unit, fault }),
                    Ok(code) => if unit.is_library() {
                        (
                            DeploymentView { step: Step::Deploying(unit), pending: code, ..self },
                            ActionView::Submit(
                                library_creation(code, self.account, LIBRARY_GAS_LIMIT),
                            ),
                        )
                    } else {
                        (
                            DeploymentView {
                                step: Step::ReadingInterface(unit),
                                pending: code,
                                ..self
                            },
                            ActionView::ReadFile { path: self.artifact(unit.abi_text()) },
                        )
                    },
                },
                (Step::ReadingInterface(unit), EventView::FileRead(read)) => match loaded_abi(
                    read,
                ) {
                    Err(fault) => self.failed(DeployErrorView::Artifact { unit, fault }),
                    Ok(interface) => (
                        DeploymentView { step: Step::Deploying(unit), ..self },
                        ActionView::Submit(self.contract_creation(unit, interface)),
                    ),
                },
                (Step::Deploying(unit), EventView::Confirmed { contract_address }) => {
                    match contract_address {
                        Some(address) => self.deployed(unit, address),
                        None => self.failed(
                            DeployErrorView::Deployment(
                                DeploymentErrorView { unit, fault: DeploymentFaultView::NoAddress },
                            ),
                        ),
                    }
                },
                (Step::Deploying(unit), EventView::Rejected { cause }) => self.failed(
                    DeployErrorView::Deployment(
                        DeploymentErrorView {
                            unit,
                            fault: DeploymentFaultView::Rejected { cause },
                        },
                    ),
                ),
                (Step::Finished, _) => (self, ActionView::Done(self.info())),
                _ => self.failed(DeployErrorView::Unexpected { step: self.step }),
            }
        }
    }
}

/// A run that has stopped stays stopped: every further step leaves it as it
/// is and gives the reason again, so nothing more is compiled, read or sent.
pub proof fn lemma_failure_is_final(run: DeploymentView, event: EventView)
    requires
        run.failure is Some,
    ensures
        run.step(event).0 == run,
        run.step(event).1 == ActionView::Stop(run.failure.unwrap()),
{
}

/// A rejected creation stops the run for exactly the cause that was
/// reported, under the unit whose creation it was.
pub proof fn lemma_rejection_keeps_its_cause(run: DeploymentView, unit: Unit, cause: Seq<char>)
    requires
        run.failure is None,
        run.step == Step::Deploying(unit),
    ensures
        ({
            let error = DeployErrorView::Deployment(
                DeploymentErrorView { unit, fault: DeploymentFaultView::Rejected { cause } },
            );
            let after = run.step(EventView::Rejected { cause });
            after.0.failure == Some(error) && after.1 == ActionView::Stop(error)
        }),
{
}

/// A run never goes back: a step leaves it where it was or takes it forward.
pub proof fn lemma_steps_go_forward(run: DeploymentView, event: EventView)
    ensures
        progress(run.step(event).0.step) >= progress(run.step),
{
}

/// A step that stops a run leaves what was deployed so far as it was.
pub proof fn lemma_failure_keeps_what_is_deployed(run: DeploymentView, event: EventView)
    requires
        run.step(event).0.failure is Some,
    ensures
        run.step(event).0.libraries == run.libraries,
        run.step(event).0.contracts == run.contracts,
        run.step(event).0.step == run.step,
        run.step(event).1 is Stop,
{
}

/// What is on the chain stays: a step keeps every library binding and
/// every contract address in its place, and adds at most one.
pub proof fn lemma_steps_keep_what_is_deployed(run: DeploymentView, event: EventView)
    ensures
        run.libraries.is_prefix_of(run.step(event).0.libraries),
        run.contracts.is_prefix_of(run.step(event).0.contracts),
        run.step(event).0.libraries.len() + run.step(event).0.contracts.len()
            <= run.libraries.len() + run.contracts.len() + 1,
{
    let next = run.step(event).0;
    assert(run.libraries.is_prefix_of(next.libraries)) by {
        assert(next.libraries.len() >= run.libraries.len());
        assert(next.libraries.subrange(0, run.libraries.len() as int) =~= run.libraries);
    }
    assert(run.contracts.is_prefix_of(next.contracts)) by {
        assert(next.contracts.len() >= run.contracts.len());
        assert(next.contracts.subrange(0, run.contracts.len() as int) =~= run.contracts);
    }
}

/// Every step keeps what a run holds in agreement with how far it has come.
pub proof fn lemma_steps_keep_consistency(run: DeploymentView, event: EventView)
    requires
        run.consistent(),
    ensures
        run.step(event).0.consistent(),
{
}

/// The second compiler pass is given exactly the addresses of the
/// libraries that were bound, in the order of their deployment.
pub proof fn lemma_linked_pass_takes_bindings(run: DeploymentView, address: Address)
    requires
        run.consistent(),
        run.failure is None,
        run.step == Step::Deploying(Unit::AttributeStore),
    ensures
        ({
            let event = EventView::Confirmed { contract_address: Some(address) };
            let bound = seq![run.libraries[0], (Unit::AttributeStore.name_text(), address)];
            run.step(event).0.libraries == bound && run.step(event).1 == ActionView::RunCompiler(
                linked_pass(
                    run.root,
                    run.output_dir,
                    Seq::empty(),
                    run.packages_dir,
                    bound,
                ).command(),
            )
        }),
{
    let bound = seq![run.libraries[0], (Unit::AttributeStore.name_text(), address)];
    assert(run.libraries.push((Unit::AttributeStore.name_text(), address)) =~= bound);
}

/// One deployment run: what it was given and how far it has come.
#[derive(Debug)]
pub struct Deployment {
    compiler: Solc,
    packages_dir: String,
    account: Address,
    params: Parameters,
    gas_limit: u64,
    step: Step,
    libraries: LibraryRegistry,
    contracts: Vec<Address>,
    pending: Vec<u8>,
    failure: Option<DeployError>,
}

impl View for Deployment {
    type V = DeploymentView;

    closed spec fn view(&self) -> DeploymentView {
        DeploymentView {
            root: self.compiler.root_text(),
            output_dir: self.compiler.output_text().unwrap(),
            packages_dir: self.packages_dir@,
            account: self.account,
            params: self.params,
            gas_limit: self.gas_limit,
            step: self.step,
            libraries: self.libraries@,
            contracts: self.contracts@,
            pending: self.pending@,
            failure: reason(self.failure),
        }
    }
}

impl Deployment {
    /// The run has an output directory, and what it holds agrees with how
    /// far it has come.
    pub closed spec fn valid(&self) -> bool {
        self.grounded() && self@.consistent()
    }

    spec fn grounded(&self) -> bool {
        &&& self.compiler.output_text() is Some
        &&& self.compiler.allowed() == Seq::<Seq<char>>::empty()
        &&& self.libraries.valid()
    }

    /// A valid run is consistent.
    pub proof fn lemma_valid_is_consistent(&self)
        requires
            self.valid(),
        ensures
            self@.consistent(),
    {
    }

    /// A run that has not begun. `packages_dir` is the absolute path of the
    /// installed packages; `account` pays for every creation.
    pub fn new(config: &Config, packages_dir: &str, account: Address) -> (run: Deployment)
        ensures
            run.valid(),
            run@ == DeploymentView::initial(
                config.source_dir(),
                config.build_dir(),
                packages_dir@,
                account,
                config.parameters(),
                config.gas(),
            ),
    {
        let mut compiler = Solc::new(config.tcr_dir());
        compiler.set_output_dir(config.compiler_build_dir());
        Deployment {
            compiler,
            packages_dir: String::from_str(packages_dir),
            account,
            params: config.params(),
            gas_limit: config.gas_limit(),
            step: Step::Idle,
            libraries: LibraryRegistry::new(),
            contracts: Vec::new(),
            pending: Vec::new(),
            failure: None,
        }
    }

    /// What the run is waiting for.
    pub fn step(&self) -> (step: Step)
        ensures
            step == self@.step,
    {
        self.step
    }

    /// Why the run stopped, if it has.
    pub fn failure(&self) -> (failure: Option<DeployError>)
        ensures
            reason(failure) == self@.failure,
    {
        match &self.failure {
            Some(error) => Some(error.copy()),
            None => None,
        }
    }

    /// The libraries bound so far.
    pub fn libraries(&self) -> (libraries: &LibraryRegistry)
        requires
            self.valid(),
        ensures
            libraries@ == self@.libraries,
            libraries.valid(),
    {
        &self.libraries
    }

    /// The stage that the run is in.
    pub fn stage(&self) -> (stage: Stage)
        ensures
            stage == stage_of(self@.step),
    {
        match self.step {
            Step::Idle => Stage::CompileLibraries,
            Step::CompilingLibraries => Stage::CompileLibraries,
            Step::Reading(unit) => stage_of_unit(unit),
            Step::ReadingInterface(unit) => stage_of_unit(unit),
            Step::Deploying(unit) => stage_of_unit(unit),
            Step::CompilingContracts => Stage::CompileLinkedContracts,
            Step::Finished => Stage::DeployContracts,
        }
    }

    fn fail(&mut self, error: DeployError) -> (action: Action)
        requires
            old(self).valid(),
        ensures
            final(self).valid(),
            final(self)@ == old(self)@.failed(error@).0,
            action@ == old(self)@.failed(error@).1,
    {
        let reported = error.copy();
        self.failure = Some(error);
        Action::Stop(reported)
    }

    fn read(&mut self, unit: Unit) -> (action: Action)
        requires
            old(self).grounded(),
            old(self)@.reading(unit).0.consistent(),
        ensures
            final(self).valid(),
            final(self)@ == old(self)@.reading(unit).0,
            action@ == old(self)@.reading(unit).1,
    {
        self.step = Step::Reading(unit);
        self.pending = Vec::new();
        let file = unit.bin_name();
        let path = self.compiler.artifact_path(file.as_str());
        proof {
            assert(self.pending@ =~= Seq::<u8>::empty());
        }
        Action::ReadFile { path }
    }

    fn begin(&mut self) -> (action: Action)
        requires
            old(self).valid(),
            old(self)@.failure is None,
            old(self)@.step == Step::Idle,
        ensures
            final(self).valid(),
            final(self)@ == old(self)@.step(EventView::Start).0,
            action@ == old(self)@.step(EventView::Start).1,
    {
        let invocation = compile_libraries(&self.compiler, self.packages_dir.as_str());
        match invocation.execute() {
            Ok(command) => {
                self.step = Step::CompilingLibraries;
                Action::RunCompiler(command)
            },
            Err(_) => {
                proof {
                    assert(invocation@.sources.len() == 2);
                }
                vstd::pervasive::unreached()
            },
        }
    }

    fn compiled(&mut self, stage: Stage, verdict: Result<(), CompileError>, unit: Unit) -> (action:
        Action)
        requires
            old(self).valid(),
            old(self)@.reading(unit).0.consistent(),
        ensures
            final(self).valid(),
            final(self)@ == old(self)@.compiled(stage, verdict_view(verdict), unit).0,
            action@ == old(self)@.compiled(stage, verdict_view(verdict), unit).1,
    {
        match verdict {
            Ok(_) => self.read(unit),
            Err(error) => self.fail(DeployError::Compile { stage, error }),
        }
    }

    fn loaded(&mut self, unit: Unit, read: FileRead) -> (action: Action)
        requires
            old(self).valid(),
            old(self)@.failure is None,
            old(self)@.step == Step::Reading(unit),
        ensures
            final(self).valid(),
            final(self)@ == old(self)@.step(EventView::FileRead(read@)).0,
            action@ == old(self)@.step(EventView::FileRead(read@)).1,
    {
        let file = unit.bin_name();
        match self.compiler.load_bytecode(file.as_str(), read) {
            Err(error) => self.fail(DeployError::Artifact { unit, fault: error.fault }),
            Ok(code) => {
                if unit.library() {
                    let request = Library::creation_request(
                        &code,
                        self.account,
                        LIBRARY_GAS_LIMIT,
                    );
                    self.pending = code;
                    self.step = Step::Deploying(unit);
                    Action::Submit(request)
                } else {
                    self.pending = code;
                    self.step = Step::ReadingInterface(unit);
                    let file = unit.abi_name();
                    Action::ReadFile { path: self.compiler.artifact_path(file.as_str()) }
                }
            },
        }
    }

    fn described(&mut self, unit: Unit, read: FileRead) -> (action: Action)
        requires
            old(self).valid(),
            old(self)@.failure is None,
            old(self)@.step == Step::ReadingInterface(unit),
        ensures
            final(self).valid(),
            final(self)@ == old(self)@.step(EventView::FileRead(read@)).0,
            action@ == old(self)@.step(EventView::FileRead(read@)).1,
    {
        let file = unit.abi_name();
        match self.compiler.load_abi(file.as_str(), read) {
            Err(error) => self.fail(DeployError::Artifact { unit, fault: error.fault }),
            Ok(interface) => {
                let request = CreationRequest {
                    from: self.account,
                    bytecode: copy_bytes(&self.pending),
                    interface: Some(interface),
                    arguments: constructor(unit, &self.contracts, &self.params),
                    gas: self.gas_limit,
                    confirmations: 0,
                    poll_seconds: CONTRACT_POLL_SECONDS,
                };
                self.step = Step::Deploying(unit);
                Action::Submit(request)
            },
        }
    }

    fn deploy_libraries(&mut self, unit: Unit, address: Address) -> (action: Action)
        requires
            old(self).valid(),
            old(self)@.failure is None,
            old(self)@.step == Step::Deploying(unit),
            unit.is_library(),
        ensures
            final(self).valid(),
            final(self)@ == old(self)@.deployed(unit, address).0,
            action@ == old(self)@.deployed(unit, address).1,
    {
        proof {
            reveal_strlit("DLL");
            reveal_strlit("AttributeStore");
            assert("DLL"@.len() != "AttributeStore"@.len());
            let held = self.libraries@;
            if unit == Unit::AttributeStore {
                assert(held.len() == 1);
                assert(held[0].0 == library_at(0).name_text());
                assert(held.last().0 != unit.name_text());
                assert(held.drop_last().len() == 0);
                assert(crate::libraries::lookup(held.drop_last(), unit.name_text()) is None);
            } else {
                assert(held.len() == 0);
            }
            assert(crate::libraries::lookup(held, unit.name_text()) is None);
        }
        let bound = self.libraries.bind(unit.name(), address);
        match bound {
            Err(_) => vstd::pervasive::unreached(),
            Ok(_) => {
                match unit {
                    Unit::Dll => self.read(Unit::AttributeStore),
                    _ => {
                        let invocation = compile_contracts(
                            &self.compiler,
                            &self.libraries,
                            self.packages_dir.as_str(),
                        );
                        match invocation.execute() {
                            Ok(command) => {
                                self.step = Step::CompilingContracts;
                                self.pending = Vec::new();
                                proof {
                                    assert(self.pending@ =~= Seq::<u8>::empty());
                                }
                                Action::RunCompiler(command)
                            },
                            Err(_) => {
                                proof {
                                    assert(invocation@.sources.len() == 3);
                                    assert(invocation@.libraries.len() == 2);
                                }
                                vstd::pervasive::unreached()
                            },
                        }
                    },
                }
            },
        }
    }

    fn deploy_contracts(&mut self, unit: Unit, address: Address) -> (action: Action)
        requires
            old(self).valid(),
            old(self)@.failure is None,
            old(self)@.step == Step::Deploying(unit),
            !unit.is_library(),
        ensures
            final(self).valid(),
            final(self)@ == old(self)@.deployed(unit, address).0,
            action@ == old(self)@.deployed(unit, address).1,
    {
        self.contracts.push(address);
        match unit {
            Unit::Token => self.read(Unit::Voting),
            Unit::Voting => self.read(Unit::Parameterizer),
            Unit::Parameterizer => self.read(Unit::Registry),
            _ => {
                self.step = Step::Finished;
                self.pending = Vec::new();
                proof {
                    assert(self.pending@ =~= Seq::<u8>::empty());
                }
                Action::Done(self.info())
            },
        }
    }

    fn info(&self) -> (info: RegistryInfo)
        requires
            self.contracts@.len() == 4,
        ensures
            info == self@.info(),
    {
        RegistryInfo {
            registry: self.contracts[3],
            token: self.contracts[0],
            voting: self.contracts[1],
        }
    }
}

fn stage_of_unit(unit: Unit) -> (stage: Stage)
    ensures
        stage == unit.stage(),
{
    if unit.library() {
        Stage::DeployLibraries
    } else {
        Stage::DeployContracts
    }
}

/// Takes a run one step further: `event` says what happened outside since
/// the last step, and the result says what is to be done next. The run
/// begins with `Event::Start`. Every other event is the report on the
/// action that the step before asked for.
pub fn deploy(run: &mut Deployment, event: Event) -> (action: Action)
    requires
        old(run).valid(),
    ensures
        final(run).valid(),
        final(run)@ == old(run)@.step(event@).0,
        action@ == old(run)@.step(event@).1,
{
    match &run.failure {
        Some(error) => {
            return Action::Stop(error.copy());
        },
        None => {},
    }
    let step = run.step;
    match step {
        Step::Idle => match event {
            Event::Start => run.begin(),
            _ => run.fail(DeployError::Unexpected { step }),
        },
        Step::CompilingLibraries => match event {
            Event::CompilerExited { status, stderr } => run.compiled(
                Stage::CompileLibraries,
                judge_exit(status, stderr.as_slice()),
                Unit::Dll,
            ),
            Event::CompilerNotStarted { cause } => run.fail(
                DeployError::Compile {
                    stage: Stage::CompileLibraries,
                    error: CompileError::NotStarted { cause },
                },
            ),
            _ => run.fail(DeployError::Unexpected { step }),
        },
        Step::CompilingContracts => match event {
            Event::CompilerExited { status, stderr } => run.compiled(
                Stage::CompileLinkedContracts,
                judge_exit(status, stderr.as_slice()),
                Unit::Token,
            ),
            Event::CompilerNotStarted { cause } => run.fail(
                DeployError::Compile {
                    stage: Stage::CompileLinkedContracts,
                    error: CompileError::NotStarted { cause },
                },
            ),
            _ => run.fail(DeployError::Unexpected { step }),
        },
        Step::Reading(unit) => match event {
            Event::FileRead(read) => run.loaded(unit, read),
            _ => run.fail(DeployError::Unexpected { step }),
        },
        Step::ReadingInterface(unit) => match event {
            Event::FileRead(read) => run.described(unit, read),
            _ => run.fail(DeployError::Unexpected { step }),
        },
        Step::Deploying(unit) => match event {
            Event::Confirmed { contract_address } => {
                if unit.library() {
                    match Library::deploy(copy_bytes(&run.pending), contract_address) {
                        Ok(library) => run.deploy_libraries(unit, library.address()),
                        Err(fault) => run.fail(
                            DeployError::Deployment(DeploymentError { unit, fault }),
                        ),
                    }
                } else {
                    match contract_address {
                        Some(address) => run.deploy_contracts(unit, address),
                        None => run.fail(
                            DeployError::Deployment(
                                DeploymentError { unit, fault: DeploymentFault::NoAddress },
                            ),
                        ),
                    }
                }
            },
            Event::Rejected { cause } => run.fail(
                DeployError::Deployment(
                    DeploymentError { unit, fault: DeploymentFault::Rejected { cause } },
                ),
            ),
            _ => run.fail(DeployError::Unexpected { step }),
        },
        Step::Finished => {
            proof {
                run.lemma_valid_is_consistent();
            }
            Action::Done(run.info())
        },
    }
}

} // verus!
