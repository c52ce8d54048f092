//! The startup sequence: which paths to probe, whether to launch the backend,
//! and from where.
//!
//! A [`Startup`] asks one thing of the host at a time, as a [`Request`], and
//! the host reports the outcome. It first resolves the bundled runtime and
//! the bundled service directory. Where both are found it launches from them.
//! Otherwise it looks for the service's source tree near the executable and
//! launches from there. Where neither is present the application goes on
//! without a backend. A launch that fails ends the sequence with a request to
//! abort: a failed launch is never followed by another attempt.

use crate::launch::{
    LaunchMode, LaunchPlan, PlanModel, DEVELOPMENT_TREE, RUNTIME_NAME, SERVICE_NAME,
};
use crate::locator::{
    candidate_paths, law_search_resolves, resolve_resource, resolved, Search, SearchState,
};
use crate::paths::{join, joined};
use crate::supervisor::{Phase, Supervisor, SupervisorState};
use vstd::prelude::*;

verus! {

/// What the host knows of the place it runs in.
#[derive(Debug, PartialEq, Eq)]
pub struct Environment {
    /// The path the host framework gives for [`RUNTIME_NAME`] in its
    /// packaged-resource directory, if it can give one.
    pub packaged_runtime: Option<String>,
    /// The path the host framework gives for [`SERVICE_NAME`] in its
    /// packaged-resource directory, if it can give one.
    pub packaged_service: Option<String>,
    /// The directory that holds the running executable, if it is known.
    pub exe_dir: Option<String>,
}

/// The host's environment, as a mathematical value.
pub struct EnvironmentModel {
    /// The packaged path of the runtime, if the host framework gives one.
    pub packaged_runtime: Option<Seq<char>>,
    /// The packaged path of the service directory, if the host framework
    /// gives one.
    pub packaged_service: Option<Seq<char>>,
    /// The directory that holds the running executable, if it is known.
    pub exe_dir: Option<Seq<char>>,
}

impl View for Environment {
    type V = EnvironmentModel;

    open spec fn view(&self) -> EnvironmentModel {
        EnvironmentModel {
            packaged_runtime: self.packaged_runtime.deep_view(),
            packaged_service: self.packaged_service.deep_view(),
            exe_dir: self.exe_dir.deep_view(),
        }
    }
}

impl EnvironmentModel {
    /// The candidate paths of the bundled runtime.
    pub open spec fn runtime_candidates(self) -> Seq<Seq<char>> {
        candidate_paths(self.packaged_runtime, self.exe_dir, RUNTIME_NAME@)
    }

    /// The candidate paths of the bundled service directory.
    pub open spec fn service_candidates(self) -> Seq<Seq<char>> {
        candidate_paths(self.packaged_service, self.exe_dir, SERVICE_NAME@)
    }

    /// The one place where the service's source tree may lie: three levels
    /// above the executable's directory. Without that directory there is no
    /// such place.
    pub open spec fn tree_candidates(self) -> Seq<Seq<char>> {
        match self.exe_dir {
            Some(dir) => seq![joined(dir, DEVELOPMENT_TREE@)],
            None => Seq::empty(),
        }
    }
}

/// How far the launch of the backend has come.
#[derive(Clone, Copy, Debug, PartialEq, Eq, Structural)]
pub enum LaunchStatus {
    /// No launch was reported.
    NotAttempted,
    /// The backend process was started.
    Succeeded,
    /// The backend process could not be started.
    Failed,
}

/// What the host has to do next.
#[derive(Debug, PartialEq, Eq)]
pub enum Request {
    /// Report whether this path exists.
    Probe(String),
    /// Determine the path of the database file in the application's data
    /// directory, create the directory that is to hold it, and report both.
    PrepareData,
    /// Start the backend process as planned, and report whether it started.
    Launch(LaunchPlan),
    /// Nothing is left to do. The backend runs in the given mode, or not at
    /// all.
    Done(Option<LaunchMode>),
    /// The launch in the given mode failed: startup must fail.
    Abort(LaunchMode),
}

/// A request to the host, as a mathematical value.
pub enum RequestModel {
    /// Report whether this path exists.
    Probe(Seq<char>),
    /// Report the path of the database file, with its directory prepared.
    PrepareData,
    /// Start the backend process as planned.
    Launch(PlanModel),
    /// Nothing is left to do.
    Done(Option<LaunchMode>),
    /// The launch in the given mode failed.
    Abort(LaunchMode),
}

impl View for Request {
    type V = RequestModel;

    open spec fn view(&self) -> RequestModel {
        match self {
            Request::Probe(path) => RequestModel::Probe(path@),
            Request::PrepareData => RequestModel::PrepareData,
            Request::Launch(plan) => RequestModel::Launch(plan@),
            Request::Done(mode) => RequestModel::Done(*mode),
            Request::Abort(mode) => RequestModel::Abort(*mode),
        }
    }
}

/// A report of the host, as a mathematical value.
pub enum Event {
    /// Whether the probed path exists.
    Probed(bool),
    /// The path of the database file, and whether the directory that is to
    /// hold it is there.
    DataPrepared(Seq<char>, bool),
    /// The backend process was started.
    Launched,
    /// The backend process could not be started.
    LaunchFailed,
}

/// Whether `event` is a report on what `request` asks for.
pub open spec fn answers(event: Event, request: RequestModel) -> bool {
    match (request, event) {
        (RequestModel::Probe(_), Event::Probed(_)) => true,
        (RequestModel::PrepareData, Event::DataPrepared(_, _)) => true,
        (RequestModel::Launch(_), Event::Launched) => true,
        (RequestModel::Launch(_), Event::LaunchFailed) => true,
        _ => false,
    }
}

/// What the probes have decided so far.
pub enum Decision {
    /// A probe is outstanding for this path.
    Undecided(Seq<char>),
    /// The backend is launched in this mode, with this program, in this
    /// directory.
    Launch(LaunchMode, Seq<char>, Seq<char>),
    /// There is nothing to launch the backend from.
    NoBackend,
}

/// How many candidates of a search may still be probed.
pub open spec fn open_probes_of(search: SearchState) -> nat {
    if search.finished() {
        0
    } else {
        (search.candidates.len() - search.cursor) as nat
    }
}

/// The state of a startup sequence, as a mathematical value.
#[verifier::ext_equal]
pub struct StartupState {
    /// The search for the bundled runtime.
    pub runtime: SearchState,
    /// The search for the bundled service directory.
    pub service: SearchState,
    /// The search for the service's source tree.
    pub tree: SearchState,
    /// The database path, once the host has reported it.
    pub database_path: Option<Seq<char>>,
    /// How far the launch has come.
    pub launch: LaunchStatus,
}

impl StartupState {
    /// The state before the host was asked anything.
    pub open spec fn begin(env: EnvironmentModel) -> StartupState {
        StartupState {
            runtime: SearchState::start(env.runtime_candidates()),
            service: SearchState::start(env.service_candidates()),
            tree: SearchState::start(env.tree_candidates()),
            database_path: None,
            launch: LaunchStatus::NotAttempted,
        }
    }

    /// Every search is well formed.
    pub open spec fn wf(self) -> bool {
        self.runtime.wf() && self.service.wf() && self.tree.wf()
    }

    /// Whether both the bundled runtime and the bundled service directory
    /// were found.
    pub open spec fn bundle_found(self) -> bool {
        self.runtime.outcome() is Some && self.service.outcome() is Some
    }

    /// What the probes reported so far decide. The runtime is resolved
    /// first, then the service directory. The source tree is looked for only
    /// when one of the two was not found.
    pub open spec fn decision(self) -> Decision {
        if !self.runtime.finished() {
            Decision::Undecided(self.runtime.pending().unwrap())
        } else if !self.service.finished() {
            Decision::Undecided(self.service.pending().unwrap())
        } else if self.bundle_found() {
            Decision::Launch(
                LaunchMode::Bundled,
                self.runtime.outcome().unwrap(),
                self.service.outcome().unwrap(),
            )
        } else if !self.tree.finished() {
            Decision::Undecided(self.tree.pending().unwrap())
        } else if self.tree.outcome() is Some {
            Decision::Launch(LaunchMode::Development, RUNTIME_NAME@, self.tree.outcome().unwrap())
        } else {
            Decision::NoBackend
        }
    }

    /// The mode of the launch that the probes have settled on, if they have.
    pub open spec fn launch_mode(self) -> Option<LaunchMode> {
        match self.decision() {
            Decision::Launch(mode, _, _) => Some(mode),
            _ => None,
        }
    }

    /// What is asked of the host once a launch is decided: first the
    /// database path, then the launch itself; after the launch was reported,
    /// nothing more.
    pub open spec fn launch_request(
        self,
        mode: LaunchMode,
        program: Seq<char>,
        working_dir: Seq<char>,
    ) -> RequestModel {
        match self.launch {
            LaunchStatus::Succeeded => RequestModel::Done(Some(mode)),
            LaunchStatus::Failed => RequestModel::Abort(mode),
            LaunchStatus::NotAttempted => match self.database_path {
                None => RequestModel::PrepareData,
                Some(database_path) => RequestModel::Launch(
                    PlanModel { mode, program, working_dir, database_path },
                ),
            },
        }
    }

    /// What the host has to do next.
    pub open spec fn request(self) -> RequestModel {
        match self.decision() {
            Decision::Undecided(path) => RequestModel::Probe(path),
            Decision::NoBackend => RequestModel::Done(None),
            Decision::Launch(mode, program, working_dir) => self.launch_request(
                mode,
                program,
                working_dir,
            ),
        }
    }

    /// The state after the host reported whether the pending path exists.
    pub open spec fn probed(self, exists: bool) -> StartupState {
        if !self.runtime.finished() {
            StartupState { runtime: self.runtime.answer(exists), ..self }
        } else if !self.service.finished() {
            StartupState { service: self.service.answer(exists), ..self }
        } else {
            StartupState { tree: self.tree.answer(exists), ..self }
        }
    }

    /// The state after a report of the host. A report that does not answer
    /// the current request changes nothing. Whether the data directory is
    /// there has no bearing on what follows.
    pub open spec fn on(self, event: Event) -> StartupState {
        match (self.request(), event) {
            (RequestModel::Probe(_), Event::Probed(exists)) => self.probed(exists),
            (RequestModel::PrepareData, Event::DataPrepared(database_path, _)) => StartupState {
                database_path: Some(database_path),
                ..self
            },
            (RequestModel::Launch(_), Event::Launched) => StartupState {
                launch: LaunchStatus::Succeeded,
                ..self
            },
            (RequestModel::Launch(_), Event::LaunchFailed) => StartupState {
                launch: LaunchStatus::Failed,
                ..self
            },
            _ => self,
        }
    }

    /// The state after a sequence of reports.
    pub open spec fn replay(self, events: Seq<Event>) -> StartupState
        decreases events.len(),
    {
        if events.len() == 0 {
            self
        } else {
            self.on(events[0]).replay(events.skip(1))
        }
    }

    /// Whether the sequence has ended with the backend running.
    pub open spec fn running(self) -> bool {
        self.launch_mode() is Some && self.launch == LaunchStatus::Succeeded
    }

    /// How many probes may still be asked for, at most.
    pub open spec fn open_probes(self) -> nat {
        open_probes_of(self.runtime) + open_probes_of(self.service) + open_probes_of(self.tree)
    }

    /// How many requests may still be made of the host, at most: the open
    /// probes, one for the database path and one for the launch.
    pub open spec fn open_requests(self) -> nat {
        let prepare: nat = if self.database_path is None {
            1
        } else {
            0
        };
        let launch: nat = if self.launch == LaunchStatus::NotAttempted {
            1
        } else {
            0
        };
        self.open_probes() + prepare + launch
    }

    /// The state after every probe that is asked for was answered from
    /// `disk`, the set of paths that exist.
    pub open spec fn settle(self, disk: Set<Seq<char>>) -> StartupState
        decreases self.open_probes(),
    {
        match self.decision() {
            Decision::Undecided(path) => self.probed(disk.contains(path)).settle(disk),
            _ => self,
        }
    }
}

/// The launch that startup ends with when `disk` is the set of paths that
/// exist and the host reports `database_path`: from the bundle where both the
/// runtime and the service directory resolve, else from the source tree where
/// it exists, else none.
pub open spec fn planned(env: EnvironmentModel, disk: Set<Seq<char>>, database_path: Seq<char>)
    -> Option<PlanModel> {
    match (resolved(env.runtime_candidates(), disk), resolved(env.service_candidates(), disk)) {
        (Some(runtime), Some(service)) => Some(
            PlanModel::bundled(runtime, service, database_path),
        ),
        _ => match resolved(env.tree_candidates(), disk) {
            Some(tree) => Some(PlanModel::development(tree, database_path)),
            None => None,
        },
    }
}

/// What can happen in the life of the application, as a mathematical value.
pub enum Occurrence<H> {
    /// The host reported whether the probed path exists.
    Probed(bool),
    /// The host reported the path of the database file, and whether the
    /// directory that is to hold it is there.
    DataPrepared(Seq<char>, bool),
    /// The host started the backend process and handed in its handle.
    Launched(H),
    /// The host could not start the backend process.
    LaunchFailed,
    /// The window is about to close.
    CloseRequested,
}

/// The startup sequence together with the supervisor that takes the
/// launched process, as a mathematical value.
pub struct Lifecycle<H> {
    pub startup: StartupState,
    pub supervisor: SupervisorState<H>,
}

impl<H> Lifecycle<H> {
    /// A startup sequence beside a supervisor.
    pub open spec fn of(startup: StartupState, supervisor: SupervisorState<H>) -> Self {
        Lifecycle { startup, supervisor }
    }

    /// The application before anything happened: the sequence at its
    /// beginning, the supervisor empty.
    pub open spec fn start(env: EnvironmentModel) -> Self {
        Lifecycle { startup: StartupState::begin(env), supervisor: SupervisorState::empty() }
    }

    /// Whether a launched process is taken: a launch is asked for and the
    /// supervisor is empty.
    pub open spec fn accepts_launch(self) -> bool {
        self.startup.request() is Launch && self.supervisor.phase == Phase::Unspawned
    }

    /// The state after the host handed in the handle of a launched process.
    /// A handle that is not taken changes nothing.
    pub open spec fn launched(self, handle: H) -> Self {
        if self.accepts_launch() {
            Lifecycle {
                startup: self.startup.on(Event::Launched),
                supervisor: self.supervisor.adopt(handle),
            }
        } else {
            self
        }
    }

    /// The state after one occurrence.
    pub open spec fn after(self, occurrence: Occurrence<H>) -> Self {
        match occurrence {
            Occurrence::Probed(exists) => Lifecycle {
                startup: self.startup.on(Event::Probed(exists)),
                ..self
            },
            Occurrence::DataPrepared(database_path, directory_ready) => Lifecycle {
                startup: self.startup.on(Event::DataPrepared(database_path, directory_ready)),
                ..self
            },
            Occurrence::Launched(handle) => self.launched(handle),
            Occurrence::LaunchFailed => Lifecycle {
                startup: self.startup.on(Event::LaunchFailed),
                ..self
            },
            Occurrence::CloseRequested => Lifecycle {
                supervisor: self.supervisor.request_termination(),
                ..self
            },
        }
    }

    /// The state after a sequence of occurrences.
    pub open spec fn after_all(self, occurrences: Seq<Occurrence<H>>) -> Self
        decreases occurrences.len(),
    {
        if occurrences.len() == 0 {
            self
        } else {
            self.after(occurrences[0]).after_all(occurrences.skip(1))
        }
    }

    /// A process is under supervision exactly when its launch was reported,
    /// and a launch is reported only of what the probes have settled on.
    pub open spec fn consistent(self) -> bool {
        &&& self.supervisor.wf()
        &&& self.supervisor.handle is Some <==> self.startup.launch == LaunchStatus::Succeeded
        &&& self.startup.launch != LaunchStatus::NotAttempted ==> self.startup.launch_mode() is Some
    }
}

/// The startup sequence of the application.
pub struct Startup {
    runtime: Search,
    service: Search,
    tree: Search,
    database_path: Option<String>,
    launch: LaunchStatus,
}

impl View for Startup {
    type V = StartupState;

    closed spec fn view(&self) -> StartupState {
        StartupState {
            runtime: self.runtime@,
            service: self.service@,
            tree: self.tree@,
            database_path: self.database_path.deep_view(),
            launch: self.launch,
        }
    }
}

impl Startup {
    /// Begins the startup sequence in the given environment.
    pub fn begin(env: Environment) -> (startup: Startup)
        ensures
            startup@ == StartupState::begin(env@),
    {
        let Environment { packaged_runtime, packaged_service, exe_dir } = env;
        let dir: Option<&str> = match &exe_dir {
            Some(dir) => Some(dir.as_str()),
            None => None,
        };
        let runtime = resolve_resource(packaged_runtime, dir, RUNTIME_NAME);
        let service = resolve_resource(packaged_service, dir, SERVICE_NAME);
        let mut trees: Vec<String> = Vec::new();
        if let Some(dir) = dir {
            trees.push(join(dir, DEVELOPMENT_TREE));
        }
        assert(trees.deep_view() =~= env@.tree_candidates());
        let tree = Search::new(trees);
        Startup { runtime, service, tree, database_path: None, launch: LaunchStatus::NotAttempted }
    }

    /// The request for a launch in `mode`, as far as the launch has come.
    fn launch_request(&self, mode: LaunchMode, program: String, working_dir: String) -> (request:
        Request)
        ensures
            request@ == self@.launch_request(mode, program@, working_dir@),
    {
        match self.launch {
            LaunchStatus::Succeeded => Request::Done(Some(mode)),
            LaunchStatus::Failed => Request::Abort(mode),
            LaunchStatus::NotAttempted => match &self.database_path {
                None => Request::PrepareData,
                Some(database_path) => Request::Launch(
                    LaunchPlan { mode, program, working_dir, database_path: database_path.clone() },
                ),
            },
        }
    }

    /// What the host has to do next.
    pub fn request(&self) -> (request: Request)
        ensures
            request@ == self@.request(),
    {
        if let Some(path) = self.runtime.pending() {
            return Request::Probe(path.clone());
        }
        if let Some(path) = self.service.pending() {
            return Request::Probe(path.clone());
        }
        if let Some(runtime) = self.runtime.outcome() {
            if let Some(service) = self.service.outcome() {
                return self.launch_request(LaunchMode::Bundled, runtime.clone(), service.clone());
            }
        }
        if let Some(path) = self.tree.pending() {
            return Request::Probe(path.clone());
        }
        match self.tree.outcome() {
            Some(tree) => self.launch_request(
                LaunchMode::Development,
                RUNTIME_NAME.to_owned(),
                tree.clone(),
            ),
            None => Request::Done(None),
        }
    }

    /// Whether both the bundled runtime and the bundled service directory
    /// were found.
    fn bundle_found(&self) -> (found: bool)
        ensures
            found == self@.bundle_found(),
    {
        self.runtime.outcome().is_some() && self.service.outcome().is_some()
    }

    /// Whether the probes have settled on a launch.
    fn launch_decided(&self) -> (decided: bool)
        ensures
            decided == (self@.launch_mode() is Some),
    {
        if !self.runtime.is_finished() || !self.service.is_finished() {
            false
        } else if self.bundle_found() {
            true
        } else {
            self.tree.is_finished() && self.tree.outcome().is_some()
        }
    }

    /// Whether the host is asked to launch the backend.
    fn awaits_launch(&self) -> (awaited: bool)
        ensures
            awaited == (self@.request() is Launch),
    {
        self.launch_decided() && self.launch == LaunchStatus::NotAttempted
            && self.database_path.is_some()
    }

    /// Takes the host's report on the path it was asked to probe. The report
    /// is ignored when no probe is asked for.
    pub fn probed(&mut self, exists: bool)
        ensures
            final(self)@ == old(self)@.on(Event::Probed(exists)),
    {
        if !self.runtime.is_finished() {
            self.runtime.answer(exists);
        } else if !self.service.is_finished() {
            self.service.answer(exists);
        } else if !self.bundle_found() && !self.tree.is_finished() {
            self.tree.answer(exists);
        }
    }

    /// Takes the path of the database file from the host, and with it
    /// whether the directory that is to hold the file is there. A directory
    /// that could not be created does not stop the launch: the backend is
    /// launched all the same. The report is ignored when the data is not
    /// asked for.
    pub fn data_prepared(&mut self, database_path: String, directory_ready: bool)
        ensures
            final(self)@ == old(self)@.on(Event::DataPrepared(database_path@, directory_ready)),
    {
        if self.launch_decided() && self.launch == LaunchStatus::NotAttempted
            && self.database_path.is_none() {
            self.database_path = Some(database_path);
        }
    }

    /// Takes the host's report that the backend process was started, and
    /// puts the process behind `handle` under supervision. Where no launch is
    /// asked for, or the supervisor already holds a process, the handle is
    /// handed back and nothing changes.
    pub fn launched<H>(&mut self, supervisor: &mut Supervisor<H>, handle: H) -> (taken: Result<
        (),
        H,
    >)
        ensures
            taken is Ok <==> Lifecycle::of(old(self)@, old(supervisor)@).accepts_launch(),
            taken is Err ==> taken == Err::<(), H>(handle),
            Lifecycle::of(final(self)@, final(supervisor)@) == Lifecycle::of(
                old(self)@,
                old(supervisor)@,
            ).launched(handle),
    {
        if !self.awaits_launch() {
            return Err(handle);
        }
        let taken = supervisor.adopt(handle);
        if taken.is_ok() {
            self.launch = LaunchStatus::Succeeded;
        }
        taken
    }

    /// Takes the host's report that the backend process could not be
    /// started. The report is ignored when no launch is asked for.
    pub fn launch_failed(&mut self)
        ensures
            final(self)@ == old(self)@.on(Event::LaunchFailed),
    {
        if self.awaits_launch() {
            self.launch = LaunchStatus::Failed;
        }
    }
}

/// No report of the host breaks the well-formedness of a sequence.
proof fn lemma_replay_wf(state: StartupState, events: Seq<Event>)
    requires
        state.wf(),
    ensures
        state.replay(events).wf(),
    decreases events.len(),
{
    if events.len() > 0 {
        lemma_replay_wf(state.on(events[0]), events.skip(1));
    }
}

/// Every state that a startup sequence can reach is well formed.
pub proof fn law_reachable_is_well_formed(env: EnvironmentModel, events: Seq<Event>)
    ensures
        StartupState::begin(env).replay(events).wf(),
{
    lemma_replay_wf(StartupState::begin(env), events);
}

/// Where the probes of a startup sequence end, search by search: the runtime
/// and the service directory are resolved to the end, and the source tree is
/// looked for unless both were found.
proof fn lemma_settle_by_search(state: StartupState, disk: Set<Seq<char>>)
    ensures
        state.settle(disk).runtime == state.runtime.settle(disk),
        state.settle(disk).service == state.service.settle(disk),
        state.settle(disk).bundle_found() ==> state.settle(disk).tree == state.tree,
        !state.settle(disk).bundle_found() ==> state.settle(disk).tree == state.tree.settle(disk),
        state.settle(disk).database_path == state.database_path,
        state.settle(disk).launch == state.launch,
    decreases state.open_probes(),
{
    match state.decision() {
        Decision::Undecided(path) => {
            lemma_settle_by_search(state.probed(disk.contains(path)), disk);
        },
        _ => {},
    }
}

/// With its probes answered from the disk, startup asks for exactly the
/// launch that is planned for that disk, and for nothing where none is
/// planned. Whether the data directory could be prepared does not change the
/// plan. A launch that succeeds ends the sequence with the backend running;
/// one that fails ends it with the request to abort.
pub proof fn law_startup_outcome(
    env: EnvironmentModel,
    disk: Set<Seq<char>>,
    database_path: Seq<char>,
    directory_ready: bool,
)
    ensures
        planned(env, disk, database_path) is None ==> StartupState::begin(env).settle(
            disk,
        ).request() == RequestModel::Done(None),
        planned(env, disk, database_path) is Some ==> StartupState::begin(env).settle(
            disk,
        ).request() == RequestModel::PrepareData,
        planned(env, disk, database_path) is Some ==> StartupState::begin(env).settle(disk).on(
            Event::DataPrepared(database_path, directory_ready),
        ).request() == RequestModel::Launch(planned(env, disk, database_path).unwrap()),
        planned(env, disk, database_path) is Some ==> StartupState::begin(env).settle(disk).on(
            Event::DataPrepared(database_path, directory_ready),
        ).on(Event::Launched).request() == RequestModel::Done(
            Some(planned(env, disk, database_path).unwrap().mode),
        ),
        planned(env, disk, database_path) is Some ==> StartupState::begin(env).settle(disk).on(
            Event::DataPrepared(database_path, directory_ready),
        ).on(Event::LaunchFailed).request() == RequestModel::Abort(
            planned(env, disk, database_path).unwrap().mode,
        ),
{
    lemma_settle_by_search(StartupState::begin(env), disk);
    law_search_resolves(env.runtime_candidates(), disk);
    law_search_resolves(env.service_candidates(), disk);
    law_search_resolves(env.tree_candidates(), disk);
}

/// The sequence comes to its end: each report on what is asked for leaves
/// fewer requests open, and a report on anything else changes nothing. A
/// host that answers every request is therefore asked at most as many times
/// as there are candidates to probe, and twice more.
pub proof fn law_answers_make_progress(state: StartupState, event: Event)
    ensures
        answers(event, state.request()) ==> state.on(event).open_requests()
            < state.open_requests(),
        !answers(event, state.request()) ==> state.on(event) == state,
{
}

/// Once the sequence has ended, with or without a backend or in the request
/// to abort, no report of the host changes it: nothing is probed or launched
/// after that.
pub proof fn law_end_is_final(state: StartupState, events: Seq<Event>)
    requires
        state.request() is Done || state.request() is Abort,
    ensures
        state.replay(events) == state,
    decreases events.len(),
{
    if events.len() > 0 {
        law_end_is_final(state.on(events[0]), events.skip(1));
    }
}

/// Once the probes have settled on a mode of launch, it stays: whatever the
/// host reports afterwards, nothing more is probed and no launch in the other
/// mode is asked for.
pub proof fn law_launch_mode_is_settled(state: StartupState, mode: LaunchMode, events: Seq<Event>)
    requires
        state.launch_mode() == Some(mode),
    ensures
        state.replay(events).launch_mode() == Some(mode),
        !(state.replay(events).request() is Probe),
        state.replay(events).request() is Launch ==> state.replay(events).request()->Launch_0.mode
            == mode,
    decreases events.len(),
{
    if events.len() > 0 {
        law_launch_mode_is_settled(state.on(events[0]), mode, events.skip(1));
    }
}

/// At most one launch is ever attempted. From the moment a launch is asked
/// for, the sequence can only ask for that same launch again, or end: with
/// the backend running in that mode once the launch is reported, or in the
/// request to abort once it is reported to have failed.
pub proof fn law_single_launch(state: StartupState, plan: PlanModel, events: Seq<Event>)
    requires
        state.request() == RequestModel::Launch(plan),
    ensures
        state.replay(events).request() == RequestModel::Launch(plan) || state.replay(
            events,
        ).request() == RequestModel::Done(Some(plan.mode)) || state.replay(events).request()
            == RequestModel::Abort(plan.mode),
    decreases events.len(),
{
    if events.len() > 0 {
        let next = state.on(events[0]);
        if next.request() is Launch {
            law_single_launch(next, plan, events.skip(1));
        } else {
            law_end_is_final(next, events.skip(1));
        }
    }
}

/// Nothing that happens breaks the consistency of the application.
proof fn lemma_stays_consistent<H>(state: Lifecycle<H>, occurrences: Seq<Occurrence<H>>)
    requires
        state.consistent(),
    ensures
        state.after_all(occurrences).consistent(),
    decreases occurrences.len(),
{
    if occurrences.len() > 0 {
        lemma_stays_consistent(state.after(occurrences[0]), occurrences.skip(1));
    }
}

/// Whatever happens, and in whatever order, a process is under supervision
/// exactly when startup has ended with the backend running. Where startup
/// launches nothing, the supervisor stays empty; where it launches, the
/// supervisor holds a handle from then on, also after the window was asked
/// to close.
pub proof fn law_supervised_iff_running<H>(env: EnvironmentModel, occurrences: Seq<Occurrence<H>>)
    ensures
        Lifecycle::<H>::start(env).after_all(occurrences).supervisor.wf(),
        Lifecycle::<H>::start(env).after_all(occurrences).supervisor.handle is Some
            <==> Lifecycle::<H>::start(env).after_all(occurrences).startup.running(),
        Lifecycle::<H>::start(env).after_all(occurrences).startup.running()
            <==> Lifecycle::<H>::start(env).after_all(occurrences).startup.request() is Done
            && Lifecycle::<H>::start(env).after_all(occurrences).startup.request()->Done_0 is Some,
{
    lemma_stays_consistent(Lifecycle::<H>::start(env), occurrences);
}

} // verus!
