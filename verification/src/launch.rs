//! The launch configuration of the backend service.
//!
//! The backend is a script run by a runtime. It is started in the service
//! directory with one argument, the entry point, and is told through two
//! environment variables where its database lies and on which port to listen.

use vstd::prelude::*;

verus! {

/// Name under which the bundled runtime executable is resolved, and under
/// which the runtime is looked up on the execution search path in a
/// development tree.
pub const RUNTIME_NAME: &'static str = "node";

/// Name under which the bundled service directory is resolved.
pub const SERVICE_NAME: &'static str = "service-dist";

/// Where the service lies in a development tree, relative to the directory
/// of the running executable.
pub const DEVELOPMENT_TREE: &'static str = "../../../service";

/// File name of the database inside the application's data directory.
pub const DATABASE_FILE: &'static str = "dev.sqlite3";

/// Environment variable that carries the path of the database file.
pub const DATABASE_VARIABLE: &'static str = "DATABASE_PATH";

/// Environment variable that carries the port the service listens on.
pub const PORT_VARIABLE: &'static str = "PORT";

/// The port the service listens on. It is the same for every instance.
pub const PORT_VALUE: &'static str = "3001";

/// The service's entry point, relative to the service directory.
pub const ENTRY_POINT: &'static str = "src/index.js";

/// What startup fails with when the bundled backend cannot be started.
pub const BUNDLED_FAILURE: &'static str = "failed to spawn embedded server (node src/index.js)";

/// What startup fails with when the backend cannot be started from its
/// source tree.
pub const DEVELOPMENT_FAILURE: &'static str = "failed to spawn dev server (node src/index.js)";

/// From where the backend is launched.
#[derive(Clone, Copy, Debug, PartialEq, Eq, Structural)]
pub enum LaunchMode {
    /// From the runtime and the service directory bundled with the
    /// application.
    Bundled,
    /// From the service's source tree, with the runtime found on the
    /// execution search path.
    Development,
}

impl LaunchMode {
    /// The message startup fails with when a launch in this mode fails.
    pub open spec fn failure_text(self) -> Seq<char> {
        match self {
            LaunchMode::Bundled => BUNDLED_FAILURE@,
            LaunchMode::Development => DEVELOPMENT_FAILURE@,
        }
    }

    /// The message to fail startup with when a launch in this mode fails.
    pub fn failure_message(&self) -> (message: &'static str)
        ensures
            message@ == self.failure_text(),
    {
        match self {
            LaunchMode::Bundled => BUNDLED_FAILURE,
            LaunchMode::Development => DEVELOPMENT_FAILURE,
        }
    }
}

/// A launch configuration, as a mathematical value.
#[verifier::ext_equal]
pub struct PlanModel {
    /// From where the backend is launched.
    pub mode: LaunchMode,
    /// The runtime to execute.
    pub program: Seq<char>,
    /// The directory in which the process runs.
    pub working_dir: Seq<char>,
    /// The path of the database file handed to the service.
    pub database_path: Seq<char>,
}

impl PlanModel {
    /// The configuration for the bundled runtime at `runtime` and the bundled
    /// service in `service_dir`.
    pub open spec fn bundled(
        runtime: Seq<char>,
        service_dir: Seq<char>,
        database_path: Seq<char>,
    ) -> PlanModel {
        PlanModel {
            mode: LaunchMode::Bundled,
            program: runtime,
            working_dir: service_dir,
            database_path,
        }
    }

    /// The configuration for the service's source tree at `tree`.
    pub open spec fn development(tree: Seq<char>, database_path: Seq<char>) -> PlanModel {
        PlanModel {
            mode: LaunchMode::Development,
            program: RUNTIME_NAME@,
            working_dir: tree,
            database_path,
        }
    }

    /// The arguments of the process: the entry point alone.
    pub open spec fn arguments(self) -> Seq<Seq<char>> {
        seq![ENTRY_POINT@]
    }

    /// The environment variables set for the process, in the order in which
    /// they are set: the database path, then the port.
    pub open spec fn environment(self) -> Seq<(Seq<char>, Seq<char>)> {
        seq![(DATABASE_VARIABLE@, self.database_path), (PORT_VARIABLE@, PORT_VALUE@)]
    }

    /// Whether the process is explicitly given the host's standard output and
    /// standard error.
    pub open spec fn inherits_output(self) -> bool {
        self.mode == LaunchMode::Development
    }
}

/// Everything the host needs to start the backend process.
#[derive(Debug, PartialEq, Eq)]
pub struct LaunchPlan {
    /// From where the backend is launched.
    pub mode: LaunchMode,
    /// The runtime to execute: a resolved path when bundled, a bare name to
    /// look up on the execution search path in development.
    pub program: String,
    /// The directory in which the process runs.
    pub working_dir: String,
    /// The path of the database file handed to the service.
    pub database_path: String,
}

impl View for LaunchPlan {
    type V = PlanModel;

    open spec fn view(&self) -> PlanModel {
        PlanModel {
            mode: self.mode,
            program: self.program@,
            working_dir: self.working_dir@,
            database_path: self.database_path@,
        }
    }
}

impl LaunchPlan {
    /// The plan for the bundled runtime and service.
    pub fn bundled(runtime: String, service_dir: String, database_path: String) -> (plan:
        LaunchPlan)
        ensures
            plan@ == PlanModel::bundled(runtime@, service_dir@, database_path@),
    {
        LaunchPlan {
            mode: LaunchMode::Bundled,
            program: runtime,
            working_dir: service_dir,
            database_path,
        }
    }

    /// The plan for the service's source tree.
    pub fn development(tree: String, database_path: String) -> (plan: LaunchPlan)
        ensures
            plan@ == PlanModel::development(tree@, database_path@),
    {
        LaunchPlan {
            mode: LaunchMode::Development,
            program: RUNTIME_NAME.to_owned(),
            working_dir: tree,
            database_path,
        }
    }

    /// The arguments to start the process with.
    pub fn arguments(&self) -> (args: Vec<String>)
        ensures
            args.deep_view() == self@.arguments(),
    {
        let mut args: Vec<String> = Vec::new();
        args.push(ENTRY_POINT.to_owned());
        assert(args.deep_view() =~= self@.arguments());
        args
    }

    /// The environment variables to set for the process, as pairs of name
    /// and value.
    pub fn environment(&self) -> (vars: Vec<(String, String)>)
        ensures
            vars.deep_view() == self@.environment(),
    {
        let mut vars: Vec<(String, String)> = Vec::new();
        vars.push((DATABASE_VARIABLE.to_owned(), self.database_path.clone()));
        vars.push((PORT_VARIABLE.to_owned(), PORT_VALUE.to_owned()));
        assert(vars.deep_view() =~= self@.environment());
        vars
    }

    /// Whether the host must hand its own standard output and standard
    /// error to the process explicitly.
    pub fn inherits_output(&self) -> (inherit: bool)
        ensures
            inherit == self@.inherits_output(),
    {
        self.mode == LaunchMode::Development
    }
}

} // verus!
