use vstd::prelude::*;
use vstd::string::*;

use crate::state::AppState;

verus! {

/// Name of the application's directory under the platform's local data
/// directory; the shell joins it onto the platform path.
pub fn app_dir_name() -> (n: String)
    ensures
        n@ == "example-app"@,
{
    String::from_str("example-app")
}

/// The filesystem as one bootstrap run observes it: whether the data
/// directory already exists, and whether an attempt to create it would
/// succeed (permissions, parent directories and the like).
#[derive(Clone, Copy, Debug, PartialEq, Eq, Structural)]
pub struct FsModel {
    pub dir_exists: bool,
    pub create_succeeds: bool,
}

/// What bootstrap decides to do about the data directory.
#[derive(Clone, Copy, Debug, PartialEq, Eq, Structural)]
pub struct BootstrapPlan {
    /// creation is attempted exactly when the directory is missing
    pub create_dir: bool,
}

/// The ways startup can fail before the event runtime is reached.
#[derive(Clone, Copy, Debug, PartialEq, Eq, Structural)]
pub enum StartupError {
    /// the data directory was missing and could not be created
    DataDirCreation,
}

impl StartupError {
    /// The text the process reports before exiting non-zero.
    pub fn message(&self) -> (m: String)
        ensures
            m@ == "could not create the application data directory"@,
    {
        String::from_str("could not create the application data directory")
    }
}

/// Outcome of bootstrap: either launch the event runtime with the shared
/// state, or abort before the runtime ever starts.
#[derive(Debug)]
pub enum Startup {
    Launch(AppState),
    Abort(StartupError),
}

/// Creation is needed exactly when the existence check reported the
/// directory missing.
pub open spec fn spec_needs_create(dir_exists: bool) -> bool {
    !dir_exists
}

/// Decide the bootstrap plan from the observed filesystem.
pub fn plan_bootstrap(dir_exists: bool) -> (p: BootstrapPlan)
    ensures
        p.create_dir == spec_needs_create(dir_exists),
{
    BootstrapPlan { create_dir: !dir_exists }
}

/// The startup outcome owed for a given filesystem: launch whenever the
/// directory exists or can be created, abort otherwise.
pub open spec fn spec_startup(fs: FsModel) -> Startup {
    if fs.dir_exists || fs.create_succeeds {
        Startup::Launch(AppState {})
    } else {
        Startup::Abort(StartupError::DataDirCreation)
    }
}

/// Conclude bootstrap from the plan and the result of the creation attempt.
/// `create_ok` reports that attempt; it is ignored when no creation was
/// planned. On success the shared state is constructed; on failure startup
/// aborts and the runtime is never started.
pub fn conclude_bootstrap(plan: &BootstrapPlan, create_ok: bool) -> (r: Startup)
    ensures
        r is Launch <==> (!plan.create_dir || create_ok),
        !plan.create_dir || create_ok ==> r == Startup::Launch(AppState {}),
        plan.create_dir && !create_ok ==> r == Startup::Abort(StartupError::DataDirCreation),
{
    if plan.create_dir && !create_ok {
        Startup::Abort(StartupError::DataDirCreation)
    } else {
        Startup::Launch(AppState::new())
    }
}

/// The filesystem as a bootstrap run leaves it: the directory exists
/// afterwards exactly when it existed before or was created.
pub open spec fn spec_fs_after(fs: FsModel) -> FsModel {
    FsModel { dir_exists: fs.dir_exists || fs.create_succeeds, create_succeeds: fs.create_succeeds }
}

/// One bootstrap run against a modeled filesystem: plan from the existence
/// check, attempt creation only when planned, conclude. Returns the outcome
/// and the filesystem as the run leaves it; when the directory already
/// exists the run touches nothing.
pub fn run_bootstrap(fs: FsModel) -> (r: (Startup, FsModel))
    ensures
        r.0 == spec_startup(fs),
        r.1 == spec_fs_after(fs),
        fs.dir_exists ==> r.1 == fs,
{
    let plan = plan_bootstrap(fs.dir_exists);
    let create_ok: bool = if plan.create_dir {
        fs.create_succeeds
    } else {
        true
    };
    let after = FsModel {
        dir_exists: fs.dir_exists || (plan.create_dir && create_ok),
        create_succeeds: fs.create_succeeds,
    };
    let outcome = conclude_bootstrap(&plan, create_ok);
    (outcome, after)
}

/// Startup idempotence: after a successful run the directory exists, so
/// every later run against the filesystem it left plans no creation and
/// succeeds even if a creation attempt would now fail; and the filesystem no
/// longer changes.
pub proof fn lemma_startup_idempotent(fs: FsModel)
    requires
        spec_startup(fs) is Launch,
    ensures
        spec_fs_after(fs).dir_exists,
        !spec_needs_create(spec_fs_after(fs).dir_exists),
        forall|c: bool|
            spec_startup(
                FsModel { dir_exists: spec_fs_after(fs).dir_exists, create_succeeds: c },
            ) is Launch,
        spec_fs_after(spec_fs_after(fs)) == spec_fs_after(fs),
{
}

/// Fatal startup failure: when the directory is missing and cannot be
/// created, bootstrap aborts with the creation error — it never reaches the
/// point of launching the event runtime.
pub proof fn lemma_fatal_startup(fs: FsModel)
    requires
        !fs.dir_exists,
        !fs.create_succeeds,
    ensures
        spec_startup(fs) == Startup::Abort(StartupError::DataDirCreation),
        !(spec_startup(fs) is Launch),
{
}

} // verus!
