//! The service's bootstrap as a decision machine: the runner performs each
//! action that the machine asks for and hands back what came of it as an
//! event. Singleton reclamation, input validation, directory provisioning,
//! the pid file, publication of the runtime infos and the run loop follow
//! one another in that order, and a fatal failure ends the sequence.

use vstd::prelude::*;

verus! {

/// What the service is started with.
#[derive(Debug)]
pub struct ServerContext {
    /// The application's config directory; it must exist.
    pub nyanpasu_config_dir: String,
    /// The application's data directory; it must exist.
    pub nyanpasu_data_dir: String,
    /// Whether the process runs as a system service.
    pub service: bool,
}

/// The four directories that the running service resolves paths against.
#[derive(Debug)]
pub struct RuntimeInfos {
    pub service_data_dir: String,
    pub service_config_dir: String,
    pub nyanpasu_config_dir: String,
    pub nyanpasu_data_dir: String,
}

/// What came of reclaiming the pid file of an earlier instance.
#[derive(Debug)]
pub enum Reclaim {
    /// No pid file, or the process it names no longer runs.
    NoPriorOwner,
    /// The earlier instance was found and a kill was sent. The kill is best
    /// effort: one that fails is reported here too, and the bootstrap goes on.
    Terminated,
    /// The pid file exists but could not be read (an I/O error other than
    /// its absence), so the earlier owner is unknown. This is fatal.
    Failed(String),
}

/// A fatal bootstrap failure, naming the step that failed.
#[derive(Debug)]
pub enum BootError {
    Reclaim(String),
    InputDir { path: String, reason: String },
    CreateDir { path: String, reason: String },
    Run(String),
}

/// Where the bootstrap stands: the step whose outcome it waits for, or how it
/// ended.
#[derive(Debug)]
pub enum Phase {
    Reclaiming,
    CheckingConfigDir,
    CheckingDataDir,
    ResolvingDirs,
    CreatingDataDir,
    CreatingConfigDir,
    WritingPidFile,
    Publishing,
    Running,
    Stopped,
    Failed(BootError),
}

/// What the runner is asked to do next.
#[derive(Debug)]
pub enum BootAction {
    /// Kill the process that the service's pid file names, if it still runs.
    ReclaimPidFile,
    /// Check that a directory exists and can be read.
    CheckDir(String),
    /// Look up the service's own data and config directories.
    ResolveServiceDirs,
    /// Create a directory, with its parents, unless it exists.
    EnsureDir(String),
    /// Write the current process id to the service's pid file.
    WritePidFile,
    /// Publish the runtime infos to process-wide storage.
    Publish(RuntimeInfos),
    /// Enter the service's run loop.
    RunService,
    /// Leave: the bootstrap is over.
    Exit(Result<(), BootError>),
}

/// The outcome of an action, handed back by the runner.
#[derive(Debug)]
pub enum BootEvent {
    Reclaimed(Reclaim),
    DirChecked(Result<(), String>),
    DirsResolved { data: String, config: String },
    DirEnsured(Result<(), String>),
    /// A failure to write the pid file is reported and not fatal.
    PidFileWritten(Result<(), String>),
    Published,
    RunEnded(Result<(), String>),
}

/// The bootstrap's state: its inputs, the service directories once resolved,
/// and its phase.
#[derive(Debug)]
pub struct Bootstrap {
    pub ctx: ServerContext,
    pub service_data_dir: String,
    pub service_config_dir: String,
    pub phase: Phase,
}

/// The record that the bootstrap publishes.
pub open spec fn infos_of(b: Bootstrap) -> RuntimeInfos {
    RuntimeInfos {
        service_data_dir: b.service_data_dir,
        service_config_dir: b.service_config_dir,
        nyanpasu_config_dir: b.ctx.nyanpasu_config_dir,
        nyanpasu_data_dir: b.ctx.nyanpasu_data_dir,
    }
}

/// The action that the current phase waits on; after the end, the exit.
pub open spec fn pending_action(b: Bootstrap) -> BootAction {
    match b.phase {
        Phase::Reclaiming => BootAction::ReclaimPidFile,
        Phase::CheckingConfigDir => BootAction::CheckDir(b.ctx.nyanpasu_config_dir),
        Phase::CheckingDataDir => BootAction::CheckDir(b.ctx.nyanpasu_data_dir),
        Phase::ResolvingDirs => BootAction::ResolveServiceDirs,
        Phase::CreatingDataDir => BootAction::EnsureDir(b.service_data_dir),
        Phase::CreatingConfigDir => BootAction::EnsureDir(b.service_config_dir),
        Phase::WritingPidFile => BootAction::WritePidFile,
        Phase::Publishing => BootAction::Publish(infos_of(b)),
        Phase::Running => BootAction::RunService,
        Phase::Stopped => BootAction::Exit(Ok(())),
        Phase::Failed(e) => BootAction::Exit(Err(e)),
    }
}

/// `b` moved to phase `p`.
pub open spec fn enter(b: Bootstrap, p: Phase) -> Bootstrap {
    Bootstrap { phase: p, ..b }
}

/// `b` ended with error `e`.
pub open spec fn fail(b: Bootstrap, e: BootError) -> (Bootstrap, BootAction) {
    (enter(b, Phase::Failed(e)), BootAction::Exit(Err(e)))
}

/// `b` moved on to phase `p`, with the action that `p` waits on.
pub open spec fn advance(b: Bootstrap, p: Phase) -> (Bootstrap, BootAction) {
    (enter(b, p), pending_action(enter(b, p)))
}

/// One transition. An event that the phase does not wait for changes nothing,
/// and the pending action is asked for again.
pub open spec fn next(b: Bootstrap, ev: BootEvent) -> (Bootstrap, BootAction) {
    match b.phase {
        Phase::Reclaiming => match ev {
            BootEvent::Reclaimed(Reclaim::Failed(reason)) => fail(b, BootError::Reclaim(reason)),
            BootEvent::Reclaimed(_) => advance(b, Phase::CheckingConfigDir),
            _ => (b, pending_action(b)),
        },
        Phase::CheckingConfigDir => match ev {
            BootEvent::DirChecked(Err(reason)) => fail(
                b,
                BootError::InputDir { path: b.ctx.nyanpasu_config_dir, reason },
            ),
            BootEvent::DirChecked(Ok(())) => advance(b, Phase::CheckingDataDir),
            _ => (b, pending_action(b)),
        },
        Phase::CheckingDataDir => match ev {
            BootEvent::DirChecked(Err(reason)) => fail(
                b,
                BootError::InputDir { path: b.ctx.nyanpasu_data_dir, reason },
            ),
            BootEvent::DirChecked(Ok(())) => advance(b, Phase::ResolvingDirs),
            _ => (b, pending_action(b)),
        },
        Phase::ResolvingDirs => match ev {
            BootEvent::DirsResolved { data, config } => advance(
                Bootstrap { service_data_dir: data, service_config_dir: config, ..b },
                Phase::CreatingDataDir,
            ),
            _ => (b, pending_action(b)),
        },
        Phase::CreatingDataDir => match ev {
            BootEvent::DirEnsured(Err(reason)) => fail(
                b,
                BootError::CreateDir { path: b.service_data_dir, reason },
            ),
            BootEvent::DirEnsured(Ok(())) => advance(b, Phase::CreatingConfigDir),
            _ => (b, pending_action(b)),
        },
        Phase::CreatingConfigDir => match ev {
            BootEvent::DirEnsured(Err(reason)) => fail(
                b,
                BootError::CreateDir { path: b.service_config_dir, reason },
            ),
            BootEvent::DirEnsured(Ok(())) => advance(b, Phase::WritingPidFile),
            _ => (b, pending_action(b)),
        },
        Phase::WritingPidFile => match ev {
            BootEvent::PidFileWritten(_) => advance(b, Phase::Publishing),
            _ => (b, pending_action(b)),
        },
        Phase::Publishing => match ev {
            BootEvent::Published => advance(b, Phase::Running),
            _ => (b, pending_action(b)),
        },
        Phase::Running => match ev {
            BootEvent::RunEnded(Err(reason)) => fail(b, BootError::Run(reason)),
            BootEvent::RunEnded(Ok(())) => advance(b, Phase::Stopped),
            _ => (b, pending_action(b)),
        },
        _ => (b, pending_action(b)),
    }
}

/// The actions that answer `evs`, fed one by one from `b`.
pub open spec fn trace(b: Bootstrap, evs: Seq<BootEvent>) -> Seq<BootAction>
    decreases evs.len(),
{
    if evs.len() == 0 {
        seq![]
    } else {
        let (n, a) = next(b, evs[0]);
        seq![a] + trace(n, evs.drop_first())
    }
}

} // verus!

verus! {

impl BootError {
    pub fn duplicate(&self) -> (r: BootError)
        ensures
            r == *self,
    {
        match self {
            BootError::Reclaim(reason) => BootError::Reclaim(reason.clone()),
            BootError::InputDir { path, reason } => BootError::InputDir {
                path: path.clone(),
                reason: reason.clone(),
            },
            BootError::CreateDir { path, reason } => BootError::CreateDir {
                path: path.clone(),
                reason: reason.clone(),
            },
            BootError::Run(reason) => BootError::Run(reason.clone()),
        }
    }
}

impl Bootstrap {
    /// A bootstrap for `ctx`, about to reclaim the pid file.
    pub fn new(ctx: ServerContext) -> (r: Bootstrap)
        ensures
            r.ctx == ctx,
            r.phase == Phase::Reclaiming,
            r.service_data_dir@ == Seq::<char>::empty(),
            r.service_config_dir@ == Seq::<char>::empty(),
    {
        Bootstrap {
            ctx,
            service_data_dir: String::new(),
            service_config_dir: String::new(),
            phase: Phase::Reclaiming,
        }
    }

    /// The runtime infos that this bootstrap publishes.
    pub fn infos(&self) -> (r: RuntimeInfos)
        ensures
            r == infos_of(*self),
    {
        RuntimeInfos {
            service_data_dir: self.service_data_dir.clone(),
            service_config_dir: self.service_config_dir.clone(),
            nyanpasu_config_dir: self.ctx.nyanpasu_config_dir.clone(),
            nyanpasu_data_dir: self.ctx.nyanpasu_data_dir.clone(),
        }
    }

    /// The action that the bootstrap waits on.
    pub fn pending(&self) -> (r: BootAction)
        ensures
            r == pending_action(*self),
    {
        match &self.phase {
            Phase::Reclaiming => BootAction::ReclaimPidFile,
            Phase::CheckingConfigDir => BootAction::CheckDir(self.ctx.nyanpasu_config_dir.clone()),
            Phase::CheckingDataDir => BootAction::CheckDir(self.ctx.nyanpasu_data_dir.clone()),
            Phase::ResolvingDirs => BootAction::ResolveServiceDirs,
            Phase::CreatingDataDir => BootAction::EnsureDir(self.service_data_dir.clone()),
            Phase::CreatingConfigDir => BootAction::EnsureDir(self.service_config_dir.clone()),
            Phase::WritingPidFile => BootAction::WritePidFile,
            Phase::Publishing => BootAction::Publish(self.infos()),
            Phase::Running => BootAction::RunService,
            Phase::Stopped => BootAction::Exit(Ok(())),
            Phase::Failed(e) => BootAction::Exit(Err(e.duplicate())),
        }
    }

    fn fail(&mut self, e: BootError) -> (r: BootAction)
        ensures
            (*final(self), r) == fail(*old(self), e),
    {
        let exit = BootAction::Exit(Err(e.duplicate()));
        self.phase = Phase::Failed(e);
        exit
    }

    fn advance(&mut self, p: Phase) -> (r: BootAction)
        ensures
            (*final(self), r) == advance(*old(self), p),
    {
        self.phase = p;
        self.pending()
    }

    /// Takes the outcome of the pending action and says what to do next.
    pub fn step(&mut self, ev: BootEvent) -> (r: BootAction)
        ensures
            (*final(self), r) == next(*old(self), ev),
    {
        match self.phase {
            Phase::Reclaiming => match ev {
                BootEvent::Reclaimed(Reclaim::Failed(reason)) => self.fail(
                    BootError::Reclaim(reason),
                ),
                BootEvent::Reclaimed(_) => self.advance(Phase::CheckingConfigDir),
                _ => self.pending(),
            },
            Phase::CheckingConfigDir => match ev {
                BootEvent::DirChecked(Err(reason)) => {
                    let path = self.ctx.nyanpasu_config_dir.clone();
                    self.fail(BootError::InputDir { path, reason })
                },
                BootEvent::DirChecked(Ok(())) => self.advance(Phase::CheckingDataDir),
                _ => self.pending(),
            },
            Phase::CheckingDataDir => match ev {
                BootEvent::DirChecked(Err(reason)) => {
                    let path = self.ctx.nyanpasu_data_dir.clone();
                    self.fail(BootError::InputDir { path, reason })
                },
                BootEvent::DirChecked(Ok(())) => self.advance(Phase::ResolvingDirs),
                _ => self.pending(),
            },
            Phase::ResolvingDirs => match ev {
                BootEvent::DirsResolved { data, config } => {
                    self.service_data_dir = data;
                    self.service_config_dir = config;
                    self.advance(Phase::CreatingDataDir)
                },
                _ => self.pending(),
            },
            Phase::CreatingDataDir => match ev {
                BootEvent::DirEnsured(Err(reason)) => {
                    let path = self.service_data_dir.clone();
                    self.fail(BootError::CreateDir { path, reason })
                },
                BootEvent::DirEnsured(Ok(())) => self.advance(Phase::CreatingConfigDir),
                _ => self.pending(),
            },
            Phase::CreatingConfigDir => match ev {
                BootEvent::DirEnsured(Err(reason)) => {
                    let path = self.service_config_dir.clone();
                    self.fail(BootError::CreateDir { path, reason })
                },
                BootEvent::DirEnsured(Ok(())) => self.advance(Phase::WritingPidFile),
                _ => self.pending(),
            },
            Phase::WritingPidFile => match ev {
                BootEvent::PidFileWritten(_) => self.advance(Phase::Publishing),
                _ => self.pending(),
            },
            Phase::Publishing => match ev {
                BootEvent::Published => self.advance(Phase::Running),
                _ => self.pending(),
            },
            Phase::Running => match ev {
                BootEvent::RunEnded(Err(reason)) => self.fail(BootError::Run(reason)),
                BootEvent::RunEnded(Ok(())) => self.advance(Phase::Stopped),
                _ => self.pending(),
            },
            _ => self.pending(),
        }
    }
}

} // verus!

verus! {

/// Once failed, a bootstrap stays failed: whatever comes, it only asks to
/// exit with the same error.
pub proof fn lemma_failure_is_final(b: Bootstrap, evs: Seq<BootEvent>)
    requires
        b.phase is Failed,
    ensures
        trace(b, evs).len() == evs.len(),
        forall|k: int|
            0 <= k < evs.len() ==> #[trigger] trace(b, evs)[k] == BootAction::Exit(
                Err(b.phase->Failed_0),
            ),
    decreases evs.len(),
{
    if evs.len() > 0 {
        lemma_failure_is_final(b, evs.drop_first());
        assert forall|k: int| 0 <= k < evs.len() implies #[trigger] trace(b, evs)[k]
            == BootAction::Exit(Err(b.phase->Failed_0)) by {
            if k > 0 {
                assert(trace(b, evs)[k] == trace(b, evs.drop_first())[k - 1]);
            }
        }
    }
}

/// A missing or unreadable input directory ends the bootstrap at its check:
/// no directory is created, no pid file written, nothing published and the
/// run loop is never entered, whatever events follow.
pub proof fn lemma_missing_input_dir_aborts(b: Bootstrap, reason: String, evs: Seq<BootEvent>)
    requires
        b.phase is CheckingConfigDir || b.phase is CheckingDataDir,
        evs.len() > 0,
        evs[0] == BootEvent::DirChecked(Err(reason)),
    ensures
        trace(b, evs).len() == evs.len(),
        forall|k: int|
            0 <= k < evs.len() ==> {
                &&& #[trigger] trace(b, evs)[k] is Exit
                &&& trace(b, evs)[k]->Exit_0 matches Err(BootError::InputDir { reason: r, .. })
                    && r == reason
            },
{
    let n = next(b, evs[0]).0;
    lemma_failure_is_final(n, evs.drop_first());
    assert forall|k: int| 0 <= k < evs.len() implies {
        &&& #[trigger] trace(b, evs)[k] is Exit
        &&& trace(b, evs)[k]->Exit_0 matches Err(BootError::InputDir { reason: r, .. }) && r
            == reason
    } by {
        if k > 0 {
            assert(trace(b, evs)[k] == trace(n, evs.drop_first())[k - 1]);
        }
    }
}

/// A pid file that names no running process, or none at all, is no obstacle:
/// reclamation succeeds and the input directories are checked next.
pub proof fn lemma_stale_pid_file_is_reclaimed(b: Bootstrap)
    requires
        b.phase is Reclaiming,
    ensures
        next(b, BootEvent::Reclaimed(Reclaim::NoPriorOwner)).0.phase is CheckingConfigDir,
        next(b, BootEvent::Reclaimed(Reclaim::NoPriorOwner)).1 == BootAction::CheckDir(
            b.ctx.nyanpasu_config_dir,
        ),
{
}

/// With both input directories present and no earlier instance, the
/// bootstrap provisions the service's directories, writes the pid file,
/// publishes exactly the four directories and enters the run loop.
pub proof fn lemma_clean_bootstrap(b: Bootstrap, data: String, config: String)
    requires
        b.phase is Reclaiming,
    ensures
        trace(
            b,
            seq![
                BootEvent::Reclaimed(Reclaim::NoPriorOwner),
                BootEvent::DirChecked(Ok(())),
                BootEvent::DirChecked(Ok(())),
                BootEvent::DirsResolved { data, config },
                BootEvent::DirEnsured(Ok(())),
                BootEvent::DirEnsured(Ok(())),
                BootEvent::PidFileWritten(Ok(())),
                BootEvent::Published,
            ],
        ) == seq![
            BootAction::CheckDir(b.ctx.nyanpasu_config_dir),
            BootAction::CheckDir(b.ctx.nyanpasu_data_dir),
            BootAction::ResolveServiceDirs,
            BootAction::EnsureDir(data),
            BootAction::EnsureDir(config),
            BootAction::WritePidFile,
            BootAction::Publish(
                RuntimeInfos {
                    service_data_dir: data,
                    service_config_dir: config,
                    nyanpasu_config_dir: b.ctx.nyanpasu_config_dir,
                    nyanpasu_data_dir: b.ctx.nyanpasu_data_dir,
                },
            ),
            BootAction::RunService,
        ],
{
    reveal_with_fuel(trace, 9);
    let evs = seq![
        BootEvent::Reclaimed(Reclaim::NoPriorOwner),
        BootEvent::DirChecked(Ok(())),
        BootEvent::DirChecked(Ok(())),
        BootEvent::DirsResolved { data, config },
        BootEvent::DirEnsured(Ok(())),
        BootEvent::DirEnsured(Ok(())),
        BootEvent::PidFileWritten(Ok(())),
        BootEvent::Published,
    ];
    assert(evs.drop_first().drop_first().drop_first().drop_first().drop_first().drop_first().drop_first().drop_first() =~= Seq::<BootEvent>::empty());
    assert(trace(b, evs) =~= seq![
        BootAction::CheckDir(b.ctx.nyanpasu_config_dir),
        BootAction::CheckDir(b.ctx.nyanpasu_data_dir),
        BootAction::ResolveServiceDirs,
        BootAction::EnsureDir(data),
        BootAction::EnsureDir(config),
        BootAction::WritePidFile,
        BootAction::Publish(infos_of(Bootstrap { service_data_dir: data, service_config_dir: config, ..b })),
        BootAction::RunService,
    ]);
}

} // verus!
