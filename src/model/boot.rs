use vstd::prelude::*;

use crate::model::db::is_app_script;
use crate::model::db::plan_scripts;
use crate::model::db::url_of;
use crate::model::db::DbConfig;
use crate::model::db::PoolSpec;
use crate::model::db::CONNECT_TIMEOUT_MS;
use crate::model::text::sorted_lex;
use crate::model::text::string_views;

verus! {

/// Where the bootstrap stands: each phase ends when its action is done.
#[derive(Clone, Copy, Debug, PartialEq, Eq, Structural)]
pub enum Phase {
    /// Open the privileged pool.
    RootPool,
    /// Run the recreate script on the privileged pool.
    Recreate,
    /// Open the application pool that runs the other scripts.
    AppPool,
    /// List the script directory.
    Listing,
    /// Run the planned scripts, one at a time, on the application pool.
    Scripts,
    /// Open the fresh application pool that the bootstrap hands out.
    FinalPool,
    /// Done: the last pool opened is the one to use.
    Ready,
}

/// What the caller must do next.
#[derive(Debug, PartialEq, Eq)]
pub enum BootAction {
    OpenRootPool(PoolSpec),
    RunRootScript(String),
    OpenAppPool(PoolSpec),
    ListScripts(String),
    RunAppScript(String),
    OpenFinalPool(PoolSpec),
    Finish,
}

/// The bootstrap sequence: the recreate script on a privileged pool first,
/// then every other script in name order on an application pool, then a
/// fresh application pool. Each phase runs only after the one before it.
pub struct Bootstrap {
    pub config: DbConfig,
    pub phase: Phase,
    /// The scripts of the second pass, once the directory is listed.
    pub scripts: Vec<String>,
    /// The script that runs now, in the `Scripts` phase.
    pub next: usize,
}

/// The privileged pool of configuration `c`.
pub open spec fn is_root_pool(p: PoolSpec, c: DbConfig) -> bool {
    p.url@ == url_of(c.host@, c.root_db@, c.root_user@, c.root_password@) && p.max_connections == 1
        && p.connect_timeout_ms == CONNECT_TIMEOUT_MS
}

/// The application pool of configuration `c`.
pub open spec fn is_app_pool(p: PoolSpec, c: DbConfig) -> bool {
    p.url@ == url_of(c.host@, c.app_db@, c.app_user@, c.app_password@) && p.max_connections
        == c.max_connections && p.connect_timeout_ms == CONNECT_TIMEOUT_MS
}

impl Bootstrap {
    /// The configuration is usable and `next` points into the plan while it runs.
    pub open spec fn wf(&self) -> bool {
        &&& self.config.wf()
        &&& self.next <= self.scripts@.len()
        &&& self.phase == Phase::Scripts ==> self.next < self.scripts@.len()
    }

    /// Starts the sequence: the first action opens the privileged pool.
    pub fn start(config: DbConfig) -> (r: (Bootstrap, BootAction))
        requires
            config.wf(),
        ensures
            r.0.wf(),
            r.0.config == config,
            r.0.phase == Phase::RootPool,
            r.0.scripts@.len() == 0,
            r.1 matches BootAction::OpenRootPool(p) && is_root_pool(p, config),
    {
        let pool = config.root_pool();
        let boot = Bootstrap { config, phase: Phase::RootPool, scripts: Vec::new(), next: 0 };
        (boot, BootAction::OpenRootPool(pool))
    }

    /// The action of the current phase is done: moves to the next phase and
    /// says what to do there. The listing phase ends with `listed` instead.
    pub fn done(&mut self) -> (r: BootAction)
        requires
            old(self).wf(),
            old(self).phase != Phase::Listing,
            old(self).phase != Phase::Ready,
        ensures
            final(self).wf(),
            final(self).config == old(self).config,
            final(self).scripts == old(self).scripts,
            old(self).phase == Phase::RootPool ==> final(self).phase == Phase::Recreate && (r matches BootAction::RunRootScript(s)
                && s@ == old(self).config.sql_recreate@),
            old(self).phase == Phase::Recreate ==> final(self).phase == Phase::AppPool && (r matches BootAction::OpenAppPool(p)
                && is_app_pool(p, old(self).config)),
            old(self).phase == Phase::AppPool ==> final(self).phase == Phase::Listing && (r matches BootAction::ListScripts(d)
                && d@ == old(self).config.sql_dir@),
            old(self).phase == Phase::Scripts && old(self).next + 1 < old(self).scripts@.len()
                ==> final(self).phase == Phase::Scripts && final(self).next == old(self).next + 1
                && r == BootAction::RunAppScript(old(self).scripts@[old(self).next + 1]),
            old(self).phase == Phase::Scripts && old(self).next + 1 == old(self).scripts@.len()
                ==> final(self).phase == Phase::FinalPool && (r matches BootAction::OpenFinalPool(p)
                && is_app_pool(p, old(self).config)),
            old(self).phase == Phase::FinalPool ==> final(self).phase == Phase::Ready && r
                == BootAction::Finish,
    {
        match self.phase {
            Phase::RootPool => {
                self.phase = Phase::Recreate;
                BootAction::RunRootScript(self.config.sql_recreate.clone())
            },
            Phase::Recreate => {
                self.phase = Phase::AppPool;
                BootAction::OpenAppPool(self.config.app_pool())
            },
            Phase::AppPool => {
                self.phase = Phase::Listing;
                BootAction::ListScripts(self.config.sql_dir.clone())
            },
            Phase::Scripts => {
                if self.next < self.scripts.len() && self.next + 1 < self.scripts.len() {
                    self.next = self.next + 1;
                    BootAction::RunAppScript(self.scripts[self.next].clone())
                } else {
                    self.phase = Phase::FinalPool;
                    BootAction::OpenFinalPool(self.config.app_pool())
                }
            },
            _ => {
                self.phase = Phase::Ready;
                BootAction::Finish
            },
        }
    }

    /// The directory listing came back: plans the second pass and starts it,
    /// or goes straight to the final pool when nothing is to run.
    pub fn listed(&mut self, paths: Vec<String>) -> (r: BootAction)
        requires
            old(self).wf(),
            old(self).phase == Phase::Listing,
        ensures
            final(self).wf(),
            final(self).config == old(self).config,
            final(self).next == 0,
            sorted_lex(string_views(final(self).scripts@)),
            forall|x: String|
                #![trigger final(self).scripts@.to_multiset().count(x)]
                final(self).scripts@.to_multiset().count(x) == if is_app_script(
                    x@,
                    old(self).config.sql_recreate@,
                ) {
                    paths@.to_multiset().count(x)
                } else {
                    0
                },
            final(self).scripts@.len() > 0 ==> final(self).phase == Phase::Scripts && r
                == BootAction::RunAppScript(final(self).scripts@[0]),
            final(self).scripts@.len() == 0 ==> final(self).phase == Phase::FinalPool && (r matches BootAction::OpenFinalPool(p)
                && is_app_pool(p, old(self).config)),
    {
        self.scripts = plan_scripts(paths, &self.config.sql_recreate);
        self.next = 0;
        if self.scripts.len() > 0 {
            self.phase = Phase::Scripts;
            BootAction::RunAppScript(self.scripts[0].clone())
        } else {
            self.phase = Phase::FinalPool;
            BootAction::OpenFinalPool(self.config.app_pool())
        }
    }
}

} // verus!
