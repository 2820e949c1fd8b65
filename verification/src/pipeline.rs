//! The build pipeline: a fixed, ordered table of steps and the engine that
//! sequences them.
//!
//! A step is either an external command (run by the unverified shell, which
//! reports back only the exit status) or an internal check.  A failed
//! command never halts the sequence by itself: failures accumulate into a
//! monotonic status and are acted on only at the install gate, the one
//! check that can abort the pipeline.  That check aborts exactly when some
//! earlier command failed, leaving a pre-existing installation untouched;
//! after a fully successful run the toolchain record is written.

use vstd::prelude::*;

use crate::config;
use crate::config::ConfigData;
use crate::config::spec_lookup;
use crate::text::path_join;
use crate::text::spec_decimal;
use crate::text::u64_to_string;
use crate::words::SplitError;
use crate::words::spec_split;
use crate::words::split;

verus! {

/// The aggregated outcome of the external commands run so far.
#[derive(Clone, Copy, PartialEq, Eq, Structural, Debug)]
pub enum BuildStatus {
    Success,
    Fail,
}

/// One step of the pipeline.
pub enum BuildStep {
    /// An external command, observed only through its exit status.
    Exec { cmd: String, args: Vec<String> },
    /// Inspect the checkout for the marker the toolchain's configure
    /// leaves when it found no usable OpenSSL; warn, never fail.
    CheckOpenSsl,
    /// The install gate: abort on an accumulated failure, otherwise clear
    /// a stale installation directory and let the install steps run.
    CheckInstallGate,
}

/// A step at the specification level.
pub enum StepModel {
    Exec { cmd: Seq<char>, args: Seq<Seq<char>> },
    CheckOpenSsl,
    CheckInstallGate,
}

pub open spec fn step_model(s: BuildStep) -> StepModel {
    match s {
        BuildStep::Exec { cmd, args } => StepModel::Exec { cmd: cmd@, args: args.deep_view() },
        BuildStep::CheckOpenSsl => StepModel::CheckOpenSsl,
        BuildStep::CheckInstallGate => StepModel::CheckInstallGate,
    }
}

pub open spec fn steps_model(steps: Seq<BuildStep>) -> Seq<StepModel> {
    steps.map_values(|s: BuildStep| step_model(s))
}

/// The fixed step table: bootstrap, configure, the OpenSSL advisory check,
/// compile, documentation, the install gate, install, and install-docs.
/// The order is load-bearing: both compile failures are only acted on at
/// the install gate, and nothing after it can stop the install steps.
pub open spec fn spec_steps(configure_args: Seq<Seq<char>>, ncpu: Seq<char>) -> Seq<StepModel> {
    seq![
        StepModel::Exec { cmd: "./otp_build"@, args: seq!["autoconf"@] },
        StepModel::Exec { cmd: "./configure"@, args: configure_args },
        StepModel::CheckOpenSsl,
        StepModel::Exec { cmd: "make"@, args: seq!["-j"@, ncpu] },
        StepModel::Exec {
            cmd: "make"@,
            args: seq!["-j"@, ncpu, "docs"@, "DOC_TARGETS=chunks"@],
        },
        StepModel::CheckInstallGate,
        StepModel::Exec { cmd: "make"@, args: seq!["-j"@, ncpu, "install"@] },
        StepModel::Exec { cmd: "make"@, args: seq!["-j"@, ncpu, "install-docs"@] },
    ]
}

/// Builds the step table for one build: the merged configure arguments and
/// the parallelism hint are the only varying parts.
pub fn build_steps(configure_args: Vec<String>, ncpu: u64) -> (steps: Vec<BuildStep>)
    ensures
        steps_model(steps@) == spec_steps(configure_args.deep_view(), spec_decimal(ncpu as nat)),
{
    let ghost opts = configure_args.deep_view();
    let n = u64_to_string(ncpu);

    let mut a_autoconf: Vec<String> = Vec::new();
    a_autoconf.push("autoconf".to_owned());

    let mut a_make: Vec<String> = Vec::new();
    a_make.push("-j".to_owned());
    a_make.push(n.clone());

    let mut a_docs: Vec<String> = Vec::new();
    a_docs.push("-j".to_owned());
    a_docs.push(n.clone());
    a_docs.push("docs".to_owned());
    a_docs.push("DOC_TARGETS=chunks".to_owned());

    let mut a_install: Vec<String> = Vec::new();
    a_install.push("-j".to_owned());
    a_install.push(n.clone());
    a_install.push("install".to_owned());

    let mut a_install_docs: Vec<String> = Vec::new();
    a_install_docs.push("-j".to_owned());
    a_install_docs.push(n.clone());
    a_install_docs.push("install-docs".to_owned());

    proof {
        assert(a_autoconf.deep_view() =~= seq!["autoconf"@]);
        assert(a_make.deep_view() =~= seq!["-j"@, spec_decimal(ncpu as nat)]);
        assert(a_docs.deep_view() =~= seq![
            "-j"@,
            spec_decimal(ncpu as nat),
            "docs"@,
            "DOC_TARGETS=chunks"@,
        ]);
        assert(a_install.deep_view() =~= seq!["-j"@, spec_decimal(ncpu as nat), "install"@]);
        assert(a_install_docs.deep_view() =~= seq![
            "-j"@,
            spec_decimal(ncpu as nat),
            "install-docs"@,
        ]);
    }

    let mut steps: Vec<BuildStep> = Vec::new();
    steps.push(BuildStep::Exec { cmd: "./otp_build".to_owned(), args: a_autoconf });
    steps.push(BuildStep::Exec { cmd: "./configure".to_owned(), args: configure_args });
    steps.push(BuildStep::CheckOpenSsl);
    steps.push(BuildStep::Exec { cmd: "make".to_owned(), args: a_make });
    steps.push(BuildStep::Exec { cmd: "make".to_owned(), args: a_docs });
    steps.push(BuildStep::CheckInstallGate);
    steps.push(BuildStep::Exec { cmd: "make".to_owned(), args: a_install });
    steps.push(BuildStep::Exec { cmd: "make".to_owned(), args: a_install_docs });
    proof {
        assert(steps_model(steps@) =~~= spec_steps(opts, spec_decimal(ncpu as nat)));
    }
    steps
}

/// Whether every recorded command outcome is a success.
pub open spec fn all_true(log: Seq<bool>) -> bool {
    forall|i: int| 0 <= i < log.len() ==> log[i]
}

/// What the install gate decides: abort the pipeline, or proceed to the install
/// steps, removing a stale installation directory first when one is there.
#[derive(Clone, Copy, PartialEq, Eq, Structural, Debug)]
pub enum GateDecision {
    Abort,
    Proceed { remove_stale: bool },
}

/// Sequences the steps of one build and aggregates command failures.
///
/// The unverified shell asks for the current step, performs its external
/// work (spawning a command, or observing the file system for a check) and
/// reports the observation back; every decision in between is made here.
pub struct Engine {
    steps: Vec<BuildStep>,
    idx: usize,
    status: BuildStatus,
    aborted: bool,
    exec_log: Ghost<Seq<bool>>,
}

impl Engine {
    /// The step table, as models.
    pub closed spec fn steps(&self) -> Seq<StepModel> {
        steps_model(self.steps@)
    }

    /// How many steps have been processed.
    pub closed spec fn position(&self) -> int {
        self.idx as int
    }

    /// The accumulated build status.
    pub closed spec fn status(&self) -> BuildStatus {
        self.status
    }

    /// Whether the install gate aborted the pipeline.
    pub closed spec fn aborted(&self) -> bool {
        self.aborted
    }

    /// The exit outcomes of the commands run so far, in order.
    pub closed spec fn log(&self) -> Seq<bool> {
        self.exec_log@
    }

    /// Whether every command run so far exited successfully.
    pub open spec fn all_execs_ok(&self) -> bool {
        all_true(self.log())
    }

    /// The status is exactly the conjunction of the command outcomes, and
    /// the position never leaves the table.
    #[verifier::type_invariant]
    spec fn wf(&self) -> bool {
        &&& self.idx <= self.steps@.len()
        &&& (self.status is Success <==> all_true(self.exec_log@))
    }

    /// A fresh engine at the head of the table.
    pub fn new(steps: Vec<BuildStep>) -> (e: Engine)
        ensures
            e.steps() == steps_model(steps@),
            e.position() == 0,
            e.status() is Success,
            !e.aborted(),
            e.log() == Seq::<bool>::empty(),
    {
        Engine {
            steps,
            idx: 0,
            status: BuildStatus::Success,
            aborted: false,
            exec_log: Ghost(Seq::empty()),
        }
    }

    /// The next step to process; `None` once the pipeline has aborted or
    /// run out of steps.
    pub fn current_step(&self) -> (r: Option<&BuildStep>)
        ensures
            match r {
                Some(s) => !self.aborted() && 0 <= self.position() < self.steps().len()
                    && step_model(*s) == self.steps()[self.position()],
                None => self.aborted() || self.position() >= self.steps().len(),
            },
    {
        proof {
            use_type_invariant(self);
        }
        if self.aborted || self.idx >= self.steps.len() {
            None
        } else {
            Some(&self.steps[self.idx])
        }
    }

    /// Records the exit outcome of the current command.  A failure turns
    /// the status to `Fail` — for good: the status never recovers — but
    /// never halts the sequence; later steps still run.
    pub fn record_exec(&mut self, ok: bool)
        requires
            !old(self).aborted(),
            old(self).position() < old(self).steps().len(),
            old(self).steps()[old(self).position()] is Exec,
        ensures
            final(self).steps() == old(self).steps(),
            final(self).position() == old(self).position() + 1,
            !final(self).aborted(),
            final(self).log() == old(self).log().push(ok),
            final(self).status() is Success <==> (old(self).status() is Success && ok),
    {
        proof {
            use_type_invariant(&*self);
            assert(steps_model(self.steps@).len() == self.steps@.len());
        }
        let mut tmp = Engine::new(Vec::new());
        core::mem::swap(&mut tmp, self);
        proof {
            use_type_invariant(&tmp);
        }
        let Engine { steps, idx, status, aborted, exec_log } = tmp;
        let n = steps.len();
        assert(idx < n);
        let ghost old_log = exec_log@;
        let new_status = if ok {
            status
        } else {
            BuildStatus::Fail
        };
        proof {
            if new_status is Success {
                assert forall|i: int| 0 <= i < old_log.push(ok).len() implies old_log.push(ok)[i]
                    by {
                    if i < old_log.len() {
                        assert(old_log[i]);
                    }
                }
                assert(all_true(old_log.push(ok)));
            } else {
                if !ok {
                    assert(!old_log.push(ok)[old_log.len() as int]);
                } else {
                    assert(!all_true(old_log));
                    let i = choose|i: int| 0 <= i < old_log.len() && !old_log[i];
                    assert(!old_log.push(ok)[i]);
                }
                assert(!all_true(old_log.push(ok)));
            }
            assert(new_status is Success <==> all_true(old_log.push(ok)));
        }
        *self = Engine {
            steps,
            idx: idx + 1,
            status: new_status,
            aborted,
            exec_log: Ghost(old_log.push(ok)),
        };
    }

    /// Processes the OpenSSL advisory check: a missing OpenSSL yields a
    /// warning and nothing else — this check never fails the build.
    pub fn check_openssl(&mut self, openssl_found: bool) -> (warning: Option<String>)
        requires
            !old(self).aborted(),
            old(self).position() < old(self).steps().len(),
            old(self).steps()[old(self).position()] is CheckOpenSsl,
        ensures
            final(self).steps() == old(self).steps(),
            final(self).position() == old(self).position() + 1,
            final(self).aborted() == old(self).aborted(),
            final(self).log() == old(self).log(),
            final(self).status() == old(self).status(),
            warning is Some <==> !openssl_found,
            warning matches Some(w) ==> w@
                == "No usable OpenSSL found, please specify one with --with-ssl configure option, `crypto` application will not work in current build"@,
    {
        proof {
            use_type_invariant(&*self);
            assert(steps_model(self.steps@).len() == self.steps@.len());
        }
        let mut tmp = Engine::new(Vec::new());
        core::mem::swap(&mut tmp, self);
        proof {
            use_type_invariant(&tmp);
        }
        let Engine { steps, idx, status, aborted, exec_log } = tmp;
        let n = steps.len();
        assert(idx < n);
        proof {
            assert(status is Success <==> all_true(exec_log@));
        }
        *self = Engine { steps, idx: idx + 1, status, aborted, exec_log };
        if !openssl_found {
            Some(
                "No usable OpenSSL found, please specify one with --with-ssl configure option, `crypto` application will not work in current build".to_owned(),
            )
        } else {
            None
        }
    }

    /// Processes the install gate, which aborts exactly when some
    /// earlier command failed; then the pipeline is over: the install
    /// steps never run and no installation directory is touched.  After an
    /// all-successful run it proceeds, ordering a stale (non-empty)
    /// installation directory removed first.
    pub fn check_gate(&mut self, install_dir_empty: bool) -> (d: GateDecision)
        requires
            !old(self).aborted(),
            old(self).position() < old(self).steps().len(),
            old(self).steps()[old(self).position()] is CheckInstallGate,
        ensures
            final(self).steps() == old(self).steps(),
            final(self).position() == old(self).position() + 1,
            final(self).log() == old(self).log(),
            final(self).status() == old(self).status(),
            d is Abort <==> old(self).status() is Fail,
            d is Abort <==> !old(self).all_execs_ok(),
            final(self).aborted() <==> old(self).status() is Fail,
            old(self).status() is Success ==> d == (GateDecision::Proceed {
                remove_stale: !install_dir_empty,
            }),
    {
        proof {
            use_type_invariant(&*self);
            assert(steps_model(self.steps@).len() == self.steps@.len());
        }
        let mut tmp = Engine::new(Vec::new());
        core::mem::swap(&mut tmp, self);
        proof {
            use_type_invariant(&tmp);
        }
        let Engine { steps, idx, status, aborted, exec_log } = tmp;
        let n = steps.len();
        assert(idx < n);
        let failed = match status {
            BuildStatus::Fail => true,
            BuildStatus::Success => false,
        };
        proof {
            assert(status is Success <==> all_true(exec_log@));
        }
        *self = Engine { steps, idx: idx + 1, status, aborted: failed, exec_log };
        if failed {
            GateDecision::Abort
        } else {
            GateDecision::Proceed { remove_stale: !install_dir_empty }
        }
    }

    /// Whether the pipeline ran every step without the install gate aborting.
    pub fn is_complete(&self) -> (b: bool)
        ensures
            b == (self.position() == self.steps().len() && !self.aborted()),
    {
        proof {
            use_type_invariant(self);
        }
        !self.aborted && self.idx == self.steps.len()
    }

    /// Whether every command so far exited successfully.
    pub fn succeeded(&self) -> (b: bool)
        ensures
            b == (self.status() is Success),
            b == self.all_execs_ok(),
    {
        proof {
            use_type_invariant(self);
        }
        match self.status {
            BuildStatus::Success => true,
            BuildStatus::Fail => false,
        }
    }
}

/// Everything the unverified shell needs to run one build: where the
/// repository is cached, where the installation goes, and the step table.
pub struct BuildPlan {
    pub git_ref: String,
    pub repo_url: String,
    pub repo_dir: String,
    pub install_dir: String,
    pub dist_dir: String,
    pub links_dir: String,
    pub steps: Vec<BuildStep>,
}

/// Why a build request was refused before any step ran.
#[derive(Debug)]
pub enum BuildError {
    /// An installation directory for the id already exists and the
    /// request was not forced.
    AlreadyExists { id: String },
    /// The configure option string is malformed (an unclosed quote).
    BadOptions,
}

/// How a plan relates to the request it was made for: the directories are
/// laid out under the cache directory, and the step table carries the
/// `--prefix` option first — user-supplied tokens follow it and cannot
/// displace it — and the given parallelism hint.
pub open spec fn plan_matches(
    p: BuildPlan,
    cache: Seq<char>,
    repo: Seq<char>,
    url: Seq<char>,
    git_ref: Seq<char>,
    id: Seq<char>,
    opts: Seq<Seq<char>>,
    ncpu: nat,
) -> bool {
    &&& p.git_ref@ == git_ref
    &&& p.repo_url@ == url
    &&& p.repo_dir@ == cache + "/"@ + "repos"@ + "/"@ + repo
    &&& p.install_dir@ == cache + "/"@ + "otps"@ + "/"@ + id
    &&& p.dist_dir@ == p.install_dir@ + "/"@ + "dist"@
    &&& p.links_dir@ == cache + "/"@ + "bin"@
    &&& steps_model(p.steps@) == spec_steps(
        seq!["--prefix"@, p.dist_dir@] + opts,
        spec_decimal(ncpu),
    )
}

/// Relies on `num_cpus::get`: the crate documents that the returned count
/// is always at least one.
#[verifier::external_body]
fn cpu_count() -> (n: usize)
    ensures
        1 <= n,
{
    num_cpus::get()
}

/// The configure options for a build: the environment override when one is
/// set, otherwise the configured default, otherwise nothing.
pub fn configure_options_source<'a>(env_override: Option<&'a String>, conf: &'a ConfigData) -> (r:
    &'a str)
    ensures
        r@ == match env_override {
            Some(e) => e@,
            None => match spec_lookup(*conf, "erlup"@, "default_configure_options"@) {
                Some(v) => v,
                None => ""@,
            },
        },
{
    match env_override {
        Some(e) => e.as_str(),
        None => config::lookup_with_default("erlup", "default_configure_options", "", conf),
    }
}

/// Lays out the plan for one build at a given parallelism: splits the
/// option string, prepends the mandatory `--prefix`, and fills in the
/// directories under the cache directory.
pub fn make_plan(
    cache_dir: &str,
    repo: &str,
    repo_url: &str,
    git_ref: &str,
    id: &str,
    user_options: &str,
    ncpu: u64,
) -> (r: Result<BuildPlan, BuildError>)
    ensures
        match r {
            Ok(p) => spec_split(user_options@) matches Some(opts) && plan_matches(
                p,
                cache_dir@,
                repo@,
                repo_url@,
                git_ref@,
                id@,
                opts,
                ncpu as nat,
            ),
            Err(e) => e is BadOptions && spec_split(user_options@) is None,
        },
{
    let mut user_opts = match split(user_options) {
        Ok(words) => words,
        Err(SplitError::UnclosedQuote) => {
            return Err(BuildError::BadOptions);
        },
    };
    let ghost user_views = user_opts.deep_view();
    let repos_dir = path_join(cache_dir, "repos");
    let repo_dir = path_join(repos_dir.as_str(), repo);
    let otps_dir = path_join(cache_dir, "otps");
    let install_dir = path_join(otps_dir.as_str(), id);
    let dist_dir = path_join(install_dir.as_str(), "dist");
    let links_dir = path_join(cache_dir, "bin");

    let mut configure_args: Vec<String> = Vec::new();
    configure_args.push("--prefix".to_owned());
    configure_args.push(dist_dir.clone());
    let ghost prefix_views = configure_args.deep_view();
    configure_args.append(&mut user_opts);
    proof {
        assert(prefix_views =~= seq!["--prefix"@, dist_dir@]);
        assert(configure_args.deep_view() =~= prefix_views + user_views);
    }
    let steps = build_steps(configure_args, ncpu);
    Ok(
        BuildPlan {
            git_ref: git_ref.to_owned(),
            repo_url: repo_url.to_owned(),
            repo_dir,
            install_dir,
            dist_dir,
            links_dir,
            steps,
        },
    )
}

/// Decides a build request.  An id whose installation directory already
/// exists is refused unless the request is forced; otherwise the plan is
/// laid out with the machine's CPU count as the parallelism hint.
pub fn run(
    cache_dir: &str,
    repo: &str,
    repo_url: &str,
    git_ref: &str,
    id: &str,
    user_options: &str,
    install_dir_exists: bool,
    force: bool,
) -> (r: Result<BuildPlan, BuildError>)
    ensures
        install_dir_exists && !force ==> (r matches Err(e) && (e matches BuildError::AlreadyExists {
            id: s,
        } && s@ == id@)),
        !(install_dir_exists && !force) ==> match r {
            Ok(p) => spec_split(user_options@) matches Some(opts) && (exists|n: nat|
                1 <= n && #[trigger] plan_matches(
                    p,
                    cache_dir@,
                    repo@,
                    repo_url@,
                    git_ref@,
                    id@,
                    opts,
                    n,
                )),
            Err(e) => e is BadOptions && spec_split(user_options@) is None,
        },
{
    if install_dir_exists && !force {
        return Err(BuildError::AlreadyExists { id: id.to_owned() });
    }
    let ncpu = cpu_count();
    let r = make_plan(cache_dir, repo, repo_url, git_ref, id, user_options, ncpu as u64);
    proof {
        if r is Ok {
            let opts = spec_split(user_options@)->Some_0;
            assert(plan_matches(
                r->Ok_0,
                cache_dir@,
                repo@,
                repo_url@,
                git_ref@,
                id@,
                opts,
                ncpu as nat,
            ));
        }
    }
    r
}

/// Unregisters a toolchain and names the installation directory the caller
/// must then remove from disk; a missing directory is the caller's fatal
/// error, not a no-op.
pub fn delete(id: &str, cache_dir: &str, conf: &mut ConfigData) -> (install_dir: String)
    ensures
        install_dir@ == cache_dir@ + "/"@ + "otps"@ + "/"@ + id@,
        spec_lookup(*final(conf), "erlangs"@, id@) is None,
        forall|s: Seq<char>, k: Seq<char>|
            !(s == "erlangs"@ && k == id@) ==> #[trigger] spec_lookup(*final(conf), s, k)
                == spec_lookup(*old(conf), s, k),
{
    config::delete(id, conf);
    let otps_dir = path_join(cache_dir, "otps");
    path_join(otps_dir.as_str(), id)
}

/// Writes the toolchain record for a build that ran every step and
/// succeeded: the registry then maps the id to the installation's `dist`
/// directory.  Any other outcome — an abort at the install gate, a failed install
/// step, an unfinished run — leaves the registry untouched.
pub fn finish_build(e: &Engine, id: &str, dist_dir: &str, conf: &mut ConfigData) -> (registered:
    bool)
    ensures
        registered <==> (e.position() == e.steps().len() && !e.aborted() && e.status() is Success),
        registered ==> spec_lookup(*final(conf), "erlangs"@, id@) == Some(dist_dir@) && (forall|
            s: Seq<char>,
            k: Seq<char>,
        |
            !(s == "erlangs"@ && k == id@) ==> #[trigger] spec_lookup(*final(conf), s, k)
                == spec_lookup(*old(conf), s, k)),
        !registered ==> *final(conf) == *old(conf),
{
    if e.is_complete() && e.succeeded() {
        config::update(id, dist_dir, conf);
        true
    } else {
        false
    }
}

} // verus!
