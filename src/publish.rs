use vstd::prelude::*;

use crate::config::{exclude_of, AppConfig};
use crate::repositories::{
    build, conflicts_resolved, name_of, selected, update_config, Repositories,
};

verus! {

/// The steps of publishing to one repository, in order. A step that fails
/// ends the pipeline, except the probe for an existing `master` branch,
/// whose failure only skips the checkout.
#[derive(Debug, Clone, Copy, PartialEq, Eq, Structural)]
pub enum PublishStep {
    /// Create the repository's working directory afresh.
    Acquire,
    /// Initialise a local git repository there.
    Init,
    /// Add the target remote as `origin`.
    AddRemote,
    /// Fetch the remote.
    Fetch,
    /// Ask whether the remote has a `master` branch.
    ProbeMaster,
    /// Check out the remote's `master`.
    Checkout,
    /// Render the manifest files, writing and staging each one.
    Render,
    /// Commit the staged files.
    Commit,
    /// Push to the remote's `master`.
    Push,
    /// Finished.
    Done,
    /// Stopped by a failure.
    Failed,
}

/// The step after `step`, given whether it succeeded.
pub open spec fn publish_next(step: PublishStep, ok: bool, dry_run: bool) -> PublishStep {
    match step {
        PublishStep::Done => PublishStep::Done,
        PublishStep::Failed => PublishStep::Failed,
        PublishStep::ProbeMaster => if ok {
            PublishStep::Checkout
        } else {
            PublishStep::Render
        },
        _ => if !ok {
            PublishStep::Failed
        } else {
            match step {
                PublishStep::Acquire => PublishStep::Init,
                PublishStep::Init => PublishStep::AddRemote,
                PublishStep::AddRemote => PublishStep::Fetch,
                PublishStep::Fetch => PublishStep::ProbeMaster,
                PublishStep::Checkout => PublishStep::Render,
                PublishStep::Render => PublishStep::Commit,
                PublishStep::Commit => if dry_run {
                    PublishStep::Done
                } else {
                    PublishStep::Push
                },
                _ => PublishStep::Done,
            }
        },
    }
}

/// The steps taken from `step` on, given the result of each step in turn.
pub open spec fn publish_trace(step: PublishStep, results: Seq<bool>, dry_run: bool) -> Seq<
    PublishStep,
>
    decreases results.len(),
{
    if results.len() == 0 {
        seq![step]
    } else {
        seq![step] + publish_trace(publish_next(step, results[0], dry_run), results.drop_first(), dry_run)
    }
}

/// The next step of the pipeline once `step` succeeded (`ok`) or failed.
pub fn next_step(step: PublishStep, ok: bool, dry_run: bool) -> (r: PublishStep)
    ensures
        r == publish_next(step, ok, dry_run),
{
    match step {
        PublishStep::Done => PublishStep::Done,
        PublishStep::Failed => PublishStep::Failed,
        PublishStep::ProbeMaster => if ok {
            PublishStep::Checkout
        } else {
            PublishStep::Render
        },
        _ => if !ok {
            PublishStep::Failed
        } else {
            match step {
                PublishStep::Acquire => PublishStep::Init,
                PublishStep::Init => PublishStep::AddRemote,
                PublishStep::AddRemote => PublishStep::Fetch,
                PublishStep::Fetch => PublishStep::ProbeMaster,
                PublishStep::Checkout => PublishStep::Render,
                PublishStep::Render => PublishStep::Commit,
                PublishStep::Commit => if dry_run {
                    PublishStep::Done
                } else {
                    PublishStep::Push
                },
                _ => PublishStep::Done,
            }
        },
    }
}

/// In dry-run mode the pipeline never reaches the push step, whatever the
/// steps' results, while rendering and the local commit still take place
/// when every step succeeds.
pub proof fn dry_run_never_pushes(step: PublishStep, results: Seq<bool>)
    requires
        step != PublishStep::Push,
    ensures
        !publish_trace(step, results, true).contains(PublishStep::Push),
    decreases results.len(),
{
    if results.len() > 0 {
        let next = publish_next(step, results[0], true);
        dry_run_never_pushes(next, results.drop_first());
        let rest = publish_trace(next, results.drop_first(), true);
        let t = seq![step] + rest;
        if t.contains(PublishStep::Push) {
            let k = choose|k: int| 0 <= k < t.len() && t[k] == PublishStep::Push;
            assert(rest[k - 1] == PublishStep::Push);
        }
    } else {
        let t = publish_trace(step, results, true);
        assert(t =~= seq![step]);
        if t.contains(PublishStep::Push) {
            let k = choose|k: int| 0 <= k < t.len() && t[k] == PublishStep::Push;
            assert(t[k] == step);
        }
    }
}

/// When every step succeeds on a remote with a `master` branch, a dry run
/// renders and commits and stops, and a live run goes on to push.
pub proof fn successful_runs()
    ensures
        publish_trace(PublishStep::Acquire, seq![true, true, true, true, true, true, true, true], true)
            =~= seq![
            PublishStep::Acquire,
            PublishStep::Init,
            PublishStep::AddRemote,
            PublishStep::Fetch,
            PublishStep::ProbeMaster,
            PublishStep::Checkout,
            PublishStep::Render,
            PublishStep::Commit,
            PublishStep::Done,
        ],
        publish_trace(
            PublishStep::Acquire,
            seq![true, true, true, true, true, true, true, true, true],
            false,
        ) =~= seq![
            PublishStep::Acquire,
            PublishStep::Init,
            PublishStep::AddRemote,
            PublishStep::Fetch,
            PublishStep::ProbeMaster,
            PublishStep::Checkout,
            PublishStep::Render,
            PublishStep::Commit,
            PublishStep::Push,
            PublishStep::Done,
        ],
{
    reveal_with_fuel(publish_trace, 11);
}

/// The commit message of a publish: `<repository>: <version>`.
pub open spec fn commit_message_of(repo: Repositories, version: Seq<char>) -> Seq<char> {
    name_of(repo) + ": "@ + version
}

/// The commit message of a publish.
pub fn commit_message(repo: Repositories, version: &str) -> (r: String)
    ensures
        r@ == commit_message_of(repo, version@),
{
    repo.name().to_owned().concat(": ").concat(version)
}

/// The working directory of a repository's publish, one per repository.
pub open spec fn workspace_dir_of(repo: Repositories) -> Seq<char> {
    "/tmp/publisher/"@ + name_of(repo)
}

/// The working directory of a repository's publish.
pub fn workspace_dir(repo: Repositories) -> (r: String)
    ensures
        r@ == workspace_dir_of(repo),
{
    "/tmp/publisher/".to_owned().concat(repo.name())
}

/// The `publish` command: the version to publish, the repositories asked
/// for (none means every one), and whether to push for real.
#[derive(Debug)]
pub struct Publish {
    pub version: String,
    pub repositories: Vec<Repositories>,
    pub no_dry_run: bool,
}

impl Publish {
    /// Whether this is a dry run: everything but the push.
    pub fn dry_run(&self) -> (r: bool)
        ensures
            r == !self.no_dry_run,
    {
        !self.no_dry_run
    }

    /// Prepares the command: resolves the conflicts between the selected
    /// repositories in `config`, once, and gives the repositories to publish
    /// to, in order.
    pub fn run(&self, config: &mut AppConfig) -> (r: Vec<Repositories>)
        ensures
            conflicts_resolved(
                *old(config),
                *final(config),
                self.repositories@,
                exclude_of(*old(config)),
            ),
            r@ == selected(self.repositories@, exclude_of(*old(config))),
    {
        let exclude = config.exclude_list();
        update_config(&self.repositories, &exclude, config);
        build(&self.repositories, &exclude)
    }
}

} // verus!
