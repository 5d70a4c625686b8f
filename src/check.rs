use vstd::prelude::*;

use crate::config::{exclude_of, AppConfig};
use crate::repositories::{build, selected, Repositories};
use crate::text::{contains, is_substring};

verus! {

/// What a check outcome is in contracts: the failure message, if any, and
/// whether a failure is only a warning.
pub type OutcomeView = (Option<Seq<char>>, bool);

pub open spec fn opt_str_view(o: Option<String>) -> Option<Seq<char>> {
    match o {
        Some(s) => Some(s@),
        None => None,
    }
}

/// Outcome of one named check. A `None` message is a pass; `warn` marks a
/// failure that is displayed but does not fail the command.
#[derive(Debug)]
pub struct CheckOutcome {
    pub message: Option<String>,
    pub warn: bool,
}

impl View for CheckOutcome {
    type V = OutcomeView;

    open spec fn view(&self) -> OutcomeView {
        (opt_str_view(self.message), self.warn)
    }
}

impl CheckOutcome {
    /// A failure of severity `Fail`.
    pub open spec fn is_failure(o: OutcomeView) -> bool {
        o.0 is Some && !o.1
    }

    pub fn duplicate(&self) -> (r: CheckOutcome)
        ensures
            r@ == self@,
    {
        let message = match &self.message {
            Some(m) => Some(m.clone()),
            None => None,
        };
        CheckOutcome { message, warn: self.warn }
    }
}

/// The mathematical state of a `CheckResults`.
pub struct ResultsModel {
    /// The repository whose checks are running.
    pub current: Option<Seq<char>>,
    /// Each check name with its latest outcome, in the order first recorded.
    pub checked: Seq<(Seq<char>, OutcomeView)>,
    /// Which repository relied on which check, in order of attribution.
    pub attributions: Seq<(Seq<char>, Seq<char>)>,
}

impl ResultsModel {
    pub open spec fn names(self) -> Seq<Seq<char>> {
        self.checked.map_values(|e: (Seq<char>, OutcomeView)| e.0)
    }

    /// Each check name is recorded once, and each (repository, check) pair is
    /// attributed once.
    pub open spec fn wf(self) -> bool {
        &&& self.names().no_duplicates()
        &&& self.attributions.no_duplicates()
        &&& forall|k: int|
            0 <= k < self.attributions.len() ==> #[trigger] self.has(self.attributions[k].1)
    }

    pub open spec fn has(self, name: Seq<char>) -> bool {
        self.names().contains(name)
    }

    pub open spec fn outcome(self, name: Seq<char>) -> OutcomeView {
        self.checked[self.names().index_of(name)].1
    }

    /// Lists `name` among the checks of the current repository, unless it is
    /// there already.
    pub open spec fn attribute(self, name: Seq<char>) -> ResultsModel {
        let pair = (self.current->Some_0, name);
        if self.attributions.contains(pair) {
            self
        } else {
            ResultsModel { attributions: self.attributions.push(pair), ..self }
        }
    }

    /// Stores the outcome of `name`, replacing an earlier one, and attributes
    /// the check to the current repository.
    pub open spec fn record(self, name: Seq<char>, o: OutcomeView) -> ResultsModel {
        let checked = if self.has(name) {
            self.checked.update(self.names().index_of(name), (name, o))
        } else {
            self.checked.push((name, o))
        };
        ResultsModel { checked, ..self }.attribute(name)
    }

    /// The checks attributed to `repo`, in order.
    pub open spec fn checks_for(self, repo: Seq<char>) -> Seq<Seq<char>> {
        self.attributions.filter(|p: (Seq<char>, Seq<char>)| p.0 == repo).map_values(
            |p: (Seq<char>, Seq<char>)| p.1,
        )
    }
}

/// The accumulator of named check outcomes for one `check` invocation, with
/// per-check memoisation and per-repository attribution.
#[derive(Debug)]
pub struct CheckResults {
    current: Option<String>,
    checked: Vec<(String, CheckOutcome)>,
    attributions: Vec<(String, String)>,
}

impl View for CheckResults {
    type V = ResultsModel;

    closed spec fn view(&self) -> ResultsModel {
        ResultsModel {
            current: opt_str_view(self.current),
            checked: self.checked@.map_values(|e: (String, CheckOutcome)| (e.0@, e.1@)),
            attributions: self.attributions@.map_values(|p: (String, String)| (p.0@, p.1@)),
        }
    }
}

proof fn lemma_index_of_unique(s: Seq<Seq<char>>, i: int)
    requires
        s.no_duplicates(),
        0 <= i < s.len(),
    ensures
        s.contains(s[i]),
        s.index_of(s[i]) == i,
{
    assert(s.contains(s[i]));
}

impl CheckResults {
    /// Fresh results: no repository, no check.
    pub fn new() -> (r: CheckResults)
        ensures
            r@.current is None,
            r@.checked.len() == 0,
            r@.attributions.len() == 0,
            r@.wf(),
    {
        CheckResults { current: None, checked: Vec::new(), attributions: Vec::new() }
    }

    /// Sets the repository whose checks run next.
    pub fn set_current(&mut self, repo: &str)
        requires
            old(self)@.wf(),
        ensures
            final(self)@ == (ResultsModel { current: Some(repo@), ..old(self)@ }),
            final(self)@.wf(),
    {
        let ghost before = self@;
        self.current = Some(repo.to_owned());
        proof {
            assert(self@.names() == before.names());
            assert(self@.attributions == before.attributions);
            assert forall|k: int| 0 <= k < self@.attributions.len() implies #[trigger] self@.has(
                self@.attributions[k].1,
            ) by {
                assert(before.has(before.attributions[k].1));
            }
        }
    }

    /// The position of `name` among the recorded checks.
    fn position(&self, name: &String) -> (r: Option<usize>)
        requires
            self@.wf(),
        ensures
            match r {
                Some(i) => i < self@.checked.len() && self@.names().index_of(name@) == i
                    && self@.has(name@) && self@.names()[i as int] == name@,
                None => !self@.has(name@),
            },
    {
        let mut i: usize = 0;
        while i < self.checked.len()
            invariant
                i <= self.checked.len(),
                self@.wf(),
                forall|j: int| 0 <= j < i ==> self@.names()[j] != name@,
            decreases self.checked.len() - i,
        {
            if self.checked[i].0 == *name {
                proof {
                    lemma_index_of_unique(self@.names(), i as int);
                }
                return Some(i);
            }
            i = i + 1;
        }
        None
    }

    /// Attributes `name` to the current repository, once per pair.
    fn add_check_to_repo(&mut self, name: &String)
        requires
            old(self)@.wf(),
            old(self)@.current is Some,
            old(self)@.has(name@),
        ensures
            final(self)@ == old(self)@.attribute(name@),
            final(self)@.wf(),
    {
        let current = match &self.current {
            Some(c) => c.clone(),
            None => String::new(),
        };
        let ghost pair = (current@, name@);
        let mut i: usize = 0;
        while i < self.attributions.len()
            invariant
                i <= self.attributions.len(),
                self@.wf(),
                self@.current is Some,
                current@ == self@.current->Some_0,
                pair == (current@, name@),
                forall|j: int| 0 <= j < i ==> self@.attributions[j] != pair,
            decreases self.attributions.len() - i,
        {
            if self.attributions[i].0 == current && self.attributions[i].1 == *name {
                proof {
                    assert(self@.attributions[i as int] == pair);
                }
                return;
            }
            i = i + 1;
        }
        let ghost before = self@;
        self.attributions.push((current, name.clone()));
        proof {
            assert(!before.attributions.contains(pair));
            assert(self@.attributions =~= before.attributions.push(pair));
            assert(self@.names() == before.names());
            assert forall|k: int| 0 <= k < self@.attributions.len() implies #[trigger] self@.has(
                self@.attributions[k].1,
            ) by {
                if k < before.attributions.len() {
                    assert(before.has(before.attributions[k].1));
                }
            }
        }
    }

    /// Whether `name` was checked already; if so, the current repository is
    /// recorded as relying on it.
    pub fn has_checked(&mut self, name: &str) -> (r: bool)
        requires
            old(self)@.wf(),
            old(self)@.current is Some,
        ensures
            r == old(self)@.has(name@),
            final(self)@ == (if r {
                old(self)@.attribute(name@)
            } else {
                old(self)@
            }),
            final(self)@.wf(),
    {
        let name = name.to_owned();
        let checked = self.position(&name).is_some();
        if checked {
            self.add_check_to_repo(&name);
        }
        checked
    }

    /// Records a check outcome of severity `Fail` (or a pass).
    pub fn add_result(&mut self, name: &str, result: Option<String>)
        requires
            old(self)@.wf(),
            old(self)@.current is Some,
        ensures
            final(self)@ == old(self)@.record(name@, (opt_str_view(result), false)),
            final(self)@.wf(),
    {
        self.add_result_warn(name, result, false);
    }

    /// Records a check outcome; `warn` makes a failure a warning only.
    pub fn add_result_warn(&mut self, name: &str, result: Option<String>, warn: bool)
        requires
            old(self)@.wf(),
            old(self)@.current is Some,
        ensures
            final(self)@ == old(self)@.record(name@, (opt_str_view(result), warn)),
            final(self)@.wf(),
    {
        let ghost o = (opt_str_view(result), warn);
        let ghost before = self@;
        let name = name.to_owned();
        let outcome = CheckOutcome { message: result, warn };
        match self.position(&name) {
            Some(i) => {
                self.checked.set(i, (name.clone(), outcome));
                proof {
                    assert(self@.checked =~= before.checked.update(i as int, (name@, o)));
                    assert(self@.names() =~= before.names());
                    assert(self@.attributions == before.attributions);
                    assert(self@.has(name@));
                    assert forall|k: int| 0 <= k < self@.attributions.len() implies #[trigger] self@.has(
                        self@.attributions[k].1,
                    ) by {
                        assert(before.has(before.attributions[k].1));
                    }
                }
            },
            None => {
                self.checked.push((name.clone(), outcome));
                proof {
                    assert(self@.checked =~= before.checked.push((name@, o)));
                    assert(self@.names() =~= before.names().push(name@));
                    assert(self@.names()[before.names().len() as int] == name@);
                    assert(self@.has(name@));
                    assert forall|k: int| 0 <= k < self@.attributions.len() implies #[trigger] self@.has(
                        self@.attributions[k].1,
                    ) by {
                        let n = self@.attributions[k].1;
                        assert(before.has(n));
                        let j = before.names().index_of(n);
                        assert(self@.names()[j] == n);
                    }
                    assert(self@.names().no_duplicates());
                }
            },
        }
        self.add_check_to_repo(&name);
    }
}


/// The message of a tool check: none when the probe's output holds the
/// expected text, else that the program is not installed.
pub open spec fn program_message(program: Seq<char>, output: Option<Seq<char>>, expect: Seq<char>)
    -> Option<Seq<char>> {
    match output {
        Some(o) if is_substring(expect, o) => None,
        _ => Some(program + " is not installed"@),
    }
}

/// Runs a tool check once per invocation. When `program` was checked
/// already, the current repository is recorded as relying on that outcome
/// and `probe` is not called. Otherwise `probe` gives the output of the
/// program's version probe (`None` when it could not run), and the outcome
/// is recorded under the program's name.
pub fn check_program<F: FnOnce() -> Option<String>>(
    results: &mut CheckResults,
    program: &str,
    expect: &str,
    probe: F,
)
    requires
        old(results)@.wf(),
        old(results)@.current is Some,
        probe.requires(()),
    ensures
        old(results)@.has(program@) ==> final(results)@ == old(results)@.attribute(program@),
        !old(results)@.has(program@) ==> exists|output: Option<String>|
            probe.ensures((), output) && final(results)@ == old(results)@.record(
                program@,
                (program_message(program@, opt_str_view(output), expect@), false),
            ),
        final(results)@.wf(),
{
    if results.has_checked(program) {
        return;
    }
    let output = probe();
    let ghost out = output;
    let found = match &output {
        Some(o) => contains(o.as_str(), expect),
        None => false,
    };
    let message = if found {
        None
    } else {
        Some(program.to_owned().concat(" is not installed"))
    };
    proof {
        assert(opt_str_view(message) == program_message(program@, opt_str_view(out), expect@));
    }
    results.add_result(program, message);
    proof {
        assert(probe.ensures((), out));
    }
}

/// Runs the git check once per invocation; `probe` gives the output of
/// `git --version`.
pub fn check_git<F: FnOnce() -> Option<String>>(results: &mut CheckResults, probe: F)
    requires
        old(results)@.wf(),
        old(results)@.current is Some,
        probe.requires(()),
    ensures
        old(results)@.has("git"@) ==> final(results)@ == old(results)@.attribute("git"@),
        !old(results)@.has("git"@) ==> exists|output: Option<String>|
            probe.ensures((), output) && final(results)@ == old(results)@.record(
                "git"@,
                (program_message("git"@, opt_str_view(output), "git version"@), false),
            ),
        final(results)@.wf(),
{
    check_program(results, "git", "git version", probe);
}

/// The banner that the AUR's SSH endpoint prints once access is configured.
pub open spec fn ssh_banner() -> Seq<char> {
    "Interactive shell is disabled."@
}

/// Whether the error output of an SSH login to the AUR shows that access is
/// configured.
pub fn ssh_configured(stderr: &str) -> (r: bool)
    ensures
        r == is_substring(ssh_banner(), stderr@),
{
    contains(stderr, "Interactive shell is disabled.")
}

/// Records the `ssh` check.
pub fn check_ssh(results: &mut CheckResults, configured: bool)
    requires
        old(results)@.wf(),
        old(results)@.current is Some,
    ensures
        final(results)@ == old(results)@.record(
            "ssh"@,
            (if configured {
                None
            } else {
                Some("AUR SSH access is not configured"@)
            }, false),
        ),
        final(results)@.wf(),
{
    let message = if configured {
        None
    } else {
        Some("AUR SSH access is not configured".to_owned())
    };
    results.add_result("ssh", message);
}

/// The stages of the remote-access probe, in order.
#[derive(Debug, Clone, Copy, PartialEq, Eq, Structural)]
pub enum ProbeStage {
    /// List the remote's refs: does it exist and hold anything.
    ListRefs,
    /// List the remote's heads filtered to the branch.
    ListHeads,
    /// Clone the remote into a scratch directory.
    Clone,
    /// Push the unchanged clone back.
    Push,
}

/// The stage after `stage`, when it succeeded.
pub open spec fn probe_next(stage: ProbeStage, ok: bool) -> Option<ProbeStage> {
    if !ok {
        None
    } else {
        match stage {
            ProbeStage::ListRefs => Some(ProbeStage::ListHeads),
            ProbeStage::ListHeads => Some(ProbeStage::Clone),
            ProbeStage::Clone => Some(ProbeStage::Push),
            ProbeStage::Push => None,
        }
    }
}

/// The `repo` outcome recorded when `stage` fails.
pub open spec fn probe_failure(stage: ProbeStage, branch: Seq<char>, warn_on_missing: bool)
    -> OutcomeView {
    match stage {
        ProbeStage::ListRefs => (Some("repository not found or is empty"@), warn_on_missing),
        ProbeStage::ListHeads => (
            Some("repository branch '"@ + branch + "' does not exist"@),
            false,
        ),
        ProbeStage::Clone => (Some("read access to the repository not configured"@), false),
        ProbeStage::Push => (Some("write access to the repository not configured"@), false),
    }
}

/// The stages that run, given the successive results of the stages run.
pub open spec fn probe_trace(stage: ProbeStage, results: Seq<bool>) -> Seq<ProbeStage>
    decreases results.len(),
{
    if results.len() == 0 {
        Seq::empty()
    } else {
        match probe_next(stage, results[0]) {
            Some(next) => seq![stage] + probe_trace(next, results.drop_first()),
            None => seq![stage],
        }
    }
}

/// Whether an earlier git check found git missing.
pub open spec fn git_missing(m: ResultsModel) -> bool {
    m.has("git"@) && m.outcome("git"@).0 is Some
}

impl CheckResults {
    /// Whether an outcome is recorded under `name` with a failure message
    /// (of either severity).
    fn failed_check(&self, name: &str) -> (r: bool)
        requires
            self@.wf(),
        ensures
            r == (self@.has(name@) && self@.outcome(name@).0 is Some),
    {
        let name = name.to_owned();
        match self.position(&name) {
            Some(i) => self.checked[i].1.message.is_some(),
            None => false,
        }
    }
}

/// Begins the remote-access probe. When git is known to be missing the probe
/// records that under `repo` and stops; otherwise the first stage is listing
/// the remote's refs.
pub fn probe_start(results: &mut CheckResults) -> (r: Option<ProbeStage>)
    requires
        old(results)@.wf(),
        old(results)@.current is Some,
    ensures
        git_missing(old(results)@) ==> r is None && final(results)@ == old(results)@.record(
            "repo"@,
            (Some("git is not installed"@), false),
        ),
        !git_missing(old(results)@) ==> r == Some(ProbeStage::ListRefs) && final(results)@ == old(
            results,
        )@,
        final(results)@.wf(),
{
    if results.failed_check("git") {
        results.add_result("repo", Some("git is not installed".to_owned()));
        None
    } else {
        Some(ProbeStage::ListRefs)
    }
}

/// Takes the result of one probe stage. A failure records its `repo` outcome
/// and ends the probe; a success gives the next stage, if any. After the push
/// stage, whatever its result, the scratch clone is removed by the caller.
pub fn probe_step(
    results: &mut CheckResults,
    stage: ProbeStage,
    ok: bool,
    branch: &str,
    warn_on_missing: bool,
) -> (r: Option<ProbeStage>)
    requires
        old(results)@.wf(),
        old(results)@.current is Some,
    ensures
        r == probe_next(stage, ok),
        final(results)@ == (if ok {
            old(results)@
        } else {
            old(results)@.record("repo"@, probe_failure(stage, branch@, warn_on_missing))
        }),
        final(results)@.wf(),
{
    if ok {
        return match stage {
            ProbeStage::ListRefs => Some(ProbeStage::ListHeads),
            ProbeStage::ListHeads => Some(ProbeStage::Clone),
            ProbeStage::Clone => Some(ProbeStage::Push),
            ProbeStage::Push => None,
        };
    }
    match stage {
        ProbeStage::ListRefs => {
            results.add_result_warn(
                "repo",
                Some("repository not found or is empty".to_owned()),
                warn_on_missing,
            );
        },
        ProbeStage::ListHeads => {
            let message = "repository branch '".to_owned().concat(branch).concat(
                "' does not exist",
            );
            results.add_result("repo", Some(message));
        },
        ProbeStage::Clone => {
            results.add_result(
                "repo",
                Some("read access to the repository not configured".to_owned()),
            );
        },
        ProbeStage::Push => {
            results.add_result(
                "repo",
                Some("write access to the repository not configured".to_owned()),
            );
        },
    }
    None
}

/// A remote that does not exist stops the probe at its first stage: no branch
/// listing, clone or push is attempted against it.
pub proof fn missing_remote_skips_later_stages(results: Seq<bool>)
    requires
        results.len() > 0,
        results[0] == false,
    ensures
        probe_trace(ProbeStage::ListRefs, results) == seq![ProbeStage::ListRefs],
{
}


/// Whether an attribution belongs to `repo`.
pub open spec fn attributed_to(repo: Seq<char>) -> spec_fn((Seq<char>, Seq<char>)) -> bool {
    |p: (Seq<char>, Seq<char>)| p.0 == repo
}

impl CheckResults {
    /// The checks that `repo` relied on, in order, each with its outcome.
    pub fn checks_for(&self, repo: &str) -> (r: Vec<(String, CheckOutcome)>)
        requires
            self@.wf(),
        ensures
            r@.len() == self@.checks_for(repo@).len(),
            forall|i: int|
                0 <= i < r@.len() ==> (#[trigger] r@[i]).0@ == self@.checks_for(repo@)[i]
                    && r@[i].1@ == self@.outcome(r@[i].0@),
    {
        let ghost pred = attributed_to(repo@);
        let repo_name = repo.to_owned();
        let mut out: Vec<(String, CheckOutcome)> = Vec::new();
        let mut k: usize = 0;
        while k < self.attributions.len()
            invariant
                k <= self.attributions.len(),
                self@.wf(),
                repo_name@ == repo@,
                pred == attributed_to(repo@),
                out@.len() == self@.attributions.take(k as int).filter(pred).len(),
                forall|i: int|
                    0 <= i < out@.len() ==> (#[trigger] out@[i]).0@ == self@.attributions.take(
                        k as int,
                    ).filter(pred)[i].1 && out@[i].1@ == self@.outcome(out@[i].0@),
            decreases self.attributions.len() - k,
        {
            let ghost prev = self@.attributions.take(k as int);
            proof {
                assert(self@.attributions.take(k + 1) =~= prev + seq![self@.attributions[k as int]]);
                Seq::filter_distributes_over_add(prev, seq![self@.attributions[k as int]], pred);
                reveal_with_fuel(Seq::filter, 2);
            }
            if self.attributions[k].0 == repo_name {
                let name = self.attributions[k].1.clone();
                let pos = self.position(&name);
                proof {
                    assert(self@.has(self@.attributions[k as int].1));
                }
                let outcome = match pos {
                    Some(i) => self.checked[i].1.duplicate(),
                    None => CheckOutcome { message: None, warn: false },
                };
                out.push((name, outcome));
            }
            k = k + 1;
        }
        proof {
            assert(self@.attributions.take(self@.attributions.len() as int) =~= self@.attributions);
        }
        out
    }
}

/// Some check that `repo` relied on failed with severity `Fail`.
pub open spec fn repo_has_failure(m: ResultsModel, repo: Seq<char>) -> bool {
    exists|i: int|
        0 <= i < m.checks_for(repo).len() && CheckOutcome::is_failure(
            #[trigger] m.outcome(m.checks_for(repo)[i]),
        )
}

impl CheckResults {
    /// Whether the command has failed once `repo`'s checks are in: it had
    /// failed already, or a check that `repo` relied on failed with severity
    /// `Fail`. Warnings never fail it.
    pub fn command_failed(&self, failed_before: bool, repo: &str) -> (r: bool)
        requires
            self@.wf(),
        ensures
            r == (failed_before || repo_has_failure(self@, repo@)),
    {
        failed_before || self.repo_failed(repo)
    }

    /// Whether any check that `repo` relied on failed with severity `Fail`.
    pub fn repo_failed(&self, repo: &str) -> (r: bool)
        requires
            self@.wf(),
        ensures
            r == repo_has_failure(self@, repo@),
    {
        let checks = self.checks_for(repo);
        let mut i: usize = 0;
        while i < checks.len()
            invariant
                i <= checks@.len(),
                checks@.len() == self@.checks_for(repo@).len(),
                forall|j: int|
                    0 <= j < checks@.len() ==> (#[trigger] checks@[j]).0@ == self@.checks_for(
                        repo@,
                    )[j] && checks@[j].1@ == self@.outcome(checks@[j].0@),
                forall|j: int|
                    0 <= j < i ==> !CheckOutcome::is_failure(
                        #[trigger] self@.outcome(self@.checks_for(repo@)[j]),
                    ),
            decreases checks.len() - i,
        {
            if checks[i].1.message.is_some() && !checks[i].1.warn {
                proof {
                    assert(checks@[i as int].0@ == self@.checks_for(repo@)[i as int]);
                }
                return true;
            }
            proof {
                assert(checks@[i as int].0@ == self@.checks_for(repo@)[i as int]);
            }
            i = i + 1;
        }
        false
    }

    /// Whether every check that `repo` relied on passed.
    pub fn repo_passed(&self, repo: &str) -> (r: bool)
        requires
            self@.wf(),
        ensures
            r == forall|i: int|
                0 <= i < self@.checks_for(repo@).len() ==> (#[trigger] self@.outcome(
                    self@.checks_for(repo@)[i],
                )).0 is None,
    {
        let checks = self.checks_for(repo);
        let mut i: usize = 0;
        while i < checks.len()
            invariant
                i <= checks@.len(),
                checks@.len() == self@.checks_for(repo@).len(),
                forall|j: int|
                    0 <= j < checks@.len() ==> (#[trigger] checks@[j]).0@ == self@.checks_for(
                        repo@,
                    )[j] && checks@[j].1@ == self@.outcome(checks@[j].0@),
                forall|j: int|
                    0 <= j < i ==> (#[trigger] self@.outcome(self@.checks_for(repo@)[j])).0 is None,
            decreases checks.len() - i,
        {
            proof {
                assert(checks@[i as int].0@ == self@.checks_for(repo@)[i as int]);
            }
            if checks[i].1.message.is_some() {
                return false;
            }
            i = i + 1;
        }
        true
    }
}

/// Recording an outcome keeps the results well formed and leaves the name
/// recorded.
pub proof fn lemma_record_wf(m: ResultsModel, name: Seq<char>, o: OutcomeView)
    requires
        m.wf(),
        m.current is Some,
    ensures
        m.record(name, o).wf(),
        m.record(name, o).has(name),
        m.record(name, o).attributions.contains((m.current->Some_0, name)),
{
    let checked = if m.has(name) {
        m.checked.update(m.names().index_of(name), (name, o))
    } else {
        m.checked.push((name, o))
    };
    let m1 = ResultsModel { checked, ..m };
    if m.has(name) {
        let i = m.names().index_of(name);
        assert(m1.names() =~= m.names());
    } else {
        assert(m1.names() =~= m.names().push(name));
        assert(m1.names()[m.names().len() as int] == name);
        assert(m1.names().no_duplicates());
    }
    assert(m1.has(name));
    assert forall|k: int| 0 <= k < m1.attributions.len() implies #[trigger] m1.has(
        m1.attributions[k].1,
    ) by {
        let n = m1.attributions[k].1;
        assert(m.has(n));
        let j = m.names().index_of(n);
        assert(m1.names()[j] == n);
    }
    let pair = (m.current->Some_0, name);
    let m2 = m1.attribute(name);
    if !m1.attributions.contains(pair) {
        assert(m2.attributions.last() == pair);
        assert forall|k: int| 0 <= k < m2.attributions.len() implies #[trigger] m2.has(
            m2.attributions[k].1,
        ) by {
            if k < m1.attributions.len() {
                assert(m1.has(m1.attributions[k].1));
            }
        }
    }
}

/// Recording the same check twice, whether the second time comes from the
/// same repository or another, leaves a single entry for the check and at
/// most one attribution per (repository, check) pair, each repository
/// listing it.
pub proof fn recording_twice_keeps_one_entry(
    m: ResultsModel,
    name: Seq<char>,
    first: OutcomeView,
    second: OutcomeView,
    second_repo: Seq<char>,
)
    requires
        m.wf(),
        m.current is Some,
    ensures
        ({
            let m1 = m.record(name, first);
            let m2 = ResultsModel { current: Some(second_repo), ..m1 }.record(name, second);
            &&& m2.wf()
            &&& m2.has(name)
            &&& m2.outcome(name) == second
            &&& m2.attributions.contains((m.current->Some_0, name))
            &&& m2.attributions.contains((second_repo, name))
        }),
{
    let m1 = m.record(name, first);
    lemma_record_wf(m, name, first);
    let m1b = ResultsModel { current: Some(second_repo), ..m1 };
    assert(m1b.names() == m1.names());
    assert forall|k: int| 0 <= k < m1b.attributions.len() implies #[trigger] m1b.has(
        m1b.attributions[k].1,
    ) by {
        assert(m1.has(m1.attributions[k].1));
    }
    lemma_record_wf(m1b, name, second);
    let m2 = m1b.record(name, second);
    let i = m1b.names().index_of(name);
    assert(m1b.names()[i] == name);
    let checked = m1b.checked.update(i, (name, second));
    assert(m2.checked == checked);
    assert(m2.names()[i] == name);
    lemma_index_of_unique(m2.names(), i);
    let pair = (m.current->Some_0, name);
    assert(m1.attributions.contains(pair));
    let k = choose|k: int| 0 <= k < m1.attributions.len() && m1.attributions[k] == pair;
    assert(m2.attributions[k] == pair);
}


/// The command-line tools that repositories rely on.
#[derive(Debug, Clone, Copy, PartialEq, Eq, Structural)]
pub enum Tool {
    Git,
    Curl,
    Nix,
}

impl Tool {
    /// The program's name, which is also the name of its check.
    pub fn program(&self) -> (r: &'static str)
        ensures
            r@ == match *self {
                Tool::Git => "git"@,
                Tool::Curl => "curl"@,
                Tool::Nix => "nix"@,
            },
    {
        match self {
            Tool::Git => "git",
            Tool::Curl => "curl",
            Tool::Nix => "nix",
        }
    }

    /// The shell command that prints the program's version.
    pub fn command(&self) -> (r: &'static str)
        ensures
            r@ == match *self {
                Tool::Git => "git --version"@,
                Tool::Curl => "curl --version"@,
                Tool::Nix => "nix --version"@,
            },
    {
        match self {
            Tool::Git => "git --version",
            Tool::Curl => "curl --version",
            Tool::Nix => "nix --version",
        }
    }

    /// Text that the version output holds when the program is installed.
    pub fn expect(&self) -> (r: &'static str)
        ensures
            r@ == match *self {
                Tool::Git => "git version"@,
                Tool::Curl => "curl "@,
                Tool::Nix => "nix (Nix)"@,
            },
    {
        match self {
            Tool::Git => "git version",
            Tool::Curl => "curl ",
            Tool::Nix => "nix (Nix)",
        }
    }
}

/// The `check` command: the repositories asked for (none means every one).
#[derive(Debug)]
pub struct Check {
    pub repositories: Vec<Repositories>,
}

impl Check {
    /// The repositories to diagnose, in order.
    pub fn selection(&self, config: &AppConfig) -> (r: Vec<Repositories>)
        ensures
            r@ == selected(self.repositories@, exclude_of(*config)),
    {
        let exclude = config.exclude_list();
        build(&self.repositories, &exclude)
    }
}
} // verus!
