use publisher::check::{
    check_git, check_program, check_ssh, probe_start, probe_step, ssh_configured, CheckResults,
    ProbeStage, Tool,
};
use publisher::repositories::Repositories;

fn message(results: &CheckResults, repo: &str, check: &str) -> (Option<String>, bool) {
    let checks = results.checks_for(repo);
    let found = checks.into_iter().find(|(name, _)| name == check).unwrap();
    (found.1.message, found.1.warn)
}

#[test]
fn has_checked_is_false_before_any_result() {
    let mut results = CheckResults::new();
    results.set_current("AUR");
    assert!(!results.has_checked("git"));
    assert!(results.checks_for("AUR").is_empty());
}

#[test]
fn memoised_check_is_attributed_to_each_repository_once() {
    let mut results = CheckResults::new();
    results.set_current("AUR");
    assert!(!results.has_checked("git"));
    results.add_result("git", None);
    assert!(results.has_checked("git"));
    results.add_result("git", None);
    results.set_current("Homebrew");
    assert!(results.has_checked("git"));
    assert!(results.has_checked("git"));
    let aur: Vec<String> = results.checks_for("AUR").into_iter().map(|c| c.0).collect();
    let brew: Vec<String> = results.checks_for("Homebrew").into_iter().map(|c| c.0).collect();
    assert_eq!(aur, vec!["git".to_string()]);
    assert_eq!(brew, vec!["git".to_string()]);
}

#[test]
fn second_result_replaces_the_first() {
    let mut results = CheckResults::new();
    results.set_current("AUR");
    results.add_result("ssh", Some("AUR SSH access is not configured".to_string()));
    results.set_current("AUR (bin)");
    results.add_result("ssh", None);
    assert_eq!(message(&results, "AUR", "ssh"), (None, false));
    assert!(!results.repo_failed("AUR"));
    assert!(results.repo_passed("AUR (bin)"));
}

#[test]
fn warnings_do_not_fail_a_repository() {
    let mut results = CheckResults::new();
    results.set_current("Homebrew");
    results.add_result_warn("repo", Some("repository not found or is empty".to_string()), true);
    assert!(!results.repo_failed("Homebrew"));
    assert!(!results.repo_passed("Homebrew"));
    results.add_result("curl", Some("curl is not installed".to_string()));
    assert!(results.repo_failed("Homebrew"));
}

#[test]
fn checks_keep_their_order_per_repository() {
    let mut results = CheckResults::new();
    results.set_current("Nix");
    results.add_result("git", None);
    results.add_result("curl", None);
    results.add_result("repo", None);
    results.set_current("Scoop");
    results.add_result("repo", None);
    let nix: Vec<String> = results.checks_for("Nix").into_iter().map(|c| c.0).collect();
    assert_eq!(nix, vec!["git", "curl", "repo"]);
    let scoop: Vec<String> = results.checks_for("Scoop").into_iter().map(|c| c.0).collect();
    assert_eq!(scoop, vec!["repo"]);
}

#[test]
fn program_check_passes_on_expected_output() {
    let mut results = CheckResults::new();
    results.set_current("NPM");
    check_program(&mut results, "curl", "curl ", || Some("curl 8.5.0 (x86_64)".to_string()));
    assert_eq!(message(&results, "NPM", "curl"), (None, false));
}

#[test]
fn program_check_fails_on_other_output_or_none() {
    let mut results = CheckResults::new();
    results.set_current("NPM");
    check_program(&mut results, "unzip", "UnZip ", || Some("command not found".to_string()));
    check_program(&mut results, "npm", "", || None);
    assert_eq!(
        message(&results, "NPM", "unzip"),
        (Some("unzip is not installed".to_string()), false)
    );
    assert_eq!(message(&results, "NPM", "npm"), (Some("npm is not installed".to_string()), false));
    assert!(results.repo_failed("NPM"));
}

#[test]
fn git_check_uses_git_version_banner() {
    let mut results = CheckResults::new();
    results.set_current("Scoop");
    check_git(&mut results, || Some("git version 2.43.0\n".to_string()));
    assert_eq!(message(&results, "Scoop", "git"), (None, false));
    assert_eq!(Tool::Git.program(), "git");
    assert_eq!(Tool::Git.command(), "git --version");
    assert_eq!(Tool::Curl.expect(), "curl ");
}

#[test]
fn ssh_banner_is_recognised() {
    assert!(ssh_configured("Hi user! Interactive shell is disabled.\nShared connection closed."));
    assert!(!ssh_configured("Permission denied (publickey)."));
    let mut results = CheckResults::new();
    results.set_current("AUR");
    check_ssh(&mut results, false);
    assert_eq!(
        message(&results, "AUR", "ssh"),
        (Some("AUR SSH access is not configured".to_string()), false)
    );
}

#[test]
fn missing_remote_stops_the_probe() {
    let mut results = CheckResults::new();
    results.set_current("Homebrew");
    check_git(&mut results, || Some("git version 2.43.0".to_string()));
    let stage = probe_start(&mut results);
    assert_eq!(stage, Some(ProbeStage::ListRefs));
    let next = probe_step(&mut results, ProbeStage::ListRefs, false, "master", false);
    assert_eq!(next, None);
    assert_eq!(
        message(&results, "Homebrew", "repo"),
        (Some("repository not found or is empty".to_string()), false)
    );
    assert!(results.repo_failed("Homebrew"));
}

#[test]
fn probe_walks_every_stage_on_success() {
    let mut results = CheckResults::new();
    results.set_current("Scoop");
    let mut stage = probe_start(&mut results);
    let mut seen = Vec::new();
    while let Some(s) = stage {
        seen.push(s);
        stage = probe_step(&mut results, s, true, "master", false);
    }
    assert_eq!(
        seen,
        vec![ProbeStage::ListRefs, ProbeStage::ListHeads, ProbeStage::Clone, ProbeStage::Push]
    );
    assert!(results.checks_for("Scoop").is_empty());
}

#[test]
fn probe_failure_messages() {
    let mut results = CheckResults::new();
    results.set_current("Nix");
    assert_eq!(probe_step(&mut results, ProbeStage::ListHeads, false, "main", true), None);
    assert_eq!(
        message(&results, "Nix", "repo"),
        (Some("repository branch 'main' does not exist".to_string()), false)
    );
    probe_step(&mut results, ProbeStage::Clone, false, "master", false);
    assert_eq!(
        message(&results, "Nix", "repo"),
        (Some("read access to the repository not configured".to_string()), false)
    );
    probe_step(&mut results, ProbeStage::Push, false, "master", false);
    assert_eq!(
        message(&results, "Nix", "repo"),
        (Some("write access to the repository not configured".to_string()), false)
    );
}

#[test]
fn missing_git_short_circuits_the_probe() {
    let mut results = CheckResults::new();
    results.set_current("Scoop");
    check_git(&mut results, || None);
    assert_eq!(probe_start(&mut results), None);
    assert_eq!(
        message(&results, "Scoop", "repo"),
        (Some("git is not installed".to_string()), false)
    );
}

#[test]
fn aur_check_with_ssh_but_no_remote_only_warns() {
    let mut results = CheckResults::new();
    let repo = Repositories::Aur;
    results.set_current(repo.name());
    check_git(&mut results, || Some("git version 2.43.0".to_string()));
    let configured = ssh_configured("Interactive shell is disabled.");
    assert!(configured);
    check_ssh(&mut results, configured);
    let stage = probe_start(&mut results).unwrap();
    let next = probe_step(&mut results, stage, false, "master", repo.warn_on_missing());
    assert_eq!(next, None);
    assert_eq!(
        message(&results, "AUR", "repo"),
        (Some("repository not found or is empty".to_string()), true)
    );
    assert!(!results.repo_failed("AUR"));
    assert_eq!(message(&results, "AUR", "git"), (None, false));
    assert_eq!(message(&results, "AUR", "ssh"), (None, false));
    assert!(!results.command_failed(false, "AUR"));
}

#[test]
fn tool_check_runs_once_across_repositories() {
    let mut results = CheckResults::new();
    results.set_current("AUR");
    check_program(&mut results, "git", "git version", || None);
    results.set_current("Homebrew");
    check_program(&mut results, "git", "git version", || -> Option<String> {
        panic!("the probe of a program already checked must not run")
    });
    assert_eq!(message(&results, "Homebrew", "git"), (Some("git is not installed".to_string()), false));
    assert!(results.command_failed(false, "Homebrew"));
    assert!(results.command_failed(true, "Nowhere"));
    assert!(!results.command_failed(false, "Nowhere"));
}
