use publisher::checksums::{checksum_for, checksum_url, resolve_checksums};
use publisher::config::{AppConfig, CargoMetadataPackage};
use publisher::publish::{commit_message, next_step, workspace_dir, Publish, PublishStep};
use publisher::repositories::{
    build, get_lockfile, get_path, update_config, AurBinInfo, AurConfig, CheckStep,
    HomebrewConfig, NixConfig, Repositories,
};
use publisher::check::{Check, Tool};
use publisher::targets::Target;
use publisher::text::{first_segment, last_segment, trim_start_prefix};

fn config(name: &str) -> AppConfig {
    AppConfig {
        name: name.to_string(),
        description: "A tool".to_string(),
        homepage: "https://example.com".to_string(),
        license: "MIT".to_string(),
        repository: "owner/tool".to_string(),
        exclude: None,
        cargo: None,
        homebrew: None,
        debian: None,
        aur: None,
        aur_bin: None,
        scoop: None,
        nix: None,
        npm: None,
    }
}

fn strings(v: &[&str]) -> Vec<String> {
    v.iter().map(|s| s.to_string()).collect()
}

fn aur_conflicts(c: &AppConfig) -> Vec<String> {
    c.aur.as_ref().unwrap().conflicts.clone().unwrap()
}

fn aur_bin_conflicts(c: &AppConfig) -> Vec<String> {
    c.aur_bin.as_ref().unwrap().conflicts.clone().unwrap()
}

#[test]
fn target_triples() {
    assert_eq!(Target::Aarch64AppleDarwin.triple(), "aarch64-apple-darwin");
    assert_eq!(Target::X86_64AppleDarwin.triple(), "x86_64-apple-darwin");
    assert_eq!(Target::X86_64UnknownLinuxGnu.triple(), "x86_64-unknown-linux-gnu");
    assert_eq!(Target::I686UnknownLinuxGnu.triple(), "i686-unknown-linux-gnu");
    assert_eq!(Target::X86_64UnknownLinuxMusl.triple(), "x86_64-unknown-linux-musl");
    assert_eq!(Target::X86_64PcWindowsMsvc.triple(), "x86_64-pc-windows-msvc");
    assert_eq!(Target::I686PcWindowsMsvc.triple(), "i686-pc-windows-msvc");
    assert_eq!(Target::Source.triple(), "");
}

#[test]
fn no_selection_means_every_repository() {
    let all = build(&vec![], &vec![]);
    assert_eq!(
        all,
        vec![
            Repositories::Aur,
            Repositories::AurBin,
            Repositories::Homebrew,
            Repositories::Scoop,
            Repositories::Nix
        ]
    );
}

#[test]
fn exclusion_ignores_ascii_case() {
    let r = build(&vec![], &strings(&["AUR-Bin", "nix", "brew"]));
    assert_eq!(r, vec![Repositories::Aur, Repositories::Homebrew, Repositories::Scoop]);
}

#[test]
fn explicit_selection_keeps_its_order() {
    let r = build(&vec![Repositories::Nix, Repositories::Aur], &strings(&["scoop"]));
    assert_eq!(r, vec![Repositories::Nix, Repositories::Aur]);
    let r = build(&vec![Repositories::Nix, Repositories::Aur], &strings(&["aur"]));
    assert_eq!(r, vec![Repositories::Nix]);
}

#[test]
fn repository_names_and_ids() {
    assert_eq!(Repositories::Aur.id(), "aur");
    assert_eq!(Repositories::AurBin.id(), "aur-bin");
    assert_eq!(Repositories::AurBin.name(), "AUR (bin)");
    assert_eq!(Repositories::Homebrew.name(), "Homebrew");
}

#[test]
fn package_names_default_and_override() {
    let mut c = config("foo");
    assert_eq!(Repositories::Aur.package_name(&c), "foo");
    assert_eq!(Repositories::AurBin.package_name(&c), "foo-bin");
    assert_eq!(Repositories::Homebrew.package_name(&c), "foo");
    c.aur_bin = Some(AurBinInfo { name: Some("foo-binary".to_string()), conflicts: None });
    c.homebrew = Some(HomebrewConfig {
        name: Some("foo-cli".to_string()),
        repository: Some("owner/homebrew-tap".to_string()),
    });
    assert_eq!(Repositories::AurBin.package_name(&c), "foo-binary");
    assert_eq!(Repositories::Homebrew.package_name(&c), "foo-cli");
    assert_eq!(Repositories::Homebrew.package_repository(&c), "owner/homebrew-tap");
    assert_eq!(Repositories::Scoop.package_repository(&c), "owner/tool");
}

#[test]
fn remotes() {
    let mut c = config("foo");
    c.homebrew = Some(HomebrewConfig { name: None, repository: Some("owner/homebrew-tap".to_string()) });
    assert_eq!(Repositories::Aur.publish_remote(&c), "ssh://aur@aur.archlinux.org/foo.git");
    assert_eq!(Repositories::AurBin.check_remote(&c, false), "https://aur.archlinux.org/foo-bin.git");
    assert_eq!(Repositories::AurBin.check_remote(&c, true), "ssh://aur@aur.archlinux.org/foo-bin.git");
    assert_eq!(Repositories::Homebrew.publish_remote(&c), "git@github.com:owner/homebrew-tap");
    assert_eq!(Repositories::Nix.check_remote(&c, false), "git@github.com:owner/tool");
    assert!(Repositories::Aur.warn_on_missing());
    assert!(Repositories::Homebrew.warn_on_missing());
    assert!(Repositories::Scoop.warn_on_missing());
    assert!(!Repositories::Nix.warn_on_missing());
}

#[test]
fn nix_path_and_lockfile() {
    let mut c = config("foo");
    assert_eq!(get_path(&c), "flake.nix");
    assert!(get_lockfile(&c));
    c.nix = Some(NixConfig {
        name: None,
        repository: None,
        path: Some("pkgs/%n/flake.nix".to_string()),
        lockfile: Some(false),
    });
    assert_eq!(get_path(&c), "pkgs/foo/flake.nix");
    assert!(!get_lockfile(&c));
    assert_eq!(
        Repositories::Nix.check_steps(&c),
        vec![CheckStep::Tool(Tool::Git), CheckStep::Tool(Tool::Curl), CheckStep::Repo]
    );
}

#[test]
fn check_steps_per_backend() {
    let c = config("foo");
    assert_eq!(
        Repositories::Aur.check_steps(&c),
        vec![CheckStep::Tool(Tool::Git), CheckStep::Ssh, CheckStep::Repo]
    );
    assert_eq!(
        Repositories::Nix.check_steps(&c),
        vec![
            CheckStep::Tool(Tool::Git),
            CheckStep::Tool(Tool::Curl),
            CheckStep::Repo,
            CheckStep::Tool(Tool::Nix)
        ]
    );
}

#[test]
fn both_aur_packages_conflict_with_each_other() {
    let mut c = config("foo");
    let publish = Publish {
        version: "1.2.3".to_string(),
        repositories: vec![Repositories::Aur, Repositories::AurBin],
        no_dry_run: false,
    };
    assert!(!publish.dry_run() == publish.no_dry_run);
    let selected = publish.run(&mut c);
    assert_eq!(selected, vec![Repositories::Aur, Repositories::AurBin]);
    assert_eq!(aur_conflicts(&c), strings(&["foo-bin"]));
    assert_eq!(aur_bin_conflicts(&c), strings(&["foo"]));
}

#[test]
fn dry_run_publish_of_both_aur_packages() {
    let mut c = config("foo");
    let publish = Publish {
        version: "1.2.3".to_string(),
        repositories: vec![Repositories::AurBin, Repositories::Aur],
        no_dry_run: false,
    };
    assert!(publish.dry_run());
    publish.run(&mut c);
    assert_eq!(aur_conflicts(&c), strings(&["foo-bin"]));
    assert_eq!(aur_bin_conflicts(&c), strings(&["foo"]));
    let mut step = PublishStep::Acquire;
    let mut seen = vec![step];
    while step != PublishStep::Done && step != PublishStep::Failed {
        step = next_step(step, true, publish.dry_run());
        seen.push(step);
    }
    assert!(seen.contains(&PublishStep::Commit));
    assert!(!seen.contains(&PublishStep::Push));
}

#[test]
fn user_conflicts_are_kept() {
    let mut c = config("foo");
    c.aur = Some(AurConfig { name: Some("foo-git".to_string()), conflicts: Some(strings(&["bar"])) });
    update_config(&vec![], &vec![], &mut c);
    assert_eq!(aur_conflicts(&c), strings(&["bar", "foo-bin"]));
    assert_eq!(aur_bin_conflicts(&c), strings(&["foo-git"]));
}

#[test]
fn no_conflicts_without_both_aur_packages() {
    let mut c = config("foo");
    update_config(&vec![], &strings(&["aur-bin"]), &mut c);
    assert!(c.aur.is_none());
    assert!(c.aur_bin.is_none());
    update_config(&vec![Repositories::Aur, Repositories::Nix], &vec![], &mut c);
    assert!(c.aur.is_none());
}

#[test]
fn excluded_from_config_is_left_out() {
    let mut c = config("foo");
    c.exclude = Some(strings(&["aur"]));
    let check = Check { repositories: vec![] };
    assert_eq!(
        check.selection(&c),
        vec![Repositories::AurBin, Repositories::Homebrew, Repositories::Scoop, Repositories::Nix]
    );
    let publish = Publish { version: "1.0.0".to_string(), repositories: vec![], no_dry_run: true };
    publish.run(&mut c);
    assert!(c.aur.is_none());
}

#[test]
fn checksum_urls() {
    let c = config("foo");
    assert_eq!(
        checksum_url(&c, "1.2.3", Target::Source),
        "https://github.com/owner/tool/releases/download/v1.2.3/foo-v1.2.3_sha256sum.txt"
    );
    assert_eq!(
        checksum_url(&c, "1.2.3", Target::X86_64UnknownLinuxGnu),
        "https://github.com/owner/tool/releases/download/v1.2.3/foo-v1.2.3-x86_64-unknown-linux-gnu_sha256sum.txt"
    );
}

#[test]
fn checksums_resolve_when_every_fetch_succeeds() {
    let targets = Repositories::AurBin.checksum_targets();
    let r = resolve_checksums(&targets, vec![Some("abc123\n".to_string()), Some("def456 ".to_string())])
        .unwrap();
    assert_eq!(
        r,
        vec![
            (Target::X86_64UnknownLinuxGnu, "abc123".to_string()),
            (Target::I686UnknownLinuxGnu, "def456".to_string())
        ]
    );
    assert_eq!(checksum_for(&r, Target::I686UnknownLinuxGnu), Some("def456".to_string()));
    assert_eq!(checksum_for(&r, Target::Source), None);
}

#[test]
fn one_failed_fetch_fails_every_checksum() {
    let targets = Repositories::Homebrew.checksum_targets();
    assert_eq!(targets.len(), 3);
    assert_eq!(
        resolve_checksums(&targets, vec![Some("a".to_string()), None, Some("c".to_string())]),
        None
    );
    assert_eq!(
        resolve_checksums(&targets, vec![Some("a".to_string()), Some(" \n".to_string()), Some("c".to_string())]),
        None
    );
    assert_eq!(resolve_checksums(&targets, vec![Some("a".to_string())]), None);
}

#[test]
fn pipeline_steps() {
    assert_eq!(next_step(PublishStep::ProbeMaster, false, false), PublishStep::Render);
    assert_eq!(next_step(PublishStep::ProbeMaster, true, false), PublishStep::Checkout);
    assert_eq!(next_step(PublishStep::Fetch, false, false), PublishStep::Failed);
    assert_eq!(next_step(PublishStep::Commit, true, false), PublishStep::Push);
    assert_eq!(next_step(PublishStep::Commit, true, true), PublishStep::Done);
    assert_eq!(next_step(PublishStep::Push, true, false), PublishStep::Done);
}

#[test]
fn commit_message_and_workspace() {
    assert_eq!(commit_message(Repositories::AurBin, "1.2.3"), "AUR (bin): 1.2.3");
    assert_eq!(workspace_dir(Repositories::Homebrew), "/tmp/publisher/Homebrew");
}

#[test]
fn cargo_default_from_metadata() {
    let mut p = CargoMetadataPackage::empty();
    assert_eq!(p.cargo_default(), None);
    p.name = Some("foo".to_string());
    assert_eq!(p.cargo_default(), Some("foo".to_string()));
    p.publish = Some(vec![]);
    assert_eq!(p.cargo_default(), None);
}

#[test]
fn text_segments() {
    assert_eq!(first_segment("owner/homebrew-tap", '/'), "owner");
    assert_eq!(last_segment("owner/homebrew-tap", '/'), "homebrew-tap");
    assert_eq!(first_segment("plain", '/'), "plain");
    assert_eq!(last_segment("a/b/c", '/'), "c");
    assert_eq!(trim_start_prefix("homebrew-homebrew-tap", "homebrew-"), "tap");
    assert_eq!(trim_start_prefix("tap", "homebrew-"), "tap");
}

#[test]
fn homebrew_instructions_for_a_homebrew_tap() {
    let mut c = config("foo");
    c.homebrew = Some(HomebrewConfig { name: None, repository: Some("termapps/homebrew-tap".to_string()) });
    assert_eq!(
        Repositories::Homebrew.instructions(&c),
        strings(&["With [Homebrew](https://brew.sh)", "", "```", "brew install termapps/tap/foo", "```"])
    );
}

#[test]
fn homebrew_instructions_for_another_tap() {
    let mut c = config("foo");
    c.homebrew = Some(HomebrewConfig { name: None, repository: Some("termapps/formulae".to_string()) });
    assert_eq!(
        Repositories::Homebrew.instructions(&c),
        strings(&[
            "With [Homebrew](https://brew.sh)",
            "",
            "```",
            "brew tap termapps/formulae https://github.com/termapps/formulae",
            "brew install termapps/formulae/foo",
            "```"
        ])
    );
}

#[test]
fn scoop_aur_and_nix_instructions() {
    let mut c = config("foo");
    assert_eq!(
        Repositories::Scoop.instructions(&c),
        strings(&[
            "With [Scoop](https://scoop.sh)",
            "",
            "```",
            "scoop bucket add owner https://github.com/owner/tool",
            "scoop install foo",
            "```"
        ])
    );
    assert_eq!(Repositories::AurBin.instructions(&c)[3], "yay -S foo-bin");
    assert_eq!(Repositories::Nix.instructions(&c)[3], "nix profile install github:owner/tool");
    c.nix = Some(NixConfig { name: None, repository: None, path: Some("%n.nix".to_string()), lockfile: None });
    assert_eq!(Repositories::Nix.instructions(&c)[3], "nix profile install github:owner/tool#foo");
}

#[test]
fn declared_conflicts_are_not_duplicated() {
    let mut c = config("foo");
    c.aur = Some(AurConfig { name: None, conflicts: Some(strings(&["foo-bin", "bar"])) });
    c.aur_bin = Some(AurBinInfo { name: None, conflicts: Some(strings(&["foo"])) });
    update_config(&vec![Repositories::AurBin, Repositories::Aur], &vec![], &mut c);
    assert_eq!(aur_conflicts(&c), strings(&["foo-bin", "bar"]));
    assert_eq!(aur_bin_conflicts(&c), strings(&["foo"]));
}
