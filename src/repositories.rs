use vstd::prelude::*;

use crate::check::Tool;
use crate::config::AppConfig;
use crate::targets::Target;
use crate::text::{
    after_last, before_first, first_segment, has_prefix, last_segment, replace, replaced,
    strip_prefix, trim_start_matches, trim_start_prefix,
};

verus! {

/// Overrides for the AUR source package.
#[derive(Debug)]
pub struct AurConfig {
    pub name: Option<String>,
    pub conflicts: Option<Vec<String>>,
}

/// Overrides for the AUR binary package.
#[derive(Debug)]
pub struct AurBinInfo {
    pub name: Option<String>,
    pub conflicts: Option<Vec<String>>,
}

/// Overrides for the Homebrew formula and its tap.
#[derive(Debug)]
pub struct HomebrewConfig {
    pub name: Option<String>,
    pub repository: Option<String>,
}

/// Overrides for the Scoop app and its bucket.
#[derive(Debug)]
pub struct ScoopConfig {
    pub name: Option<String>,
    pub repository: Option<String>,
}

/// Overrides for the Nix flake: name, repository, path of the flake file
/// (`%n` stands for the package name) and whether to lock it.
#[derive(Debug)]
pub struct NixConfig {
    pub name: Option<String>,
    pub repository: Option<String>,
    pub path: Option<String>,
    pub lockfile: Option<bool>,
}

/// Overrides for the Debian package.
#[derive(Debug)]
pub struct DebianConfig {
    pub name: Option<String>,
}

/// Overrides for the NPM package.
#[derive(Debug)]
pub struct NPMConfig {
    pub name: Option<String>,
}

/// The package repositories that can be published to.
#[derive(Debug, Clone, Copy, PartialEq, Eq, Structural)]
pub enum Repositories {
    Aur,
    AurBin,
    Homebrew,
    Scoop,
    Nix,
}

/// Every repository, in the order of the catalog.
pub open spec fn all_repositories() -> Seq<Repositories> {
    seq![
        Repositories::Aur,
        Repositories::AurBin,
        Repositories::Homebrew,
        Repositories::Scoop,
        Repositories::Nix,
    ]
}

/// The identifier a user writes for a repository.
pub open spec fn id_of(r: Repositories) -> Seq<char> {
    match r {
        Repositories::Aur => "aur"@,
        Repositories::AurBin => "aur-bin"@,
        Repositories::Homebrew => "homebrew"@,
        Repositories::Scoop => "scoop"@,
        Repositories::Nix => "nix"@,
    }
}

/// The display name of a repository.
pub open spec fn name_of(r: Repositories) -> Seq<char> {
    match r {
        Repositories::Aur => "AUR"@,
        Repositories::AurBin => "AUR (bin)"@,
        Repositories::Homebrew => "Homebrew"@,
        Repositories::Scoop => "Scoop"@,
        Repositories::Nix => "Nix"@,
    }
}

/// A character with ASCII upper case folded to lower case.
pub open spec fn ascii_fold(c: char) -> u32 {
    if 'A' <= c && c <= 'Z' {
        (c as u32 + 32) as u32
    } else {
        c as u32
    }
}

/// Equality up to ASCII case.
pub open spec fn eq_ignore_ascii_case(a: Seq<char>, b: Seq<char>) -> bool {
    a.len() == b.len() && forall|i: int| 0 <= i < a.len() ==> ascii_fold(a[i]) == ascii_fold(b[i])
}

/// Some entry of `exclude` names `r`, ignoring ASCII case.
pub open spec fn is_excluded(r: Repositories, exclude: Seq<Seq<char>>) -> bool {
    exists|i: int| 0 <= i < exclude.len() && eq_ignore_ascii_case(id_of(r), #[trigger] exclude[i])
}

/// The repositories an operation works on: those given, or every one when
/// none is given, less the excluded ones, in order.
pub open spec fn selected(repos: Seq<Repositories>, exclude: Seq<Seq<char>>) -> Seq<Repositories> {
    (if repos.len() > 0 {
        repos
    } else {
        all_repositories()
    }).filter(|r: Repositories| !is_excluded(r, exclude))
}

/// Relies on clap's `PossibleValue::matches` with case ignored, on a value
/// without aliases: its name compared by `str::eq_ignore_ascii_case`.
#[verifier::external_body]
fn name_matches(name: &'static str, value: &str) -> (r: bool)
    ensures
        r == eq_ignore_ascii_case(name@, value@),
{
    clap::builder::PossibleValue::new(name).matches(value, true)
}

impl Repositories {
    /// The identifier a user writes for this repository.
    pub fn id(&self) -> (r: &'static str)
        ensures
            r@ == id_of(*self),
    {
        match self {
            Repositories::Aur => "aur",
            Repositories::AurBin => "aur-bin",
            Repositories::Homebrew => "homebrew",
            Repositories::Scoop => "scoop",
            Repositories::Nix => "nix",
        }
    }

    /// The display name of this repository.
    pub fn name(&self) -> (r: &'static str)
        ensures
            r@ == name_of(*self),
    {
        match self {
            Repositories::Aur => "AUR",
            Repositories::AurBin => "AUR (bin)",
            Repositories::Homebrew => "Homebrew",
            Repositories::Scoop => "Scoop",
            Repositories::Nix => "Nix",
        }
    }

    /// Every repository, in catalog order.
    pub fn all() -> (r: Vec<Repositories>)
        ensures
            r@ == all_repositories(),
    {
        let r = vec![
            Repositories::Aur,
            Repositories::AurBin,
            Repositories::Homebrew,
            Repositories::Scoop,
            Repositories::Nix,
        ];
        proof {
            assert(r@ =~= all_repositories());
        }
        r
    }

    /// Whether an entry of `exclude` names this repository, ignoring ASCII case.
    pub fn is_excluded(&self, exclude: &Vec<String>) -> (r: bool)
        ensures
            r == is_excluded(*self, exclude@.map_values(|s: String| s@)),
    {
        let ghost ex = exclude@.map_values(|s: String| s@);
        let id = self.id();
        let mut i: usize = 0;
        while i < exclude.len()
            invariant
                i <= exclude@.len(),
                ex == exclude@.map_values(|s: String| s@),
                id@ == id_of(*self),
                forall|j: int| 0 <= j < i ==> !eq_ignore_ascii_case(id_of(*self), #[trigger] ex[j]),
            decreases exclude.len() - i,
        {
            if name_matches(id, exclude[i].as_str()) {
                proof {
                    assert(ex[i as int] == exclude@[i as int]@);
                }
                return true;
            }
            i = i + 1;
        }
        false
    }
}

/// Resolves the repositories to work on: the ones given, or every one when
/// none is given, less those that `exclude` names.
pub fn build(repositories: &Vec<Repositories>, exclude: &Vec<String>) -> (r: Vec<Repositories>)
    ensures
        r@ == selected(repositories@, exclude@.map_values(|s: String| s@)),
{
    let ghost ex = exclude@.map_values(|s: String| s@);
    let ghost pred = |r: Repositories| !is_excluded(r, ex);
    let candidates = if repositories.len() > 0 {
        let mut c: Vec<Repositories> = Vec::new();
        let mut i: usize = 0;
        while i < repositories.len()
            invariant
                i <= repositories@.len(),
                c@ == repositories@.take(i as int),
            decreases repositories.len() - i,
        {
            c.push(repositories[i]);
            proof {
                assert(repositories@.take(i + 1) =~= repositories@.take(i as int).push(
                    repositories@[i as int],
                ));
            }
            i = i + 1;
        }
        proof {
            assert(repositories@.take(repositories@.len() as int) =~= repositories@);
        }
        c
    } else {
        Repositories::all()
    };
    let ghost source = candidates@;
    let mut out: Vec<Repositories> = Vec::new();
    let mut k: usize = 0;
    while k < candidates.len()
        invariant
            k <= candidates@.len(),
            source == candidates@,
            ex == exclude@.map_values(|s: String| s@),
            pred == (|r: Repositories| !is_excluded(r, ex)),
            out@ == source.take(k as int).filter(pred),
        decreases candidates.len() - k,
    {
        let r = candidates[k];
        proof {
            assert(source.take(k + 1) =~= source.take(k as int) + seq![r]);
            Seq::filter_distributes_over_add(source.take(k as int), seq![r], pred);
            reveal_with_fuel(Seq::filter, 2);
        }
        if !r.is_excluded(exclude) {
            out.push(r);
        }
        k = k + 1;
    }
    proof {
        assert(source.take(source.len() as int) =~= source);
    }
    out
}


/// The text of an optional string, or `default` when it is absent.
pub open spec fn or_else(o: Option<String>, default: Seq<char>) -> Seq<char> {
    match o {
        Some(s) => s@,
        None => default,
    }
}

/// The AUR source package's name: the override, else the package name.
pub open spec fn aur_name(c: AppConfig) -> Seq<char> {
    match c.aur {
        Some(a) => or_else(a.name, c.name@),
        None => c.name@,
    }
}

/// The AUR binary package's name: the override, else the package name with
/// `-bin` appended.
pub open spec fn aur_bin_name(c: AppConfig) -> Seq<char> {
    match c.aur_bin {
        Some(a) => or_else(a.name, c.name@ + "-bin"@),
        None => c.name@ + "-bin"@,
    }
}

pub open spec fn homebrew_name(c: AppConfig) -> Seq<char> {
    match c.homebrew {
        Some(h) => or_else(h.name, c.name@),
        None => c.name@,
    }
}

pub open spec fn scoop_name(c: AppConfig) -> Seq<char> {
    match c.scoop {
        Some(h) => or_else(h.name, c.name@),
        None => c.name@,
    }
}

pub open spec fn nix_name(c: AppConfig) -> Seq<char> {
    match c.nix {
        Some(h) => or_else(h.name, c.name@),
        None => c.name@,
    }
}

/// The package name that a repository publishes under.
pub open spec fn package_name_of(r: Repositories, c: AppConfig) -> Seq<char> {
    match r {
        Repositories::Aur => aur_name(c),
        Repositories::AurBin => aur_bin_name(c),
        Repositories::Homebrew => homebrew_name(c),
        Repositories::Scoop => scoop_name(c),
        Repositories::Nix => nix_name(c),
    }
}

/// The `owner/name` of the git repository a backend publishes into: the
/// override where the backend has one, else the source repository.
pub open spec fn package_repository_of(r: Repositories, c: AppConfig) -> Seq<char> {
    match r {
        Repositories::Homebrew => match c.homebrew {
            Some(h) => or_else(h.repository, c.repository@),
            None => c.repository@,
        },
        Repositories::Scoop => match c.scoop {
            Some(h) => or_else(h.repository, c.repository@),
            None => c.repository@,
        },
        Repositories::Nix => match c.nix {
            Some(h) => or_else(h.repository, c.repository@),
            None => c.repository@,
        },
        _ => c.repository@,
    }
}

/// The path of the flake file: the configured one with `%n` replaced by the
/// package name, else `flake.nix`.
pub open spec fn nix_path(c: AppConfig) -> Seq<char> {
    match c.nix {
        Some(h) => match h.path {
            Some(p) => replaced(p@, "%n"@, nix_name(c)),
            None => "flake.nix"@,
        },
        None => "flake.nix"@,
    }
}

/// Whether the flake is locked after writing it; yes unless configured off.
pub open spec fn nix_lockfile(c: AppConfig) -> bool {
    match c.nix {
        Some(h) => match h.lockfile {
            Some(b) => b,
            None => true,
        },
        None => true,
    }
}

/// The release targets whose checksums a backend's manifest embeds.
pub open spec fn checksum_targets_of(r: Repositories) -> Seq<Target> {
    match r {
        Repositories::Aur => seq![Target::Source],
        Repositories::AurBin => seq![Target::X86_64UnknownLinuxGnu, Target::I686UnknownLinuxGnu],
        Repositories::Homebrew => seq![
            Target::Aarch64AppleDarwin,
            Target::X86_64AppleDarwin,
            Target::X86_64UnknownLinuxGnu,
        ],
        Repositories::Scoop => seq![Target::I686PcWindowsMsvc, Target::X86_64PcWindowsMsvc],
        Repositories::Nix => seq![
            Target::Aarch64AppleDarwin,
            Target::X86_64AppleDarwin,
            Target::X86_64UnknownLinuxGnu,
            Target::I686UnknownLinuxGnu,
        ],
    }
}

/// The remote that a backend publishes to.
pub open spec fn publish_remote_of(r: Repositories, c: AppConfig) -> Seq<char> {
    match r {
        Repositories::Aur | Repositories::AurBin => "ssh://aur@aur.archlinux.org/"@
            + package_name_of(r, c) + ".git"@,
        _ => "git@github.com:"@ + package_repository_of(r, c),
    }
}

/// The remote that the diagnostics probe: for the AUR, the anonymous HTTPS
/// remote while SSH access is not configured.
pub open spec fn check_remote_of(r: Repositories, c: AppConfig, ssh_configured: bool) -> Seq<
    char,
> {
    match r {
        Repositories::Aur | Repositories::AurBin => if ssh_configured {
            publish_remote_of(r, c)
        } else {
            "https://aur.archlinux.org/"@ + package_name_of(r, c) + ".git"@
        },
        _ => publish_remote_of(r, c),
    }
}

/// One diagnostic that a repository runs.
#[derive(Debug, Clone, Copy, PartialEq, Eq, Structural)]
pub enum CheckStep {
    /// The tool is installed.
    Tool(Tool),
    /// SSH access to the AUR is configured.
    Ssh,
    /// The remote is reachable, readable and writable.
    Repo,
}

/// The diagnostics a repository runs, in order.
pub open spec fn check_steps_of(r: Repositories, c: AppConfig) -> Seq<CheckStep> {
    match r {
        Repositories::Aur => seq![CheckStep::Tool(Tool::Git), CheckStep::Ssh, CheckStep::Repo],
        Repositories::AurBin => seq![
            CheckStep::Tool(Tool::Git),
            CheckStep::Tool(Tool::Curl),
            CheckStep::Ssh,
            CheckStep::Repo,
        ],
        Repositories::Homebrew => seq![
            CheckStep::Tool(Tool::Git),
            CheckStep::Tool(Tool::Curl),
            CheckStep::Repo,
        ],
        Repositories::Scoop => seq![CheckStep::Tool(Tool::Git), CheckStep::Repo],
        Repositories::Nix => if nix_lockfile(c) {
            seq![
                CheckStep::Tool(Tool::Git),
                CheckStep::Tool(Tool::Curl),
                CheckStep::Repo,
                CheckStep::Tool(Tool::Nix),
            ]
        } else {
            seq![CheckStep::Tool(Tool::Git), CheckStep::Tool(Tool::Curl), CheckStep::Repo]
        },
    }
}

/// A copy of an optional string's text, or of `default` when it is absent.
fn text_or(o: &Option<String>, default: &String) -> (r: String)
    ensures
        r@ == or_else(*o, default@),
{
    match o {
        Some(s) => s.clone(),
        None => default.clone(),
    }
}

impl Repositories {
    /// The package name this repository publishes under.
    pub fn package_name(&self, config: &AppConfig) -> (r: String)
        ensures
            r@ == package_name_of(*self, *config),
    {
        match self {
            Repositories::Aur => match &config.aur {
                Some(a) => text_or(&a.name, &config.name),
                None => config.name.clone(),
            },
            Repositories::AurBin => {
                let default = config.name.clone().concat("-bin");
                match &config.aur_bin {
                    Some(a) => text_or(&a.name, &default),
                    None => default,
                }
            },
            Repositories::Homebrew => match &config.homebrew {
                Some(h) => text_or(&h.name, &config.name),
                None => config.name.clone(),
            },
            Repositories::Scoop => match &config.scoop {
                Some(h) => text_or(&h.name, &config.name),
                None => config.name.clone(),
            },
            Repositories::Nix => match &config.nix {
                Some(h) => text_or(&h.name, &config.name),
                None => config.name.clone(),
            },
        }
    }

    /// The `owner/name` of the git repository this backend publishes into.
    pub fn package_repository(&self, config: &AppConfig) -> (r: String)
        ensures
            r@ == package_repository_of(*self, *config),
    {
        match self {
            Repositories::Homebrew => match &config.homebrew {
                Some(h) => text_or(&h.repository, &config.repository),
                None => config.repository.clone(),
            },
            Repositories::Scoop => match &config.scoop {
                Some(h) => text_or(&h.repository, &config.repository),
                None => config.repository.clone(),
            },
            Repositories::Nix => match &config.nix {
                Some(h) => text_or(&h.repository, &config.repository),
                None => config.repository.clone(),
            },
            _ => config.repository.clone(),
        }
    }

    /// The release targets whose checksums this backend's manifest embeds.
    pub fn checksum_targets(&self) -> (r: Vec<Target>)
        ensures
            r@ == checksum_targets_of(*self),
    {
        let r = match self {
            Repositories::Aur => vec![Target::Source],
            Repositories::AurBin => vec![Target::X86_64UnknownLinuxGnu, Target::I686UnknownLinuxGnu],
            Repositories::Homebrew => vec![
                Target::Aarch64AppleDarwin,
                Target::X86_64AppleDarwin,
                Target::X86_64UnknownLinuxGnu,
            ],
            Repositories::Scoop => vec![Target::I686PcWindowsMsvc, Target::X86_64PcWindowsMsvc],
            Repositories::Nix => vec![
                Target::Aarch64AppleDarwin,
                Target::X86_64AppleDarwin,
                Target::X86_64UnknownLinuxGnu,
                Target::I686UnknownLinuxGnu,
            ],
        };
        proof {
            assert(r@ =~= checksum_targets_of(*self));
        }
        r
    }

    /// Whether a missing remote is only a warning. It is for the AUR
    /// packages, the Homebrew tap and the Scoop bucket, which are normally
    /// created by the first publish. The Nix flake goes by default into the
    /// source repository, which must exist, so a missing one fails.
    pub fn warn_on_missing(&self) -> (r: bool)
        ensures
            r == (*self != Repositories::Nix),
    {
        match self {
            Repositories::Nix => false,
            _ => true,
        }
    }

    /// The remote this backend publishes to.
    pub fn publish_remote(&self, config: &AppConfig) -> (r: String)
        ensures
            r@ == publish_remote_of(*self, *config),
    {
        match self {
            Repositories::Aur | Repositories::AurBin => {
                let name = self.package_name(config);
                "ssh://aur@aur.archlinux.org/".to_owned().concat(name.as_str()).concat(".git")
            },
            _ => {
                let repo = self.package_repository(config);
                "git@github.com:".to_owned().concat(repo.as_str())
            },
        }
    }

    /// The remote that the diagnostics probe.
    pub fn check_remote(&self, config: &AppConfig, ssh_configured: bool) -> (r: String)
        ensures
            r@ == check_remote_of(*self, *config, ssh_configured),
    {
        match self {
            Repositories::Aur | Repositories::AurBin => if ssh_configured {
                self.publish_remote(config)
            } else {
                let name = self.package_name(config);
                "https://aur.archlinux.org/".to_owned().concat(name.as_str()).concat(".git")
            },
            _ => self.publish_remote(config),
        }
    }

    /// The diagnostics this repository runs, in order.
    pub fn check_steps(&self, config: &AppConfig) -> (r: Vec<CheckStep>)
        ensures
            r@ == check_steps_of(*self, *config),
    {
        let r = match self {
            Repositories::Aur => vec![CheckStep::Tool(Tool::Git), CheckStep::Ssh, CheckStep::Repo],
            Repositories::AurBin => vec![
                CheckStep::Tool(Tool::Git),
                CheckStep::Tool(Tool::Curl),
                CheckStep::Ssh,
                CheckStep::Repo,
            ],
            Repositories::Homebrew => vec![
                CheckStep::Tool(Tool::Git),
                CheckStep::Tool(Tool::Curl),
                CheckStep::Repo,
            ],
            Repositories::Scoop => vec![CheckStep::Tool(Tool::Git), CheckStep::Repo],
            Repositories::Nix => if get_lockfile(config) {
                vec![
                    CheckStep::Tool(Tool::Git),
                    CheckStep::Tool(Tool::Curl),
                    CheckStep::Repo,
                    CheckStep::Tool(Tool::Nix),
                ]
            } else {
                vec![CheckStep::Tool(Tool::Git), CheckStep::Tool(Tool::Curl), CheckStep::Repo]
            },
        };
        proof {
            assert(r@ =~= check_steps_of(*self, *config));
        }
        r
    }
}

/// Whether the flake is locked after writing it.
pub fn get_lockfile(config: &AppConfig) -> (r: bool)
    ensures
        r == nix_lockfile(*config),
{
    match &config.nix {
        Some(h) => match h.lockfile {
            Some(b) => b,
            None => true,
        },
        None => true,
    }
}

/// The path of the flake file within the Nix repository.
pub fn get_path(config: &AppConfig) -> (r: String)
    ensures
        r@ == nix_path(*config),
{
    match &config.nix {
        Some(h) => match &h.path {
            Some(p) => {
                let name = Repositories::Nix.package_name(config);
                proof {
                    reveal_strlit("%n");
                }
                replace(p.as_str(), "%n", name.as_str())
            },
            None => "flake.nix".to_owned(),
        },
        None => "flake.nix".to_owned(),
    }
}

/// The texts of an optional list of strings; empty when absent.
pub open spec fn list_of(o: Option<Vec<String>>) -> Seq<Seq<char>> {
    match o {
        Some(v) => v@.map_values(|s: String| s@),
        None => Seq::empty(),
    }
}

/// The conflicts that the AUR source package declares.
pub open spec fn aur_conflicts(c: AppConfig) -> Seq<Seq<char>> {
    match c.aur {
        Some(a) => list_of(a.conflicts),
        None => Seq::empty(),
    }
}

/// The conflicts that the AUR binary package declares.
pub open spec fn aur_bin_conflicts(c: AppConfig) -> Seq<Seq<char>> {
    match c.aur_bin {
        Some(a) => list_of(a.conflicts),
        None => Seq::empty(),
    }
}

/// The name override of the AUR source package, if any.
pub open spec fn aur_override(c: AppConfig) -> Option<String> {
    match c.aur {
        Some(a) => a.name,
        None => None,
    }
}

/// The name override of the AUR binary package, if any.
pub open spec fn aur_bin_override(c: AppConfig) -> Option<String> {
    match c.aur_bin {
        Some(a) => a.name,
        None => None,
    }
}

/// Every field but the two AUR blocks is the same.
pub open spec fn same_but_aur(a: AppConfig, b: AppConfig) -> bool {
    &&& a.name == b.name
    &&& a.description == b.description
    &&& a.homepage == b.homepage
    &&& a.license == b.license
    &&& a.repository == b.repository
    &&& a.exclude == b.exclude
    &&& a.cargo == b.cargo
    &&& a.homebrew == b.homebrew
    &&& a.debian == b.debian
    &&& a.scoop == b.scoop
    &&& a.nix == b.nix
    &&& a.npm == b.npm
}

/// What resolving conflicts does: when both AUR packages are selected, each
/// block exists afterwards and has the other package's name appended to its
/// conflicts unless listed already; nothing else changes.
pub open spec fn conflicts_resolved(
    before: AppConfig,
    after: AppConfig,
    repos: Seq<Repositories>,
    exclude: Seq<Seq<char>>,
) -> bool {
    let sel = selected(repos, exclude);
    if sel.contains(Repositories::Aur) && sel.contains(Repositories::AurBin) {
        &&& same_but_aur(before, after)
        &&& after.aur is Some && after.aur->Some_0.conflicts is Some
        &&& after.aur_bin is Some && after.aur_bin->Some_0.conflicts is Some
        &&& aur_override(after) == aur_override(before)
        &&& aur_bin_override(after) == aur_bin_override(before)
        &&& aur_conflicts(after) == add_once(aur_conflicts(before), aur_bin_name(before))
        &&& aur_bin_conflicts(after) == add_once(aur_bin_conflicts(before), aur_name(before))
    } else {
        after == before
    }
}

/// Whether `repos` holds `r`.
fn holds(repos: &Vec<Repositories>, r: Repositories) -> (b: bool)
    ensures
        b == repos@.contains(r),
{
    let mut i: usize = 0;
    while i < repos.len()
        invariant
            i <= repos@.len(),
            forall|j: int| 0 <= j < i ==> repos@[j] != r,
        decreases repos.len() - i,
    {
        if repos[i] == r {
            return true;
        }
        i = i + 1;
    }
    false
}

/// A list with `x` added at its end, unless it holds `x` already.
pub open spec fn add_once(s: Seq<Seq<char>>, x: Seq<char>) -> Seq<Seq<char>> {
    if s.contains(x) {
        s
    } else {
        s.push(x)
    }
}

/// A list with one more string at its end, unless the string is listed.
fn appended(o: Option<Vec<String>>, s: String) -> (r: Vec<String>)
    ensures
        r@.map_values(|x: String| x@) == add_once(list_of(o), s@),
{
    let ghost listed = list_of(o);
    let mut v = match o {
        Some(v) => v,
        None => Vec::new(),
    };
    let ghost before = v@;
    let ghost view = before.map_values(|x: String| x@);
    proof {
        assert(view =~= listed);
    }
    let mut i: usize = 0;
    while i < v.len()
        invariant
            i <= v@.len(),
            v@ == before,
            view == before.map_values(|x: String| x@),
            view == listed,
            listed == list_of(o),
            forall|j: int| 0 <= j < i ==> view[j] != s@,
        decreases v.len() - i,
    {
        if v[i] == s {
            proof {
                assert(view[i as int] == v@[i as int]@);
                assert(view[i as int] == s@);
                assert(view.contains(s@));
                assert(v@.map_values(|x: String| x@) == view);
            }
            return v;
        }
        proof {
            assert(view[i as int] == v@[i as int]@);
        }
        i = i + 1;
    }
    proof {
        assert(!view.contains(s@));
    }
    v.push(s);
    proof {
        assert(v@.map_values(|x: String| x@) =~= view.push(s@));
    }
    v
}

/// Makes the AUR source and binary packages declare each other as conflicts
/// when both are among the selected repositories. A name already declared
/// is not added again.
pub fn update_config(repositories: &Vec<Repositories>, exclude: &Vec<String>, config: &mut AppConfig)
    ensures
        conflicts_resolved(
            *old(config),
            *final(config),
            repositories@,
            exclude@.map_values(|s: String| s@),
        ),
{
    let repos = build(repositories, exclude);
    if holds(&repos, Repositories::Aur) && holds(&repos, Repositories::AurBin) {
        let aur_name = Repositories::Aur.package_name(config);
        let aur_bin_name = Repositories::AurBin.package_name(config);
        let aur = match config.aur.take() {
            Some(a) => AurConfig { name: a.name, conflicts: Some(appended(a.conflicts, aur_bin_name)) },
            None => AurConfig { name: None, conflicts: Some(appended(None, aur_bin_name)) },
        };
        config.aur = Some(aur);
        let aur_bin = match config.aur_bin.take() {
            Some(a) => AurBinInfo { name: a.name, conflicts: Some(appended(a.conflicts, aur_name)) },
            None => AurBinInfo { name: None, conflicts: Some(appended(None, aur_name)) },
        };
        config.aur_bin = Some(aur_bin);
    }
}

/// The number of times `x` occurs in `s`.
pub open spec fn count_of(s: Seq<Seq<char>>, x: Seq<char>) -> nat {
    s.filter(equals(x)).len()
}

/// The predicate of being `x`.
pub open spec fn equals(x: Seq<char>) -> spec_fn(Seq<char>) -> bool {
    |y: Seq<char>| y == x
}

/// An element is kept by a filter exactly when it is in the sequence and
/// satisfies the predicate.
pub proof fn lemma_filter_contains_iff<A>(s: Seq<A>, pred: spec_fn(A) -> bool, x: A)
    ensures
        s.filter(pred).contains(x) <==> (s.contains(x) && pred(x)),
    decreases s.len(),
{
    reveal(Seq::filter);
    if s.len() > 0 {
        let d = s.drop_last();
        lemma_filter_contains_iff(d, pred, x);
        let f = d.filter(pred);
        if pred(s.last()) {
            if f.push(s.last()).contains(x) && !f.contains(x) {
                assert(x == s.last());
                assert(s[s.len() - 1] == x);
            }
            if f.contains(x) {
                let k = choose|k: int| 0 <= k < f.len() && f[k] == x;
                assert(f.push(s.last())[k] == x);
            }
            if s.contains(x) && pred(x) && x == s.last() {
                assert(f.push(s.last())[f.len() as int] == x);
            }
        }
        if s.contains(x) && x != s.last() {
            let k = choose|k: int| 0 <= k < s.len() && s[k] == x;
            assert(d[k] == x);
        }
        if d.contains(x) {
            let k = choose|k: int| 0 <= k < d.len() && d[k] == x;
            assert(s[k] == x);
        }
    }
}

proof fn lemma_count_push_new(s: Seq<Seq<char>>, x: Seq<char>)
    requires
        !s.contains(x),
    ensures
        count_of(s.push(x), x) == 1,
{
    let pred = equals(x);
    reveal(Seq::filter);
    assert(s.push(x).drop_last() =~= s);
    assert(pred(s.push(x).last()));
    if s.filter(pred).len() > 0 {
        let y = s.filter(pred)[0];
        lemma_filter_contains_iff(s, pred, y);
        assert(s.filter(pred).contains(y));
        assert(y == x);
    }
    assert(s.push(x).filter(pred) == s.filter(pred).push(x));
}

proof fn lemma_count_add_once(s: Seq<Seq<char>>, x: Seq<char>)
    requires
        count_of(s, x) <= 1,
    ensures
        count_of(add_once(s, x), x) == 1,
{
    if s.contains(x) {
        let k = choose|k: int| 0 <= k < s.len() && s[k] == x;
        lemma_filter_contains_iff(s, equals(x), x);
        assert(s.filter(equals(x)).contains(x));
    } else {
        lemma_count_push_new(s, x);
    }
}

/// With both AUR packages selected, each one's conflicts list the other's
/// package name exactly once, whether or not the user had declared it, as
/// long as it was not declared twice; the package names are unchanged.
pub proof fn aur_packages_conflict_once(
    before: AppConfig,
    after: AppConfig,
    repos: Seq<Repositories>,
    exclude: Seq<Seq<char>>,
)
    requires
        conflicts_resolved(before, after, repos, exclude),
        selected(repos, exclude).contains(Repositories::Aur),
        selected(repos, exclude).contains(Repositories::AurBin),
        count_of(aur_conflicts(before), aur_bin_name(before)) <= 1,
        count_of(aur_bin_conflicts(before), aur_name(before)) <= 1,
    ensures
        aur_name(after) == aur_name(before),
        aur_bin_name(after) == aur_bin_name(before),
        count_of(aur_conflicts(after), aur_bin_name(after)) == 1,
        count_of(aur_bin_conflicts(after), aur_name(after)) == 1,
{
    lemma_count_add_once(aur_conflicts(before), aur_bin_name(before));
    lemma_count_add_once(aur_bin_conflicts(before), aur_name(before));
}

/// The conflicts that resolution adds do not depend on the order in which
/// the repositories are given: resolving the same configuration with the
/// repositories in another order gives the same conflict lists, names and
/// other fields.
pub proof fn conflicts_ignore_order(
    before: AppConfig,
    after: AppConfig,
    after_reordered: AppConfig,
    repos: Seq<Repositories>,
    reordered: Seq<Repositories>,
    exclude: Seq<Seq<char>>,
)
    requires
        repos.len() > 0 <==> reordered.len() > 0,
        forall|r: Repositories| repos.contains(r) <==> reordered.contains(r),
        conflicts_resolved(before, after, repos, exclude),
        conflicts_resolved(before, after_reordered, reordered, exclude),
    ensures
        aur_conflicts(after) == aur_conflicts(after_reordered),
        aur_bin_conflicts(after) == aur_bin_conflicts(after_reordered),
        aur_override(after) == aur_override(after_reordered),
        aur_bin_override(after) == aur_bin_override(after_reordered),
        aur_name(after) == aur_name(after_reordered),
        aur_bin_name(after) == aur_bin_name(after_reordered),
        same_but_aur(after, after_reordered),
{
    lemma_selected_contains(repos, exclude, Repositories::Aur);
    lemma_selected_contains(repos, exclude, Repositories::AurBin);
    lemma_selected_contains(reordered, exclude, Repositories::Aur);
    lemma_selected_contains(reordered, exclude, Repositories::AurBin);
}

/// A repository is selected when it is among the candidates and not excluded.
pub proof fn lemma_selected_contains(repos: Seq<Repositories>, exclude: Seq<Seq<char>>, r: Repositories)
    ensures
        selected(repos, exclude).contains(r) == ((if repos.len() > 0 {
            repos
        } else {
            all_repositories()
        }).contains(r) && !is_excluded(r, exclude)),
{
    let pred = |x: Repositories| !is_excluded(x, exclude);
    let cands = if repos.len() > 0 {
        repos
    } else {
        all_repositories()
    };
    lemma_filter_contains_iff(cands, pred, r);
}

/// The markdown lines that tell users how to install from a repository.
pub open spec fn instructions_of(r: Repositories, c: AppConfig) -> Seq<Seq<char>> {
    let name = package_name_of(r, c);
    let repo = package_repository_of(r, c);
    let org = before_first(repo, '/');
    let tap = after_last(repo, '/');
    match r {
        Repositories::Aur | Repositories::AurBin => seq![
            "With [AUR](https://aur.archlinux.org)"@,
            ""@,
            "```"@,
            "yay -S "@ + name,
            "```"@,
        ],
        Repositories::Homebrew => if has_prefix(tap, "homebrew-"@) {
            seq![
                "With [Homebrew](https://brew.sh)"@,
                ""@,
                "```"@,
                "brew install "@ + org + "/"@ + trim_start_matches(tap, "homebrew-"@) + "/"@ + name,
                "```"@,
            ]
        } else {
            seq![
                "With [Homebrew](https://brew.sh)"@,
                ""@,
                "```"@,
                "brew tap "@ + org + "/"@ + tap + " https://github.com/"@ + org + "/"@ + tap,
                "brew install "@ + org + "/"@ + tap + "/"@ + name,
                "```"@,
            ]
        },
        Repositories::Scoop => seq![
            "With [Scoop](https://scoop.sh)"@,
            ""@,
            "```"@,
            "scoop bucket add "@ + org + " https://github.com/"@ + repo,
            "scoop install "@ + name,
            "```"@,
        ],
        Repositories::Nix => seq![
            "With [Nix](https://nixos.org)"@,
            ""@,
            "```"@,
            "nix profile install github:"@ + repo + (if nix_path(c) != "flake.nix"@ {
                "#"@ + name
            } else {
                Seq::empty()
            }),
            "```"@,
        ],
    }
}

impl Repositories {
    /// The markdown lines that tell users how to install from this repository.
    pub fn instructions(&self, config: &AppConfig) -> (r: Vec<String>)
        ensures
            r@.map_values(|s: String| s@) == instructions_of(*self, *config),
    {
        let name = self.package_name(config);
        let repo = self.package_repository(config);
        let r = match self {
            Repositories::Aur | Repositories::AurBin => vec![
                "With [AUR](https://aur.archlinux.org)".to_owned(),
                "".to_owned(),
                "```".to_owned(),
                "yay -S ".to_owned().concat(name.as_str()),
                "```".to_owned(),
            ],
            Repositories::Homebrew => {
                let org = first_segment(repo.as_str(), '/');
                let tap = last_segment(repo.as_str(), '/');
                if strip_prefix(tap.as_str(), "homebrew-").is_some() {
                    let short = trim_start_prefix(tap.as_str(), "homebrew-");
                    vec![
                        "With [Homebrew](https://brew.sh)".to_owned(),
                        "".to_owned(),
                        "```".to_owned(),
                        "brew install ".to_owned().concat(org.as_str()).concat("/").concat(
                            short.as_str(),
                        ).concat("/").concat(name.as_str()),
                        "```".to_owned(),
                    ]
                } else {
                    vec![
                        "With [Homebrew](https://brew.sh)".to_owned(),
                        "".to_owned(),
                        "```".to_owned(),
                        "brew tap ".to_owned().concat(org.as_str()).concat("/").concat(
                            tap.as_str(),
                        ).concat(" https://github.com/").concat(org.as_str()).concat("/").concat(
                            tap.as_str(),
                        ),
                        "brew install ".to_owned().concat(org.as_str()).concat("/").concat(
                            tap.as_str(),
                        ).concat("/").concat(name.as_str()),
                        "```".to_owned(),
                    ]
                }
            },
            Repositories::Scoop => {
                let org = first_segment(repo.as_str(), '/');
                vec![
                    "With [Scoop](https://scoop.sh)".to_owned(),
                    "".to_owned(),
                    "```".to_owned(),
                    "scoop bucket add ".to_owned().concat(org.as_str()).concat(
                        " https://github.com/",
                    ).concat(repo.as_str()),
                    "scoop install ".to_owned().concat(name.as_str()),
                    "```".to_owned(),
                ]
            },
            Repositories::Nix => {
                let base = "nix profile install github:".to_owned().concat(repo.as_str());
                let contents = if !(get_path(config) == "flake.nix".to_owned()) {
                    let c = base.concat("#").concat(name.as_str());
                    proof {
                        assert(c@ =~= base@ + ("#"@ + name@));
                    }
                    c
                } else {
                    proof {
                        assert(base@ + Seq::<char>::empty() =~= base@);
                    }
                    base
                };
                vec![
                    "With [Nix](https://nixos.org)".to_owned(),
                    "".to_owned(),
                    "```".to_owned(),
                    contents,
                    "```".to_owned(),
                ]
            },
        };
        proof {
            assert(r@.map_values(|s: String| s@) =~= instructions_of(*self, *config));
        }
        r
    }
}
} // verus!
