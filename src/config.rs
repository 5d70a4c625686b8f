use vstd::prelude::*;

use crate::repositories::{
    AurBinInfo, AurConfig, DebianConfig, HomebrewConfig, NPMConfig, NixConfig, ScoopConfig,
};

verus! {

/// The name of the configuration file.
pub const CONFIG_FILE: &'static str = "publisher.toml";

/// The merged configuration: package metadata, the repositories left out by
/// default, and one optional block per backend.
#[derive(Debug)]
pub struct AppConfig {
    pub name: String,
    pub description: String,
    pub homepage: String,
    pub license: String,
    /// The source repository, as `owner/name` on the release host.
    pub repository: String,
    pub exclude: Option<Vec<String>>,
    /// The crate name to install with cargo, when the package is published there.
    pub cargo: Option<String>,
    pub homebrew: Option<HomebrewConfig>,
    pub debian: Option<DebianConfig>,
    pub aur: Option<AurConfig>,
    pub aur_bin: Option<AurBinInfo>,
    pub scoop: Option<ScoopConfig>,
    pub nix: Option<NixConfig>,
    pub npm: Option<NPMConfig>,
}

/// The package metadata that the build tool reports, used as defaults.
#[derive(Debug)]
pub struct CargoMetadataPackage {
    pub name: Option<String>,
    pub description: Option<String>,
    pub homepage: Option<String>,
    pub license: Option<String>,
    pub publish: Option<Vec<String>>,
}

impl CargoMetadataPackage {
    /// Metadata with nothing known.
    pub fn empty() -> (r: CargoMetadataPackage)
        ensures
            r.name is None,
            r.description is None,
            r.homepage is None,
            r.license is None,
            r.publish is None,
    {
        CargoMetadataPackage {
            name: None,
            description: None,
            homepage: None,
            license: None,
            publish: None,
        }
    }

    /// The default for `cargo`: the package name, unless the package
    /// restricts the registries it is published to.
    pub fn cargo_default(&self) -> (r: Option<String>)
        ensures
            r is Some <==> (self.publish is None && self.name is Some),
            r is Some ==> r->Some_0@ == self.name->Some_0@,
    {
        match (&self.publish, &self.name) {
            (None, Some(n)) => Some(n.clone()),
            _ => None,
        }
    }
}

/// The list of excluded repository identifiers; empty when none is given.
pub open spec fn exclude_of(c: AppConfig) -> Seq<Seq<char>> {
    match c.exclude {
        Some(v) => v@.map_values(|s: String| s@),
        None => Seq::empty(),
    }
}

impl AppConfig {
    /// A copy of the excluded repository identifiers.
    pub fn exclude_list(&self) -> (r: Vec<String>)
        ensures
            r@.map_values(|s: String| s@) == exclude_of(*self),
    {
        let mut out: Vec<String> = Vec::new();
        match &self.exclude {
            Some(v) => {
                let mut i: usize = 0;
                while i < v.len()
                    invariant
                        i <= v@.len(),
                        self.exclude == Some(*v),
                        out@.len() == i,
                        forall|j: int| 0 <= j < i ==> (#[trigger] out@[j])@ == v@[j]@,
                    decreases v.len() - i,
                {
                    out.push(v[i].clone());
                    i = i + 1;
                }
                proof {
                    assert(out@.map_values(|s: String| s@) =~= v@.map_values(|s: String| s@));
                }
            },
            None => {
                proof {
                    assert(out@.map_values(|s: String| s@) =~= Seq::<Seq<char>>::empty());
                }
            },
        }
        out
    }
}

} // verus!
