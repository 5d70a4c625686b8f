use vstd::prelude::*;

use crate::config::AppConfig;
use crate::targets::{triple_of, Target};
use crate::text::{trim_end, trimmed_end};

verus! {

/// The address of a target's published checksum file:
/// `https://github.com/<repository>/releases/download/v<version>/<name>-v<version>[-<triple>]_sha256sum.txt`,
/// with no triple for the source archive.
pub open spec fn checksum_url_of(c: AppConfig, version: Seq<char>, t: Target) -> Seq<char> {
    "https://github.com/"@ + c.repository@ + "/releases/download/v"@ + version + "/"@ + c.name@
        + "-v"@ + version + (if t == Target::Source {
        Seq::empty()
    } else {
        "-"@ + triple_of(t)
    }) + "_sha256sum.txt"@
}

/// The address of a target's published checksum file.
pub fn checksum_url(config: &AppConfig, version: &str, target: Target) -> (r: String)
    ensures
        r@ == checksum_url_of(*config, version@, target),
{
    let base = "https://github.com/".to_owned().concat(config.repository.as_str()).concat(
        "/releases/download/v",
    ).concat(version).concat("/").concat(config.name.as_str()).concat("-v").concat(version);
    let with_target = if target == Target::Source {
        proof {
            assert(base@ + Seq::<char>::empty() =~= base@);
        }
        base
    } else {
        let r = base.concat("-").concat(target.triple());
        proof {
            assert(r@ =~= base@ + ("-"@ + triple_of(target)));
        }
        r
    };
    with_target.concat("_sha256sum.txt")
}

/// A fetched body gives a checksum: the fetch succeeded and something is
/// left once trailing whitespace is trimmed.
pub open spec fn usable(body: Option<String>) -> bool {
    match body {
        Some(b) => trimmed_end(b@).len() > 0,
        None => false,
    }
}

/// Pairs each target with its checksum, all or nothing. `bodies[i]` is what
/// fetching the checksum of `targets[i]` gave, `None` where the fetch failed.
/// Any failed, missing or empty body gives `None`: no partial result.
pub fn resolve_checksums(targets: &Vec<Target>, bodies: Vec<Option<String>>) -> (r: Option<
    Vec<(Target, String)>,
>)
    ensures
        r is Some <==> (bodies@.len() == targets@.len() && forall|i: int|
            0 <= i < bodies@.len() ==> usable(#[trigger] bodies@[i])),
        r is Some ==> r->Some_0@.len() == targets@.len() && forall|i: int|
            0 <= i < targets@.len() ==> (#[trigger] r->Some_0@[i]).0 == targets@[i]
                && r->Some_0@[i].1@ == trimmed_end(bodies@[i]->Some_0@),
{
    if bodies.len() != targets.len() {
        return None;
    }
    let mut out: Vec<(Target, String)> = Vec::new();
    let mut i: usize = 0;
    while i < targets.len()
        invariant
            i <= targets@.len(),
            bodies@.len() == targets@.len(),
            out@.len() == i,
            forall|j: int| 0 <= j < i ==> usable(#[trigger] bodies@[j]),
            forall|j: int|
                0 <= j < i ==> (#[trigger] out@[j]).0 == targets@[j] && out@[j].1@ == trimmed_end(
                    bodies@[j]->Some_0@,
                ),
        decreases targets.len() - i,
    {
        match &bodies[i] {
            Some(b) => {
                let checksum = trim_end(b.as_str());
                if checksum.as_str().is_empty() {
                    return None;
                }
                out.push((targets[i], checksum));
            },
            None => {
                return None;
            },
        }
        i = i + 1;
    }
    Some(out)
}

/// The checksum recorded for a target, if any.
pub fn checksum_for(checksums: &Vec<(Target, String)>, target: Target) -> (r: Option<String>)
    ensures
        r is Some <==> exists|i: int| 0 <= i < checksums@.len() && (#[trigger] checksums@[i]).0 == target,
        r is Some ==> exists|i: int|
            0 <= i < checksums@.len() && (#[trigger] checksums@[i]).0 == target && checksums@[i].1@
                == r->Some_0@,
{
    let mut i: usize = 0;
    while i < checksums.len()
        invariant
            i <= checksums@.len(),
            forall|j: int| 0 <= j < i ==> (#[trigger] checksums@[j]).0 != target,
        decreases checksums.len() - i,
    {
        if checksums[i].0 == target {
            let c = checksums[i].1.clone();
            proof {
                assert(checksums@[i as int].0 == target);
            }
            return Some(c);
        }
        i = i + 1;
    }
    None
}

} // verus!
