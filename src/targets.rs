use vstd::prelude::*;

verus! {

/// A build target: a platform triple, or the upstream source archive.
#[derive(Debug, Clone, Copy, PartialEq, Eq, Hash, Structural)]
pub enum Target {
    Aarch64AppleDarwin,
    X86_64AppleDarwin,
    X86_64UnknownLinuxGnu,
    I686UnknownLinuxGnu,
    X86_64UnknownLinuxMusl,
    X86_64PcWindowsMsvc,
    I686PcWindowsMsvc,
    Source,
}

/// The stable text of a target, as embedded in release-asset names.
pub open spec fn triple_of(t: Target) -> Seq<char> {
    match t {
        Target::Aarch64AppleDarwin => "aarch64-apple-darwin"@,
        Target::X86_64AppleDarwin => "x86_64-apple-darwin"@,
        Target::X86_64UnknownLinuxGnu => "x86_64-unknown-linux-gnu"@,
        Target::I686UnknownLinuxGnu => "i686-unknown-linux-gnu"@,
        Target::X86_64UnknownLinuxMusl => "x86_64-unknown-linux-musl"@,
        Target::X86_64PcWindowsMsvc => "x86_64-pc-windows-msvc"@,
        Target::I686PcWindowsMsvc => "i686-pc-windows-msvc"@,
        Target::Source => Seq::empty(),
    }
}

impl Target {
    /// Renders the target triple; the source archive renders as the empty string.
    pub fn triple(&self) -> (r: &'static str)
        ensures
            r@ == triple_of(*self),
    {
        match self {
            Target::Aarch64AppleDarwin => "aarch64-apple-darwin",
            Target::X86_64AppleDarwin => "x86_64-apple-darwin",
            Target::X86_64UnknownLinuxGnu => "x86_64-unknown-linux-gnu",
            Target::I686UnknownLinuxGnu => "i686-unknown-linux-gnu",
            Target::X86_64UnknownLinuxMusl => "x86_64-unknown-linux-musl",
            Target::X86_64PcWindowsMsvc => "x86_64-pc-windows-msvc",
            Target::I686PcWindowsMsvc => "i686-pc-windows-msvc",
            Target::Source => {
                proof {
                    reveal_strlit("");
                }
                ""
            },
        }
    }
}

} // verus!
