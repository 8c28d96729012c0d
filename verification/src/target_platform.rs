//! The platform a buildpack is packaged for.
use crate::text::{push_str, str_eq};
use vstd::prelude::*;

verus! {

/// An operating system a buildpack can target.
#[derive(Debug, Clone, Copy, PartialEq, Eq, Structural)]
pub enum TargetOs {
    Linux,
}

/// An architecture a buildpack can target.
#[derive(Debug, Clone, Copy, PartialEq, Eq, Structural)]
pub enum TargetArch {
    Amd64,
    Arm64,
}

/// An operating system and architecture.
#[derive(Debug, Clone, Copy, PartialEq, Eq, Structural)]
pub struct TargetPlatform {
    pub os: TargetOs,
    pub arch: TargetArch,
}

/// The architecture of an architecture name as `std::env::consts::ARCH` gives it, where it
/// is supported.
pub open spec fn target_arch_of(name: Seq<char>) -> Option<TargetArch> {
    if name == "amd64"@ || name == "x86_64"@ {
        Some(TargetArch::Amd64)
    } else if name == "arm64"@ || name == "aarch64"@ {
        Some(TargetArch::Arm64)
    } else {
        None
    }
}

/// The text of a platform: `<os>/<arch>`.
pub open spec fn platform_text(p: TargetPlatform) -> Seq<char> {
    (match p.os {
        TargetOs::Linux => "linux"@,
    }) + "/"@ + (match p.arch {
        TargetArch::Amd64 => "amd64"@,
        TargetArch::Arm64 => "arm64"@,
    })
}

/// The architecture of an architecture name, where it is supported.
pub fn default_arch(name: &str) -> (r: Option<TargetArch>)
    ensures
        r == target_arch_of(name@),
{
    if str_eq(name, "amd64") || str_eq(name, "x86_64") {
        Some(TargetArch::Amd64)
    } else if str_eq(name, "arm64") || str_eq(name, "aarch64") {
        Some(TargetArch::Arm64)
    } else {
        None
    }
}

impl TargetPlatform {
    /// The platform of the given operating system and architecture.
    pub fn new(os: TargetOs, arch: TargetArch) -> (r: Self)
        ensures
            r.os == os,
            r.arch == arch,
    {
        TargetPlatform { os, arch }
    }

    /// Linux on the architecture of the given name (that of the host), which must be
    /// supported.
    pub fn default(arch_name: &str) -> (r: Self)
        requires
            target_arch_of(arch_name@) is Some,
        ensures
            r.os == TargetOs::Linux,
            Some(r.arch) == target_arch_of(arch_name@),
    {
        let arch = default_arch(arch_name).unwrap();
        TargetPlatform::new(TargetOs::Linux, arch)
    }

    /// The platform as text, such as `linux/amd64`.
    pub fn to_string(&self) -> (r: String)
        ensures
            r@ == platform_text(*self),
    {
        let mut s = String::new();
        match self.os {
            TargetOs::Linux => push_str(&mut s, "linux"),
        }
        push_str(&mut s, "/");
        match self.arch {
            TargetArch::Amd64 => push_str(&mut s, "amd64"),
            TargetArch::Arm64 => push_str(&mut s, "arm64"),
        }
        s
    }
}

} // verus!
