//! The package descriptor (`package.toml`) of a buildpack: the buildpack to package, the
//! buildpacks it depends on, and the platform.
use crate::text::str_eq;
use crate::uri::{uri_reference_parts, UriReference};
use vstd::prelude::*;

verus! {

/// A reference to the buildpack to package.
#[derive(Debug)]
pub struct PackageDescriptorBuildpackReference {
    pub uri: UriReference,
}

/// The error of [`PackageDescriptorBuildpackReference::try_from`]: the text that is no URI
/// reference.
#[derive(Debug)]
pub enum PackageDescriptorBuildpackError {
    InvalidUri(String),
}

/// A buildpack that the packaged buildpack depends on.
#[derive(Debug)]
pub struct PackageDescriptorDependency {
    pub uri: UriReference,
}

/// The error of [`PackageDescriptorDependency::try_from`]: the text that is no URI reference.
#[derive(Debug)]
pub enum PackageDescriptorDependencyError {
    InvalidUri(String),
}

/// The operating system a package is built for.
#[derive(Debug, Clone, Copy, PartialEq, Eq, Structural)]
pub enum PlatformOs {
    Linux,
    Windows,
}

/// The platform a package is built for.
#[derive(Debug, Clone, Copy, PartialEq, Eq, Structural)]
pub struct Platform {
    pub os: PlatformOs,
}

/// A package descriptor.
#[derive(Debug)]
pub struct PackageDescriptor {
    pub buildpack: PackageDescriptorBuildpackReference,
    pub dependencies: Vec<PackageDescriptorDependency>,
    pub platform: Platform,
}

impl Clone for PackageDescriptorBuildpackReference {
    fn clone(&self) -> (r: Self)
        ensures
            r.uri.parts() == self.uri.parts(),
    {
        PackageDescriptorBuildpackReference { uri: self.uri.clone() }
    }
}

impl Clone for PackageDescriptorDependency {
    fn clone(&self) -> (r: Self)
        ensures
            r.uri.parts() == self.uri.parts(),
    {
        PackageDescriptorDependency { uri: self.uri.clone() }
    }
}

impl PackageDescriptorBuildpackReference {
    /// Parses the URI reference of a buildpack.
    pub fn try_from(value: &str) -> (r: Result<Self, PackageDescriptorBuildpackError>)
        ensures
            match uri_reference_parts(value@) {
                Some(parts) => r matches Ok(b) && b.uri.parts() == parts,
                None => r matches Err(PackageDescriptorBuildpackError::InvalidUri(v)) && v@ == value@,
            },
    {
        match UriReference::parse(value) {
            Some(uri) => Ok(PackageDescriptorBuildpackReference { uri }),
            None => Err(PackageDescriptorBuildpackError::InvalidUri(value.to_owned())),
        }
    }
}

impl PackageDescriptorDependency {
    /// Parses the URI reference of a dependency.
    pub fn try_from(value: &str) -> (r: Result<Self, PackageDescriptorDependencyError>)
        ensures
            match uri_reference_parts(value@) {
                Some(parts) => r matches Ok(d) && d.uri.parts() == parts,
                None => r matches Err(PackageDescriptorDependencyError::InvalidUri(v)) && v@ == value@,
            },
    {
        match UriReference::parse(value) {
            Some(uri) => Ok(PackageDescriptorDependency { uri }),
            None => Err(PackageDescriptorDependencyError::InvalidUri(value.to_owned())),
        }
    }
}

impl Platform {
    /// The default platform: Linux.
    pub fn default() -> (r: Self)
        ensures
            r.os == PlatformOs::Linux,
    {
        Platform { os: PlatformOs::Linux }
    }
}

impl PackageDescriptor {
    /// The default descriptor: the buildpack in the current directory (`.`), no
    /// dependencies, Linux.
    pub fn default() -> (r: Self)
        requires
            uri_reference_parts("."@) is Some,
        ensures
            r.buildpack.uri.parts() == uri_reference_parts("."@)->0,
            r.dependencies@.len() == 0,
            r.platform.os == PlatformOs::Linux,
    {
        let parsed = PackageDescriptorBuildpackReference::try_from(".");
        let buildpack = parsed.unwrap();
        PackageDescriptor { buildpack, dependencies: Vec::new(), platform: Platform::default() }
    }

    /// The default descriptor, where `.` parses as a URI reference; `None` where it does not.
    pub fn try_default() -> (r: Option<Self>)
        ensures
            uri_reference_parts("."@) is Some <==> r is Some,
            r matches Some(d) ==> d.buildpack.uri.parts() == uri_reference_parts("."@)->0
                && d.dependencies@.len() == 0 && d.platform.os == PlatformOs::Linux,
    {
        match UriReference::parse(".") {
            Some(_) => Some(PackageDescriptor::default()),
            None => None,
        }
    }
}

impl PlatformOs {
    /// The name of the operating system in a package descriptor.
    pub fn as_str(&self) -> (r: &'static str)
        ensures
            r@ == (match self {
                PlatformOs::Linux => "linux"@,
                PlatformOs::Windows => "windows"@,
            }),
    {
        match self {
            PlatformOs::Linux => "linux",
            PlatformOs::Windows => "windows",
        }
    }

    /// The operating system of the given name, if it is one.
    pub fn from_str(value: &str) -> (r: Option<PlatformOs>)
        ensures
            r == (if value@ == "linux"@ {
                Some(PlatformOs::Linux)
            } else if value@ == "windows"@ {
                Some(PlatformOs::Windows)
            } else {
                None
            }),
    {
        if str_eq(value, "linux") {
            Some(PlatformOs::Linux)
        } else if str_eq(value, "windows") {
            Some(PlatformOs::Windows)
        } else {
            None
        }
    }
}

} // verus!
