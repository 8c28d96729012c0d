//! The former names of the package descriptor types.
use vstd::prelude::*;

verus! {

/// A package descriptor, under its former name.
pub type Buildpackage = crate::package_descriptor::PackageDescriptor;

/// A reference to the buildpack to package, under its former name.
pub type BuildpackageBuildpackReference = crate::package_descriptor::PackageDescriptorBuildpackReference;

/// A dependency of a package, under its former name.
pub type BuildpackageDependency = crate::package_descriptor::PackageDescriptorDependency;

/// The error of parsing the buildpack reference, under its former name.
pub type BuildpackageBuildpackError = crate::package_descriptor::PackageDescriptorBuildpackError;

/// The error of parsing a dependency, under its former name.
pub type BuildpackageDependencyError = crate::package_descriptor::PackageDescriptorDependencyError;

/// The platform a package is built for.
pub type Platform = crate::package_descriptor::Platform;

/// The operating system a package is built for.
pub type PlatformOs = crate::package_descriptor::PlatformOs;

} // verus!
