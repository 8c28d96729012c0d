//! The formats of software bills of materials.
use vstd::prelude::*;

verus! {

/// A format of software bills of materials.
#[derive(Debug, Clone, Copy, PartialEq, Eq, Structural, Hash)]
pub enum SbomFormat {
    CycloneDxJson,
    SpdxJson,
    SyftJson,
}

/// The media type of a format.
pub open spec fn media_type(f: SbomFormat) -> Seq<char> {
    match f {
        SbomFormat::CycloneDxJson => "application/vnd.cyclonedx+json"@,
        SbomFormat::SpdxJson => "application/spdx+json"@,
        SbomFormat::SyftJson => "application/vnd.syft+json"@,
    }
}

impl SbomFormat {
    /// The media type of the format.
    pub fn as_str(&self) -> (r: &'static str)
        ensures
            r@ == media_type(*self),
    {
        match self {
            SbomFormat::CycloneDxJson => "application/vnd.cyclonedx+json",
            SbomFormat::SpdxJson => "application/spdx+json",
            SbomFormat::SyftJson => "application/vnd.syft+json",
        }
    }
}

/// All formats.
pub fn sbom_formats() -> (r: Vec<SbomFormat>)
    ensures
        r@ == seq![SbomFormat::CycloneDxJson, SbomFormat::SpdxJson, SbomFormat::SyftJson],
{
    let mut r: Vec<SbomFormat> = Vec::new();
    r.push(SbomFormat::CycloneDxJson);
    r.push(SbomFormat::SpdxJson);
    r.push(SbomFormat::SyftJson);
    r
}

} // verus!
