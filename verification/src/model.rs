//! The OSV vulnerability schema: the entities a vulnerability record is made
//! of, their mathematical views, and what a well-formed record is.
//!
//! Timestamps are carried as their RFC 3339 wire text; the schema reads
//! nothing out of them, and validity is checked at decoding.

use vstd::prelude::*;
use crate::json::{JsonV, JsonValue};

verus! {

/// A commit is a full SHA1 Git hash in hex format.
pub type Commit = String;

/// Version is an arbitrary string representing the version of a package.
pub type Version = String;

/// The package ecosystem that a vulnerability is associated with. The set of
/// ecosystems grows over time, so a value outside the known set is kept as
/// it stands rather than refused.
#[derive(Debug, PartialEq)]
pub enum Ecosystem {
    Go,
    Npm,
    OssFuzz,
    PyPI,
    RubyGems,
    CratesIO,
    Packagist,
    Maven,
    NuGet,
    Linux,
    Debian,
    Hex,
    Android,
    GitHubActions,
    Pub,
    /// An ecosystem this client does not know; the tag is kept verbatim.
    Other(String),
}

/// Mathematical view of [`Ecosystem`].
pub enum EcosystemV {
    Go,
    Npm,
    OssFuzz,
    PyPI,
    RubyGems,
    CratesIO,
    Packagist,
    Maven,
    NuGet,
    Linux,
    Debian,
    Hex,
    Android,
    GitHubActions,
    Pub,
    Other(Seq<char>),
}

impl DeepView for Ecosystem {
    type V = EcosystemV;

    open spec fn deep_view(&self) -> EcosystemV {
        match self {
            Ecosystem::Go => EcosystemV::Go,
            Ecosystem::Npm => EcosystemV::Npm,
            Ecosystem::OssFuzz => EcosystemV::OssFuzz,
            Ecosystem::PyPI => EcosystemV::PyPI,
            Ecosystem::RubyGems => EcosystemV::RubyGems,
            Ecosystem::CratesIO => EcosystemV::CratesIO,
            Ecosystem::Packagist => EcosystemV::Packagist,
            Ecosystem::Maven => EcosystemV::Maven,
            Ecosystem::NuGet => EcosystemV::NuGet,
            Ecosystem::Linux => EcosystemV::Linux,
            Ecosystem::Debian => EcosystemV::Debian,
            Ecosystem::Hex => EcosystemV::Hex,
            Ecosystem::Android => EcosystemV::Android,
            Ecosystem::GitHubActions => EcosystemV::GitHubActions,
            Ecosystem::Pub => EcosystemV::Pub,
            Ecosystem::Other(s) => EcosystemV::Other(s@),
        }
    }
}

impl View for Ecosystem {
    type V = EcosystemV;

    open spec fn view(&self) -> EcosystemV {
        self.deep_view()
    }
}

/// Package identifies the code library or command that is potentially
/// affected by a particular vulnerability.
#[derive(Debug, PartialEq)]
pub struct Package {
    /// The name of the package or dependency.
    pub name: String,
    /// The overall library ecosystem this package can be obtained from.
    pub ecosystem: Ecosystem,
    /// A string following the Package URL specification, if given.
    pub purl: Option<String>,
}

/// Mathematical view of [`Package`].
pub struct PackageV {
    pub name: Seq<char>,
    pub ecosystem: EcosystemV,
    pub purl: Option<Seq<char>>,
}

impl DeepView for Package {
    type V = PackageV;

    open spec fn deep_view(&self) -> PackageV {
        PackageV {
            name: self.name@,
            ecosystem: self.ecosystem.deep_view(),
            purl: self.purl.deep_view(),
        }
    }
}

impl View for Package {
    type V = PackageV;

    open spec fn view(&self) -> PackageV {
        self.deep_view()
    }
}

/// Kind of version range carried by an affected record: how the
/// `introduced`/`fixed`/`limit` events are to be interpreted.
#[derive(Debug, Clone, Copy, PartialEq, Eq, Structural)]
pub enum RangeType {
    /// Default for the case where a range type is omitted.
    Unspecified,
    /// Events are full-length Git commit hashes.
    Git,
    /// Events are semantic versions (SemVer 2.0.0).
    Semver,
    /// Events are arbitrary strings specific to the package ecosystem.
    Ecosystem,
}

/// One point in the status timeline of an affected range.
#[derive(Debug, PartialEq)]
pub enum Event {
    /// The version or commit in which the vulnerability was introduced.
    Introduced(String),
    /// The version in which the vulnerability was fixed.
    Fixed(String),
    /// The upper limit on the range being described.
    Limit(String),
}

/// Mathematical view of [`Event`].
pub enum EventV {
    Introduced(Seq<char>),
    Fixed(Seq<char>),
    Limit(Seq<char>),
}

impl DeepView for Event {
    type V = EventV;

    open spec fn deep_view(&self) -> EventV {
        match self {
            Event::Introduced(s) => EventV::Introduced(s@),
            Event::Fixed(s) => EventV::Fixed(s@),
            Event::Limit(s) => EventV::Limit(s@),
        }
    }
}

impl View for Event {
    type V = EventV;

    open spec fn view(&self) -> EventV {
        self.deep_view()
    }
}

/// The range of versions of a package in which it is affected by the
/// vulnerability.
#[derive(Debug, PartialEq)]
pub struct Range {
    /// The format the range events are specified in.
    pub range_type: RangeType,
    /// URL of the package's code repository, if given.
    pub repo: Option<String>,
    /// The status timeline for how the vulnerability affected the package.
    pub events: Vec<Event>,
}

/// Mathematical view of [`Range`].
pub struct RangeV {
    pub range_type: RangeType,
    pub repo: Option<Seq<char>>,
    pub events: Seq<EventV>,
}

impl DeepView for Range {
    type V = RangeV;

    open spec fn deep_view(&self) -> RangeV {
        RangeV {
            range_type: self.range_type,
            repo: self.repo.deep_view(),
            events: self.events.deep_view(),
        }
    }
}

impl View for Range {
    type V = RangeV;

    open spec fn view(&self) -> RangeV {
        self.deep_view()
    }
}

/// The versions of one package that are affected by a vulnerability.
#[derive(Debug, PartialEq)]
pub struct Affected {
    /// The package that is affected.
    pub package: Package,
    /// The ranges of versions or commits in which it is affected.
    pub ranges: Vec<Range>,
    /// Explicitly enumerated affected versions, if given.
    pub versions: Option<Vec<String>>,
    /// Additional ecosystem-specific JSON payload, kept opaque.
    pub ecosystem_specific: Option<JsonValue>,
    /// Additional database-specific JSON payload, kept opaque.
    pub database_specific: Option<JsonValue>,
}

/// Mathematical view of [`Affected`].
pub struct AffectedV {
    pub package: PackageV,
    pub ranges: Seq<RangeV>,
    pub versions: Option<Seq<Seq<char>>>,
    pub ecosystem_specific: Option<JsonV>,
    pub database_specific: Option<JsonV>,
}

impl DeepView for Affected {
    type V = AffectedV;

    open spec fn deep_view(&self) -> AffectedV {
        AffectedV {
            package: self.package.deep_view(),
            ranges: self.ranges.deep_view(),
            versions: self.versions.deep_view(),
            ecosystem_specific: self.ecosystem_specific.deep_view(),
            database_specific: self.database_specific.deep_view(),
        }
    }
}

impl View for Affected {
    type V = AffectedV;

    open spec fn view(&self) -> AffectedV {
        self.deep_view()
    }
}

/// The kind of information a reference URL points to.
#[derive(Debug, Clone, Copy, PartialEq, Eq, Structural)]
pub enum ReferenceType {
    Undefined,
    Web,
    Advisory,
    Report,
    Fix,
    Package,
    Article,
}

/// Reference to additional information about the vulnerability.
#[derive(Debug, PartialEq)]
pub struct Reference {
    /// The kind of reference this URL points to.
    pub reference_type: ReferenceType,
    /// Where more information can be obtained.
    pub url: String,
}

/// Mathematical view of [`Reference`].
pub struct ReferenceV {
    pub reference_type: ReferenceType,
    pub url: Seq<char>,
}

impl DeepView for Reference {
    type V = ReferenceV;

    open spec fn deep_view(&self) -> ReferenceV {
        ReferenceV { reference_type: self.reference_type, url: self.url@ }
    }
}

impl View for Reference {
    type V = ReferenceV;

    open spec fn view(&self) -> ReferenceV {
        self.deep_view()
    }
}

/// The quantitative scoring method used to rate the severity of the
/// vulnerability.
#[derive(Debug, Clone, Copy, PartialEq, Eq, Structural)]
pub enum SeverityType {
    /// The score was arrived at by an unspecified method.
    Unspecified,
    /// The score is a CVSS vector string of a version at least 3 and
    /// below 4.
    CVSSv3,
}

/// The method and score describing the severity of a vulnerability.
#[derive(Debug, PartialEq)]
pub struct Severity {
    /// The scoring method behind the score.
    pub severity_type: SeverityType,
    /// The score under that method.
    pub score: String,
}

/// Mathematical view of [`Severity`].
pub struct SeverityV {
    pub severity_type: SeverityType,
    pub score: Seq<char>,
}

impl DeepView for Severity {
    type V = SeverityV;

    open spec fn deep_view(&self) -> SeverityV {
        SeverityV { severity_type: self.severity_type, score: self.score@ }
    }
}

impl View for Severity {
    type V = SeverityV;

    open spec fn view(&self) -> SeverityV {
        self.deep_view()
    }
}

/// Credit for the discovery, confirmation, patch or other events in the life
/// cycle of a vulnerability.
#[derive(Debug, PartialEq)]
pub struct Credit {
    pub name: String,
    pub contact: Vec<String>,
}

/// Mathematical view of [`Credit`].
pub struct CreditV {
    pub name: Seq<char>,
    pub contact: Seq<Seq<char>>,
}

impl DeepView for Credit {
    type V = CreditV;

    open spec fn deep_view(&self) -> CreditV {
        CreditV { name: self.name@, contact: self.contact.deep_view() }
    }
}

impl View for Credit {
    type V = CreditV;

    open spec fn view(&self) -> CreditV {
        self.deep_view()
    }
}

/// A vulnerability record, the standard exchange entity of the OSV schema.
/// Timestamps are RFC 3339 text in UTC.
#[derive(Debug, PartialEq)]
pub struct Vulnerability {
    /// Which version of the OSV schema the record was exported with.
    pub schema_version: String,
    /// Unique identifier, a string of the format `<DB>-<ENTRYID>`.
    pub id: String,
    /// When the entry is considered to have been published.
    pub published: String,
    /// When the entry was last modified.
    pub modified: String,
    /// When the entry was withdrawn, if it has been.
    pub withdrawn: Option<String>,
    /// Identifiers of the same vulnerability in other databases.
    pub aliases: Option<Vec<String>>,
    /// Identifiers of closely related vulnerabilities.
    pub related: Option<Vec<String>>,
    /// One-line English summary.
    pub summary: Option<String>,
    /// Additional English details, CommonMark markdown.
    pub details: Option<String>,
    /// The package ranges affected by this vulnerability.
    pub affected: Vec<Affected>,
    /// External references with more context.
    pub references: Option<Vec<Reference>>,
    /// Severity under one or more scoring methods.
    pub severity: Option<Vec<Severity>>,
    /// Credits for work on this vulnerability.
    pub credits: Option<Vec<Credit>>,
    /// Additional database-specific JSON payload, kept opaque.
    pub database_specific: Option<JsonValue>,
}

/// Mathematical view of [`Vulnerability`].
pub struct VulnerabilityV {
    pub schema_version: Seq<char>,
    pub id: Seq<char>,
    pub published: Seq<char>,
    pub modified: Seq<char>,
    pub withdrawn: Option<Seq<char>>,
    pub aliases: Option<Seq<Seq<char>>>,
    pub related: Option<Seq<Seq<char>>>,
    pub summary: Option<Seq<char>>,
    pub details: Option<Seq<char>>,
    pub affected: Seq<AffectedV>,
    pub references: Option<Seq<ReferenceV>>,
    pub severity: Option<Seq<SeverityV>>,
    pub credits: Option<Seq<CreditV>>,
    pub database_specific: Option<JsonV>,
}

impl DeepView for Vulnerability {
    type V = VulnerabilityV;

    open spec fn deep_view(&self) -> VulnerabilityV {
        VulnerabilityV {
            schema_version: self.schema_version@,
            id: self.id@,
            published: self.published@,
            modified: self.modified@,
            withdrawn: self.withdrawn.deep_view(),
            aliases: self.aliases.deep_view(),
            related: self.related.deep_view(),
            summary: self.summary.deep_view(),
            details: self.details.deep_view(),
            affected: self.affected.deep_view(),
            references: self.references.deep_view(),
            severity: self.severity.deep_view(),
            credits: self.credits.deep_view(),
            database_specific: self.database_specific.deep_view(),
        }
    }
}

impl View for Vulnerability {
    type V = VulnerabilityV;

    open spec fn view(&self) -> VulnerabilityV {
        self.deep_view()
    }
}

/// The two query payloads the OSV API server accepts: by commit hash, or by
/// package and version. On the wire the two shapes carry no discriminator
/// key; field presence alone tells them apart.
#[derive(Debug, PartialEq)]
pub enum Request {
    /// Query the vulnerability sources by commit hash.
    CommitQuery { commit: Commit },
    /// Query the vulnerability sources by package and version pair.
    PackageQuery { version: Version, package: Package },
}

/// Mathematical view of [`Request`].
pub enum RequestV {
    CommitQuery { commit: Seq<char> },
    PackageQuery { version: Seq<char>, package: PackageV },
}

impl DeepView for Request {
    type V = RequestV;

    open spec fn deep_view(&self) -> RequestV {
        match self {
            Request::CommitQuery { commit } => RequestV::CommitQuery { commit: commit@ },
            Request::PackageQuery { version, package } => RequestV::PackageQuery {
                version: version@,
                package: package.deep_view(),
            },
        }
    }
}

impl View for Request {
    type V = RequestV;

    open spec fn view(&self) -> RequestV {
        self.deep_view()
    }
}

/// Whether `s` is a valid RFC 3339 timestamp text.
pub uninterp spec fn rfc3339_ok(s: Seq<char>) -> bool;

/// Relies on chrono's `DateTime::parse_from_rfc3339`: whether a text parses
/// as an RFC 3339 timestamp is a function of its characters alone.
#[verifier::external_body]
pub fn timestamp_valid(s: &str) -> (r: bool)
    ensures
        r == rfc3339_ok(s@),
{
    chrono::DateTime::parse_from_rfc3339(s).is_ok()
}

} // verus!
