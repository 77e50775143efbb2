//! The JSON wire form of the schema entities.
//!
//! Encoding is a function from an entity's view to a JSON document: exact
//! tag spellings, members in declaration order, and every absent optional
//! field wholly omitted (never written as `null`). Decoding reads the
//! members it knows, ignores every other key, refuses an unrecognized value
//! of a closed tag, and keeps an unrecognized ecosystem verbatim.

use vstd::prelude::*;
use crate::json::{
    JsonV, JsonValue, clone_json, get_key, lemma_view_arr_index, lemma_view_obj_index, obj_get,
    view_arr, view_obj,
};
use crate::model::{
    Affected, AffectedV, Credit, CreditV, Ecosystem, EcosystemV, Event, EventV, Package, PackageV,
    Range, RangeType, RangeV, Reference, ReferenceType, ReferenceV, Request, RequestV, Severity,
    SeverityType, SeverityV, Vulnerability, VulnerabilityV, rfc3339_ok, timestamp_valid,
};

verus! {

/// The exact upper-case wire spelling of a range type tag.
pub open spec fn range_type_tag(t: RangeType) -> Seq<char> {
    match t {
        RangeType::Unspecified => "UNSPECIFIED"@,
        RangeType::Git => "GIT"@,
        RangeType::Semver => "SEMVER"@,
        RangeType::Ecosystem => "ECOSYSTEM"@,
    }
}

/// The range type a tag names, if any.
pub open spec fn range_type_of_tag(s: Seq<char>) -> Option<RangeType> {
    if s == "UNSPECIFIED"@ {
        Some(RangeType::Unspecified)
    } else if s == "GIT"@ {
        Some(RangeType::Git)
    } else if s == "SEMVER"@ {
        Some(RangeType::Semver)
    } else if s == "ECOSYSTEM"@ {
        Some(RangeType::Ecosystem)
    } else {
        None
    }
}

/// The exact wire spelling of a reference type tag; `Undefined` is written
/// `NONE`.
pub open spec fn reference_type_tag(t: ReferenceType) -> Seq<char> {
    match t {
        ReferenceType::Undefined => "NONE"@,
        ReferenceType::Web => "WEB"@,
        ReferenceType::Advisory => "ADVISORY"@,
        ReferenceType::Report => "REPORT"@,
        ReferenceType::Fix => "FIX"@,
        ReferenceType::Package => "PACKAGE"@,
        ReferenceType::Article => "ARTICLE"@,
    }
}

/// The reference type a tag names, if any.
pub open spec fn reference_type_of_tag(s: Seq<char>) -> Option<ReferenceType> {
    if s == "NONE"@ {
        Some(ReferenceType::Undefined)
    } else if s == "WEB"@ {
        Some(ReferenceType::Web)
    } else if s == "ADVISORY"@ {
        Some(ReferenceType::Advisory)
    } else if s == "REPORT"@ {
        Some(ReferenceType::Report)
    } else if s == "FIX"@ {
        Some(ReferenceType::Fix)
    } else if s == "PACKAGE"@ {
        Some(ReferenceType::Package)
    } else if s == "ARTICLE"@ {
        Some(ReferenceType::Article)
    } else {
        None
    }
}

/// The exact wire spelling of a severity type tag; `CVSSv3` is written
/// `CVSS_V3`.
pub open spec fn severity_type_tag(t: SeverityType) -> Seq<char> {
    match t {
        SeverityType::Unspecified => "UNSPECIFIED"@,
        SeverityType::CVSSv3 => "CVSS_V3"@,
    }
}

/// The severity type a tag names, if any.
pub open spec fn severity_type_of_tag(s: Seq<char>) -> Option<SeverityType> {
    if s == "UNSPECIFIED"@ {
        Some(SeverityType::Unspecified)
    } else if s == "CVSS_V3"@ {
        Some(SeverityType::CVSSv3)
    } else {
        None
    }
}

/// The wire spelling of an ecosystem tag; an unknown ecosystem keeps its own
/// spelling.
pub open spec fn ecosystem_tag(e: EcosystemV) -> Seq<char> {
    match e {
        EcosystemV::Go => "Go"@,
        EcosystemV::Npm => "npm"@,
        EcosystemV::OssFuzz => "OSS-Fuzz"@,
        EcosystemV::PyPI => "PyPI"@,
        EcosystemV::RubyGems => "RubyGems"@,
        EcosystemV::CratesIO => "crates.io"@,
        EcosystemV::Packagist => "Packagist"@,
        EcosystemV::Maven => "Maven"@,
        EcosystemV::NuGet => "NuGet"@,
        EcosystemV::Linux => "Linux"@,
        EcosystemV::Debian => "Debian"@,
        EcosystemV::Hex => "Hex"@,
        EcosystemV::Android => "Android"@,
        EcosystemV::GitHubActions => "GitHub Actions"@,
        EcosystemV::Pub => "Pub"@,
        EcosystemV::Other(s) => s,
    }
}

/// Whether a tag names one of the ecosystems this client knows.
pub open spec fn known_ecosystem(s: Seq<char>) -> bool {
    s == "Go"@ || s == "npm"@ || s == "OSS-Fuzz"@ || s == "PyPI"@ || s == "RubyGems"@ || s
        == "crates.io"@ || s == "Packagist"@ || s == "Maven"@ || s == "NuGet"@ || s == "Linux"@ || s
        == "Debian"@ || s == "Hex"@ || s == "Android"@ || s == "GitHub Actions"@ || s == "Pub"@
}

/// The ecosystem a tag names; an unknown tag is kept verbatim, never
/// refused.
pub open spec fn ecosystem_of_tag(s: Seq<char>) -> EcosystemV {
    if s == "Go"@ {
        EcosystemV::Go
    } else if s == "npm"@ {
        EcosystemV::Npm
    } else if s == "OSS-Fuzz"@ {
        EcosystemV::OssFuzz
    } else if s == "PyPI"@ {
        EcosystemV::PyPI
    } else if s == "RubyGems"@ {
        EcosystemV::RubyGems
    } else if s == "crates.io"@ {
        EcosystemV::CratesIO
    } else if s == "Packagist"@ {
        EcosystemV::Packagist
    } else if s == "Maven"@ {
        EcosystemV::Maven
    } else if s == "NuGet"@ {
        EcosystemV::NuGet
    } else if s == "Linux"@ {
        EcosystemV::Linux
    } else if s == "Debian"@ {
        EcosystemV::Debian
    } else if s == "Hex"@ {
        EcosystemV::Hex
    } else if s == "Android"@ {
        EcosystemV::Android
    } else if s == "GitHub Actions"@ {
        EcosystemV::GitHubActions
    } else if s == "Pub"@ {
        EcosystemV::Pub
    } else {
        EcosystemV::Other(s)
    }
}

/// A member list holding `key` exactly where the value is given.
pub open spec fn opt_member(key: Seq<char>, v: Option<JsonV>) -> Seq<(Seq<char>, JsonV)> {
    match v {
        None => Seq::empty(),
        Some(j) => seq![(key, j)],
    }
}

/// A member list holding `key` as a string exactly where the text is given.
pub open spec fn opt_str_member(key: Seq<char>, o: Option<Seq<char>>) -> Seq<(Seq<char>, JsonV)> {
    match o {
        None => Seq::empty(),
        Some(s) => seq![(key, JsonV::Str(s))],
    }
}

/// An array of strings.
pub open spec fn str_arr(ss: Seq<Seq<char>>) -> JsonV {
    JsonV::Arr(Seq::new(ss.len(), |i: int| JsonV::Str(ss[i])))
}

/// A member list holding `key` as an array of strings exactly where the
/// list is given.
pub open spec fn opt_str_arr_member(key: Seq<char>, o: Option<Seq<Seq<char>>>) -> Seq<
    (Seq<char>, JsonV),
> {
    match o {
        None => Seq::empty(),
        Some(ss) => seq![(key, str_arr(ss))],
    }
}

/// The wire form of an event: a single-key object whose key is the
/// lower-case variant name.
pub open spec fn event_json(e: EventV) -> JsonV {
    match e {
        EventV::Introduced(s) => JsonV::Obj(seq![("introduced"@, JsonV::Str(s))]),
        EventV::Fixed(s) => JsonV::Obj(seq![("fixed"@, JsonV::Str(s))]),
        EventV::Limit(s) => JsonV::Obj(seq![("limit"@, JsonV::Str(s))]),
    }
}

/// The wire form of a package.
pub open spec fn package_json(p: PackageV) -> JsonV {
    JsonV::Obj(
        seq![
            ("name"@, JsonV::Str(p.name)),
            ("ecosystem"@, JsonV::Str(ecosystem_tag(p.ecosystem))),
        ] + opt_str_member("purl"@, p.purl),
    )
}

/// The wire form of a range; its kind is written under the key `type`.
pub open spec fn range_json(r: RangeV) -> JsonV {
    JsonV::Obj(
        seq![("type"@, JsonV::Str(range_type_tag(r.range_type)))] + opt_str_member("repo"@, r.repo)
            + seq![
            ("events"@, JsonV::Arr(Seq::new(r.events.len(), |i: int| event_json(r.events[i])))),
        ],
    )
}

/// The wire form of an affected record.
pub open spec fn affected_json(a: AffectedV) -> JsonV {
    JsonV::Obj(
        seq![
            ("package"@, package_json(a.package)),
            ("ranges"@, JsonV::Arr(Seq::new(a.ranges.len(), |i: int| range_json(a.ranges[i])))),
        ] + opt_str_arr_member("versions"@, a.versions) + opt_member(
            "ecosystem_specific"@,
            a.ecosystem_specific,
        ) + opt_member("database_specific"@, a.database_specific),
    )
}

/// The wire form of a reference.
pub open spec fn reference_json(r: ReferenceV) -> JsonV {
    JsonV::Obj(
        seq![
            ("type"@, JsonV::Str(reference_type_tag(r.reference_type))),
            ("url"@, JsonV::Str(r.url)),
        ],
    )
}

/// The wire form of a severity entry.
pub open spec fn severity_json(s: SeverityV) -> JsonV {
    JsonV::Obj(
        seq![
            ("type"@, JsonV::Str(severity_type_tag(s.severity_type))),
            ("score"@, JsonV::Str(s.score)),
        ],
    )
}

/// The wire form of a credit entry.
pub open spec fn credit_json(c: CreditV) -> JsonV {
    JsonV::Obj(seq![("name"@, JsonV::Str(c.name)), ("contact"@, str_arr(c.contact))])
}

/// The wire form of a whole vulnerability record: required members in
/// declaration order, each absent optional member wholly omitted.
pub open spec fn vuln_json(v: VulnerabilityV) -> JsonV {
    JsonV::Obj(
        seq![
            ("schema_version"@, JsonV::Str(v.schema_version)),
            ("id"@, JsonV::Str(v.id)),
            ("published"@, JsonV::Str(v.published)),
            ("modified"@, JsonV::Str(v.modified)),
        ] + opt_str_member("withdrawn"@, v.withdrawn) + opt_str_arr_member("aliases"@, v.aliases)
            + opt_str_arr_member("related"@, v.related) + opt_str_member("summary"@, v.summary)
            + opt_str_member("details"@, v.details) + seq![
            (
                "affected"@,
                JsonV::Arr(Seq::new(v.affected.len(), |i: int| affected_json(v.affected[i]))),
            ),
        ] + (match v.references {
            None => Seq::empty(),
            Some(xs) => seq![
                ("references"@, JsonV::Arr(Seq::new(xs.len(), |i: int| reference_json(xs[i])))),
            ],
        }) + (match v.severity {
            None => Seq::empty(),
            Some(xs) => seq![
                ("severity"@, JsonV::Arr(Seq::new(xs.len(), |i: int| severity_json(xs[i])))),
            ],
        }) + (match v.credits {
            None => Seq::empty(),
            Some(xs) => seq![
                ("credits"@, JsonV::Arr(Seq::new(xs.len(), |i: int| credit_json(xs[i])))),
            ],
        }) + opt_member("database_specific"@, v.database_specific),
    )
}

/// The untagged wire form of a query request: the chosen shape's fields
/// stand directly in the outer object, with no discriminator key.
pub open spec fn request_json(q: RequestV) -> JsonV {
    match q {
        RequestV::CommitQuery { commit } => JsonV::Obj(seq![("commit"@, JsonV::Str(commit))]),
        RequestV::PackageQuery { version, package } => JsonV::Obj(
            seq![("version"@, JsonV::Str(version)), ("package"@, package_json(package))],
        ),
    }
}

/// A required string member: present with a string value, or the read
/// fails.
pub open spec fn req_str_field(ms: Seq<(Seq<char>, JsonV)>, key: Seq<char>) -> Option<Seq<char>> {
    match obj_get(ms, key) {
        Some(JsonV::Str(s)) => Some(s),
        _ => None,
    }
}

/// An optional string member: absent or `null` reads as nothing, a string
/// reads as itself, anything else fails the read (outer `None`).
pub open spec fn opt_str_field(ms: Seq<(Seq<char>, JsonV)>, key: Seq<char>) -> Option<
    Option<Seq<char>>,
> {
    match obj_get(ms, key) {
        None => Some(None),
        Some(JsonV::Null) => Some(None),
        Some(JsonV::Str(s)) => Some(Some(s)),
        Some(_) => None,
    }
}

/// A required array member.
pub open spec fn req_arr_field(ms: Seq<(Seq<char>, JsonV)>, key: Seq<char>) -> Option<Seq<JsonV>> {
    match obj_get(ms, key) {
        Some(JsonV::Arr(vs)) => Some(vs),
        _ => None,
    }
}

/// An optional array member: absent or `null` reads as nothing.
pub open spec fn opt_arr_field(ms: Seq<(Seq<char>, JsonV)>, key: Seq<char>) -> Option<
    Option<Seq<JsonV>>,
> {
    match obj_get(ms, key) {
        None => Some(None),
        Some(JsonV::Null) => Some(None),
        Some(JsonV::Arr(vs)) => Some(Some(vs)),
        Some(_) => None,
    }
}

/// An optional member of any shape, kept opaque: absent or `null` reads as
/// nothing.
pub open spec fn opt_json_field(ms: Seq<(Seq<char>, JsonV)>, key: Seq<char>) -> Option<JsonV> {
    match obj_get(ms, key) {
        None => None,
        Some(JsonV::Null) => None,
        Some(j) => Some(j),
    }
}

/// The strings of an array whose elements are all strings.
pub open spec fn strs_of(vs: Seq<JsonV>) -> Option<Seq<Seq<char>>>
    decreases vs.len(),
{
    if vs.len() == 0 {
        Some(Seq::empty())
    } else {
        match vs[0] {
            JsonV::Str(s) => match strs_of(vs.drop_first()) {
                Some(t) => Some(seq![s] + t),
                None => None,
            },
            _ => None,
        }
    }
}

/// The event a document denotes: a single-member object whose key names the
/// variant and whose value is a string.
pub open spec fn event_of_json(j: JsonV) -> Option<EventV> {
    match j {
        JsonV::Obj(ms) => if ms.len() == 1 {
            match ms[0].1 {
                JsonV::Str(s) => if ms[0].0 == "introduced"@ {
                    Some(EventV::Introduced(s))
                } else if ms[0].0 == "fixed"@ {
                    Some(EventV::Fixed(s))
                } else if ms[0].0 == "limit"@ {
                    Some(EventV::Limit(s))
                } else {
                    None
                },
                _ => None,
            }
        } else {
            None
        },
        _ => None,
    }
}

/// The events of an array.
pub open spec fn events_of(vs: Seq<JsonV>) -> Option<Seq<EventV>>
    decreases vs.len(),
{
    if vs.len() == 0 {
        Some(Seq::empty())
    } else {
        match event_of_json(vs[0]) {
            Some(e) => match events_of(vs.drop_first()) {
                Some(t) => Some(seq![e] + t),
                None => None,
            },
            None => None,
        }
    }
}

/// The package a document denotes.
pub open spec fn package_of_json(j: JsonV) -> Option<PackageV> {
    match j {
        JsonV::Obj(ms) => match req_str_field(ms, "name"@) {
            None => None,
            Some(name) => match req_str_field(ms, "ecosystem"@) {
                None => None,
                Some(eco) => match opt_str_field(ms, "purl"@) {
                    None => None,
                    Some(purl) => Some(
                        PackageV { name, ecosystem: ecosystem_of_tag(eco), purl },
                    ),
                },
            },
        },
        _ => None,
    }
}

/// The range a document denotes; its `type` tag is closed, so an
/// unrecognized tag fails the read.
pub open spec fn range_of_json(j: JsonV) -> Option<RangeV> {
    match j {
        JsonV::Obj(ms) => match req_str_field(ms, "type"@) {
            None => None,
            Some(t) => match range_type_of_tag(t) {
                None => None,
                Some(rt) => match opt_str_field(ms, "repo"@) {
                    None => None,
                    Some(repo) => match req_arr_field(ms, "events"@) {
                        None => None,
                        Some(evs) => match events_of(evs) {
                            None => None,
                            Some(events) => Some(RangeV { range_type: rt, repo, events }),
                        },
                    },
                },
            },
        },
        _ => None,
    }
}

/// The ranges of an array.
pub open spec fn ranges_of(vs: Seq<JsonV>) -> Option<Seq<RangeV>>
    decreases vs.len(),
{
    if vs.len() == 0 {
        Some(Seq::empty())
    } else {
        match range_of_json(vs[0]) {
            Some(r) => match ranges_of(vs.drop_first()) {
                Some(t) => Some(seq![r] + t),
                None => None,
            },
            None => None,
        }
    }
}

/// The affected record a document denotes.
pub open spec fn affected_of_json(j: JsonV) -> Option<AffectedV> {
    match j {
        JsonV::Obj(ms) => match obj_get(ms, "package"@) {
            None => None,
            Some(pj) => match package_of_json(pj) {
                None => None,
                Some(package) => match req_arr_field(ms, "ranges"@) {
                    None => None,
                    Some(rs) => match ranges_of(rs) {
                        None => None,
                        Some(ranges) => match opt_arr_field(ms, "versions"@) {
                            None => None,
                            Some(vsopt) => {
                                let versions = match vsopt {
                                    None => Some(None),
                                    Some(vs) => match strs_of(vs) {
                                        None => None,
                                        Some(ss) => Some(Some(ss)),
                                    },
                                };
                                match versions {
                                    None => None,
                                    Some(versions) => Some(
                                        AffectedV {
                                            package,
                                            ranges,
                                            versions,
                                            ecosystem_specific: opt_json_field(
                                                ms,
                                                "ecosystem_specific"@,
                                            ),
                                            database_specific: opt_json_field(
                                                ms,
                                                "database_specific"@,
                                            ),
                                        },
                                    ),
                                }
                            },
                        },
                    },
                },
            },
        },
        _ => None,
    }
}

/// The affected records of an array.
pub open spec fn affecteds_of(vs: Seq<JsonV>) -> Option<Seq<AffectedV>>
    decreases vs.len(),
{
    if vs.len() == 0 {
        Some(Seq::empty())
    } else {
        match affected_of_json(vs[0]) {
            Some(a) => match affecteds_of(vs.drop_first()) {
                Some(t) => Some(seq![a] + t),
                None => None,
            },
            None => None,
        }
    }
}

/// The reference a document denotes; its `type` tag is closed.
pub open spec fn reference_of_json(j: JsonV) -> Option<ReferenceV> {
    match j {
        JsonV::Obj(ms) => match req_str_field(ms, "type"@) {
            None => None,
            Some(t) => match reference_type_of_tag(t) {
                None => None,
                Some(rt) => match req_str_field(ms, "url"@) {
                    None => None,
                    Some(url) => Some(ReferenceV { reference_type: rt, url }),
                },
            },
        },
        _ => None,
    }
}

/// The references of an array.
pub open spec fn references_of(vs: Seq<JsonV>) -> Option<Seq<ReferenceV>>
    decreases vs.len(),
{
    if vs.len() == 0 {
        Some(Seq::empty())
    } else {
        match reference_of_json(vs[0]) {
            Some(r) => match references_of(vs.drop_first()) {
                Some(t) => Some(seq![r] + t),
                None => None,
            },
            None => None,
        }
    }
}

/// The severity entry a document denotes; its `type` tag is closed.
pub open spec fn severity_of_json(j: JsonV) -> Option<SeverityV> {
    match j {
        JsonV::Obj(ms) => match req_str_field(ms, "type"@) {
            None => None,
            Some(t) => match severity_type_of_tag(t) {
                None => None,
                Some(st) => match req_str_field(ms, "score"@) {
                    None => None,
                    Some(score) => Some(SeverityV { severity_type: st, score }),
                },
            },
        },
        _ => None,
    }
}

/// The severity entries of an array.
pub open spec fn severities_of(vs: Seq<JsonV>) -> Option<Seq<SeverityV>>
    decreases vs.len(),
{
    if vs.len() == 0 {
        Some(Seq::empty())
    } else {
        match severity_of_json(vs[0]) {
            Some(s) => match severities_of(vs.drop_first()) {
                Some(t) => Some(seq![s] + t),
                None => None,
            },
            None => None,
        }
    }
}

/// The credit entry a document denotes.
pub open spec fn credit_of_json(j: JsonV) -> Option<CreditV> {
    match j {
        JsonV::Obj(ms) => match req_str_field(ms, "name"@) {
            None => None,
            Some(name) => match req_arr_field(ms, "contact"@) {
                None => None,
                Some(cs) => match strs_of(cs) {
                    None => None,
                    Some(contact) => Some(CreditV { name, contact }),
                },
            },
        },
        _ => None,
    }
}

/// The credit entries of an array.
pub open spec fn credits_of(vs: Seq<JsonV>) -> Option<Seq<CreditV>>
    decreases vs.len(),
{
    if vs.len() == 0 {
        Some(Seq::empty())
    } else {
        match credit_of_json(vs[0]) {
            Some(c) => match credits_of(vs.drop_first()) {
                Some(t) => Some(seq![c] + t),
                None => None,
            },
            None => None,
        }
    }
}

/// An optional list member read through `f`-style element decoding is
/// spelled out per element type above; this combines an optional array with
/// string elements.
pub open spec fn opt_strs_field(ms: Seq<(Seq<char>, JsonV)>, key: Seq<char>) -> Option<
    Option<Seq<Seq<char>>>,
> {
    match opt_arr_field(ms, key) {
        None => None,
        Some(None) => Some(None),
        Some(Some(vs)) => match strs_of(vs) {
            None => None,
            Some(ss) => Some(Some(ss)),
        },
    }
}

/// The vulnerability record a document denotes: required members present
/// with the right shapes, timestamps valid RFC 3339 text, unknown members
/// ignored.
pub open spec fn vuln_of_json(j: JsonV) -> Option<VulnerabilityV> {
    match j {
        JsonV::Obj(ms) => match req_str_field(ms, "schema_version"@) {
            None => None,
            Some(schema_version) => match req_str_field(ms, "id"@) {
                None => None,
                Some(id) => match req_str_field(ms, "published"@) {
                    None => None,
                    Some(published) => if !rfc3339_ok(published) {
                        None
                    } else {
                        match req_str_field(ms, "modified"@) {
                            None => None,
                            Some(modified) => if !rfc3339_ok(modified) {
                                None
                            } else {
                                match opt_str_field(ms, "withdrawn"@) {
                                    None => None,
                                    Some(withdrawn) => if !(match withdrawn {
                                        Some(w) => rfc3339_ok(w),
                                        None => true,
                                    }) {
                                        None
                                    } else {
                                        match opt_strs_field(ms, "aliases"@) {
                                            None => None,
                                            Some(aliases) => match opt_strs_field(ms, "related"@) {
                                                None => None,
                                                Some(related) => match opt_str_field(
                                                    ms,
                                                    "summary"@,
                                                ) {
                                                    None => None,
                                                    Some(summary) => match opt_str_field(
                                                        ms,
                                                        "details"@,
                                                    ) {
                                                        None => None,
                                                        Some(details) => vuln_of_json_rest(
                                                            ms,
                                                            schema_version,
                                                            id,
                                                            published,
                                                            modified,
                                                            withdrawn,
                                                            aliases,
                                                            related,
                                                            summary,
                                                            details,
                                                        ),
                                                    },
                                                },
                                            },
                                        }
                                    },
                                }
                            },
                        }
                    },
                },
            },
        },
        _ => None,
    }
}

/// The list-valued tail of a vulnerability read, split out for readability:
/// the required `affected` array and the optional reference, severity and
/// credit arrays.
pub open spec fn vuln_of_json_rest(
    ms: Seq<(Seq<char>, JsonV)>,
    schema_version: Seq<char>,
    id: Seq<char>,
    published: Seq<char>,
    modified: Seq<char>,
    withdrawn: Option<Seq<char>>,
    aliases: Option<Seq<Seq<char>>>,
    related: Option<Seq<Seq<char>>>,
    summary: Option<Seq<char>>,
    details: Option<Seq<char>>,
) -> Option<VulnerabilityV> {
    match req_arr_field(ms, "affected"@) {
        None => None,
        Some(avs) => match affecteds_of(avs) {
            None => None,
            Some(affected) => {
                let references = match opt_arr_field(ms, "references"@) {
                    None => None,
                    Some(None) => Some(None),
                    Some(Some(vs)) => match references_of(vs) {
                        None => None,
                        Some(xs) => Some(Some(xs)),
                    },
                };
                let severity = match opt_arr_field(ms, "severity"@) {
                    None => None,
                    Some(None) => Some(None),
                    Some(Some(vs)) => match severities_of(vs) {
                        None => None,
                        Some(xs) => Some(Some(xs)),
                    },
                };
                let credits = match opt_arr_field(ms, "credits"@) {
                    None => None,
                    Some(None) => Some(None),
                    Some(Some(vs)) => match credits_of(vs) {
                        None => None,
                        Some(xs) => Some(Some(xs)),
                    },
                };
                match (references, severity, credits) {
                    (Some(references), Some(severity), Some(credits)) => Some(
                        VulnerabilityV {
                            schema_version,
                            id,
                            published,
                            modified,
                            withdrawn,
                            aliases,
                            related,
                            summary,
                            details,
                            affected,
                            references,
                            severity,
                            credits,
                            database_specific: opt_json_field(ms, "database_specific"@),
                        },
                    ),
                    _ => None,
                }
            },
        },
    }
}

/// An ecosystem value is well formed when an unknown tag does not spell one
/// of the known tags; nothing else could tell the two apart on the wire.
pub open spec fn wf_ecosystem(e: EcosystemV) -> bool {
    match e {
        EcosystemV::Other(s) => !known_ecosystem(s),
        _ => true,
    }
}

/// A well-formed package: its ecosystem is well formed.
pub open spec fn wf_package(p: PackageV) -> bool {
    wf_ecosystem(p.ecosystem)
}

/// A well-formed opaque payload: a given payload is never the bare `null`,
/// which on the wire is indistinguishable from an absent one.
pub open spec fn wf_payload(o: Option<JsonV>) -> bool {
    match o {
        Some(j) => !(j is Null),
        None => true,
    }
}

/// A well-formed affected record.
pub open spec fn wf_affected(a: AffectedV) -> bool {
    wf_package(a.package) && wf_payload(a.ecosystem_specific) && wf_payload(a.database_specific)
}

/// A well-formed vulnerability record: timestamps are valid RFC 3339 text,
/// each affected record is well formed, and the opaque payload is not the
/// bare `null`.
pub open spec fn wf_vuln(v: VulnerabilityV) -> bool {
    &&& rfc3339_ok(v.published)
    &&& rfc3339_ok(v.modified)
    &&& match v.withdrawn {
        Some(s) => rfc3339_ok(s),
        None => true,
    }
    &&& forall|i: int| 0 <= i < v.affected.len() ==> wf_affected(#[trigger] v.affected[i])
    &&& wf_payload(v.database_specific)
}


/// Appends one member, extending the member-list view by its view.
fn push_member(ms: &mut Vec<(String, JsonValue)>, key: &str, v: JsonValue)
    ensures
        view_obj(final(ms)@, 0) == view_obj(old(ms)@, 0).push((key@, v@)),
{
    let k = key.to_owned();
    let ghost pre = ms@;
    let ghost gk = k;
    let ghost gv = v;
    ms.push((k, v));
    proof {
        crate::json::lemma_view_obj_push(pre, gk, gv);
    }
}

/// Appends one element, extending the element-list view by its view.
fn push_value(vs: &mut Vec<JsonValue>, v: JsonValue)
    ensures
        view_arr(final(vs)@, 0) == view_arr(old(vs)@, 0).push(v@),
{
    let ghost pre = vs@;
    let ghost gv = v;
    vs.push(v);
    proof {
        crate::json::lemma_view_arr_push(pre, gv);
    }
}

/// The wire spelling of a range type tag.
pub fn range_type_tag_string(t: RangeType) -> (r: String)
    ensures
        r@ == range_type_tag(t),
{
    match t {
        RangeType::Unspecified => "UNSPECIFIED".to_owned(),
        RangeType::Git => "GIT".to_owned(),
        RangeType::Semver => "SEMVER".to_owned(),
        RangeType::Ecosystem => "ECOSYSTEM".to_owned(),
    }
}

/// The wire spelling of a reference type tag.
pub fn reference_type_tag_string(t: ReferenceType) -> (r: String)
    ensures
        r@ == reference_type_tag(t),
{
    match t {
        ReferenceType::Undefined => "NONE".to_owned(),
        ReferenceType::Web => "WEB".to_owned(),
        ReferenceType::Advisory => "ADVISORY".to_owned(),
        ReferenceType::Report => "REPORT".to_owned(),
        ReferenceType::Fix => "FIX".to_owned(),
        ReferenceType::Package => "PACKAGE".to_owned(),
        ReferenceType::Article => "ARTICLE".to_owned(),
    }
}

/// The wire spelling of a severity type tag.
pub fn severity_type_tag_string(t: SeverityType) -> (r: String)
    ensures
        r@ == severity_type_tag(t),
{
    match t {
        SeverityType::Unspecified => "UNSPECIFIED".to_owned(),
        SeverityType::CVSSv3 => "CVSS_V3".to_owned(),
    }
}

/// The wire spelling of an ecosystem tag.
pub fn ecosystem_tag_string(e: &Ecosystem) -> (r: String)
    ensures
        r@ == ecosystem_tag(e@),
{
    match e {
        Ecosystem::Go => "Go".to_owned(),
        Ecosystem::Npm => "npm".to_owned(),
        Ecosystem::OssFuzz => "OSS-Fuzz".to_owned(),
        Ecosystem::PyPI => "PyPI".to_owned(),
        Ecosystem::RubyGems => "RubyGems".to_owned(),
        Ecosystem::CratesIO => "crates.io".to_owned(),
        Ecosystem::Packagist => "Packagist".to_owned(),
        Ecosystem::Maven => "Maven".to_owned(),
        Ecosystem::NuGet => "NuGet".to_owned(),
        Ecosystem::Linux => "Linux".to_owned(),
        Ecosystem::Debian => "Debian".to_owned(),
        Ecosystem::Hex => "Hex".to_owned(),
        Ecosystem::Android => "Android".to_owned(),
        Ecosystem::GitHubActions => "GitHub Actions".to_owned(),
        Ecosystem::Pub => "Pub".to_owned(),
        Ecosystem::Other(s) => s.clone(),
    }
}

/// The wire form of a list of strings.
fn strs_to_json(v: &Vec<String>) -> (r: JsonValue)
    ensures
        r@ == str_arr(v.deep_view()),
{
    let mut out: Vec<JsonValue> = Vec::new();
    let mut i: usize = 0;
    while i < v.len()
        invariant
            i <= v@.len(),
            view_arr(out@, 0).len() == i as int,
            forall|q: int| 0 <= q < i ==> view_arr(out@, 0)[q] == JsonV::Str(v.deep_view()[q]),
        decreases v@.len() - i,
    {
        push_value(&mut out, JsonValue::Str(v[i].clone()));
        i = i + 1;
    }
    let r = JsonValue::Arr(out);
    proof {
        assert(view_arr(out@, 0) =~= str_arr(v.deep_view())->Arr_0);
    }
    r
}

/// The wire form of an event.
pub fn event_to_json(e: &Event) -> (r: JsonValue)
    ensures
        r@ == event_json(e@),
{
    let mut ms: Vec<(String, JsonValue)> = Vec::new();
    match e {
        Event::Introduced(s) => push_member(&mut ms, "introduced", JsonValue::Str(s.clone())),
        Event::Fixed(s) => push_member(&mut ms, "fixed", JsonValue::Str(s.clone())),
        Event::Limit(s) => push_member(&mut ms, "limit", JsonValue::Str(s.clone())),
    }
    let r = JsonValue::Obj(ms);
    proof {
        assert(view_obj(ms@, 0) =~= event_json(e@)->Obj_0);
    }
    r
}

/// The wire form of a list of events.
fn events_to_json(es: &Vec<Event>) -> (r: JsonValue)
    ensures
        r@ == JsonV::Arr(
            Seq::new(es.deep_view().len(), |i: int| event_json(es.deep_view()[i])),
        ),
{
    let mut out: Vec<JsonValue> = Vec::new();
    let mut i: usize = 0;
    while i < es.len()
        invariant
            i <= es@.len(),
            view_arr(out@, 0).len() == i as int,
            forall|q: int| 0 <= q < i ==> view_arr(out@, 0)[q] == event_json(es.deep_view()[q]),
        decreases es@.len() - i,
    {
        let ev = event_to_json(&es[i]);
        push_value(&mut out, ev);
        i = i + 1;
    }
    let r = JsonValue::Arr(out);
    proof {
        assert(view_arr(out@, 0) =~= Seq::new(
            es.deep_view().len(),
            |i: int| event_json(es.deep_view()[i]),
        ));
    }
    r
}

/// The wire form of a package.
pub fn package_to_json(p: &Package) -> (r: JsonValue)
    ensures
        r@ == package_json(p@),
{
    let mut ms: Vec<(String, JsonValue)> = Vec::new();
    push_member(&mut ms, "name", JsonValue::Str(p.name.clone()));
    let tag = ecosystem_tag_string(&p.ecosystem);
    push_member(&mut ms, "ecosystem", JsonValue::Str(tag));
    match &p.purl {
        Some(u) => push_member(&mut ms, "purl", JsonValue::Str(u.clone())),
        None => (),
    }
    let r = JsonValue::Obj(ms);
    proof {
        assert(view_obj(ms@, 0) =~= package_json(p@)->Obj_0);
    }
    r
}

/// The wire form of a range.
pub fn range_to_json(rg: &Range) -> (r: JsonValue)
    ensures
        r@ == range_json(rg@),
{
    let mut ms: Vec<(String, JsonValue)> = Vec::new();
    let tag = range_type_tag_string(rg.range_type);
    push_member(&mut ms, "type", JsonValue::Str(tag));
    match &rg.repo {
        Some(u) => push_member(&mut ms, "repo", JsonValue::Str(u.clone())),
        None => (),
    }
    let evs = events_to_json(&rg.events);
    push_member(&mut ms, "events", evs);
    let r = JsonValue::Obj(ms);
    proof {
        assert(view_obj(ms@, 0) =~= range_json(rg@)->Obj_0);
    }
    r
}

/// The wire form of a list of ranges.
fn ranges_to_json(rs: &Vec<Range>) -> (r: JsonValue)
    ensures
        r@ == JsonV::Arr(
            Seq::new(rs.deep_view().len(), |i: int| range_json(rs.deep_view()[i])),
        ),
{
    let mut out: Vec<JsonValue> = Vec::new();
    let mut i: usize = 0;
    while i < rs.len()
        invariant
            i <= rs@.len(),
            view_arr(out@, 0).len() == i as int,
            forall|q: int| 0 <= q < i ==> view_arr(out@, 0)[q] == range_json(rs.deep_view()[q]),
        decreases rs@.len() - i,
    {
        let rj = range_to_json(&rs[i]);
        push_value(&mut out, rj);
        i = i + 1;
    }
    let r = JsonValue::Arr(out);
    proof {
        assert(view_arr(out@, 0) =~= Seq::new(
            rs.deep_view().len(),
            |i: int| range_json(rs.deep_view()[i]),
        ));
    }
    r
}

/// The wire form of an affected record.
pub fn affected_to_json(a: &Affected) -> (r: JsonValue)
    ensures
        r@ == affected_json(a@),
{
    let mut ms: Vec<(String, JsonValue)> = Vec::new();
    let pj = package_to_json(&a.package);
    push_member(&mut ms, "package", pj);
    let rj = ranges_to_json(&a.ranges);
    push_member(&mut ms, "ranges", rj);
    match &a.versions {
        Some(vs) => {
            let vj = strs_to_json(vs);
            push_member(&mut ms, "versions", vj);
        },
        None => (),
    }
    match &a.ecosystem_specific {
        Some(j) => {
            let cj = clone_json(j);
            push_member(&mut ms, "ecosystem_specific", cj);
        },
        None => (),
    }
    match &a.database_specific {
        Some(j) => {
            let cj = clone_json(j);
            push_member(&mut ms, "database_specific", cj);
        },
        None => (),
    }
    let r = JsonValue::Obj(ms);
    proof {
        assert(view_obj(ms@, 0) =~= affected_json(a@)->Obj_0);
    }
    r
}

/// The wire form of a list of affected records.
fn affecteds_to_json(xs: &Vec<Affected>) -> (r: JsonValue)
    ensures
        r@ == JsonV::Arr(
            Seq::new(xs.deep_view().len(), |i: int| affected_json(xs.deep_view()[i])),
        ),
{
    let mut out: Vec<JsonValue> = Vec::new();
    let mut i: usize = 0;
    while i < xs.len()
        invariant
            i <= xs@.len(),
            view_arr(out@, 0).len() == i as int,
            forall|q: int|
                0 <= q < i ==> view_arr(out@, 0)[q] == affected_json(xs.deep_view()[q]),
        decreases xs@.len() - i,
    {
        let aj = affected_to_json(&xs[i]);
        push_value(&mut out, aj);
        i = i + 1;
    }
    let r = JsonValue::Arr(out);
    proof {
        assert(view_arr(out@, 0) =~= Seq::new(
            xs.deep_view().len(),
            |i: int| affected_json(xs.deep_view()[i]),
        ));
    }
    r
}

/// The wire form of a reference.
pub fn reference_to_json(x: &Reference) -> (r: JsonValue)
    ensures
        r@ == reference_json(x@),
{
    let mut ms: Vec<(String, JsonValue)> = Vec::new();
    let tag = reference_type_tag_string(x.reference_type);
    push_member(&mut ms, "type", JsonValue::Str(tag));
    push_member(&mut ms, "url", JsonValue::Str(x.url.clone()));
    let r = JsonValue::Obj(ms);
    proof {
        assert(view_obj(ms@, 0) =~= reference_json(x@)->Obj_0);
    }
    r
}

/// The wire form of a list of references.
fn references_to_json(xs: &Vec<Reference>) -> (r: JsonValue)
    ensures
        r@ == JsonV::Arr(
            Seq::new(xs.deep_view().len(), |i: int| reference_json(xs.deep_view()[i])),
        ),
{
    let mut out: Vec<JsonValue> = Vec::new();
    let mut i: usize = 0;
    while i < xs.len()
        invariant
            i <= xs@.len(),
            view_arr(out@, 0).len() == i as int,
            forall|q: int|
                0 <= q < i ==> view_arr(out@, 0)[q] == reference_json(xs.deep_view()[q]),
        decreases xs@.len() - i,
    {
        let xj = reference_to_json(&xs[i]);
        push_value(&mut out, xj);
        i = i + 1;
    }
    let r = JsonValue::Arr(out);
    proof {
        assert(view_arr(out@, 0) =~= Seq::new(
            xs.deep_view().len(),
            |i: int| reference_json(xs.deep_view()[i]),
        ));
    }
    r
}

/// The wire form of a severity entry.
pub fn severity_to_json(x: &Severity) -> (r: JsonValue)
    ensures
        r@ == severity_json(x@),
{
    let mut ms: Vec<(String, JsonValue)> = Vec::new();
    let tag = severity_type_tag_string(x.severity_type);
    push_member(&mut ms, "type", JsonValue::Str(tag));
    push_member(&mut ms, "score", JsonValue::Str(x.score.clone()));
    let r = JsonValue::Obj(ms);
    proof {
        assert(view_obj(ms@, 0) =~= severity_json(x@)->Obj_0);
    }
    r
}

/// The wire form of a list of severity entries.
fn severities_to_json(xs: &Vec<Severity>) -> (r: JsonValue)
    ensures
        r@ == JsonV::Arr(
            Seq::new(xs.deep_view().len(), |i: int| severity_json(xs.deep_view()[i])),
        ),
{
    let mut out: Vec<JsonValue> = Vec::new();
    let mut i: usize = 0;
    while i < xs.len()
        invariant
            i <= xs@.len(),
            view_arr(out@, 0).len() == i as int,
            forall|q: int|
                0 <= q < i ==> view_arr(out@, 0)[q] == severity_json(xs.deep_view()[q]),
        decreases xs@.len() - i,
    {
        let xj = severity_to_json(&xs[i]);
        push_value(&mut out, xj);
        i = i + 1;
    }
    let r = JsonValue::Arr(out);
    proof {
        assert(view_arr(out@, 0) =~= Seq::new(
            xs.deep_view().len(),
            |i: int| severity_json(xs.deep_view()[i]),
        ));
    }
    r
}

/// The wire form of a credit entry.
pub fn credit_to_json(x: &Credit) -> (r: JsonValue)
    ensures
        r@ == credit_json(x@),
{
    let mut ms: Vec<(String, JsonValue)> = Vec::new();
    push_member(&mut ms, "name", JsonValue::Str(x.name.clone()));
    let cj = strs_to_json(&x.contact);
    push_member(&mut ms, "contact", cj);
    let r = JsonValue::Obj(ms);
    proof {
        assert(view_obj(ms@, 0) =~= credit_json(x@)->Obj_0);
    }
    r
}

/// The wire form of a list of credit entries.
fn credits_to_json(xs: &Vec<Credit>) -> (r: JsonValue)
    ensures
        r@ == JsonV::Arr(
            Seq::new(xs.deep_view().len(), |i: int| credit_json(xs.deep_view()[i])),
        ),
{
    let mut out: Vec<JsonValue> = Vec::new();
    let mut i: usize = 0;
    while i < xs.len()
        invariant
            i <= xs@.len(),
            view_arr(out@, 0).len() == i as int,
            forall|q: int| 0 <= q < i ==> view_arr(out@, 0)[q] == credit_json(xs.deep_view()[q]),
        decreases xs@.len() - i,
    {
        let xj = credit_to_json(&xs[i]);
        push_value(&mut out, xj);
        i = i + 1;
    }
    let r = JsonValue::Arr(out);
    proof {
        assert(view_arr(out@, 0) =~= Seq::new(
            xs.deep_view().len(),
            |i: int| credit_json(xs.deep_view()[i]),
        ));
    }
    r
}

/// The wire form of a whole vulnerability record.
#[verifier::rlimit(100)]
#[verifier::spinoff_prover]
pub fn vuln_to_json(v: &Vulnerability) -> (r: JsonValue)
    ensures
        r@ == vuln_json(v@),
{
    let mut ms: Vec<(String, JsonValue)> = Vec::new();
    push_member(&mut ms, "schema_version", JsonValue::Str(v.schema_version.clone()));
    push_member(&mut ms, "id", JsonValue::Str(v.id.clone()));
    push_member(&mut ms, "published", JsonValue::Str(v.published.clone()));
    push_member(&mut ms, "modified", JsonValue::Str(v.modified.clone()));
    match &v.withdrawn {
        Some(s) => push_member(&mut ms, "withdrawn", JsonValue::Str(s.clone())),
        None => (),
    }
    match &v.aliases {
        Some(xs) => {
            let xj = strs_to_json(xs);
            push_member(&mut ms, "aliases", xj);
        },
        None => (),
    }
    match &v.related {
        Some(xs) => {
            let xj = strs_to_json(xs);
            push_member(&mut ms, "related", xj);
        },
        None => (),
    }
    match &v.summary {
        Some(s) => push_member(&mut ms, "summary", JsonValue::Str(s.clone())),
        None => (),
    }
    match &v.details {
        Some(s) => push_member(&mut ms, "details", JsonValue::Str(s.clone())),
        None => (),
    }
    let aj = affecteds_to_json(&v.affected);
    push_member(&mut ms, "affected", aj);
    match &v.references {
        Some(xs) => {
            let xj = references_to_json(xs);
            push_member(&mut ms, "references", xj);
        },
        None => (),
    }
    match &v.severity {
        Some(xs) => {
            let xj = severities_to_json(xs);
            push_member(&mut ms, "severity", xj);
        },
        None => (),
    }
    match &v.credits {
        Some(xs) => {
            let xj = credits_to_json(xs);
            push_member(&mut ms, "credits", xj);
        },
        None => (),
    }
    match &v.database_specific {
        Some(j) => {
            let cj = clone_json(j);
            push_member(&mut ms, "database_specific", cj);
        },
        None => (),
    }
    let r = JsonValue::Obj(ms);
    proof {
        assert(view_obj(ms@, 0) =~= vuln_json(v@)->Obj_0);
    }
    r
}

/// The untagged wire form of a query request.
pub fn request_to_json(q: &Request) -> (r: JsonValue)
    ensures
        r@ == request_json(q@),
{
    let mut ms: Vec<(String, JsonValue)> = Vec::new();
    match q {
        Request::CommitQuery { commit } => {
            push_member(&mut ms, "commit", JsonValue::Str(commit.clone()));
        },
        Request::PackageQuery { version, package } => {
            push_member(&mut ms, "version", JsonValue::Str(version.clone()));
            let pj = package_to_json(package);
            push_member(&mut ms, "package", pj);
        },
    }
    let r = JsonValue::Obj(ms);
    proof {
        assert(view_obj(ms@, 0) =~= request_json(q@)->Obj_0);
    }
    r
}


/// Whether a string spells exactly the given text.
fn str_is(s: &String, lit: &str) -> (r: bool)
    ensures
        r == (s@ == lit@),
{
    let l = lit.to_owned();
    *s == l
}

/// The ecosystem a tag string names; an unknown tag is kept verbatim.
pub fn ecosystem_from_tag(s: String) -> (r: Ecosystem)
    ensures
        r@ == ecosystem_of_tag(s@),
{
    if str_is(&s, "Go") {
        Ecosystem::Go
    } else if str_is(&s, "npm") {
        Ecosystem::Npm
    } else if str_is(&s, "OSS-Fuzz") {
        Ecosystem::OssFuzz
    } else if str_is(&s, "PyPI") {
        Ecosystem::PyPI
    } else if str_is(&s, "RubyGems") {
        Ecosystem::RubyGems
    } else if str_is(&s, "crates.io") {
        Ecosystem::CratesIO
    } else if str_is(&s, "Packagist") {
        Ecosystem::Packagist
    } else if str_is(&s, "Maven") {
        Ecosystem::Maven
    } else if str_is(&s, "NuGet") {
        Ecosystem::NuGet
    } else if str_is(&s, "Linux") {
        Ecosystem::Linux
    } else if str_is(&s, "Debian") {
        Ecosystem::Debian
    } else if str_is(&s, "Hex") {
        Ecosystem::Hex
    } else if str_is(&s, "Android") {
        Ecosystem::Android
    } else if str_is(&s, "GitHub Actions") {
        Ecosystem::GitHubActions
    } else if str_is(&s, "Pub") {
        Ecosystem::Pub
    } else {
        Ecosystem::Other(s)
    }
}

/// The range type a tag string names, if any.
pub fn range_type_from_tag(s: &String) -> (r: Option<RangeType>)
    ensures
        r == range_type_of_tag(s@),
{
    if str_is(s, "UNSPECIFIED") {
        Some(RangeType::Unspecified)
    } else if str_is(s, "GIT") {
        Some(RangeType::Git)
    } else if str_is(s, "SEMVER") {
        Some(RangeType::Semver)
    } else if str_is(s, "ECOSYSTEM") {
        Some(RangeType::Ecosystem)
    } else {
        None
    }
}

/// The reference type a tag string names, if any.
pub fn reference_type_from_tag(s: &String) -> (r: Option<ReferenceType>)
    ensures
        r == reference_type_of_tag(s@),
{
    if str_is(s, "NONE") {
        Some(ReferenceType::Undefined)
    } else if str_is(s, "WEB") {
        Some(ReferenceType::Web)
    } else if str_is(s, "ADVISORY") {
        Some(ReferenceType::Advisory)
    } else if str_is(s, "REPORT") {
        Some(ReferenceType::Report)
    } else if str_is(s, "FIX") {
        Some(ReferenceType::Fix)
    } else if str_is(s, "PACKAGE") {
        Some(ReferenceType::Package)
    } else if str_is(s, "ARTICLE") {
        Some(ReferenceType::Article)
    } else {
        None
    }
}

/// The severity type a tag string names, if any.
pub fn severity_type_from_tag(s: &String) -> (r: Option<SeverityType>)
    ensures
        r == severity_type_of_tag(s@),
{
    if str_is(s, "UNSPECIFIED") {
        Some(SeverityType::Unspecified)
    } else if str_is(s, "CVSS_V3") {
        Some(SeverityType::CVSSv3)
    } else {
        None
    }
}

/// The strings of an all-string array, read from position `i` on.
fn json_to_strs_from(vs: &Vec<JsonValue>, i: usize) -> (r: Option<Vec<String>>)
    requires
        i <= vs@.len(),
    ensures
        match r {
            Some(out) => strs_of(view_arr(vs@, 0).skip(i as int)) == Some(out.deep_view()),
            None => strs_of(view_arr(vs@, 0).skip(i as int)) is None,
        },
    decreases vs@.len() - i,
{
    proof {
        lemma_view_arr_index(vs@, 0);
    }
    if i >= vs.len() {
        proof {
            assert(view_arr(vs@, 0).skip(i as int) =~= Seq::<JsonV>::empty());
        }
        let out: Vec<String> = Vec::new();
        proof {
            assert(out.deep_view() =~= Seq::<Seq<char>>::empty());
        }
        Some(out)
    } else {
        proof {
            assert(view_arr(vs@, 0).skip(i as int)[0] == vs@[i as int]@);
            assert(view_arr(vs@, 0).skip(i as int).drop_first() =~= view_arr(vs@, 0).skip(
                i as int + 1,
            ));
        }
        match &vs[i] {
            JsonValue::Str(s) => match json_to_strs_from(vs, i + 1) {
                None => None,
                Some(rest) => {
                    let e = s.clone();
                    let ghost ge = e;
                    let ghost restv = rest.deep_view();
                    let mut out = rest;
                    out.insert(0, e);
                    proof {
                        assert(out.deep_view() =~= seq![ge@] + restv);
                    }
                    Some(out)
                },
            },
            _ => None,
        }
    }
}

/// The event a single-member document denotes.
pub fn json_to_event(j: &JsonValue) -> (r: Option<Event>)
    ensures
        match r {
            Some(e) => event_of_json(j@) == Some(e@),
            None => event_of_json(j@) is None,
        },
{
    match j {
        JsonValue::Obj(ms) => {
            if ms.len() == 1 {
                proof {
                    lemma_view_obj_index(ms@, 0);
                }
                match &ms[0].1 {
                    JsonValue::Str(s) => {
                        if str_is(&ms[0].0, "introduced") {
                            Some(Event::Introduced(s.clone()))
                        } else if str_is(&ms[0].0, "fixed") {
                            Some(Event::Fixed(s.clone()))
                        } else if str_is(&ms[0].0, "limit") {
                            Some(Event::Limit(s.clone()))
                        } else {
                            None
                        }
                    },
                    _ => None,
                }
            } else {
                proof {
                    lemma_view_obj_index(ms@, 0);
                }
                None
            }
        },
        _ => None,
    }
}

/// The events of an array, read from position `i` on.
fn json_to_events_from(vs: &Vec<JsonValue>, i: usize) -> (r: Option<Vec<Event>>)
    requires
        i <= vs@.len(),
    ensures
        match r {
            Some(out) => events_of(view_arr(vs@, 0).skip(i as int)) == Some(out.deep_view()),
            None => events_of(view_arr(vs@, 0).skip(i as int)) is None,
        },
    decreases vs@.len() - i,
{
    proof {
        lemma_view_arr_index(vs@, 0);
    }
    if i >= vs.len() {
        proof {
            assert(view_arr(vs@, 0).skip(i as int) =~= Seq::<JsonV>::empty());
        }
        let out: Vec<Event> = Vec::new();
        proof {
            assert(out.deep_view() =~= Seq::<EventV>::empty());
        }
        Some(out)
    } else {
        proof {
            assert(view_arr(vs@, 0).skip(i as int)[0] == vs@[i as int]@);
            assert(view_arr(vs@, 0).skip(i as int).drop_first() =~= view_arr(vs@, 0).skip(
                i as int + 1,
            ));
        }
        match json_to_event(&vs[i]) {
            None => None,
            Some(e) => match json_to_events_from(vs, i + 1) {
                None => None,
                Some(rest) => {
                    let ghost ge = e;
                    let ghost restv = rest.deep_view();
                    let mut out = rest;
                    out.insert(0, e);
                    proof {
                        assert(out.deep_view() =~= seq![ge@] + restv);
                    }
                    Some(out)
                },
            },
        }
    }
}

/// The package a document denotes.
pub fn json_to_package(j: &JsonValue) -> (r: Option<Package>)
    ensures
        match r {
            Some(p) => package_of_json(j@) == Some(p@),
            None => package_of_json(j@) is None,
        },
{
    match j {
        JsonValue::Obj(ms) => {
            let k1 = "name".to_owned();
            let name = match get_key(ms, &k1) {
                Some(JsonValue::Str(s)) => s.clone(),
                _ => {
                    return None;
                },
            };
            let k2 = "ecosystem".to_owned();
            let eco = match get_key(ms, &k2) {
                Some(JsonValue::Str(s)) => s.clone(),
                _ => {
                    return None;
                },
            };
            let k3 = "purl".to_owned();
            let purl = match get_key(ms, &k3) {
                None => None,
                Some(JsonValue::Null) => None,
                Some(JsonValue::Str(s)) => Some(s.clone()),
                Some(_) => {
                    return None;
                },
            };
            Some(Package { name, ecosystem: ecosystem_from_tag(eco), purl })
        },
        _ => None,
    }
}

/// The range a document denotes.
pub fn json_to_range(j: &JsonValue) -> (r: Option<Range>)
    ensures
        match r {
            Some(x) => range_of_json(j@) == Some(x@),
            None => range_of_json(j@) is None,
        },
{
    match j {
        JsonValue::Obj(ms) => {
            let k1 = "type".to_owned();
            let rt = match get_key(ms, &k1) {
                Some(JsonValue::Str(s)) => match range_type_from_tag(s) {
                    Some(rt) => rt,
                    None => {
                        return None;
                    },
                },
                _ => {
                    return None;
                },
            };
            let k2 = "repo".to_owned();
            let repo = match get_key(ms, &k2) {
                None => None,
                Some(JsonValue::Null) => None,
                Some(JsonValue::Str(s)) => Some(s.clone()),
                Some(_) => {
                    return None;
                },
            };
            let k3 = "events".to_owned();
            let events = match get_key(ms, &k3) {
                Some(JsonValue::Arr(vs)) => {
                    proof {
                        assert(view_arr(vs@, 0).skip(0) =~= view_arr(vs@, 0));
                    }
                    match json_to_events_from(vs, 0) {
                        Some(es) => es,
                        None => {
                            return None;
                        },
                    }
                },
                _ => {
                    return None;
                },
            };
            Some(Range { range_type: rt, repo, events })
        },
        _ => None,
    }
}

/// The ranges of an array, read from position `i` on.
fn json_to_ranges_from(vs: &Vec<JsonValue>, i: usize) -> (r: Option<Vec<Range>>)
    requires
        i <= vs@.len(),
    ensures
        match r {
            Some(out) => ranges_of(view_arr(vs@, 0).skip(i as int)) == Some(out.deep_view()),
            None => ranges_of(view_arr(vs@, 0).skip(i as int)) is None,
        },
    decreases vs@.len() - i,
{
    proof {
        lemma_view_arr_index(vs@, 0);
    }
    if i >= vs.len() {
        proof {
            assert(view_arr(vs@, 0).skip(i as int) =~= Seq::<JsonV>::empty());
        }
        let out: Vec<Range> = Vec::new();
        proof {
            assert(out.deep_view() =~= Seq::<RangeV>::empty());
        }
        Some(out)
    } else {
        proof {
            assert(view_arr(vs@, 0).skip(i as int)[0] == vs@[i as int]@);
            assert(view_arr(vs@, 0).skip(i as int).drop_first() =~= view_arr(vs@, 0).skip(
                i as int + 1,
            ));
        }
        match json_to_range(&vs[i]) {
            None => None,
            Some(e) => match json_to_ranges_from(vs, i + 1) {
                None => None,
                Some(rest) => {
                    let ghost ge = e;
                    let ghost restv = rest.deep_view();
                    let mut out = rest;
                    out.insert(0, e);
                    proof {
                        assert(out.deep_view() =~= seq![ge@] + restv);
                    }
                    Some(out)
                },
            },
        }
    }
}

/// The affected record a document denotes.
pub fn json_to_affected(j: &JsonValue) -> (r: Option<Affected>)
    ensures
        match r {
            Some(x) => affected_of_json(j@) == Some(x@),
            None => affected_of_json(j@) is None,
        },
{
    match j {
        JsonValue::Obj(ms) => {
            let k1 = "package".to_owned();
            let package = match get_key(ms, &k1) {
                Some(pj) => match json_to_package(pj) {
                    Some(p) => p,
                    None => {
                        return None;
                    },
                },
                None => {
                    return None;
                },
            };
            let k2 = "ranges".to_owned();
            let ranges = match get_key(ms, &k2) {
                Some(JsonValue::Arr(vs)) => {
                    proof {
                        assert(view_arr(vs@, 0).skip(0) =~= view_arr(vs@, 0));
                    }
                    match json_to_ranges_from(vs, 0) {
                        Some(rs) => rs,
                        None => {
                            return None;
                        },
                    }
                },
                _ => {
                    return None;
                },
            };
            let k3 = "versions".to_owned();
            let versions = match get_key(ms, &k3) {
                None => None,
                Some(JsonValue::Null) => None,
                Some(JsonValue::Arr(vs)) => {
                    proof {
                        assert(view_arr(vs@, 0).skip(0) =~= view_arr(vs@, 0));
                    }
                    match json_to_strs_from(vs, 0) {
                        Some(ss) => Some(ss),
                        None => {
                            return None;
                        },
                    }
                },
                Some(_) => {
                    return None;
                },
            };
            let k4 = "ecosystem_specific".to_owned();
            let ecosystem_specific = match get_key(ms, &k4) {
                None => None,
                Some(JsonValue::Null) => None,
                Some(v) => Some(clone_json(v)),
            };
            let k5 = "database_specific".to_owned();
            let database_specific = match get_key(ms, &k5) {
                None => None,
                Some(JsonValue::Null) => None,
                Some(v) => Some(clone_json(v)),
            };
            Some(Affected { package, ranges, versions, ecosystem_specific, database_specific })
        },
        _ => None,
    }
}

/// The affected records of an array, read from position `i` on.
fn json_to_affecteds_from(vs: &Vec<JsonValue>, i: usize) -> (r: Option<Vec<Affected>>)
    requires
        i <= vs@.len(),
    ensures
        match r {
            Some(out) => affecteds_of(view_arr(vs@, 0).skip(i as int)) == Some(out.deep_view()),
            None => affecteds_of(view_arr(vs@, 0).skip(i as int)) is None,
        },
    decreases vs@.len() - i,
{
    proof {
        lemma_view_arr_index(vs@, 0);
    }
    if i >= vs.len() {
        proof {
            assert(view_arr(vs@, 0).skip(i as int) =~= Seq::<JsonV>::empty());
        }
        let out: Vec<Affected> = Vec::new();
        proof {
            assert(out.deep_view() =~= Seq::<AffectedV>::empty());
        }
        Some(out)
    } else {
        proof {
            assert(view_arr(vs@, 0).skip(i as int)[0] == vs@[i as int]@);
            assert(view_arr(vs@, 0).skip(i as int).drop_first() =~= view_arr(vs@, 0).skip(
                i as int + 1,
            ));
        }
        match json_to_affected(&vs[i]) {
            None => None,
            Some(e) => match json_to_affecteds_from(vs, i + 1) {
                None => None,
                Some(rest) => {
                    let ghost ge = e;
                    let ghost restv = rest.deep_view();
                    let mut out = rest;
                    out.insert(0, e);
                    proof {
                        assert(out.deep_view() =~= seq![ge@] + restv);
                    }
                    Some(out)
                },
            },
        }
    }
}

/// The reference a document denotes.
pub fn json_to_reference(j: &JsonValue) -> (r: Option<Reference>)
    ensures
        match r {
            Some(x) => reference_of_json(j@) == Some(x@),
            None => reference_of_json(j@) is None,
        },
{
    match j {
        JsonValue::Obj(ms) => {
            let k1 = "type".to_owned();
            let rt = match get_key(ms, &k1) {
                Some(JsonValue::Str(s)) => match reference_type_from_tag(s) {
                    Some(rt) => rt,
                    None => {
                        return None;
                    },
                },
                _ => {
                    return None;
                },
            };
            let k2 = "url".to_owned();
            let url = match get_key(ms, &k2) {
                Some(JsonValue::Str(s)) => s.clone(),
                _ => {
                    return None;
                },
            };
            Some(Reference { reference_type: rt, url })
        },
        _ => None,
    }
}

/// The references of an array, read from position `i` on.
fn json_to_references_from(vs: &Vec<JsonValue>, i: usize) -> (r: Option<Vec<Reference>>)
    requires
        i <= vs@.len(),
    ensures
        match r {
            Some(out) => references_of(view_arr(vs@, 0).skip(i as int)) == Some(out.deep_view()),
            None => references_of(view_arr(vs@, 0).skip(i as int)) is None,
        },
    decreases vs@.len() - i,
{
    proof {
        lemma_view_arr_index(vs@, 0);
    }
    if i >= vs.len() {
        proof {
            assert(view_arr(vs@, 0).skip(i as int) =~= Seq::<JsonV>::empty());
        }
        let out: Vec<Reference> = Vec::new();
        proof {
            assert(out.deep_view() =~= Seq::<ReferenceV>::empty());
        }
        Some(out)
    } else {
        proof {
            assert(view_arr(vs@, 0).skip(i as int)[0] == vs@[i as int]@);
            assert(view_arr(vs@, 0).skip(i as int).drop_first() =~= view_arr(vs@, 0).skip(
                i as int + 1,
            ));
        }
        match json_to_reference(&vs[i]) {
            None => None,
            Some(e) => match json_to_references_from(vs, i + 1) {
                None => None,
                Some(rest) => {
                    let ghost ge = e;
                    let ghost restv = rest.deep_view();
                    let mut out = rest;
                    out.insert(0, e);
                    proof {
                        assert(out.deep_view() =~= seq![ge@] + restv);
                    }
                    Some(out)
                },
            },
        }
    }
}

/// The severity entry a document denotes.
pub fn json_to_severity(j: &JsonValue) -> (r: Option<Severity>)
    ensures
        match r {
            Some(x) => severity_of_json(j@) == Some(x@),
            None => severity_of_json(j@) is None,
        },
{
    match j {
        JsonValue::Obj(ms) => {
            let k1 = "type".to_owned();
            let st = match get_key(ms, &k1) {
                Some(JsonValue::Str(s)) => match severity_type_from_tag(s) {
                    Some(st) => st,
                    None => {
                        return None;
                    },
                },
                _ => {
                    return None;
                },
            };
            let k2 = "score".to_owned();
            let score = match get_key(ms, &k2) {
                Some(JsonValue::Str(s)) => s.clone(),
                _ => {
                    return None;
                },
            };
            Some(Severity { severity_type: st, score })
        },
        _ => None,
    }
}

/// The severity entries of an array, read from position `i` on.
fn json_to_severities_from(vs: &Vec<JsonValue>, i: usize) -> (r: Option<Vec<Severity>>)
    requires
        i <= vs@.len(),
    ensures
        match r {
            Some(out) => severities_of(view_arr(vs@, 0).skip(i as int)) == Some(out.deep_view()),
            None => severities_of(view_arr(vs@, 0).skip(i as int)) is None,
        },
    decreases vs@.len() - i,
{
    proof {
        lemma_view_arr_index(vs@, 0);
    }
    if i >= vs.len() {
        proof {
            assert(view_arr(vs@, 0).skip(i as int) =~= Seq::<JsonV>::empty());
        }
        let out: Vec<Severity> = Vec::new();
        proof {
            assert(out.deep_view() =~= Seq::<SeverityV>::empty());
        }
        Some(out)
    } else {
        proof {
            assert(view_arr(vs@, 0).skip(i as int)[0] == vs@[i as int]@);
            assert(view_arr(vs@, 0).skip(i as int).drop_first() =~= view_arr(vs@, 0).skip(
                i as int + 1,
            ));
        }
        match json_to_severity(&vs[i]) {
            None => None,
            Some(e) => match json_to_severities_from(vs, i + 1) {
                None => None,
                Some(rest) => {
                    let ghost ge = e;
                    let ghost restv = rest.deep_view();
                    let mut out = rest;
                    out.insert(0, e);
                    proof {
                        assert(out.deep_view() =~= seq![ge@] + restv);
                    }
                    Some(out)
                },
            },
        }
    }
}

/// The credit entry a document denotes.
pub fn json_to_credit(j: &JsonValue) -> (r: Option<Credit>)
    ensures
        match r {
            Some(x) => credit_of_json(j@) == Some(x@),
            None => credit_of_json(j@) is None,
        },
{
    match j {
        JsonValue::Obj(ms) => {
            let k1 = "name".to_owned();
            let name = match get_key(ms, &k1) {
                Some(JsonValue::Str(s)) => s.clone(),
                _ => {
                    return None;
                },
            };
            let k2 = "contact".to_owned();
            let contact = match get_key(ms, &k2) {
                Some(JsonValue::Arr(vs)) => {
                    proof {
                        assert(view_arr(vs@, 0).skip(0) =~= view_arr(vs@, 0));
                    }
                    match json_to_strs_from(vs, 0) {
                        Some(ss) => ss,
                        None => {
                            return None;
                        },
                    }
                },
                _ => {
                    return None;
                },
            };
            Some(Credit { name, contact })
        },
        _ => None,
    }
}

/// The credit entries of an array, read from position `i` on.
fn json_to_credits_from(vs: &Vec<JsonValue>, i: usize) -> (r: Option<Vec<Credit>>)
    requires
        i <= vs@.len(),
    ensures
        match r {
            Some(out) => credits_of(view_arr(vs@, 0).skip(i as int)) == Some(out.deep_view()),
            None => credits_of(view_arr(vs@, 0).skip(i as int)) is None,
        },
    decreases vs@.len() - i,
{
    proof {
        lemma_view_arr_index(vs@, 0);
    }
    if i >= vs.len() {
        proof {
            assert(view_arr(vs@, 0).skip(i as int) =~= Seq::<JsonV>::empty());
        }
        let out: Vec<Credit> = Vec::new();
        proof {
            assert(out.deep_view() =~= Seq::<CreditV>::empty());
        }
        Some(out)
    } else {
        proof {
            assert(view_arr(vs@, 0).skip(i as int)[0] == vs@[i as int]@);
            assert(view_arr(vs@, 0).skip(i as int).drop_first() =~= view_arr(vs@, 0).skip(
                i as int + 1,
            ));
        }
        match json_to_credit(&vs[i]) {
            None => None,
            Some(e) => match json_to_credits_from(vs, i + 1) {
                None => None,
                Some(rest) => {
                    let ghost ge = e;
                    let ghost restv = rest.deep_view();
                    let mut out = rest;
                    out.insert(0, e);
                    proof {
                        assert(out.deep_view() =~= seq![ge@] + restv);
                    }
                    Some(out)
                },
            },
        }
    }
}

/// The vulnerability record a document denotes.
#[verifier::rlimit(100)]
pub fn json_to_vuln(j: &JsonValue) -> (r: Option<Vulnerability>)
    ensures
        match r {
            Some(v) => vuln_of_json(j@) == Some(v@),
            None => vuln_of_json(j@) is None,
        },
{
    match j {
        JsonValue::Obj(ms) => {
            let k1 = "schema_version".to_owned();
            let schema_version = match get_key(ms, &k1) {
                Some(JsonValue::Str(s)) => s.clone(),
                _ => {
                    return None;
                },
            };
            let k2 = "id".to_owned();
            let id = match get_key(ms, &k2) {
                Some(JsonValue::Str(s)) => s.clone(),
                _ => {
                    return None;
                },
            };
            let k3 = "published".to_owned();
            let published = match get_key(ms, &k3) {
                Some(JsonValue::Str(s)) => s.clone(),
                _ => {
                    return None;
                },
            };
            if !timestamp_valid(published.as_str()) {
                return None;
            }
            let k4 = "modified".to_owned();
            let modified = match get_key(ms, &k4) {
                Some(JsonValue::Str(s)) => s.clone(),
                _ => {
                    return None;
                },
            };
            if !timestamp_valid(modified.as_str()) {
                return None;
            }
            let k5 = "withdrawn".to_owned();
            let withdrawn = match get_key(ms, &k5) {
                None => None,
                Some(JsonValue::Null) => None,
                Some(JsonValue::Str(s)) => Some(s.clone()),
                Some(_) => {
                    return None;
                },
            };
            match &withdrawn {
                Some(w) => {
                    if !timestamp_valid(w.as_str()) {
                        return None;
                    }
                },
                None => (),
            }
            let k6 = "aliases".to_owned();
            let aliases = match get_key(ms, &k6) {
                None => None,
                Some(JsonValue::Null) => None,
                Some(JsonValue::Arr(vs)) => {
                    proof {
                        assert(view_arr(vs@, 0).skip(0) =~= view_arr(vs@, 0));
                    }
                    match json_to_strs_from(vs, 0) {
                        Some(ss) => Some(ss),
                        None => {
                            return None;
                        },
                    }
                },
                Some(_) => {
                    return None;
                },
            };
            let k7 = "related".to_owned();
            let related = match get_key(ms, &k7) {
                None => None,
                Some(JsonValue::Null) => None,
                Some(JsonValue::Arr(vs)) => {
                    proof {
                        assert(view_arr(vs@, 0).skip(0) =~= view_arr(vs@, 0));
                    }
                    match json_to_strs_from(vs, 0) {
                        Some(ss) => Some(ss),
                        None => {
                            return None;
                        },
                    }
                },
                Some(_) => {
                    return None;
                },
            };
            let k8 = "summary".to_owned();
            let summary = match get_key(ms, &k8) {
                None => None,
                Some(JsonValue::Null) => None,
                Some(JsonValue::Str(s)) => Some(s.clone()),
                Some(_) => {
                    return None;
                },
            };
            let k9 = "details".to_owned();
            let details = match get_key(ms, &k9) {
                None => None,
                Some(JsonValue::Null) => None,
                Some(JsonValue::Str(s)) => Some(s.clone()),
                Some(_) => {
                    return None;
                },
            };
            let k10 = "affected".to_owned();
            let affected = match get_key(ms, &k10) {
                Some(JsonValue::Arr(vs)) => {
                    proof {
                        assert(view_arr(vs@, 0).skip(0) =~= view_arr(vs@, 0));
                    }
                    match json_to_affecteds_from(vs, 0) {
                        Some(xs) => xs,
                        None => {
                            return None;
                        },
                    }
                },
                _ => {
                    return None;
                },
            };
            let k11 = "references".to_owned();
            let references = match get_key(ms, &k11) {
                None => None,
                Some(JsonValue::Null) => None,
                Some(JsonValue::Arr(vs)) => {
                    proof {
                        assert(view_arr(vs@, 0).skip(0) =~= view_arr(vs@, 0));
                    }
                    match json_to_references_from(vs, 0) {
                        Some(xs) => Some(xs),
                        None => {
                            return None;
                        },
                    }
                },
                Some(_) => {
                    return None;
                },
            };
            let k12 = "severity".to_owned();
            let severity = match get_key(ms, &k12) {
                None => None,
                Some(JsonValue::Null) => None,
                Some(JsonValue::Arr(vs)) => {
                    proof {
                        assert(view_arr(vs@, 0).skip(0) =~= view_arr(vs@, 0));
                    }
                    match json_to_severities_from(vs, 0) {
                        Some(xs) => Some(xs),
                        None => {
                            return None;
                        },
                    }
                },
                Some(_) => {
                    return None;
                },
            };
            let k13 = "credits".to_owned();
            let credits = match get_key(ms, &k13) {
                None => None,
                Some(JsonValue::Null) => None,
                Some(JsonValue::Arr(vs)) => {
                    proof {
                        assert(view_arr(vs@, 0).skip(0) =~= view_arr(vs@, 0));
                    }
                    match json_to_credits_from(vs, 0) {
                        Some(xs) => Some(xs),
                        None => {
                            return None;
                        },
                    }
                },
                Some(_) => {
                    return None;
                },
            };
            let k14 = "database_specific".to_owned();
            let database_specific = match get_key(ms, &k14) {
                None => None,
                Some(JsonValue::Null) => None,
                Some(v) => Some(clone_json(v)),
            };
            Some(
                Vulnerability {
                    schema_version,
                    id,
                    published,
                    modified,
                    withdrawn,
                    aliases,
                    related,
                    summary,
                    details,
                    affected,
                    references,
                    severity,
                    credits,
                    database_specific,
                },
            )
        },
        _ => None,
    }
}


/// The vulnerability records of an array.
pub open spec fn vulns_of(vs: Seq<JsonV>) -> Option<Seq<VulnerabilityV>>
    decreases vs.len(),
{
    if vs.len() == 0 {
        Some(Seq::empty())
    } else {
        match vuln_of_json(vs[0]) {
            Some(v) => match vulns_of(vs.drop_first()) {
                Some(t) => Some(seq![v] + t),
                None => None,
            },
            None => None,
        }
    }
}

/// The vulnerability records of an array, read from position `i` on.
pub fn json_to_vulns_from(vs: &Vec<JsonValue>, i: usize) -> (r: Option<Vec<Vulnerability>>)
    requires
        i <= vs@.len(),
    ensures
        match r {
            Some(out) => vulns_of(view_arr(vs@, 0).skip(i as int)) == Some(out.deep_view()),
            None => vulns_of(view_arr(vs@, 0).skip(i as int)) is None,
        },
    decreases vs@.len() - i,
{
    proof {
        lemma_view_arr_index(vs@, 0);
    }
    if i >= vs.len() {
        proof {
            assert(view_arr(vs@, 0).skip(i as int) =~= Seq::<JsonV>::empty());
        }
        let out: Vec<Vulnerability> = Vec::new();
        proof {
            assert(out.deep_view() =~= Seq::<VulnerabilityV>::empty());
        }
        Some(out)
    } else {
        proof {
            assert(view_arr(vs@, 0).skip(i as int)[0] == vs@[i as int]@);
            assert(view_arr(vs@, 0).skip(i as int).drop_first() =~= view_arr(vs@, 0).skip(
                i as int + 1,
            ));
        }
        match json_to_vuln(&vs[i]) {
            None => None,
            Some(e) => match json_to_vulns_from(vs, i + 1) {
                None => None,
                Some(rest) => {
                    let ghost ge = e;
                    let ghost restv = rest.deep_view();
                    let mut out = rest;
                    out.insert(0, e);
                    proof {
                        assert(out.deep_view() =~= seq![ge@] + restv);
                    }
                    Some(out)
                },
            },
        }
    }
}


/// Looking a key up in an appended member list reads the left part first.
pub broadcast proof fn lemma_obj_get_append(
    a: Seq<(Seq<char>, JsonV)>,
    b: Seq<(Seq<char>, JsonV)>,
    k: Seq<char>,
)
    ensures
        #[trigger] obj_get(a + b, k) == (match obj_get(a, k) {
            Some(v) => Some(v),
            None => obj_get(b, k),
        }),
    decreases a.len(),
{
    if a.len() == 0 {
        assert(a + b =~= b);
    } else {
        assert((a + b)[0] == a[0]);
        assert((a + b).drop_first() =~= a.drop_first() + b);
        lemma_obj_get_append(a.drop_first(), b, k);
    }
}

/// Looking a key up in a one-member list.
pub proof fn lemma_obj_get_single(k1: Seq<char>, v1: JsonV, k: Seq<char>)
    ensures
        obj_get(seq![(k1, v1)], k) == (if k1 == k {
            Some(v1)
        } else {
            None::<JsonV>
        }),
{
    reveal_with_fuel(obj_get, 3);
    assert(seq![(k1, v1)].drop_first() =~= Seq::<(Seq<char>, JsonV)>::empty());
    assert(obj_get(Seq::<(Seq<char>, JsonV)>::empty(), k) is None);
}

/// A well-formed ecosystem tag reads back as the ecosystem it spells.
pub proof fn lemma_ecosystem_round_trip(e: EcosystemV)
    requires
        wf_ecosystem(e),
    ensures
        ecosystem_of_tag(ecosystem_tag(e)) == e,
{
    reveal_strlit("Go");
    reveal_strlit("npm");
    reveal_strlit("OSS-Fuzz");
    reveal_strlit("PyPI");
    reveal_strlit("RubyGems");
    reveal_strlit("crates.io");
    reveal_strlit("Packagist");
    reveal_strlit("Maven");
    reveal_strlit("NuGet");
    reveal_strlit("Linux");
    reveal_strlit("Debian");
    reveal_strlit("Hex");
    reveal_strlit("Android");
    reveal_strlit("GitHub Actions");
    reveal_strlit("Pub");
    assert("Go"@[0] == 'G' && "npm"@[0] == 'n' && "OSS-Fuzz"@[0] == 'O' && "PyPI"@[0] == 'P');
    assert("RubyGems"@[0] == 'R' && "crates.io"@[0] == 'c' && "Packagist"@[0] == 'P');
    assert("Maven"@[0] == 'M' && "NuGet"@[0] == 'N' && "Linux"@[0] == 'L' && "Debian"@[0] == 'D');
    assert("Hex"@[0] == 'H' && "Android"@[0] == 'A' && "GitHub Actions"@[0] == 'G');
    assert("Pub"@[0] == 'P' && "Pub"@[1] == 'u' && "npm"@[1] == 'p' && "Hex"@[1] == 'e');
    assert("Packagist"@[1] == 'a' && "PyPI"@[1] == 'y' && "Go"@[1] == 'o');
    match e {
        EcosystemV::Go => {
            assert(ecosystem_tag(e) == "Go"@);
            assert(ecosystem_of_tag("Go"@) == EcosystemV::Go);
        },
        EcosystemV::Npm => {
            assert(ecosystem_tag(e) == "npm"@);
            assert(ecosystem_of_tag("npm"@) == EcosystemV::Npm);
        },
        EcosystemV::OssFuzz => {
            assert(ecosystem_tag(e) == "OSS-Fuzz"@);
            assert(ecosystem_of_tag("OSS-Fuzz"@) == EcosystemV::OssFuzz);
        },
        EcosystemV::PyPI => {
            assert(ecosystem_tag(e) == "PyPI"@);
            assert(ecosystem_of_tag("PyPI"@) == EcosystemV::PyPI);
        },
        EcosystemV::RubyGems => {
            assert(ecosystem_tag(e) == "RubyGems"@);
            assert(ecosystem_of_tag("RubyGems"@) == EcosystemV::RubyGems);
        },
        EcosystemV::CratesIO => {
            assert(ecosystem_tag(e) == "crates.io"@);
            assert(ecosystem_of_tag("crates.io"@) == EcosystemV::CratesIO);
        },
        EcosystemV::Packagist => {
            assert(ecosystem_tag(e) == "Packagist"@);
            assert(ecosystem_of_tag("Packagist"@) == EcosystemV::Packagist);
        },
        EcosystemV::Maven => {
            assert(ecosystem_tag(e) == "Maven"@);
            assert(ecosystem_of_tag("Maven"@) == EcosystemV::Maven);
        },
        EcosystemV::NuGet => {
            assert(ecosystem_tag(e) == "NuGet"@);
            assert(ecosystem_of_tag("NuGet"@) == EcosystemV::NuGet);
        },
        EcosystemV::Linux => {
            assert(ecosystem_tag(e) == "Linux"@);
            assert(ecosystem_of_tag("Linux"@) == EcosystemV::Linux);
        },
        EcosystemV::Debian => {
            assert(ecosystem_tag(e) == "Debian"@);
            assert(ecosystem_of_tag("Debian"@) == EcosystemV::Debian);
        },
        EcosystemV::Hex => {
            assert(ecosystem_tag(e) == "Hex"@);
            assert(ecosystem_of_tag("Hex"@) == EcosystemV::Hex);
        },
        EcosystemV::Android => {
            assert(ecosystem_tag(e) == "Android"@);
            assert(ecosystem_of_tag("Android"@) == EcosystemV::Android);
        },
        EcosystemV::GitHubActions => {
            assert(ecosystem_tag(e) == "GitHub Actions"@);
            assert(ecosystem_of_tag("GitHub Actions"@) == EcosystemV::GitHubActions);
        },
        EcosystemV::Pub => {
            assert(ecosystem_tag(e) == "Pub"@);
            assert(ecosystem_of_tag("Pub"@) == EcosystemV::Pub);
        },
        EcosystemV::Other(s) => {
            assert(ecosystem_tag(e) == s);
            assert(ecosystem_of_tag(s) == EcosystemV::Other(s));
        },
    }
}

/// Each range type tag reads back as its range type.
pub proof fn lemma_range_type_round_trip(t: RangeType)
    ensures
        range_type_of_tag(range_type_tag(t)) == Some(t),
{
    reveal_strlit("UNSPECIFIED");
    reveal_strlit("GIT");
    reveal_strlit("SEMVER");
    reveal_strlit("ECOSYSTEM");
    match t {
        RangeType::Unspecified => {
            assert(range_type_tag(t) == "UNSPECIFIED"@);
            assert(range_type_of_tag("UNSPECIFIED"@) == Some(RangeType::Unspecified));
        },
        RangeType::Git => {
            assert(range_type_tag(t) == "GIT"@);
            assert(range_type_of_tag("GIT"@) == Some(RangeType::Git));
        },
        RangeType::Semver => {
            assert(range_type_tag(t) == "SEMVER"@);
            assert(range_type_of_tag("SEMVER"@) == Some(RangeType::Semver));
        },
        RangeType::Ecosystem => {
            assert(range_type_tag(t) == "ECOSYSTEM"@);
            assert(range_type_of_tag("ECOSYSTEM"@) == Some(RangeType::Ecosystem));
        },
    }
}

/// Each reference type tag reads back as its reference type.
pub proof fn lemma_reference_type_round_trip(t: ReferenceType)
    ensures
        reference_type_of_tag(reference_type_tag(t)) == Some(t),
{
    reveal_strlit("NONE");
    reveal_strlit("WEB");
    reveal_strlit("ADVISORY");
    reveal_strlit("REPORT");
    reveal_strlit("FIX");
    reveal_strlit("PACKAGE");
    reveal_strlit("ARTICLE");
    assert("NONE"@[0] == 'N' && "WEB"@[0] == 'W' && "ADVISORY"@[0] == 'A' && "REPORT"@[0] == 'R');
    assert("FIX"@[0] == 'F' && "PACKAGE"@[0] == 'P' && "ARTICLE"@[0] == 'A');
    assert("ARTICLE"@[1] == 'R' && "ADVISORY"@[1] == 'D');
    match t {
        ReferenceType::Undefined => {
            assert(reference_type_tag(t) == "NONE"@);
            assert(reference_type_of_tag("NONE"@) == Some(ReferenceType::Undefined));
        },
        ReferenceType::Web => {
            assert(reference_type_tag(t) == "WEB"@);
            assert(reference_type_of_tag("WEB"@) == Some(ReferenceType::Web));
        },
        ReferenceType::Advisory => {
            assert(reference_type_tag(t) == "ADVISORY"@);
            assert(reference_type_of_tag("ADVISORY"@) == Some(ReferenceType::Advisory));
        },
        ReferenceType::Report => {
            assert(reference_type_tag(t) == "REPORT"@);
            assert(reference_type_of_tag("REPORT"@) == Some(ReferenceType::Report));
        },
        ReferenceType::Fix => {
            assert(reference_type_tag(t) == "FIX"@);
            assert(reference_type_of_tag("FIX"@) == Some(ReferenceType::Fix));
        },
        ReferenceType::Package => {
            assert(reference_type_tag(t) == "PACKAGE"@);
            assert(reference_type_of_tag("PACKAGE"@) == Some(ReferenceType::Package));
        },
        ReferenceType::Article => {
            assert(reference_type_tag(t) == "ARTICLE"@);
            assert(reference_type_of_tag("ARTICLE"@) == Some(ReferenceType::Article));
        },
    }
}

/// Each severity type tag reads back as its severity type.
pub proof fn lemma_severity_type_round_trip(t: SeverityType)
    ensures
        severity_type_of_tag(severity_type_tag(t)) == Some(t),
{
    reveal_strlit("UNSPECIFIED");
    reveal_strlit("CVSS_V3");
    match t {
        SeverityType::Unspecified => {
            assert(severity_type_tag(t) == "UNSPECIFIED"@);
            assert(severity_type_of_tag("UNSPECIFIED"@) == Some(SeverityType::Unspecified));
        },
        SeverityType::CVSSv3 => {
            assert(severity_type_tag(t) == "CVSS_V3"@);
            assert(severity_type_of_tag("CVSS_V3"@) == Some(SeverityType::CVSSv3));
        },
    }
}

/// An event's wire form reads back as the event.
pub proof fn lemma_event_round_trip(e: EventV)
    ensures
        event_of_json(event_json(e)) == Some(e),
{
    reveal_strlit("introduced");
    reveal_strlit("fixed");
    reveal_strlit("limit");
    assert("introduced"@[0] == 'i' && "fixed"@[0] == 'f' && "limit"@[0] == 'l');
    match e {
        EventV::Introduced(s) => {
            lemma_obj_get_single("introduced"@, JsonV::Str(s), "introduced"@);
            assert(event_of_json(event_json(e)) == Some(e));
        },
        EventV::Fixed(s) => {
            lemma_obj_get_single("fixed"@, JsonV::Str(s), "fixed"@);
            assert(event_of_json(event_json(e)) == Some(e));
        },
        EventV::Limit(s) => {
            lemma_obj_get_single("limit"@, JsonV::Str(s), "limit"@);
            assert(event_of_json(event_json(e)) == Some(e));
        },
    }
}

/// An all-string array of strings reads back as the strings.
pub proof fn lemma_strs_round_trip(ss: Seq<Seq<char>>)
    ensures
        strs_of(str_arr(ss)->Arr_0) == Some(ss),
    decreases ss.len(),
{
    let js = str_arr(ss)->Arr_0;
    if ss.len() == 0 {
        assert(Some(ss) == Some(Seq::<Seq<char>>::empty()));
    } else {
        let tail = ss.drop_first();
        lemma_strs_round_trip(tail);
        assert(js.drop_first() =~= str_arr(tail)->Arr_0);
        assert(seq![ss[0]] + tail =~= ss);
    }
}

/// Tolerance for unknown ecosystems: a tag outside the known set reads as
/// the verbatim `Other` value, and writing that value yields the very same
/// tag, so such values pass through a decode/encode round unchanged.
pub proof fn lemma_unknown_ecosystem_round_trip(s: Seq<char>)
    requires
        !known_ecosystem(s),
    ensures
        ecosystem_of_tag(s) == EcosystemV::Other(s),
        ecosystem_tag(ecosystem_of_tag(s)) == s,
{
}

} // verus!
