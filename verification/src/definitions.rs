//! Typed records mirroring the service's JSON schema for a component
//! definition, and the tolerant decoder that builds them.
//!
//! Decoding is strict for `coordinates` and for every nested record, but the
//! optional sections `described` and `licensed` of a definition follow the
//! tolerant policy: the key must be present, yet a value that fails
//! structural validation becomes `None` instead of failing the record.

use vstd::prelude::*;

use crate::coordinate::{
    provider_text, shape_text, spec_parse_provider, spec_parse_shape, spec_parse_version,
    version_text, CoordVersion, CoordVersionV, Provider, Shape,
};
use crate::json::{
    decode_opt_string, decode_string, decode_strings, decode_u32, decode_u8, find_field,
    first_val, key_count, opt_field, req_field, spec_decode_opt_string, spec_decode_string,
    spec_decode_strings, spec_decode_u32, spec_decode_u8, DecodeError, DecodeErrorV, Json,
};

verus! {

// ---------------------------------------------------------------------------
// The records
// ---------------------------------------------------------------------------

/// The coordinates echoed inside a definition record.
#[derive(Clone, PartialEq, Debug)]
pub struct DefCoords {
    /// The shape/kind of the component (JSON key `type`).
    pub shape: Shape,
    pub provider: Provider,
    pub name: String,
    pub revision: CoordVersion,
}

#[derive(Clone, PartialEq, Debug)]
pub struct Hashes {
    pub sha1: String,
    pub sha256: Option<String>,
}

#[derive(Clone, Copy, PartialEq, Eq, Structural, Debug)]
pub struct Scores {
    pub total: u32,
    pub date: u32,
    pub source: u32,
}

/// Where the component's sources live (JSON key `type` is the `kind` field).
#[derive(Clone, PartialEq, Debug)]
pub struct SourceLocation {
    pub kind: String,
    pub provider: String,
    pub namespace: String,
    pub name: String,
    pub revision: String,
    pub url: String,
}

#[derive(Clone, Copy, PartialEq, Eq, Structural, Debug)]
pub struct LicenseScore {
    pub total: u32,
    pub declared: u32,
    pub discovered: u32,
    pub consistency: u32,
    pub spdx: u32,
    pub texts: u32,
}

#[derive(Clone, PartialEq, Debug)]
pub struct Attribution {
    pub unknown: u32,
    pub parties: Vec<String>,
}

#[derive(Clone, PartialEq, Debug)]
pub struct Discovered {
    pub unknown: u32,
    pub expressions: Vec<String>,
}

#[derive(Clone, PartialEq, Debug)]
pub struct Facet {
    pub attribution: Attribution,
    pub discovered: Discovered,
    pub files: u32,
}

#[derive(Clone, PartialEq, Debug)]
pub struct Facets {
    pub core: Facet,
}

#[derive(Clone, PartialEq, Debug)]
pub struct License {
    pub declared: String,
    pub facets: Facets,
    pub tool_score: LicenseScore,
    pub score: LicenseScore,
}

#[derive(Clone, PartialEq, Debug)]
pub struct File {
    pub path: String,
    pub hashes: Option<Hashes>,
    pub license: Option<String>,
    pub attributions: Vec<String>,
    pub natures: Vec<String>,
    pub token: Option<String>,
}

#[derive(Clone, Copy, PartialEq, Eq, Structural, Debug)]
pub struct TopLevelScore {
    pub effective: u8,
    pub tool: u8,
}

/// The description of a component, as one immutable snapshot.
///
/// `release_date` is kept as its ISO 8601 (`%Y-%m-%d`) text; decoding
/// validates it as a calendar date. `urls` keeps the payload's members in
/// order.
#[derive(Clone, PartialEq, Debug)]
pub struct Description {
    pub release_date: String,
    pub source_location: Option<SourceLocation>,
    pub project_website: Option<String>,
    pub urls: Vec<(String, String)>,
    pub hashes: Hashes,
    pub files: u32,
    pub tools: Vec<String>,
    pub tool_score: Scores,
    pub score: Scores,
}

/// The full metadata record for one coordinate.
#[derive(PartialEq, Debug)]
pub struct Definition {
    pub coordinates: DefCoords,
    /// Not present when the coordinate has not been harvested yet.
    pub described: Option<Description>,
    pub licensed: Option<License>,
    pub files: Vec<File>,
    pub scores: TopLevelScore,
}

/// The component definitions of a batch response, in payload order.
#[derive(PartialEq, Debug)]
pub struct GetResponse {
    pub definitions: Vec<Definition>,
}

// ---------------------------------------------------------------------------
// Ghost models
// ---------------------------------------------------------------------------

pub struct DefCoordsV {
    pub shape: Shape,
    pub provider: Provider,
    pub name: Seq<char>,
    pub revision: CoordVersionV,
}

pub struct HashesV {
    pub sha1: Seq<char>,
    pub sha256: Option<Seq<char>>,
}

pub struct SourceLocationV {
    pub kind: Seq<char>,
    pub provider: Seq<char>,
    pub namespace: Seq<char>,
    pub name: Seq<char>,
    pub revision: Seq<char>,
    pub url: Seq<char>,
}

pub struct AttributionV {
    pub unknown: u32,
    pub parties: Seq<Seq<char>>,
}

pub struct DiscoveredV {
    pub unknown: u32,
    pub expressions: Seq<Seq<char>>,
}

pub struct FacetV {
    pub attribution: AttributionV,
    pub discovered: DiscoveredV,
    pub files: u32,
}

pub struct FacetsV {
    pub core: FacetV,
}

pub struct LicenseV {
    pub declared: Seq<char>,
    pub facets: FacetsV,
    pub tool_score: LicenseScore,
    pub score: LicenseScore,
}

pub struct FileV {
    pub path: Seq<char>,
    pub hashes: Option<HashesV>,
    pub license: Option<Seq<char>>,
    pub attributions: Seq<Seq<char>>,
    pub natures: Seq<Seq<char>>,
    pub token: Option<Seq<char>>,
}

pub struct DescriptionV {
    pub release_date: Seq<char>,
    pub source_location: Option<SourceLocationV>,
    pub project_website: Option<Seq<char>>,
    pub urls: Seq<(Seq<char>, Seq<char>)>,
    pub hashes: HashesV,
    pub files: u32,
    pub tools: Seq<Seq<char>>,
    pub tool_score: Scores,
    pub score: Scores,
}

pub struct DefinitionV {
    pub coordinates: DefCoordsV,
    pub described: Option<DescriptionV>,
    pub licensed: Option<LicenseV>,
    pub files: Seq<FileV>,
    pub scores: TopLevelScore,
}

pub struct GetResponseV {
    pub definitions: Seq<DefinitionV>,
}

impl DeepView for DefCoords {
    type V = DefCoordsV;

    open spec fn deep_view(&self) -> DefCoordsV {
        DefCoordsV {
            shape: self.shape,
            provider: self.provider,
            name: self.name@,
            revision: self.revision@,
        }
    }
}

impl DeepView for Hashes {
    type V = HashesV;

    open spec fn deep_view(&self) -> HashesV {
        HashesV { sha1: self.sha1@, sha256: self.sha256.deep_view() }
    }
}

impl DeepView for SourceLocation {
    type V = SourceLocationV;

    open spec fn deep_view(&self) -> SourceLocationV {
        SourceLocationV {
            kind: self.kind@,
            provider: self.provider@,
            namespace: self.namespace@,
            name: self.name@,
            revision: self.revision@,
            url: self.url@,
        }
    }
}

impl DeepView for Attribution {
    type V = AttributionV;

    open spec fn deep_view(&self) -> AttributionV {
        AttributionV { unknown: self.unknown, parties: self.parties.deep_view() }
    }
}

impl DeepView for Discovered {
    type V = DiscoveredV;

    open spec fn deep_view(&self) -> DiscoveredV {
        DiscoveredV { unknown: self.unknown, expressions: self.expressions.deep_view() }
    }
}

impl DeepView for Facet {
    type V = FacetV;

    open spec fn deep_view(&self) -> FacetV {
        FacetV {
            attribution: self.attribution.deep_view(),
            discovered: self.discovered.deep_view(),
            files: self.files,
        }
    }
}

impl DeepView for Facets {
    type V = FacetsV;

    open spec fn deep_view(&self) -> FacetsV {
        FacetsV { core: self.core.deep_view() }
    }
}

impl DeepView for License {
    type V = LicenseV;

    open spec fn deep_view(&self) -> LicenseV {
        LicenseV {
            declared: self.declared@,
            facets: self.facets.deep_view(),
            tool_score: self.tool_score,
            score: self.score,
        }
    }
}

impl DeepView for File {
    type V = FileV;

    open spec fn deep_view(&self) -> FileV {
        FileV {
            path: self.path@,
            hashes: self.hashes.deep_view(),
            license: self.license.deep_view(),
            attributions: self.attributions.deep_view(),
            natures: self.natures.deep_view(),
            token: self.token.deep_view(),
        }
    }
}

impl DeepView for Description {
    type V = DescriptionV;

    open spec fn deep_view(&self) -> DescriptionV {
        DescriptionV {
            release_date: self.release_date@,
            source_location: self.source_location.deep_view(),
            project_website: self.project_website.deep_view(),
            urls: self.urls.deep_view(),
            hashes: self.hashes.deep_view(),
            files: self.files,
            tools: self.tools.deep_view(),
            tool_score: self.tool_score,
            score: self.score,
        }
    }
}

impl DeepView for Definition {
    type V = DefinitionV;

    open spec fn deep_view(&self) -> DefinitionV {
        DefinitionV {
            coordinates: self.coordinates.deep_view(),
            described: self.described.deep_view(),
            licensed: self.licensed.deep_view(),
            files: self.files.deep_view(),
            scores: self.scores,
        }
    }
}

impl DeepView for GetResponse {
    type V = GetResponseV;

    open spec fn deep_view(&self) -> GetResponseV {
        GetResponseV { definitions: self.definitions.deep_view() }
    }
}

// ---------------------------------------------------------------------------
// Dates
// ---------------------------------------------------------------------------

/// Whether a text is a calendar date in the ISO 8601 `%Y-%m-%d` form that
/// `chrono::NaiveDate` accepts.
pub uninterp spec fn naive_date_ok(s: Seq<char>) -> bool;

/// Relies on the `FromStr` impl of `chrono::NaiveDate` (the `%Y-%m-%d`
/// format, which chrono's `Deserialize` for `NaiveDate` parses with as
/// well); acceptance depends on the text alone.
#[verifier::external_body]
fn naive_date_valid(s: &str) -> (r: bool)
    ensures
        r == naive_date_ok(s@),
{
    s.parse::<chrono::NaiveDate>().is_ok()
}

// ---------------------------------------------------------------------------
// Field access helpers
// ---------------------------------------------------------------------------

/// Fetch a required member, turning lookup outcomes into decode errors.
fn req_member<'a>(pairs: &'a Vec<(String, Json)>, key: &str) -> (r: Result<&'a Json, DecodeError>)
    ensures
        match r {
            Ok(v) => req_field(pairs@, key@) == Ok::<Json, DecodeErrorV>(*v),
            Err(e) => req_field(pairs@, key@) == Err::<Json, DecodeErrorV>(e@),
        },
{
    match find_field(pairs, key) {
        Err(_) => Err(DecodeError::DuplicateField(key.to_owned())),
        Ok(None) => Err(DecodeError::MissingField(key.to_owned())),
        Ok(Some(v)) => Ok(v),
    }
}

/// Fetch an optional member, rejecting duplicates.
fn opt_member<'a>(pairs: &'a Vec<(String, Json)>, key: &str) -> (r: Result<
    Option<&'a Json>,
    DecodeError,
>)
    ensures
        match r {
            Ok(Some(v)) => opt_field(pairs@, key@) == Ok::<Option<Json>, DecodeErrorV>(Some(*v)),
            Ok(None) => opt_field(pairs@, key@) == Ok::<Option<Json>, DecodeErrorV>(None),
            Err(e) => opt_field(pairs@, key@) == Err::<Option<Json>, DecodeErrorV>(e@),
        },
{
    match find_field(pairs, key) {
        Err(_) => Err(DecodeError::DuplicateField(key.to_owned())),
        Ok(None) => Ok(None),
        Ok(Some(v)) => Ok(Some(v)),
    }
}

// ---------------------------------------------------------------------------
// Record decoders
// ---------------------------------------------------------------------------

pub open spec fn spec_decode_hashes(j: Json) -> Result<HashesV, DecodeErrorV> {
    match j {
        Json::Obj(pairs) => match req_field(pairs@, "sha1"@) {
            Err(e) => Err(e),
            Ok(v1) => match spec_decode_string(v1) {
                Err(e) => Err(e),
                Ok(sha1) => match opt_field(pairs@, "sha256"@) {
                    Err(e) => Err(e),
                    Ok(None) => Ok(HashesV { sha1, sha256: None }),
                    Ok(Some(v2)) => match spec_decode_opt_string(v2) {
                        Err(e) => Err(e),
                        Ok(sha256) => Ok(HashesV { sha1, sha256 }),
                    },
                },
            },
        },
        _ => Err(DecodeErrorV::NotObject),
    }
}

pub fn decode_hashes(j: &Json) -> (r: Result<Hashes, DecodeError>)
    ensures
        match r {
            Ok(h) => spec_decode_hashes(*j) == Ok::<HashesV, DecodeErrorV>(h.deep_view()),
            Err(e) => spec_decode_hashes(*j) == Err::<HashesV, DecodeErrorV>(e@),
        },
{
    match j {
        Json::Obj(pairs) => {
            let sha1 = match req_member(pairs, "sha1") {
                Ok(v) => match decode_string(v) {
                    Ok(s) => s,
                    Err(e) => {
                        return Err(e);
                    },
                },
                Err(e) => {
                    return Err(e);
                },
            };
            let sha256 = match opt_member(pairs, "sha256") {
                Ok(None) => None,
                Ok(Some(v)) => match decode_opt_string(v) {
                    Ok(s) => s,
                    Err(e) => {
                        return Err(e);
                    },
                },
                Err(e) => {
                    return Err(e);
                },
            };
            Ok(Hashes { sha1, sha256 })
        },
        _ => Err(DecodeError::NotObject),
    }
}

pub open spec fn spec_decode_scores(j: Json) -> Result<Scores, DecodeErrorV> {
    match j {
        Json::Obj(pairs) => match req_field(pairs@, "total"@) {
            Err(e) => Err(e),
            Ok(v1) => match spec_decode_u32(v1) {
                Err(e) => Err(e),
                Ok(total) => match req_field(pairs@, "date"@) {
                    Err(e) => Err(e),
                    Ok(v2) => match spec_decode_u32(v2) {
                        Err(e) => Err(e),
                        Ok(date) => match req_field(pairs@, "source"@) {
                            Err(e) => Err(e),
                            Ok(v3) => match spec_decode_u32(v3) {
                                Err(e) => Err(e),
                                Ok(source) => Ok(Scores { total, date, source }),
                            },
                        },
                    },
                },
            },
        },
        _ => Err(DecodeErrorV::NotObject),
    }
}

pub fn decode_scores(j: &Json) -> (r: Result<Scores, DecodeError>)
    ensures
        match r {
            Ok(s) => spec_decode_scores(*j) == Ok::<Scores, DecodeErrorV>(s),
            Err(e) => spec_decode_scores(*j) == Err::<Scores, DecodeErrorV>(e@),
        },
{
    match j {
        Json::Obj(pairs) => {
            let total = match req_u32(pairs, "total") {
                Ok(n) => n,
                Err(e) => {
                    return Err(e);
                },
            };
            let date = match req_u32(pairs, "date") {
                Ok(n) => n,
                Err(e) => {
                    return Err(e);
                },
            };
            let source = match req_u32(pairs, "source") {
                Ok(n) => n,
                Err(e) => {
                    return Err(e);
                },
            };
            Ok(Scores { total, date, source })
        },
        _ => Err(DecodeError::NotObject),
    }
}

/// A required `u32` member: lookup, then numeric decode.
fn req_u32(pairs: &Vec<(String, Json)>, key: &str) -> (r: Result<u32, DecodeError>)
    ensures
        match r {
            Ok(n) => match req_field(pairs@, key@) {
                Ok(v) => spec_decode_u32(v) == Ok::<u32, DecodeErrorV>(n),
                Err(_) => false,
            },
            Err(e) => match req_field(pairs@, key@) {
                Ok(v) => spec_decode_u32(v) == Err::<u32, DecodeErrorV>(e@),
                Err(e2) => e2 == e@,
            },
        },
{
    match req_member(pairs, key) {
        Ok(v) => decode_u32(v),
        Err(e) => Err(e),
    }
}

/// A required `String` member: lookup, then string decode.
fn req_string(pairs: &Vec<(String, Json)>, key: &str) -> (r: Result<String, DecodeError>)
    ensures
        match r {
            Ok(s) => match req_field(pairs@, key@) {
                Ok(v) => spec_decode_string(v) == Ok::<Seq<char>, DecodeErrorV>(s@),
                Err(_) => false,
            },
            Err(e) => match req_field(pairs@, key@) {
                Ok(v) => spec_decode_string(v) == Err::<Seq<char>, DecodeErrorV>(e@),
                Err(e2) => e2 == e@,
            },
        },
{
    match req_member(pairs, key) {
        Ok(v) => decode_string(v),
        Err(e) => Err(e),
    }
}

pub open spec fn spec_decode_license_score(j: Json) -> Result<LicenseScore, DecodeErrorV> {
    match j {
        Json::Obj(pairs) => {
            let m = pairs@;
            match req_field(m, "total"@) {
                Err(e) => Err(e),
                Ok(v1) => match spec_decode_u32(v1) {
                    Err(e) => Err(e),
                    Ok(total) => match req_field(m, "declared"@) {
                        Err(e) => Err(e),
                        Ok(v2) => match spec_decode_u32(v2) {
                            Err(e) => Err(e),
                            Ok(declared) => match req_field(m, "discovered"@) {
                                Err(e) => Err(e),
                                Ok(v3) => match spec_decode_u32(v3) {
                                    Err(e) => Err(e),
                                    Ok(discovered) => match req_field(m, "consistency"@) {
                                        Err(e) => Err(e),
                                        Ok(v4) => match spec_decode_u32(v4) {
                                            Err(e) => Err(e),
                                            Ok(consistency) => match req_field(m, "spdx"@) {
                                                Err(e) => Err(e),
                                                Ok(v5) => match spec_decode_u32(v5) {
                                                    Err(e) => Err(e),
                                                    Ok(spdx) => match req_field(m, "texts"@) {
                                                        Err(e) => Err(e),
                                                        Ok(v6) => match spec_decode_u32(v6) {
                                                            Err(e) => Err(e),
                                                            Ok(texts) => Ok(
                                                                LicenseScore {
                                                                    total,
                                                                    declared,
                                                                    discovered,
                                                                    consistency,
                                                                    spdx,
                                                                    texts,
                                                                },
                                                            ),
                                                        },
                                                    },
                                                },
                                            },
                                        },
                                    },
                                },
                            },
                        },
                    },
                },
            }
        },
        _ => Err(DecodeErrorV::NotObject),
    }
}

pub fn decode_license_score(j: &Json) -> (r: Result<LicenseScore, DecodeError>)
    ensures
        match r {
            Ok(s) => spec_decode_license_score(*j) == Ok::<LicenseScore, DecodeErrorV>(s),
            Err(e) => spec_decode_license_score(*j) == Err::<LicenseScore, DecodeErrorV>(e@),
        },
{
    match j {
        Json::Obj(pairs) => {
            let total = match req_u32(pairs, "total") {
                Ok(n) => n,
                Err(e) => {
                    return Err(e);
                },
            };
            let declared = match req_u32(pairs, "declared") {
                Ok(n) => n,
                Err(e) => {
                    return Err(e);
                },
            };
            let discovered = match req_u32(pairs, "discovered") {
                Ok(n) => n,
                Err(e) => {
                    return Err(e);
                },
            };
            let consistency = match req_u32(pairs, "consistency") {
                Ok(n) => n,
                Err(e) => {
                    return Err(e);
                },
            };
            let spdx = match req_u32(pairs, "spdx") {
                Ok(n) => n,
                Err(e) => {
                    return Err(e);
                },
            };
            let texts = match req_u32(pairs, "texts") {
                Ok(n) => n,
                Err(e) => {
                    return Err(e);
                },
            };
            Ok(LicenseScore { total, declared, discovered, consistency, spdx, texts })
        },
        _ => Err(DecodeError::NotObject),
    }
}

pub open spec fn spec_decode_source_location(j: Json) -> Result<SourceLocationV, DecodeErrorV> {
    match j {
        Json::Obj(pairs) => {
            let m = pairs@;
            match req_field(m, "type"@) {
                Err(e) => Err(e),
                Ok(v1) => match spec_decode_string(v1) {
                    Err(e) => Err(e),
                    Ok(kind) => match req_field(m, "provider"@) {
                        Err(e) => Err(e),
                        Ok(v2) => match spec_decode_string(v2) {
                            Err(e) => Err(e),
                            Ok(provider) => match req_field(m, "namespace"@) {
                                Err(e) => Err(e),
                                Ok(v3) => match spec_decode_string(v3) {
                                    Err(e) => Err(e),
                                    Ok(namespace) => match req_field(m, "name"@) {
                                        Err(e) => Err(e),
                                        Ok(v4) => match spec_decode_string(v4) {
                                            Err(e) => Err(e),
                                            Ok(name) => match req_field(m, "revision"@) {
                                                Err(e) => Err(e),
                                                Ok(v5) => match spec_decode_string(v5) {
                                                    Err(e) => Err(e),
                                                    Ok(revision) => match req_field(m, "url"@) {
                                                        Err(e) => Err(e),
                                                        Ok(v6) => match spec_decode_string(v6) {
                                                            Err(e) => Err(e),
                                                            Ok(url) => Ok(
                                                                SourceLocationV {
                                                                    kind,
                                                                    provider,
                                                                    namespace,
                                                                    name,
                                                                    revision,
                                                                    url,
                                                                },
                                                            ),
                                                        },
                                                    },
                                                },
                                            },
                                        },
                                    },
                                },
                            },
                        },
                    },
                },
            }
        },
        _ => Err(DecodeErrorV::NotObject),
    }
}

pub fn decode_source_location(j: &Json) -> (r: Result<SourceLocation, DecodeError>)
    ensures
        match r {
            Ok(s) => spec_decode_source_location(*j) == Ok::<SourceLocationV, DecodeErrorV>(
                s.deep_view(),
            ),
            Err(e) => spec_decode_source_location(*j) == Err::<SourceLocationV, DecodeErrorV>(e@),
        },
{
    match j {
        Json::Obj(pairs) => {
            let kind = match req_string(pairs, "type") {
                Ok(s) => s,
                Err(e) => {
                    return Err(e);
                },
            };
            let provider = match req_string(pairs, "provider") {
                Ok(s) => s,
                Err(e) => {
                    return Err(e);
                },
            };
            let namespace = match req_string(pairs, "namespace") {
                Ok(s) => s,
                Err(e) => {
                    return Err(e);
                },
            };
            let name = match req_string(pairs, "name") {
                Ok(s) => s,
                Err(e) => {
                    return Err(e);
                },
            };
            let revision = match req_string(pairs, "revision") {
                Ok(s) => s,
                Err(e) => {
                    return Err(e);
                },
            };
            let url = match req_string(pairs, "url") {
                Ok(s) => s,
                Err(e) => {
                    return Err(e);
                },
            };
            Ok(SourceLocation { kind, provider, namespace, name, revision, url })
        },
        _ => Err(DecodeError::NotObject),
    }
}

pub open spec fn spec_decode_top_level_score(j: Json) -> Result<TopLevelScore, DecodeErrorV> {
    match j {
        Json::Obj(pairs) => match req_field(pairs@, "effective"@) {
            Err(e) => Err(e),
            Ok(v1) => match spec_decode_u8(v1) {
                Err(e) => Err(e),
                Ok(effective) => match req_field(pairs@, "tool"@) {
                    Err(e) => Err(e),
                    Ok(v2) => match spec_decode_u8(v2) {
                        Err(e) => Err(e),
                        Ok(tool) => Ok(TopLevelScore { effective, tool }),
                    },
                },
            },
        },
        _ => Err(DecodeErrorV::NotObject),
    }
}

pub fn decode_top_level_score(j: &Json) -> (r: Result<TopLevelScore, DecodeError>)
    ensures
        match r {
            Ok(s) => spec_decode_top_level_score(*j) == Ok::<TopLevelScore, DecodeErrorV>(s),
            Err(e) => spec_decode_top_level_score(*j) == Err::<TopLevelScore, DecodeErrorV>(e@),
        },
{
    match j {
        Json::Obj(pairs) => {
            let effective = match req_member(pairs, "effective") {
                Ok(v) => match decode_u8(v) {
                    Ok(n) => n,
                    Err(e) => {
                        return Err(e);
                    },
                },
                Err(e) => {
                    return Err(e);
                },
            };
            let tool = match req_member(pairs, "tool") {
                Ok(v) => match decode_u8(v) {
                    Ok(n) => n,
                    Err(e) => {
                        return Err(e);
                    },
                },
                Err(e) => {
                    return Err(e);
                },
            };
            Ok(TopLevelScore { effective, tool })
        },
        _ => Err(DecodeError::NotObject),
    }
}


pub open spec fn spec_decode_attribution(j: Json) -> Result<AttributionV, DecodeErrorV> {
    match j {
        Json::Obj(pairs) => {
            let m = pairs@;
            match req_field(m, "unknown"@) {
                Err(e) => Err(e),
                Ok(v1) => match spec_decode_u32(v1) {
                    Err(e) => Err(e),
                    Ok(unknown) => match opt_field(m, "parties"@) {
                        Err(e) => Err(e),
                        Ok(None) => Ok(AttributionV { unknown, parties: Seq::empty() }),
                        Ok(Some(v2)) => match spec_decode_strings(v2) {
                            Err(e) => Err(e),
                            Ok(parties) => Ok(AttributionV { unknown, parties }),
                        },
                    },
                },
            }
        },
        _ => Err(DecodeErrorV::NotObject),
    }
}

pub fn decode_attribution(j: &Json) -> (r: Result<Attribution, DecodeError>)
    ensures
        match r {
            Ok(a) => spec_decode_attribution(*j) == Ok::<AttributionV, DecodeErrorV>(a.deep_view()),
            Err(e) => spec_decode_attribution(*j) == Err::<AttributionV, DecodeErrorV>(e@),
        },
{
    match j {
        Json::Obj(pairs) => {
            let unknown = match req_u32(pairs, "unknown") {
                Ok(n) => n,
                Err(e) => {
                    return Err(e);
                },
            };
            let parties = match opt_member(pairs, "parties") {
                Ok(None) => {
                    let none: Vec<String> = Vec::new();
                    proof {
                        assert(none.deep_view() =~= Seq::<Seq<char>>::empty());
                    }
                    none
                },
                Ok(Some(v)) => match decode_strings(v) {
                    Ok(p) => p,
                    Err(e) => {
                        return Err(e);
                    },
                },
                Err(e) => {
                    return Err(e);
                },
            };
            Ok(Attribution { unknown, parties })
        },
        _ => Err(DecodeError::NotObject),
    }
}

pub open spec fn spec_decode_discovered(j: Json) -> Result<DiscoveredV, DecodeErrorV> {
    match j {
        Json::Obj(pairs) => {
            let m = pairs@;
            match req_field(m, "unknown"@) {
                Err(e) => Err(e),
                Ok(v1) => match spec_decode_u32(v1) {
                    Err(e) => Err(e),
                    Ok(unknown) => match req_field(m, "expressions"@) {
                        Err(e) => Err(e),
                        Ok(v2) => match spec_decode_strings(v2) {
                            Err(e) => Err(e),
                            Ok(expressions) => Ok(DiscoveredV { unknown, expressions }),
                        },
                    },
                },
            }
        },
        _ => Err(DecodeErrorV::NotObject),
    }
}

pub fn decode_discovered(j: &Json) -> (r: Result<Discovered, DecodeError>)
    ensures
        match r {
            Ok(d) => spec_decode_discovered(*j) == Ok::<DiscoveredV, DecodeErrorV>(d.deep_view()),
            Err(e) => spec_decode_discovered(*j) == Err::<DiscoveredV, DecodeErrorV>(e@),
        },
{
    match j {
        Json::Obj(pairs) => {
            let unknown = match req_u32(pairs, "unknown") {
                Ok(n) => n,
                Err(e) => {
                    return Err(e);
                },
            };
            let expressions = match req_member(pairs, "expressions") {
                Ok(v) => match decode_strings(v) {
                    Ok(x) => x,
                    Err(e) => {
                        return Err(e);
                    },
                },
                Err(e) => {
                    return Err(e);
                },
            };
            Ok(Discovered { unknown, expressions })
        },
        _ => Err(DecodeError::NotObject),
    }
}

pub open spec fn spec_decode_facet(j: Json) -> Result<FacetV, DecodeErrorV> {
    match j {
        Json::Obj(pairs) => {
            let m = pairs@;
            match req_field(m, "attribution"@) {
                Err(e) => Err(e),
                Ok(v1) => match spec_decode_attribution(v1) {
                    Err(e) => Err(e),
                    Ok(attribution) => match req_field(m, "discovered"@) {
                        Err(e) => Err(e),
                        Ok(v2) => match spec_decode_discovered(v2) {
                            Err(e) => Err(e),
                            Ok(discovered) => match req_field(m, "files"@) {
                                Err(e) => Err(e),
                                Ok(v3) => match spec_decode_u32(v3) {
                                    Err(e) => Err(e),
                                    Ok(files) => Ok(FacetV { attribution, discovered, files }),
                                },
                            },
                        },
                    },
                },
            }
        },
        _ => Err(DecodeErrorV::NotObject),
    }
}

pub fn decode_facet(j: &Json) -> (r: Result<Facet, DecodeError>)
    ensures
        match r {
            Ok(f) => spec_decode_facet(*j) == Ok::<FacetV, DecodeErrorV>(f.deep_view()),
            Err(e) => spec_decode_facet(*j) == Err::<FacetV, DecodeErrorV>(e@),
        },
{
    match j {
        Json::Obj(pairs) => {
            let attribution = match req_member(pairs, "attribution") {
                Ok(v) => match decode_attribution(v) {
                    Ok(a) => a,
                    Err(e) => {
                        return Err(e);
                    },
                },
                Err(e) => {
                    return Err(e);
                },
            };
            let discovered = match req_member(pairs, "discovered") {
                Ok(v) => match decode_discovered(v) {
                    Ok(d) => d,
                    Err(e) => {
                        return Err(e);
                    },
                },
                Err(e) => {
                    return Err(e);
                },
            };
            let files = match req_u32(pairs, "files") {
                Ok(n) => n,
                Err(e) => {
                    return Err(e);
                },
            };
            Ok(Facet { attribution, discovered, files })
        },
        _ => Err(DecodeError::NotObject),
    }
}

pub open spec fn spec_decode_facets(j: Json) -> Result<FacetsV, DecodeErrorV> {
    match j {
        Json::Obj(pairs) => match req_field(pairs@, "core"@) {
            Err(e) => Err(e),
            Ok(v) => match spec_decode_facet(v) {
                Err(e) => Err(e),
                Ok(core) => Ok(FacetsV { core }),
            },
        },
        _ => Err(DecodeErrorV::NotObject),
    }
}

pub fn decode_facets(j: &Json) -> (r: Result<Facets, DecodeError>)
    ensures
        match r {
            Ok(f) => spec_decode_facets(*j) == Ok::<FacetsV, DecodeErrorV>(f.deep_view()),
            Err(e) => spec_decode_facets(*j) == Err::<FacetsV, DecodeErrorV>(e@),
        },
{
    match j {
        Json::Obj(pairs) => {
            let core = match req_member(pairs, "core") {
                Ok(v) => match decode_facet(v) {
                    Ok(f) => f,
                    Err(e) => {
                        return Err(e);
                    },
                },
                Err(e) => {
                    return Err(e);
                },
            };
            Ok(Facets { core })
        },
        _ => Err(DecodeError::NotObject),
    }
}

pub open spec fn spec_decode_license(j: Json) -> Result<LicenseV, DecodeErrorV> {
    match j {
        Json::Obj(pairs) => {
            let m = pairs@;
            match req_field(m, "declared"@) {
                Err(e) => Err(e),
                Ok(v1) => match spec_decode_string(v1) {
                    Err(e) => Err(e),
                    Ok(declared) => match req_field(m, "facets"@) {
                        Err(e) => Err(e),
                        Ok(v2) => match spec_decode_facets(v2) {
                            Err(e) => Err(e),
                            Ok(facets) => match req_field(m, "toolScore"@) {
                                Err(e) => Err(e),
                                Ok(v3) => match spec_decode_license_score(v3) {
                                    Err(e) => Err(e),
                                    Ok(tool_score) => match req_field(m, "score"@) {
                                        Err(e) => Err(e),
                                        Ok(v4) => match spec_decode_license_score(v4) {
                                            Err(e) => Err(e),
                                            Ok(score) => Ok(
                                                LicenseV { declared, facets, tool_score, score },
                                            ),
                                        },
                                    },
                                },
                            },
                        },
                    },
                },
            }
        },
        _ => Err(DecodeErrorV::NotObject),
    }
}

pub fn decode_license(j: &Json) -> (r: Result<License, DecodeError>)
    ensures
        match r {
            Ok(l) => spec_decode_license(*j) == Ok::<LicenseV, DecodeErrorV>(l.deep_view()),
            Err(e) => spec_decode_license(*j) == Err::<LicenseV, DecodeErrorV>(e@),
        },
{
    match j {
        Json::Obj(pairs) => {
            let declared = match req_string(pairs, "declared") {
                Ok(s) => s,
                Err(e) => {
                    return Err(e);
                },
            };
            let facets = match req_member(pairs, "facets") {
                Ok(v) => match decode_facets(v) {
                    Ok(f) => f,
                    Err(e) => {
                        return Err(e);
                    },
                },
                Err(e) => {
                    return Err(e);
                },
            };
            let tool_score = match req_member(pairs, "toolScore") {
                Ok(v) => match decode_license_score(v) {
                    Ok(s) => s,
                    Err(e) => {
                        return Err(e);
                    },
                },
                Err(e) => {
                    return Err(e);
                },
            };
            let score = match req_member(pairs, "score") {
                Ok(v) => match decode_license_score(v) {
                    Ok(s) => s,
                    Err(e) => {
                        return Err(e);
                    },
                },
                Err(e) => {
                    return Err(e);
                },
            };
            Ok(License { declared, facets, tool_score, score })
        },
        _ => Err(DecodeError::NotObject),
    }
}

/// The `urls` object: every member value must be a string; members are kept
/// in payload order.
pub open spec fn spec_decode_urls(j: Json) -> Result<Seq<(Seq<char>, Seq<char>)>, DecodeErrorV> {
    match j {
        Json::Obj(pairs) => if forall|i: int|
            0 <= i < pairs@.len() ==> #[trigger] pairs@[i].1 is Str {
            Ok(Seq::new(pairs@.len(), |i: int| (pairs@[i].0@, pairs@[i].1->Str_0@)))
        } else {
            Err(DecodeErrorV::NotString)
        },
        _ => Err(DecodeErrorV::NotObject),
    }
}

pub fn decode_urls(j: &Json) -> (r: Result<Vec<(String, String)>, DecodeError>)
    ensures
        match r {
            Ok(v) => spec_decode_urls(*j) == Ok::<Seq<(Seq<char>, Seq<char>)>, DecodeErrorV>(
                v.deep_view(),
            ),
            Err(e) => spec_decode_urls(*j) == Err::<Seq<(Seq<char>, Seq<char>)>, DecodeErrorV>(e@),
        },
{
    match j {
        Json::Obj(pairs) => {
            let mut out: Vec<(String, String)> = Vec::new();
            let mut i: usize = 0;
            while i < pairs.len()
                invariant
                    *j == Json::Obj(*pairs),
                    i <= pairs.len(),
                    forall|k: int| 0 <= k < i ==> #[trigger] pairs@[k].1 is Str,
                    out.deep_view().len() == i,
                    forall|k: int|
                        0 <= k < i ==> #[trigger] out.deep_view()[k] == (
                            pairs@[k].0@,
                            pairs@[k].1->Str_0@,
                        ),
                decreases pairs.len() - i,
            {
                match &pairs[i].1 {
                    Json::Str(s) => {
                        let ghost old_out = out.deep_view();
                        let key = pairs[i].0.clone();
                        out.push((key, s.clone()));
                        proof {
                            assert(out.deep_view() =~= old_out.push((pairs@[i as int].0@, s@)));
                        }
                    },
                    _ => {
                        return Err(DecodeError::NotString);
                    },
                }
                i = i + 1;
            }
            proof {
                assert(out.deep_view() =~= Seq::new(
                    pairs@.len(),
                    |i: int| (pairs@[i].0@, pairs@[i].1->Str_0@),
                ));
            }
            Ok(out)
        },
        _ => Err(DecodeError::NotObject),
    }
}

pub open spec fn spec_decode_file(j: Json) -> Result<FileV, DecodeErrorV> {
    match j {
        Json::Obj(pairs) => {
            let m = pairs@;
            match req_field(m, "path"@) {
                Err(e) => Err(e),
                Ok(v1) => match spec_decode_string(v1) {
                    Err(e) => Err(e),
                    Ok(path) => match opt_field(m, "hashes"@) {
                        Err(e) => Err(e),
                        Ok(ho) => {
                            let hashes_r = match ho {
                                None => Ok(None),
                                Some(Json::Null) => Ok(None),
                                Some(hv) => match spec_decode_hashes(hv) {
                                    Err(e) => Err(e),
                                    Ok(h) => Ok(Some(h)),
                                },
                            };
                            match hashes_r {
                                Err(e) => Err(e),
                                Ok(hashes) => match opt_field(m, "license"@) {
                                    Err(e) => Err(e),
                                    Ok(lo) => {
                                        let license_r = match lo {
                                            None => Ok(None),
                                            Some(lv) => spec_decode_opt_string(lv),
                                        };
                                        match license_r {
                                            Err(e) => Err(e),
                                            Ok(license) => match opt_field(m, "attributions"@) {
                                                Err(e) => Err(e),
                                                Ok(ao) => {
                                                    let attr_r = match ao {
                                                        None => Ok(Seq::<Seq<char>>::empty()),
                                                        Some(av) => spec_decode_strings(av),
                                                    };
                                                    match attr_r {
                                                        Err(e) => Err(e),
                                                        Ok(attributions) => match opt_field(
                                                            m,
                                                            "natures"@,
                                                        ) {
                                                            Err(e) => Err(e),
                                                            Ok(no) => {
                                                                let nat_r = match no {
                                                                    None => Ok(
                                                                        Seq::<Seq<char>>::empty(),
                                                                    ),
                                                                    Some(nv) => spec_decode_strings(
                                                                        nv,
                                                                    ),
                                                                };
                                                                match nat_r {
                                                                    Err(e) => Err(e),
                                                                    Ok(natures) => match opt_field(
                                                                        m,
                                                                        "token"@,
                                                                    ) {
                                                                        Err(e) => Err(e),
                                                                        Ok(to) => {
                                                                            let tok_r = match to {
                                                                                None => Ok(None),
                                                                                Some(tv) => spec_decode_opt_string(
                                                                                    tv,
                                                                                ),
                                                                            };
                                                                            match tok_r {
                                                                                Err(e) => Err(e),
                                                                                Ok(token) => Ok(
                                                                                    FileV {
                                                                                        path,
                                                                                        hashes,
                                                                                        license,
                                                                                        attributions,
                                                                                        natures,
                                                                                        token,
                                                                                    },
                                                                                ),
                                                                            }
                                                                        },
                                                                    },
                                                                }
                                                            },
                                                        },
                                                    }
                                                },
                                            },
                                        }
                                    },
                                },
                            }
                        },
                    },
                },
            }
        },
        _ => Err(DecodeErrorV::NotObject),
    }
}

pub fn decode_file(j: &Json) -> (r: Result<File, DecodeError>)
    ensures
        match r {
            Ok(f) => spec_decode_file(*j) == Ok::<FileV, DecodeErrorV>(f.deep_view()),
            Err(e) => spec_decode_file(*j) == Err::<FileV, DecodeErrorV>(e@),
        },
{
    match j {
        Json::Obj(pairs) => {
            let path = match req_string(pairs, "path") {
                Ok(s) => s,
                Err(e) => {
                    return Err(e);
                },
            };
            let hashes = match opt_member(pairs, "hashes") {
                Ok(None) => None,
                Ok(Some(v)) => match v {
                    Json::Null => None,
                    _ => match decode_hashes(v) {
                        Ok(h) => Some(h),
                        Err(e) => {
                            return Err(e);
                        },
                    },
                },
                Err(e) => {
                    return Err(e);
                },
            };
            let license = match opt_member(pairs, "license") {
                Ok(None) => None,
                Ok(Some(v)) => match decode_opt_string(v) {
                    Ok(s) => s,
                    Err(e) => {
                        return Err(e);
                    },
                },
                Err(e) => {
                    return Err(e);
                },
            };
            let attributions = match opt_member(pairs, "attributions") {
                Ok(None) => {
                    let none: Vec<String> = Vec::new();
                    proof {
                        assert(none.deep_view() =~= Seq::<Seq<char>>::empty());
                    }
                    none
                },
                Ok(Some(v)) => match decode_strings(v) {
                    Ok(a) => a,
                    Err(e) => {
                        return Err(e);
                    },
                },
                Err(e) => {
                    return Err(e);
                },
            };
            let natures = match opt_member(pairs, "natures") {
                Ok(None) => {
                    let none: Vec<String> = Vec::new();
                    proof {
                        assert(none.deep_view() =~= Seq::<Seq<char>>::empty());
                    }
                    none
                },
                Ok(Some(v)) => match decode_strings(v) {
                    Ok(n) => n,
                    Err(e) => {
                        return Err(e);
                    },
                },
                Err(e) => {
                    return Err(e);
                },
            };
            let token = match opt_member(pairs, "token") {
                Ok(None) => None,
                Ok(Some(v)) => match decode_opt_string(v) {
                    Ok(t) => t,
                    Err(e) => {
                        return Err(e);
                    },
                },
                Err(e) => {
                    return Err(e);
                },
            };
            Ok(File { path, hashes, license, attributions, natures, token })
        },
        _ => Err(DecodeError::NotObject),
    }
}

/// Decode a sequence of file records, stopping at the first failure.
pub open spec fn spec_decode_file_seq(items: Seq<Json>) -> Result<Seq<FileV>, DecodeErrorV>
    decreases items.len(),
{
    if items.len() == 0 {
        Ok(Seq::empty())
    } else {
        match spec_decode_file(items[0]) {
            Err(e) => Err(e),
            Ok(f) => match spec_decode_file_seq(items.drop_first()) {
                Err(e) => Err(e),
                Ok(rest) => Ok(seq![f] + rest),
            },
        }
    }
}

pub open spec fn spec_decode_files(j: Json) -> Result<Seq<FileV>, DecodeErrorV> {
    match j {
        Json::Arr(items) => spec_decode_file_seq(items@),
        _ => Err(DecodeErrorV::NotArray),
    }
}

pub fn decode_files(j: &Json) -> (r: Result<Vec<File>, DecodeError>)
    ensures
        match r {
            Ok(v) => spec_decode_files(*j) == Ok::<Seq<FileV>, DecodeErrorV>(v.deep_view()),
            Err(e) => spec_decode_files(*j) == Err::<Seq<FileV>, DecodeErrorV>(e@),
        },
{
    match j {
        Json::Arr(items) => {
            let mut out: Vec<File> = Vec::new();
            let mut i: usize = 0;
            proof {
                assert(items@.skip(0) =~= items@);
                assert(out.deep_view() =~= Seq::<FileV>::empty());
            }
            while i < items.len()
                invariant
                    *j == Json::Arr(*items),
                    i <= items.len(),
                    out.deep_view().len() == i,
                    spec_decode_file_seq(items@) == (match spec_decode_file_seq(
                        items@.skip(i as int),
                    ) {
                        Err(e) => Err::<Seq<FileV>, DecodeErrorV>(e),
                        Ok(rest) => Ok::<Seq<FileV>, DecodeErrorV>(out.deep_view() + rest),
                    }),
                decreases items.len() - i,
            {
                proof {
                    assert(items@.skip(i as int)[0] == items@[i as int]);
                    assert(items@.skip(i as int).drop_first() =~= items@.skip(i as int + 1));
                }
                match decode_file(&items[i]) {
                    Ok(f) => {
                        let ghost old_out = out.deep_view();
                        out.push(f);
                        proof {
                            assert(out.deep_view() =~= old_out.push(f.deep_view()));
                            if spec_decode_file_seq(items@.skip(i as int + 1)) is Ok {
                                let rest = spec_decode_file_seq(items@.skip(i as int + 1))->Ok_0;
                                assert(old_out + (seq![f.deep_view()] + rest) =~= out.deep_view()
                                    + rest);
                            }
                        }
                    },
                    Err(e) => {
                        return Err(e);
                    },
                }
                i = i + 1;
            }
            proof {
                assert(items@.skip(items@.len() as int) =~= Seq::<Json>::empty());
                assert(out.deep_view() + Seq::<FileV>::empty() =~= out.deep_view());
            }
            Ok(out)
        },
        _ => Err(DecodeError::NotArray),
    }
}


pub open spec fn spec_decode_description(j: Json) -> Result<DescriptionV, DecodeErrorV> {
    match j {
        Json::Obj(pairs) => {
            let m = pairs@;
            match req_field(m, "releaseDate"@) {
                Err(e) => Err(e),
                Ok(v1) => match spec_decode_string(v1) {
                    Err(e) => Err(e),
                    Ok(release_date) => if !naive_date_ok(release_date) {
                        Err(DecodeErrorV::InvalidDate(release_date))
                    } else {
                        match opt_field(m, "sourceLocation"@) {
                            Err(e) => Err(e),
                            Ok(so) => {
                                let sl_r = match so {
                                    None => Ok(None),
                                    Some(Json::Null) => Ok(None),
                                    Some(sv) => match spec_decode_source_location(sv) {
                                        Err(e) => Err(e),
                                        Ok(sl) => Ok(Some(sl)),
                                    },
                                };
                                match sl_r {
                                    Err(e) => Err(e),
                                    Ok(source_location) => match opt_field(m, "projectWebsite"@) {
                                        Err(e) => Err(e),
                                        Ok(po) => {
                                            let pw_r = match po {
                                                None => Ok(None),
                                                Some(pv) => spec_decode_opt_string(pv),
                                            };
                                            match pw_r {
                                                Err(e) => Err(e),
                                                Ok(project_website) => match req_field(m, "urls"@) {
                                                    Err(e) => Err(e),
                                                    Ok(uv) => match spec_decode_urls(uv) {
                                                        Err(e) => Err(e),
                                                        Ok(urls) => match req_field(m, "hashes"@) {
                                                            Err(e) => Err(e),
                                                            Ok(hv) => match spec_decode_hashes(hv) {
                                                                Err(e) => Err(e),
                                                                Ok(hashes) => match req_field(
                                                                    m,
                                                                    "files"@,
                                                                ) {
                                                                    Err(e) => Err(e),
                                                                    Ok(fv) => match spec_decode_u32(
                                                                        fv,
                                                                    ) {
                                                                        Err(e) => Err(e),
                                                                        Ok(files) => match req_field(
                                                                            m,
                                                                            "tools"@,
                                                                        ) {
                                                                            Err(e) => Err(e),
                                                                            Ok(tv) => match spec_decode_strings(
                                                                                tv,
                                                                            ) {
                                                                                Err(e) => Err(e),
                                                                                Ok(tools) => match req_field(
                                                                                    m,
                                                                                    "toolScore"@,
                                                                                ) {
                                                                                    Err(e) => Err(
                                                                                        e,
                                                                                    ),
                                                                                    Ok(tsv) => match spec_decode_scores(
                                                                                        tsv,
                                                                                    ) {
                                                                                        Err(e) => Err(
                                                                                            e,
                                                                                        ),
                                                                                        Ok(
                                                                                            tool_score,
                                                                                        ) => match req_field(
                                                                                            m,
                                                                                            "score"@,
                                                                                        ) {
                                                                                            Err(
                                                                                                e,
                                                                                            ) => Err(
                                                                                                e,
                                                                                            ),
                                                                                            Ok(
                                                                                                scv,
                                                                                            ) => match spec_decode_scores(
                                                                                                scv,
                                                                                            ) {
                                                                                                Err(
                                                                                                    e,
                                                                                                ) => Err(
                                                                                                    e,
                                                                                                ),
                                                                                                Ok(
                                                                                                    score,
                                                                                                ) => Ok(
                                                                                                    DescriptionV {
                                                                                                        release_date,
                                                                                                        source_location,
                                                                                                        project_website,
                                                                                                        urls,
                                                                                                        hashes,
                                                                                                        files,
                                                                                                        tools,
                                                                                                        tool_score,
                                                                                                        score,
                                                                                                    },
                                                                                                ),
                                                                                            },
                                                                                        },
                                                                                    },
                                                                                },
                                                                            },
                                                                        },
                                                                    },
                                                                },
                                                            },
                                                        },
                                                    },
                                                },
                                            }
                                        },
                                    },
                                }
                            },
                        }
                    },
                },
            }
        },
        _ => Err(DecodeErrorV::NotObject),
    }
}

pub fn decode_description(j: &Json) -> (r: Result<Description, DecodeError>)
    ensures
        match r {
            Ok(d) => spec_decode_description(*j) == Ok::<DescriptionV, DecodeErrorV>(d.deep_view()),
            Err(e) => spec_decode_description(*j) == Err::<DescriptionV, DecodeErrorV>(e@),
        },
{
    match j {
        Json::Obj(pairs) => {
            let release_date = match req_string(pairs, "releaseDate") {
                Ok(s) => s,
                Err(e) => {
                    return Err(e);
                },
            };
            if !naive_date_valid(release_date.as_str()) {
                return Err(DecodeError::InvalidDate(release_date));
            }
            let source_location = match opt_member(pairs, "sourceLocation") {
                Ok(None) => None,
                Ok(Some(v)) => match v {
                    Json::Null => None,
                    _ => match decode_source_location(v) {
                        Ok(sl) => Some(sl),
                        Err(e) => {
                            return Err(e);
                        },
                    },
                },
                Err(e) => {
                    return Err(e);
                },
            };
            let project_website = match opt_member(pairs, "projectWebsite") {
                Ok(None) => None,
                Ok(Some(v)) => match decode_opt_string(v) {
                    Ok(s) => s,
                    Err(e) => {
                        return Err(e);
                    },
                },
                Err(e) => {
                    return Err(e);
                },
            };
            let urls = match req_member(pairs, "urls") {
                Ok(v) => match decode_urls(v) {
                    Ok(u) => u,
                    Err(e) => {
                        return Err(e);
                    },
                },
                Err(e) => {
                    return Err(e);
                },
            };
            let hashes = match req_member(pairs, "hashes") {
                Ok(v) => match decode_hashes(v) {
                    Ok(h) => h,
                    Err(e) => {
                        return Err(e);
                    },
                },
                Err(e) => {
                    return Err(e);
                },
            };
            let files = match req_u32(pairs, "files") {
                Ok(n) => n,
                Err(e) => {
                    return Err(e);
                },
            };
            let tools = match req_member(pairs, "tools") {
                Ok(v) => match decode_strings(v) {
                    Ok(t) => t,
                    Err(e) => {
                        return Err(e);
                    },
                },
                Err(e) => {
                    return Err(e);
                },
            };
            let tool_score = match req_member(pairs, "toolScore") {
                Ok(v) => match decode_scores(v) {
                    Ok(s) => s,
                    Err(e) => {
                        return Err(e);
                    },
                },
                Err(e) => {
                    return Err(e);
                },
            };
            let score = match req_member(pairs, "score") {
                Ok(v) => match decode_scores(v) {
                    Ok(s) => s,
                    Err(e) => {
                        return Err(e);
                    },
                },
                Err(e) => {
                    return Err(e);
                },
            };
            Ok(
                Description {
                    release_date,
                    source_location,
                    project_website,
                    urls,
                    hashes,
                    files,
                    tools,
                    tool_score,
                    score,
                },
            )
        },
        _ => Err(DecodeError::NotObject),
    }
}

pub open spec fn spec_decode_def_coords(j: Json) -> Result<DefCoordsV, DecodeErrorV> {
    match j {
        Json::Obj(pairs) => {
            let m = pairs@;
            match req_field(m, "type"@) {
                Err(e) => Err(e),
                Ok(v1) => match spec_decode_string(v1) {
                    Err(e) => Err(e),
                    Ok(st) => match spec_parse_shape(st) {
                        None => Err(DecodeErrorV::UnknownShape(st)),
                        Some(shape) => match req_field(m, "provider"@) {
                            Err(e) => Err(e),
                            Ok(v2) => match spec_decode_string(v2) {
                                Err(e) => Err(e),
                                Ok(pt) => match spec_parse_provider(pt) {
                                    None => Err(DecodeErrorV::UnknownProvider(pt)),
                                    Some(provider) => match req_field(m, "name"@) {
                                        Err(e) => Err(e),
                                        Ok(v3) => match spec_decode_string(v3) {
                                            Err(e) => Err(e),
                                            Ok(name) => match req_field(m, "revision"@) {
                                                Err(e) => Err(e),
                                                Ok(v4) => match spec_decode_string(v4) {
                                                    Err(e) => Err(e),
                                                    Ok(rt) => Ok(
                                                        DefCoordsV {
                                                            shape,
                                                            provider,
                                                            name,
                                                            revision: spec_parse_version(rt),
                                                        },
                                                    ),
                                                },
                                            },
                                        },
                                    },
                                },
                            },
                        },
                    },
                },
            }
        },
        _ => Err(DecodeErrorV::NotObject),
    }
}

pub fn decode_def_coords(j: &Json) -> (r: Result<DefCoords, DecodeError>)
    ensures
        match r {
            Ok(c) => spec_decode_def_coords(*j) == Ok::<DefCoordsV, DecodeErrorV>(c.deep_view()),
            Err(e) => spec_decode_def_coords(*j) == Err::<DefCoordsV, DecodeErrorV>(e@),
        },
{
    match j {
        Json::Obj(pairs) => {
            let shape = match req_string(pairs, "type") {
                Ok(s) => match Shape::from_str(s.as_str()) {
                    Some(sh) => sh,
                    None => {
                        return Err(DecodeError::UnknownShape(s));
                    },
                },
                Err(e) => {
                    return Err(e);
                },
            };
            let provider = match req_string(pairs, "provider") {
                Ok(s) => match Provider::from_str(s.as_str()) {
                    Some(p) => p,
                    None => {
                        return Err(DecodeError::UnknownProvider(s));
                    },
                },
                Err(e) => {
                    return Err(e);
                },
            };
            let name = match req_string(pairs, "name") {
                Ok(s) => s,
                Err(e) => {
                    return Err(e);
                },
            };
            let revision = match req_string(pairs, "revision") {
                Ok(s) => CoordVersion::from_str(s.as_str()),
                Err(e) => {
                    return Err(e);
                },
            };
            Ok(DefCoords { shape, provider, name, revision })
        },
        _ => Err(DecodeError::NotObject),
    }
}

/// Display text of the echoed coordinates: `shape/provider/name/revision`.
pub open spec fn def_coords_text(d: DefCoordsV) -> Seq<char> {
    shape_text(d.shape) + seq!['/'] + provider_text(d.provider) + seq!['/'] + d.name + seq!['/']
        + version_text(d.revision)
}

impl DefCoords {
    /// Canonical display text, `shape/provider/name/revision`.
    pub fn to_text(&self) -> (r: String)
        ensures
            r@ == def_coords_text(self.deep_view()),
    {
        let mut s = self.shape.as_str().to_owned();
        s.append("/");
        s.append(self.provider.as_str());
        s.append("/");
        s.append(self.name.as_str());
        s.append("/");
        let vt = self.revision.to_text();
        s.append(vt.as_str());
        proof {
            reveal_strlit("/");
            assert(s@ =~= def_coords_text(self.deep_view()));
        }
        s
    }
}

/// Decode one definition object, with the tolerant policy for `described`
/// and `licensed`: the key must be present, but a value that fails
/// structural validation becomes `None`. `files` defaults to the empty
/// sequence and `scores` to the zero record when the key is absent. A second
/// occurrence of any recognized key is fatal; unrecognized keys are ignored.
pub open spec fn spec_decode_definition(j: Json) -> Result<DefinitionV, DecodeErrorV> {
    match j {
        Json::Obj(pairs) => {
            let m = pairs@;
            match req_field(m, "coordinates"@) {
                Err(e) => Err(e),
                Ok(cv) => match spec_decode_def_coords(cv) {
                    Err(e) => Err(e),
                    Ok(coordinates) => match req_field(m, "described"@) {
                        Err(e) => Err(e),
                        Ok(dv) => {
                            let described = match spec_decode_description(dv) {
                                Ok(d) => Some(d),
                                Err(_) => None,
                            };
                            match req_field(m, "licensed"@) {
                                Err(e) => Err(e),
                                Ok(lv) => {
                                    let licensed = match spec_decode_license(lv) {
                                        Ok(l) => Some(l),
                                        Err(_) => None,
                                    };
                                    match opt_field(m, "files"@) {
                                        Err(e) => Err(e),
                                        Ok(fo) => {
                                            let files_r = match fo {
                                                None => Ok(Seq::<FileV>::empty()),
                                                Some(fv) => spec_decode_files(fv),
                                            };
                                            match files_r {
                                                Err(e) => Err(e),
                                                Ok(files) => match opt_field(m, "scores"@) {
                                                    Err(e) => Err(e),
                                                    Ok(so) => {
                                                        let scores_r = match so {
                                                            None => Ok(
                                                                TopLevelScore {
                                                                    effective: 0,
                                                                    tool: 0,
                                                                },
                                                            ),
                                                            Some(sv) => spec_decode_top_level_score(
                                                                sv,
                                                            ),
                                                        };
                                                        match scores_r {
                                                            Err(e) => Err(e),
                                                            Ok(scores) => Ok(
                                                                DefinitionV {
                                                                    coordinates,
                                                                    described,
                                                                    licensed,
                                                                    files,
                                                                    scores,
                                                                },
                                                            ),
                                                        }
                                                    },
                                                },
                                            }
                                        },
                                    }
                                },
                            }
                        },
                    },
                },
            }
        },
        _ => Err(DecodeErrorV::NotObject),
    }
}

impl Definition {
    /// Decode one definition object from a parsed JSON value.
    pub fn try_from_json(j: &Json) -> (r: Result<Definition, DecodeError>)
        ensures
            match r {
                Ok(d) => spec_decode_definition(*j) == Ok::<DefinitionV, DecodeErrorV>(
                    d.deep_view(),
                ),
                Err(e) => spec_decode_definition(*j) == Err::<DefinitionV, DecodeErrorV>(e@),
            },
    {
        match j {
            Json::Obj(pairs) => {
                let coordinates = match req_member(pairs, "coordinates") {
                    Ok(v) => match decode_def_coords(v) {
                        Ok(c) => c,
                        Err(e) => {
                            return Err(e);
                        },
                    },
                    Err(e) => {
                        return Err(e);
                    },
                };
                let described = match req_member(pairs, "described") {
                    Ok(v) => match decode_description(v) {
                        Ok(d) => Some(d),
                        Err(_) => None,
                    },
                    Err(e) => {
                        return Err(e);
                    },
                };
                let licensed = match req_member(pairs, "licensed") {
                    Ok(v) => match decode_license(v) {
                        Ok(l) => Some(l),
                        Err(_) => None,
                    },
                    Err(e) => {
                        return Err(e);
                    },
                };
                let files = match opt_member(pairs, "files") {
                    Ok(None) => {
                        let none: Vec<File> = Vec::new();
                        proof {
                            assert(none.deep_view() =~= Seq::<FileV>::empty());
                        }
                        none
                    },
                    Ok(Some(v)) => match decode_files(v) {
                        Ok(f) => f,
                        Err(e) => {
                            return Err(e);
                        },
                    },
                    Err(e) => {
                        return Err(e);
                    },
                };
                let scores = match opt_member(pairs, "scores") {
                    Ok(None) => TopLevelScore { effective: 0, tool: 0 },
                    Ok(Some(v)) => match decode_top_level_score(v) {
                        Ok(s) => s,
                        Err(e) => {
                            return Err(e);
                        },
                    },
                    Err(e) => {
                        return Err(e);
                    },
                };
                Ok(Definition { coordinates, described, licensed, files, scores })
            },
            _ => Err(DecodeError::NotObject),
        }
    }
}

/// Decode the values of a batch response's members, in payload order,
/// stopping at the first failure.
pub open spec fn spec_decode_def_seq(m: Seq<(String, Json)>) -> Result<Seq<DefinitionV>, DecodeErrorV>
    decreases m.len(),
{
    if m.len() == 0 {
        Ok(Seq::empty())
    } else {
        match spec_decode_definition(m[0].1) {
            Err(e) => Err(e),
            Ok(d) => match spec_decode_def_seq(m.drop_first()) {
                Err(e) => Err(e),
                Ok(rest) => Ok(seq![d] + rest),
            },
        }
    }
}

/// A batch response: a mapping from coordinate text to definition object.
pub open spec fn spec_decode_get_response(j: Json) -> Result<GetResponseV, DecodeErrorV> {
    match j {
        Json::Obj(pairs) => match spec_decode_def_seq(pairs@) {
            Err(e) => Err(e),
            Ok(definitions) => Ok(GetResponseV { definitions }),
        },
        _ => Err(DecodeErrorV::NotObject),
    }
}

impl GetResponse {
    /// Decode a batch response from a parsed JSON value.
    pub fn try_from_json(j: &Json) -> (r: Result<GetResponse, DecodeError>)
        ensures
            match r {
                Ok(g) => spec_decode_get_response(*j) == Ok::<GetResponseV, DecodeErrorV>(
                    g.deep_view(),
                ),
                Err(e) => spec_decode_get_response(*j) == Err::<GetResponseV, DecodeErrorV>(e@),
            },
    {
        match j {
            Json::Obj(pairs) => {
                let mut out: Vec<Definition> = Vec::new();
                let mut i: usize = 0;
                proof {
                    assert(pairs@.skip(0) =~= pairs@);
                    assert(out.deep_view() =~= Seq::<DefinitionV>::empty());
                }
                while i < pairs.len()
                    invariant
                        *j == Json::Obj(*pairs),
                        i <= pairs.len(),
                        out.deep_view().len() == i,
                        spec_decode_def_seq(pairs@) == (match spec_decode_def_seq(
                            pairs@.skip(i as int),
                        ) {
                            Err(e) => Err::<Seq<DefinitionV>, DecodeErrorV>(e),
                            Ok(rest) => Ok::<Seq<DefinitionV>, DecodeErrorV>(
                                out.deep_view() + rest,
                            ),
                        }),
                    decreases pairs.len() - i,
                {
                    proof {
                        assert(pairs@.skip(i as int)[0] == pairs@[i as int]);
                        assert(pairs@.skip(i as int).drop_first() =~= pairs@.skip(i as int + 1));
                    }
                    match Definition::try_from_json(&pairs[i].1) {
                        Ok(d) => {
                            let ghost old_out = out.deep_view();
                            let ghost dv = d.deep_view();
                            out.push(d);
                            proof {
                                assert(out.deep_view() =~= old_out.push(dv));
                                if spec_decode_def_seq(pairs@.skip(i as int + 1)) is Ok {
                                    let rest = spec_decode_def_seq(
                                        pairs@.skip(i as int + 1),
                                    )->Ok_0;
                                    assert(old_out + (seq![dv] + rest) =~= out.deep_view() + rest);
                                }
                            }
                        },
                        Err(e) => {
                            return Err(e);
                        },
                    }
                    i = i + 1;
                }
                proof {
                    assert(pairs@.skip(pairs@.len() as int) =~= Seq::<(String, Json)>::empty());
                    assert(out.deep_view() + Seq::<DefinitionV>::empty() =~= out.deep_view());
                }
                Ok(GetResponse { definitions: out })
            },
            _ => Err(DecodeError::NotObject),
        }
    }

    /// Handle a definitions response: decode the payload only when the
    /// status code indicates success, and surface a status error otherwise
    /// (the service does not emit structured error bodies).
    pub fn try_from_parts(status: u16, body: &Json) -> (r: Result<GetResponse, crate::error::Error>)
        ensures
            crate::error::status_is_success(status) ==> match r {
                Ok(g) => spec_decode_get_response(*body) == Ok::<GetResponseV, DecodeErrorV>(
                    g.deep_view(),
                ),
                Err(e) => e@ matches crate::error::ErrorV::Json(de) && spec_decode_get_response(
                    *body,
                ) == Err::<GetResponseV, DecodeErrorV>(de),
            },
            !crate::error::status_is_success(status) ==> (r matches Err(e) && e@
                == crate::error::ErrorV::HttpStatus(status)),
    {
        if 200 <= status && status < 300 {
            match GetResponse::try_from_json(body) {
                Ok(g) => Ok(g),
                Err(e) => Err(crate::error::Error::Json(e)),
            }
        } else {
            Err(crate::error::Error::from_status(status))
        }
    }
}

// ---------------------------------------------------------------------------
// The tolerant-decode laws
// ---------------------------------------------------------------------------

/// When a definition object decodes successfully although the value of its
/// `described` key fails structural validation, the `described` field of the
/// result is absent.
pub proof fn lemma_described_invalid_tolerated(j: Json, d: DefinitionV)
    requires
        spec_decode_definition(j) == Ok::<DefinitionV, DecodeErrorV>(d),
        spec_decode_description(first_val(j->Obj_0@, "described"@)) is Err,
    ensures
        d.described is None,
{
}

/// A definition object without a `described` key never decodes: the key
/// itself is mandatory even though its value may be invalid.
pub proof fn lemma_described_missing_fatal(j: Json)
    requires
        j is Obj,
        key_count(j->Obj_0@, "described"@) == 0,
    ensures
        spec_decode_definition(j) is Err,
{
}

/// The same tolerance holds for `licensed`.
pub proof fn lemma_licensed_invalid_tolerated(j: Json, d: DefinitionV)
    requires
        spec_decode_definition(j) == Ok::<DefinitionV, DecodeErrorV>(d),
        spec_decode_license(first_val(j->Obj_0@, "licensed"@)) is Err,
    ensures
        d.licensed is None,
{
}

} // verus!
