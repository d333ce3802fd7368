//! Component coordinates: `shape/provider/namespace-or-dash/name/version`
//! with an optional `/pr/<number>` suffix, and the version value that prefers
//! strict semantic-version form but falls back to an opaque string.

use vstd::prelude::*;

use crate::text::{
    dec_digits, format_u32, join_with, lemma_join_split, lemma_parse_dec_digits,
    lemma_split_prepend, lemma_split_whole, parse_u32, parse_u32_spec, split_char, split_on,
    str_eq,
};

verus! {

/// The packaging-ecosystem kind of a component.
#[derive(Clone, Copy, PartialEq, Eq, Structural, Debug)]
pub enum Shape {
    /// A Rust crate.
    Crate,
    /// A git repository.
    Git,
}

/// The hosting registry or service of a component.
#[derive(Clone, Copy, PartialEq, Eq, Structural, Debug)]
pub enum Provider {
    /// The canonical crates.io registry for Rust crates.
    CratesIo,
    /// GitHub.
    Github,
}

pub open spec fn shape_text(sh: Shape) -> Seq<char> {
    match sh {
        Shape::Crate => "crate"@,
        Shape::Git => "git"@,
    }
}

pub open spec fn provider_text(p: Provider) -> Seq<char> {
    match p {
        Provider::CratesIo => "cratesio"@,
        Provider::Github => "github"@,
    }
}

pub open spec fn spec_parse_shape(s: Seq<char>) -> Option<Shape> {
    if s == "crate"@ {
        Some(Shape::Crate)
    } else if s == "git"@ {
        Some(Shape::Git)
    } else {
        None
    }
}

pub open spec fn spec_parse_provider(s: Seq<char>) -> Option<Provider> {
    if s == "cratesio"@ {
        Some(Provider::CratesIo)
    } else if s == "github"@ {
        Some(Provider::Github)
    } else {
        None
    }
}

impl Shape {
    /// Canonical lowercase identifier of the shape.
    pub fn as_str(self) -> (r: &'static str)
        ensures
            r@ == shape_text(self),
    {
        match self {
            Shape::Crate => "crate",
            Shape::Git => "git",
        }
    }

    /// Case-sensitive exact match against the canonical identifiers.
    pub fn from_str(s: &str) -> (r: Option<Shape>)
        ensures
            r == spec_parse_shape(s@),
    {
        if str_eq(s, "crate") {
            Some(Shape::Crate)
        } else if str_eq(s, "git") {
            Some(Shape::Git)
        } else {
            None
        }
    }
}

impl Provider {
    /// Canonical lowercase identifier of the provider.
    pub fn as_str(self) -> (r: &'static str)
        ensures
            r@ == provider_text(self),
    {
        match self {
            Provider::CratesIo => "cratesio",
            Provider::Github => "github",
        }
    }

    /// Case-sensitive exact match against the canonical identifiers.
    pub fn from_str(s: &str) -> (r: Option<Provider>)
        ensures
            r == spec_parse_provider(s@),
    {
        if str_eq(s, "cratesio") {
            Some(Provider::CratesIo)
        } else if str_eq(s, "github") {
            Some(Provider::Github)
        } else {
            None
        }
    }
}

/// Whether a text satisfies the strict semantic-version grammar that
/// `semver::Version::parse` accepts.
pub uninterp spec fn semver_ok(s: Seq<char>) -> bool;

/// Relies on `semver::Version::parse` and the `Display` impl of
/// `semver::Version`: parsing accepts exactly the strict grammar (no leading
/// zeros, no surrounding whitespace), the parsed value keeps the pre-release
/// and build identifiers verbatim, and displaying it therefore reproduces the
/// accepted input text exactly.
#[verifier::external_body]
fn semver_normalize(s: &str) -> (r: Option<String>)
    ensures
        r is Some <==> semver_ok(s@),
        r matches Some(t) ==> t@ == s@,
{
    match semver::Version::parse(s) {
        Ok(v) => Some(v.to_string()),
        Err(_) => None,
    }
}

/// A component revision: a strict semantic version in canonical text form,
/// or any other text kept verbatim.
#[derive(Clone, PartialEq, Debug)]
pub enum CoordVersion {
    /// Canonical text of a version that satisfies the semantic-version grammar.
    Semver(String),
    /// Any other revision text, kept byte-for-byte.
    Any(String),
}

/// Ghost model of a `CoordVersion`.
pub enum CoordVersionV {
    Semver(Seq<char>),
    Any(Seq<char>),
}

impl View for CoordVersion {
    type V = CoordVersionV;

    open spec fn view(&self) -> CoordVersionV {
        match self {
            CoordVersion::Semver(t) => CoordVersionV::Semver(t@),
            CoordVersion::Any(t) => CoordVersionV::Any(t@),
        }
    }
}

/// Version parsing never fails: semver text is kept in canonical form, any
/// other text is kept verbatim.
pub open spec fn spec_parse_version(s: Seq<char>) -> CoordVersionV {
    if semver_ok(s) {
        CoordVersionV::Semver(s)
    } else {
        CoordVersionV::Any(s)
    }
}

pub open spec fn version_text(v: CoordVersionV) -> Seq<char> {
    match v {
        CoordVersionV::Semver(t) => t,
        CoordVersionV::Any(t) => t,
    }
}

/// The variant tag agrees with the grammar; established by parsing.
pub open spec fn version_wf(v: CoordVersionV) -> bool {
    match v {
        CoordVersionV::Semver(t) => semver_ok(t),
        CoordVersionV::Any(t) => !semver_ok(t),
    }
}

impl CoordVersion {
    /// Parse a revision text; never fails.
    pub fn from_str(s: &str) -> (r: CoordVersion)
        ensures
            r@ == spec_parse_version(s@),
    {
        match semver_normalize(s) {
            Some(t) => CoordVersion::Semver(t),
            None => CoordVersion::Any(s.to_owned()),
        }
    }

    /// Display form: canonical semver text, or the opaque text verbatim.
    pub fn to_text(&self) -> (r: String)
        ensures
            r@ == version_text(self@),
    {
        match self {
            CoordVersion::Semver(t) => t.clone(),
            CoordVersion::Any(t) => t.clone(),
        }
    }
}

/// Parsing any revision text succeeds, and displaying the result reproduces
/// the input exactly: verbatim for opaque texts, and in canonical form (which
/// the strict grammar makes identical to the accepted text) for semantic
/// versions.
pub proof fn lemma_version_display_roundtrip(s: Seq<char>)
    ensures
        version_text(spec_parse_version(s)) == s,
        semver_ok(s) ==> spec_parse_version(s) is Semver,
        !semver_ok(s) ==> spec_parse_version(s) is Any,
{
}

/// Which positional segment of a coordinate text failed to parse.
#[derive(Clone, PartialEq, Debug)]
pub enum ParseError {
    /// The shape segment is not a known shape identifier.
    UnknownShape(String),
    /// The provider segment is missing.
    MissingProvider,
    /// The provider segment is not a known provider identifier.
    UnknownProvider(String),
    /// The namespace segment is missing.
    MissingNamespace,
    /// The name segment is missing.
    MissingName,
    /// The version segment is missing.
    MissingVersion,
    /// `pr` was present but no number followed.
    MissingPrNumber,
    /// The segment after `pr` is not a `u32` numeral.
    InvalidPrNumber(String),
    /// An unexpected segment follows the version or the PR number.
    UnexpectedSegment(String),
}

/// Ghost model of a `ParseError`.
pub enum ParseErrorV {
    UnknownShape(Seq<char>),
    MissingProvider,
    UnknownProvider(Seq<char>),
    MissingNamespace,
    MissingName,
    MissingVersion,
    MissingPrNumber,
    InvalidPrNumber(Seq<char>),
    UnexpectedSegment(Seq<char>),
}

impl View for ParseError {
    type V = ParseErrorV;

    open spec fn view(&self) -> ParseErrorV {
        match self {
            ParseError::UnknownShape(s) => ParseErrorV::UnknownShape(s@),
            ParseError::MissingProvider => ParseErrorV::MissingProvider,
            ParseError::UnknownProvider(s) => ParseErrorV::UnknownProvider(s@),
            ParseError::MissingNamespace => ParseErrorV::MissingNamespace,
            ParseError::MissingName => ParseErrorV::MissingName,
            ParseError::MissingVersion => ParseErrorV::MissingVersion,
            ParseError::MissingPrNumber => ParseErrorV::MissingPrNumber,
            ParseError::InvalidPrNumber(s) => ParseErrorV::InvalidPrNumber(s@),
            ParseError::UnexpectedSegment(s) => ParseErrorV::UnexpectedSegment(s@),
        }
    }
}

/// The message text of a parse error, with the offending input embedded.
pub open spec fn parse_error_message(e: ParseErrorV) -> Seq<char> {
    match e {
        ParseErrorV::UnknownShape(s) => "unknown shape '"@ + s + "'"@,
        ParseErrorV::MissingProvider => "missing provider"@,
        ParseErrorV::UnknownProvider(s) => "unknown provider '"@ + s + "'"@,
        ParseErrorV::MissingNamespace => "missing namespace"@,
        ParseErrorV::MissingName => "missing name"@,
        ParseErrorV::MissingVersion => "missing version"@,
        ParseErrorV::MissingPrNumber => "expected curation PR number"@,
        ParseErrorV::InvalidPrNumber(s) => "unable to parse PR number '"@ + s + "'"@,
        ParseErrorV::UnexpectedSegment(s) => "unknown trailing path component '"@ + s + "'"@,
    }
}

impl ParseError {
    /// Render the error as a message with the offending text embedded.
    pub fn message(&self) -> (r: String)
        ensures
            r@ == parse_error_message(self@),
    {
        match self {
            ParseError::UnknownShape(s) => {
                let mut m = "unknown shape '".to_owned();
                m.append(s.as_str());
                m.append("'");
                m
            },
            ParseError::MissingProvider => "missing provider".to_owned(),
            ParseError::UnknownProvider(s) => {
                let mut m = "unknown provider '".to_owned();
                m.append(s.as_str());
                m.append("'");
                m
            },
            ParseError::MissingNamespace => "missing namespace".to_owned(),
            ParseError::MissingName => "missing name".to_owned(),
            ParseError::MissingVersion => "missing version".to_owned(),
            ParseError::MissingPrNumber => "expected curation PR number".to_owned(),
            ParseError::InvalidPrNumber(s) => {
                let mut m = "unable to parse PR number '".to_owned();
                m.append(s.as_str());
                m.append("'");
                m
            },
            ParseError::UnexpectedSegment(s) => {
                let mut m = "unknown trailing path component '".to_owned();
                m.append(s.as_str());
                m.append("'");
                m
            },
        }
    }

    /// Lift the parse error into the common error taxonomy.
    pub fn into_error(self) -> (r: crate::error::Error)
        ensures
            r@ == crate::error::ErrorV::Other(parse_error_message(self@)),
    {
        crate::error::Error::Other(self.message())
    }
}

/// The coordinates of a specific component, e.g. `crate/cratesio/-/syn/1.0.14`.
#[derive(Clone, PartialEq, Debug)]
pub struct Coordinate {
    /// The shape/kind of the component.
    pub shape: Shape,
    /// The provider/location of the component.
    pub provider: Provider,
    /// Namespace of the component in the provider; rendered as `-` when absent.
    pub namespace: Option<String>,
    /// The name of the component.
    pub name: String,
    /// The revision of the component, provider dependent.
    pub version: CoordVersion,
    /// A curation PR to apply to existing harvested/curated data.
    pub curation_pr: Option<u32>,
}

/// Ghost model of a `Coordinate`.
pub struct CoordinateV {
    pub shape: Shape,
    pub provider: Provider,
    pub namespace: Option<Seq<char>>,
    pub name: Seq<char>,
    pub version: CoordVersionV,
    pub curation_pr: Option<u32>,
}

impl View for Coordinate {
    type V = CoordinateV;

    open spec fn view(&self) -> CoordinateV {
        CoordinateV {
            shape: self.shape,
            provider: self.provider,
            namespace: match self.namespace {
                Some(ref ns) => Some(ns@),
                None => None,
            },
            name: self.name@,
            version: self.version@,
            curation_pr: self.curation_pr,
        }
    }
}

pub open spec fn namespace_text(ns: Option<Seq<char>>) -> Seq<char> {
    match ns {
        Some(t) => t,
        None => "-"@,
    }
}

/// The slash-separated segments of a coordinate's canonical text.
pub open spec fn coord_segments(c: CoordinateV) -> Seq<Seq<char>> {
    let base = seq![
        shape_text(c.shape),
        provider_text(c.provider),
        namespace_text(c.namespace),
        c.name,
        version_text(c.version),
    ];
    match c.curation_pr {
        Some(n) => base + seq!["pr"@, dec_digits(n as nat)],
        None => base,
    }
}

/// Canonical text form of a coordinate.
pub open spec fn coord_text(c: CoordinateV) -> Seq<char> {
    join_with(coord_segments(c), '/')
}

/// Parsing a coordinate text, stated segment by segment over the split.
pub open spec fn spec_parse_coordinate(s: Seq<char>) -> Result<CoordinateV, ParseErrorV> {
    let segs = split_on(s, '/');
    if spec_parse_shape(segs[0]) is None {
        Err(ParseErrorV::UnknownShape(segs[0]))
    } else if segs.len() < 2 {
        Err(ParseErrorV::MissingProvider)
    } else if spec_parse_provider(segs[1]) is None {
        Err(ParseErrorV::UnknownProvider(segs[1]))
    } else if segs.len() < 3 {
        Err(ParseErrorV::MissingNamespace)
    } else if segs.len() < 4 {
        Err(ParseErrorV::MissingName)
    } else if segs.len() < 5 {
        Err(ParseErrorV::MissingVersion)
    } else if segs.len() == 5 {
        Ok(
            CoordinateV {
                shape: spec_parse_shape(segs[0])->Some_0,
                provider: spec_parse_provider(segs[1])->Some_0,
                namespace: if segs[2] == "-"@ {
                    None
                } else {
                    Some(segs[2])
                },
                name: segs[3],
                version: spec_parse_version(segs[4]),
                curation_pr: None,
            },
        )
    } else if segs[5] != "pr"@ {
        Err(ParseErrorV::UnexpectedSegment(segs[5]))
    } else if segs.len() < 7 {
        Err(ParseErrorV::MissingPrNumber)
    } else if segs.len() > 7 {
        Err(ParseErrorV::UnexpectedSegment(segs[7]))
    } else if parse_u32_spec(segs[6]) is None {
        Err(ParseErrorV::InvalidPrNumber(segs[6]))
    } else {
        Ok(
            CoordinateV {
                shape: spec_parse_shape(segs[0])->Some_0,
                provider: spec_parse_provider(segs[1])->Some_0,
                namespace: if segs[2] == "-"@ {
                    None
                } else {
                    Some(segs[2])
                },
                name: segs[3],
                version: spec_parse_version(segs[4]),
                curation_pr: Some(parse_u32_spec(segs[6])->Some_0),
            },
        )
    }
}

impl Coordinate {
    /// Parse the canonical slash-delimited text form.
    pub fn from_str(s: &str) -> (r: Result<Coordinate, ParseError>)
        ensures
            match r {
                Ok(c) => spec_parse_coordinate(s@) == Ok::<CoordinateV, ParseErrorV>(c@),
                Err(e) => spec_parse_coordinate(s@) == Err::<CoordinateV, ParseErrorV>(e@),
            },
    {
        let segs = split_char(s, '/');
        proof {
            assert(segs.deep_view().len() == segs@.len());
            assert(segs.deep_view()[0] == segs@[0]@);
        }
        let shape = match Shape::from_str(segs[0].as_str()) {
            Some(sh) => sh,
            None => {
                return Err(ParseError::UnknownShape(segs[0].clone()));
            },
        };
        if segs.len() < 2 {
            return Err(ParseError::MissingProvider);
        }
        proof {
            assert(segs.deep_view()[1] == segs@[1]@);
        }
        let provider = match Provider::from_str(segs[1].as_str()) {
            Some(p) => p,
            None => {
                return Err(ParseError::UnknownProvider(segs[1].clone()));
            },
        };
        if segs.len() < 3 {
            return Err(ParseError::MissingNamespace);
        }
        if segs.len() < 4 {
            return Err(ParseError::MissingName);
        }
        if segs.len() < 5 {
            return Err(ParseError::MissingVersion);
        }
        proof {
            assert(segs.deep_view()[2] == segs@[2]@);
            assert(segs.deep_view()[3] == segs@[3]@);
            assert(segs.deep_view()[4] == segs@[4]@);
        }
        let namespace = if str_eq(segs[2].as_str(), "-") {
            None
        } else {
            Some(segs[2].clone())
        };
        let name = segs[3].clone();
        let version = CoordVersion::from_str(segs[4].as_str());
        let curation_pr = if segs.len() == 5 {
            None
        } else {
            proof {
                assert(segs.deep_view()[5] == segs@[5]@);
            }
            if !str_eq(segs[5].as_str(), "pr") {
                return Err(ParseError::UnexpectedSegment(segs[5].clone()));
            }
            if segs.len() < 7 {
                return Err(ParseError::MissingPrNumber);
            }
            if segs.len() > 7 {
                proof {
                    assert(segs.deep_view()[7] == segs@[7]@);
                }
                return Err(ParseError::UnexpectedSegment(segs[7].clone()));
            }
            proof {
                assert(segs.deep_view()[6] == segs@[6]@);
            }
            match parse_u32(segs[6].as_str()) {
                Some(n) => Some(n),
                None => {
                    return Err(ParseError::InvalidPrNumber(segs[6].clone()));
                },
            }
        };
        Ok(Coordinate { shape, provider, namespace, name, version, curation_pr })
    }

    /// Canonical text form; the exact inverse of `from_str`.
    pub fn to_text(&self) -> (r: String)
        ensures
            r@ == coord_text(self@),
    {
        let mut s = self.shape.as_str().to_owned();
        s.append("/");
        s.append(self.provider.as_str());
        s.append("/");
        match &self.namespace {
            Some(ns) => s.append(ns.as_str()),
            None => s.append("-"),
        }
        s.append("/");
        s.append(self.name.as_str());
        s.append("/");
        let vt = self.version.to_text();
        s.append(vt.as_str());
        match self.curation_pr {
            Some(n) => {
                s.append("/pr/");
                let d = format_u32(n);
                s.append(d.as_str());
                proof {
                    reveal_strlit("/");
                    reveal_strlit("/pr/");
                    reveal_strlit("pr");
                    lemma_join_pr(self@);
                    assert(s@ =~= coord_text(self@));
                }
            },
            None => {
                proof {
                    reveal_strlit("/");
                    lemma_join_base(self@);
                    assert(s@ =~= coord_text(self@));
                }
            },
        }
        s
    }
}

/// Unfold `coord_text` for a coordinate without a curation PR.
#[verifier::rlimit(100)]
#[verifier::spinoff_prover]
proof fn lemma_join_base(c: CoordinateV)
    requires
        c.curation_pr is None,
    ensures
        coord_text(c) == shape_text(c.shape) + seq!['/'] + provider_text(c.provider) + seq!['/']
            + namespace_text(c.namespace) + seq!['/'] + c.name + seq!['/'] + version_text(
            c.version,
        ),
{
    reveal_with_fuel(join_with, 6);
    let segs = coord_segments(c);
    assert(segs.drop_first() =~= seq![
        provider_text(c.provider),
        namespace_text(c.namespace),
        c.name,
        version_text(c.version),
    ]);
    assert(segs.drop_first().drop_first() =~= seq![
        namespace_text(c.namespace),
        c.name,
        version_text(c.version),
    ]);
    assert(segs.drop_first().drop_first().drop_first() =~= seq![c.name, version_text(c.version)]);
    assert(segs.drop_first().drop_first().drop_first().drop_first() =~= seq![
        version_text(c.version),
    ]);
    assert(coord_text(c) =~= shape_text(c.shape) + seq!['/'] + provider_text(c.provider)
        + seq!['/'] + namespace_text(c.namespace) + seq!['/'] + c.name + seq!['/'] + version_text(
        c.version,
    ));
}

/// Unfold `coord_text` for a coordinate with a curation PR.
#[verifier::rlimit(100)]
#[verifier::spinoff_prover]
proof fn lemma_join_pr(c: CoordinateV)
    requires
        c.curation_pr is Some,
    ensures
        coord_text(c) == shape_text(c.shape) + seq!['/'] + provider_text(c.provider) + seq!['/']
            + namespace_text(c.namespace) + seq!['/'] + c.name + seq!['/'] + version_text(c.version)
            + seq!['/'] + "pr"@ + seq!['/'] + dec_digits(c.curation_pr->0 as nat),
{
    reveal_with_fuel(join_with, 8);
    let segs = coord_segments(c);
    let d = dec_digits(c.curation_pr->0 as nat);
    let s1 = segs.drop_first();
    let s2 = s1.drop_first();
    let s3 = s2.drop_first();
    let s4 = s3.drop_first();
    let s5 = s4.drop_first();
    let s6 = s5.drop_first();
    assert(s1 =~= seq![
        provider_text(c.provider),
        namespace_text(c.namespace),
        c.name,
        version_text(c.version),
        "pr"@,
        d,
    ]);
    assert(s2 =~= seq![namespace_text(c.namespace), c.name, version_text(c.version), "pr"@, d]);
    assert(s3 =~= seq![c.name, version_text(c.version), "pr"@, d]);
    assert(s4 =~= seq![version_text(c.version), "pr"@, d]);
    assert(s5 =~= seq!["pr"@, d]);
    assert(s6 =~= seq![d]);
    assert(coord_text(c) =~= shape_text(c.shape) + seq!['/'] + provider_text(c.provider)
        + seq!['/'] + namespace_text(c.namespace) + seq!['/'] + c.name + seq!['/'] + version_text(
        c.version,
    ) + seq!['/'] + "pr"@ + seq!['/'] + d);
}


pub open spec fn slash_free(t: Seq<char>) -> bool {
    forall|k: int| 0 <= k < t.len() ==> t[k] != '/'
}

/// Validity of a constructed coordinate: the free-text parts contain no
/// segment separator, a present namespace is not the reserved `-` marker,
/// and the version variant agrees with the semantic-version grammar (as
/// `CoordVersion::from_str` establishes).
pub open spec fn coord_wf(c: CoordinateV) -> bool {
    &&& (c.namespace matches Some(t) ==> slash_free(t) && t != "-"@)
    &&& slash_free(c.name)
    &&& slash_free(version_text(c.version))
    &&& version_wf(c.version)
}

/// Digits contain no `/`.
proof fn lemma_digits_slash_free(n: nat)
    ensures
        slash_free(dec_digits(n)),
{
    crate::text::lemma_dec_digits(n);
    assert forall|k: int| 0 <= k < dec_digits(n).len() implies dec_digits(n)[k] != '/' by {
        assert(crate::text::is_digit(dec_digits(n)[k]));
    }
}

/// Round trip, first direction: formatting a parsed coordinate text
/// reproduces it exactly, provided a PR-number segment (if any) is written
/// in canonical decimal form (`u32` parsing also accepts a redundant leading
/// `+` or leading zeros, which formatting does not reproduce).
pub proof fn lemma_parse_then_format(s: Seq<char>)
    requires
        spec_parse_coordinate(s) is Ok,
        split_on(s, '/').len() == 7 ==> split_on(s, '/')[6] == dec_digits(
            parse_u32_spec(split_on(s, '/')[6])->Some_0 as nat,
        ),
    ensures
        coord_text(spec_parse_coordinate(s)->Ok_0) == s,
{
    let segs = split_on(s, '/');
    let c = spec_parse_coordinate(s)->Ok_0;
    assert(segs.len() == 5 || segs.len() == 7);
    assert(shape_text(c.shape) == segs[0]) by {
        if segs[0] == "crate"@ {
        } else {
            assert(segs[0] == "git"@);
        }
    }
    assert(provider_text(c.provider) == segs[1]) by {
        if segs[1] == "cratesio"@ {
        } else {
            assert(segs[1] == "github"@);
        }
    }
    assert(namespace_text(c.namespace) == segs[2]);
    assert(c.name == segs[3]);
    assert(version_text(c.version) == segs[4]);
    if segs.len() == 7 {
        assert(segs[5] == "pr"@);
        assert(c.curation_pr == Some(parse_u32_spec(segs[6])->Some_0));
        assert(dec_digits(c.curation_pr->0 as nat) == segs[6]);
        assert(coord_segments(c) =~= segs);
    } else {
        assert(coord_segments(c) =~= segs);
    }
    lemma_join_split(s, '/');
}

/// Every coordinate that parsing yields is valid, so the second round-trip
/// direction below applies to it.
pub proof fn lemma_parse_gives_wf(s: Seq<char>)
    requires
        spec_parse_coordinate(s) is Ok,
    ensures
        coord_wf(spec_parse_coordinate(s)->Ok_0),
{
    crate::text::lemma_split_segments(s, '/');
    let segs = split_on(s, '/');
    let c = spec_parse_coordinate(s)->Ok_0;
    assert(slash_free(c.name)) by {
        assert(forall|k: int| 0 <= k < segs[3].len() ==> #[trigger] segs[3][k] != '/');
    }
    assert(slash_free(version_text(c.version))) by {
        assert(forall|k: int| 0 <= k < segs[4].len() ==> #[trigger] segs[4][k] != '/');
    }
    if c.namespace is Some {
        let t = c.namespace->0;
        assert(slash_free(t)) by {
            assert(forall|k: int| 0 <= k < segs[2].len() ==> #[trigger] segs[2][k] != '/');
        }
    }
}

/// Round trip, second direction: parsing the canonical text of a valid
/// coordinate yields a structurally equal coordinate.
#[verifier::rlimit(100)]
#[verifier::spinoff_prover]
pub proof fn lemma_format_then_parse(c: CoordinateV)
    requires
        coord_wf(c),
    ensures
        spec_parse_coordinate(coord_text(c)) == Ok::<CoordinateV, ParseErrorV>(c),
{
    reveal_strlit("crate");
    reveal_strlit("git");
    reveal_strlit("cratesio");
    reveal_strlit("github");
    reveal_strlit("pr");
    reveal_strlit("-");
    let sh = shape_text(c.shape);
    let pv = provider_text(c.provider);
    let ns = namespace_text(c.namespace);
    let vt = version_text(c.version);
    assert(slash_free(sh)) by {
        reveal_strlit("crate");
        reveal_strlit("git");
        match c.shape {
            Shape::Crate => {
                assert(forall|k: int| 0 <= k < sh.len() ==> sh[k] != '/');
            },
            Shape::Git => {
                assert(forall|k: int| 0 <= k < sh.len() ==> sh[k] != '/');
            },
        }
    }
    assert(slash_free(pv)) by {
        match c.provider {
            Provider::CratesIo => {
                assert(forall|k: int| 0 <= k < pv.len() ==> pv[k] != '/');
            },
            Provider::Github => {
                assert(forall|k: int| 0 <= k < pv.len() ==> pv[k] != '/');
            },
        }
    }
    assert(slash_free(ns)) by {
        if c.namespace is None {
            assert(forall|k: int| 0 <= k < ns.len() ==> ns[k] != '/');
        }
    }
    match c.curation_pr {
        None => {
            lemma_join_base(c);
            let r3 = c.name + seq!['/'] + vt;
            let r2 = ns + seq!['/'] + r3;
            let r1 = pv + seq!['/'] + r2;
            assert(coord_text(c) =~= sh + seq!['/'] + r1);
            lemma_split_prepend(sh, r1, '/');
            lemma_split_prepend(pv, r2, '/');
            lemma_split_prepend(ns, r3, '/');
            lemma_split_prepend(c.name, vt, '/');
            lemma_split_whole(vt, '/');
            let segs = split_on(coord_text(c), '/');
            assert(segs =~= seq![sh, pv, ns, c.name, vt]);
            assert(spec_parse_shape(segs[0]) == Some(c.shape)) by {
                assert("crate"@ != "git"@);
            }
            assert(spec_parse_provider(segs[1]) == Some(c.provider)) by {
                assert("cratesio"@ != "github"@);
            }
            assert(spec_parse_version(segs[4]) == c.version);
            let parsed = spec_parse_coordinate(coord_text(c))->Ok_0;
            assert(parsed.namespace == c.namespace);
        },
        Some(n) => {
            lemma_join_pr(c);
            lemma_digits_slash_free(n as nat);
            let d = dec_digits(n as nat);
            let r5 = "pr"@ + seq!['/'] + d;
            let r4 = vt + seq!['/'] + r5;
            let r3 = c.name + seq!['/'] + r4;
            let r2 = ns + seq!['/'] + r3;
            let r1 = pv + seq!['/'] + r2;
            assert(coord_text(c) =~= sh + seq!['/'] + r1);
            lemma_split_prepend(sh, r1, '/');
            lemma_split_prepend(pv, r2, '/');
            lemma_split_prepend(ns, r3, '/');
            lemma_split_prepend(c.name, r4, '/');
            lemma_split_prepend(vt, r5, '/');
            assert(slash_free("pr"@));
            lemma_split_prepend("pr"@, d, '/');
            lemma_split_whole(d, '/');
            let segs = split_on(coord_text(c), '/');
            assert(segs =~= seq![sh, pv, ns, c.name, vt, "pr"@, d]);
            assert(spec_parse_shape(segs[0]) == Some(c.shape)) by {
                assert("crate"@ != "git"@);
            }
            assert(spec_parse_provider(segs[1]) == Some(c.provider)) by {
                assert("cratesio"@ != "github"@);
            }
            assert(spec_parse_version(segs[4]) == c.version);
            lemma_parse_dec_digits(n);
            let parsed = spec_parse_coordinate(coord_text(c))->Ok_0;
            assert(parsed.namespace == c.namespace);
            assert(parsed.curation_pr == c.curation_pr);
        },
    }
}

} // verus!
