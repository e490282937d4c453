//! Semantic versions and their encoding into the four-field numeric format
//! the packaging compiler requires.
//!
//! The compiler accepts versions of up to four dot-separated fields, each an
//! unsigned 16-bit number.  The major, minor and patch fields pass through
//! unchanged.  The fourth, build, field carries the first two prerelease
//! identifiers: the high byte holds the first, the low byte the second.
//! A numeric identifier contributes its value directly and may not exceed
//! 229; an alphanumeric identifier contributes the case-insensitive offset
//! of its first letter from the start of the alphabet, shifted up by 230, so
//! that numbers occupy the bottom and letters the top of each byte.  A
//! version without a prerelease is marked with the build value 65535.

use vstd::prelude::*;
use vstd::string::*;
use crate::Error;
use crate::strutil::{all_digits, dec_str, digits_val, is_digit, parse_digits, u64_to_string};

verus! {

/// One prerelease identifier: wholly numeric, or alphanumeric.
#[derive(Debug, PartialEq, Eq)]
pub enum Identifier {
    /// An identifier consisting of decimal digits alone.
    Numeric(u64),
    /// Any other identifier.
    Alphanumeric(String),
}

/// The mathematical value of a prerelease identifier.
pub enum IdView {
    Num(u64),
    Alpha(Seq<char>),
}

impl View for Identifier {
    type V = IdView;

    open spec fn view(&self) -> IdView {
        match self {
            Identifier::Numeric(n) => IdView::Num(*n),
            Identifier::Alphanumeric(s) => IdView::Alpha(s@),
        }
    }
}

/// An owned semantic version: major, minor and patch numbers and the
/// ordered prerelease identifiers.  Build metadata is ignored and dropped
/// at parse time.
#[derive(Debug, PartialEq, Eq)]
pub struct SemanticVersion {
    pub major: u64,
    pub minor: u64,
    pub patch: u64,
    pub pre: Vec<Identifier>,
}

/// The mathematical value of a semantic version.
pub struct VersionView {
    pub major: u64,
    pub minor: u64,
    pub patch: u64,
    pub pre: Seq<IdView>,
}

impl View for SemanticVersion {
    type V = VersionView;

    open spec fn view(&self) -> VersionView {
        VersionView {
            major: self.major,
            minor: self.minor,
            patch: self.patch,
            pre: self.pre@.map_values(|id: Identifier| id@),
        }
    }
}

/// The value of a failure, with text abstracted to its characters.
pub enum ErrView {
    MissingField(Seq<char>),
    InvalidValue(Seq<char>),
    Overflow(u64),
    InvalidIdentifier(Seq<char>),
    NotFound(Seq<char>),
    NotAFile(Seq<char>),
    NoSourceFiles,
}

impl View for Error {
    type V = ErrView;

    open spec fn view(&self) -> ErrView {
        match self {
            Error::MissingField(s) => ErrView::MissingField(s@),
            Error::InvalidValue(s) => ErrView::InvalidValue(s@),
            Error::Overflow(n) => ErrView::Overflow(*n),
            Error::InvalidIdentifier(s) => ErrView::InvalidIdentifier(s@),
            Error::NotFound(s) => ErrView::NotFound(s@),
            Error::NotAFile(s) => ErrView::NotAFile(s@),
            Error::NoSourceFiles => ErrView::NoSourceFiles,
        }
    }
}

/// A fallible result with both sides abstracted to their values.
pub open spec fn res_view<T>(r: Result<T, Error>) -> Result<T, ErrView> {
    match r {
        Ok(v) => Ok(v),
        Err(e) => Err(e@),
    }
}

/// The build field of a version without a prerelease.
pub const RELEASE_BUILD: u16 = 65535;

/// The byte an alphanumeric prerelease identifier contributes: the
/// case-insensitive offset of its leading letter from the start of the
/// alphabet, shifted up past the numeric range; identifiers not led by a
/// letter have none.
pub open spec fn alpha_byte(s: Seq<char>) -> Result<u16, ErrView> {
    if s.len() == 0 {
        Err(ErrView::InvalidIdentifier(s))
    } else if 'A' <= s[0] && s[0] <= 'Z' {
        Ok((s[0] as int - 'A' as int + 230) as u16)
    } else if 'a' <= s[0] && s[0] <= 'z' {
        Ok((s[0] as int - 'a' as int + 230) as u16)
    } else {
        Err(ErrView::InvalidIdentifier(s))
    }
}

/// The byte a prerelease identifier contributes: a numeric identifier its
/// own value, up to 229; an alphanumeric identifier its letter byte.
pub open spec fn ident_byte(id: IdView) -> Result<u16, ErrView> {
    match id {
        IdView::Num(n) => if n <= 229 {
            Ok(n as u16)
        } else {
            Err(ErrView::Overflow(n))
        },
        IdView::Alpha(s) => alpha_byte(s),
    }
}

/// The build field: 65535 without a prerelease; otherwise the first
/// identifier's byte times 256 plus the second's, identifiers beyond the
/// second ignored.
pub open spec fn build_value(pre: Seq<IdView>) -> Result<u16, ErrView> {
    if pre.len() == 0 {
        Ok(RELEASE_BUILD)
    } else {
        match ident_byte(pre[0]) {
            Err(e) => Err(e),
            Ok(high) => if pre.len() == 1 {
                Ok((high * 256) as u16)
            } else {
                match ident_byte(pre[1]) {
                    Err(e) => Err(e),
                    Ok(low) => Ok((high * 256 + low) as u16),
                }
            },
        }
    }
}

/// Every byte an identifier contributes fits the byte.
pub proof fn lemma_ident_byte_bounded(id: IdView)
    ensures
        build_byte_ok(ident_byte(id)),
{
}

/// Whether a byte result stays within a byte.
pub open spec fn build_byte_ok(r: Result<u16, ErrView>) -> bool {
    match r {
        Ok(b) => b <= 255,
        Err(_) => true,
    }
}

/// The encoded version: major, minor and patch unchanged, then the build
/// field, each in decimal.
pub open spec fn encoded_chars(v: VersionView) -> Result<Seq<char>, ErrView> {
    match build_value(v.pre) {
        Ok(b) => Ok(
            dec_str(v.major as nat) + "."@ + dec_str(v.minor as nat) + "."@ + dec_str(
                v.patch as nat,
            ) + "."@ + dec_str(b as nat),
        ),
        Err(e) => Err(e),
    }
}

impl SemanticVersion {
    /// The version written back out: `major.minor.patch`, then the
    /// prerelease identifiers joined with dots after a hyphen, when any.
    pub open spec fn chars_spec(self) -> Seq<char> {
        version_chars(self@)
    }

    /// Renders the version as text.
    pub fn to_text(&self) -> (r: String)
        ensures
            r@ == self.chars_spec(),
    {
        let mut s = u64_to_string(self.major);
        s.append(".");
        let minor = u64_to_string(self.minor);
        s.append(minor.as_str());
        s.append(".");
        let patch = u64_to_string(self.patch);
        s.append(patch.as_str());
        let n = self.pre.len();
        if n > 0 {
            s.append("-");
            let mut i: usize = 0;
            while i < n
                invariant
                    i <= n,
                    n == self.pre@.len(),
                    n > 0,
                    s@ == dec_str(self.major as nat) + "."@ + dec_str(self.minor as nat) + "."@
                        + dec_str(self.patch as nat) + "-"@ + idents_chars(
                        self@.pre.take(i as int),
                    ) + (if i > 0 && i < n { "."@ } else { Seq::<char>::empty() }),
                decreases n - i,
            {
                proof {
                    assert(self@.pre.len() == n);
                }
                let piece = match &self.pre[i] {
                    Identifier::Numeric(m) => u64_to_string(*m),
                    Identifier::Alphanumeric(a) => a.clone(),
                };
                s.append(piece.as_str());
                proof {
                    assert(self@.pre.take(i + 1).drop_last() =~= self@.pre.take(i as int));
                    assert(self@.pre.take(i + 1)[i as int] == self@.pre[i as int]);
                    lemma_idents_chars_snoc(self@.pre.take(i + 1));
                }
                i += 1;
                if i < n {
                    s.append(".");
                }
            }
            proof {
                assert(self@.pre.take(n as int) =~= self@.pre);
            }
        }
        s
    }
}

/// For a fixed major, minor and patch, raising the first numeric
/// prerelease identifier raises the build field strictly, and the field
/// never crosses into the letter range: its high byte stays numeric, so
/// the whole field stays below 230 times 256.
pub proof fn lemma_build_field_monotonic(n1: u64, n2: u64, rest: Seq<IdView>, b1: u16, b2: u16)
    requires
        n1 < n2 <= 229,
        build_value(seq![IdView::Num(n1)] + rest) == Ok::<u16, ErrView>(b1),
        build_value(seq![IdView::Num(n2)] + rest) == Ok::<u16, ErrView>(b2),
    ensures
        b1 < b2,
        b2 < 58880,
{
    let p1 = seq![IdView::Num(n1)] + rest;
    let p2 = seq![IdView::Num(n2)] + rest;
    assert(p1[0] == IdView::Num(n1));
    assert(p2[0] == IdView::Num(n2));
    if rest.len() == 0 {
        assert(p1.len() == 1);
        assert(b1 == n1 * 256);
        assert(b2 == n2 * 256);
    } else {
        assert(p1[1] == rest[0]);
        assert(p2[1] == rest[0]);
        lemma_ident_byte_bounded(rest[0]);
        match ident_byte(rest[0]) {
            Ok(low) => {
                assert(b1 == n1 * 256 + low);
                assert(b2 == n2 * 256 + low);
                assert(n1 * 256 + 255 < (n1 + 1) * 256);
                assert((n1 + 1) * 256 <= n2 * 256) by (nonlinear_arith)
                    requires
                        n1 + 1 <= n2,
                ;
            },
            Err(e) => {
                assert(false);
            },
        }
    }
}

/// What the outside semantic-version parser returns for a version text:
/// the major, minor and patch numbers and the prerelease component, or
/// nothing when the text is malformed.
pub uninterp spec fn semver_parts(s: Seq<char>) -> Option<(u64, u64, u64, Seq<char>)>;

/// Relies on `semver::Version::parse`: on success it hands back the major,
/// minor and patch numbers and the prerelease component of the parsed
/// version, dropping build metadata; a malformed version gives `None`.
/// The result depends on the input alone.
#[verifier::external_body]
fn parse_semver_raw(s: &str) -> (r: Option<(u64, u64, u64, String)>)
    ensures
        match r {
            Some(t) => semver_parts(s@) == Some((t.0, t.1, t.2, t.3@)),
            None => semver_parts(s@) is None,
        },
{
    match semver::Version::parse(s) {
        Ok(v) => Some((v.major, v.minor, v.patch, v.pre.as_str().to_owned())),
        Err(_) => None,
    }
}

/// The identifier a prerelease piece denotes: wholly-numeric pieces are
/// numeric, their value saturated when it exceeds a machine word; every
/// other piece is alphanumeric.
pub open spec fn classify(s: Seq<char>) -> IdView {
    if s.len() > 0 && all_digits(s) {
        if s.len() <= 19 {
            IdView::Num(digits_val(s) as u64)
        } else {
            IdView::Num(u64::MAX)
        }
    } else {
        IdView::Alpha(s)
    }
}

/// The identifiers of a prerelease component: none when it is empty, else
/// one per dot-separated piece.
pub open spec fn idents_of_pre(pre: Seq<char>) -> Seq<IdView> {
    if pre.len() == 0 {
        Seq::empty()
    } else {
        crate::strutil::split_dots(pre).map_values(|p: Seq<char>| classify(p))
    }
}

/// The semantic version a version text denotes, as the outside parser
/// reads it; a malformed text is reported with the text itself.
pub open spec fn parse_version_spec(s: Seq<char>) -> Result<VersionView, ErrView> {
    match semver_parts(s) {
        None => Err(ErrView::InvalidValue(s)),
        Some(p) => Ok(
            VersionView { major: p.0, minor: p.1, patch: p.2, pre: idents_of_pre(p.3) },
        ),
    }
}

/// Reads one prerelease piece as an identifier.
fn classify_piece(piece: String) -> (id: Identifier)
    ensures
        id@ == classify(piece@),
{
    let len = piece.as_str().unicode_len();
    let mut i: usize = 0;
    let mut digits = true;
    while i < len
        invariant
            i <= len,
            len == piece@.len(),
            digits == all_digits(piece@.take(i as int)),
        decreases len - i,
    {
        let c = piece.as_str().get_char(i);
        let is_d = c >= '0' && c <= '9';
        proof {
            assert(piece@.take(i + 1).drop_last() =~= piece@.take(i as int));
            assert(piece@.take(i + 1)[i as int] == piece@[i as int]);
            if digits && is_d {
                assert(forall|j: int|
                    0 <= j < i + 1 ==> is_digit(#[trigger] piece@.take(i + 1)[j]));
            }
            if !(digits && is_d) {
                let bad: int = if !digits {
                    let k = choose|k: int| 0 <= k < i && !is_digit(piece@.take(i as int)[k]);
                    k
                } else {
                    i as int
                };
                assert(!is_digit(piece@.take(i + 1)[bad]));
            }
        }
        digits = digits && is_d;
        i += 1;
    }
    proof {
        assert(piece@.take(len as int) =~= piece@);
    }
    if digits && len > 0 {
        if len <= 19 {
            Identifier::Numeric(parse_digits(piece.as_str()))
        } else {
            Identifier::Numeric(u64::MAX)
        }
    } else {
        Identifier::Alphanumeric(piece)
    }
}

/// Parses a version text into an owned semantic version.
///
/// Success is owed exactly when the outside parser accepts the text; a
/// malformed text is reported with the text itself.
pub fn parse_version(s: &str) -> (r: Result<SemanticVersion, Error>)
    ensures
        match r {
            Ok(v) => parse_version_spec(s@) == Ok::<VersionView, ErrView>(v@),
            Err(e) => parse_version_spec(s@) == Err::<VersionView, ErrView>(e@),
        },
{
    match parse_semver_raw(s) {
        None => Err(Error::InvalidValue(s.to_owned())),
        Some(t) => {
            let (major, minor, patch, pre) = t;
            let mut ids: Vec<Identifier> = Vec::new();
            if !pre.as_str().is_empty() {
                let pieces = crate::strutil::split_dots_vec(pre.as_str());
                let n = pieces.len();
                let ghost segs = crate::strutil::split_dots(pre@);
                let mut i: usize = 0;
                let mut pieces = pieces;
                proof {
                    assert(ids@.map_values(|id: Identifier| id@) =~= segs.take(0).map_values(
                        |p: Seq<char>| classify(p),
                    ));
                }
                while i < n
                    invariant
                        i <= n,
                        n == segs.len(),
                        pieces.deep_view() == segs,
                        n == pieces@.len(),
                        ids@.len() == i,
                        ids@.map_values(|id: Identifier| id@) == segs.take(i as int).map_values(
                            |p: Seq<char>| classify(p),
                        ),
                    decreases n - i,
                {
                    let piece = pieces[i].clone();
                    proof {
                        assert(pieces.deep_view()[i as int] == pieces@[i as int]@);
                    }
                    let id = classify_piece(piece);
                    ids.push(id);
                    proof {
                        let f = |id: Identifier| id@;
                        let g = |p: Seq<char>| classify(p);
                        assert(ids@.map_values(f) =~= segs.take(i + 1).map_values(g)) by {
                            assert(forall|j: int|
                                0 <= j < i ==> #[trigger] ids@.map_values(f)[j] == segs.take(
                                    i as int,
                                ).map_values(g)[j]);
                        }
                    }
                    i += 1;
                }
                proof {
                    assert(segs.take(n as int) =~= segs);
                }
            }
            proof {
                if pre@.len() == 0 {
                    assert(ids@.map_values(|id: Identifier| id@) =~= idents_of_pre(pre@));
                }
            }
            Ok(SemanticVersion { major, minor, patch, pre: ids })
        },
    }
}

/// The text of one prerelease identifier.
pub open spec fn ident_chars(id: IdView) -> Seq<char> {
    match id {
        IdView::Num(n) => dec_str(n as nat),
        IdView::Alpha(s) => s,
    }
}

/// The text of a prerelease: its identifiers joined with dots.
pub open spec fn idents_chars(ids: Seq<IdView>) -> Seq<char>
    decreases ids.len(),
{
    if ids.len() == 0 {
        Seq::empty()
    } else if ids.len() == 1 {
        ident_chars(ids[0])
    } else {
        idents_chars(ids.drop_last()) + "."@ + ident_chars(ids.last())
    }
}

proof fn lemma_idents_chars_snoc(ids: Seq<IdView>)
    requires
        ids.len() >= 1,
    ensures
        ids.len() == 1 ==> idents_chars(ids) == ident_chars(ids[0]),
        ids.len() > 1 ==> idents_chars(ids) == idents_chars(ids.drop_last()) + "."@ + ident_chars(
            ids.last(),
        ),
{
}

/// The full version text: `major.minor.patch`, then `-` and the prerelease
/// when one is present.
pub open spec fn version_chars(v: VersionView) -> Seq<char> {
    let core = dec_str(v.major as nat) + "."@ + dec_str(v.minor as nat) + "."@ + dec_str(
        v.patch as nat,
    );
    if v.pre.len() == 0 {
        core
    } else {
        core + "-"@ + idents_chars(v.pre)
    }
}

} // verus!

