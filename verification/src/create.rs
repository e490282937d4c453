//! Resolution of the parameters that drive the creation of an installer.
//!
//! A `Builder` collects explicit overrides; `build` turns them into an
//! `Execution`, whose methods resolve each parameter against the project's
//! metadata with a fixed precedence: the explicit override wins, then the
//! nested packaging-metadata table, then (for the name and the version) the
//! top-level project field, then a hardcoded default.  Parameters without a
//! default fail with a missing-field error.  The filesystem facts a
//! resolution step needs — whether a path exists or names a directory, what
//! a directory holds — are handed in as plain values by the caller, which
//! performs the reads.

use vstd::prelude::*;
use vstd::string::*;
use crate::Error;
use crate::Platform;
use crate::cultures::{culture_of, Cultures};
use crate::doc::{
    package_string, package_text, text_items, text_items_of, wix_meta, wix_meta_bool,
    wix_meta_flag, wix_meta_get, wix_meta_string, wix_meta_text, Doc,
};
use crate::strutil::{
    ends_with_sep, has_extension, is_ends_with_sep, join_chars, join_path, parent_chars,
    parent_of, u64_to_string,
};
use crate::version::{
    alpha_byte, build_value, encoded_chars, ident_byte, parse_version, parse_version_spec,
    res_view, version_chars, ErrView, Identifier, SemanticVersion, VersionView, RELEASE_BUILD,
};

verus! {

/// The values of a set of overrides or of a built execution context, with
/// text abstracted to its characters.
pub struct ParamsView {
    pub bin_path: Option<Seq<char>>,
    pub capture_output: bool,
    pub compiler_args: Option<Seq<Seq<char>>>,
    pub culture: Option<Seq<char>>,
    pub debug_build: bool,
    pub debug_name: bool,
    pub includes: Option<Seq<Seq<char>>>,
    pub input: Option<Seq<char>>,
    pub linker_args: Option<Seq<Seq<char>>>,
    pub locale: Option<Seq<char>>,
    pub name: Option<Seq<char>>,
    pub no_build: bool,
    pub output: Option<Seq<char>>,
    pub version: Option<Seq<char>>,
}

/// The parameter values a fresh builder starts from: output captured,
/// nothing overridden, every flag off.
pub open spec fn default_params() -> ParamsView {
    ParamsView {
        bin_path: None,
        capture_output: true,
        compiler_args: None,
        culture: None,
        debug_build: false,
        debug_name: false,
        includes: None,
        input: None,
        linker_args: None,
        locale: None,
        name: None,
        no_build: false,
        output: None,
        version: None,
    }
}

/// A builder collecting the explicit per-parameter overrides for creating
/// an installer.
#[derive(Debug, Clone, PartialEq, Eq)]
pub struct Builder {
    pub bin_path: Option<String>,
    pub capture_output: bool,
    pub compiler_args: Option<Vec<String>>,
    pub culture: Option<String>,
    pub debug_build: bool,
    pub debug_name: bool,
    pub includes: Option<Vec<String>>,
    pub input: Option<String>,
    pub linker_args: Option<Vec<String>>,
    pub locale: Option<String>,
    pub name: Option<String>,
    pub no_build: bool,
    pub output: Option<String>,
    pub version: Option<String>,
}

impl View for Builder {
    type V = ParamsView;

    open spec fn view(&self) -> ParamsView {
        ParamsView {
            bin_path: self.bin_path.deep_view(),
            capture_output: self.capture_output,
            compiler_args: self.compiler_args.deep_view(),
            culture: self.culture.deep_view(),
            debug_build: self.debug_build,
            debug_name: self.debug_name,
            includes: self.includes.deep_view(),
            input: self.input.deep_view(),
            linker_args: self.linker_args.deep_view(),
            locale: self.locale.deep_view(),
            name: self.name.deep_view(),
            no_build: self.no_build,
            output: self.output.deep_view(),
            version: self.version.deep_view(),
        }
    }
}

fn own_opt_str(o: Option<&str>) -> (r: Option<String>)
    ensures
        r.deep_view() == o.deep_view(),
{
    match o {
        Some(s) => Some(s.to_owned()),
        None => None,
    }
}

fn own_strs(v: Vec<&str>) -> (r: Vec<String>)
    ensures
        r.deep_view() == v.deep_view(),
{
    let n = v.len();
    let mut out: Vec<String> = Vec::new();
    let mut i: usize = 0;
    while i < n
        invariant
            i <= n,
            n == v@.len(),
            out.deep_view() =~= v.deep_view().take(i as int),
        decreases n - i,
    {
        let ghost pre = out.deep_view();
        out.push(v[i].to_owned());
        proof {
            assert(out.deep_view() =~= pre.push(v.deep_view()[i as int]));
            assert(v.deep_view().take(i + 1) =~= v.deep_view().take(i as int).push(
                v.deep_view()[i as int],
            ));
        }
        i += 1;
    }
    proof {
        assert(v.deep_view().take(n as int) =~= v.deep_view());
    }
    out
}

fn own_opt_strs(o: Option<Vec<&str>>) -> (r: Option<Vec<String>>)
    ensures
        r.deep_view() == o.deep_view(),
{
    match o {
        Some(v) => Some(own_strs(v)),
        None => None,
    }
}

fn clone_opt_string(o: &Option<String>) -> (r: Option<String>)
    ensures
        r == *o,
{
    match o {
        Some(s) => Some(s.clone()),
        None => None,
    }
}

fn clone_vec_string(v: &Vec<String>) -> (r: Vec<String>)
    ensures
        r@ =~= v@,
{
    let n = v.len();
    let mut out: Vec<String> = Vec::new();
    let mut i: usize = 0;
    while i < n
        invariant
            i <= n,
            n == v@.len(),
            out@ =~= v@.take(i as int),
        decreases n - i,
    {
        out.push(v[i].clone());
        i += 1;
    }
    proof {
        assert(v@.take(n as int) =~= v@);
    }
    out
}

fn clone_opt_vec_string(o: &Option<Vec<String>>) -> (r: Option<Vec<String>>)
    ensures
        r.deep_view() == o.deep_view(),
        r is Some <==> *o is Some,
{
    match o {
        Some(v) => Some(clone_vec_string(v)),
        None => None,
    }
}

/// What a path names on disk, as the caller found it.
#[derive(Debug, Clone, Copy, PartialEq, Eq, Structural)]
pub enum PathStatus {
    /// The path names nothing.
    Missing,
    /// The path names a file.
    File,
    /// The path names a directory.
    Directory,
}

/// The entries carrying the given extension, in order.
pub open spec fn matches_ext(files: Seq<Seq<char>>, ext: Seq<char>) -> Seq<Seq<char>>
    decreases files.len(),
{
    if files.len() == 0 {
        Seq::empty()
    } else {
        let rest = matches_ext(files.drop_last(), ext);
        if has_extension(files.last(), ext) {
            rest.push(files.last())
        } else {
            rest
        }
    }
}

/// Checks the enumerated paths front to back: the first missing one is
/// not found, the first directory is not a file.
pub open spec fn validate_paths(paths: Seq<Seq<char>>, st: Seq<PathStatus>) -> Result<
    (),
    ErrView,
>
    decreases paths.len(),
{
    if paths.len() == 0 {
        Ok(())
    } else {
        match st[0] {
            PathStatus::Missing => Err(ErrView::NotFound(paths[0])),
            PathStatus::Directory => Err(ErrView::NotAFile(paths[0])),
            PathStatus::File => validate_paths(paths.drop_first(), st.drop_first()),
        }
    }
}

/// Picks the entries carrying the given extension.
fn filter_by_ext(files: &Vec<String>, ext: &str) -> (r: Vec<String>)
    ensures
        r.deep_view() == matches_ext(files.deep_view(), ext@),
{
    let n = files.len();
    let mut out: Vec<String> = Vec::new();
    let mut i: usize = 0;
    while i < n
        invariant
            i <= n,
            n == files@.len(),
            out.deep_view() =~= matches_ext(files.deep_view().take(i as int), ext@),
        decreases n - i,
    {
        proof {
            assert(files.deep_view().take(i + 1).drop_last() =~= files.deep_view().take(i as int));
            assert(files.deep_view().take(i + 1).last() == files.deep_view()[i as int]);
            assert(files.deep_view()[i as int] == files@[i as int]@);
        }
        if crate::strutil::extension_is(files[i].as_str(), ext) {
            let ghost pre = out.deep_view();
            out.push(files[i].clone());
            proof {
                assert(out.deep_view() =~= pre.push(files@[i as int]@));
            }
        }
        i += 1;
    }
    proof {
        assert(files.deep_view().take(n as int) =~= files.deep_view());
    }
    out
}

impl Builder {
    /// Creates a new builder with every parameter at its default.
    pub fn new() -> (r: Self)
        ensures
            r@ == default_params(),
    {
        Builder {
            bin_path: None,
            capture_output: true,
            compiler_args: None,
            culture: None,
            debug_build: false,
            debug_name: false,
            includes: None,
            input: None,
            linker_args: None,
            locale: None,
            name: None,
            no_build: false,
            output: None,
            version: None,
        }
    }

    /// Sets the path to the folder holding the toolchain's compiler and
    /// linker, overriding the build environment.
    pub fn bin_path(&mut self, b: Option<&str>) -> (r: &mut Self)
        ensures
            (*r)@ == (ParamsView { bin_path: b.deep_view(), ..old(self)@ }),
            *final(self) == *final(r),
    {
        self.bin_path = own_opt_str(b);
        self
    }

    /// Enables or disables capturing the output of the external tools.
    pub fn capture_output(&mut self, c: bool) -> (r: &mut Self)
        ensures
            (*r)@ == (ParamsView { capture_output: c, ..old(self)@ }),
            *final(self) == *final(r),
    {
        self.capture_output = c;
        self
    }

    /// Sets extra arguments for the compiler.
    pub fn compiler_args(&mut self, c: Option<Vec<&str>>) -> (r: &mut Self)
        ensures
            (*r)@ == (ParamsView { compiler_args: c.deep_view(), ..old(self)@ }),
            *final(self) == *final(r),
    {
        self.compiler_args = own_opt_strs(c);
        self
    }

    /// Sets the culture for the linker, overriding the metadata and the
    /// default.
    pub fn culture(&mut self, c: Option<&str>) -> (r: &mut Self)
        ensures
            (*r)@ == (ParamsView { culture: c.deep_view(), ..old(self)@ }),
            *final(self) == *final(r),
    {
        self.culture = own_opt_str(c);
        self
    }

    /// Builds the project with the debug profile instead of the release
    /// profile.
    pub fn debug_build(&mut self, d: bool) -> (r: &mut Self)
        ensures
            (*r)@ == (ParamsView { debug_build: d, ..old(self)@ }),
            *final(self) == *final(r),
    {
        self.debug_build = d;
        self
    }

    /// Appends a debug marker to the installer's file stem.
    pub fn debug_name(&mut self, d: bool) -> (r: &mut Self)
        ensures
            (*r)@ == (ParamsView { debug_name: d, ..old(self)@ }),
            *final(self) == *final(r),
    {
        self.debug_name = d;
        self
    }

    /// Sets explicit source files for the installer, overriding the
    /// metadata-declared list.
    pub fn includes(&mut self, i: Option<Vec<&str>>) -> (r: &mut Self)
        ensures
            (*r)@ == (ParamsView { includes: i.deep_view(), ..old(self)@ }),
            *final(self) == *final(r),
    {
        self.includes = own_opt_strs(i);
        self
    }

    /// Sets the path to the project's manifest.
    pub fn input(&mut self, i: Option<&str>) -> (r: &mut Self)
        ensures
            (*r)@ == (ParamsView { input: i.deep_view(), ..old(self)@ }),
            *final(self) == *final(r),
    {
        self.input = own_opt_str(i);
        self
    }

    /// Sets extra arguments for the linker.
    pub fn linker_args(&mut self, l: Option<Vec<&str>>) -> (r: &mut Self)
        ensures
            (*r)@ == (ParamsView { linker_args: l.deep_view(), ..old(self)@ }),
            *final(self) == *final(r),
    {
        self.linker_args = own_opt_strs(l);
        self
    }

    /// Sets the path to a localization file for the linker.
    pub fn locale(&mut self, l: Option<&str>) -> (r: &mut Self)
        ensures
            (*r)@ == (ParamsView { locale: l.deep_view(), ..old(self)@ }),
            *final(self) == *final(r),
    {
        self.locale = own_opt_str(l);
        self
    }

    /// Sets the product name, overriding the project's fields.
    pub fn name(&mut self, p: Option<&str>) -> (r: &mut Self)
        ensures
            (*r)@ == (ParamsView { name: p.deep_view(), ..old(self)@ }),
            *final(self) == *final(r),
    {
        self.name = own_opt_str(p);
        self
    }

    /// Skips building the project before creating the installer.
    pub fn no_build(&mut self, n: bool) -> (r: &mut Self)
        ensures
            (*r)@ == (ParamsView { no_build: n, ..old(self)@ }),
            *final(self) == *final(r),
    {
        self.no_build = n;
        self
    }

    /// Sets the installer's output file or destination folder.
    pub fn output(&mut self, o: Option<&str>) -> (r: &mut Self)
        ensures
            (*r)@ == (ParamsView { output: o.deep_view(), ..old(self)@ }),
            *final(self) == *final(r),
    {
        self.output = own_opt_str(o);
        self
    }

    /// Sets the version, overriding the project's fields.
    pub fn version(&mut self, v: Option<&str>) -> (r: &mut Self)
        ensures
            (*r)@ == (ParamsView { version: v.deep_view(), ..old(self)@ }),
            *final(self) == *final(r),
    {
        self.version = own_opt_str(v);
        self
    }

    /// Builds an execution context carrying the collected overrides.
    pub fn build(&mut self) -> (e: Execution)
        ensures
            e@ == old(self)@,
            *final(self) == *old(self),
    {
        Execution {
            bin_path: clone_opt_string(&self.bin_path),
            capture_output: self.capture_output,
            compiler_args: clone_opt_vec_string(&self.compiler_args),
            culture: clone_opt_string(&self.culture),
            debug_build: self.debug_build,
            debug_name: self.debug_name,
            includes: clone_opt_vec_string(&self.includes),
            input: clone_opt_string(&self.input),
            linker_args: clone_opt_vec_string(&self.linker_args),
            locale: clone_opt_string(&self.locale),
            name: clone_opt_string(&self.name),
            no_build: self.no_build,
            output: clone_opt_string(&self.output),
            version: clone_opt_string(&self.version),
        }
    }
}

impl Default for Builder {
    /// A fresh builder.
    fn default() -> (r: Self)
        ensures
            r@ == default_params(),
    {
        Builder::new()
    }
}

/// A context for resolving the parameters of one installer build.
#[derive(Debug, PartialEq, Eq)]
pub struct Execution {
    pub bin_path: Option<String>,
    pub capture_output: bool,
    pub compiler_args: Option<Vec<String>>,
    pub culture: Option<String>,
    pub debug_build: bool,
    pub debug_name: bool,
    pub includes: Option<Vec<String>>,
    pub input: Option<String>,
    pub linker_args: Option<Vec<String>>,
    pub locale: Option<String>,
    pub name: Option<String>,
    pub no_build: bool,
    pub output: Option<String>,
    pub version: Option<String>,
}

impl View for Execution {
    type V = ParamsView;

    open spec fn view(&self) -> ParamsView {
        ParamsView {
            bin_path: self.bin_path.deep_view(),
            capture_output: self.capture_output,
            compiler_args: self.compiler_args.deep_view(),
            culture: self.culture.deep_view(),
            debug_build: self.debug_build,
            debug_name: self.debug_name,
            includes: self.includes.deep_view(),
            input: self.input.deep_view(),
            linker_args: self.linker_args.deep_view(),
            locale: self.locale.deep_view(),
            name: self.name.deep_view(),
            no_build: self.no_build,
            output: self.output.deep_view(),
            version: self.version.deep_view(),
        }
    }
}

impl Execution {
    /// A boolean parameter: the override wins when set; otherwise the
    /// packaging-metadata value, defaulting to off.
    pub open spec fn flag_spec(ov: bool, m: Doc, key: Seq<char>) -> bool {
        ov || (match wix_meta_flag(m, key) {
            Some(b) => b,
            None => false,
        })
    }

    /// Whether the project is built with the debug profile.
    pub fn debug_build(&self, manifest: &Doc) -> (r: bool)
        ensures
            r == Self::flag_spec(self.debug_build, *manifest, "dbg-build"@),
    {
        if self.debug_build {
            true
        } else {
            match wix_meta_bool(manifest, "dbg-build") {
                Some(b) => b,
                None => false,
            }
        }
    }

    /// Whether the installer's file stem carries a debug marker.
    pub fn debug_name(&self, manifest: &Doc) -> (r: bool)
        ensures
            r == Self::flag_spec(self.debug_name, *manifest, "dbg-name"@),
    {
        if self.debug_name {
            true
        } else {
            match wix_meta_bool(manifest, "dbg-name") {
                Some(b) => b,
                None => false,
            }
        }
    }

    /// Whether building the project is skipped.
    pub fn no_build(&self, manifest: &Doc) -> (r: bool)
        ensures
            r == Self::flag_spec(self.no_build, *manifest, "no-build"@),
    {
        if self.no_build {
            true
        } else {
            match wix_meta_bool(manifest, "no-build") {
                Some(b) => b,
                None => false,
            }
        }
    }

    /// A list parameter: the override wins when set; otherwise the
    /// packaging-metadata list, which counts only when every item is text.
    pub open spec fn args_spec(ov: Option<Vec<String>>, m: Doc, key: Seq<char>) -> Option<
        Seq<Seq<char>>,
    > {
        match ov {
            Some(v) => Some(v.deep_view()),
            None => match wix_meta(m, key) {
                Some(d) => text_items(d),
                None => None,
            },
        }
    }

    /// The extra arguments handed to the compiler, if any.
    pub fn compiler_args(&self, manifest: &Doc) -> (r: Option<Vec<String>>)
        ensures
            r.deep_view() == Self::args_spec(self.compiler_args, *manifest, "compiler-args"@),
    {
        match &self.compiler_args {
            Some(v) => Some(clone_vec_string(v)),
            None => match wix_meta_get(manifest, "compiler-args") {
                Some(d) => text_items_of(d),
                None => None,
            },
        }
    }

    /// The extra arguments handed to the linker, if any.
    pub fn linker_args(&self, manifest: &Doc) -> (r: Option<Vec<String>>)
        ensures
            r.deep_view() == Self::args_spec(self.linker_args, *manifest, "linker-args"@),
    {
        match &self.linker_args {
            Some(v) => Some(clone_vec_string(v)),
            None => match wix_meta_get(manifest, "linker-args") {
                Some(d) => text_items_of(d),
                None => None,
            },
        }
    }

    /// The culture: the override, else the packaging-metadata value, else
    /// the default `en-US`; a string naming no culture is rejected with the
    /// string.
    pub open spec fn culture_spec(self, m: Doc) -> Result<Cultures, ErrView> {
        match self@.culture {
            Some(c) => match culture_of(c) {
                Some(cc) => Ok(cc),
                None => Err(ErrView::InvalidValue(c)),
            },
            None => match wix_meta_text(m, "culture"@) {
                Some(t) => match culture_of(t@) {
                    Some(cc) => Ok(cc),
                    None => Err(ErrView::InvalidValue(t@)),
                },
                None => Ok(Cultures::EnUs),
            },
        }
    }

    /// Resolves the culture.
    pub fn culture(&self, manifest: &Doc) -> (r: Result<Cultures, Error>)
        ensures
            res_view(r) == self.culture_spec(*manifest),
    {
        match &self.culture {
            Some(c) => Cultures::from_str(c.as_str()),
            None => match wix_meta_string(manifest, "culture") {
                Some(t) => Cultures::from_str(t.as_str()),
                None => Ok(Cultures::EnUs),
            },
        }
    }

    /// The localization path a resolution would use, when any: the
    /// override, else the packaging-metadata value.
    pub open spec fn locale_candidate_spec(self, m: Doc) -> Option<String> {
        match self.locale {
            Some(l) => Some(l),
            None => wix_meta_text(m, "locale"@),
        }
    }

    /// The localization path a resolution would use, when any.  The caller
    /// checks on disk what it names and hands the status to `locale`.
    pub fn locale_candidate(&self, manifest: &Doc) -> (r: Option<String>)
        ensures
            r == self.locale_candidate_spec(*manifest),
    {
        match &self.locale {
            Some(l) => Some(l.clone()),
            None => wix_meta_string(manifest, "locale"),
        }
    }

    /// The localization file: the override, else the packaging-metadata
    /// value, else none.  Whichever wins must name a file on disk: a path
    /// naming nothing is rejected as not found, one naming a directory as
    /// not a file, each reported with the path.
    pub open spec fn locale_spec(self, m: Doc, status: PathStatus) -> Result<
        Option<String>,
        ErrView,
    > {
        match self.locale_candidate_spec(m) {
            Some(l) => match status {
                PathStatus::File => Ok(Some(l)),
                PathStatus::Missing => Err(ErrView::NotFound(l@)),
                PathStatus::Directory => Err(ErrView::NotAFile(l@)),
            },
            None => Ok(None),
        }
    }

    /// Resolves the localization file; `status` is what the winning path
    /// names on disk, as the caller found it, and is immaterial when
    /// neither source names one.
    pub fn locale(&self, manifest: &Doc, status: PathStatus) -> (r: Result<
        Option<String>,
        Error,
    >)
        ensures
            res_view(r) == self.locale_spec(*manifest, status),
    {
        match self.locale_candidate(manifest) {
            Some(l) => match status {
                PathStatus::File => Ok(Some(l)),
                PathStatus::Missing => Err(Error::NotFound(l)),
                PathStatus::Directory => Err(Error::NotAFile(l)),
            },
            None => Ok(None),
        }
    }

    /// The product name: the override, else the packaging-metadata value,
    /// else the project's own name field, which is required.
    pub open spec fn name_spec(self, m: Doc) -> Result<String, ErrView> {
        match self.name {
            Some(n) => Ok(n),
            None => match wix_meta_text(m, "name"@) {
                Some(t) => Ok(t),
                None => match package_text(m, "name"@) {
                    Some(t) => Ok(t),
                    None => Err(ErrView::MissingField("name"@)),
                },
            },
        }
    }

    /// Resolves the product name.
    pub fn name(&self, manifest: &Doc) -> (r: Result<String, Error>)
        ensures
            res_view(r) == self.name_spec(*manifest),
    {
        match &self.name {
            Some(n) => Ok(n.clone()),
            None => match wix_meta_string(manifest, "name") {
                Some(t) => Ok(t),
                None => match package_string(manifest, "name") {
                    Some(t) => Ok(t),
                    None => Err(Error::MissingField(String::from_str("name"))),
                },
            },
        }
    }

    /// The version: the override, else the packaging-metadata value, else
    /// the project's own version field, which is required; whichever is
    /// chosen is parsed as a semantic version.
    pub open spec fn semantic_version_spec(self, m: Doc) -> Result<VersionView, ErrView> {
        match self@.version {
            Some(v) => parse_version_spec(v),
            None => match wix_meta_text(m, "version"@) {
                Some(t) => parse_version_spec(t@),
                None => match package_text(m, "version"@) {
                    Some(t) => parse_version_spec(t@),
                    None => Err(ErrView::MissingField("version"@)),
                },
            },
        }
    }

    /// Resolves and parses the version.
    pub fn semantic_version(&self, manifest: &Doc) -> (r: Result<SemanticVersion, Error>)
        ensures
            match r {
                Ok(v) => self.semantic_version_spec(*manifest) == Ok::<VersionView, ErrView>(v@),
                Err(e) => self.semantic_version_spec(*manifest) == Err::<VersionView, ErrView>(e@),
            },
    {
        match &self.version {
            Some(v) => parse_version(v.as_str()),
            None => match wix_meta_string(manifest, "version") {
                Some(t) => parse_version(t.as_str()),
                None => match package_string(manifest, "version") {
                    Some(t) => parse_version(t.as_str()),
                    None => Err(Error::MissingField(String::from_str("version"))),
                },
            },
        }
    }

    /// The platform of the build environment; it is not overridable.
    pub fn platform(&self) -> (r: Platform)
        ensures
            r == (if vstd::layout::size_of::<usize>() == 8 {
                Platform::X64
            } else {
                Platform::X86
            }),
    {
        Platform::host()
    }

    /// The byte an alphanumeric prerelease identifier contributes to the
    /// build field.
    pub fn build_byte_from_char(pre_an: &str) -> (r: Result<u16, Error>)
        ensures
            res_view(r) == alpha_byte(pre_an@),
    {
        let len = pre_an.unicode_len();
        if len == 0 {
            return Err(Error::InvalidIdentifier(pre_an.to_owned()));
        }
        let c = pre_an.get_char(0);
        let cc = c as u32;
        if cc >= 65 && cc <= 90 {
            Ok((cc - 65 + 230) as u16)
        } else if cc >= 97 && cc <= 122 {
            Ok((cc - 97 + 230) as u16)
        } else {
            Err(Error::InvalidIdentifier(pre_an.to_owned()))
        }
    }

    /// The byte a prerelease identifier contributes to the build field.
    pub fn build_byte_from_identifier(identifier: &Identifier) -> (r: Result<u16, Error>)
        ensures
            res_view(r) == ident_byte(identifier@),
    {
        match identifier {
            Identifier::Numeric(n) => {
                if *n <= 229 {
                    Ok(*n as u16)
                } else {
                    Err(Error::Overflow(*n))
                }
            },
            Identifier::Alphanumeric(s) => Self::build_byte_from_char(s.as_str()),
        }
    }

    /// The build field of a prerelease: the release marker without
    /// identifiers, else the first identifier's byte in the high half and
    /// the second's in the low half, identifiers beyond the second ignored.
    pub fn build_value_from_pre(pre: &Vec<Identifier>) -> (r: Result<u16, Error>)
        ensures
            res_view(r) == build_value(pre@.map_values(|id: Identifier| id@)),
    {
        let ghost views = pre@.map_values(|id: Identifier| id@);
        let identifier_count = pre.len();
        if identifier_count == 0 {
            return Ok(RELEASE_BUILD);
        }
        let high = match Self::build_byte_from_identifier(&pre[0]) {
            Ok(b) => b,
            Err(e) => {
                return Err(e);
            },
        };
        proof {
            crate::version::lemma_ident_byte_bounded(views[0]);
        }
        if identifier_count == 1 {
            Ok(high * 256)
        } else {
            let low = match Self::build_byte_from_identifier(&pre[1]) {
                Ok(b) => b,
                Err(e) => {
                    return Err(e);
                },
            };
            proof {
                crate::version::lemma_ident_byte_bounded(views[1]);
            }
            Ok(high * 256 + low)
        }
    }

    /// The installer file name derived from the resolved name, version and
    /// platform, with a debug marker when asked for.
    pub open spec fn msi_filename_chars(
        name: Seq<char>,
        v: VersionView,
        platform: Platform,
        debug_name: bool,
    ) -> Seq<char> {
        name + "-"@ + version_chars(v) + "-"@ + platform.arch_chars() + (if debug_name {
            "-debug."@
        } else {
            "."@
        }) + "msi"@
    }

    /// The explicitly requested output path, when any: the override, else
    /// the packaging-metadata value.
    pub open spec fn output_candidate_spec(self, m: Doc) -> Option<String> {
        match self.output {
            Some(o) => Some(o),
            None => wix_meta_text(m, "output"@),
        }
    }

    /// The explicitly requested output path, when any.  The caller checks
    /// on disk whether it names an existing directory.
    pub fn output_candidate(&self, manifest: &Doc) -> (r: Option<String>)
        ensures
            r == self.output_candidate_spec(*manifest),
    {
        match &self.output {
            Some(o) => Some(o.clone()),
            None => wix_meta_string(manifest, "output"),
        }
    }

    /// The installer's destination: an explicitly requested path is used
    /// verbatim unless it ends in a separator or names an existing
    /// directory, in which case the derived file name is appended; with no
    /// request the file is derived under the build-output location beside
    /// the project's manifest.
    pub open spec fn msi_destination_spec(
        self,
        name: Seq<char>,
        v: VersionView,
        platform: Platform,
        debug_name: bool,
        m: Doc,
        candidate_is_dir: bool,
    ) -> Result<Seq<char>, ErrView> {
        let filename = Self::msi_filename_chars(name, v, platform, debug_name);
        match self@.output {
            Some(p) => Ok(
                if ends_with_sep(p) || candidate_is_dir {
                    join_chars(p, filename)
                } else {
                    p
                },
            ),
            None => match wix_meta_text(m, "output"@) {
                Some(t) => Ok(
                    if ends_with_sep(t@) || candidate_is_dir {
                        join_chars(t@, filename)
                    } else {
                        t@
                    },
                ),
                None => match self@.input {
                    Some(inp) => if inp.len() == 0 {
                        Err(ErrView::InvalidValue(inp))
                    } else {
                        Ok(
                            join_chars(
                                join_chars(join_chars(parent_chars(inp), "target"@), "wix"@),
                                filename,
                            ),
                        )
                    },
                    None => Ok(join_chars(join_chars("target"@, "wix"@), filename)),
                },
            },
        }
    }

    /// Computes the installer's destination; `candidate_is_dir` says
    /// whether the explicitly requested path, when there is one, names an
    /// existing directory.
    pub fn msi_destination(
        &self,
        name: &str,
        version: &SemanticVersion,
        platform: Platform,
        debug_name: bool,
        manifest: &Doc,
        candidate_is_dir: bool,
    ) -> (r: Result<String, Error>)
        ensures
            match r {
                Ok(s) => self.msi_destination_spec(
                    name@,
                    version@,
                    platform,
                    debug_name,
                    *manifest,
                    candidate_is_dir,
                ) == Ok::<Seq<char>, ErrView>(s@),
                Err(e) => self.msi_destination_spec(
                    name@,
                    version@,
                    platform,
                    debug_name,
                    *manifest,
                    candidate_is_dir,
                ) == Err::<Seq<char>, ErrView>(e@),
            },
    {
        let mut filename = name.to_owned();
        filename.append("-");
        let vtext = version.to_text();
        filename.append(vtext.as_str());
        filename.append("-");
        filename.append(platform.arch());
        if debug_name {
            filename.append("-debug.");
        } else {
            filename.append(".");
        }
        filename.append("msi");
        match &self.output {
            Some(p) => {
                if is_ends_with_sep(p.as_str()) || candidate_is_dir {
                    Ok(join_path(p.as_str(), filename.as_str()))
                } else {
                    Ok(p.clone())
                }
            },
            None => match wix_meta_string(manifest, "output") {
                Some(t) => {
                    if is_ends_with_sep(t.as_str()) || candidate_is_dir {
                        Ok(join_path(t.as_str(), filename.as_str()))
                    } else {
                        Ok(t)
                    }
                },
                None => match &self.input {
                    Some(inp) => match parent_of(inp.as_str()) {
                        None => Err(Error::InvalidValue(inp.clone())),
                        Some(par) => {
                            let t = join_path(par.as_str(), "target");
                            let w = join_path(t.as_str(), "wix");
                            Ok(join_path(w.as_str(), filename.as_str()))
                        },
                    },
                    None => {
                        let w = join_path("target", "wix");
                        Ok(join_path(w.as_str(), filename.as_str()))
                    },
                },
            },
        }
    }

    /// The folder the compiler's object files are written to: the
    /// build-output location beside the project's manifest, with a
    /// trailing separator so the compiler treats it as a folder.
    pub open spec fn wixobj_destination_spec(self) -> Result<Seq<char>, ErrView> {
        match self@.input {
            Some(inp) => if inp.len() == 0 {
                Err(ErrView::InvalidValue(inp))
            } else {
                Ok(join_chars(join_chars(parent_chars(inp), "target"@), "wix\\"@))
            },
            None => Ok(join_chars("target"@, "wix\\"@)),
        }
    }

    /// Computes the object-file destination.
    pub fn wixobj_destination(&self) -> (r: Result<String, Error>)
        ensures
            match r {
                Ok(s) => self.wixobj_destination_spec() == Ok::<Seq<char>, ErrView>(s@),
                Err(e) => self.wixobj_destination_spec() == Err::<Seq<char>, ErrView>(e@),
            },
    {
        match &self.input {
            Some(inp) => match parent_of(inp.as_str()) {
                None => Err(Error::InvalidValue(inp.clone())),
                Some(par) => {
                    let t = join_path(par.as_str(), "target");
                    Ok(join_path(t.as_str(), "wix\\"))
                },
            },
            None => Ok(join_path("target", "wix\\")),
        }
    }

    /// The folder scanned for source files: `wix` beside the project's
    /// manifest.
    pub open spec fn wix_source_dir_spec(self) -> Result<Seq<char>, ErrView> {
        match self@.input {
            Some(inp) => if inp.len() == 0 {
                Err(ErrView::InvalidValue(inp))
            } else {
                Ok(join_chars(parent_chars(inp), "wix"@))
            },
            None => Ok("wix"@),
        }
    }

    /// Computes the folder scanned for source files.  The caller lists it,
    /// handing the entries to source discovery; a missing folder simply
    /// yields no entries.
    pub fn wix_source_dir(&self) -> (r: Result<String, Error>)
        ensures
            match r {
                Ok(s) => self.wix_source_dir_spec() == Ok::<Seq<char>, ErrView>(s@),
                Err(e) => self.wix_source_dir_spec() == Err::<Seq<char>, ErrView>(e@),
            },
    {
        match &self.input {
            Some(inp) => match parent_of(inp.as_str()) {
                None => Err(Error::InvalidValue(inp.clone())),
                Some(par) => Ok(join_path(par.as_str(), "wix")),
            },
            None => Ok(String::from_str("wix")),
        }
    }

    /// The object files among a folder's entries.
    pub open spec fn wixobj_sources_spec(files: Seq<Seq<char>>) -> Result<Seq<Seq<char>>, ErrView> {
        let found = matches_ext(files, "wixobj"@);
        if found.len() == 0 {
            Err(ErrView::NoSourceFiles)
        } else {
            Ok(found)
        }
    }

    /// Picks the object files out of the destination folder's entries;
    /// none at all is an error.
    pub fn wixobj_sources(&self, dir_files: &Vec<String>) -> (r: Result<Vec<String>, Error>)
        ensures
            match r {
                Ok(v) => Self::wixobj_sources_spec(dir_files.deep_view()) == Ok::<
                    Seq<Seq<char>>,
                    ErrView,
                >(v.deep_view()),
                Err(e) => Self::wixobj_sources_spec(dir_files.deep_view()) == Err::<
                    Seq<Seq<char>>,
                    ErrView,
                >(e@),
            },
    {
        let found = filter_by_ext(dir_files, "wixobj");
        if found.is_empty() {
            Err(Error::NoSourceFiles)
        } else {
            Ok(found)
        }
    }

    /// The explicitly enumerated source files, when any: the override
    /// list, else the packaging-metadata list, which counts only when
    /// every item is text.
    pub open spec fn explicit_sources_spec(self, m: Doc) -> Option<Seq<Seq<char>>> {
        match self.includes {
            Some(v) => Some(v.deep_view()),
            None => match wix_meta(m, "include"@) {
                Some(d) => text_items(d),
                None => None,
            },
        }
    }

    /// The explicitly enumerated source files, when any.  The caller
    /// checks each on disk and hands the statuses to source discovery.
    pub fn explicit_sources(&self, manifest: &Doc) -> (r: Option<Vec<String>>)
        ensures
            r.deep_view() == self.explicit_sources_spec(*manifest),
    {
        match &self.includes {
            Some(v) => Some(clone_vec_string(v)),
            None => match wix_meta_get(manifest, "include") {
                Some(d) => text_items_of(d),
                None => None,
            },
        }
    }

    /// Discovers the source files: the folder's entries with the source
    /// extension, followed by the explicitly enumerated files, each of
    /// which must exist and not be a directory; an empty result is an
    /// error.
    ///
    /// `dir_files` are the entries of the source folder and `statuses` the
    /// on-disk statuses of the explicitly enumerated files, in their order.
    pub open spec fn wxs_sources_spec(
        self,
        m: Doc,
        files: Seq<Seq<char>>,
        st: Seq<PathStatus>,
    ) -> Result<Seq<Seq<char>>, ErrView> {
        let scanned = matches_ext(files, "wxs"@);
        match self.explicit_sources_spec(m) {
            None => if scanned.len() == 0 {
                Err(ErrView::NoSourceFiles)
            } else {
                Ok(scanned)
            },
            Some(paths) => match validate_paths(paths, st) {
                Err(e) => Err(e),
                Ok(u) => if scanned.len() + paths.len() == 0 {
                    Err(ErrView::NoSourceFiles)
                } else {
                    Ok(scanned + paths)
                },
            },
        }
    }

    /// Discovers the source files.
    pub fn wxs_sources(
        &self,
        manifest: &Doc,
        dir_files: &Vec<String>,
        statuses: &Vec<PathStatus>,
    ) -> (r: Result<Vec<String>, Error>)
        requires
            statuses@.len() == (match self.explicit_sources_spec(*manifest) {
                Some(p) => p.len(),
                None => 0,
            }),
        ensures
            match r {
                Ok(v) => self.wxs_sources_spec(*manifest, dir_files.deep_view(), statuses@)
                    == Ok::<Seq<Seq<char>>, ErrView>(v.deep_view()),
                Err(e) => self.wxs_sources_spec(*manifest, dir_files.deep_view(), statuses@)
                    == Err::<Seq<Seq<char>>, ErrView>(e@),
            },
    {
        let mut scanned = filter_by_ext(dir_files, "wxs");
        match self.explicit_sources(manifest) {
            None => {
                if scanned.is_empty() {
                    Err(Error::NoSourceFiles)
                } else {
                    Ok(scanned)
                }
            },
            Some(paths) => {
                let ghost pdv = paths.deep_view();
                let n = paths.len();
                let mut i: usize = 0;
                proof {
                    assert(pdv.skip(0) =~= pdv);
                    assert(statuses@.skip(0) =~= statuses@);
                }
                while i < n
                    invariant
                        i <= n,
                        n == paths@.len(),
                        pdv == paths.deep_view(),
                        n == pdv.len(),
                        n == statuses@.len(),
                        self.explicit_sources_spec(*manifest) == Some(pdv),
                        scanned.deep_view() == matches_ext(dir_files.deep_view(), "wxs"@),
                        validate_paths(pdv, statuses@) == validate_paths(
                            pdv.skip(i as int),
                            statuses@.skip(i as int),
                        ),
                    decreases n - i,
                {
                    proof {
                        assert(pdv.skip(i as int)[0] == pdv[i as int]);
                        assert(statuses@.skip(i as int)[0] == statuses@[i as int]);
                        assert(pdv[i as int] == paths@[i as int]@);
                    }
                    match statuses[i] {
                        PathStatus::Missing => {
                            return Err(Error::NotFound(paths[i].clone()));
                        },
                        PathStatus::Directory => {
                            return Err(Error::NotAFile(paths[i].clone()));
                        },
                        PathStatus::File => {},
                    }
                    proof {
                        assert(pdv.skip(i as int).drop_first() =~= pdv.skip(i + 1));
                        assert(statuses@.skip(i as int).drop_first() =~= statuses@.skip(i + 1));
                    }
                    i += 1;
                }
                proof {
                    assert(pdv.skip(n as int).len() == 0);
                    assert(statuses@.skip(n as int).len() == 0);
                }
                let ghost scanned_dv = scanned.deep_view();
                let mut paths = paths;
                let no_scan = scanned.is_empty();
                let no_paths = paths.is_empty();
                scanned.append(&mut paths);
                proof {
                    assert(scanned.deep_view() =~= scanned_dv + pdv);
                }
                if no_scan && no_paths {
                    Err(Error::NoSourceFiles)
                } else {
                    Ok(scanned)
                }
            },
        }
    }

    /// Encodes a semantic version into the four-field numeric version the
    /// compiler accepts, in decimal with dots between the fields.
    pub fn candle_version(&self, version: &SemanticVersion) -> (r: Result<String, Error>)
        ensures
            match r {
                Ok(s) => encoded_chars(version@) == Ok::<Seq<char>, ErrView>(s@),
                Err(e) => encoded_chars(version@) == Err::<Seq<char>, ErrView>(e@),
            },
    {
        let build = match Self::build_value_from_pre(&version.pre) {
            Ok(b) => b,
            Err(e) => {
                return Err(e);
            },
        };
        let mut s = u64_to_string(version.major);
        s.append(".");
        let minor = u64_to_string(version.minor);
        s.append(minor.as_str());
        s.append(".");
        let patch = u64_to_string(version.patch);
        s.append(patch.as_str());
        s.append(".");
        let b = u64_to_string(build as u64);
        s.append(b.as_str());
        Ok(s)
    }
}

impl Default for Execution {
    /// An execution context with no overrides.
    fn default() -> (r: Self)
        ensures
            r@ == default_params(),
    {
        Builder::new().build()
    }
}

/// The filesystem facts one resolution needs, as the caller found them on
/// disk.
#[derive(Debug, PartialEq, Eq)]
pub struct FsFacts {
    /// What the winning localization path names on disk; immaterial when
    /// neither source names one.
    pub locale_status: PathStatus,
    /// The entries of the source folder; empty when the folder is missing.
    pub source_dir_files: Vec<String>,
    /// The status of each explicitly enumerated source file, in order.
    pub source_statuses: Vec<PathStatus>,
    /// Whether the explicitly requested output path names an existing
    /// directory.
    pub output_is_dir: bool,
}

/// The value of a set of filesystem facts.
pub struct FsFactsView {
    pub locale_status: PathStatus,
    pub source_dir_files: Seq<Seq<char>>,
    pub source_statuses: Seq<PathStatus>,
    pub output_is_dir: bool,
}

impl View for FsFacts {
    type V = FsFactsView;

    open spec fn view(&self) -> FsFactsView {
        FsFactsView {
            locale_status: self.locale_status,
            source_dir_files: self.source_dir_files.deep_view(),
            source_statuses: self.source_statuses@,
            output_is_dir: self.output_is_dir,
        }
    }
}

/// A fully resolved, immutable configuration: after resolution every
/// parameter has a definite value or its defined default — never an
/// ambiguous one.
#[derive(Debug, PartialEq, Eq)]
pub struct Configuration {
    pub name: String,
    pub version: SemanticVersion,
    pub encoded_version: String,
    pub culture: Cultures,
    pub locale: Option<String>,
    pub compiler_args: Option<Vec<String>>,
    pub linker_args: Option<Vec<String>>,
    pub debug_build: bool,
    pub debug_name: bool,
    pub no_build: bool,
    pub capture_output: bool,
    pub bin_path: Option<String>,
    pub platform: Platform,
    pub sources: Vec<String>,
    pub wixobj_destination: String,
    pub msi_destination: String,
}

/// The value of a resolved configuration.
pub struct ConfigurationView {
    pub name: Seq<char>,
    pub version: VersionView,
    pub encoded_version: Seq<char>,
    pub culture: Cultures,
    pub locale: Option<Seq<char>>,
    pub compiler_args: Option<Seq<Seq<char>>>,
    pub linker_args: Option<Seq<Seq<char>>>,
    pub debug_build: bool,
    pub debug_name: bool,
    pub no_build: bool,
    pub capture_output: bool,
    pub bin_path: Option<Seq<char>>,
    pub platform: Platform,
    pub sources: Seq<Seq<char>>,
    pub wixobj_destination: Seq<char>,
    pub msi_destination: Seq<char>,
}

impl View for Configuration {
    type V = ConfigurationView;

    open spec fn view(&self) -> ConfigurationView {
        ConfigurationView {
            name: self.name@,
            version: self.version@,
            encoded_version: self.encoded_version@,
            culture: self.culture,
            locale: self.locale.deep_view(),
            compiler_args: self.compiler_args.deep_view(),
            linker_args: self.linker_args.deep_view(),
            debug_build: self.debug_build,
            debug_name: self.debug_name,
            no_build: self.no_build,
            capture_output: self.capture_output,
            bin_path: self.bin_path.deep_view(),
            platform: self.platform,
            sources: self.sources.deep_view(),
            wixobj_destination: self.wixobj_destination@,
            msi_destination: self.msi_destination@,
        }
    }
}

impl Execution {
    /// The configuration one resolution yields, in resolution order:
    /// the first error aborts it.
    pub open spec fn resolve_spec(
        self,
        m: Doc,
        platform: Platform,
        f: FsFactsView,
    ) -> Result<ConfigurationView, ErrView> {
        match self.name_spec(m) {
            Err(e) => Err(e),
            Ok(name) => match self.semantic_version_spec(m) {
                Err(e) => Err(e),
                Ok(v) => match encoded_chars(v) {
                    Err(e) => Err(e),
                    Ok(enc) => match self.culture_spec(m) {
                        Err(e) => Err(e),
                        Ok(culture) => match self.locale_spec(m, f.locale_status) {
                            Err(e) => Err(e),
                            Ok(locale) => match self.wxs_sources_spec(
                                m,
                                f.source_dir_files,
                                f.source_statuses,
                            ) {
                                Err(e) => Err(e),
                                Ok(sources) => match self.wixobj_destination_spec() {
                                    Err(e) => Err(e),
                                    Ok(wixobj) => match self.msi_destination_spec(
                                        name@,
                                        v,
                                        platform,
                                        Self::flag_spec(self.debug_name, m, "dbg-name"@),
                                        m,
                                        f.output_is_dir,
                                    ) {
                                        Err(e) => Err(e),
                                        Ok(msi) => Ok(
                                            ConfigurationView {
                                                name: name@,
                                                version: v,
                                                encoded_version: enc,
                                                culture,
                                                locale: locale.deep_view(),
                                                compiler_args: Self::args_spec(
                                                    self.compiler_args,
                                                    m,
                                                    "compiler-args"@,
                                                ),
                                                linker_args: Self::args_spec(
                                                    self.linker_args,
                                                    m,
                                                    "linker-args"@,
                                                ),
                                                debug_build: Self::flag_spec(
                                                    self.debug_build,
                                                    m,
                                                    "dbg-build"@,
                                                ),
                                                debug_name: Self::flag_spec(
                                                    self.debug_name,
                                                    m,
                                                    "dbg-name"@,
                                                ),
                                                no_build: Self::flag_spec(
                                                    self.no_build,
                                                    m,
                                                    "no-build"@,
                                                ),
                                                capture_output: self.capture_output,
                                                bin_path: self@.bin_path,
                                                platform,
                                                sources,
                                                wixobj_destination: wixobj,
                                                msi_destination: msi,
                                            },
                                        ),
                                    },
                                },
                            },
                        },
                    },
                },
            },
        }
    }

    /// Resolves the whole configuration against the project's metadata and
    /// the caller's filesystem facts, aborting at the first error.
    pub fn resolve(&self, manifest: &Doc, platform: Platform, facts: &FsFacts) -> (r: Result<
        Configuration,
        Error,
    >)
        requires
            facts.source_statuses@.len() == (match self.explicit_sources_spec(*manifest) {
                Some(p) => p.len(),
                None => 0,
            }),
        ensures
            match r {
                Ok(c) => self.resolve_spec(*manifest, platform, facts@) == Ok::<
                    ConfigurationView,
                    ErrView,
                >(c@),
                Err(e) => self.resolve_spec(*manifest, platform, facts@) == Err::<
                    ConfigurationView,
                    ErrView,
                >(e@),
            },
    {
        let name = match self.name(manifest) {
            Ok(n) => n,
            Err(e) => {
                return Err(e);
            },
        };
        let version = match self.semantic_version(manifest) {
            Ok(v) => v,
            Err(e) => {
                return Err(e);
            },
        };
        let encoded_version = match self.candle_version(&version) {
            Ok(s) => s,
            Err(e) => {
                return Err(e);
            },
        };
        let culture = match self.culture(manifest) {
            Ok(c) => c,
            Err(e) => {
                return Err(e);
            },
        };
        let locale = match self.locale(manifest, facts.locale_status) {
            Ok(l) => l,
            Err(e) => {
                return Err(e);
            },
        };
        let sources = match self.wxs_sources(
            manifest,
            &facts.source_dir_files,
            &facts.source_statuses,
        ) {
            Ok(s) => s,
            Err(e) => {
                return Err(e);
            },
        };
        let wixobj_destination = match self.wixobj_destination() {
            Ok(w) => w,
            Err(e) => {
                return Err(e);
            },
        };
        let debug_name = self.debug_name(manifest);
        let msi_destination = match self.msi_destination(
            name.as_str(),
            &version,
            platform,
            debug_name,
            manifest,
            facts.output_is_dir,
        ) {
            Ok(p) => p,
            Err(e) => {
                return Err(e);
            },
        };
        let compiler_args = self.compiler_args(manifest);
        let linker_args = self.linker_args(manifest);
        let debug_build = self.debug_build(manifest);
        let no_build = self.no_build(manifest);
        Ok(
            Configuration {
                name,
                version,
                encoded_version,
                culture,
                locale,
                compiler_args,
                linker_args,
                debug_build,
                debug_name,
                no_build,
                capture_output: self.capture_output,
                bin_path: clone_opt_string(&self.bin_path),
                platform,
                sources,
                wixobj_destination,
                msi_destination,
            },
        )
    }
}

/// Resolution is deterministic and so idempotent: two resolutions of
/// identical overrides, metadata, platform and filesystem facts yield
/// identical outcomes — in particular, identical configurations.
pub proof fn lemma_resolution_idempotent(
    e: Execution,
    m: Doc,
    platform: Platform,
    f: FsFactsView,
    c1: Result<ConfigurationView, ErrView>,
    c2: Result<ConfigurationView, ErrView>,
)
    requires
        c1 == e.resolve_spec(m, platform, f),
        c2 == e.resolve_spec(m, platform, f),
    ensures
        c1 == c2,
{
}

/// An explicit override beats the metadata and the default for every
/// parameter: with the override present, the parameter resolves to the
/// override's own value, the same against any two metadata documents.
pub proof fn lemma_override_precedence(
    e: Execution,
    m1: Doc,
    m2: Doc,
    locale_status: PathStatus,
    name: Seq<char>,
    v: VersionView,
    platform: Platform,
    debug_name: bool,
    output_is_dir: bool,
    files: Seq<Seq<char>>,
    statuses: Seq<PathStatus>,
)
    ensures
        e.name matches Some(n) ==> e.name_spec(m1) == Ok::<String, ErrView>(n),
        e.version matches Some(ov) ==> e.semantic_version_spec(m1) == parse_version_spec(ov@),
        e.culture is Some ==> e.culture_spec(m1) == e.culture_spec(m2),
        e.locale matches Some(l) ==> e.locale_spec(m1, locale_status) == (match locale_status {
            PathStatus::File => Ok::<Option<String>, ErrView>(Some(l)),
            PathStatus::Missing => Err::<Option<String>, ErrView>(ErrView::NotFound(l@)),
            PathStatus::Directory => Err::<Option<String>, ErrView>(ErrView::NotAFile(l@)),
        }),
        e.compiler_args matches Some(a) ==> Execution::args_spec(
            e.compiler_args,
            m1,
            "compiler-args"@,
        ) == Some(a.deep_view()),
        e.linker_args matches Some(a) ==> Execution::args_spec(e.linker_args, m1, "linker-args"@)
            == Some(a.deep_view()),
        e.debug_build ==> Execution::flag_spec(e.debug_build, m1, "dbg-build"@),
        e.debug_name ==> Execution::flag_spec(e.debug_name, m1, "dbg-name"@),
        e.no_build ==> Execution::flag_spec(e.no_build, m1, "no-build"@),
        e.output matches Some(o) ==> e.output_candidate_spec(m1) == Some(o),
        e.output is Some ==> e.msi_destination_spec(name, v, platform, debug_name, m1, output_is_dir)
            == e.msi_destination_spec(name, v, platform, debug_name, m2, output_is_dir),
        e.includes is Some ==> e.wxs_sources_spec(m1, files, statuses) == e.wxs_sources_spec(
            m2,
            files,
            statuses,
        ),
{
}

} // verus!
