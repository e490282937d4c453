//! Resolution of the values that fill the installer source document.
//!
//! A `Builder` collects explicit overrides; `build` turns them into an
//! `Execution`, whose methods resolve each value the document template
//! needs — the binaries to install, the license agreement, the help URL,
//! the manufacturer — from the overrides and the project's metadata.
//! Rendering the document itself is left to the caller.

use vstd::prelude::*;
use vstd::string::*;
use crate::Error;
use crate::doc::{package_get, package_get_doc, package_string, package_text, Doc};
use crate::eula::{eula_new_spec, license_template_of, Eula, Template};
use crate::strutil::{
    dec_str, extension_is, file_name_chars, file_name_of, file_stem_chars, file_stem_of,
    has_extension, join_chars, join_path, u64_to_string,
};
use crate::version::ErrView;
use crate::{first_author, first_author_spec, product_name, product_name_spec};

verus! {

/// The values of a set of overrides or of a built printing context, with
/// text abstracted to its characters.
pub struct ParamsView {
    pub banner: Option<Seq<char>>,
    pub binaries: Option<Seq<Seq<char>>>,
    pub description: Option<Seq<char>>,
    pub dialog: Option<Seq<char>>,
    pub eula: Option<Seq<char>>,
    pub help_url: Option<Seq<char>>,
    pub input: Option<Seq<char>>,
    pub license: Option<Seq<char>>,
    pub manufacturer: Option<Seq<char>>,
    pub output: Option<Seq<char>>,
    pub product_icon: Option<Seq<char>>,
    pub product_name: Option<Seq<char>>,
}

/// The parameter values a fresh builder starts from: nothing overridden.
pub open spec fn default_params() -> ParamsView {
    ParamsView {
        banner: None,
        binaries: None,
        description: None,
        dialog: None,
        eula: None,
        help_url: None,
        input: None,
        license: None,
        manufacturer: None,
        output: None,
        product_icon: None,
        product_name: None,
    }
}

/// A builder collecting the explicit overrides for printing an installer
/// source document.
#[derive(Debug, Clone, PartialEq, Eq)]
pub struct Builder {
    pub banner: Option<String>,
    pub binaries: Option<Vec<String>>,
    pub description: Option<String>,
    pub dialog: Option<String>,
    pub eula: Option<String>,
    pub help_url: Option<String>,
    pub input: Option<String>,
    pub license: Option<String>,
    pub manufacturer: Option<String>,
    pub output: Option<String>,
    pub product_icon: Option<String>,
    pub product_name: Option<String>,
}

impl View for Builder {
    type V = ParamsView;

    open spec fn view(&self) -> ParamsView {
        ParamsView {
            banner: self.banner.deep_view(),
            binaries: self.binaries.deep_view(),
            description: self.description.deep_view(),
            dialog: self.dialog.deep_view(),
            eula: self.eula.deep_view(),
            help_url: self.help_url.deep_view(),
            input: self.input.deep_view(),
            license: self.license.deep_view(),
            manufacturer: self.manufacturer.deep_view(),
            output: self.output.deep_view(),
            product_icon: self.product_icon.deep_view(),
            product_name: self.product_name.deep_view(),
        }
    }
}

fn own_opt_str(o: Option<&str>) -> (r: Option<String>)
    ensures
        r.deep_view() == o.deep_view(),
{
    match o {
        Some(s) => Some(s.to_owned()),
        None => None,
    }
}

fn own_strs(v: Vec<&str>) -> (r: Vec<String>)
    ensures
        r.deep_view() == v.deep_view(),
{
    let n = v.len();
    let mut out: Vec<String> = Vec::new();
    let mut i: usize = 0;
    while i < n
        invariant
            i <= n,
            n == v@.len(),
            out.deep_view() =~= v.deep_view().take(i as int),
        decreases n - i,
    {
        let ghost pre = out.deep_view();
        out.push(v[i].to_owned());
        proof {
            assert(out.deep_view() =~= pre.push(v.deep_view()[i as int]));
            assert(v.deep_view().take(i + 1) =~= v.deep_view().take(i as int).push(
                v.deep_view()[i as int],
            ));
        }
        i += 1;
    }
    proof {
        assert(v.deep_view().take(n as int) =~= v.deep_view());
    }
    out
}

fn clone_opt_string(o: &Option<String>) -> (r: Option<String>)
    ensures
        r == *o,
{
    match o {
        Some(s) => Some(s.clone()),
        None => None,
    }
}

fn clone_vec_string(v: &Vec<String>) -> (r: Vec<String>)
    ensures
        r@ =~= v@,
{
    let n = v.len();
    let mut out: Vec<String> = Vec::new();
    let mut i: usize = 0;
    while i < n
        invariant
            i <= n,
            n == v@.len(),
            out@ =~= v@.take(i as int),
        decreases n - i,
    {
        out.push(v[i].clone());
        i += 1;
    }
    proof {
        assert(v@.take(n as int) =~= v@);
    }
    out
}

fn clone_opt_vec_string(o: &Option<Vec<String>>) -> (r: Option<Vec<String>>)
    ensures
        r.deep_view() == o.deep_view(),
        r is Some <==> *o is Some,
{
    match o {
        Some(v) => Some(clone_vec_string(v)),
        None => None,
    }
}

impl Builder {
    /// Creates a new builder with nothing overridden.
    pub fn new() -> (r: Self)
        ensures
            r@ == default_params(),
    {
        Builder {
            banner: None,
            binaries: None,
            description: None,
            dialog: None,
            eula: None,
            help_url: None,
            input: None,
            license: None,
            manufacturer: None,
            output: None,
            product_icon: None,
            product_name: None,
        }
    }

    /// Sets the path to the banner image shown across the top of the
    /// installer's dialogs.
    pub fn banner(&mut self, b: Option<&str>) -> (r: &mut Self)
        ensures
            (*r)@ == (ParamsView { banner: b.deep_view(), ..old(self)@ }),
            *final(self) == *final(r),
    {
        self.banner = own_opt_str(b);
        self
    }

    /// Sets the paths of the binaries to install, overriding the project's
    /// declared ones.
    pub fn binaries(&mut self, b: Option<Vec<&str>>) -> (r: &mut Self)
        ensures
            (*r)@ == (ParamsView { binaries: b.deep_view(), ..old(self)@ }),
            *final(self) == *final(r),
    {
        self.binaries = match b {
            Some(v) => Some(own_strs(v)),
            None => None,
        };
        self
    }

    /// Sets the description, overriding the project's field.
    pub fn description(&mut self, d: Option<&str>) -> (r: &mut Self)
        ensures
            (*r)@ == (ParamsView { description: d.deep_view(), ..old(self)@ }),
            *final(self) == *final(r),
    {
        self.description = own_opt_str(d);
        self
    }

    /// Sets the path to the image shown on the installer's first dialog.
    pub fn dialog(&mut self, d: Option<&str>) -> (r: &mut Self)
        ensures
            (*r)@ == (ParamsView { dialog: d.deep_view(), ..old(self)@ }),
            *final(self) == *final(r),
    {
        self.dialog = own_opt_str(d);
        self
    }

    /// Sets the path to a custom license agreement file.
    pub fn eula(&mut self, e: Option<&str>) -> (r: &mut Self)
        ensures
            (*r)@ == (ParamsView { eula: e.deep_view(), ..old(self)@ }),
            *final(self) == *final(r),
    {
        self.eula = own_opt_str(e);
        self
    }

    /// Sets the help URL, overriding the project's fields.
    pub fn help_url(&mut self, h: Option<&str>) -> (r: &mut Self)
        ensures
            (*r)@ == (ParamsView { help_url: h.deep_view(), ..old(self)@ }),
            *final(self) == *final(r),
    {
        self.help_url = own_opt_str(h);
        self
    }

    /// Sets the path to the project's manifest.
    pub fn input(&mut self, i: Option<&str>) -> (r: &mut Self)
        ensures
            (*r)@ == (ParamsView { input: i.deep_view(), ..old(self)@ }),
            *final(self) == *final(r),
    {
        self.input = own_opt_str(i);
        self
    }

    /// Sets the path to the license sidecar file.
    pub fn license(&mut self, l: Option<&str>) -> (r: &mut Self)
        ensures
            (*r)@ == (ParamsView { license: l.deep_view(), ..old(self)@ }),
            *final(self) == *final(r),
    {
        self.license = own_opt_str(l);
        self
    }

    /// Sets the manufacturer, overriding the project's first author.
    pub fn manufacturer(&mut self, m: Option<&str>) -> (r: &mut Self)
        ensures
            (*r)@ == (ParamsView { manufacturer: m.deep_view(), ..old(self)@ }),
            *final(self) == *final(r),
    {
        self.manufacturer = own_opt_str(m);
        self
    }

    /// Sets the destination of the printed document.
    pub fn output(&mut self, o: Option<&str>) -> (r: &mut Self)
        ensures
            (*r)@ == (ParamsView { output: o.deep_view(), ..old(self)@ }),
            *final(self) == *final(r),
    {
        self.output = own_opt_str(o);
        self
    }

    /// Sets the path to the icon shown for the installed application.
    pub fn product_icon(&mut self, p: Option<&str>) -> (r: &mut Self)
        ensures
            (*r)@ == (ParamsView { product_icon: p.deep_view(), ..old(self)@ }),
            *final(self) == *final(r),
    {
        self.product_icon = own_opt_str(p);
        self
    }

    /// Sets the product name, overriding the project's field.
    pub fn product_name(&mut self, p: Option<&str>) -> (r: &mut Self)
        ensures
            (*r)@ == (ParamsView { product_name: p.deep_view(), ..old(self)@ }),
            *final(self) == *final(r),
    {
        self.product_name = own_opt_str(p);
        self
    }

    /// Builds a printing context carrying the collected overrides.
    pub fn build(&self) -> (e: Execution)
        ensures
            e@ == self@,
    {
        Execution {
            banner: clone_opt_string(&self.banner),
            binaries: clone_opt_vec_string(&self.binaries),
            description: clone_opt_string(&self.description),
            dialog: clone_opt_string(&self.dialog),
            eula: clone_opt_string(&self.eula),
            help_url: clone_opt_string(&self.help_url),
            input: clone_opt_string(&self.input),
            license: clone_opt_string(&self.license),
            manufacturer: clone_opt_string(&self.manufacturer),
            output: clone_opt_string(&self.output),
            product_icon: clone_opt_string(&self.product_icon),
            product_name: clone_opt_string(&self.product_name),
        }
    }
}

impl Default for Builder {
    /// A fresh builder.
    fn default() -> (r: Self)
        ensures
            r@ == default_params(),
    {
        Builder::new()
    }
}

/// A context for resolving the values that fill one installer source
/// document.
#[derive(Debug, PartialEq, Eq)]
pub struct Execution {
    pub banner: Option<String>,
    pub binaries: Option<Vec<String>>,
    pub description: Option<String>,
    pub dialog: Option<String>,
    pub eula: Option<String>,
    pub help_url: Option<String>,
    pub input: Option<String>,
    pub license: Option<String>,
    pub manufacturer: Option<String>,
    pub output: Option<String>,
    pub product_icon: Option<String>,
    pub product_name: Option<String>,
}

impl View for Execution {
    type V = ParamsView;

    open spec fn view(&self) -> ParamsView {
        ParamsView {
            banner: self.banner.deep_view(),
            binaries: self.binaries.deep_view(),
            description: self.description.deep_view(),
            dialog: self.dialog.deep_view(),
            eula: self.eula.deep_view(),
            help_url: self.help_url.deep_view(),
            input: self.input.deep_view(),
            license: self.license.deep_view(),
            manufacturer: self.manufacturer.deep_view(),
            output: self.output.deep_view(),
            product_icon: self.product_icon.deep_view(),
            product_name: self.product_name.deep_view(),
        }
    }
}

impl Default for Execution {
    /// A printing context with no overrides.
    fn default() -> (r: Self)
        ensures
            r@ == default_params(),
    {
        Builder::new().build()
    }
}

/// One binary the installer carries: its position, its name and the path
/// it is taken from.
#[derive(Debug, PartialEq, Eq)]
pub struct Binary {
    pub index: String,
    pub name: String,
    pub source: String,
}

/// The value of one binary entry.
pub struct BinaryView {
    pub index: Seq<char>,
    pub name: Seq<char>,
    pub source: Seq<char>,
}

impl View for Binary {
    type V = BinaryView;

    open spec fn view(&self) -> BinaryView {
        BinaryView { index: self.index@, name: self.name@, source: self.source@ }
    }
}

/// The path a binary is built to: under the build-output location, in the
/// profile's folder, with the executable extension.
pub open spec fn default_binary_path_chars(name: Seq<char>) -> Seq<char> {
    join_chars(
        join_chars("target"@, "$(var.Profile)"@),
        file_stem_chars(name) + ".exe"@,
    )
}

/// The position of the first explicitly given binary path without a file
/// stem, or a negative value when each has one.
pub open spec fn first_stemless(paths: Seq<Seq<char>>) -> int
    decreases paths.len(),
{
    if paths.len() == 0 {
        -1
    } else if file_stem_chars(paths[0]).len() == 0 {
        0
    } else {
        let r = first_stemless(paths.drop_first());
        if r < 0 {
            -1
        } else {
            r + 1
        }
    }
}

proof fn lemma_first_stemless_none(paths: Seq<Seq<char>>)
    requires
        forall|j: int| 0 <= j < paths.len() ==> file_stem_chars(#[trigger] paths[j]).len() > 0,
    ensures
        first_stemless(paths) < 0,
    decreases paths.len(),
{
    if paths.len() > 0 {
        lemma_first_stemless_none(paths.drop_first());
    }
}

proof fn lemma_first_stemless_found(paths: Seq<Seq<char>>, i: int)
    requires
        0 <= i < paths.len(),
        file_stem_chars(paths[i]).len() == 0,
        forall|j: int| 0 <= j < i ==> file_stem_chars(#[trigger] paths[j]).len() > 0,
    ensures
        first_stemless(paths) == i,
    decreases i,
{
    if i > 0 {
        lemma_first_stemless_found(paths.drop_first(), i - 1);
    }
}

/// The entries for explicitly given binary paths: each path must have a
/// file stem, which names the binary, and the first without one is
/// rejected.
pub open spec fn bins_from_paths(paths: Seq<Seq<char>>) -> Result<Seq<BinaryView>, ErrView> {
    let bad = first_stemless(paths);
    if bad >= 0 {
        Err(ErrView::InvalidValue(paths[bad]))
    } else {
        Ok(
            Seq::new(
                paths.len(),
                |i: int|
                    BinaryView {
                        index: dec_str(i as nat),
                        name: file_stem_chars(paths[i]),
                        source: paths[i],
                    },
            ),
        )
    }
}

/// The single entry used when nothing else names a binary: the product's
/// name, built at its default path.
pub open spec fn single_binary_spec(m: Doc) -> Result<Seq<BinaryView>, ErrView> {
    match product_name_spec(None, m) {
        Ok(n) => Ok(
            seq![
                BinaryView { index: "0"@, name: n@, source: default_binary_path_chars(n@) },
            ],
        ),
        Err(e) => Err(e),
    }
}

/// The name a declared binary section carries, when it carries one.
pub open spec fn bin_name_of(d: Doc) -> Option<Seq<char>> {
    match d.get_spec("name"@) {
        Some(n) => match n {
            Doc::Text(s) => Some(s@),
            _ => None,
        },
        None => None,
    }
}

/// The entries for the project's declared binary sections: each must name
/// its binary, which is then built at its default path.
pub open spec fn bins_from_sections(items: Seq<Doc>) -> Result<Seq<BinaryView>, ErrView> {
    if forall|i: int| 0 <= i < items.len() ==> bin_name_of(#[trigger] items[i]) is Some {
        Ok(
            Seq::new(
                items.len(),
                |i: int|
                    BinaryView {
                        index: dec_str(i as nat),
                        name: bin_name_of(items[i]).unwrap(),
                        source: default_binary_path_chars(bin_name_of(items[i]).unwrap()),
                    },
            ),
        )
    } else {
        Err(ErrView::MissingField("name"@))
    }
}

impl Execution {
    /// The binaries the installer carries: the explicitly given paths; else
    /// one entry per declared binary section; else a single entry named
    /// after the product.
    pub open spec fn binaries_spec(self, m: Doc) -> Result<Seq<BinaryView>, ErrView> {
        match self@.binaries {
            Some(paths) => bins_from_paths(paths),
            None => match m.get_spec("bin"@) {
                Some(Doc::List(items)) => bins_from_sections(items@),
                _ => single_binary_spec(m),
            },
        }
    }

    /// Resolves the binaries the installer carries.
    pub fn binaries(&self, manifest: &Doc) -> (r: Result<Vec<Binary>, Error>)
        ensures
            match r {
                Ok(v) => self.binaries_spec(*manifest) == Ok::<Seq<BinaryView>, ErrView>(
                    v@.map_values(|b: Binary| b@),
                ),
                Err(e) => self.binaries_spec(*manifest) == Err::<Seq<BinaryView>, ErrView>(e@),
            },
    {
        match &self.binaries {
            Some(paths) => {
                let ghost pdv = paths.deep_view();
                let n = paths.len();
                let mut out: Vec<Binary> = Vec::new();
                let mut i: usize = 0;
                while i < n
                    invariant
                        i <= n,
                        n == paths@.len(),
                        pdv == paths.deep_view(),
                        self@.binaries == Some(pdv),
                        forall|j: int|
                            0 <= j < i ==> file_stem_chars(#[trigger] pdv[j]).len() > 0,
                        out@.map_values(|b: Binary| b@) =~= Seq::new(
                            i as nat,
                            |k: int|
                                BinaryView {
                                    index: dec_str(k as nat),
                                    name: file_stem_chars(pdv[k]),
                                    source: pdv[k],
                                },
                        ),
                    decreases n - i,
                {
                    proof {
                        assert(pdv[i as int] == paths@[i as int]@);
                    }
                    let stem = file_stem_of(paths[i].as_str());
                    if stem.as_str().is_empty() {
                        proof {
                            lemma_first_stemless_found(pdv, i as int);
                        }
                        return Err(Error::InvalidValue(paths[i].clone()));
                    }
                    let index = u64_to_string(i as u64);
                    let ghost prev = out@.map_values(|b: Binary| b@);
                    out.push(Binary { index, name: stem, source: paths[i].clone() });
                    proof {
                        let entry = out@[i as int]@;
                        assert(out@.map_values(|b: Binary| b@) =~= prev.push(entry));
                        assert(entry == BinaryView {
                            index: dec_str(i as nat),
                            name: file_stem_chars(pdv[i as int]),
                            source: pdv[i as int],
                        });
                        assert(out@.map_values(|b: Binary| b@) =~= Seq::new(
                            (i + 1) as nat,
                            |k: int|
                                BinaryView {
                                    index: dec_str(k as nat),
                                    name: file_stem_chars(pdv[k]),
                                    source: pdv[k],
                                },
                        ));
                    }
                    i += 1;
                }
                proof {
                    lemma_first_stemless_none(pdv);
                }
                Ok(out)
            },
            None => match manifest.get("bin") {
                Some(b) => match b {
                    Doc::List(items) => {
                        let n = items.len();
                        let mut out: Vec<Binary> = Vec::new();
                        let mut i: usize = 0;
                        while i < n
                            invariant
                                i <= n,
                                n == items@.len(),
                                self.binaries_spec(*manifest) == bins_from_sections(items@),
                                forall|j: int|
                                    0 <= j < i ==> bin_name_of(#[trigger] items@[j]) is Some,
                                out@.map_values(|b: Binary| b@) =~= Seq::new(
                                    i as nat,
                                    |k: int|
                                        BinaryView {
                                            index: dec_str(k as nat),
                                            name: bin_name_of(items@[k]).unwrap(),
                                            source: default_binary_path_chars(
                                                bin_name_of(items@[k]).unwrap(),
                                            ),
                                        },
                                ),
                            decreases n - i,
                        {
                            let name: String = match items[i].get("name") {
                                Some(nd) => match nd.as_text() {
                                    Some(s) => s.clone(),
                                    None => {
                                        proof {
                                            assert(bin_name_of(items@[i as int]) is None);
                                        }
                                        return Err(Error::MissingField("name".to_owned()));
                                    },
                                },
                                None => {
                                    proof {
                                        assert(bin_name_of(items@[i as int]) is None);
                                    }
                                    return Err(Error::MissingField("name".to_owned()));
                                },
                            };
                            let index = u64_to_string(i as u64);
                            let source = Self::default_binary_path(name.as_str());
                            let ghost prev = out@.map_values(|b: Binary| b@);
                            out.push(Binary { index, name, source });
                            proof {
                                let entry = out@[i as int]@;
                                assert(out@.map_values(|b: Binary| b@) =~= prev.push(entry));
                                assert(entry == BinaryView {
                                    index: dec_str(i as nat),
                                    name: bin_name_of(items@[i as int]).unwrap(),
                                    source: default_binary_path_chars(
                                        bin_name_of(items@[i as int]).unwrap(),
                                    ),
                                });
                                assert(out@.map_values(|b: Binary| b@) =~= Seq::new(
                                    (i + 1) as nat,
                                    |k: int|
                                        BinaryView {
                                            index: dec_str(k as nat),
                                            name: bin_name_of(items@[k]).unwrap(),
                                            source: default_binary_path_chars(
                                                bin_name_of(items@[k]).unwrap(),
                                            ),
                                        },
                                ));
                            }
                            i += 1;
                        }
                        Ok(out)
                    },
                    _ => Self::single_binary(manifest),
                },
                None => Self::single_binary(manifest),
            },
        }
    }

    /// The single entry named after the product, used when nothing else
    /// names a binary.
    fn single_binary(manifest: &Doc) -> (r: Result<Vec<Binary>, Error>)
        ensures
            match r {
                Ok(v) => single_binary_spec(*manifest) == Ok::<Seq<BinaryView>, ErrView>(
                    v@.map_values(|b: Binary| b@),
                ),
                Err(e) => single_binary_spec(*manifest) == Err::<Seq<BinaryView>, ErrView>(e@),
            },
    {
        match product_name(None, manifest) {
            Ok(name) => {
                let source = Self::default_binary_path(name.as_str());
                let index = u64_to_string(0);
                let mut out: Vec<Binary> = Vec::new();
                out.push(Binary { index, name, source });
                proof {
                    assert(dec_str(0) =~= "0"@) by {
                        reveal_strlit("0");
                    }
                    let entry = out@[0]@;
                    assert(out@.map_values(|b: Binary| b@) =~= seq![entry]);
                    assert(entry == BinaryView {
                        index: "0"@,
                        name: entry.name,
                        source: default_binary_path_chars(entry.name),
                    });
                }
                Ok(out)
            },
            Err(e) => Err(e),
        }
    }

    /// The path a binary of the given name is built to.
    pub fn default_binary_path(name: &str) -> (r: String)
        ensures
            r@ == default_binary_path_chars(name@),
    {
        let dir = join_path("target", "$(var.Profile)");
        let mut file = file_stem_of(name);
        file.append(".exe");
        join_path(dir.as_str(), file.as_str())
    }

    /// The help URL: the first of the project's documentation, homepage
    /// and repository fields that is present, when it holds text.
    pub open spec fn help_url_spec(m: Doc) -> Option<String> {
        match package_get(m, "documentation"@) {
            Some(d) => d.as_text_spec(),
            None => match package_get(m, "homepage"@) {
                Some(d) => d.as_text_spec(),
                None => match package_get(m, "repository"@) {
                    Some(d) => d.as_text_spec(),
                    None => None,
                },
            },
        }
    }

    /// Resolves the help URL from the project's metadata.
    pub fn help_url(manifest: &Doc) -> (r: Option<String>)
        ensures
            r == Self::help_url_spec(*manifest),
    {
        match package_get_doc(manifest, "documentation") {
            Some(d) => match d.as_text() {
                Some(s) => Some(s.clone()),
                None => None,
            },
            None => match package_get_doc(manifest, "homepage") {
                Some(d) => match d.as_text() {
                    Some(s) => Some(s.clone()),
                    None => None,
                },
                None => match package_get_doc(manifest, "repository") {
                    Some(d) => match d.as_text() {
                        Some(s) => Some(s.clone()),
                        None => None,
                    },
                    None => None,
                },
            },
        }
    }

    /// The help URL shown for the installed application: the override,
    /// else the first of the project's documentation, homepage and
    /// repository fields that is present, when it holds text.
    pub open spec fn resolved_help_url_spec(self, m: Doc) -> Option<String> {
        match self.help_url {
            Some(u) => Some(u),
            None => Self::help_url_spec(m),
        }
    }

    /// Resolves the help URL, letting the override beat the project's
    /// fields.
    pub fn resolved_help_url(&self, manifest: &Doc) -> (r: Option<String>)
        ensures
            r == self.resolved_help_url_spec(*manifest),
    {
        match &self.help_url {
            Some(u) => Some(u.clone()),
            None => Self::help_url(manifest),
        }
    }

    /// The license agreement: the explicit agreement file when given; else
    /// the license sidecar override, when it is rich text; else what the
    /// project's metadata yields.
    pub open spec fn eula_spec(
        self,
        m: Doc,
        override_exists: bool,
        license_file_exists: bool,
    ) -> Result<Eula, ErrView> {
        match self.eula {
            Some(e) => eula_new_spec(Some(e), override_exists, m, license_file_exists),
            None => match self.license {
                Some(l) => if has_extension(l@, "rtf"@) {
                    eula_new_spec(Some(l), override_exists, m, license_file_exists)
                } else {
                    eula_new_spec(None, override_exists, m, license_file_exists)
                },
                None => eula_new_spec(None, override_exists, m, license_file_exists),
            },
        }
    }

    /// Resolves the license agreement; `override_exists` says whether the
    /// explicitly given file, when there is one, names anything on disk,
    /// and `license_file_exists` the same of the declared license file.
    pub fn eula(&self, manifest: &Doc, override_exists: bool, license_file_exists: bool) -> (r:
        Result<Eula, Error>)
        ensures
            match r {
                Ok(e) => self.eula_spec(*manifest, override_exists, license_file_exists) == Ok::<
                    Eula,
                    ErrView,
                >(e),
                Err(e) => self.eula_spec(*manifest, override_exists, license_file_exists) == Err::<
                    Eula,
                    ErrView,
                >(e@),
            },
    {
        match &self.eula {
            Some(e) => Eula::new(Some(e), override_exists, manifest, license_file_exists),
            None => match &self.license {
                Some(l) => {
                    if extension_is(l.as_str(), "rtf") {
                        Eula::new(Some(l), override_exists, manifest, license_file_exists)
                    } else {
                        Eula::new(None, override_exists, manifest, license_file_exists)
                    }
                },
                None => Eula::new(None, override_exists, manifest, license_file_exists),
            },
        }
    }

    /// The file name of the declared license file, when it has one.
    pub open spec fn license_file_name_spec(m: Doc) -> Option<Seq<char>> {
        match package_text(m, "license-file"@) {
            Some(lf) => if file_name_chars(lf@).len() > 0 {
                Some(file_name_chars(lf@))
            } else {
                None
            },
            None => None,
        }
    }

    /// The name shown for the license sidecar file: the overriding file's
    /// name; else the generated document's fixed name when the declared
    /// license is known; else the declared license file's name.
    pub open spec fn license_name_spec(self, m: Doc) -> Option<Seq<char>> {
        match self@.license {
            Some(l) => if file_name_chars(l).len() > 0 {
                Some(file_name_chars(l))
            } else {
                None
            },
            None => match package_text(m, "license"@) {
                Some(lic) => if license_template_of(lic@) is Some {
                    Some("License"@)
                } else {
                    Self::license_file_name_spec(m)
                },
                None => Self::license_file_name_spec(m),
            },
        }
    }

    /// Resolves the name shown for the license sidecar file.
    pub fn license_name(&self, manifest: &Doc) -> (r: Option<String>)
        ensures
            r.deep_view() == self.license_name_spec(*manifest),
    {
        match &self.license {
            Some(l) => {
                let name = file_name_of(l.as_str());
                if name.as_str().is_empty() {
                    None
                } else {
                    Some(name)
                }
            },
            None => match package_string(manifest, "license") {
                Some(lic) => {
                    if Template::from_license_id(lic.as_str()).is_some() {
                        Some(String::from_str("License"))
                    } else {
                        Self::license_file_name(manifest)
                    }
                },
                None => Self::license_file_name(manifest),
            },
        }
    }

    /// The file name of the declared license file, when it has one.
    fn license_file_name(manifest: &Doc) -> (r: Option<String>)
        ensures
            r.deep_view() == Self::license_file_name_spec(*manifest),
    {
        match package_string(manifest, "license-file") {
            Some(lf) => {
                let name = file_name_of(lf.as_str());
                if name.as_str().is_empty() {
                    None
                } else {
                    Some(name)
                }
            },
            None => None,
        }
    }

    /// The path of the license sidecar file: the override verbatim; else
    /// the generated document's fixed name when the declared license is
    /// known; else the declared license file when it exists on disk.
    pub open spec fn license_source_spec(self, m: Doc, license_file_exists: bool) -> Option<
        Seq<char>,
    > {
        match self@.license {
            Some(l) => Some(l),
            None => match package_text(m, "license"@) {
                Some(lic) => if license_template_of(lic@) is Some {
                    Some("License.rtf"@)
                } else {
                    Self::license_file_source_spec(m, license_file_exists)
                },
                None => Self::license_file_source_spec(m, license_file_exists),
            },
        }
    }

    /// The declared license file's path, when it exists on disk.
    pub open spec fn license_file_source_spec(m: Doc, license_file_exists: bool) -> Option<
        Seq<char>,
    > {
        match package_text(m, "license-file"@) {
            Some(lf) => if license_file_exists {
                Some(lf@)
            } else {
                None
            },
            None => None,
        }
    }

    /// Resolves the path of the license sidecar file; `license_file_exists`
    /// says whether the declared license file names anything on disk.
    pub fn license_source(&self, manifest: &Doc, license_file_exists: bool) -> (r: Result<
        Option<String>,
        Error,
    >)
        ensures
            match r {
                Ok(v) => v.deep_view() == self.license_source_spec(*manifest, license_file_exists),
                Err(e) => false,
            },
    {
        match &self.license {
            Some(l) => Ok(Some(l.clone())),
            None => match package_string(manifest, "license") {
                Some(lic) => {
                    if Template::from_license_id(lic.as_str()).is_some() {
                        Ok(Some(String::from_str("License.rtf")))
                    } else {
                        Ok(Self::license_file_source(manifest, license_file_exists))
                    }
                },
                None => Ok(Self::license_file_source(manifest, license_file_exists)),
            },
        }
    }

    /// The declared license file's path, when it exists on disk.
    fn license_file_source(manifest: &Doc, license_file_exists: bool) -> (r: Option<String>)
        ensures
            r.deep_view() == Self::license_file_source_spec(*manifest, license_file_exists),
    {
        match package_string(manifest, "license-file") {
            Some(lf) => {
                if license_file_exists {
                    Some(lf)
                } else {
                    None
                }
            },
            None => None,
        }
    }

    /// The manufacturer: the override, else the project's first declared
    /// author.
    pub open spec fn manufacturer_spec(self, m: Doc) -> Result<Seq<char>, ErrView> {
        match self@.manufacturer {
            Some(mf) => Ok(mf),
            None => first_author_spec(m),
        }
    }

    /// Resolves the manufacturer.
    pub fn manufacturer(&self, manifest: &Doc) -> (r: Result<String, Error>)
        ensures
            match r {
                Ok(s) => self.manufacturer_spec(*manifest) == Ok::<Seq<char>, ErrView>(s@),
                Err(e) => self.manufacturer_spec(*manifest) == Err::<Seq<char>, ErrView>(e@),
            },
    {
        match &self.manufacturer {
            Some(mf) => Ok(mf.clone()),
            None => first_author(manifest),
        }
    }
}

} // verus!
