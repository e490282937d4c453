//! A configuration-resolution and version-encoding engine for driving a
//! two-stage packaging toolchain (compiler plus linker) that produces a
//! platform installer.
//!
//! The library decides, for each build parameter, which of several sources
//! wins (explicit override, packaging metadata, top-level project field,
//! hardcoded default), validates the chosen values, and losslessly re-encodes
//! a semantic version into the numeric four-field format the external
//! compiler requires.  Invoking the external processes, rendering the
//! installer source document and command-line parsing are left to the caller.

use vstd::prelude::*;

pub mod create;
pub mod cultures;
pub mod doc;
pub mod eula;
pub mod print;
pub mod strutil;
pub mod version;

verus! {

/// The name of the generated license sidecar file, without its extension.
pub const LICENSE_FILE_NAME: &'static str = "License";

/// The extension of a rich-text document.
pub const RTF_FILE_EXTENSION: &'static str = "rtf";

/// The extension of an installer source file.
pub const WIX_SOURCE_FILE_EXTENSION: &'static str = "wxs";

/// The extension of a compiled object file.
pub const WIX_OBJECT_FILE_EXTENSION: &'static str = "wixobj";

/// The extension of the produced installer.
pub const MSI_FILE_EXTENSION: &'static str = "msi";

/// The extension of an executable on the target platform.
pub const EXE_FILE_EXTENSION: &'static str = "exe";

/// The folder, beside the project's manifest, holding installer sources.
pub const WIX: &'static str = "wix";

/// The folder build output goes under.
pub const TARGET_FOLDER_NAME: &'static str = "target";

/// A typed failure of resolution, validation or encoding.
///
/// Every failure is reported synchronously by the detecting operation;
/// resolution aborts at the first error encountered.
#[derive(Debug, PartialEq, Eq)]
pub enum Error {
    /// A required parameter has no value in any source; holds the field name.
    MissingField(String),
    /// A malformed culture or version string; holds the offending text.
    InvalidValue(String),
    /// A numeric prerelease identifier too large for its byte; holds the
    /// value, saturated when it does not even fit a machine word.
    Overflow(u64),
    /// A prerelease identifier whose leading character is not alphabetic;
    /// holds the identifier.
    InvalidIdentifier(String),
    /// A path that names nothing on disk; holds the path.
    NotFound(String),
    /// A path that names a directory where a file is required; holds the path.
    NotAFile(String),
    /// Source discovery came up empty.
    NoSourceFiles,
}

/// The platform of the build environment, as the toolchain names it.
#[derive(Debug, Clone, Copy, PartialEq, Eq, Structural)]
pub enum Platform {
    X86,
    X64,
}

impl Platform {
    /// The architecture name used in derived installer file names.
    pub fn arch(&self) -> (r: &'static str)
        ensures
            r@ == self.arch_chars(),
    {
        match self {
            Platform::X86 => "i686",
            Platform::X64 => "x86_64",
        }
    }

    /// The architecture name as a sequence of characters.
    pub open spec fn arch_chars(self) -> Seq<char> {
        match self {
            Platform::X86 => "i686"@,
            Platform::X64 => "x86_64"@,
        }
    }

    /// The platform of the running build environment, decided by the width
    /// of a machine word.
    pub fn host() -> (r: Platform)
        ensures
            r == (if vstd::layout::size_of::<usize>() == 8 {
                Platform::X64
            } else {
                Platform::X86
            }),
    {
        if core::mem::size_of::<usize>() == 8 {
            Platform::X64
        } else {
            Platform::X86
        }
    }
}

/// The product name: the override when given, else the project's own name
/// field, which is required.
pub open spec fn product_name_spec(o: Option<String>, m: doc::Doc) -> Result<
    String,
    version::ErrView,
> {
    match o {
        Some(n) => Ok(n),
        None => match doc::package_text(m, "name"@) {
            Some(t) => Ok(t),
            None => Err(version::ErrView::MissingField("name"@)),
        },
    }
}

/// Resolves the product name from an optional override and the project's
/// metadata.
pub fn product_name(o: Option<&String>, manifest: &doc::Doc) -> (r: Result<String, Error>)
    ensures
        version::res_view(r) == product_name_spec(
            match o {
                Some(s) => Some(*s),
                None => None,
            },
            *manifest,
        ),
{
    match o {
        Some(n) => Ok(n.clone()),
        None => match doc::package_string(manifest, "name") {
            Some(t) => Ok(t),
            None => Err(Error::MissingField("name".to_owned())),
        },
    }
}

/// The description: the override when given, else the project's own
/// description field, else none.
pub open spec fn description_spec(o: Option<String>, m: doc::Doc) -> Option<String> {
    match o {
        Some(d) => Some(d),
        None => doc::package_text(m, "description"@),
    }
}

/// Resolves the description from an optional override and the project's
/// metadata.
pub fn description(o: Option<String>, manifest: &doc::Doc) -> (r: Option<String>)
    ensures
        r == description_spec(o, *manifest),
{
    match o {
        Some(d) => Some(d),
        None => doc::package_string(manifest, "description"),
    }
}

/// The display form of the project's first declared author, which is
/// required: what stands before the contact address, without surrounding
/// spaces.
pub open spec fn first_author_spec(m: doc::Doc) -> Result<Seq<char>, version::ErrView> {
    match doc::package_get(m, "authors"@) {
        Some(doc::Doc::List(items)) => if items@.len() > 0 {
            match items@[0] {
                doc::Doc::Text(s) => Ok(strutil::author_display(s@)),
                _ => Err(version::ErrView::MissingField("authors"@)),
            }
        } else {
            Err(version::ErrView::MissingField("authors"@))
        },
        _ => Err(version::ErrView::MissingField("authors"@)),
    }
}

/// Resolves the first declared author's display form.
pub fn first_author(manifest: &doc::Doc) -> (r: Result<String, Error>)
    ensures
        match r {
            Ok(s) => first_author_spec(*manifest) == Ok::<Seq<char>, version::ErrView>(s@),
            Err(e) => first_author_spec(*manifest) == Err::<Seq<char>, version::ErrView>(e@),
        },
{
    match doc::package_get_doc(manifest, "authors") {
        Some(doc::Doc::List(items)) => {
            if items.len() > 0 {
                match &items[0] {
                    doc::Doc::Text(s) => Ok(strutil::author_display_of(s.as_str())),
                    _ => Err(Error::MissingField("authors".to_owned())),
                }
            } else {
                Err(Error::MissingField("authors".to_owned()))
            }
        },
        _ => Err(Error::MissingField("authors".to_owned())),
    }
}

} // verus!
