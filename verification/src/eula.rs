//! The end-user license agreement shown by the installer, and the embedded
//! templates a license document can be generated from.
//!
//! The agreement comes from the first of: an explicitly given file, which
//! must exist; the project's declared license file, when it is rich text
//! and exists; a template matching the project's declared license
//! identifier.  Otherwise the license dialog is disabled.

use vstd::prelude::*;
use crate::Error;
use crate::doc::{package_text, package_string, Doc};
use crate::strutil::{extension_is, has_extension, str_eq};
use crate::version::ErrView;

verus! {

/// An embedded document template: one license text per known license
/// identifier, and the installer source document.
#[derive(Debug, Clone, Copy, PartialEq, Eq, Structural)]
pub enum Template {
    Apache2,
    Gpl3,
    Mit,
    Wxs,
}

/// The template matching a license identifier.
pub open spec fn license_template_of(s: Seq<char>) -> Option<Template> {
    if s == "Apache-2.0"@ {
        Some(Template::Apache2)
    } else if s == "GPL-3.0"@ {
        Some(Template::Gpl3)
    } else if s == "MIT"@ {
        Some(Template::Mit)
    } else {
        None
    }
}

impl Template {
    /// The license identifier a template is generated for, or the name of
    /// the installer source template.
    pub open spec fn id_chars(self) -> Seq<char> {
        match self {
            Template::Apache2 => "Apache-2.0"@,
            Template::Gpl3 => "GPL-3.0"@,
            Template::Mit => "MIT"@,
            Template::Wxs => "WXS"@,
        }
    }

    /// The license identifier a template is generated for.
    pub fn id(&self) -> (r: &'static str)
        ensures
            r@ == self.id_chars(),
    {
        match self {
            Template::Apache2 => "Apache-2.0",
            Template::Gpl3 => "GPL-3.0",
            Template::Mit => "MIT",
            Template::Wxs => "WXS",
        }
    }

    /// The template matching a license identifier, if the identifier is
    /// known.
    pub fn from_license_id(s: &str) -> (r: Option<Template>)
        ensures
            r == license_template_of(s@),
    {
        if str_eq(s, "Apache-2.0") {
            Some(Template::Apache2)
        } else if str_eq(s, "GPL-3.0") {
            Some(Template::Gpl3)
        } else if str_eq(s, "MIT") {
            Some(Template::Mit)
        } else {
            None
        }
    }
}

/// Where the installer's license agreement comes from.
#[derive(Debug, PartialEq, Eq)]
pub enum Eula {
    /// An explicitly given file.
    CommandLine(String),
    /// The project's declared license file.
    Manifest(String),
    /// A document generated from the template for the declared license.
    Generate(Template),
    /// No agreement: the license dialog is left out.
    Disabled,
}

/// The agreement resolved from an optional explicit path and the project's
/// metadata.  `path_exists` reports whether the explicit path names
/// anything on disk, `license_file_exists` the same of the declared
/// license file.
pub open spec fn eula_new_spec(
    p: Option<String>,
    path_exists: bool,
    m: Doc,
    license_file_exists: bool,
) -> Result<Eula, ErrView> {
    match p {
        Some(path) => if path_exists {
            Ok(Eula::CommandLine(path))
        } else {
            Err(ErrView::NotFound(path@))
        },
        None => match package_text(m, "license-file"@) {
            Some(lf) => if has_extension(lf@, "rtf"@) && license_file_exists {
                Ok(Eula::Manifest(lf))
            } else {
                Ok(Eula::Disabled)
            },
            None => match package_text(m, "license"@) {
                Some(l) => match license_template_of(l@) {
                    Some(t) => Ok(Eula::Generate(t)),
                    None => Ok(Eula::Disabled),
                },
                None => Ok(Eula::Disabled),
            },
        },
    }
}

impl Eula {
    /// Resolves the agreement.
    pub fn new(
        p: Option<&String>,
        path_exists: bool,
        manifest: &Doc,
        license_file_exists: bool,
    ) -> (r: Result<Eula, Error>)
        ensures
            match r {
                Ok(e) => eula_new_spec(
                    match p {
                        Some(s) => Some(*s),
                        None => None,
                    },
                    path_exists,
                    *manifest,
                    license_file_exists,
                ) == Ok::<Eula, ErrView>(e),
                Err(e) => eula_new_spec(
                    match p {
                        Some(s) => Some(*s),
                        None => None,
                    },
                    path_exists,
                    *manifest,
                    license_file_exists,
                ) == Err::<Eula, ErrView>(e@),
            },
    {
        match p {
            Some(path) => {
                if path_exists {
                    Ok(Eula::CommandLine(path.clone()))
                } else {
                    Err(Error::NotFound(path.clone()))
                }
            },
            None => match package_string(manifest, "license-file") {
                Some(lf) => {
                    if extension_is(lf.as_str(), "rtf") && license_file_exists {
                        Ok(Eula::Manifest(lf))
                    } else {
                        Ok(Eula::Disabled)
                    }
                },
                None => match package_string(manifest, "license") {
                    Some(l) => match Template::from_license_id(l.as_str()) {
                        Some(t) => Ok(Eula::Generate(t)),
                        None => Ok(Eula::Disabled),
                    },
                    None => Ok(Eula::Disabled),
                },
            },
        }
    }

    /// The text naming the agreement's source inside the installer
    /// document: the file's path, the generated document's fixed name, or
    /// nothing when the dialog is disabled.
    pub fn source_text(&self) -> (r: String)
        ensures
            r@ == (match self {
                Eula::CommandLine(p) => p@,
                Eula::Manifest(p) => p@,
                Eula::Generate(_) => "License.rtf"@,
                Eula::Disabled => Seq::<char>::empty(),
            }),
    {
        match self {
            Eula::CommandLine(p) => p.clone(),
            Eula::Manifest(p) => p.clone(),
            Eula::Generate(_) => "License.rtf".to_owned(),
            Eula::Disabled => String::new(),
        }
    }
}

} // verus!
