//! Tests for resolving the values that fill the installer source document.

use cargo_wix::doc::Doc;
use cargo_wix::eula::{Eula, Template};
use cargo_wix::print::wxs::{Binary, Builder, Execution};
use cargo_wix::LICENSE_FILE_NAME;
use cargo_wix::RTF_FILE_EXTENSION;

fn table(entries: Vec<(&str, Doc)>) -> Doc {
    Doc::Table(
        entries
            .into_iter()
            .map(|(k, v)| (String::from(k), v))
            .collect(),
    )
}

fn text(s: &str) -> Doc {
    Doc::Text(String::from(s))
}

/// A manifest with the given `package` entries and top-level entries.
fn manifest_of(package: Vec<(&str, Doc)>, top: Vec<(&str, Doc)>) -> Doc {
    let mut entries = vec![("package", table(package))];
    entries.extend(top);
    table(entries)
}

fn base_package() -> Vec<(&'static str, Doc)> {
    vec![
        ("name", text("Example")),
        ("version", text("0.1.0")),
        (
            "authors",
            Doc::List(vec![text("First Last <first.last@example.com>")]),
        ),
    ]
}

fn min_manifest() -> Doc {
    manifest_of(base_package(), vec![])
}

fn licensed_manifest(license: &str) -> Doc {
    let mut package = base_package();
    package.push(("license", text(license)));
    manifest_of(package, vec![])
}

fn mit_manifest() -> Doc {
    licensed_manifest("MIT")
}

#[test]
fn license_name_with_mit_license_field_works() {
    let manifest = mit_manifest();
    let actual = Execution::default()
        .license_name(&manifest)
        .expect("License name");
    assert_eq!(actual, String::from(LICENSE_FILE_NAME));
}

#[test]
fn license_name_with_gpl3_license_field_works() {
    let manifest = licensed_manifest("GPL-3.0");
    let actual = Execution::default()
        .license_name(&manifest)
        .expect("License name");
    assert_eq!(actual, String::from(LICENSE_FILE_NAME));
}

#[test]
fn license_name_with_apache2_license_field_works() {
    let manifest = licensed_manifest("Apache-2.0");
    let actual = Execution::default()
        .license_name(&manifest)
        .expect("License name");
    assert_eq!(actual, String::from(LICENSE_FILE_NAME));
}

#[test]
fn license_name_with_unknown_license_field_works() {
    let manifest = licensed_manifest("XYZ");
    let actual = Execution::default().license_name(&manifest);
    assert!(actual.is_none());
}

#[test]
fn license_source_with_mit_license_field_works() {
    let manifest = mit_manifest();
    let actual = Execution::default()
        .license_source(&manifest, false)
        .expect("License source");
    assert_eq!(
        actual,
        Some(LICENSE_FILE_NAME.to_owned() + "." + RTF_FILE_EXTENSION)
    );
}

#[test]
fn license_source_with_gpl3_license_field_works() {
    let manifest = licensed_manifest("GPL-3.0");
    let actual = Execution::default()
        .license_source(&manifest, false)
        .expect("License source");
    assert_eq!(
        actual,
        Some(LICENSE_FILE_NAME.to_owned() + "." + RTF_FILE_EXTENSION)
    );
}

#[test]
fn license_source_with_apache2_license_field_works() {
    let manifest = licensed_manifest("Apache-2.0");
    let actual = Execution::default()
        .license_source(&manifest, false)
        .expect("License source");
    assert_eq!(
        actual,
        Some(LICENSE_FILE_NAME.to_owned() + "." + RTF_FILE_EXTENSION)
    );
}

#[test]
fn license_source_with_unknown_license_field_works() {
    let manifest = licensed_manifest("XYZ");
    let actual = Execution::default().license_source(&manifest, false).unwrap();
    assert!(actual.is_none());
}

fn binary(index: &str, name: &str, source: &str) -> Binary {
    Binary {
        index: String::from(index),
        name: String::from(name),
        source: String::from(source),
    }
}

#[test]
fn binaries_with_no_bin_section_works() {
    let manifest = min_manifest();
    let actual = Execution::default().binaries(&manifest).unwrap();
    assert_eq!(
        actual,
        vec![binary("0", "Example", "target\\$(var.Profile)\\Example.exe")]
    )
}

#[test]
fn binaries_with_single_bin_section_works() {
    let mut package = base_package();
    package.push(("license", text("MIT")));
    let manifest = manifest_of(
        package,
        vec![("bin", Doc::List(vec![table(vec![("name", text("Different"))])]))],
    );
    let actual = Execution::default().binaries(&manifest).unwrap();
    assert_eq!(
        actual,
        vec![binary("0", "Different", "target\\$(var.Profile)\\Different.exe")]
    )
}

#[test]
fn binaries_with_multiple_bin_sections_works() {
    let mut package = base_package();
    package.push(("license", text("MIT")));
    let manifest = manifest_of(
        package,
        vec![(
            "bin",
            Doc::List(vec![
                table(vec![
                    ("name", text("binary0")),
                    ("path", text("src/binary0/main.rs")),
                ]),
                table(vec![
                    ("name", text("binary1")),
                    ("path", text("src/binary1/main.rs")),
                ]),
                table(vec![
                    ("name", text("binary2")),
                    ("path", text("src/binary2/main.rs")),
                ]),
            ]),
        )],
    );
    let actual = Execution::default().binaries(&manifest).unwrap();
    assert_eq!(
        actual,
        vec![
            binary("0", "binary0", "target\\$(var.Profile)\\binary0.exe"),
            binary("1", "binary1", "target\\$(var.Profile)\\binary1.exe"),
            binary("2", "binary2", "target\\$(var.Profile)\\binary2.exe"),
        ]
    )
}

#[test]
fn manufacturer_with_defaults_works() {
    const EXPECTED: &str = "First Last";
    let manifest = min_manifest();
    let actual = Execution::default().manufacturer(&manifest).unwrap();
    assert_eq!(actual, String::from(EXPECTED));
}

#[test]
fn manufacturer_with_override_works() {
    const EXPECTED: &str = "Example";
    let manifest = min_manifest();
    let actual = Builder::default()
        .manufacturer(Some(EXPECTED))
        .build()
        .manufacturer(&manifest)
        .unwrap();
    assert_eq!(actual, String::from(EXPECTED));
}

#[test]
fn help_url_with_defaults_works() {
    let manifest = min_manifest();
    let actual = Execution::help_url(&manifest);
    assert!(actual.is_none());
}

#[test]
fn help_url_with_documentation_works() {
    const EXPECTED: &str = "http://www.example.com";
    let mut package = base_package();
    package.push(("license", text("MIT")));
    package.push(("documentation", text(EXPECTED)));
    let manifest = manifest_of(package, vec![]);
    let actual = Execution::help_url(&manifest);
    assert_eq!(actual, Some(String::from(EXPECTED)));
}

#[test]
fn help_url_with_homepage_works() {
    const EXPECTED: &str = "http://www.example.com";
    let mut package = base_package();
    package.push(("license", text("MIT")));
    package.push(("homepage", text(EXPECTED)));
    let manifest = manifest_of(package, vec![]);
    let actual = Execution::help_url(&manifest);
    assert_eq!(actual, Some(String::from(EXPECTED)));
}

#[test]
fn help_url_with_repository_works() {
    const EXPECTED: &str = "http://www.example.com";
    let mut package = base_package();
    package.push(("license", text("MIT")));
    package.push(("repository", text(EXPECTED)));
    let manifest = manifest_of(package, vec![]);
    let actual = Execution::help_url(&manifest);
    assert_eq!(actual, Some(String::from(EXPECTED)));
}

#[test]
fn eula_with_defaults_works() {
    let manifest = min_manifest();
    let actual = Execution::default().eula(&manifest, false, false).unwrap();
    assert_eq!(actual, Eula::Disabled);
}

#[test]
fn eula_with_mit_license_field_works() {
    let manifest = mit_manifest();
    let actual = Execution::default().eula(&manifest, false, false).unwrap();
    assert_eq!(actual, Eula::Generate(Template::Mit));
}

#[test]
fn eula_with_apache2_license_field_works() {
    let manifest = licensed_manifest("Apache-2.0");
    let actual = Execution::default().eula(&manifest, false, false).unwrap();
    assert_eq!(actual, Eula::Generate(Template::Apache2));
}

#[test]
fn eula_with_gpl3_license_field_works() {
    let manifest = licensed_manifest("GPL-3.0");
    let actual = Execution::default().eula(&manifest, false, false).unwrap();
    assert_eq!(actual, Eula::Generate(Template::Gpl3));
}

#[test]
fn eula_with_unknown_license_field_works() {
    let manifest = licensed_manifest("XYZ");
    let actual = Execution::default().eula(&manifest, false, false).unwrap();
    assert_eq!(actual, Eula::Disabled);
}

#[test]
fn eula_with_override_path_works() {
    // An explicitly given agreement file that exists is used verbatim,
    // whatever its extension.
    let manifest = mit_manifest();
    let actual = Builder::default()
        .eula(Some("Example.rtf"))
        .build()
        .eula(&manifest, true, false)
        .unwrap();
    assert_eq!(actual, Eula::CommandLine(String::from("Example.rtf")));
    let wrong_extension = Builder::default()
        .eula(Some("Example.txt"))
        .build()
        .eula(&manifest, true, false)
        .unwrap();
    assert_eq!(wrong_extension, Eula::CommandLine(String::from("Example.txt")));
}

#[test]
fn eula_with_missing_override_path_fails() {
    // An explicitly given agreement file that names nothing on disk is
    // rejected with the path.
    let manifest = mit_manifest();
    let actual = Builder::default()
        .eula(Some("Example.rtf"))
        .build()
        .eula(&manifest, false, false);
    assert_eq!(
        actual,
        Err(cargo_wix::Error::NotFound(String::from("Example.rtf")))
    );
}

#[test]
fn eula_with_license_file_works() {
    // A declared rich-text license file that exists becomes the agreement;
    // one with another extension, or one that is missing, disables it.
    let mut package = base_package();
    package.push(("license-file", text("docs/Example.rtf")));
    let manifest = manifest_of(package, vec![]);
    let actual = Execution::default().eula(&manifest, false, true).unwrap();
    assert_eq!(actual, Eula::Manifest(String::from("docs/Example.rtf")));
    let missing = Execution::default().eula(&manifest, false, false).unwrap();
    assert_eq!(missing, Eula::Disabled);

    let mut txt_package = base_package();
    txt_package.push(("license-file", text("docs/Example.txt")));
    let txt_manifest = manifest_of(txt_package, vec![]);
    let wrong_extension = Execution::default().eula(&txt_manifest, false, true).unwrap();
    assert_eq!(wrong_extension, Eula::Disabled);
}

#[test]
fn help_url_override_beats_the_manifest_fields() {
    let mut package = base_package();
    package.push(("documentation", text("http://docs.example.com")));
    let manifest = manifest_of(package, vec![]);
    let overridden = Builder::default()
        .help_url(Some("http://override.example.com"))
        .build()
        .resolved_help_url(&manifest);
    assert_eq!(overridden, Some(String::from("http://override.example.com")));
    let fallback = Execution::default().resolved_help_url(&manifest);
    assert_eq!(fallback, Some(String::from("http://docs.example.com")));
}
