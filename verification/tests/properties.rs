//! Tests for the stated properties of resolution, discovery, version
//! encoding and output-path branching.

use cargo_wix::create::{Builder, Configuration, Execution, FsFacts, PathStatus};
use cargo_wix::cultures::Cultures;
use cargo_wix::doc::Doc;
use cargo_wix::Error;
use cargo_wix::Platform;
use cargo_wix::eula::Template;

fn table(entries: Vec<(&str, Doc)>) -> Doc {
    Doc::Table(
        entries
            .into_iter()
            .map(|(k, v)| (String::from(k), v))
            .collect(),
    )
}

fn text(s: &str) -> Doc {
    Doc::Text(String::from(s))
}

fn manifest_with_wix(mut package: Vec<(&str, Doc)>, wix: Vec<(&str, Doc)>) -> Doc {
    package.push(("metadata", table(vec![("wix", table(wix))])));
    table(vec![("package", table(package))])
}

fn sample_manifest() -> Doc {
    manifest_with_wix(
        vec![("name", text("example")), ("version", text("0.1.0"))],
        vec![("culture", text("Fr-Fr")), ("output", text("meta\\out\\"))],
    )
}

fn sample_facts() -> FsFacts {
    FsFacts {
        locale_status: PathStatus::Missing,
        source_dir_files: vec![String::from("main.wxs"), String::from("notes.txt")],
        source_statuses: Vec::new(),
        output_is_dir: false,
    }
}

fn encode(version_text: &str) -> Result<String, Error> {
    let execution = Builder::new().version(Some(version_text)).build();
    let manifest = Doc::Table(Vec::new());
    let version = execution.semantic_version(&manifest)?;
    execution.candle_version(&version)
}

fn build_field(version_text: &str) -> u64 {
    let encoded = encode(version_text).unwrap();
    encoded.rsplit('.').next().unwrap().parse::<u64>().unwrap()
}

#[test]
fn resolving_twice_yields_identical_configurations() {
    let manifest = sample_manifest();
    let execution = Execution::default();
    let facts = sample_facts();
    let first: Configuration = execution
        .resolve(&manifest, Platform::X64, &facts)
        .unwrap();
    let second: Configuration = execution
        .resolve(&manifest, Platform::X64, &facts)
        .unwrap();
    assert_eq!(first, second);
}

#[test]
fn resolved_configuration_is_complete() {
    let manifest = sample_manifest();
    let config = Execution::default()
        .resolve(&manifest, Platform::X64, &sample_facts())
        .unwrap();
    assert_eq!(config.name, String::from("example"));
    assert_eq!(config.encoded_version, String::from("0.1.0.65535"));
    assert_eq!(config.culture, Cultures::FrFr);
    assert_eq!(config.locale, None);
    assert_eq!(config.sources, vec![String::from("main.wxs")]);
    assert_eq!(config.wixobj_destination, String::from("target\\wix\\"));
    assert_eq!(
        config.msi_destination,
        String::from("meta\\out\\example-0.1.0-x86_64.msi")
    );
    assert!(!config.debug_build);
    assert!(!config.no_build);
}

#[test]
fn override_beats_metadata_for_every_parameter() {
    let manifest = manifest_with_wix(
        vec![("name", text("meta-name")), ("version", text("0.1.0"))],
        vec![
            ("name", text("meta-wix-name")),
            ("version", text("9.9.9")),
            ("culture", text("Fr-Fr")),
            ("locale", text("meta.wxl")),
            ("output", text("meta\\out\\")),
            ("dbg-build", Doc::Boolean(false)),
            ("dbg-name", Doc::Boolean(false)),
            ("no-build", Doc::Boolean(false)),
            ("compiler-args", Doc::List(vec![text("-meta")])),
            ("linker-args", Doc::List(vec![text("-meta")])),
            ("include", Doc::List(vec![text("meta.wxs")])),
        ],
    );
    let mut builder = Builder::new();
    builder.name(Some("over-name"));
    builder.version(Some("1.2.3"));
    builder.culture(Some("de-DE"));
    builder.locale(Some("over.wxl"));
    builder.output(Some("over\\out\\"));
    builder.debug_build(true);
    builder.debug_name(true);
    builder.no_build(true);
    builder.compiler_args(Some(vec!["-over-c"]));
    builder.linker_args(Some(vec!["-over-l"]));
    builder.includes(Some(vec!["over.wxs"]));
    let execution = builder.build();
    let facts = FsFacts {
        locale_status: PathStatus::File,
        source_dir_files: Vec::new(),
        source_statuses: vec![PathStatus::File],
        output_is_dir: false,
    };
    let config = execution.resolve(&manifest, Platform::X86, &facts).unwrap();
    assert_eq!(config.name, String::from("over-name"));
    assert_eq!(config.encoded_version, String::from("1.2.3.65535"));
    assert_eq!(config.culture, Cultures::DeDe);
    assert_eq!(config.locale, Some(String::from("over.wxl")));
    assert_eq!(config.compiler_args, Some(vec![String::from("-over-c")]));
    assert_eq!(config.linker_args, Some(vec![String::from("-over-l")]));
    assert!(config.debug_build);
    assert!(config.debug_name);
    assert!(config.no_build);
    assert_eq!(config.sources, vec![String::from("over.wxs")]);
    assert_eq!(
        config.msi_destination,
        String::from("over\\out\\over-name-1.2.3-i686-debug.msi")
    );
}

#[test]
fn overflow_is_reported_with_the_numeric_value() {
    assert_eq!(encode("1.2.3-230.0"), Err(Error::Overflow(230)));
    assert_eq!(encode("1.2.3-0.230"), Err(Error::Overflow(230)));
    // The second identifier fails although the first is a valid letter.
    assert_eq!(encode("1.2.3-A.230"), Err(Error::Overflow(230)));
}

#[test]
fn invalid_identifier_is_reported_with_the_identifier() {
    assert_eq!(
        encode("1.2.3--x.0"),
        Err(Error::InvalidIdentifier(String::from("-x")))
    );
}

#[test]
fn malformed_version_is_reported_with_the_text() {
    assert_eq!(
        encode("not-a-version"),
        Err(Error::InvalidValue(String::from("not-a-version")))
    );
}

#[test]
fn build_field_grows_with_the_first_numeric_identifier() {
    let mut previous = build_field("7.8.9-0");
    for n in [1u64, 2, 10, 100, 228, 229] {
        let version = format!("7.8.9-{}", n);
        let current = build_field(&version);
        assert!(previous < current, "{} did not grow", version);
        // The field never crosses into the letter range.
        assert!(current < 230 * 256);
        previous = current;
    }
}

#[test]
fn empty_discovery_yields_no_source_files() {
    let manifest = manifest_with_wix(vec![], vec![]);
    let execution = Execution::default();
    let sources = execution.wxs_sources(&manifest, &Vec::new(), &Vec::new());
    assert_eq!(sources, Err(Error::NoSourceFiles));
    // A folder with entries of other extensions is just as empty.
    let others = vec![String::from("readme.md"), String::from("notes.txt")];
    assert_eq!(
        execution.wxs_sources(&manifest, &others, &Vec::new()),
        Err(Error::NoSourceFiles)
    );
}

#[test]
fn discovery_reports_missing_and_directory_entries() {
    let manifest = manifest_with_wix(vec![], vec![]);
    let mut builder = Builder::new();
    builder.includes(Some(vec!["gone.wxs", "dir.wxs"]));
    let execution = builder.build();
    let missing = execution.wxs_sources(
        &manifest,
        &Vec::new(),
        &vec![PathStatus::Missing, PathStatus::File],
    );
    assert_eq!(missing, Err(Error::NotFound(String::from("gone.wxs"))));
    let directory = execution.wxs_sources(
        &manifest,
        &Vec::new(),
        &vec![PathStatus::File, PathStatus::Directory],
    );
    assert_eq!(directory, Err(Error::NotAFile(String::from("dir.wxs"))));
}

#[test]
fn discovery_appends_metadata_entries_to_the_scan() {
    let manifest = manifest_with_wix(
        vec![],
        vec![("include", Doc::List(vec![text("extra.wxs")]))],
    );
    let execution = Execution::default();
    let dir = vec![String::from("main.wxs"), String::from("other.wixobj")];
    let sources = execution
        .wxs_sources(&manifest, &dir, &vec![PathStatus::File])
        .unwrap();
    assert_eq!(
        sources,
        vec![String::from("main.wxs"), String::from("extra.wxs")]
    );
}

#[test]
fn wixobj_discovery_filters_by_extension() {
    let execution = Execution::default();
    let dir = vec![
        String::from("a.wixobj"),
        String::from("b.txt"),
        String::from("c.wixobj"),
    ];
    assert_eq!(
        execution.wixobj_sources(&dir).unwrap(),
        vec![String::from("a.wixobj"), String::from("c.wixobj")]
    );
    assert_eq!(
        execution.wixobj_sources(&vec![String::from("b.txt")]),
        Err(Error::NoSourceFiles)
    );
}

fn destination_for(output: Option<&str>, is_dir: bool) -> String {
    let mut builder = Builder::new();
    builder.output(output);
    builder.name(Some("Example"));
    builder.version(Some("2.1.0"));
    let execution = builder.build();
    let manifest = Doc::Table(Vec::new());
    let version = execution.semantic_version(&manifest).unwrap();
    execution
        .msi_destination("Example", &version, Platform::X64, false, &manifest, is_dir)
        .unwrap()
}

#[test]
fn output_ending_in_separator_gains_the_derived_file_name() {
    assert_eq!(
        destination_for(Some("out\\"), false),
        String::from("out\\Example-2.1.0-x86_64.msi")
    );
    assert_eq!(
        destination_for(Some("out/"), false),
        String::from("out/Example-2.1.0-x86_64.msi")
    );
}

#[test]
fn output_naming_an_existing_directory_gains_the_derived_file_name() {
    assert_eq!(
        destination_for(Some("out"), true),
        String::from("out\\Example-2.1.0-x86_64.msi")
    );
}

#[test]
fn any_other_output_is_used_verbatim() {
    assert_eq!(
        destination_for(Some("custom.msi"), false),
        String::from("custom.msi")
    );
    assert_eq!(destination_for(Some("plain"), false), String::from("plain"));
}

#[test]
fn default_output_lands_beside_the_manifest() {
    let mut builder = Builder::new();
    builder.name(Some("Example"));
    builder.version(Some("2.1.0"));
    builder.input(Some("C:\\proj\\Cargo.toml"));
    let execution = builder.build();
    let manifest = Doc::Table(Vec::new());
    let version = execution.semantic_version(&manifest).unwrap();
    let destination = execution
        .msi_destination("Example", &version, Platform::X86, true, &manifest, false)
        .unwrap();
    assert_eq!(
        destination,
        String::from("C:\\proj\\target\\wix\\Example-2.1.0-i686-debug.msi")
    );
}

#[test]
fn missing_name_and_version_are_reported_by_field() {
    let manifest = Doc::Table(Vec::new());
    let execution = Execution::default();
    assert_eq!(
        execution.name(&manifest),
        Err(Error::MissingField(String::from("name")))
    );
    assert!(matches!(
        execution.semantic_version(&manifest),
        Err(Error::MissingField(_))
    ));
}

#[test]
fn unknown_culture_is_rejected_with_the_string() {
    let execution = Builder::new().culture(Some("xx-XX")).build();
    let manifest = Doc::Table(Vec::new());
    assert_eq!(
        execution.culture(&manifest),
        Err(Error::InvalidValue(String::from("xx-XX")))
    );
}

#[test]
fn cultures_are_read_case_insensitively() {
    assert_eq!(Cultures::from_str("fr-fr").unwrap(), Cultures::FrFr);
    assert_eq!(Cultures::from_str("FR-FR").unwrap(), Cultures::FrFr);
    assert_eq!(Cultures::from_str("en-US").unwrap(), Cultures::EnUs);
    assert_eq!(Cultures::EnUs.code(), "en-US");
    assert_eq!(Cultures::FrFr.code(), "fr-FR");
    assert!(Cultures::from_str("frfr").is_err());
}

#[test]
fn missing_locale_override_is_rejected_with_the_path() {
    let execution = Builder::new().locale(Some("gone.wxl")).build();
    let manifest = Doc::Table(Vec::new());
    assert_eq!(
        execution.locale(&manifest, PathStatus::Missing),
        Err(Error::NotFound(String::from("gone.wxl")))
    );
    assert_eq!(
        execution.locale(&manifest, PathStatus::Directory),
        Err(Error::NotAFile(String::from("gone.wxl")))
    );
    assert_eq!(
        execution.locale(&manifest, PathStatus::File),
        Ok(Some(String::from("gone.wxl")))
    );
}

#[test]
fn metadata_locale_must_name_a_file_too() {
    // The winning localization path is checked whichever source it comes
    // from: the metadata-declared one is no exception.
    let manifest = manifest_with_wix(vec![], vec![("locale", text("meta.wxl"))]);
    let execution = Execution::default();
    assert_eq!(
        execution.locale(&manifest, PathStatus::Missing),
        Err(Error::NotFound(String::from("meta.wxl")))
    );
    assert_eq!(
        execution.locale(&manifest, PathStatus::Directory),
        Err(Error::NotAFile(String::from("meta.wxl")))
    );
    assert_eq!(
        execution.locale(&manifest, PathStatus::File),
        Ok(Some(String::from("meta.wxl")))
    );
}

#[test]
fn platform_names_its_architecture() {
    assert_eq!(Platform::X86.arch(), "i686");
    assert_eq!(Platform::X64.arch(), "x86_64");
}

#[test]
fn templates_name_their_license_identifiers() {
    assert_eq!(Template::from_license_id("MIT"), Some(Template::Mit));
    assert_eq!(Template::from_license_id("Apache-2.0"), Some(Template::Apache2));
    assert_eq!(Template::from_license_id("GPL-3.0"), Some(Template::Gpl3));
    assert_eq!(Template::from_license_id("BSD-3-Clause"), None);
    assert_eq!(Template::Mit.id(), "MIT");
    assert_eq!(Template::Gpl3.id(), "GPL-3.0");
    assert_eq!(Template::Apache2.id(), "Apache-2.0");
}
