//! Tests for the builder collecting the installer-creation overrides.

use cargo_wix::create::Builder;

#[test]
fn defaults_are_correct() {
    let actual = Builder::new();
    assert!(actual.bin_path.is_none());
    assert!(actual.capture_output);
    assert!(actual.compiler_args.is_none());
    assert!(actual.culture.is_none());
    assert!(!actual.debug_build);
    assert!(!actual.debug_name);
    assert!(actual.includes.is_none());
    assert!(actual.input.is_none());
    assert!(actual.linker_args.is_none());
    assert!(actual.locale.is_none());
    assert!(actual.name.is_none());
    assert!(!actual.no_build);
    assert!(actual.output.is_none());
    assert!(actual.version.is_none());
}

#[test]
fn bin_path_works() {
    const EXPECTED: &str = "C:\\Wix Toolset\\bin";
    let mut actual = Builder::new();
    actual.bin_path(Some(EXPECTED));
    assert_eq!(actual.bin_path, Some(String::from(EXPECTED)));
}

#[test]
fn capture_output_works() {
    let mut actual = Builder::new();
    actual.capture_output(false);
    assert!(!actual.capture_output);
}

#[test]
fn compiler_args_with_single_value_works() {
    const EXPECTED: &str = "-nologo";
    let mut actual = Builder::new();
    actual.compiler_args(Some(vec![EXPECTED]));
    assert_eq!(actual.compiler_args, Some(vec![String::from(EXPECTED)]));
}

#[test]
fn compiler_args_with_multiple_values_works() {
    let expected: Vec<&str> = vec!["-arch", "x86"];
    let mut actual = Builder::new();
    actual.compiler_args(Some(expected.clone()));
    assert_eq!(
        actual.compiler_args,
        Some(expected.iter().map(|s| String::from(*s)).collect::<Vec<String>>())
    );
}

#[test]
fn create_culture_works() {
    const EXPECTED: &str = "FrFr";
    let mut actual = Builder::new();
    actual.culture(Some(EXPECTED));
    assert_eq!(actual.culture, Some(String::from(EXPECTED)));
}

#[test]
fn debug_build_works() {
    let mut actual = Builder::new();
    actual.debug_build(true);
    assert!(actual.debug_build);
}

#[test]
fn debug_name_works() {
    let mut actual = Builder::new();
    actual.debug_name(true);
    assert!(actual.debug_name);
}

#[test]
fn includes_works() {
    const EXPECTED: &str = "C:\\tmp\\hello_world\\wix\\main.wxs";
    let mut actual = Builder::new();
    actual.includes(Some(vec![EXPECTED]));
    assert_eq!(actual.includes, Some(vec![String::from(EXPECTED)]));
}

#[test]
fn create_input_works() {
    const EXPECTED: &str = "C:\\tmp\\hello_world\\Cargo.toml";
    let mut actual = Builder::new();
    actual.input(Some(EXPECTED));
    assert_eq!(actual.input, Some(String::from(EXPECTED)));
}

#[test]
fn linker_args_with_single_value_works() {
    const EXPECTED: &str = "-nologo";
    let mut actual = Builder::new();
    actual.linker_args(Some(vec![EXPECTED]));
    assert_eq!(actual.linker_args, Some(vec![String::from(EXPECTED)]));
}

#[test]
fn linker_args_with_multiple_values_works() {
    let expected: Vec<&str> = vec!["-ext", "HelloExtension"];
    let mut actual = Builder::new();
    actual.linker_args(Some(expected.clone()));
    assert_eq!(
        actual.linker_args,
        Some(expected.iter().map(|s| String::from(*s)).collect::<Vec<String>>())
    );
}

#[test]
fn create_locale_works() {
    const EXPECTED: &str = "C:\\tmp\\hello_world\\wix\\main.wxl";
    let mut actual = Builder::new();
    actual.locale(Some(EXPECTED));
    assert_eq!(actual.locale, Some(String::from(EXPECTED)));
}

#[test]
fn name_works() {
    const EXPECTED: &str = "Name";
    let mut actual = Builder::new();
    actual.name(Some(EXPECTED));
    assert_eq!(actual.name, Some(String::from(EXPECTED)));
}

#[test]
fn create_no_build_works() {
    let mut actual = Builder::new();
    actual.no_build(true);
    assert!(actual.no_build);
}

#[test]
fn create_output_works() {
    const EXPECTED: &str = "C:\\tmp\\hello_world\\output";
    let mut actual = Builder::new();
    actual.output(Some(EXPECTED));
    assert_eq!(actual.output, Some(String::from(EXPECTED)));
}

#[test]
fn version_works() {
    const EXPECTED: &str = "1.2.3";
    let mut actual = Builder::new();
    actual.version(Some(EXPECTED));
    assert_eq!(actual.version, Some(String::from(EXPECTED)));
}

#[test]
fn build_with_defaults_works() {
    let mut b = Builder::new();
    let default_execution = b.build();
    assert!(default_execution.bin_path.is_none());
    assert!(default_execution.capture_output);
    assert!(default_execution.compiler_args.is_none());
    assert!(default_execution.culture.is_none());
    assert!(!default_execution.debug_build);
    assert!(!default_execution.debug_name);
    assert!(default_execution.includes.is_none());
    assert!(default_execution.input.is_none());
    assert!(default_execution.linker_args.is_none());
    assert!(default_execution.locale.is_none());
    assert!(default_execution.name.is_none());
    assert!(!default_execution.no_build);
    assert!(default_execution.output.is_none());
    assert!(default_execution.version.is_none());
}

#[test]
fn build_with_all_works() {
    const EXPECTED_BIN_PATH: &str = "C:\\Wix Toolset\\bin";
    const EXPECTED_CULTURE: &str = "FrFr";
    const EXPECTED_COMPILER_ARGS: &str = "-nologo";
    const EXPECTED_INCLUDES: &str = "C:\\tmp\\hello_world\\wix\\main.wxs";
    const EXPECTED_INPUT: &str = "C:\\tmp\\hello_world\\Cargo.toml";
    const EXPECTED_LINKER_ARGS: &str = "-nologo";
    const EXPECTED_LOCALE: &str = "C:\\tmp\\hello_world\\wix\\main.wxl";
    const EXPECTED_NAME: &str = "Name";
    const EXPECTED_OUTPUT: &str = "C:\\tmp\\hello_world\\output";
    const EXPECTED_VERSION: &str = "1.2.3";
    let mut b = Builder::new();
    b.bin_path(Some(EXPECTED_BIN_PATH));
    b.capture_output(false);
    b.culture(Some(EXPECTED_CULTURE));
    b.compiler_args(Some(vec![EXPECTED_COMPILER_ARGS]));
    b.debug_build(true);
    b.debug_name(true);
    b.includes(Some(vec![EXPECTED_INCLUDES]));
    b.input(Some(EXPECTED_INPUT));
    b.linker_args(Some(vec![EXPECTED_LINKER_ARGS]));
    b.locale(Some(EXPECTED_LOCALE));
    b.name(Some(EXPECTED_NAME));
    b.no_build(true);
    b.output(Some(EXPECTED_OUTPUT));
    b.version(Some(EXPECTED_VERSION));
    let execution = b.build();
    assert_eq!(execution.bin_path, Some(String::from(EXPECTED_BIN_PATH)));
    assert!(!execution.capture_output);
    assert_eq!(
        execution.compiler_args,
        Some(vec![String::from(EXPECTED_COMPILER_ARGS)])
    );
    assert_eq!(execution.culture, Some(String::from(EXPECTED_CULTURE)));
    assert!(execution.debug_build);
    assert!(execution.debug_name);
    assert_eq!(execution.includes, Some(vec![String::from(EXPECTED_INCLUDES)]));
    assert_eq!(execution.input, Some(String::from(EXPECTED_INPUT)));
    assert_eq!(
        execution.linker_args,
        Some(vec![String::from(EXPECTED_LINKER_ARGS)])
    );
    assert_eq!(execution.locale, Some(String::from(EXPECTED_LOCALE)));
    assert_eq!(execution.name, Some(String::from(EXPECTED_NAME)));
    assert!(execution.no_build);
    assert_eq!(execution.output, Some(String::from(EXPECTED_OUTPUT)));
    assert_eq!(execution.version, Some(String::from(EXPECTED_VERSION)));
}
