//! Tests for the builder collecting the document-printing overrides.

use cargo_wix::print::wxs::Builder;

#[test]
fn banner_works() {
    const EXPECTED: &str = "img\\Banner.bmp";
    let mut actual = Builder::new();
    actual.banner(Some(EXPECTED));
    assert_eq!(actual.banner, Some(String::from(EXPECTED)));
}

#[test]
fn binaries_name_works() {
    const EXPECTED: &str = "bin\\Example.exe";
    let mut actual = Builder::new();
    actual.binaries(Some(vec![EXPECTED]));
    assert_eq!(actual.binaries, Some(vec![String::from(EXPECTED)]));
}

#[test]
fn description_works() {
    const EXPECTED: &str = "This is a description.";
    let mut actual = Builder::new();
    actual.description(Some(EXPECTED));
    assert_eq!(actual.description, Some(String::from(EXPECTED)));
}

#[test]
fn dialog_work() {
    const EXPECTED: &str = "img\\Dialog.bmp";
    let mut actual = Builder::new();
    actual.dialog(Some(EXPECTED));
    assert_eq!(actual.dialog, Some(String::from(EXPECTED)));
}

#[test]
fn eula_works() {
    const EXPECTED: &str = "Example_Eula.rtf";
    let mut actual = Builder::new();
    actual.eula(Some(EXPECTED));
    assert_eq!(actual.eula, Some(String::from(EXPECTED)));
}

#[test]
fn help_url_works() {
    const EXPECTED: &str = "http://www.example.com";
    let mut actual = Builder::new();
    actual.help_url(Some(EXPECTED));
    assert_eq!(actual.help_url, Some(String::from(EXPECTED)));
}

#[test]
fn wxs_input_works() {
    const EXPECTED: &str = "C:\\example\\Cargo.toml";
    let mut actual = Builder::new();
    actual.input(Some(EXPECTED));
    assert_eq!(actual.input, Some(String::from(EXPECTED)));
}

#[test]
fn license_works() {
    const EXPECTED: &str = "C:\\example\\Example License.rtf";
    let mut actual = Builder::new();
    actual.license(Some(EXPECTED));
    assert_eq!(actual.license, Some(String::from(EXPECTED)));
}

#[test]
fn manufacturer_works() {
    const EXPECTED: &str = "Example";
    let mut actual = Builder::new();
    actual.manufacturer(Some(EXPECTED));
    assert_eq!(actual.manufacturer, Some(String::from(EXPECTED)));
}

#[test]
fn wxs_output_works() {
    const EXPECTED: &str = "C:\\example\\output";
    let mut actual = Builder::new();
    actual.output(Some(EXPECTED));
    assert_eq!(actual.output, Some(String::from(EXPECTED)));
}

#[test]
fn product_icon_works() {
    const EXPECTED: &str = "img\\Product.ico";
    let mut actual = Builder::new();
    actual.product_icon(Some(EXPECTED));
    assert_eq!(actual.product_icon, Some(String::from(EXPECTED)));
}

#[test]
fn product_name_works() {
    const EXPECTED: &str = "Example Product Name";
    let mut actual = Builder::new();
    actual.product_name(Some(EXPECTED));
    assert_eq!(actual.product_name, Some(String::from(EXPECTED)));
}
