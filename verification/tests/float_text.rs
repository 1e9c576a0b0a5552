use ohboi_parse::crawler::util::float_value_parser::{
    float_android_version_text, float_aperture_text, float_diagonal_text, float_ghz_text,
    float_miui_version_text, float_value_text, float_version_text,
};

fn read(text: String) -> Option<f32> {
    text.parse::<f32>().ok()
}

fn read_ghz(value: &str) -> Option<f32> {
    let (text, in_mhz) = float_ghz_text(value);
    read(text).map(|v| if in_mhz { v / 1000.0 } else { v })
}

#[test]
fn it_parses_android_version() {
    assert_eq!(read(float_android_version_text("Android 11")), Some(11.0));
    assert_eq!(read(float_android_version_text("OS, v6.2")), Some(6.2));
    assert_eq!(read(float_android_version_text("OS, v6.0.1")), Some(6.0));
    assert_eq!(read(float_android_version_text("OS, v6,2")), Some(6.2));
}

#[test]
fn it_parses_miui_version() {
    assert_eq!(read(float_miui_version_text("MIUI 11")), Some(11.0));
    assert_eq!(read(float_miui_version_text("MIUI 11.2.3")), Some(11.2));
}

#[test]
fn it_parses_version() {
    assert_eq!(read(float_version_text("7.1.2")), Some(7.1));
    assert_eq!(read(float_version_text("0.1.2")), Some(0.1));
}

#[test]
fn it_parses_float() {
    assert_eq!(read(float_value_text("11.2")), Some(11.2));
    assert_eq!(read(float_value_text("11,2")), Some(11.2));
    assert_eq!(read(float_value_text("11,2")), Some(11.2));
}

#[test]
fn it_parses_ghz_float() {
    assert_eq!(read_ghz("2.2ГГц"), Some(2.2));
    assert_eq!(read_ghz("2.2 ГГц"), Some(2.2));
    assert_eq!(read_ghz("2.2Ггц"), Some(2.2));
    assert_eq!(read_ghz("2.2GHz"), Some(2.2));
    assert_eq!(read_ghz("2200 МГц"), Some(2.2));
}

#[test]
fn float_texts_are_cut_exactly() {
    assert_eq!(float_android_version_text("OS, v6.0.1"), "6.0".to_string());
    assert_eq!(float_miui_version_text("MIUI 11.2.3"), "11.2".to_string());
    assert_eq!(float_version_text("7"), "7".to_string());
    assert_eq!(float_value_text(" 11,2 "), "11.2".to_string());
    assert_eq!(float_ghz_text("2200 МГц"), ("2200".to_string(), true));
    assert_eq!(float_ghz_text("2.2GHz"), ("2.2".to_string(), false));
    assert_eq!(float_diagonal_text("6.67\""), "6.67".to_string());
    assert_eq!(float_aperture_text("f/1,79 + f/2,4 + f/2,4"), "1.79".to_string());
    assert_eq!(float_aperture_text("f2.4"), "2.4".to_string());
    assert_eq!(float_aperture_text("ƒ2.4"), "2.4".to_string());
}
