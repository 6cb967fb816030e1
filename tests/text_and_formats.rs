use hdri_pipeline::header::{header_value, trim_text};
use hdri_pipeline::formats::{extension_is, is_jpeg, is_raw, is_supported_extension_text, is_supported_format};
use hdri_pipeline::text::{
    concat3, decimal_text, get_file_name, parse_u32, path_separator, search_path_separator,
};

#[test]
fn file_name_without_extension() {
    assert_eq!(get_file_name("dir/IMG_01.CR2"), "IMG_01");
    assert_eq!(get_file_name("C:\\shots\\a.b.nef"), "a.b");
    assert_eq!(get_file_name("plain"), "");
    assert_eq!(get_file_name("dir.d/noext"), "");
    assert_eq!(get_file_name("x.jpg"), "x");
    assert_eq!(get_file_name(""), "");
}

#[test]
fn decimal_numbers() {
    assert_eq!(decimal_text(0), "0");
    assert_eq!(decimal_text(7), "7");
    assert_eq!(decimal_text(10), "10");
    assert_eq!(decimal_text(1234567890), "1234567890");
    assert_eq!(decimal_text(u64::MAX), u64::MAX.to_string());
}

#[test]
fn unsigned_numbers_parse() {
    assert_eq!(parse_u32("1000"), Some(1000));
    assert_eq!(parse_u32("+42"), Some(42));
    assert_eq!(parse_u32("0"), Some(0));
    assert_eq!(parse_u32("4294967295"), Some(u32::MAX));
    assert_eq!(parse_u32("4294967296"), None);
    assert_eq!(parse_u32("99999999999999"), None);
    assert_eq!(parse_u32(""), None);
    assert_eq!(parse_u32("+"), None);
    assert_eq!(parse_u32("12a"), None);
    assert_eq!(parse_u32("-3"), None);
    assert_eq!(parse_u32("1.5"), None);
}

#[test]
fn supported_extensions_ignore_case() {
    assert!(is_supported_format("a/b/IMG.JPG"));
    assert!(is_supported_format("x.jpeg"));
    assert!(is_supported_format("x.Cr2"));
    assert!(is_supported_format("x.tiff"));
    assert!(is_supported_format("x.x3f"));
    assert!(!is_supported_format("x.png"));
    assert!(!is_supported_format("x"));
    assert!(!is_supported_format("x.jpgg"));
    assert!(is_supported_extension_text("RW2"));
    assert!(!is_supported_extension_text(""));
    assert!(extension_is("JpEg", "jpeg"));
    assert!(!extension_is("jpe", "jpeg"));
}

#[test]
fn jpeg_and_raw_detection() {
    assert!(is_jpeg("a.JPG"));
    assert!(is_jpeg("a.jpeg"));
    assert!(!is_jpeg("a.tif"));
    assert!(is_raw("a.CR2"));
    assert!(is_raw("a.nef"));
    assert!(!is_raw("a.jpg"));
    assert!(!is_raw("a.TIFF"));
    assert!(!is_raw("a.tif"));
}

#[test]
fn extensions_come_from_the_last_component() {
    // The extension is what follows the last dot of the file name, not of the directory.
    assert!(!is_supported_format("photos.jpg/readme"));
    assert!(is_supported_format("photos.v2/img.NEF"));
    assert!(!is_jpeg("a/b.jpg.png"));
    assert!(is_jpeg("a/b.png.jpg"));
}

#[test]
fn strings_join() {
    assert_eq!(concat3("a", "-", "b"), "a-b");
}

#[test]
fn search_path_separator_by_host() {
    assert_eq!(search_path_separator('\\'), ";");
    assert_eq!(search_path_separator('/'), ":");
    let expected = if std::path::MAIN_SEPARATOR == '\\' { ";" } else { ":" };
    assert_eq!(path_separator(), expected);
}

#[test]
fn header_value_reads_the_first_matching_line() {
    let header = "#?RADIANCE\n\tVIEW= -vta -vv 180 -vh 180\r\n  EVALGLARE=  dgp 0.31  \nEVALGLARE= second\n";
    assert_eq!(header_value(header, "EVALGLARE="), Some("dgp 0.31".to_string()));
    assert_eq!(header_value(header, "VIEW="), Some("-vta -vv 180 -vh 180".to_string()));
    assert_eq!(header_value(header, "EXPOSURE="), None);
    assert_eq!(header_value("", "VIEW="), None);
    assert_eq!(header_value("VIEW=x", "VIEW="), Some("x".to_string()));
    assert_eq!(trim_text(" \t a b \n"), "a b");
    assert_eq!(trim_text("   "), "");
    assert_eq!(trim_text("\u{3000}\u{85}x\u{2009}\u{a0}"), "x");
    assert_eq!(trim_text("\u{200b}x"), "\u{200b}x");
}

#[test]
fn raw_previews_are_named_after_their_source() {
    let (call, tiff) = hdri_pipeline::tools::raw_preview(&String::new(), &"/prev".to_string(), &"/shots/IMG_7.CR2".to_string());
    let expected = std::path::Path::new("/prev").join("IMG_7.tiff").display().to_string();
    assert_eq!(tiff, expected);
    assert_eq!(call.program, "dcraw_emu");
    assert_eq!(call.args[15], expected);
    assert_eq!(call.args[16], "/shots/IMG_7.CR2");
    assert!(matches!(call.location, hdri_pipeline::tools::ToolLocation::Bundled));
}
