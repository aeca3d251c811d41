use zed2native_ide::{
    android_extensions, classify, classify_extension, classify_lowered, extension_of, ios_extensions,
    Platform,
};

#[test]
fn every_ios_extension_in_any_case_is_ios() {
    for ext in ios_extensions() {
        assert_eq!(classify(&format!("Project/File.{}", ext)), Platform::Ios);
        assert_eq!(classify(&format!("Project/File.{}", ext.to_uppercase())), Platform::Ios);
    }
    assert_eq!(classify("App/Main.Storyboard"), Platform::Ios);
    assert_eq!(classify("App/ViewController.SWIFT"), Platform::Ios);
}

#[test]
fn every_android_extension_in_any_case_is_android() {
    for ext in android_extensions() {
        assert_eq!(classify(&format!("app/src/File.{}", ext)), Platform::Android);
        assert_eq!(classify(&format!("app/src/File.{}", ext.to_uppercase())), Platform::Android);
    }
    assert_eq!(classify("build.Gradle"), Platform::Android);
}

#[test]
fn other_extensions_are_unsupported() {
    assert_eq!(classify("notes.txt"), Platform::Unsupported);
    assert_eq!(classify("lib.rs"), Platform::Unsupported);
    assert_eq!(classify("a.swiftx"), Platform::Unsupported);
    assert_eq!(classify("file.kt.bak"), Platform::Unsupported);
}

#[test]
fn paths_without_extension_are_unsupported() {
    assert_eq!(classify("Makefile"), Platform::Unsupported);
    assert_eq!(classify("swift"), Platform::Unsupported);
    assert_eq!(classify(""), Platform::Unsupported);
    assert_eq!(classify("dir/file."), Platform::Unsupported);
}

#[test]
fn last_dot_decides_the_extension() {
    assert_eq!(classify("archive.txt.swift"), Platform::Ios);
    assert_eq!(extension_of("a.b.c"), Some("c"));
    assert_eq!(extension_of("a.b."), Some(""));
    assert_eq!(extension_of("abc"), None);
    assert_eq!(extension_of(".kt"), Some("kt"));
}

#[test]
fn extension_lookup_ignores_ascii_case() {
    assert_eq!(classify_extension("KT"), Platform::Android);
    assert_eq!(classify_extension("Mm"), Platform::Ios);
    assert_eq!(classify_extension("rs"), Platform::Unsupported);
    assert_eq!(classify_extension(""), Platform::Unsupported);
}

#[test]
fn tables_hold_the_listed_extensions() {
    assert_eq!(
        ios_extensions(),
        vec!["swift", "m", "mm", "h", "xib", "storyboard", "plist", "xcconfig", "entitlements", "pbxproj"]
    );
    assert_eq!(
        android_extensions(),
        vec!["kt", "kts", "java", "xml", "gradle", "groovy", "properties", "aidl", "pro"]
    );
}

#[test]
fn extension_lookup_uses_unicode_lowercase() {
    // KELVIN SIGN lowercases to an ASCII `k`.
    assert_eq!(classify("a.\u{212A}t"), Platform::Android);
    assert_eq!(classify_extension("\u{212A}TS"), Platform::Android);
    assert_eq!(classify("Ünïcode.ÄÖÜ"), Platform::Unsupported);
}

#[test]
fn lowered_extension_lookup_is_exact() {
    assert_eq!(classify_lowered("swift"), Platform::Ios);
    assert_eq!(classify_lowered("pro"), Platform::Android);
    assert_eq!(classify_lowered("SWIFT"), Platform::Unsupported);
    assert_eq!(classify_lowered(""), Platform::Unsupported);
}
