use no_ponto::app_info::{architecture_label, build_type_label, get_app_info, os_platform_label};
use no_ponto::text::same_text;

#[test]
fn architectures_get_short_names() {
    assert_eq!(architecture_label("x86_64"), "x64");
    assert_eq!(architecture_label("aarch64"), "arm64");
    assert_eq!(architecture_label("x86"), "x86");
    assert_eq!(architecture_label("riscv64"), "unknown");
    assert_eq!(architecture_label(""), "unknown");
}

#[test]
fn platform_lines() {
    assert_eq!(os_platform_label("windows", "windows", "x86_64"), "Windows x86_64");
    assert_eq!(os_platform_label("linux", "unix", "aarch64"), "Linux aarch64");
    assert_eq!(os_platform_label("macos", "unix", "aarch64"), "macOS aarch64");
    assert_eq!(os_platform_label("freebsd", "unix", "x86_64"), "freebsd x86_64");
    assert_eq!(os_platform_label("windows", "", "x86"), " x86");
    assert_eq!(os_platform_label("windows", "ßig", "x86"), "SSig x86");
}

#[test]
fn build_types() {
    assert_eq!(build_type_label(true), "Debug");
    assert_eq!(build_type_label(false), "Release");
}

#[test]
fn app_info_fields() {
    let i = get_app_info("0.3.1", "linux", "unix", "x86_64", false);
    assert_eq!(i.version, "0.3.1");
    assert_eq!(i.product_name, "No Ponto");
    assert_eq!(i.tauri_version, "2.0");
    assert_eq!(i.architecture, "x64");
    assert_eq!(i.os_platform, "Linux x86_64");
    assert_eq!(i.build_type, "Release");
}

#[test]
fn texts_compare_by_characters() {
    assert!(same_text("", ""));
    assert!(same_text("ção", "ção"));
    assert!(!same_text("ab", "abc"));
    assert!(!same_text("abd", "abc"));
}

#[test]
fn greeting_names_the_caller() {
    assert_eq!(no_ponto::greeting::greet("Ana"), "Hello, Ana! You've been greeted from Rust!");
    assert_eq!(no_ponto::greeting::greet(""), "Hello, ! You've been greeted from Rust!");
}
