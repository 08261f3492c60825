use turbosheet::binary_manager::{BrowserBinaryManager, InstallSource, GECKO_LINUX64, GECKO_WIN64};
use turbosheet::error::TurbosheetError;

fn other(r: Result<InstallSource, TurbosheetError>) -> String {
    match r {
        Err(TurbosheetError::Other(m)) => m,
        _ => panic!("expected an Other error"),
    }
}

#[test]
fn firefox_archives_by_platform() {
    match BrowserBinaryManager::install_source("firefox", "linux", "x86_64").unwrap() {
        InstallSource::Archive { url, is_zip } => {
            assert_eq!(url, GECKO_LINUX64);
            assert!(url.ends_with("geckodriver-v0.34.0-linux64.tar.gz"));
            assert!(!is_zip);
        }
        _ => panic!("expected an archive"),
    }
    match BrowserBinaryManager::install_source("firefox", "windows", "x86_64").unwrap() {
        InstallSource::Archive { url, is_zip } => {
            assert_eq!(url, GECKO_WIN64);
            assert!(is_zip);
        }
        _ => panic!("expected an archive"),
    }
    assert_eq!(
        other(BrowserBinaryManager::install_source("firefox", "windows", "aarch64")),
        "Unsupported OS/Arch for firefox: windows/aarch64"
    );
}

#[test]
fn webkit_uses_the_system_driver() {
    match BrowserBinaryManager::install_source("webkit", "linux", "x86_64").unwrap() {
        InstallSource::SystemDriver { path, missing } => {
            assert_eq!(path, "/usr/bin/WebKitWebDriver");
            assert_eq!(missing, "WebKitWebDriver not found. Please install webkit2gtk-4.1");
        }
        _ => panic!("expected a system driver"),
    }
    assert_eq!(BrowserBinaryManager::webkit_driver("macos"), Some(("/usr/bin/safaridriver", "safaridriver not found")));
    assert_eq!(
        other(BrowserBinaryManager::install_source("webkit", "windows", "x86_64")),
        "WebKit is only supported on macOS and Linux"
    );
}

#[test]
fn chromium_comes_from_chrome_for_testing() {
    match BrowserBinaryManager::install_source("chromium", "windows", "aarch64").unwrap() {
        InstallSource::ChromeForTesting { platform } => assert_eq!(platform, "win-arm64"),
        _ => panic!("expected Chrome for Testing"),
    }
    assert_eq!(BrowserBinaryManager::chromium_platform("macos", "aarch64"), Some("mac-arm64"));
    assert_eq!(BrowserBinaryManager::chromium_platform("freebsd", "x86_64"), None);
    assert_eq!(
        BrowserBinaryManager::chromium_download_url("120.0.1", "linux64"),
        "https://storage.googleapis.com/chrome-for-testing-public/120.0.1/linux64/chrome-linux64.zip"
    );
    assert_eq!(BrowserBinaryManager::chromium_archive_dir("mac-x64"), "chrome-mac-x64");
    assert_eq!(
        other(BrowserBinaryManager::install_source("chromium", "linux", "riscv64")),
        "Unsupported OS/Arch for chromium: linux/riscv64"
    );
}

#[test]
fn unknown_browsers_and_executables() {
    assert_eq!(other(BrowserBinaryManager::install_source("edge", "linux", "x86_64")), "Unknown browser type: edge");
    assert_eq!(BrowserBinaryManager::executable_name("firefox", "windows").ok(), Some("geckodriver.exe"));
    assert_eq!(BrowserBinaryManager::executable_name("chromium", "linux").ok(), Some("chrome"));
    match BrowserBinaryManager::executable_name("webkit", "linux") {
        Err(TurbosheetError::Other(m)) => assert_eq!(m, "Unknown browser type: webkit"),
        _ => panic!("expected an error"),
    }
    assert_eq!(BrowserBinaryManager::not_installed_message("firefox"), "Browser firefox not installed");
}

fn other_message<T: std::fmt::Debug>(r: Result<T, TurbosheetError>) -> String {
    match r {
        Err(TurbosheetError::Other(m)) => m,
        other => panic!("expected an Other error, got {:?}", other),
    }
}

#[test]
fn cft_manifest_stable_version() {
    let manifest = r#"{"timestamp":"x","channels":{"Stable":{"channel":"Stable","version":"131.0.6778.85","revision":"1"},"Beta":{"version":"132.0.1"}}}"#;
    assert_eq!(BrowserBinaryManager::cft_stable_version(manifest).unwrap(), "131.0.6778.85");
    assert_eq!(
        BrowserBinaryManager::cft_download_url(manifest, "linux64").unwrap(),
        "https://storage.googleapis.com/chrome-for-testing-public/131.0.6778.85/linux64/chrome-linux64.zip"
    );
}

#[test]
fn cft_manifest_errors() {
    assert_eq!(
        other_message(BrowserBinaryManager::cft_stable_version(r#"{"channels":{"Beta":{"version":"1"}}}"#)),
        "Missing version in CfT manifest"
    );
    assert_eq!(
        other_message(BrowserBinaryManager::cft_stable_version(r#"{"channels":{"Stable":{"version":131}}}"#)),
        "Missing version in CfT manifest"
    );
    let parse = other_message(BrowserBinaryManager::cft_stable_version("not json"));
    assert!(parse.starts_with("Failed to parse CfT manifest: "));
    assert!(parse.len() > "Failed to parse CfT manifest: ".len());
    assert!(other_message(BrowserBinaryManager::cft_download_url("{", "mac-arm64")).starts_with("Failed to parse CfT manifest: "));
}
