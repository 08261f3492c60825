use vstd::prelude::*;
use crate::error::TurbosheetError;
use crate::text::{push_str, string_from_chars, str_eq, has_suffix, chars_of, ends_with_chars};

verus! {

/// What serde_json reads from a Chrome for Testing manifest: the text of
/// its parse error, or the string at `channels.Stable.version` (none where
/// that is missing or not a string).
pub uninterp spec fn cft_version_of(text: Seq<char>) -> Result<Option<Seq<char>>, Seq<char>>;

/// The view of what `cft_manifest_version` returns.
pub open spec fn cft_view(r: Result<Option<String>, String>) -> Result<Option<Seq<char>>, Seq<char>> {
    match r {
        Ok(Some(v)) => Ok(Some(v@)),
        Ok(None) => Ok(None),
        Err(m) => Err(m@),
    }
}

/// `serde_json::from_str` of the manifest into a `Value` (its error shown
/// by `Display`), then `["channels"]["Stable"]["version"].as_str()`: the
/// result is `cft_version_of` of the text.
#[verifier::external_body]
fn cft_manifest_version(text: &str) -> (r: Result<Option<String>, String>)
    ensures
        cft_view(r) == cft_version_of(text@),
{
    match serde_json::from_str::<serde_json::Value>(text) {
        Ok(v) => Ok(v["channels"]["Stable"]["version"].as_str().map(String::from)),
        Err(e) => Err(e.to_string()),
    }
}

/// What reading the stable version of a manifest gives: the version, a
/// parse error `Failed to parse CfT manifest: ` and serde_json's text, or
/// `Missing version in CfT manifest`.
pub open spec fn cft_stable_version_spec(text: Seq<char>) -> Result<Seq<char>, Seq<char>> {
    match cft_version_of(text) {
        Ok(Some(v)) => Ok(v),
        Ok(None) => Err("Missing version in CfT manifest"@),
        Err(m) => Err("Failed to parse CfT manifest: "@ + m),
    }
}

/// A text, or the text of an `Other` error (`None` for another error).
pub open spec fn text_or_other(r: Result<String, TurbosheetError>) -> Option<Result<Seq<char>, Seq<char>>> {
    match r {
        Ok(v) => Some(Ok(v@)),
        Err(TurbosheetError::Other(m)) => Some(Err(m@)),
        Err(_) => None,
    }
}

/// Finds, and tells how to fetch, the drivers and browsers the engines
/// run. Downloading and unpacking are done by the caller.
pub struct BrowserBinaryManager;

/// Where a browser's driver comes from.
#[derive(Debug)]
pub enum InstallSource {
    /// An archive at `url`, unpacked into the browser's directory: a zip
    /// when `is_zip`, else a gzip-compressed tar.
    Archive { url: String, is_zip: bool },
    /// Chrome for Testing for `platform`, in its latest stable version
    /// (read from `CFT_MANIFEST_URL`), unpacked from its zip.
    ChromeForTesting { platform: String },
    /// A driver that comes with the system at `path`; `missing` is the
    /// error message when it is not there.
    SystemDriver { path: String, missing: String },
}

pub const GECKO_LINUX64: &'static str =
    "https://github.com/mozilla/geckodriver/releases/download/v0.34.0/geckodriver-v0.34.0-linux64.tar.gz";
pub const GECKO_LINUX_AARCH64: &'static str =
    "https://github.com/mozilla/geckodriver/releases/download/v0.34.0/geckodriver-v0.34.0-linux-aarch64.tar.gz";
pub const GECKO_MACOS: &'static str =
    "https://github.com/mozilla/geckodriver/releases/download/v0.34.0/geckodriver-v0.34.0-macos.tar.gz";
pub const GECKO_MACOS_AARCH64: &'static str =
    "https://github.com/mozilla/geckodriver/releases/download/v0.34.0/geckodriver-v0.34.0-macos-aarch64.tar.gz";
pub const GECKO_WIN64: &'static str =
    "https://github.com/mozilla/geckodriver/releases/download/v0.34.0/geckodriver-v0.34.0-win64.zip";

/// The list of the latest good Chrome for Testing versions.
pub const CFT_MANIFEST_URL: &'static str =
    "https://googlechromelabs.github.io/chrome-for-testing/last-known-good-versions.json";

/// The geckodriver archive for an operating system and architecture, if
/// there is one.
pub open spec fn firefox_url_spec(os: Seq<char>, arch: Seq<char>) -> Option<Seq<char>> {
    if os == "linux"@ && arch == "x86_64"@ {
        Some(GECKO_LINUX64@)
    } else if os == "linux"@ && arch == "aarch64"@ {
        Some(GECKO_LINUX_AARCH64@)
    } else if os == "macos"@ && arch == "x86_64"@ {
        Some(GECKO_MACOS@)
    } else if os == "macos"@ && arch == "aarch64"@ {
        Some(GECKO_MACOS_AARCH64@)
    } else if os == "windows"@ && arch == "x86_64"@ {
        Some(GECKO_WIN64@)
    } else {
        None
    }
}

/// The Chrome for Testing platform name for an operating system and
/// architecture, if there is one.
pub open spec fn chromium_platform_spec(os: Seq<char>, arch: Seq<char>) -> Option<Seq<char>> {
    if os == "linux"@ && arch == "x86_64"@ {
        Some("linux64"@)
    } else if os == "linux"@ && arch == "aarch64"@ {
        Some("linux-arm64"@)
    } else if os == "macos"@ && arch == "x86_64"@ {
        Some("mac-x64"@)
    } else if os == "macos"@ && arch == "aarch64"@ {
        Some("mac-arm64"@)
    } else if os == "windows"@ && arch == "x86_64"@ {
        Some("win64"@)
    } else if os == "windows"@ && arch == "aarch64"@ {
        Some("win-arm64"@)
    } else {
        None
    }
}

/// The WebKit driver that comes with an operating system: its path and
/// the message when it is missing.
pub open spec fn webkit_driver_spec(os: Seq<char>) -> Option<(Seq<char>, Seq<char>)> {
    if os == "macos"@ {
        Some(("/usr/bin/safaridriver"@, "safaridriver not found"@))
    } else if os == "linux"@ {
        Some(("/usr/bin/WebKitWebDriver"@, "WebKitWebDriver not found. Please install webkit2gtk-4.1"@))
    } else {
        None
    }
}

/// The abstract value of an `InstallSource`.
pub enum InstallSourceView {
    Archive { url: Seq<char>, is_zip: bool },
    ChromeForTesting { platform: Seq<char> },
    SystemDriver { path: Seq<char>, missing: Seq<char> },
}

impl View for InstallSource {
    type V = InstallSourceView;

    open spec fn view(&self) -> InstallSourceView {
        match self {
            InstallSource::Archive { url, is_zip } => InstallSourceView::Archive { url: url@, is_zip: *is_zip },
            InstallSource::ChromeForTesting { platform } => InstallSourceView::ChromeForTesting { platform: platform@ },
            InstallSource::SystemDriver { path, missing } => InstallSourceView::SystemDriver { path: path@, missing: missing@ },
        }
    }
}

/// Where the driver of `browser` comes from on `os`/`arch`, or the error
/// message: geckodriver's archive for `firefox`, the system driver for
/// `webkit`, Chrome for Testing for `chromium`; an unsupported platform or
/// an unknown browser is an error.
pub open spec fn install_source_spec(browser: Seq<char>, os: Seq<char>, arch: Seq<char>) -> Result<InstallSourceView, Seq<char>> {
    if browser == "firefox"@ {
        match firefox_url_spec(os, arch) {
            Some(u) => Ok(InstallSourceView::Archive { url: u, is_zip: has_suffix(u, ".zip"@) }),
            None => Err(unsupported_message("firefox"@, os, arch)),
        }
    } else if browser == "webkit"@ {
        match webkit_driver_spec(os) {
            Some((p, m)) => Ok(InstallSourceView::SystemDriver { path: p, missing: m }),
            None => Err("WebKit is only supported on macOS and Linux"@),
        }
    } else if browser == "chromium"@ {
        match chromium_platform_spec(os, arch) {
            Some(p) => Ok(InstallSourceView::ChromeForTesting { platform: p }),
            None => Err(unsupported_message("chromium"@, os, arch)),
        }
    } else {
        Err("Unknown browser type: "@ + browser)
    }
}

/// The message of a platform that has no build of `browser`.
pub open spec fn unsupported_message(browser: Seq<char>, os: Seq<char>, arch: Seq<char>) -> Seq<char> {
    "Unsupported OS/Arch for "@ + browser + ": "@ + os + "/"@ + arch
}

/// The name of the executable of an installed browser on `os`, or the
/// error message for an unknown browser.
pub open spec fn executable_name_spec(browser: Seq<char>, os: Seq<char>) -> Result<Seq<char>, Seq<char>> {
    if browser == "firefox"@ {
        Ok(if os == "windows"@ { "geckodriver.exe"@ } else { "geckodriver"@ })
    } else if browser == "chromium"@ {
        Ok(if os == "windows"@ { "chrome.exe"@ } else { "chrome"@ })
    } else {
        Err("Unknown browser type: "@ + browser)
    }
}

/// The message of an `Other` error, if it is one.
pub open spec fn other_message(e: TurbosheetError) -> Option<Seq<char>> {
    match e {
        TurbosheetError::Other(m) => Some(m@),
        _ => None,
    }
}

/// The URL of the Chrome for Testing zip of `version` for `platform`.
pub open spec fn chromium_download_url_spec(version: Seq<char>, platform: Seq<char>) -> Seq<char> {
    "https://storage.googleapis.com/chrome-for-testing-public/"@ + version + "/"@ + platform + "/chrome-"@ + platform
        + ".zip"@
}

fn unsupported(browser: &str, os: &str, arch: &str) -> (e: TurbosheetError)
    ensures
        other_message(e) == Some(unsupported_message(browser@, os@, arch@)),
{
    let mut out: Vec<char> = Vec::new();
    push_str(&mut out, "Unsupported OS/Arch for ");
    push_str(&mut out, browser);
    push_str(&mut out, ": ");
    push_str(&mut out, os);
    push_str(&mut out, "/");
    push_str(&mut out, arch);
    assert(out@ =~= unsupported_message(browser@, os@, arch@));
    TurbosheetError::Other(string_from_chars(&out))
}

fn unknown_browser(browser: &str) -> (e: TurbosheetError)
    ensures
        other_message(e) == Some("Unknown browser type: "@ + browser@),
{
    let mut out: Vec<char> = Vec::new();
    push_str(&mut out, "Unknown browser type: ");
    push_str(&mut out, browser);
    TurbosheetError::Other(string_from_chars(&out))
}

impl BrowserBinaryManager {
    /// The geckodriver archive for `os`/`arch` (see `firefox_url_spec`).
    pub fn firefox_url(os: &str, arch: &str) -> (r: Option<&'static str>)
        ensures
            match r {
                Some(u) => firefox_url_spec(os@, arch@) == Some(u@),
                None => firefox_url_spec(os@, arch@) is None,
            },
    {
        if str_eq(os, "linux") && str_eq(arch, "x86_64") {
            Some(GECKO_LINUX64)
        } else if str_eq(os, "linux") && str_eq(arch, "aarch64") {
            Some(GECKO_LINUX_AARCH64)
        } else if str_eq(os, "macos") && str_eq(arch, "x86_64") {
            Some(GECKO_MACOS)
        } else if str_eq(os, "macos") && str_eq(arch, "aarch64") {
            Some(GECKO_MACOS_AARCH64)
        } else if str_eq(os, "windows") && str_eq(arch, "x86_64") {
            Some(GECKO_WIN64)
        } else {
            None
        }
    }

    /// The Chrome for Testing platform of `os`/`arch` (see
    /// `chromium_platform_spec`).
    pub fn chromium_platform(os: &str, arch: &str) -> (r: Option<&'static str>)
        ensures
            match r {
                Some(p) => chromium_platform_spec(os@, arch@) == Some(p@),
                None => chromium_platform_spec(os@, arch@) is None,
            },
    {
        if str_eq(os, "linux") && str_eq(arch, "x86_64") {
            Some("linux64")
        } else if str_eq(os, "linux") && str_eq(arch, "aarch64") {
            Some("linux-arm64")
        } else if str_eq(os, "macos") && str_eq(arch, "x86_64") {
            Some("mac-x64")
        } else if str_eq(os, "macos") && str_eq(arch, "aarch64") {
            Some("mac-arm64")
        } else if str_eq(os, "windows") && str_eq(arch, "x86_64") {
            Some("win64")
        } else if str_eq(os, "windows") && str_eq(arch, "aarch64") {
            Some("win-arm64")
        } else {
            None
        }
    }

    /// The WebKit driver of `os` and the message when it is missing (see
    /// `webkit_driver_spec`).
    pub fn webkit_driver(os: &str) -> (r: Option<(&'static str, &'static str)>)
        ensures
            match r {
                Some((p, m)) => webkit_driver_spec(os@) == Some((p@, m@)),
                None => webkit_driver_spec(os@) is None,
            },
    {
        if str_eq(os, "macos") {
            Some(("/usr/bin/safaridriver", "safaridriver not found"))
        } else if str_eq(os, "linux") {
            Some(("/usr/bin/WebKitWebDriver", "WebKitWebDriver not found. Please install webkit2gtk-4.1"))
        } else {
            None
        }
    }

    /// Where the driver of `browser_type` comes from on `os`/`arch` (see
    /// `install_source_spec`); an error is always `Other`.
    pub fn install_source(browser_type: &str, os: &str, arch: &str) -> (r: Result<InstallSource, TurbosheetError>)
        ensures
            match r {
                Ok(s) => install_source_spec(browser_type@, os@, arch@) == Ok::<_, Seq<char>>(s@),
                Err(e) => install_source_spec(browser_type@, os@, arch@) matches Err(m) && other_message(e) == Some(m),
            },
    {
        if str_eq(browser_type, "firefox") {
            match Self::firefox_url(os, arch) {
                Some(u) => {
                    let v = chars_of(u);
                    let z = chars_of(".zip");
                    let is_zip = ends_with_chars(&v, &z);
                    let url = String::from_str(u);
                    let r = InstallSource::Archive { url, is_zip };
                    Ok(r)
                },
                None => Err(unsupported("firefox", os, arch)),
            }
        } else if str_eq(browser_type, "webkit") {
            match Self::webkit_driver(os) {
                Some((p, m)) => {
                    let r = InstallSource::SystemDriver { path: String::from_str(p), missing: String::from_str(m) };
                    Ok(r)
                },
                None => Err(TurbosheetError::Other(String::from_str("WebKit is only supported on macOS and Linux"))),
            }
        } else if str_eq(browser_type, "chromium") {
            match Self::chromium_platform(os, arch) {
                Some(p) => {
                    let r = InstallSource::ChromeForTesting { platform: String::from_str(p) };
                    Ok(r)
                },
                None => Err(unsupported("chromium", os, arch)),
            }
        } else {
            Err(unknown_browser(browser_type))
        }
    }

    /// The latest stable Chromium version that a Chrome for Testing
    /// manifest names (see `cft_stable_version_spec`); errors are `Other`.
    pub fn cft_stable_version(manifest: &str) -> (r: Result<String, TurbosheetError>)
        ensures
            text_or_other(r) == Some(cft_stable_version_spec(manifest@)),
    {
        match cft_manifest_version(manifest) {
            Ok(Some(v)) => Ok(v),
            Ok(None) => Err(TurbosheetError::Other(String::from_str("Missing version in CfT manifest"))),
            Err(m) => {
                let mut out: Vec<char> = Vec::new();
                push_str(&mut out, "Failed to parse CfT manifest: ");
                push_str(&mut out, m.as_str());
                Err(TurbosheetError::Other(string_from_chars(&out)))
            },
        }
    }

    /// The URL of the Chromium zip for `platform` at the stable version the
    /// manifest names, or the error of `cft_stable_version`.
    pub fn cft_download_url(manifest: &str, platform: &str) -> (r: Result<String, TurbosheetError>)
        ensures
            text_or_other(r) == Some(match cft_stable_version_spec(manifest@) {
                Ok(v) => Ok(chromium_download_url_spec(v, platform@)),
                Err(m) => Err(m),
            }),
    {
        match Self::cft_stable_version(manifest) {
            Ok(v) => Ok(Self::chromium_download_url(v.as_str(), platform)),
            Err(e) => Err(e),
        }
    }

    /// The URL of the Chrome for Testing zip of `version` for `platform`
    /// (see `chromium_download_url_spec`).
    pub fn chromium_download_url(version: &str, platform: &str) -> (r: String)
        ensures
            r@ == chromium_download_url_spec(version@, platform@),
    {
        let mut out: Vec<char> = Vec::new();
        push_str(&mut out, "https://storage.googleapis.com/chrome-for-testing-public/");
        push_str(&mut out, version);
        push_str(&mut out, "/");
        push_str(&mut out, platform);
        push_str(&mut out, "/chrome-");
        push_str(&mut out, platform);
        push_str(&mut out, ".zip");
        assert(out@ =~= chromium_download_url_spec(version@, platform@));
        string_from_chars(&out)
    }

    /// The directory a Chrome for Testing zip for `platform` unpacks into:
    /// `chrome-` and the platform.
    pub fn chromium_archive_dir(platform: &str) -> (r: String)
        ensures
            r@ == "chrome-"@ + platform@,
    {
        let mut out: Vec<char> = Vec::new();
        push_str(&mut out, "chrome-");
        push_str(&mut out, platform);
        string_from_chars(&out)
    }

    /// The executable of an installed browser on `os` (see
    /// `executable_name_spec`); an error is always `Other`.
    pub fn executable_name(browser_type: &str, os: &str) -> (r: Result<&'static str, TurbosheetError>)
        ensures
            match r {
                Ok(n) => executable_name_spec(browser_type@, os@) == Ok::<_, Seq<char>>(n@),
                Err(e) => executable_name_spec(browser_type@, os@) matches Err(m) && other_message(e) == Some(m),
            },
    {
        let windows = str_eq(os, "windows");
        if str_eq(browser_type, "firefox") {
            Ok(if windows { "geckodriver.exe" } else { "geckodriver" })
        } else if str_eq(browser_type, "chromium") {
            Ok(if windows { "chrome.exe" } else { "chrome" })
        } else {
            Err(unknown_browser(browser_type))
        }
    }

    /// The message of a browser that is not installed.
    pub fn not_installed_message(browser_type: &str) -> (r: String)
        ensures
            r@ == "Browser "@ + browser_type@ + " not installed"@,
    {
        let mut out: Vec<char> = Vec::new();
        push_str(&mut out, "Browser ");
        push_str(&mut out, browser_type);
        push_str(&mut out, " not installed");
        assert(out@ =~= "Browser "@ + browser_type@ + " not installed"@);
        string_from_chars(&out)
    }
}

} // verus!
