//! Where the host keeps its data. Reading the environment and creating the
//! directories is the caller's part; these functions decide the paths.

use vstd::prelude::*;

verus! {

/// `base` joined with `part` as `std::path::Path::join` does it.
pub uninterp spec fn path_joined(base: Seq<char>, part: Seq<char>) -> Seq<char>;

/// The parent of a path as `std::path::Path::parent` gives it.
pub uninterp spec fn path_parent(path: Seq<char>) -> Option<Seq<char>>;

/// Relies on `std::path::Path::join`: the joined path depends on the two
/// texts alone, and joining UTF-8 texts gives UTF-8.
#[verifier::external_body]
fn join_path(base: &str, part: &str) -> (r: String)
    ensures
        r@ == path_joined(base@, part@),
{
    std::path::Path::new(base).join(part).to_string_lossy().into_owned()
}

/// Relies on `std::path::Path::parent`: the path without its final
/// component, or `None` for a root or an empty path.
#[verifier::external_body]
fn parent_of(path: &str) -> (r: Option<String>)
    ensures
        match r {
            Some(p) => path_parent(path@) == Some(p@),
            None => path_parent(path@) is None,
        },
{
    std::path::Path::new(path).parent().map(|p| p.to_string_lossy().into_owned())
}

/// Directory name under the XDG data home.
pub const LINUX_DIR_NAME: &'static str = "desktop-runtime";

/// Directory name under the platform's application-data folder.
pub const PRODUCT_DIR_NAME: &'static str = "Desktop Runtime";

/// Directory name of the web engine's data on Windows.
pub const WEBVIEW_DIR_NAME: &'static str = "WebView2";

/// Directory name under the temporary directory when no user directory works.
pub const FALLBACK_DIR_NAME: &'static str = "Desktop-Runtime";

/// Preferred data directory on Linux: under `$XDG_DATA_HOME`, else under
/// `$HOME/.local/share`.
pub fn linux_data_dir(xdg_data_home: Option<String>, home: Option<String>) -> (r: Option<String>)
    ensures
        match xdg_data_home {
            Some(x) => r matches Some(p) && p@ == path_joined(x@, LINUX_DIR_NAME@),
            None => match home {
                Some(h) => r matches Some(p) && p@ == path_joined(
                    path_joined(path_joined(h@, ".local"@), "share"@),
                    LINUX_DIR_NAME@,
                ),
                None => r is None,
            },
        },
{
    let base = match xdg_data_home {
        Some(x) => x,
        None => match home {
            Some(h) => {
                let local = join_path(h.as_str(), ".local");
                join_path(local.as_str(), "share")
            },
            None => return None,
        },
    };
    Some(join_path(base.as_str(), LINUX_DIR_NAME))
}

/// Preferred data directory on macOS: `$HOME/Library/Application Support/Desktop Runtime`.
pub fn macos_data_dir(home: Option<String>) -> (r: Option<String>)
    ensures
        match home {
            Some(h) => r matches Some(p) && p@ == path_joined(
                path_joined(path_joined(h@, "Library"@), "Application Support"@),
                PRODUCT_DIR_NAME@,
            ),
            None => r is None,
        },
{
    match home {
        Some(h) => {
            let library = join_path(h.as_str(), "Library");
            let support = join_path(library.as_str(), "Application Support");
            Some(join_path(support.as_str(), PRODUCT_DIR_NAME))
        },
        None => None,
    }
}

/// Preferred data directory on Windows: `%LOCALAPPDATA%\Desktop Runtime\WebView2`.
pub fn windows_data_dir(local_app_data: Option<String>) -> (r: Option<String>)
    ensures
        match local_app_data {
            Some(l) => r matches Some(p) && p@ == path_joined(
                path_joined(l@, PRODUCT_DIR_NAME@),
                WEBVIEW_DIR_NAME@,
            ),
            None => r is None,
        },
{
    match local_app_data {
        Some(l) => {
            let product = join_path(l.as_str(), PRODUCT_DIR_NAME);
            Some(join_path(product.as_str(), WEBVIEW_DIR_NAME))
        },
        None => None,
    }
}

/// The user data directory: the preferred one when it exists (`created`),
/// else a directory under the temporary directory, never the install path.
pub fn user_data_dir(created: Option<String>, temp_dir: &str) -> (r: String)
    ensures
        r@ == match created {
            Some(p) => p@,
            None => path_joined(temp_dir@, FALLBACK_DIR_NAME@),
        },
{
    match created {
        Some(p) => p,
        None => join_path(temp_dir, FALLBACK_DIR_NAME),
    }
}

/// The app config directory: the parent of the user data directory, or the
/// directory itself when it has none.
pub fn app_config_dir(user_data: &str) -> (r: String)
    ensures
        r@ == match path_parent(user_data@) {
            Some(p) => p,
            None => user_data@,
        },
{
    match parent_of(user_data) {
        Some(p) => p,
        None => String::from_str(user_data),
    }
}

} // verus!
