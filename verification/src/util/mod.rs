//! Constants shared by the services, and date computations.
pub mod date_time;
pub mod money;
pub mod string;
pub mod transaction;
pub mod page;

use vstd::prelude::*;

verus! {

/// Response code of a request that succeeded.
pub const CODE_SUCCESS: i32 = 0;
/// Response code of a request that failed.
pub const CODE_FAIL: i32 = -1;
/// Code of an error raised inside the server whose details stay hidden from clients.
pub const UNKNOWN_ERROR: i32 = -2;
/// Code of a request whose required parameters are missing or malformed.
pub const NOT_PARAMETER_CODE: i32 = -3;
/// Code of a request for something that does not exist.
pub const NOT_EXIST_CODE: i32 = -4;
/// Code of a request whose caller is not signed in.
pub const NOT_AUTHORIZE_CODE: i32 = -5;
/// Code of a request whose form token is missing or spent.
pub const TOKEN_ERROR_CODE: i32 = -6;
/// Code of a failed file operation.
pub const FILE_IO_ERROR_CODE: i32 = -7;
/// How long a session signed in from a browser lasts, in seconds: an hour.
pub const BROWSER_PLATFORM_TTL: u64 = 3600;
/// How long a session signed in from the desktop client lasts, in seconds:
/// a week.
pub const DESKTOP_PLATFORM_TTL: u64 = 604800;
/// The prefix of the cache keys of sessions.
pub const USER_CACHE_PREFIX: &'static str = "user_context";
/// The public path under which stored files are served.
pub const PUBLIC_VIEW_ROOT_PATH: &'static str = "warehouse";
/// The folder of user avatars.
pub const LOGO_PATH: &'static str = "logo";
/// The folder of wallpapers.
pub const WALLPAPER_PATH: &'static str = "wallpaper";
/// The folder of pictures uploaded as base64.
pub const ILLUSTRATED_PATH: &'static str = "illustrated";
/// The folder of documents.
pub const DOCUMENT_PATH: &'static str = "document";

/// Whether an optional text is missing or empty.
pub open spec fn blank(o: Option<String>) -> bool {
    match o {
        Some(s) => s@.len() == 0,
        None => true,
    }
}

/// Whether an optional text is missing or empty.
pub fn is_blank(o: &Option<String>) -> (r: bool)
    ensures
        r == blank(*o),
{
    match o {
        Some(s) => s.as_str().unicode_len() == 0,
        None => true,
    }
}

} // verus!
