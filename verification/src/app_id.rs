//! The application user model id under which the YouTube Music desktop app
//! registers its windows and media sessions.
use vstd::prelude::*;
use vstd::string::StringExecFns;

verus! {

/// Application user model id of the YouTube Music desktop app.
pub const YTM_APP_ID: &'static str = "Chrome._crx_cinhimbnkkghhklpknlkffjgod";

/// The characters of [`YTM_APP_ID`].
pub open spec fn ytm_app_id() -> Seq<char> {
    YTM_APP_ID@
}

/// A fresh `String` holding [`YTM_APP_ID`].
pub fn ytm_app_id_string() -> (s: String)
    ensures
        s@ == ytm_app_id(),
{
    String::from_str(YTM_APP_ID)
}

} // verus!
