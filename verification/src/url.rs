//! The two request URLs the client issues, built by plain concatenation.
//!
//! The query and episode values are spliced in verbatim, exactly as typed on
//! the command line; nothing here percent-escapes them.

use vstd::prelude::*;
use vstd::string::StringExecFns;

verus! {

/// Base URL of the directory's API.
pub const API_URL: &'static str = "https://api.nibl.co.uk/nibl";

/// URL of the bot-list endpoint.
pub fn bots_url() -> (r: String)
    ensures
        r@ == API_URL@ + "/bots"@,
{
    let mut s = String::from_str(API_URL);
    s.append("/bots");
    s
}

/// URL of the search endpoint for `query`: the `episode` parameter appears
/// exactly when an episode was given, and nothing else is appended.
pub fn search_url(query: &str, episode: &Option<String>) -> (r: String)
    ensures
        (*episode) is None ==> r@ == API_URL@ + "/search?query="@ + query@,
        (*episode) matches Some(e) ==> r@ == API_URL@ + "/search?query="@ + query@ + "&episode="@
            + e@,
{
    let mut s = String::from_str(API_URL);
    s.append("/search?query=");
    s.append(query);
    match episode {
        Option::Some(e) => {
            s.append("&episode=");
            s.append(e.as_str());
        },
        Option::None => {
        },
    }
    s
}

} // verus!
