//! Candidate selection for discovery.
//!
//! Discovery walks fixed profile directories and checks one fixed Safari
//! path; the walking itself is the caller's affair. This module holds the
//! decisions: where each browser's profile root lies under the home
//! directory, which well-known file name marks a history database, and
//! which walked entries are candidates.

use vstd::prelude::*;
use crate::record::Browser;

verus! {

/// The well-known history database file name of each browser.
pub open spec fn history_db_name(b: Browser) -> Seq<char> {
    match b {
        Browser::Chrome => "History"@,
        Browser::Firefox => "places.sqlite"@,
        Browser::Safari => "History.db"@,
    }
}

/// Decides whether a file name is the given browser's history database name.
pub fn matches_history_db_name(name: &String, browser: Browser) -> (b: bool)
    ensures
        b == (name@ == history_db_name(browser)),
{
    let expected = match browser {
        Browser::Chrome => String::from_str("History"),
        Browser::Firefox => String::from_str("places.sqlite"),
        Browser::Safari => String::from_str("History.db"),
    };
    name.eq(&expected)
}

/// Chrome's profile root under the home directory.
pub open spec fn chrome_profile_root_model(home: Seq<char>) -> Seq<char> {
    home + "/Library/Application Support/Google/Chrome"@
}

/// Builds the directory walked for Chrome history databases.
pub fn chrome_profile_root(home: &str) -> (r: String)
    ensures
        r@ == chrome_profile_root_model(home@),
{
    let mut s = String::from_str(home);
    s.append("/Library/Application Support/Google/Chrome");
    s
}

/// Firefox's profile root under the home directory.
pub open spec fn firefox_profile_root_model(home: Seq<char>) -> Seq<char> {
    home + "/Library/Application Support/Firefox/Profiles"@
}

/// Builds the directory walked for Firefox history databases.
pub fn firefox_profile_root(home: &str) -> (r: String)
    ensures
        r@ == firefox_profile_root_model(home@),
{
    let mut s = String::from_str(home);
    s.append("/Library/Application Support/Firefox/Profiles");
    s
}

/// Safari's single fixed history database path under the home directory.
pub open spec fn safari_history_path_model(home: Seq<char>) -> Seq<char> {
    home + "/Library/Safari/History.db"@
}

/// Builds the one path checked for Safari history.
pub fn safari_history_path(home: &str) -> (r: String)
    ensures
        r@ == safari_history_path_model(home@),
{
    let mut s = String::from_str(home);
    s.append("/Library/Safari/History.db");
    s
}

/// One entry a directory walk produced: the full path and the bare file
/// name at its end.
pub struct WalkEntry {
    pub path: String,
    pub name: String,
}

/// The paths of the walked entries whose file name is the browser's
/// database name, in walk order.
pub open spec fn candidates_model(entries: Seq<WalkEntry>, b: Browser) -> Seq<Seq<char>>
    decreases entries.len(),
{
    if entries.len() == 0 {
        Seq::empty()
    } else {
        let prefix = candidates_model(entries.drop_last(), b);
        if entries.last().name@ == history_db_name(b) {
            prefix.push(entries.last().path@)
        } else {
            prefix
        }
    }
}

/// Selects, from the entries a walk produced, the paths of the files named
/// like the browser's history database, in walk order.
pub fn select_candidate_paths(entries: Vec<WalkEntry>, browser: Browser) -> (r: Vec<String>)
    ensures
        r@.map_values(|s: String| s@) == candidates_model(entries@, browser),
{
    let ghost all = entries@;
    let mut remaining = entries;
    assert(all.len() == remaining.len());
    let mut out: Vec<String> = Vec::new();
    let mut i: usize = 0;
    while remaining.len() > 0
        invariant
            all == entries@,
            all.len() <= usize::MAX,
            i + remaining@.len() == all.len(),
            remaining@ == all.subrange(i as int, all.len() as int),
            out@.map_values(|s: String| s@) == candidates_model(all.subrange(0, i as int), browser),
        decreases remaining@.len(),
    {
        let entry = remaining.remove(0);
        assert(entry == all[i as int]);
        let keep = matches_history_db_name(&entry.name, browser);
        if keep {
            out.push(entry.path);
        }
        i = i + 1;
        proof {
            assert(all.subrange(0, i as int).drop_last() =~= all.subrange(0, i - 1));
            assert(all.subrange(0, i as int).last() == all[i - 1]);
            assert(out@.map_values(|s: String| s@) =~= candidates_model(
                all.subrange(0, i as int),
                browser,
            ));
            assert(remaining@ =~= all.subrange(i as int, all.len() as int));
        }
    }
    proof {
        assert(all.subrange(0, all.len() as int) =~= all);
    }
    out
}

} // verus!
