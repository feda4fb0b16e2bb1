//! The overlay script for a page: the template with the key, the
//! authorization address, the version and the telemetry address filled in.

use vstd::prelude::*;
use vstd::string::StringExecFns;
use crate::overlay_template::{overlay_template, template_text};

verus! {

/// `text` with every occurrence of `from` replaced by `to`: the occurrences
/// are taken from the left and do not overlap.
pub open spec fn replaced(text: Seq<char>, from: Seq<char>, to: Seq<char>) -> Seq<char>
    recommends
        from.len() > 0,
    decreases text.len(),
{
    if from.len() == 0 || text.len() < from.len() {
        text
    } else if text.subrange(0, from.len() as int) == from {
        to + replaced(text.subrange(from.len() as int, text.len() as int), from, to)
    } else {
        seq![text[0]] + replaced(text.drop_first(), from, to)
    }
}

/// The address at which the user authorizes the application.
pub open spec fn auth_url(key: Seq<char>, callback: Seq<char>) -> Seq<char> {
    "https://www.last.fm/api/auth/?api_key="@ + key + "&cb="@ + callback
}

/// `template` with its four marks filled in, one after the other: the
/// authorization address, the key, the version, the telemetry address.
pub open spec fn filled(
    template: Seq<char>,
    key: Seq<char>,
    callback: Seq<char>,
    version: Seq<char>,
    playback_url: Seq<char>,
) -> Seq<char> {
    replaced(
        replaced(
            replaced(replaced(template, "{auth_url}"@, auth_url(key, callback)), "{key}"@, key),
            "{version}"@,
            version,
        ),
        "{playback_url}"@,
        playback_url,
    )
}

/// `str::replace` with a pattern that is a string: a new string in which
/// every match of `from`, found from the left and without overlap, is
/// replaced by `to`.
#[verifier::external_body]
fn replace_all(text: &str, from: &str, to: &str) -> (out: String)
    requires
        from@.len() > 0,
    ensures
        out@ == replaced(text@, from@, to@),
{
    text.replace(from, to)
}

/// Fills a template: see `filled`.
pub fn fill_template(
    template: &str,
    lastfm_key: &str,
    lastfm_callback: &str,
    version: &str,
    playback_url: &str,
) -> (script: String)
    ensures
        script@ == filled(template@, lastfm_key@, lastfm_callback@, version@, playback_url@),
{
    let mut auth = String::from_str("https://www.last.fm/api/auth/?api_key=");
    auth.append(lastfm_key);
    auth.append("&cb=");
    auth.append(lastfm_callback);
    proof {
        reveal_strlit("{auth_url}");
        reveal_strlit("{key}");
        reveal_strlit("{version}");
        reveal_strlit("{playback_url}");
    }
    let first = replace_all(template, "{auth_url}", auth.as_str());
    let second = replace_all(first.as_str(), "{key}", lastfm_key);
    let third = replace_all(second.as_str(), "{version}", version);
    replace_all(third.as_str(), "{playback_url}", playback_url)
}

/// The overlay script for a page: the built-in template, filled in.
pub fn build_overlay_script(
    lastfm_key: &str,
    lastfm_callback: &str,
    version: &str,
    playback_url: &str,
) -> (script: String)
    ensures
        script@ == filled(
            template_text(),
            lastfm_key@,
            lastfm_callback@,
            version@,
            playback_url@,
        ),
{
    let template = overlay_template();
    fill_template(template.as_str(), lastfm_key, lastfm_callback, version, playback_url)
}

} // verus!
