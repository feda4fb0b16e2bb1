//! The calls of the scrobbling service: what is sent, and what an answer
//! means.
//!
//! Each call is a list of parameters in the order in which they are sent,
//! the signature among them. Sending is left to the caller.

use vstd::prelude::*;
use vstd::string::StringExecFns;
use vstd::utf8::{encode_utf8, is_ascii_chars, is_ascii_chars_encode_utf8};
use crate::param_order::lemma_signable_all;
use crate::signer::{
    digest_text, hex_digit_text, insert_by_key, is_signed, joined, key_le, sign_lastfm, signable,
    signature, signature_base, sorted_by_key, text_pairs, Pairs,
};
use crate::tracker::TrackState;

verus! {

/// A connected account.
#[derive(Debug)]
pub struct LastfmSession {
    pub session_key: String,
    pub username: String,
}

/// Why a call of the service failed.
#[derive(Clone, Copy, Debug, PartialEq, Eq, Structural)]
pub enum CallError {
    /// No answer came.
    Transport,
    /// The service answered with a status other than success.
    Status { code: u16 },
    /// The answer could not be read.
    Malformed,
}

/// The decimal digit `d`.
pub open spec fn digit_char(d: nat) -> char {
    (48 + d) as char
}

/// The number `n` in decimal, without leading zeros.
pub open spec fn decimal(n: nat) -> Seq<char>
    decreases n,
{
    if n < 10 {
        seq![digit_char(n)]
    } else {
        decimal(n / 10).push(digit_char(n % 10))
    }
}

/// The parameters of a call once the method, the key of the application and
/// the key of the session are added.
pub open spec fn call_params(
    method: Seq<char>,
    params: Pairs,
    api_key: Seq<char>,
    sk: Seq<char>,
) -> Pairs {
    params.push(("method"@, method)).push(("api_key"@, api_key)).push(("sk"@, sk))
}

/// What is sent for a call: its parameters, the signature of those that are
/// signed, and the format of the answer, which is not signed.
pub open spec fn signed_form(
    method: Seq<char>,
    params: Pairs,
    api_key: Seq<char>,
    api_secret: Seq<char>,
    sk: Seq<char>,
) -> Pairs {
    let full = call_params(method, params, api_key, sk);
    full.push(("api_sig"@, signature(signable(full), api_secret))).push(("format"@, "json"@))
}

/// What a now-playing announcement says of a track.
pub open spec fn now_playing_params(t: TrackState) -> Pairs {
    seq![
        ("track"@, t.title@),
        ("artist"@, t.artist@),
        ("duration"@, decimal(t.duration_ms as nat)),
    ]
}

/// What a scrobble says of a track: the timestamp is the start of the track
/// in seconds.
pub open spec fn scrobble_params(t: TrackState) -> Pairs {
    seq![
        ("track[0]"@, t.title@),
        ("artist[0]"@, t.artist@),
        ("duration[0]"@, decimal(t.duration_ms as nat)),
        ("timestamp[0]"@, decimal((t.started_at / 1000) as nat)),
    ]
}

/// What is signed to exchange a token for a session.
pub open spec fn session_params(api_key: Seq<char>, token: Seq<char>) -> Pairs {
    seq![("method"@, "auth.getSession"@), ("api_key"@, api_key), ("token"@, token)]
}

/// What is sent to exchange a token for a session: the parameters, their
/// signature, and the format of the answer, which is not signed.
pub open spec fn session_query(api_key: Seq<char>, api_secret: Seq<char>, token: Seq<char>) -> Pairs {
    session_params(api_key, token).push(
        ("api_sig"@, signature(signable(session_params(api_key, token)), api_secret)),
    ).push(("format"@, "json"@))
}

/// The text that is signed for the exchange of a token, written out.
pub open spec fn session_base(api_key: Seq<char>, token: Seq<char>, api_secret: Seq<char>) -> Seq<
    char,
> {
    "api_key"@ + api_key + "method"@ + "auth.getSession"@ + "token"@ + token + api_secret
}

/// A failure in words, for the call named `what`.
pub open spec fn failure_text(error: CallError, what: Seq<char>) -> Seq<char> {
    match error {
        CallError::Transport => what + " got no answer"@,
        CallError::Status { code } => what + " failed: "@ + decimal(code as nat),
        CallError::Malformed => what + " got an answer that could not be read"@,
    }
}

/// A status that means success.
pub open spec fn is_success(code: u16) -> bool {
    200 <= code < 300
}

fn digit_text(d: u8) -> (text: &'static str)
    requires
        d < 10,
    ensures
        text@ == seq![digit_char(d as nat)],
{
    hex_digit_text(d)
}

/// Writes a number in decimal.
pub fn decimal_text(n: u64) -> (text: String)
    ensures
        text@ == decimal(n as nat),
    decreases n,
{
    if n < 10 {
        String::from_str(digit_text(n as u8))
    } else {
        let mut text = decimal_text(n / 10);
        let ghost before = text@;
        let last = digit_text((n % 10) as u8);
        text.append(last);
        assert(text@ =~= before.push(digit_char((n % 10) as nat)));
        text
    }
}

fn push_pair(v: &mut Vec<(String, String)>, key: &str, value: String)
    ensures
        text_pairs(final(v)@) == text_pairs(old(v)@).push((key@, value@)),
{
    let ghost before = text_pairs(v@);
    v.push((String::from_str(key), value));
    assert(text_pairs(v@) =~= before.push((key@, value@)));
}

fn copy_pairs(v: &Vec<(String, String)>) -> (copy: Vec<(String, String)>)
    ensures
        text_pairs(copy@) == text_pairs(v@),
{
    let mut copy: Vec<(String, String)> = Vec::new();
    let mut i: usize = 0;
    while i < v.len()
        invariant
            i <= v@.len(),
            text_pairs(copy@) == text_pairs(v@.subrange(0, i as int)),
        decreases v@.len() - i,
    {
        let ghost before = text_pairs(copy@);
        copy.push((v[i].0.clone(), v[i].1.clone()));
        assert(text_pairs(copy@) =~= before.push((v@[i as int].0@, v@[i as int].1@)));
        assert(text_pairs(v@.subrange(0, i + 1)) =~= before.push((v@[i as int].0@, v@[i as int].1@)));
        i += 1;
    }
    assert(v@.subrange(0, i as int) =~= v@);
    copy
}

/// Completes and signs a call: the method, the key of the application and
/// the key of the session are added to `params`, all of them but a signature
/// or a format among them are signed, and the signature and the format
/// follow. The parameters stay in the order in which they were given.
pub fn lastfm_call(
    method: &str,
    params: Vec<(String, String)>,
    api_key: &str,
    api_secret: &str,
    sk: &str,
) -> (form: Vec<(String, String)>)
    ensures
        text_pairs(form@) == signed_form(method@, text_pairs(params@), api_key@, api_secret@, sk@),
{
    let mut form = params;
    push_pair(&mut form, "method", String::from_str(method));
    push_pair(&mut form, "api_key", String::from_str(api_key));
    push_pair(&mut form, "sk", String::from_str(sk));
    let mut signed = copy_pairs(&form);
    let api_sig = sign_lastfm(&mut signed, api_secret);
    push_pair(&mut form, "api_sig", api_sig);
    push_pair(&mut form, "format", String::from_str("json"));
    form
}

/// What is sent to announce `track` as now playing: its title, its artist
/// and its duration, completed and signed for the session.
pub fn send_now_playing(
    session: &LastfmSession,
    api_key: &str,
    api_secret: &str,
    track: &TrackState,
) -> (form: Vec<(String, String)>)
    ensures
        text_pairs(form@) == signed_form(
            "track.updateNowPlaying"@,
            now_playing_params(*track),
            api_key@,
            api_secret@,
            session.session_key@,
        ),
{
    let mut params: Vec<(String, String)> = Vec::new();
    assert(text_pairs(params@) =~= Seq::empty());
    push_pair(&mut params, "track", track.title.clone());
    push_pair(&mut params, "artist", track.artist.clone());
    push_pair(&mut params, "duration", decimal_text(track.duration_ms));
    assert(text_pairs(params@) =~= now_playing_params(*track));
    lastfm_call(
        "track.updateNowPlaying",
        params,
        api_key,
        api_secret,
        session.session_key.as_str(),
    )
}

/// What is sent to scrobble `track`: its title, its artist, its duration and
/// the second at which it began, completed and signed for the session.
pub fn send_scrobble(
    session: &LastfmSession,
    api_key: &str,
    api_secret: &str,
    track: &TrackState,
) -> (form: Vec<(String, String)>)
    ensures
        text_pairs(form@) == signed_form(
            "track.scrobble"@,
            scrobble_params(*track),
            api_key@,
            api_secret@,
            session.session_key@,
        ),
{
    let mut params: Vec<(String, String)> = Vec::new();
    assert(text_pairs(params@) =~= Seq::empty());
    push_pair(&mut params, "track[0]", track.title.clone());
    push_pair(&mut params, "artist[0]", track.artist.clone());
    push_pair(&mut params, "duration[0]", decimal_text(track.duration_ms));
    push_pair(&mut params, "timestamp[0]", decimal_text(track.started_at / 1000));
    assert(text_pairs(params@) =~= scrobble_params(*track));
    lastfm_call("track.scrobble", params, api_key, api_secret, session.session_key.as_str())
}

/// What is sent to exchange `token` for a session: the method, the key of
/// the application and the token, their signature, and the format.
pub fn fetch_lastfm_session(api_key: &str, api_secret: &str, token: &str) -> (query: Vec<
    (String, String),
>)
    ensures
        text_pairs(query@) == session_query(api_key@, api_secret@, token@),
{
    let mut query: Vec<(String, String)> = Vec::new();
    assert(text_pairs(query@) =~= Seq::empty());
    push_pair(&mut query, "method", String::from_str("auth.getSession"));
    push_pair(&mut query, "api_key", String::from_str(api_key));
    push_pair(&mut query, "token", String::from_str(token));
    assert(text_pairs(query@) =~= session_params(api_key@, token@));
    let mut signed = copy_pairs(&query);
    let api_sig = sign_lastfm(&mut signed, api_secret);
    push_pair(&mut query, "api_sig", api_sig);
    push_pair(&mut query, "format", String::from_str("json"));
    query
}

/// The first byte of a key that begins with an ASCII character.
proof fn lemma_first_byte(key: Seq<char>)
    requires
        key.len() > 0,
        is_ascii_chars(key),
    ensures
        encode_utf8(key).len() > 0,
        encode_utf8(key)[0] == key[0] as u8,
{
    is_ascii_chars_encode_utf8(key);
}

/// For the exchange of a token all three parameters are signed, and the
/// signed text is the key of the application, the method and the token,
/// each behind its name, and the secret.
pub proof fn lemma_session_base(api_key: Seq<char>, token: Seq<char>, api_secret: Seq<char>)
    ensures
        signable(session_params(api_key, token)) == session_params(api_key, token),
        signature_base(session_params(api_key, token), api_secret) == session_base(
            api_key,
            token,
            api_secret,
        ),
        signature(signable(session_params(api_key, token)), api_secret) == digest_text(
            session_base(api_key, token, api_secret),
        ),
{
    reveal_strlit("method");
    reveal_strlit("api_key");
    reveal_strlit("token");
    reveal_strlit("api_sig");
    reveal_strlit("format");
    assert("method"@[0] != "format"@[0]);
    assert("api_key"@[4] != "api_sig"@[4]);
    assert(is_signed("method"@) && is_signed("api_key"@) && is_signed("token"@));
    lemma_signable_all(session_params(api_key, token));
    lemma_first_byte("method"@);
    lemma_first_byte("api_key"@);
    lemma_first_byte("token"@);
    let method = ("method"@, "auth.getSession"@);
    let key = ("api_key"@, api_key);
    let tok = ("token"@, token);
    let params = session_params(api_key, token);
    let two = seq![method, key];
    let one = seq![method];
    assert(params.drop_last() =~= two);
    assert(two.drop_last() =~= one);
    assert(one.drop_last() =~= Seq::<(Seq<char>, Seq<char>)>::empty());
    assert(sorted_by_key(one.drop_last()) =~= Seq::<(Seq<char>, Seq<char>)>::empty());
    assert(sorted_by_key(one) =~= one);
    assert(!key_le(method.0, key.0));
    assert(insert_by_key(one.drop_last(), key) =~= seq![key]);
    assert(sorted_by_key(two) =~= seq![key, method]);
    assert(key_le(method.0, tok.0));
    let sorted = seq![key, method, tok];
    assert(sorted_by_key(params) =~= sorted);
    assert(sorted.drop_last() =~= seq![key, method]);
    assert(seq![key, method].drop_last() =~= seq![key]);
    assert(seq![key].drop_last() =~= Seq::<(Seq<char>, Seq<char>)>::empty());
    assert(joined(Seq::<(Seq<char>, Seq<char>)>::empty()) =~= Seq::<char>::empty());
    assert(joined(seq![key]) =~= "api_key"@ + api_key);
    assert(joined(seq![key, method]) =~= "api_key"@ + api_key + "method"@ + "auth.getSession"@);
    assert(joined(sorted) =~= "api_key"@ + api_key + "method"@ + "auth.getSession"@ + "token"@
        + token);
}

impl CallError {
    /// The failure in words, for the call named `what`; a status is
    /// written in decimal.
    pub fn message(&self, what: &str) -> (text: String)
        ensures
            text@ == failure_text(*self, what@),
    {
        let mut text = String::from_str(what);
        match self {
            CallError::Transport => {
                text.append(" got no answer");
            },
            CallError::Status { code } => {
                text.append(" failed: ");
                let status = decimal_text(*code as u64);
                text.append(status.as_str());
            },
            CallError::Malformed => {
                text.append(" got an answer that could not be read");
            },
        }
        text
    }
}

/// What the answer to a call means: `status` is the status of the answer,
/// or nothing where no answer came. A call succeeds exactly on a status from
/// 200 to 299.
pub fn call_outcome(status: Option<u16>) -> (outcome: Result<(), CallError>)
    ensures
        outcome == match status {
            None => Err::<(), CallError>(CallError::Transport),
            Some(code) => if is_success(code) {
                Ok(())
            } else {
                Err(CallError::Status { code })
            },
        },
{
    match status {
        None => Err(CallError::Transport),
        Some(code) => if 200 <= code && code < 300 {
            Ok(())
        } else {
            Err(CallError::Status { code })
        },
    }
}

/// What the answer to the exchange of a token means: `session` is what the
/// body of the answer held, or nothing where it could not be read. The
/// session is there exactly if the status means success and the body could
/// be read.
pub fn session_outcome(status: Option<u16>, session: Option<LastfmSession>) -> (outcome: Result<
    LastfmSession,
    CallError,
>)
    ensures
        outcome == match status {
            None => Err::<LastfmSession, CallError>(CallError::Transport),
            Some(code) => if !is_success(code) {
                Err(CallError::Status { code })
            } else {
                match session {
                    Some(s) => Ok(s),
                    None => Err(CallError::Malformed),
                }
            },
        },
{
    match call_outcome(status) {
        Err(e) => Err(e),
        Ok(_) => match session {
            Some(s) => Ok(s),
            None => Err(CallError::Malformed),
        },
    }
}

} // verus!
