use scrobbler::client::{
    call_outcome, decimal_text, fetch_lastfm_session, lastfm_call, send_now_playing,
    send_scrobble, session_outcome, CallError, LastfmSession,
};
use scrobbler::signer::sign_lastfm;
use scrobbler::tracker::{PlaybackPayload, TrackState};

fn pairs(items: &[(&str, &str)]) -> Vec<(String, String)> {
    items.iter().map(|(k, v)| (k.to_string(), v.to_string())).collect()
}

fn session() -> LastfmSession {
    LastfmSession { session_key: "SK".to_string(), username: "u".to_string() }
}

fn track() -> TrackState {
    let p = PlaybackPayload {
        track_id: "t1".to_string(),
        title: "A".to_string(),
        artist: "B".to_string(),
        album: None,
        duration_ms: 200_000,
        position_ms: 0,
        paused: false,
        ts: 0,
    };
    TrackState::start(&p, 1_700_000_000_999)
}

#[test]
fn numbers_are_written_in_decimal() {
    assert_eq!(decimal_text(0), "0");
    assert_eq!(decimal_text(7), "7");
    assert_eq!(decimal_text(10), "10");
    assert_eq!(decimal_text(200_000), "200000");
    assert_eq!(decimal_text(u64::MAX), "18446744073709551615");
}

#[test]
fn now_playing_form() {
    let form = send_now_playing(&session(), "K", "S", &track());
    assert_eq!(
        form,
        pairs(&[
            ("track", "A"),
            ("artist", "B"),
            ("duration", "200000"),
            ("method", "track.updateNowPlaying"),
            ("api_key", "K"),
            ("sk", "SK"),
            ("api_sig", "a0dc2c6864f20a36bb29c800244c7b2d"),
            ("format", "json"),
        ])
    );
}

#[test]
fn scrobble_form_carries_the_start_in_seconds() {
    let form = send_scrobble(&session(), "K", "S", &track());
    assert_eq!(
        form,
        pairs(&[
            ("track[0]", "A"),
            ("artist[0]", "B"),
            ("duration[0]", "200000"),
            ("timestamp[0]", "1700000000"),
            ("method", "track.scrobble"),
            ("api_key", "K"),
            ("sk", "SK"),
            ("api_sig", "4b0c09851f9764277922a84d00b5599e"),
            ("format", "json"),
        ])
    );
}

#[test]
fn a_call_signs_all_but_signature_and_format() {
    let form = lastfm_call("m", pairs(&[("z", "1"), ("a", "2")]), "K", "S", "SK");
    let mut signed = pairs(&[("z", "1"), ("a", "2"), ("method", "m"), ("api_key", "K"), ("sk", "SK")]);
    let sig = sign_lastfm(&mut signed, "S");
    assert_eq!(form.len(), 7);
    assert_eq!(form[0], ("z".to_string(), "1".to_string()));
    assert_eq!(form[1], ("a".to_string(), "2".to_string()));
    assert_eq!(form[5], ("api_sig".to_string(), sig));
    assert_eq!(form[6], ("format".to_string(), "json".to_string()));
}

#[test]
fn session_query() {
    let query = fetch_lastfm_session("K", "S", "T");
    assert_eq!(
        query,
        pairs(&[
            ("method", "auth.getSession"),
            ("api_key", "K"),
            ("token", "T"),
            ("api_sig", "a9b7c596842f7f7bf14e3f42ba211de8"),
            ("format", "json"),
        ])
    );
    let mut params = pairs(&[("token", "T"), ("method", "auth.getSession"), ("api_key", "K")]);
    assert_eq!(query[3].1, sign_lastfm(&mut params, "S"));
}

#[test]
fn a_call_succeeds_on_a_status_of_success() {
    assert_eq!(call_outcome(Some(200)), Ok(()));
    assert_eq!(call_outcome(Some(299)), Ok(()));
    assert_eq!(call_outcome(Some(199)), Err(CallError::Status { code: 199 }));
    assert_eq!(call_outcome(Some(300)), Err(CallError::Status { code: 300 }));
    assert_eq!(call_outcome(Some(403)), Err(CallError::Status { code: 403 }));
    assert_eq!(call_outcome(None), Err(CallError::Transport));
}

#[test]
fn a_session_needs_success_and_a_body() {
    let got = session_outcome(Some(200), Some(session())).expect("a session");
    assert_eq!(got.session_key, "SK");
    assert_eq!(got.username, "u");
    assert_eq!(session_outcome(Some(200), None).unwrap_err(), CallError::Malformed);
    assert_eq!(
        session_outcome(Some(500), Some(session())).unwrap_err(),
        CallError::Status { code: 500 }
    );
    assert_eq!(session_outcome(None, Some(session())).unwrap_err(), CallError::Transport);
    assert_eq!(session_outcome(None, None).unwrap_err(), CallError::Transport);
}

#[test]
fn a_failure_is_told_in_words() {
    assert_eq!(
        CallError::Status { code: 403 }.message("Last.fm call track.scrobble"),
        "Last.fm call track.scrobble failed: 403"
    );
    assert_eq!(CallError::Transport.message("x"), "x got no answer");
    assert_eq!(CallError::Malformed.message("x"), "x got an answer that could not be read");
}

#[test]
fn a_call_does_not_sign_a_format_that_is_given() {
    let with = lastfm_call("m", pairs(&[("format", "xml"), ("z", "1")]), "K", "S", "SK");
    let without = lastfm_call("m", pairs(&[("z", "1")]), "K", "S", "SK");
    assert_eq!(with[0], ("format".to_string(), "xml".to_string()));
    assert_eq!(with[5].0, "api_sig");
    assert_eq!(with[5].1, without[4].1);
}
