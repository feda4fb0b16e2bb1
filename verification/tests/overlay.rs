use scrobbler::overlay::{build_overlay_script, fill_template};
use scrobbler::overlay_template::overlay_template;

#[test]
fn every_mark_is_filled() {
    let script = fill_template(
        "a={auth_url};k={key}{key};v=v{version};p='{playback_url}';{other}",
        "K",
        "mscd://cb",
        "1.2.3",
        "http://127.0.0.1:4000/playback",
    );
    assert_eq!(
        script,
        "a=https://www.last.fm/api/auth/?api_key=K&cb=mscd://cb;k=KK;v=v1.2.3;p='http://127.0.0.1:4000/playback';{other}"
    );
}

#[test]
fn marks_are_filled_one_after_the_other() {
    let script = fill_template("{auth_url}|{key}", "{version}", "{key}", "V", "P");
    assert_eq!(script, "https://www.last.fm/api/auth/?api_key=V&cb=V|V");
}

#[test]
fn a_template_without_marks_stays() {
    assert_eq!(fill_template("plain {text}", "K", "C", "V", "P"), "plain {text}");
    assert_eq!(fill_template("", "K", "C", "V", "P"), "");
}

#[test]
fn the_overlay_script_is_the_filled_template() {
    let template = overlay_template();
    assert!(template.contains("'{key}' === 'REPLACE_ME'"));
    assert!(template.contains("const authUrl = '{auth_url}';"));
    assert!(template.contains("status.textContent = 'v{version}';"));
    assert!(template.contains("const endpoint = '{playback_url}';"));
    let script = build_overlay_script("K9", "mscd://lastfm-callback", "0.4.1", "http://127.0.0.1:5/playback");
    assert_eq!(
        script,
        fill_template(&template, "K9", "mscd://lastfm-callback", "0.4.1", "http://127.0.0.1:5/playback")
    );
    assert!(script.contains("'K9' === 'REPLACE_ME'"));
    assert!(script
        .contains("const authUrl = 'https://www.last.fm/api/auth/?api_key=K9&cb=mscd://lastfm-callback';"));
    assert!(script.contains("status.textContent = 'v0.4.1';"));
    assert!(script.contains("const endpoint = 'http://127.0.0.1:5/playback';"));
    assert!(!script.contains("{key}"));
    assert!(!script.contains("{auth_url}"));
    assert!(!script.contains("{version}"));
    assert!(!script.contains("{playback_url}"));
    assert!(script.starts_with("\n    (() => {"));
    assert!(script.ends_with("})();\n    "));
}
