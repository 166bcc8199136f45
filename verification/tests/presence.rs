use frame_pipeline::presence::{presence, shown, DETAILS_FALLBACK, STATE_FALLBACK};
use frame_pipeline::text::is_blank;

#[test]
fn blank_is_what_whitespace_alone_leaves() {
    assert!(is_blank(""));
    assert!(is_blank(" "));
    assert!(is_blank("\t\n \u{a0}\u{3000}"));
    assert!(!is_blank(" a "));
    assert!(!is_blank("_"));
}

#[test]
fn text_worth_showing_is_shown_as_it_is() {
    assert_eq!(shown(Some("The Film"), "fallback"), "The Film");
    assert_eq!(shown(Some("  padded  "), "fallback"), "  padded  ");
}

#[test]
fn fallback_is_shown_for_nothing_and_for_blanks() {
    assert_eq!(shown(None, "fallback"), "fallback");
    assert_eq!(shown(Some(""), "fallback"), "fallback");
    assert_eq!(shown(Some("   "), "fallback"), "fallback");
    assert_eq!(shown(Some("\n\t"), "fallback"), "fallback");
}

#[test]
fn presence_of_what_is_playing() {
    let p = presence(Some("S1:E2 - Pilot"), Some("Show"), Some("https://img/logo.png"));
    assert_eq!(p.details, "S1:E2 - Pilot");
    assert_eq!(p.state, "Show");
    assert_eq!(p.image, Some("https://img/logo.png"));
}

#[test]
fn presence_falls_back_where_nothing_is_known() {
    assert_eq!(DETAILS_FALLBACK, "Watching Video");
    assert_eq!(STATE_FALLBACK, "Stremio");
    let p = presence(None, None, None);
    assert_eq!((p.details, p.state, p.image), ("Watching Video", "Stremio", None));
    let p = presence(Some(" "), Some(""), Some("  "));
    assert_eq!((p.details, p.state, p.image), ("Watching Video", "Stremio", None));
    let p = presence(Some("Film"), Some(" "), None);
    assert_eq!((p.details, p.state, p.image), ("Film", "Stremio", None));
}
