//! What the shell shows of itself as rich presence.

use crate::text::{all_white, is_blank};
use vstd::prelude::*;

verus! {

/// What is shown where nothing is known of the title.
pub const DETAILS_FALLBACK: &'static str = "Watching Video";

/// What is shown where nothing is known of the artist.
pub const STATE_FALLBACK: &'static str = "Stremio";

/// A text is worth showing: there is one, and not all of it is whitespace.
pub open spec fn worth_showing(text: Option<&str>) -> bool {
    text matches Some(words) && !all_white(words@)
}

/// What is shown for `text`: the text itself where it is worth showing, else
/// `fallback`.
pub fn shown<'a>(text: Option<&'a str>, fallback: &'a str) -> (words: &'a str)
    ensures
        words@ == if worth_showing(text) {
            text->0@
        } else {
            fallback@
        },
{
    match text {
        Some(words) => if is_blank(words) {
            fallback
        } else {
            words
        },
        None => fallback,
    }
}

/// The presence to show.
pub struct Presence<'a> {
    /// The first line: the title.
    pub details: &'a str,
    /// The second line: the artist.
    pub state: &'a str,
    /// The address of the large image, where there is one to show.
    pub image: Option<&'a str>,
}

/// Makes the presence to show for what is playing.
pub fn presence<'a>(title: Option<&'a str>, artist: Option<&'a str>, image: Option<&'a str>) -> (shown:
    Presence<'a>)
    ensures
        shown.details@ == if worth_showing(title) {
            title->0@
        } else {
            DETAILS_FALLBACK@
        },
        shown.state@ == if worth_showing(artist) {
            artist->0@
        } else {
            STATE_FALLBACK@
        },
        shown.image is Some <==> worth_showing(image),
        shown.image matches Some(address) ==> address@ == image->0@,
{
    let image = match image {
        Some(address) => if is_blank(address) {
            None
        } else {
            Some(address)
        },
        None => None,
    };
    Presence {
        details: shown(title, DETAILS_FALLBACK),
        state: shown(artist, STATE_FALLBACK),
        image,
    }
}

} // verus!
