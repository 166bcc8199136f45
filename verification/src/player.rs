//! The properties of the player that the page may observe and set, and the
//! kind of value that each of them has.

use crate::text::same_bytes;
use vstd::prelude::*;
use vstd::string::*;

verus! {

/// The kind of value that a property of the player has.
#[derive(Clone, Copy, Debug, PartialEq, Eq, Structural)]
pub enum PropertyKind {
    /// A number.
    Float,
    /// Yes or no.
    Flag,
    /// A text.
    Text,
}

/// The property `name` holds a number.
pub open spec fn is_float_property(name: Seq<u8>) -> bool {
    ||| name == "time-pos".spec_bytes()
    ||| name == "duration".spec_bytes()
    ||| name == "volume".spec_bytes()
    ||| name == "speed".spec_bytes()
    ||| name == "sub-pos".spec_bytes()
    ||| name == "sub-scale".spec_bytes()
    ||| name == "sub-delay".spec_bytes()
    ||| name == "cache-buffering-state".spec_bytes()
}

/// The property `name` holds yes or no.
pub open spec fn is_flag_property(name: Seq<u8>) -> bool {
    ||| name == "pause".spec_bytes()
    ||| name == "buffering".spec_bytes()
    ||| name == "seeking".spec_bytes()
    ||| name == "osc".spec_bytes()
    ||| name == "input-default-bindings".spec_bytes()
    ||| name == "input-vo-keyboard".spec_bytes()
    ||| name == "eof-reached".spec_bytes()
    ||| name == "paused-for-cache".spec_bytes()
}

/// The property `name` holds a text.
pub open spec fn is_text_property(name: Seq<u8>) -> bool {
    ||| name == "path".spec_bytes()
    ||| name == "mpv-version".spec_bytes()
    ||| name == "ffmpeg-version".spec_bytes()
    ||| name == "hwdec".spec_bytes()
    ||| name == "vo".spec_bytes()
    ||| name == "track-list".spec_bytes()
    ||| name == "sub-color".spec_bytes()
    ||| name == "sub-back-color".spec_bytes()
    ||| name == "sub-border-color".spec_bytes()
    ||| name == "sid".spec_bytes()
    ||| name == "aid".spec_bytes()
    ||| name == "mute".spec_bytes()
    ||| name == "metadata".spec_bytes()
    ||| name == "video-params".spec_bytes()
    ||| name == "vid".spec_bytes()
    ||| name == "sub-ass-override".spec_bytes()
}

/// The kind of the property `name`; none for a property that is not
/// supported.
pub open spec fn kind_of(name: Seq<u8>) -> Option<PropertyKind> {
    if is_float_property(name) {
        Some(PropertyKind::Float)
    } else if is_flag_property(name) {
        Some(PropertyKind::Flag)
    } else if is_text_property(name) {
        Some(PropertyKind::Text)
    } else {
        None
    }
}

/// Tells whether the property `name` holds a number.
fn float_property(name: &[u8]) -> (found: bool)
    ensures
        found == is_float_property(name@),
{
    same_bytes(name, "time-pos".as_bytes()) || same_bytes(name, "duration".as_bytes())
        || same_bytes(name, "volume".as_bytes()) || same_bytes(name, "speed".as_bytes())
        || same_bytes(name, "sub-pos".as_bytes()) || same_bytes(name, "sub-scale".as_bytes())
        || same_bytes(name, "sub-delay".as_bytes()) || same_bytes(
        name,
        "cache-buffering-state".as_bytes(),
    )
}

/// Tells whether the property `name` holds yes or no.
fn flag_property(name: &[u8]) -> (found: bool)
    ensures
        found == is_flag_property(name@),
{
    same_bytes(name, "pause".as_bytes()) || same_bytes(name, "buffering".as_bytes()) || same_bytes(
        name,
        "seeking".as_bytes(),
    ) || same_bytes(name, "osc".as_bytes()) || same_bytes(
        name,
        "input-default-bindings".as_bytes(),
    ) || same_bytes(name, "input-vo-keyboard".as_bytes()) || same_bytes(
        name,
        "eof-reached".as_bytes(),
    ) || same_bytes(name, "paused-for-cache".as_bytes())
}

/// Tells whether the property `name` holds a text.
fn text_property(name: &[u8]) -> (found: bool)
    ensures
        found == is_text_property(name@),
{
    same_bytes(name, "path".as_bytes()) || same_bytes(name, "mpv-version".as_bytes())
        || same_bytes(name, "ffmpeg-version".as_bytes()) || same_bytes(name, "hwdec".as_bytes())
        || same_bytes(name, "vo".as_bytes()) || same_bytes(name, "track-list".as_bytes())
        || same_bytes(name, "sub-color".as_bytes()) || same_bytes(name, "sub-back-color".as_bytes())
        || same_bytes(name, "sub-border-color".as_bytes()) || same_bytes(name, "sid".as_bytes())
        || same_bytes(name, "aid".as_bytes()) || same_bytes(name, "mute".as_bytes()) || same_bytes(
        name,
        "metadata".as_bytes(),
    ) || same_bytes(name, "video-params".as_bytes()) || same_bytes(name, "vid".as_bytes())
        || same_bytes(name, "sub-ass-override".as_bytes())
}

/// Tells the kind of the property `name`, if it is supported.
pub fn property_kind(name: &[u8]) -> (kind: Option<PropertyKind>)
    ensures
        kind == kind_of(name@),
{
    if float_property(name) {
        Some(PropertyKind::Float)
    } else if flag_property(name) {
        Some(PropertyKind::Flag)
    } else if text_property(name) {
        Some(PropertyKind::Text)
    } else {
        None
    }
}

} // verus!
