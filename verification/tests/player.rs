use frame_pipeline::player::{property_kind, PropertyKind};

#[test]
fn number_properties_are_floats() {
    for name in ["time-pos", "duration", "volume", "speed", "sub-pos", "sub-scale", "sub-delay", "cache-buffering-state"] {
        assert_eq!(property_kind(name.as_bytes()), Some(PropertyKind::Float));
    }
}

#[test]
fn yes_or_no_properties_are_flags() {
    for name in ["pause", "buffering", "seeking", "osc", "input-default-bindings", "input-vo-keyboard", "eof-reached", "paused-for-cache"] {
        assert_eq!(property_kind(name.as_bytes()), Some(PropertyKind::Flag));
    }
}

#[test]
fn text_properties_are_texts() {
    for name in [
        "path", "mpv-version", "ffmpeg-version", "hwdec", "vo", "track-list", "sub-color", "sub-back-color",
        "sub-border-color", "sid", "aid", "mute", "metadata", "video-params", "vid", "sub-ass-override",
    ] {
        assert_eq!(property_kind(name.as_bytes()), Some(PropertyKind::Text));
    }
}

#[test]
fn other_properties_are_not_supported() {
    for name in ["", "pause ", "Pause", "time", "time-pos2", "media-title", "vo2"] {
        assert_eq!(property_kind(name.as_bytes()), None);
    }
}
