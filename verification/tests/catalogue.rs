use frame_pipeline::catalogue::{meta_url, search_url, CATALOGUE};
use frame_pipeline::media::StreamKind;

fn text(bytes: Vec<u8>) -> String {
    String::from_utf8(bytes).unwrap()
}

#[test]
fn search_address_of_a_plain_name() {
    assert_eq!(CATALOGUE, "https://v3-cinemeta.strem.io");
    assert_eq!(
        text(search_url(StreamKind::Series, b"Show")),
        "https://v3-cinemeta.strem.io/catalog/series/top/search=Show.json"
    );
    assert_eq!(
        text(search_url(StreamKind::Movie, b"Film")),
        "https://v3-cinemeta.strem.io/catalog/movie/top/search=Film.json"
    );
}

#[test]
fn search_address_writes_the_query_as_a_form_does() {
    assert_eq!(
        text(search_url(StreamKind::Series, b"Breaking Bad")),
        "https://v3-cinemeta.strem.io/catalog/series/top/search=Breaking+Bad.json"
    );
    assert_eq!(
        text(search_url(StreamKind::Movie, "Am\u{e9}lie & co/2".as_bytes())),
        "https://v3-cinemeta.strem.io/catalog/movie/top/search=Am%C3%A9lie+%26+co%2F2.json"
    );
    assert_eq!(
        text(search_url(StreamKind::Movie, b"a*b-c.d_e~f+g")),
        "https://v3-cinemeta.strem.io/catalog/movie/top/search=a*b-c.d_e%7Ef%2Bg.json"
    );
    assert_eq!(
        text(search_url(StreamKind::Movie, b"")),
        "https://v3-cinemeta.strem.io/catalog/movie/top/search=.json"
    );
    assert_eq!(
        text(search_url(StreamKind::Movie, &[0x00, 0x0a, 0x7f, 0xff])),
        "https://v3-cinemeta.strem.io/catalog/movie/top/search=%00%0A%7F%FF.json"
    );
}

#[test]
fn meta_address_holds_the_id_as_it_is() {
    assert_eq!(
        text(meta_url(StreamKind::Series, b"tt0944947")),
        "https://v3-cinemeta.strem.io/meta/series/tt0944947.json"
    );
    assert_eq!(
        text(meta_url(StreamKind::Movie, b"tt0111161")),
        "https://v3-cinemeta.strem.io/meta/movie/tt0111161.json"
    );
    assert_eq!(text(meta_url(StreamKind::Movie, b"")), "https://v3-cinemeta.strem.io/meta/movie/.json");
}

#[test]
fn every_byte_is_written_as_a_form_writes_it() {
    let prefix = "https://v3-cinemeta.strem.io/catalog/movie/top/search=";
    for byte in 0..=255u8 {
        let unchanged = byte.is_ascii_alphanumeric() || matches!(byte, b'*' | b'-' | b'.' | b'_');
        let expected = if unchanged {
            (byte as char).to_string()
        } else if byte == b' ' {
            "+".to_string()
        } else {
            format!("%{:02X}", byte)
        };
        let url = text(search_url(StreamKind::Movie, &[byte]));
        assert_eq!(url, format!("{prefix}{expected}.json"));
    }
}
