//! What is playing: the rule that tells a title from an address, the reading
//! of titles and stream ids, the label of an episode, and what is passed on
//! of the catalogue's answer.

use crate::text::{
    contains, find_from, has_part, has_prefix, position_from, starts_with, str_trim, trimmed,
};
use vstd::prelude::*;
use vstd::slice::slice_to_vec;
use vstd::string::*;
use vstd::utf8::encode_utf8;

verus! {

/// A media title that is no title but an address: the URL of a file, or a
/// link with a tracker, an announce address or a hash-table peer in it.
pub open spec fn address_like(title: Seq<u8>) -> bool {
    ||| has_prefix(title, "file://".spec_bytes())
    ||| has_part(title, "&tr=".spec_bytes())
    ||| has_part(title, "announce".spec_bytes())
    ||| has_part(title, "dht:".spec_bytes())
}

/// Tells whether a media title is an address and not to be shown.
pub fn is_address(title: &[u8]) -> (address: bool)
    ensures
        address == address_like(title@),
{
    starts_with(title, "file://".as_bytes()) || contains(title, "&tr=".as_bytes()) || contains(
        title,
        "announce".as_bytes(),
    ) || contains(title, "dht:".as_bytes())
}

/// Every byte of `text` is a decimal digit.
pub open spec fn all_digits(text: Seq<u8>) -> bool {
    forall|i: int| 0 <= i < text.len() ==> 48 <= #[trigger] text[i] <= 57
}

/// The number that the decimal digits of `text` stand for.
pub open spec fn decimal(text: Seq<u8>) -> int
    decreases text.len(),
{
    if text.len() == 0 {
        0
    } else {
        decimal(text.drop_last()) * 10 + (text.last() - 48)
    }
}

/// The digits of a number text: what follows its sign, if it has one.
pub open spec fn digits_of(text: Seq<u8>) -> Seq<u8> {
    if text.len() > 0 && (text[0] == 43 || text[0] == 45) {
        text.skip(1)
    } else {
        text
    }
}

/// The `i32` that `text` stands for: an optional sign and at least one
/// decimal digit, nothing else, and a value that an `i32` can hold.
pub open spec fn number_of(text: Seq<u8>) -> Option<int> {
    let digits = digits_of(text);
    let value = if text.len() > 0 && text[0] == 45 {
        -decimal(digits)
    } else {
        decimal(digits)
    };
    if digits.len() > 0 && all_digits(digits) && i32::MIN <= value <= i32::MAX {
        Some(value)
    } else {
        None
    }
}

/// The number of a digit text is not negative, and it is at least the number
/// of each of its beginnings.
proof fn lemma_decimal_grows(text: Seq<u8>, n: int)
    requires
        all_digits(text),
        0 <= n <= text.len(),
    ensures
        0 <= decimal(text.take(n)) <= decimal(text),
    decreases text.len() - n,
{
    if n == text.len() {
        assert(text.take(n) == text);
        lemma_decimal_nonnegative(text);
    } else {
        lemma_decimal_grows(text, n + 1);
        let longer = text.take(n + 1);
        assert(longer.drop_last() == text.take(n));
        lemma_decimal_nonnegative(text.take(n));
    }
}

/// The number of a digit text is not negative.
proof fn lemma_decimal_nonnegative(text: Seq<u8>)
    requires
        all_digits(text),
    ensures
        0 <= decimal(text),
    decreases text.len(),
{
    if text.len() > 0 {
        lemma_decimal_nonnegative(text.drop_last());
    }
}

/// Reads the bytes `from..to` of `text` as an `i32`.
pub fn parse_number(text: &[u8], from: usize, to: usize) -> (number: Option<i32>)
    requires
        from <= to <= text@.len(),
    ensures
        match number {
            Some(value) => number_of(text@.subrange(from as int, to as int)) == Some(value as int),
            None => number_of(text@.subrange(from as int, to as int)) is None,
        },
{
    let ghost part = text@.subrange(from as int, to as int);
    if from == to {
        return None;
    }
    let negative = text[from] == 45;
    let signed = negative || text[from] == 43;
    let start = if signed {
        from + 1
    } else {
        from
    };
    let ghost digits = digits_of(part);
    assert(part[0] == text@[from as int]);
    assert(digits =~= text@.subrange(start as int, to as int));
    if start == to {
        return None;
    }
    let mut value: i64 = 0;
    let mut i: usize = start;
    while i < to
        invariant
            start <= i <= to,
            from <= start,
            to <= text@.len(),
            part == text@.subrange(from as int, to as int),
            digits == digits_of(part),
            digits == text@.subrange(start as int, to as int),
            negative == (part.len() > 0 && part[0] == 45),
            all_digits(digits.take(i - start)),
            value == decimal(digits.take(i - start)),
            0 <= value <= 0x8000_0000,
        decreases to - i,
    {
        let byte = text[i];
        assert(digits[i - start] == byte);
        if byte < 48 || byte > 57 {
            assert(!all_digits(digits));
            return None;
        }
        let ghost shorter = digits.take(i - start);
        let ghost longer = digits.take(i - start + 1);
        assert(longer.drop_last() == shorter);
        assert(longer.last() == byte);
        value = value * 10 + (byte - 48) as i64;
        if value > 0x8000_0000 {
            proof {
                if all_digits(digits) {
                    lemma_decimal_grows(digits, i - start + 1);
                }
            }
            return None;
        }
        i += 1;
    }
    assert(digits.take(to - start) == digits);
    if negative {
        Some((-value) as i32)
    } else if value <= 0x7fff_ffff {
        Some(value as i32)
    } else {
        None
    }
}

/// Whether a stream id asks for a film or for an episode of a series.
#[derive(Clone, Copy, Debug, PartialEq, Eq, Structural)]
pub enum StreamKind {
    Movie,
    Series,
}

/// What a stream id says of the episode.
#[derive(Clone, Copy, Debug, PartialEq, Eq, Structural)]
pub enum Episode {
    /// The id names no episode.
    Unnamed,
    /// The id names this season and this episode.
    Named(i32, i32),
    /// The id has a place for season and episode that holds no numbers.
    Unreadable,
}

/// What a stream id asks for.
#[derive(Clone, Copy, Debug, PartialEq, Eq, Structural)]
pub struct StreamRef {
    /// The catalogue id is the first `id_len` bytes of the stream id.
    pub id_len: usize,
    pub kind: StreamKind,
    pub episode: Episode,
}

/// A stream id that the catalogue knows: it begins with `tt` or `kitsu`.
pub open spec fn known_stream(sid: Seq<u8>) -> bool {
    has_prefix(sid, "tt".spec_bytes()) || has_prefix(sid, "kitsu".spec_bytes())
}

/// What the stream id `sid` asks for. The id is read as parts between
/// colons: the first is the catalogue id; with more parts than one it is a
/// series; the second and third are season and episode.
pub open spec fn stream_ref_of(sid: Seq<u8>) -> StreamRef {
    let first = position_from(sid, 58, 0);
    let second = position_from(sid, 58, first + 1);
    let third = position_from(sid, 58, second + 1);
    if first >= sid.len() {
        StreamRef { id_len: first as usize, kind: StreamKind::Movie, episode: Episode::Unnamed }
    } else if second >= sid.len() {
        StreamRef { id_len: first as usize, kind: StreamKind::Series, episode: Episode::Unnamed }
    } else {
        StreamRef {
            id_len: first as usize,
            kind: StreamKind::Series,
            episode: match (
                number_of(sid.subrange(first + 1, second)),
                number_of(sid.subrange(second + 1, third)),
            ) {
                (Some(season), Some(episode)) => Episode::Named(season as i32, episode as i32),
                _ => Episode::Unreadable,
            },
        }
    }
}

/// Reads a stream id. Nothing is read from one that the catalogue does not
/// know.
pub fn parse_stream_id(sid: &[u8]) -> (stream: Option<StreamRef>)
    ensures
        stream is Some <==> known_stream(sid@),
        stream matches Some(found) ==> found == stream_ref_of(sid@),
{
    if !(starts_with(sid, "tt".as_bytes()) || starts_with(sid, "kitsu".as_bytes())) {
        return None;
    }
    let len = sid.len();
    let first = find_from(sid, 58, 0);
    if first >= len {
        return Some(StreamRef { id_len: first, kind: StreamKind::Movie, episode: Episode::Unnamed });
    }
    let second = find_from(sid, 58, first + 1);
    if second >= len {
        return Some(
            StreamRef { id_len: first, kind: StreamKind::Series, episode: Episode::Unnamed },
        );
    }
    let third = find_from(sid, 58, second + 1);
    let episode = match (parse_number(sid, first + 1, second), parse_number(sid, second + 1, third)) {
        (Some(season), Some(episode)) => Episode::Named(season, episode),
        _ => Episode::Unreadable,
    };
    Some(StreamRef { id_len: first, kind: StreamKind::Series, episode })
}

/// The pattern of a title that names an episode: a series name, then `s`
/// with the season and `e` with the episode, in either case.
pub const EPISODE_PATTERN: &'static str = r"(?i)^(.*?)[\W_]+s(\d+)[\W_]*e(\d+)";

/// The text of every group of the first match of the pattern `pattern` in
/// `text`, the whole match first; a group that took no part in the match has
/// none. None where the pattern is no pattern or does not match.
pub uninterp spec fn groups_of(pattern: Seq<char>, text: Seq<char>) -> Option<
    Seq<Option<Seq<char>>>,
>;

/// The texts of groups.
pub open spec fn texts_of(groups: Seq<Option<String>>) -> Seq<Option<Seq<char>>> {
    Seq::new(
        groups.len(),
        |i: int|
            match groups[i] {
                Some(group) => Some(group@),
                None => None,
            },
    )
}

/// `Regex::new` and `Regex::captures` of the regex crate, with
/// `Captures::iter` and `Match::as_str` to hand out the groups: the text of
/// every group of the first match. What a pattern matches is the regex
/// crate's to say; the contract gives the result its name.
#[verifier::external_body]
fn regex_groups(pattern: &str, text: &str) -> (found: Option<Vec<Option<String>>>)
    ensures
        match found {
            Some(groups) => groups_of(pattern@, text@) == Some(texts_of(groups@)),
            None => groups_of(pattern@, text@) is None,
        },
{
    let caps = regex::Regex::new(pattern).ok()?.captures(text)?;
    Some(caps.iter().map(|group| group.map(|found| found.as_str().to_owned())).collect())
}

/// The groups 1, 2 and 3 of a match, where it has them and all three took
/// part in it.
pub open spec fn three_of(groups: Seq<Option<Seq<char>>>) -> Option<
    (Seq<char>, Seq<char>, Seq<char>),
> {
    if groups.len() >= 4 && groups[1] is Some && groups[2] is Some && groups[3] is Some {
        Some((groups[1]->0, groups[2]->0, groups[3]->0))
    } else {
        None
    }
}

/// The groups 1, 2 and 3 of the first match of the pattern `pattern` in
/// `text`; none where the pattern is no pattern, where it does not match, or
/// where the match has no three such groups.
pub open spec fn captures_of(pattern: Seq<char>, text: Seq<char>) -> Option<
    (Seq<char>, Seq<char>, Seq<char>),
> {
    match groups_of(pattern, text) {
        Some(groups) => three_of(groups),
        None => None,
    }
}

/// Picks the groups 1, 2 and 3 of a match.
pub fn three_groups(groups: &[Option<String>]) -> (picked: Option<(&str, &str, &str)>)
    ensures
        match picked {
            Some((first, second, third)) => three_of(texts_of(groups@)) == Some(
                (first@, second@, third@),
            ),
            None => three_of(texts_of(groups@)) is None,
        },
{
    if groups.len() < 4 {
        return None;
    }
    match (&groups[1], &groups[2], &groups[3]) {
        (Some(first), Some(second), Some(third)) => Some(
            (first.as_str(), second.as_str(), third.as_str()),
        ),
        _ => None,
    }
}

/// `name` with a space for every full stop.
pub open spec fn spaced(name: Seq<u8>) -> Seq<u8> {
    Seq::new(name.len(), |k: int| if name[k] == 46 { 32u8 } else { name[k] })
}

/// A title that names an episode of a series.
pub struct EpisodeTitle {
    /// The name of the series.
    pub series: Vec<u8>,
    pub season: i32,
    pub episode: i32,
}

/// What a media title is read as.
pub enum TitleReading {
    /// The title names an episode of a series.
    Episode(EpisodeTitle),
    /// The title has the form of one that names an episode, but no series
    /// name, or no season or episode that counts from one.
    Unusable,
    /// The title is that of a film.
    Film,
}

/// The number that a season or episode text stands for; zero for a text that
/// stands for none.
pub open spec fn count_of(text: Seq<u8>) -> int {
    match number_of(text) {
        Some(value) => value,
        None => 0,
    }
}

/// The parts of a title make an episode title: the series has a name, and
/// season and episode count from one.
pub open spec fn usable(series: Seq<u8>, season: Seq<u8>, episode: Seq<u8>) -> bool {
    series.len() > 0 && count_of(season) > 0 && count_of(episode) > 0
}

/// Makes an episode title of the parts of a title: the name of the series
/// without the whitespace at its ends, and the texts of season and episode.
pub fn episode_title(series: &[u8], season: &[u8], episode: &[u8]) -> (title: Option<EpisodeTitle>)
    ensures
        title is Some <==> usable(series@, season@, episode@),
        title matches Some(found) ==> {
            &&& found.series@ == spaced(series@)
            &&& found.season == count_of(season@)
            &&& found.episode == count_of(episode@)
        },
{
    assert(season@.subrange(0, season@.len() as int) == season@);
    assert(episode@.subrange(0, episode@.len() as int) == episode@);
    let season_number = match parse_number(season, 0, season.len()) {
        Some(value) => value,
        None => 0,
    };
    let episode_number = match parse_number(episode, 0, episode.len()) {
        Some(value) => value,
        None => 0,
    };
    if series.len() == 0 || season_number <= 0 || episode_number <= 0 {
        return None;
    }
    let len = series.len();
    let mut name: Vec<u8> = Vec::with_capacity(len);
    let mut i: usize = 0;
    while i < len
        invariant
            i <= len,
            len == series@.len(),
            name@.len() == i,
            forall|k: int| 0 <= k < i ==> name@[k] == spaced(series@)[k],
        decreases len - i,
    {
        let byte = series[i];
        name.push(if byte == 46 { 32 } else { byte });
        i += 1;
    }
    assert(name@ =~= spaced(series@));
    Some(EpisodeTitle { series: name, season: season_number, episode: episode_number })
}

/// What the title `title` is read as, given the groups that the episode
/// pattern finds in it and the series name without the whitespace at its
/// ends.
pub open spec fn reading_of(title: Seq<char>, reading: TitleReading) -> bool {
    match captures_of(EPISODE_PATTERN@, title) {
        None => reading is Film,
        Some((name, season, episode)) => {
            let series = encode_utf8(trimmed(name));
            if usable(series, encode_utf8(season), encode_utf8(episode)) {
                reading matches TitleReading::Episode(found) && found.series@ == spaced(series)
                    && found.season == count_of(encode_utf8(season)) && found.episode == count_of(
                    encode_utf8(episode),
                )
            } else {
                reading is Unusable
            }
        },
    }
}

/// Reads a media title: as the title of an episode where the episode pattern
/// matches, else as that of a film.
pub fn read_title(title: &str) -> (reading: TitleReading)
    ensures
        reading_of(title@, reading),
{
    let groups = match regex_groups(EPISODE_PATTERN, title) {
        Some(groups) => groups,
        None => { return TitleReading::Film; },
    };
    match three_groups(groups.as_slice()) {
        None => TitleReading::Film,
        Some((name, season, episode)) => {
            let series = str_trim(name);
            match episode_title(series.as_bytes(), season.as_bytes(), episode.as_bytes()) {
                Some(found) => TitleReading::Episode(found),
                None => TitleReading::Unusable,
            }
        },
    }
}

/// The decimal digits of a number that is not negative.
pub open spec fn digits_text(value: nat) -> Seq<u8>
    decreases value,
{
    if value < 10 {
        seq![(48 + value) as u8]
    } else {
        digits_text(value / 10).push((48 + value % 10) as u8)
    }
}

/// A number as it is written: its decimal digits, behind `-` where it is
/// negative.
pub open spec fn number_text(value: int) -> Seq<u8> {
    if value < 0 {
        seq![45u8] + digits_text((-value) as nat)
    } else {
        digits_text(value as nat)
    }
}

/// The digits that are still to be written in front of those already written.
spec fn leading_digits(value: nat) -> Seq<u8> {
    if value == 0 {
        Seq::empty()
    } else {
        digits_text(value)
    }
}

/// Writes a number behind what `out` holds.
pub fn push_number(out: &mut Vec<u8>, value: i32)
    ensures
        final(out)@ == old(out)@ + number_text(value as int),
{
    let ghost before = out@;
    if value < 0 {
        out.push(45);
    }
    let magnitude: u64 = if value < 0 {
        (-(value as i64)) as u64
    } else {
        value as u64
    };
    let mut digits: Vec<u8> = Vec::new();
    if magnitude == 0 {
        digits.push(48);
    }
    let mut rest: u64 = magnitude;
    while rest > 0
        invariant
            magnitude > 0 ==> digits_text(magnitude as nat) == leading_digits(rest as nat) + digits@,
            magnitude == 0 ==> rest == 0 && digits@ == seq![48u8],
        decreases rest,
    {
        let digit = (rest % 10) as u8;
        proof {
            assert(leading_digits(rest as nat) =~= leading_digits((rest / 10) as nat).push(
                (48 + digit) as u8,
            ));
            assert(leading_digits((rest / 10) as nat).push((48 + digit) as u8) + digits@
                =~= leading_digits((rest / 10) as nat) + (seq![(48 + digit) as u8] + digits@));
        }
        let ghost written = digits@;
        digits.insert(0, 48 + digit);
        assert(digits@ =~= seq![(48 + digit) as u8] + written);
        rest = rest / 10;
    }
    assert(digits@ =~= digits_text(magnitude as nat));
    out.extend_from_slice(digits.as_slice());
    assert(out@ =~= before + number_text(value as int));
}

/// The label of an episode: `S`, the season, `:E`, the episode, and behind
/// ` - ` the name where the episode has one.
pub open spec fn episode_label_of(season: int, episode: int, name: Seq<u8>) -> Seq<u8> {
    let short = "S".spec_bytes() + number_text(season) + ":E".spec_bytes() + number_text(episode);
    if name.len() > 0 {
        short + " - ".spec_bytes() + name
    } else {
        short
    }
}

/// Makes the label of an episode.
pub fn episode_label(season: i32, episode: i32, name: &[u8]) -> (label: Vec<u8>)
    ensures
        label@ == episode_label_of(season as int, episode as int, name@),
{
    let mut label: Vec<u8> = Vec::new();
    label.extend_from_slice("S".as_bytes());
    push_number(&mut label, season);
    label.extend_from_slice(":E".as_bytes());
    push_number(&mut label, episode);
    if name.len() > 0 {
        label.extend_from_slice(" - ".as_bytes());
        label.extend_from_slice(name);
    }
    label
}

/// What the catalogue says of a film or a series, as far as the shell reads
/// it. A field is missing where the catalogue has no text for it.
pub struct MetaEntry<'a> {
    pub name: Option<&'a [u8]>,
    pub poster: Option<&'a [u8]>,
    pub background: Option<&'a [u8]>,
    pub logo: Option<&'a [u8]>,
}

/// What the catalogue says of one video of a series, as far as the shell
/// reads it.
pub struct VideoEntry<'a> {
    pub season: Option<i64>,
    pub episode: Option<i64>,
    pub name: Option<&'a [u8]>,
    pub title: Option<&'a [u8]>,
    pub thumbnail: Option<&'a [u8]>,
}

/// The metadata of what is playing, as the shell passes it on. Each text is
/// in UTF-8.
#[derive(Debug)]
pub struct MetadataUpdate {
    pub title: Option<Vec<u8>>,
    pub artist: Option<Vec<u8>>,
    pub poster: Option<Vec<u8>>,
    pub thumbnail: Option<Vec<u8>>,
    pub logo: Option<Vec<u8>>,
}

/// What an entry of the catalogue holds.
pub struct MetaView {
    pub name: Option<Seq<u8>>,
    pub poster: Option<Seq<u8>>,
    pub background: Option<Seq<u8>>,
    pub logo: Option<Seq<u8>>,
}

/// What a video of the catalogue holds.
pub struct VideoView {
    pub season: Option<i64>,
    pub episode: Option<i64>,
    pub name: Option<Seq<u8>>,
    pub title: Option<Seq<u8>>,
    pub thumbnail: Option<Seq<u8>>,
}

/// What an update holds.
pub struct UpdateView {
    pub title: Option<Seq<u8>>,
    pub artist: Option<Seq<u8>>,
    pub poster: Option<Seq<u8>>,
    pub thumbnail: Option<Seq<u8>>,
    pub logo: Option<Seq<u8>>,
}

/// The bytes of a text that may be missing.
pub open spec fn bytes_of(text: Option<&[u8]>) -> Option<Seq<u8>> {
    match text {
        Some(text) => Some(text@),
        None => None,
    }
}

/// The bytes of a text of an update.
pub open spec fn kept_of(text: Option<Vec<u8>>) -> Option<Seq<u8>> {
    match text {
        Some(text) => Some(text@),
        None => None,
    }
}

impl<'a> View for MetaEntry<'a> {
    type V = MetaView;

    open spec fn view(&self) -> MetaView {
        MetaView {
            name: bytes_of(self.name),
            poster: bytes_of(self.poster),
            background: bytes_of(self.background),
            logo: bytes_of(self.logo),
        }
    }
}

impl<'a> View for VideoEntry<'a> {
    type V = VideoView;

    open spec fn view(&self) -> VideoView {
        VideoView {
            season: self.season,
            episode: self.episode,
            name: bytes_of(self.name),
            title: bytes_of(self.title),
            thumbnail: bytes_of(self.thumbnail),
        }
    }
}

impl View for MetadataUpdate {
    type V = UpdateView;

    open spec fn view(&self) -> UpdateView {
        UpdateView {
            title: kept_of(self.title),
            artist: kept_of(self.artist),
            poster: kept_of(self.poster),
            thumbnail: kept_of(self.thumbnail),
            logo: kept_of(self.logo),
        }
    }
}

/// The first of two texts that is there.
pub open spec fn first_of(first: Option<Seq<u8>>, second: Option<Seq<u8>>) -> Option<Seq<u8>> {
    if first is Some {
        first
    } else {
        second
    }
}

/// A text, or `fallback` where it is missing.
pub open spec fn text_or(text: Option<Seq<u8>>, fallback: Seq<u8>) -> Seq<u8> {
    match text {
        Some(text) => text,
        None => fallback,
    }
}

/// Picks the first of two texts that is there.
pub fn pick<'a>(first: Option<&'a [u8]>, second: Option<&'a [u8]>) -> (picked: Option<&'a [u8]>)
    ensures
        bytes_of(picked) == first_of(bytes_of(first), bytes_of(second)),
{
    match first {
        Some(text) => Some(text),
        None => second,
    }
}

/// Picks the id under which the catalogue knows the first result of a
/// search: its `imdb_id`, or its `id` where it has no `imdb_id`.
pub fn pick_id<'a>(imdb_id: Option<&'a [u8]>, id: Option<&'a [u8]>) -> (picked: Option<&'a [u8]>)
    ensures
        bytes_of(picked) == first_of(bytes_of(imdb_id), bytes_of(id)),
{
    pick(imdb_id, id)
}

/// Keeps a text that may be missing.
fn keep(text: Option<&[u8]>) -> (kept: Option<Vec<u8>>)
    ensures
        kept_of(kept) == bytes_of(text),
{
    match text {
        Some(text) => Some(slice_to_vec(text)),
        None => None,
    }
}

/// The video is the episode `episode` of the season `season`.
pub open spec fn is_episode(video: VideoView, season: int, episode: int) -> bool {
    video.season == Some(season as i64) && video.episode == Some(episode as i64)
}

/// The place of the first of the first `n` videos that is the episode
/// `episode` of the season `season`; none where none of them is.
pub open spec fn episode_place(videos: Seq<VideoEntry>, season: int, episode: int, n: int) -> Option<
    int,
>
    decreases n,
{
    if n <= 0 {
        None
    } else {
        match episode_place(videos, season, episode, n - 1) {
            Some(place) => Some(place),
            None => if is_episode(videos[n - 1]@, season, episode) {
                Some(n - 1)
            } else {
                None
            },
        }
    }
}

/// Finds the first video that is the episode `episode` of the season
/// `season`.
pub fn find_episode(videos: &[VideoEntry], season: i32, episode: i32) -> (found: Option<usize>)
    ensures
        match found {
            Some(place) => episode_place(videos@, season as int, episode as int, videos@.len() as int)
                == Some(place as int) && place < videos@.len(),
            None => episode_place(videos@, season as int, episode as int, videos@.len() as int)
                is None,
        },
{
    let count = videos.len();
    let mut i: usize = 0;
    while i < count
        invariant
            i <= count,
            count == videos@.len(),
            episode_place(videos@, season as int, episode as int, i as int) is None,
        decreases count - i,
    {
        let matches = match (videos[i].season, videos[i].episode) {
            (Some(s), Some(e)) => s == season as i64 && e == episode as i64,
            _ => false,
        };
        if matches {
            proof {
                lemma_episode_place_stays(videos@, season as int, episode as int, i + 1, count as int);
            }
            return Some(i);
        }
        i += 1;
    }
    None
}

/// A place that was found among the first videos is the place found among
/// more of them.
proof fn lemma_episode_place_stays(
    videos: Seq<VideoEntry>,
    season: int,
    episode: int,
    n: int,
    more: int,
)
    requires
        0 <= n <= more,
        episode_place(videos, season, episode, n) is Some,
    ensures
        episode_place(videos, season, episode, more) == episode_place(videos, season, episode, n),
    decreases more - n,
{
    if n < more {
        lemma_episode_place_stays(videos, season, episode, n, more - 1);
    }
}

/// The name under which an episode is shown: its name, or its title where it
/// has no name, or nothing.
pub open spec fn episode_name_of(video: VideoView) -> Seq<u8> {
    text_or(first_of(video.name, video.title), Seq::empty())
}

/// What is passed on for an episode that was found by its title: the label
/// of the episode as title, the catalogue's name of the series, or the name
/// read from the title where the catalogue has none, as artist, and the
/// episode's thumbnail, or the background of the series where it has none.
pub open spec fn episode_update_of(
    meta: MetaView,
    series: Seq<u8>,
    video: VideoView,
    season: int,
    episode: int,
) -> UpdateView {
    UpdateView {
        title: Some(episode_label_of(season, episode, episode_name_of(video))),
        artist: Some(text_or(meta.name, series)),
        poster: meta.poster,
        thumbnail: first_of(video.thumbnail, meta.background),
        logo: meta.logo,
    }
}

/// What is passed on for a film that was found by its title: the catalogue's
/// name of the film, or the title itself where the catalogue has none, and
/// the shell's own name as artist.
pub open spec fn film_update_of(meta: MetaView, title: Seq<u8>) -> UpdateView {
    UpdateView {
        title: Some(text_or(meta.name, title)),
        artist: Some("Stremio".spec_bytes()),
        poster: meta.poster,
        thumbnail: meta.background,
        logo: meta.logo,
    }
}

/// What is passed on for a stream id. For an episode that the id names and
/// the catalogue knows it is what is passed on for an episode, with the
/// catalogue's name of the series as artist. For an id that names no episode
/// it is the catalogue's name as title and its background as thumbnail. For
/// an episode that the catalogue does not know, or that the id names
/// unreadably, it is the catalogue's name alone.
pub open spec fn stream_update_of(meta: MetaView, episode: Episode, video: Option<VideoView>) -> UpdateView {
    let name = text_or(meta.name, Seq::empty());
    match (episode, video) {
        (Episode::Named(season, number), Some(video)) => UpdateView {
            title: Some(episode_label_of(season as int, number as int, episode_name_of(video))),
            artist: Some(name),
            poster: meta.poster,
            thumbnail: first_of(video.thumbnail, meta.background),
            logo: meta.logo,
        },
        (Episode::Unnamed, _) => UpdateView {
            title: Some(name),
            artist: None,
            poster: meta.poster,
            thumbnail: meta.background,
            logo: meta.logo,
        },
        _ => UpdateView {
            title: Some(name),
            artist: None,
            poster: meta.poster,
            thumbnail: None,
            logo: meta.logo,
        },
    }
}

/// The name under which an episode is shown.
fn episode_name<'a>(video: &VideoEntry<'a>) -> (name: &'a [u8])
    ensures
        name@ == episode_name_of(video@),
{
    match pick(video.name, video.title) {
        Some(name) => name,
        None => {
            let nothing: &'static str = "";
            proof {
                reveal_strlit("");
                assert(nothing@.len() == 0);
                assert(nothing.spec_bytes() =~= Seq::<u8>::empty()) by {
                    is_ascii_spec_bytes(nothing);
                }
            }
            nothing.as_bytes()
        },
    }
}

/// Makes what is passed on for an episode that was found by its title.
pub fn episode_update(
    meta: &MetaEntry,
    series: &[u8],
    video: &VideoEntry,
    season: i32,
    episode: i32,
) -> (update: MetadataUpdate)
    ensures
        update@ == episode_update_of(meta@, series@, video@, season as int, episode as int),
{
    let artist = match meta.name {
        Some(name) => slice_to_vec(name),
        None => slice_to_vec(series),
    };
    MetadataUpdate {
        title: Some(episode_label(season, episode, episode_name(video))),
        artist: Some(artist),
        poster: keep(meta.poster),
        thumbnail: keep(pick(video.thumbnail, meta.background)),
        logo: keep(meta.logo),
    }
}

/// Makes what is passed on for the episode `episode` of the season `season`
/// of a series that was found by its title, from what the catalogue says of
/// the series and of its videos. Nothing is passed on where the catalogue
/// does not know the episode.
pub fn series_update(
    meta: &MetaEntry,
    series: &[u8],
    videos: &[VideoEntry],
    season: i32,
    episode: i32,
) -> (update: Option<MetadataUpdate>)
    ensures
        match episode_place(videos@, season as int, episode as int, videos@.len() as int) {
            Some(place) => update matches Some(made) && made@ == episode_update_of(
                meta@,
                series@,
                videos@[place]@,
                season as int,
                episode as int,
            ),
            None => update is None,
        },
{
    match find_episode(videos, season, episode) {
        Some(place) => Some(episode_update(meta, series, &videos[place], season, episode)),
        None => None,
    }
}

/// Makes what is passed on for a film that was found by its title.
pub fn film_update(meta: &MetaEntry, title: &[u8]) -> (update: MetadataUpdate)
    ensures
        update@ == film_update_of(meta@, title@),
{
    let shown = match meta.name {
        Some(name) => slice_to_vec(name),
        None => slice_to_vec(title),
    };
    MetadataUpdate {
        title: Some(shown),
        artist: Some(slice_to_vec("Stremio".as_bytes())),
        poster: keep(meta.poster),
        thumbnail: keep(meta.background),
        logo: keep(meta.logo),
    }
}

/// The video that a stream id asks for among `videos`: the episode that it
/// names, where the catalogue knows it.
pub open spec fn asked_video(videos: Seq<VideoEntry>, episode: Episode) -> Option<VideoView> {
    match episode {
        Episode::Named(season, number) => match episode_place(
            videos,
            season as int,
            number as int,
            videos.len() as int,
        ) {
            Some(place) => Some(videos[place]@),
            None => None,
        },
        _ => None,
    }
}

/// Makes what is passed on for a stream id, from what the catalogue says of
/// it and of its videos.
pub fn stream_update(meta: &MetaEntry, videos: &[VideoEntry], episode: Episode) -> (update:
    MetadataUpdate)
    ensures
        update@ == stream_update_of(meta@, episode, asked_video(videos@, episode)),
{
    let name = match meta.name {
        Some(name) => slice_to_vec(name),
        None => Vec::new(),
    };
    match episode {
        Episode::Named(season, number) => match find_episode(videos, season, number) {
            Some(place) => {
                let video = &videos[place];
                MetadataUpdate {
                    title: Some(episode_label(season, number, episode_name(video))),
                    artist: Some(name),
                    poster: keep(meta.poster),
                    thumbnail: keep(pick(video.thumbnail, meta.background)),
                    logo: keep(meta.logo),
                }
            },
            None => MetadataUpdate {
                title: Some(name),
                artist: None,
                poster: keep(meta.poster),
                thumbnail: None,
                logo: keep(meta.logo),
            },
        },
        Episode::Unnamed => MetadataUpdate {
            title: Some(name),
            artist: None,
            poster: keep(meta.poster),
            thumbnail: keep(meta.background),
            logo: keep(meta.logo),
        },
        Episode::Unreadable => MetadataUpdate {
            title: Some(name),
            artist: None,
            poster: keep(meta.poster),
            thumbnail: None,
            logo: keep(meta.logo),
        },
    }
}

} // verus!
