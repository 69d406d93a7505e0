//! What the track list shows for a file: one text for each column, worked
//! out from the file's tags.

use vstd::prelude::*;
use vstd::string::StringExecFns;

verus! {

/// The column of the small cover picture.
pub const THUMBNAIL_COLUMN: u32 = 0;

pub const TITLE_COLUMN: u32 = 1;

pub const ARTIST_COLUMN: u32 = 2;

pub const ALBUM_COLUMN: u32 = 3;

pub const GENRE_COLUMN: u32 = 4;

pub const YEAR_COLUMN: u32 = 5;

pub const TRACK_COLUMN: u32 = 6;

pub const PATH_COLUMN: u32 = 7;

/// The column of the cover picture in full size; it is never shown.
pub const PIXBUF_COLUMN: u32 = 8;

/// Side of the cover picture, in pixels.
pub const IMAGE_SIZE: i32 = 256;

/// Side of the small cover picture, in pixels.
pub const THUMBNAIL_SIZE: i32 = 64;

/// `String::push` appends one character and leaves the rest of the string
/// as it was.
pub assume_specification[ String::push ](text: &mut String, ch: char)
    ensures
        final(text)@ == old(text)@.push(ch),
;

/// What a file's tag says of the track. Every field may be missing.
#[derive(Debug, PartialEq, Eq)]
pub struct TrackTags {
    pub title: Option<String>,
    pub artist: Option<String>,
    pub album: Option<String>,
    pub genre: Option<String>,
    pub year: Option<i32>,
    pub track: Option<u32>,
    pub total_tracks: Option<u32>,
}

/// One text of a row, and the column it goes to.
#[derive(Debug, PartialEq, Eq)]
pub struct Cell {
    pub column: u32,
    pub text: String,
}

impl View for Cell {
    type V = (u32, Seq<char>);

    open spec fn view(&self) -> (u32, Seq<char>) {
        (self.column, self.text@)
    }
}

/// The character for a digit below ten.
pub open spec fn digit(value: nat) -> char {
    if value == 0 {
        '0'
    } else if value == 1 {
        '1'
    } else if value == 2 {
        '2'
    } else if value == 3 {
        '3'
    } else if value == 4 {
        '4'
    } else if value == 5 {
        '5'
    } else if value == 6 {
        '6'
    } else if value == 7 {
        '7'
    } else if value == 8 {
        '8'
    } else {
        '9'
    }
}

/// A natural number in decimal, without leading zeros.
pub open spec fn decimal(value: nat) -> Seq<char>
    decreases value,
{
    if value < 10 {
        seq![digit(value)]
    } else {
        decimal(value / 10).push(digit(value % 10))
    }
}

/// An integer in decimal, with a minus sign in front where it is negative.
pub open spec fn signed_decimal(value: int) -> Seq<char> {
    if value < 0 {
        seq!['-'] + decimal((-value) as nat)
    } else {
        decimal(value as nat)
    }
}

/// The text of a tag field, or `fallback` where the field is missing.
pub open spec fn text_or(field: Option<String>, fallback: Seq<char>) -> Seq<char> {
    match field {
        Some(text) => text@,
        None => fallback,
    }
}

/// The text of the year column.
pub open spec fn year_text(year: Option<i32>) -> Seq<char> {
    match year {
        Some(year) => signed_decimal(year as int),
        None => "(noyear)"@,
    }
}

/// The text for a track number, or for the number of tracks.
pub open spec fn number_text(number: Option<u32>) -> Seq<char> {
    match number {
        Some(number) => decimal(number as nat),
        None => "??"@,
    }
}

/// The text of the track column: the track's number, a slash, the number of
/// tracks.
pub open spec fn track_text(track: Option<u32>, total_tracks: Option<u32>) -> Seq<char> {
    number_text(track) + " / "@ + number_text(total_tracks)
}

/// The row for a file, as pairs of column and text, in the order in which
/// the cells are set.
///
/// With a tag, every text column is filled: a missing title falls back to
/// the file's stem, and each other missing field to a placeholder. Without
/// a tag, the row shows the stem as its title and nothing else. The path
/// always comes last.
pub open spec fn row(file_stem: Seq<char>, tags: Option<TrackTags>, path: Seq<char>) -> Seq<
    (u32, Seq<char>),
> {
    match tags {
        Some(tags) => seq![
            (TITLE_COLUMN, text_or(tags.title, file_stem)),
            (ARTIST_COLUMN, text_or(tags.artist, "(no artist)"@)),
            (ALBUM_COLUMN, text_or(tags.album, "(no album)"@)),
            (GENRE_COLUMN, text_or(tags.genre, "(no genre)"@)),
            (YEAR_COLUMN, year_text(tags.year)),
            (TRACK_COLUMN, track_text(tags.track, tags.total_tracks)),
            (PATH_COLUMN, path),
        ],
        None => seq![(TITLE_COLUMN, file_stem), (PATH_COLUMN, path)],
    }
}

fn digit_char(value: u64) -> (ch: char)
    requires
        value < 10,
    ensures
        ch == digit(value as nat),
{
    if value == 0 {
        '0'
    } else if value == 1 {
        '1'
    } else if value == 2 {
        '2'
    } else if value == 3 {
        '3'
    } else if value == 4 {
        '4'
    } else if value == 5 {
        '5'
    } else if value == 6 {
        '6'
    } else if value == 7 {
        '7'
    } else if value == 8 {
        '8'
    } else {
        '9'
    }
}

fn push_decimal(text: &mut String, value: u64)
    ensures
        final(text)@ == old(text)@ + decimal(value as nat),
    decreases value,
{
    if value < 10 {
        text.push(digit_char(value));
        assert(old(text)@.push(digit(value as nat)) =~= old(text)@ + decimal(value as nat));
    } else {
        push_decimal(text, value / 10);
        text.push(digit_char(value % 10));
        assert((old(text)@ + decimal((value / 10) as nat)).push(digit((value % 10) as nat))
            =~= old(text)@ + decimal(value as nat));
    }
}

/// Writes `value` in decimal, as `to_string` does for an integer.
pub fn decimal_string(value: i64) -> (text: String)
    ensures
        text@ == signed_decimal(value as int),
{
    let mut text = String::new();
    if value < 0 {
        text.push('-');
        let magnitude: u64 = if value == i64::MIN {
            9223372036854775808u64
        } else {
            (-value) as u64
        };
        push_decimal(&mut text, magnitude);
        assert(text@ =~= seq!['-'] + decimal((-value) as nat));
    } else {
        push_decimal(&mut text, value as u64);
        assert(text@ =~= decimal(value as nat));
    }
    text
}

fn or_fallback(field: Option<String>, fallback: &str) -> (text: String)
    ensures
        text@ == text_or(field, fallback@),
{
    match field {
        Some(text) => text,
        None => String::from_str(fallback),
    }
}

fn number_string(number: Option<u32>) -> (text: String)
    ensures
        text@ == number_text(number),
{
    match number {
        Some(number) => decimal_string(number as i64),
        None => String::from_str("??"),
    }
}

/// Works out the cells of the row for a file.
///
/// `file_stem` is the file's name without its extension, `path` the whole
/// path as text, and `tags` what the file's tag holds, or `None` where the
/// file has no tag that can be read.
pub fn row_cells(file_stem: &str, tags: Option<TrackTags>, path: &str) -> (cells: Vec<Cell>)
    ensures
        cells@.map_values(|cell: Cell| cell@) == row(file_stem@, tags, path@),
{
    let mut cells: Vec<Cell> = Vec::new();
    match tags {
        Some(tags) => {
            let TrackTags { title, artist, album, genre, year, track, total_tracks } = tags;
            let year_string = match year {
                Some(year) => decimal_string(year as i64),
                None => String::from_str("(noyear)"),
            };
            let mut track_string = number_string(track);
            track_string.append(" / ");
            let total_string = number_string(total_tracks);
            track_string.append(total_string.as_str());
            cells.push(Cell { column: TITLE_COLUMN, text: or_fallback(title, file_stem) });
            cells.push(Cell { column: ARTIST_COLUMN, text: or_fallback(artist, "(no artist)") });
            cells.push(Cell { column: ALBUM_COLUMN, text: or_fallback(album, "(no album)") });
            cells.push(Cell { column: GENRE_COLUMN, text: or_fallback(genre, "(no genre)") });
            cells.push(Cell { column: YEAR_COLUMN, text: year_string });
            cells.push(Cell { column: TRACK_COLUMN, text: track_string });
            cells.push(Cell { column: PATH_COLUMN, text: String::from_str(path) });
            assert(cells@.map_values(|cell: Cell| cell@) =~= row(file_stem@, Some(tags), path@));
        },
        None => {
            cells.push(Cell { column: TITLE_COLUMN, text: String::from_str(file_stem) });
            cells.push(Cell { column: PATH_COLUMN, text: String::from_str(path) });
            assert(cells@.map_values(|cell: Cell| cell@) =~= row(file_stem@, None, path@));
        },
    }
    cells
}

} // verus!
