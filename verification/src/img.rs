//! The index of the frames that a scan left on disk: which kinds of frame
//! there are for which position of the turntable.

use vstd::prelude::*;
use std::collections::HashMap;
use crate::hex::{hex4, hex_digit};
use crate::ImageType;

verus! {

/// The frames of one position: the file of each kind, where there is one.
#[derive(Clone, Debug, PartialEq, Eq)]
pub struct ImgSetEntry {
    l: Option<String>,
    r: Option<String>,
    n: Option<String>,
    w: Option<String>,
}

/// What an [`ImgSetEntry`] holds, as text.
pub struct EntryView {
    /// The frame lit by the left laser.
    pub l: Option<Seq<char>>,
    /// The frame lit by the right laser.
    pub r: Option<Seq<char>>,
    /// The frame with no laser on.
    pub n: Option<Seq<char>>,
    /// The frame without the filter.
    pub w: Option<Seq<char>>,
}

impl EntryView {
    /// The entry that holds no file.
    pub open spec fn empty() -> EntryView {
        EntryView { l: None, r: None, n: None, w: None }
    }

    /// The file of the given kind.
    pub open spec fn get(self, kind: ImageType) -> Option<Seq<char>> {
        match kind {
            ImageType::Ambient => self.n,
            ImageType::Left => self.l,
            ImageType::Right => self.r,
            ImageType::Raw => self.w,
        }
    }

    /// The entry with `path` as the file of the given kind.
    /// The entry with `path` in the place of the given kind.
    pub open spec fn put(self, kind: ImageType, path: Option<Seq<char>>) -> EntryView {
        match kind {
            ImageType::Ambient => EntryView { n: path, ..self },
            ImageType::Left => EntryView { l: path, ..self },
            ImageType::Right => EntryView { r: path, ..self },
            ImageType::Raw => EntryView { w: path, ..self },
        }
    }

    /// The entry with `path` as the file of the given kind.
    pub open spec fn with(self, kind: ImageType, path: Seq<char>) -> EntryView {
        self.put(kind, Some(path))
    }

    /// Complete means having left, right, and background scans.
    pub open spec fn is_complete(self) -> bool {
        self.l is Some && self.r is Some && self.n is Some
    }
}

/// The text of a file name that may be missing.
pub open spec fn text_of(path: Option<String>) -> Option<Seq<char>> {
    match path {
        Some(p) => Some(p@),
        None => None,
    }
}

impl View for ImgSetEntry {
    type V = EntryView;

    closed spec fn view(&self) -> EntryView {
        EntryView {
            l: text_of(self.l),
            r: text_of(self.r),
            n: text_of(self.n),
            w: text_of(self.w),
        }
    }
}

impl ImgSetEntry {
    /// Complete means having left, right, and background scans; "raw" is
    /// not required for "completeness"
    pub fn is_complete(&self) -> (complete: bool)
        ensures
            complete == self@.is_complete(),
    {
        self.l.is_some() && self.r.is_some() && self.n.is_some()
    }

    /// The entry that holds no file.
    pub fn new() -> (entry: ImgSetEntry)
        ensures
            entry@ == EntryView::empty(),
    {
        ImgSetEntry { l: None, r: None, n: None, w: None }
    }

    /// The file of the given kind, if the entry has one.
    pub fn index(&self, idx: ImageType) -> (path: &Option<String>)
        ensures
            text_of(*path) == self@.get(idx),
    {
        match idx {
            ImageType::Ambient => &self.n,
            ImageType::Left => &self.l,
            ImageType::Right => &self.r,
            ImageType::Raw => &self.w,
        }
    }

    /// The place of the file of the given kind, to be filled or emptied.
    pub fn index_mut(&mut self, idx: ImageType) -> (slot: &mut Option<String>)
        ensures
            text_of(*slot) == old(self)@.get(idx),
            final(self)@ == old(self)@.put(idx, text_of(*final(slot))),
    {
        match idx {
            ImageType::Ambient => &mut self.n,
            ImageType::Left => &mut self.l,
            ImageType::Right => &mut self.r,
            ImageType::Raw => &mut self.w,
        }
    }
}

/// The pattern that the name of a frame file ends in: the position in four
/// lowercase hexadecimal digits, the letter of the kind, and the extension.
pub const SCAN_PATTERN: &'static str = "([a-f0-9]{4})([NLR])\\.yuv$";

/// Whether `regex::Regex::new` takes `pattern` for a regular expression.
pub uninterp spec fn regex_compiles(pattern: Seq<char>) -> bool;

/// What `regex::Regex::captures` finds in `text` for the regular expression
/// `pattern`: nothing where the expression matches nowhere, else the text of
/// each capture group of the first match, the whole match being group 0, with
/// nothing for a group that took no part in the match.
pub uninterp spec fn regex_captures(pattern: Seq<char>, text: Seq<char>) -> Option<
    Seq<Option<Seq<char>>>,
>;

/// `regex::Error`, the error of a pattern that does not compile. Nothing
/// is said of what it holds.
#[verifier::external_type_specification]
#[verifier::external_body]
pub struct ExRegexError(regex::Error);

/// Compiles `pattern` with `regex::Regex::new` and searches `text` with
/// `regex::Regex::captures`. The error is that of the compilation; the
/// groups of the match are handed out as owned text.
#[verifier::external_body]
fn captures(pattern: &str, text: &str) -> (found: Result<Option<Vec<Option<String>>>, regex::Error>)
    ensures
        found is Ok <==> regex_compiles(pattern@),
        found matches Ok(groups) ==> groups.deep_view() == regex_captures(pattern@, text@),
{
    let re = regex::Regex::new(pattern)?;
    Ok(re.captures(text).map(|c| c.iter().map(|m| m.map(|m| m.as_str().to_string())).collect()))
}

/// The value of one lowercase hexadecimal digit, if `c` is one.
pub open spec fn hex_char_value(c: char) -> Option<int> {
    if c as u32 >= 0x80 {
        None
    } else {
        crate::hex::hex_value(c as u8)
    }
}

/// The number that four lowercase hexadecimal digits denote.
pub open spec fn hex4_value(text: Seq<char>) -> Option<u16> {
    if text.len() != 4 {
        None
    } else {
        match (
            hex_char_value(text[0]),
            hex_char_value(text[1]),
            hex_char_value(text[2]),
            hex_char_value(text[3]),
        ) {
            (Some(a), Some(b), Some(c), Some(d)) => Some(
                (a * 0x1000 + b * 0x100 + c * 0x10 + d) as u16,
            ),
            _ => None,
        }
    }
}

/// The kind of frame that a letter names.
pub open spec fn kind_of_letter(text: Seq<char>) -> Option<ImageType> {
    if text == seq!['L'] {
        Some(ImageType::Left)
    } else if text == seq!['R'] {
        Some(ImageType::Right)
    } else if text == seq!['N'] {
        Some(ImageType::Ambient)
    } else if text == seq!['W'] {
        Some(ImageType::Raw)
    } else {
        None
    }
}

/// The position and the kind that the two parts of a frame file's name
/// denote: four hexadecimal digits and a letter.
pub open spec fn scan_entry(digits: Seq<char>, letter: Seq<char>) -> Option<(u16, ImageType)> {
    match (hex4_value(digits), kind_of_letter(letter)) {
        (Some(position), Some(kind)) => Some((position, kind)),
        _ => None,
    }
}

/// The position and the kind in what a search for the pattern found: the
/// first capture group holds the digits, the second the letter.
pub open spec fn scan_entry_of_captures(found: Option<Seq<Option<Seq<char>>>>) -> Option<
    (u16, ImageType),
> {
    match found {
        Some(groups) => if groups.len() == 3 {
            match (groups[1], groups[2]) {
                (Some(digits), Some(letter)) => scan_entry(digits, letter),
                _ => None,
            }
        } else {
            None
        },
        None => None,
    }
}

/// Reads one lowercase hexadecimal digit.
pub fn read_hex_char(c: char) -> (v: Option<u16>)
    ensures
        match hex_char_value(c) {
            Some(value) => v == Some(value as u16) && value < 16,
            None => v is None,
        },
{
    let code: u32 = c as u32;
    if 0x30 <= code && code <= 0x39 {
        Some((code - 0x30) as u16)
    } else if 0x61 <= code && code <= 0x66 {
        Some((code - 0x57) as u16)
    } else {
        None
    }
}

/// Reads the position and the kind from the two parts of a frame file's name.
pub fn read_scan_entry(digits: &str, letter: &str) -> (entry: Option<(u16, ImageType)>)
    ensures
        entry == scan_entry(digits@, letter@),
{
    if digits.unicode_len() != 4 || letter.unicode_len() != 1 {
        return None;
    }
    let position = match (
        read_hex_char(digits.get_char(0)),
        read_hex_char(digits.get_char(1)),
        read_hex_char(digits.get_char(2)),
        read_hex_char(digits.get_char(3)),
    ) {
        (Some(a), Some(b), Some(c), Some(d)) => a * 0x1000 + b * 0x100 + c * 0x10 + d,
        _ => {
            return None;
        },
    };
    let c = letter.get_char(0);
    assert(letter@ =~= seq![c]);
    let kind = if c == 'L' {
        ImageType::Left
    } else if c == 'R' {
        ImageType::Right
    } else if c == 'N' {
        ImageType::Ambient
    } else if c == 'W' {
        ImageType::Raw
    } else {
        return None;
    };
    Some((position, kind))
}

/// Reads the position and the kind from what a search for the pattern found.
pub fn read_captures(found: &Option<Vec<Option<String>>>) -> (entry: Option<(u16, ImageType)>)
    ensures
        entry == scan_entry_of_captures(found.deep_view()),
{
    match found {
        Some(groups) => {
            if groups.len() != 3 {
                return None;
            }
            assert(groups.deep_view()[1] == groups@[1].deep_view());
            assert(groups.deep_view()[2] == groups@[2].deep_view());
            match (&groups[1], &groups[2]) {
                (Some(digits), Some(letter)) => read_scan_entry(digits.as_str(), letter.as_str()),
                _ => None,
            }
        },
        None => None,
    }
}

/// Reads the position and the kind of a frame from the name of its file.
/// A name that the pattern does not match denotes no frame.
pub fn parse_scan_path(path: &str) -> (entry: Option<(u16, ImageType)>)
    ensures
        entry == (if regex_compiles(SCAN_PATTERN@) {
            scan_entry_of_captures(regex_captures(SCAN_PATTERN@, path@))
        } else {
            None
        }),
{
    match captures(SCAN_PATTERN, path) {
        Ok(found) => read_captures(&found),
        Err(_) => None,
    }
}

/// The letter that names a kind of frame in a file name.
pub open spec fn letter_of_kind(kind: ImageType) -> char {
    match kind {
        ImageType::Left => 'L',
        ImageType::Right => 'R',
        ImageType::Ambient => 'N',
        ImageType::Raw => 'W',
    }
}

/// A hexadecimal digit, written as a character, reads back as its value.
pub proof fn lemma_hex_char_reads_back(d: int)
    requires
        0 <= d < 16,
    ensures
        hex_char_value(hex_digit(d) as char) == Some(d),
{
    let byte = hex_digit(d);
    assert(byte < 0x80);
    assert((byte as char) as u32 == byte as u32);
    assert(((byte as char) as u8) == byte);
    crate::hex::lemma_hex_value_of_digit(d);
}

/// The four digits that a position is written with read back as the position.
pub proof fn lemma_hex4_reads_back(position: u16)
    ensures
        hex4_value(hex4(position)) == Some(position),
{
    let p = position as int;
    let a = p / 0x1000;
    let b = p / 0x100 % 16;
    let c = p / 0x10 % 16;
    let d = p % 16;
    assert(0 <= a < 16 && 0 <= b < 16 && 0 <= c < 16 && 0 <= d < 16);
    assert(a * 0x1000 + b * 0x100 + c * 0x10 + d == p);
    lemma_hex_char_reads_back(a);
    lemma_hex_char_reads_back(b);
    lemma_hex_char_reads_back(c);
    lemma_hex_char_reads_back(d);
    let text = hex4(position);
    assert(text.len() == 4);
    assert(text[0] == hex_digit(a) as char);
    assert(text[1] == hex_digit(b) as char);
    assert(text[2] == hex_digit(c) as char);
    assert(text[3] == hex_digit(d) as char);
}

/// The letter that a kind is written with reads back as the kind.
pub proof fn lemma_letter_reads_back(kind: ImageType)
    ensures
        kind_of_letter(seq![letter_of_kind(kind)]) == Some(kind),
{
    let text = seq![letter_of_kind(kind)];
    assert(text[0] == letter_of_kind(kind));
    assert(seq!['L'][0] == 'L');
    assert(seq!['R'][0] == 'R');
    assert(seq!['N'][0] == 'N');
    assert(seq!['W'][0] == 'W');
    match kind {
        ImageType::Left => {
            assert(text =~= seq!['L']);
        },
        ImageType::Right => {
            assert(text =~= seq!['R']);
        },
        ImageType::Ambient => {
            assert(text =~= seq!['N']);
        },
        ImageType::Raw => {
            assert(text =~= seq!['W']);
        },
    }
}

/// The digits and the letter that a frame file is named with read back as
/// the position and the kind of the frame.
pub proof fn lemma_scan_entry_reads_back(position: u16, kind: ImageType)
    ensures
        scan_entry(hex4(position), seq![letter_of_kind(kind)]) == Some((position, kind)),
{
    lemma_hex4_reads_back(position);
    lemma_letter_reads_back(kind);
}

/// The index with one more file recorded: the file becomes that of its
/// kind at its position, in place of any other, and a position that was
/// not there gets an entry.
pub open spec fn record(
    index: Map<u16, EntryView>,
    position: u16,
    kind: ImageType,
    path: Seq<char>,
) -> Map<u16, EntryView> {
    let entry = if index.contains_key(position) {
        index[position]
    } else {
        EntryView::empty()
    };
    index.insert(position, entry.with(kind, path))
}

/// A recorded file is the file of its kind at its position. Every other
/// kind at that position, and every other position, is as it was.
pub proof fn lemma_record(
    index: Map<u16, EntryView>,
    position: u16,
    kind: ImageType,
    path: Seq<char>,
)
    ensures
        record(index, position, kind, path).contains_key(position),
        record(index, position, kind, path)[position].get(kind) == Some(path),
        forall|other: ImageType|
            other != kind ==> #[trigger] record(index, position, kind, path)[position].get(other)
                == (if index.contains_key(position) {
                index[position].get(other)
            } else {
                None
            }),
        forall|elsewhere: u16|
            elsewhere != position ==> {
                &&& #[trigger] record(index, position, kind, path).contains_key(elsewhere)
                    == index.contains_key(elsewhere)
                &&& index.contains_key(elsewhere) ==> record(index, position, kind, path)[elsewhere]
                    == index[elsewhere]
            },
{
}

/// Of two files of one kind at one position the one recorded later stays.
pub proof fn lemma_later_record_stays(
    index: Map<u16, EntryView>,
    position: u16,
    kind: ImageType,
    earlier: Seq<char>,
    later: Seq<char>,
)
    ensures
        record(record(index, position, kind, earlier), position, kind, later) == record(
            index,
            position,
            kind,
            later,
        ),
{
    assert(record(record(index, position, kind, earlier), position, kind, later) =~= record(
        index,
        position,
        kind,
        later,
    ));
}

/// The index after one more file name was seen: recorded where the name
/// denotes a frame, and passed over where it does not.
pub open spec fn index_with(
    index: Map<u16, EntryView>,
    name: Seq<char>,
    entry: Option<(u16, ImageType)>,
) -> Map<u16, EntryView> {
    match entry {
        Some((position, kind)) => record(index, position, kind, name),
        None => index,
    }
}

/// What the pattern makes of a file name.
pub open spec fn parsed(name: Seq<char>) -> Option<(u16, ImageType)> {
    if regex_compiles(SCAN_PATTERN@) {
        scan_entry_of_captures(regex_captures(SCAN_PATTERN@, name))
    } else {
        None
    }
}

/// The index of a list of file names: each name recorded in its turn, so
/// that of two files of one kind at one position the later one stays.
pub open spec fn index_of(names: Seq<Seq<char>>) -> Map<u16, EntryView>
    decreases names.len(),
{
    if names.len() == 0 {
        Map::empty()
    } else {
        index_with(index_of(names.drop_last()), names.last(), parsed(names.last()))
    }
}

/// The frames of a scan, by position.
#[derive(Debug)]
pub struct ImgSet {
    pub map: HashMap<u16, ImgSetEntry>,
}

impl View for ImgSet {
    type V = Map<u16, EntryView>;

    open spec fn view(&self) -> Map<u16, EntryView> {
        self.map@.map_values(|entry: ImgSetEntry| entry@)
    }
}

impl ImgSet {
    /// The index that holds no frame.
    pub fn new() -> (set: ImgSet)
        ensures
            set@ == Map::<u16, EntryView>::empty(),
    {
        let set = ImgSet { map: HashMap::new() };
        assert(set@ =~= Map::<u16, EntryView>::empty());
        set
    }

    /// Records the file of a frame of the given kind at the given position.
    pub fn record(&mut self, position: u16, kind: ImageType, path: String)
        ensures
            final(self)@ == record(old(self)@, position, kind, path@),
    {
        broadcast use vstd::std_specs::hash::group_hash_axioms;

        let mut entry = match self.map.remove(&position) {
            Some(entry) => entry,
            None => ImgSetEntry::new(),
        };
        *entry.index_mut(kind) = Some(path);
        self.map.insert(position, entry);
        assert(final(self)@ =~= record(old(self)@, position, kind, path@));
    }

    /// Takes one file name into the index, if it is the name of a frame.
    /// Says whether it was.
    pub fn add(&mut self, name: String) -> (taken: bool)
        ensures
            final(self)@ == index_with(old(self)@, name@, parsed(name@)),
            taken == parsed(name@) is Some,
    {
        match parse_scan_path(name.as_str()) {
            Some((position, kind)) => {
                self.record(position, kind, name);
                true
            },
            None => false,
        }
    }

    /// The index of the files of a scan, from their names.
    pub fn new_from_names(names: Vec<String>) -> (set: ImgSet)
        ensures
            set@ == index_of(names.deep_view()),
    {
        let mut set = ImgSet::new();
        let mut i: usize = 0;
        while i < names.len()
            invariant
                i <= names.len(),
                set@ == index_of(names.deep_view().take(i as int)),
            decreases names.len() - i,
        {
            let name = names[i].clone();
            set.add(name);
            proof {
                let longer = names.deep_view().take(i + 1);
                assert(longer.drop_last() =~= names.deep_view().take(i as int));
                assert(longer.last() == names@[i as int]@);
            }
            i = i + 1;
        }
        assert(names.deep_view().take(names.len() as int) =~= names.deep_view());
        set
    }
}

} // verus!
