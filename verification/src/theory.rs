//! Notes on the staff: white keys, accidentals and octaves, the MIDI number
//! that a note sounds at, and random notes for a quiz round.

use crate::chance::{coin_flip, random_in};
use crate::text::{decimal, decimal_text, same_text};
use vstd::prelude::*;

verus! {

/// An accidental raises or lowers a white key by up to two semitones.
#[derive(Clone, Copy, Debug, PartialEq, Eq, Structural)]
pub enum Accidental {
    DoubleFlat,
    Flat,
    Natural,
    Sharp,
    DoubleSharp,
}

/// The text given was none of `bb`, `b`, `n`, `#`, `##`.
#[derive(Debug, PartialEq, Eq, Structural)]
pub struct ParseAccidentalError;

impl Accidental {
    /// Semitones that the accidental adds to its white key.
    pub open spec fn offset(self) -> int {
        match self {
            Accidental::DoubleFlat => -2,
            Accidental::Flat => -1,
            Accidental::Natural => 0,
            Accidental::Sharp => 1,
            Accidental::DoubleSharp => 2,
        }
    }

    /// The accidental as it is written after a note's letter.
    pub open spec fn symbol_text(self) -> Seq<char> {
        match self {
            Accidental::DoubleFlat => "bb"@,
            Accidental::Flat => "b"@,
            Accidental::Natural => "n"@,
            Accidental::Sharp => "#"@,
            Accidental::DoubleSharp => "##"@,
        }
    }

    /// The accidental that a text names, if any.
    pub open spec fn parsed(s: Seq<char>) -> Option<Accidental> {
        if s == "bb"@ {
            Some(Accidental::DoubleFlat)
        } else if s == "b"@ {
            Some(Accidental::Flat)
        } else if s == "n"@ {
            Some(Accidental::Natural)
        } else if s == "#"@ {
            Some(Accidental::Sharp)
        } else if s == "##"@ {
            Some(Accidental::DoubleSharp)
        } else {
            None
        }
    }

    /// The accidental chosen by a draw: 0 to 3 pick the first four in order,
    /// every other number the double sharp.
    pub open spec fn at_index(i: int) -> Accidental {
        if i == 0 {
            Accidental::DoubleFlat
        } else if i == 1 {
            Accidental::Flat
        } else if i == 2 {
            Accidental::Natural
        } else if i == 3 {
            Accidental::Sharp
        } else {
            Accidental::DoubleSharp
        }
    }

    pub fn semitone_offset(&self) -> (r: i32)
        ensures
            r == self.offset(),
    {
        match self {
            Accidental::DoubleFlat => -2,
            Accidental::Flat => -1,
            Accidental::Natural => 0,
            Accidental::Sharp => 1,
            Accidental::DoubleSharp => 2,
        }
    }

    /// The written form: `bb`, `b`, `n`, `#` or `##`.
    pub fn symbol(&self) -> (r: String)
        ensures
            r@ == self.symbol_text(),
    {
        match self {
            Accidental::DoubleFlat => "bb".to_owned(),
            Accidental::Flat => "b".to_owned(),
            Accidental::Natural => "n".to_owned(),
            Accidental::Sharp => "#".to_owned(),
            Accidental::DoubleSharp => "##".to_owned(),
        }
    }

    /// Reads the written form back. Any other text is an error.
    pub fn parse(s: &str) -> (r: Result<Accidental, ParseAccidentalError>)
        ensures
            match Accidental::parsed(s@) {
                Some(a) => r == Ok::<Accidental, ParseAccidentalError>(a),
                None => r is Err,
            },
    {
        if same_text(s, "bb") {
            Ok(Accidental::DoubleFlat)
        } else if same_text(s, "b") {
            Ok(Accidental::Flat)
        } else if same_text(s, "n") {
            Ok(Accidental::Natural)
        } else if same_text(s, "#") {
            Ok(Accidental::Sharp)
        } else if same_text(s, "##") {
            Ok(Accidental::DoubleSharp)
        } else {
            Err(ParseAccidentalError)
        }
    }

    /// Maps a draw to an accidental.
    pub fn from_index(i: i32) -> (r: Accidental)
        ensures
            r == Accidental::at_index(i as int),
    {
        if i == 0 {
            Accidental::DoubleFlat
        } else if i == 1 {
            Accidental::Flat
        } else if i == 2 {
            Accidental::Natural
        } else if i == 3 {
            Accidental::Sharp
        } else {
            Accidental::DoubleSharp
        }
    }

    /// A random accidental, each of the five equally likely.
    pub fn random() -> Accidental {
        Accidental::from_index(random_in(0, 4))
    }

    /// What a coin and a drawn accidental give: none on heads.
    pub fn pick(heads: bool, drawn: Accidental) -> (r: Option<Accidental>)
        ensures
            r == if heads {
                None
            } else {
                Some(drawn)
            },
    {
        if heads {
            None
        } else {
            Some(drawn)
        }
    }

    /// With even odds no accidental, else a random one.
    pub fn maybe_rand() -> Option<Accidental> {
        Accidental::pick(coin_flip(), Accidental::random())
    }
}

impl std::str::FromStr for Accidental {
    type Err = ParseAccidentalError;

    /// Reads the written form of an accidental, as `Accidental::parse`
    /// does.
    fn from_str(s: &str) -> (r: Result<Self, Self::Err>)
        ensures
            match Accidental::parsed(s@) {
                Some(a) => r == Ok::<Accidental, ParseAccidentalError>(a),
                None => r is Err,
            },
    {
        Accidental::parse(s)
    }
}

/// Writing an accidental and reading it back gives the same accidental.
pub proof fn lemma_accidental_round_trip(a: Accidental)
    ensures
        Accidental::parsed(a.symbol_text()) == Some(a),
{
    reveal_strlit("bb");
    reveal_strlit("b");
    reveal_strlit("n");
    reveal_strlit("#");
    reveal_strlit("##");
    assert("b"@.len() == 1 && "n"@.len() == 1 && "#"@.len() == 1);
    assert("bb"@[0] == 'b' && "##"@[0] == '#');
    assert("b"@[0] == 'b' && "n"@[0] == 'n' && "#"@[0] == '#');
}

/// One of the seven white keys of an octave.
#[derive(Clone, Copy, Debug, PartialEq, Eq, Structural)]
pub enum WhiteKey {
    C,
    D,
    E,
    F,
    G,
    A,
    B,
}

/// The text given was none of the letters `C` to `B`.
#[derive(Debug, PartialEq, Eq, Structural)]
pub struct ParseWhiteKeyError;

impl WhiteKey {
    /// Semitones between C and the key, in one octave.
    pub open spec fn semitones(self) -> int {
        match self {
            WhiteKey::C => 0,
            WhiteKey::D => 2,
            WhiteKey::E => 4,
            WhiteKey::F => 5,
            WhiteKey::G => 7,
            WhiteKey::A => 9,
            WhiteKey::B => 11,
        }
    }

    /// The key's letter.
    pub open spec fn letter_text(self) -> Seq<char> {
        match self {
            WhiteKey::C => "C"@,
            WhiteKey::D => "D"@,
            WhiteKey::E => "E"@,
            WhiteKey::F => "F"@,
            WhiteKey::G => "G"@,
            WhiteKey::A => "A"@,
            WhiteKey::B => "B"@,
        }
    }

    /// The key that a text names, if any.
    pub open spec fn parsed(s: Seq<char>) -> Option<WhiteKey> {
        if s == "C"@ {
            Some(WhiteKey::C)
        } else if s == "D"@ {
            Some(WhiteKey::D)
        } else if s == "E"@ {
            Some(WhiteKey::E)
        } else if s == "F"@ {
            Some(WhiteKey::F)
        } else if s == "G"@ {
            Some(WhiteKey::G)
        } else if s == "A"@ {
            Some(WhiteKey::A)
        } else if s == "B"@ {
            Some(WhiteKey::B)
        } else {
            None
        }
    }

    /// The key chosen by a draw: 0 to 5 pick C to A, every other number B.
    pub open spec fn at_index(i: int) -> WhiteKey {
        if i == 0 {
            WhiteKey::C
        } else if i == 1 {
            WhiteKey::D
        } else if i == 2 {
            WhiteKey::E
        } else if i == 3 {
            WhiteKey::F
        } else if i == 4 {
            WhiteKey::G
        } else if i == 5 {
            WhiteKey::A
        } else {
            WhiteKey::B
        }
    }

    pub fn semitones_from_c(&self) -> (r: i32)
        ensures
            r == self.semitones(),
    {
        match self {
            WhiteKey::C => 0,
            WhiteKey::D => 2,
            WhiteKey::E => 4,
            WhiteKey::F => 5,
            WhiteKey::G => 7,
            WhiteKey::A => 9,
            WhiteKey::B => 11,
        }
    }

    /// The key's letter, `C` to `B`.
    pub fn letter(&self) -> (r: String)
        ensures
            r@ == self.letter_text(),
    {
        match self {
            WhiteKey::C => "C".to_owned(),
            WhiteKey::D => "D".to_owned(),
            WhiteKey::E => "E".to_owned(),
            WhiteKey::F => "F".to_owned(),
            WhiteKey::G => "G".to_owned(),
            WhiteKey::A => "A".to_owned(),
            WhiteKey::B => "B".to_owned(),
        }
    }

    /// Reads a key's letter. Any other text is an error.
    pub fn parse(s: &str) -> (r: Result<WhiteKey, ParseWhiteKeyError>)
        ensures
            match WhiteKey::parsed(s@) {
                Some(k) => r == Ok::<WhiteKey, ParseWhiteKeyError>(k),
                None => r is Err,
            },
    {
        if same_text(s, "C") {
            Ok(WhiteKey::C)
        } else if same_text(s, "D") {
            Ok(WhiteKey::D)
        } else if same_text(s, "E") {
            Ok(WhiteKey::E)
        } else if same_text(s, "F") {
            Ok(WhiteKey::F)
        } else if same_text(s, "G") {
            Ok(WhiteKey::G)
        } else if same_text(s, "A") {
            Ok(WhiteKey::A)
        } else if same_text(s, "B") {
            Ok(WhiteKey::B)
        } else {
            Err(ParseWhiteKeyError)
        }
    }

    /// Maps a draw to a white key.
    pub fn from_index(i: i32) -> (r: WhiteKey)
        ensures
            r == WhiteKey::at_index(i as int),
    {
        if i == 0 {
            WhiteKey::C
        } else if i == 1 {
            WhiteKey::D
        } else if i == 2 {
            WhiteKey::E
        } else if i == 3 {
            WhiteKey::F
        } else if i == 4 {
            WhiteKey::G
        } else if i == 5 {
            WhiteKey::A
        } else {
            WhiteKey::B
        }
    }

    /// A random white key, each of the seven equally likely.
    pub fn random() -> WhiteKey {
        WhiteKey::from_index(random_in(0, 6))
    }
}

impl std::str::FromStr for WhiteKey {
    type Err = ParseWhiteKeyError;

    /// Reads a white key's letter, as `WhiteKey::parse` does.
    fn from_str(s: &str) -> (r: Result<Self, Self::Err>)
        ensures
            match WhiteKey::parsed(s@) {
                Some(k) => r == Ok::<WhiteKey, ParseWhiteKeyError>(k),
                None => r is Err,
            },
    {
        WhiteKey::parse(s)
    }
}

/// Writing a white key and reading it back gives the same key.
pub proof fn lemma_white_key_round_trip(k: WhiteKey)
    ensures
        WhiteKey::parsed(k.letter_text()) == Some(k),
{
    reveal_strlit("C");
    reveal_strlit("D");
    reveal_strlit("E");
    reveal_strlit("F");
    reveal_strlit("G");
    reveal_strlit("A");
    reveal_strlit("B");
    assert("C"@[0] == 'C' && "D"@[0] == 'D' && "E"@[0] == 'E' && "F"@[0] == 'F');
    assert("G"@[0] == 'G' && "A"@[0] == 'A' && "B"@[0] == 'B');
}

pub type Octave = i32;

/// Lowest and highest octave of a random note.
pub const LOW_OCTAVE: i32 = 3;

pub const HIGH_OCTAVE: i32 = 7;

/// Lowest and highest MIDI number that a random note can have.
pub const LOWEST_MIDI: i32 = 46;

pub const HIGHEST_MIDI: i32 = 109;

/// How often `Note::rand_in_range` draws before it spells a note itself.
pub const MAX_DRAWS: u32 = 65536;

/// A white key in an octave, with or without an accidental.
#[derive(Clone, Copy, Debug, PartialEq, Eq, Structural)]
pub struct Note {
    pub white_key: WhiteKey,
    pub octave: Octave,
    pub accidental: Option<Accidental>,
}

impl Note {
    /// Semitones above the C of the note's octave.
    pub open spec fn pitch(self) -> int {
        self.white_key.semitones() + match self.accidental {
            Some(a) => a.offset(),
            None => 0,
        }
    }

    /// The note's MIDI number: twelve per octave, with C in octave -1 at 0.
    pub open spec fn midi(self) -> int {
        self.pitch() + 12 * (self.octave + 1)
    }

    /// Whether the MIDI number fits the machine integer that carries it.
    pub open spec fn midi_fits(self) -> bool {
        i32::MIN <= self.midi() <= i32::MAX
    }

    /// Whether the octave is one that a random note can have.
    pub open spec fn in_drawn_octaves(self) -> bool {
        LOW_OCTAVE <= self.octave <= HIGH_OCTAVE
    }

    /// The note's written form: letter, accidental if any, a slash, and the
    /// octave in decimal.
    pub open spec fn label_text(self) -> Seq<char> {
        self.white_key.letter_text() + match self.accidental {
            Some(a) => a.symbol_text(),
            None => Seq::<char>::empty(),
        } + "/"@ + decimal_text(self.octave as int)
    }

    pub fn pitch_class(&self) -> (r: i32)
        ensures
            r == self.pitch(),
    {
        let acc_offset: i32 = match self.accidental {
            Some(a) => a.semitone_offset(),
            None => 0,
        };
        self.white_key.semitones_from_c() + acc_offset
    }

    fn midi_wide(&self) -> (r: i64)
        ensures
            r == self.midi(),
    {
        self.pitch_class() as i64 + 12 * (self.octave as i64 + 1)
    }

    pub fn midi_num(&self) -> (r: i32)
        requires
            self.midi_fits(),
        ensures
            r == self.midi(),
    {
        self.midi_wide() as i32
    }

    /// Whether two notes sound the same, however they are spelled.
    pub fn is_enharmonic(&self, other: Note) -> (r: bool)
        ensures
            r == (self.midi() == other.midi()),
    {
        self.midi_wide() == other.midi_wide()
    }

    /// The written form, such as `C##/4`.
    pub fn label(&self) -> (r: String)
        ensures
            r@ == self.label_text(),
    {
        let accidental = match self.accidental {
            Some(a) => a.symbol(),
            None => String::new(),
        };
        let mut r = self.white_key.letter();
        r.append(accidental.as_str());
        r.append("/");
        r.append(decimal(self.octave as i64).as_str());
        r
    }

    /// Whether the note sounds at a MIDI number from `low_midi` to
    /// `high_midi`.
    pub fn sounds_within(&self, low_midi: i32, high_midi: i32) -> (r: bool)
        ensures
            r == (low_midi <= self.midi() <= high_midi),
    {
        let midi = self.midi_wide();
        low_midi as i64 <= midi && midi <= high_midi as i64
    }

    /// Spells a MIDI number as a note of the octaves that random notes have:
    /// naturals and sharps, but flats on the lowest C and sharps on the
    /// highest B where the number lies beyond those octaves' naturals.
    pub fn spell(midi: i32) -> (r: Note)
        requires
            LOWEST_MIDI <= midi <= HIGHEST_MIDI,
        ensures
            r.midi() == midi,
            r.in_drawn_octaves(),
    {
        if midi < 48 {
            let accidental = if midi == 46 {
                Accidental::DoubleFlat
            } else {
                Accidental::Flat
            };
            Note { white_key: WhiteKey::C, octave: LOW_OCTAVE, accidental: Some(accidental) }
        } else if midi > 107 {
            let accidental = if midi == 108 {
                Accidental::Sharp
            } else {
                Accidental::DoubleSharp
            };
            Note { white_key: WhiteKey::B, octave: HIGH_OCTAVE, accidental: Some(accidental) }
        } else {
            let octave: i32 = midi / 12 - 1;
            let pitch: i32 = midi % 12;
            let (white_key, sharp) = if pitch == 0 {
                (WhiteKey::C, false)
            } else if pitch == 1 {
                (WhiteKey::C, true)
            } else if pitch == 2 {
                (WhiteKey::D, false)
            } else if pitch == 3 {
                (WhiteKey::D, true)
            } else if pitch == 4 {
                (WhiteKey::E, false)
            } else if pitch == 5 {
                (WhiteKey::F, false)
            } else if pitch == 6 {
                (WhiteKey::F, true)
            } else if pitch == 7 {
                (WhiteKey::G, false)
            } else if pitch == 8 {
                (WhiteKey::G, true)
            } else if pitch == 9 {
                (WhiteKey::A, false)
            } else if pitch == 10 {
                (WhiteKey::A, true)
            } else {
                (WhiteKey::B, false)
            };
            let accidental = if sharp {
                Some(Accidental::Sharp)
            } else {
                None
            };
            Note { white_key, octave, accidental }
        }
    }

    /// A random note: any white key, an accidental or none, octave 3 to 7.
    /// Such a note sounds from `LOWEST_MIDI` to `HIGHEST_MIDI`.
    pub fn random() -> (r: Note)
        ensures
            r.in_drawn_octaves(),
            LOWEST_MIDI <= r.midi() <= HIGHEST_MIDI,
    {
        Note {
            white_key: WhiteKey::random(),
            accidental: Accidental::maybe_rand(),
            octave: random_in(LOW_OCTAVE, HIGH_OCTAVE),
        }
    }

    /// A random note that sounds from `low_midi` to `high_midi`. Random
    /// notes are drawn until one lies in the range; should `MAX_DRAWS` draws
    /// all miss, the lowest number of the range that a random note can have
    /// is spelled out instead. The range must hold such a number.
    pub fn rand_in_range(low_midi: i32, high_midi: i32) -> (r: Note)
        requires
            low_midi <= high_midi,
            low_midi <= HIGHEST_MIDI,
            LOWEST_MIDI <= high_midi,
        ensures
            low_midi <= r.midi() <= high_midi,
            r.in_drawn_octaves(),
    {
        let mut draws: u32 = 0;
        while draws < MAX_DRAWS
            invariant
                draws <= MAX_DRAWS,
            decreases MAX_DRAWS - draws,
        {
            let note = Note::random();
            if note.sounds_within(low_midi, high_midi) {
                return note;
            }
            draws = draws + 1;
        }
        if low_midi < LOWEST_MIDI {
            Note::spell(LOWEST_MIDI)
        } else {
            Note::spell(low_midi)
        }
    }
}

/// A string and a fret on it.
#[derive(Debug)]
pub struct FretCoord {
    pub string: i32,
    pub fret: i32,
}

/// The open-string notes of an instrument, lowest string first.
pub type Tuning = Vec<Note>;

/// The part of a fretboard that a game shows.
#[derive(Debug)]
pub struct Fretboard {
    pub tuning: Tuning,
    pub start_fret: i32,
    pub end_fret: i32,
}

} // verus!
