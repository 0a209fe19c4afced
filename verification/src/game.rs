//! Games: a host, players, options and the rounds played so far, each round
//! asking for one note.

use crate::text::same_text;
use crate::theory::{FretCoord, Note};
use crate::user::UserId;
use vstd::prelude::*;

verus! {

pub type GameId = i64;

/// Lowest and highest MIDI number of a note that a round asks for.
pub const ROUND_LOW_MIDI: i32 = 40;

pub const ROUND_HIGH_MIDI: i32 = 68;

/// Where a game stands.
#[derive(Clone, Copy, Debug, PartialEq, Eq, Structural)]
pub enum Status {
    Init,
    Playing,
    RoundOver,
    GameOver,
    NoPlayers,
}

impl Status {
    /// The status as it is stored and shown.
    pub open spec fn name_text(self) -> Seq<char> {
        match self {
            Status::Init => "Init"@,
            Status::Playing => "Playing"@,
            Status::RoundOver => "RoundOver"@,
            Status::GameOver => "GameOver"@,
            Status::NoPlayers => "NoPlayers"@,
        }
    }

    /// The status that a text names, if any.
    pub open spec fn parsed(s: Seq<char>) -> Option<Status> {
        if s == "Init"@ {
            Some(Status::Init)
        } else if s == "Playing"@ {
            Some(Status::Playing)
        } else if s == "RoundOver"@ {
            Some(Status::RoundOver)
        } else if s == "GameOver"@ {
            Some(Status::GameOver)
        } else if s == "NoPlayers"@ {
            Some(Status::NoPlayers)
        } else {
            None
        }
    }

    /// Reads a stored status.
    pub fn from(s: &str) -> (r: Option<Status>)
        ensures
            r == Status::parsed(s@),
    {
        if same_text(s, "Init") {
            Some(Status::Init)
        } else if same_text(s, "Playing") {
            Some(Status::Playing)
        } else if same_text(s, "RoundOver") {
            Some(Status::RoundOver)
        } else if same_text(s, "GameOver") {
            Some(Status::GameOver)
        } else if same_text(s, "NoPlayers") {
            Some(Status::NoPlayers)
        } else {
            None
        }
    }

    /// The status by name, as it is stored and shown.
    pub fn name(&self) -> (r: String)
        ensures
            r@ == self.name_text(),
    {
        match self {
            Status::Init => "Init".to_owned(),
            Status::Playing => "Playing".to_owned(),
            Status::RoundOver => "RoundOver".to_owned(),
            Status::GameOver => "GameOver".to_owned(),
            Status::NoPlayers => "NoPlayers".to_owned(),
        }
    }
}

/// A status read back from its name is the same status.
pub proof fn lemma_status_round_trip(status: Status)
    ensures
        Status::parsed(status.name_text()) == Some(status),
{
    reveal_strlit("Init");
    reveal_strlit("Playing");
    reveal_strlit("RoundOver");
    reveal_strlit("GameOver");
    reveal_strlit("NoPlayers");
    assert("Init"@.len() == 4 && "Playing"@.len() == 7);
    assert("RoundOver"@[0] == 'R' && "NoPlayers"@[0] == 'N');
}

/// What a game asks of its players.
#[derive(Clone, Copy, Debug, PartialEq, Eq, Structural)]
pub struct Opts {
    pub num_rounds: i32,
    pub start_fret: i32,
    pub end_fret: i32,
}

impl Opts {
    /// Four rounds on the first four frets.
    pub fn new() -> (r: Opts)
        ensures
            r == (Opts { num_rounds: 4, start_fret: 0, end_fret: 4 }),
    {
        Opts { num_rounds: 4, start_fret: 0, end_fret: 4 }
    }
}

impl Default for Opts {
    fn default() -> (r: Opts)
        ensures
            r == (Opts { num_rounds: 4, start_fret: 0, end_fret: 4 }),
    {
        Opts::new()
    }
}

/// A game's options as a row of their own, tied to the game by its id.
#[derive(Clone, Copy, Debug, PartialEq, Eq, Structural)]
pub struct Settings {
    pub id: Option<i64>,
    pub game_id: Option<GameId>,
    pub num_rounds: i32,
    pub start_fret: i32,
    pub end_fret: i32,
}

impl Settings {
    /// The default options, not stored yet and tied to no game.
    pub fn default() -> (r: Settings)
        ensures
            r == (Settings {
                id: None,
                game_id: None,
                num_rounds: 4,
                start_fret: 0,
                end_fret: 4,
            }),
    {
        Settings { id: None, game_id: None, num_rounds: 4, start_fret: 0, end_fret: 4 }
    }
}

/// A player's answer in a round.
#[derive(Debug)]
pub struct Guess {
    pub user_id: Option<UserId>,
    pub clicked_fret: FretCoord,
    pub is_correct: bool,
}

/// One round: the note asked for and the answers given.
#[derive(Debug)]
pub struct Round {
    pub note_to_guess: Note,
    pub guesses: Vec<Guess>,
}

impl Round {
    /// A round that asks for the given note and has no answers yet.
    pub fn with_note(note: Note) -> (r: Round)
        ensures
            r.note_to_guess == note,
            r.guesses@.len() == 0,
    {
        Round { note_to_guess: note, guesses: Vec::new() }
    }

    /// A round that asks for a random note from MIDI number 40 to 68.
    pub fn new() -> (r: Round)
        ensures
            ROUND_LOW_MIDI <= r.note_to_guess.midi() <= ROUND_HIGH_MIDI,
            r.note_to_guess.in_drawn_octaves(),
            r.guesses@.len() == 0,
    {
        Round::with_note(Note::rand_in_range(ROUND_LOW_MIDI, ROUND_HIGH_MIDI))
    }
}

#[derive(Debug)]
pub struct Game {
    pub id: Option<GameId>,
    pub host_id: Option<UserId>,
    pub status: Status,
    pub player_ids: Vec<UserId>,
    pub opts: Opts,
    pub rounds: Vec<Round>,
}

impl Game {
    /// Whether `after` is `before` with one round added, in play, and
    /// nothing else changed.
    pub open spec fn started_from(after: Game, before: Game) -> bool {
        &&& after.status == Status::Playing
        &&& after.rounds@.len() == before.rounds@.len() + 1
        &&& after.rounds@.drop_last() == before.rounds@
        &&& after.rounds@.last().guesses@.len() == 0
        &&& after.id == before.id
        &&& after.host_id == before.host_id
        &&& after.player_ids == before.player_ids
        &&& after.opts == before.opts
    }

    /// A game that its host has created and not started: the host is its
    /// only player, and it has no round and no id yet.
    pub fn new(host_id: UserId) -> (r: Game)
        ensures
            r.id is None,
            r.host_id == Some(host_id),
            r.status == Status::Init,
            r.opts == (Opts { num_rounds: 4, start_fret: 0, end_fret: 4 }),
            r.rounds@.len() == 0,
            r.player_ids@ == seq![host_id],
    {
        let mut player_ids = Vec::new();
        player_ids.push(host_id);
        Game {
            id: None,
            host_id: Some(host_id),
            status: Status::Init,
            opts: Opts::new(),
            rounds: Vec::new(),
            player_ids,
        }
    }

    /// The note that the latest round asks for.
    pub fn curr_note_to_guess(&self) -> (r: Option<Note>)
        ensures
            r == if self.rounds@.len() == 0 {
                None
            } else {
                Some(self.rounds@.last().note_to_guess)
            },
    {
        let n = self.rounds.len();
        if n == 0 {
            None
        } else {
            Some(self.rounds[n - 1].note_to_guess)
        }
    }

    /// Puts the game in play with a new round that asks for `note`.
    pub fn start_with(&mut self, note: Note)
        ensures
            Game::started_from(*final(self), *old(self)),
            final(self).rounds@.last().note_to_guess == note,
    {
        self.status = Status::Playing;
        self.rounds.push(Round::with_note(note));
        assert(self.rounds@.drop_last() =~= old(self).rounds@);
    }

    /// Puts the game in play with a new round that asks for a random note
    /// from MIDI number 40 to 68.
    pub fn start(&mut self)
        ensures
            Game::started_from(*final(self), *old(self)),
            ROUND_LOW_MIDI <= final(self).rounds@.last().note_to_guess.midi() <= ROUND_HIGH_MIDI,
    {
        let round = Round::new();
        self.start_with(round.note_to_guess);
    }

    /// Starts the game if `requester` is its host, and says whether it did.
    /// Anyone else leaves the game exactly as it was.
    pub fn start_by(&mut self, requester: UserId) -> (started: bool)
        ensures
            started == (old(self).host_id == Some(requester)),
            started ==> Game::started_from(*final(self), *old(self)),
            started ==> ROUND_LOW_MIDI <= final(self).rounds@.last().note_to_guess.midi()
                <= ROUND_HIGH_MIDI,
            !started ==> *final(self) == *old(self),
    {
        match self.host_id {
            Some(host_id) => {
                if host_id == requester {
                    self.start();
                    true
                } else {
                    false
                }
            },
            None => false,
        }
    }
}

} // verus!
