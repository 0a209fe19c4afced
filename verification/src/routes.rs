//! What the pages show and where requests are sent on: the decisions of
//! the HTTP handlers, on values that the handlers have read.

use crate::auth::{make_user_cookie, make_user_token, user_token, AuthError, Keys, UserCookie};
use crate::game::{Game, GameId, Opts, Status, ROUND_HIGH_MIDI, ROUND_LOW_MIDI};
use crate::text::{decimal, decimal_text};
use crate::user::{User, UserId, UserView};
use vstd::prelude::*;

verus! {

/// The status of a request that named nobody.
pub const UNAUTHORIZED: u16 = 401;

/// The status of a request for a game that is not there.
pub const NOT_FOUND: u16 = 404;

/// The status of a request that the store failed.
pub const INTERNAL_SERVER_ERROR: u16 = 500;

/// The front page, which shows nothing of its own.
#[derive(Debug)]
pub struct IndexTemplate;

pub fn index_page() -> IndexTemplate {
    IndexTemplate {  }
}

/// Where a request is sent on to.
#[derive(Debug)]
pub struct Redirect {
    pub to: String,
}

/// What a user's page shows.
#[derive(Debug)]
pub struct UserTemplate {
    pub id: UserId,
    pub name: String,
}

impl From<User> for UserTemplate {
    fn from(user: User) -> (r: UserTemplate) {
        UserTemplate { id: user.id, name: user.name }
    }
}

impl vstd::std_specs::convert::FromSpecImpl<User> for UserTemplate {
    open spec fn obeys_from_spec() -> bool {
        true
    }

    open spec fn from_spec(user: User) -> UserTemplate {
        UserTemplate { id: user.id, name: user.name }
    }
}

/// The page of the user that a request named; a request that named nobody
/// is sent to the front page.
pub fn user_page(identity: Option<User>) -> (r: Result<UserTemplate, Redirect>)
    ensures
        match identity {
            Some(user) => r matches Ok(page) && page.id == user.id && page.name@ == user.name@,
            None => r matches Err(redirect) && redirect.to@ == "/"@,
        },
{
    match identity {
        Some(user) => Ok(UserTemplate::from(user)),
        None => Err(Redirect { to: "/".to_owned() }),
    }
}

/// The form that renames a user.
#[derive(Debug)]
pub struct UsernamePayload {
    pub name: String,
}

/// The identity cookie of a user under the name that the form gave, to be
/// set once the new name is stored. A failure to sign gives
/// `TokenCreation`.
pub fn update_username(user: User, payload: UsernamePayload, keys: &Keys) -> (r: Result<
    UserCookie,
    AuthError,
>)
    ensures
        match r {
            Ok(cookie) => user_token(
                UserView { id: user.id, name: payload.name@ },
                keys.secret@,
            ) matches Some(token) && cookie.carries(token),
            Err(e) => e == AuthError::TokenCreation && user_token(
                UserView { id: user.id, name: payload.name@ },
                keys.secret@,
            ) is None,
        },
{
    let user = user.renamed(payload.name);
    match make_user_token(&user, keys) {
        Ok(token) => Ok(make_user_cookie(token)),
        Err(_) => Err(AuthError::TokenCreation),
    }
}

/// Where a renamed user is sent on to.
pub fn after_rename() -> (r: Redirect)
    ensures
        r.to@ == "/user"@,
{
    Redirect { to: "/user".to_owned() }
}

/// The ids of a list, each in decimal, written one after the other.
pub open spec fn ids_text(ids: Seq<UserId>) -> Seq<char>
    decreases ids.len(),
{
    if ids.len() == 0 {
        Seq::<char>::empty()
    } else {
        ids_text(ids.drop_last()) + decimal_text(ids.last() as int)
    }
}

/// Writes the ids of a list one after the other.
pub fn write_ids(ids: &Vec<UserId>) -> (r: String)
    ensures
        r@ == ids_text(ids@),
{
    let mut r = String::new();
    let mut i: usize = 0;
    while i < ids.len()
        invariant
            i <= ids@.len(),
            r@ == ids_text(ids@.take(i as int)),
        decreases ids@.len() - i,
    {
        r.append(decimal(ids[i]).as_str());
        assert(ids@.take(i + 1).drop_last() =~= ids@.take(i as int));
        i = i + 1;
    }
    assert(ids@.take(i as int) =~= ids@);
    r
}

/// What a game's page shows.
#[derive(Debug)]
pub struct GameTemplate {
    pub id: GameId,
    pub status: String,
    pub note: String,
    pub player_ids: String,
}

impl GameTemplate {
    /// Whether the page shows the game: its id, its status by name, the
    /// note that the latest round asks for (nothing before the first
    /// round), and its players' ids.
    pub open spec fn shows(&self, game: Game) -> bool {
        &&& game.id == Some(self.id)
        &&& self.status@ == game.status.name_text()
        &&& self.note@ == if game.rounds@.len() == 0 {
            Seq::<char>::empty()
        } else {
            game.rounds@.last().note_to_guess.label_text()
        }
        &&& self.player_ids@ == ids_text(game.player_ids@)
    }

    /// The page of a stored game.
    pub fn from_game(game: &Game) -> (r: GameTemplate)
        requires
            game.id is Some,
        ensures
            r.shows(*game),
    {
        let note = match game.curr_note_to_guess() {
            Some(note) => note.label(),
            None => String::new(),
        };
        GameTemplate {
            id: game.id.unwrap(),
            status: game.status.name(),
            note,
            player_ids: write_ids(&game.player_ids),
        }
    }
}

/// The page of the game that the store gave; none where it gave no game,
/// or one without an id.
pub fn game_page(fetched: Option<Game>) -> (r: Result<GameTemplate, u16>)
    ensures
        match r {
            Ok(page) => fetched matches Some(game) && page.shows(game),
            Err(status) => status == NOT_FOUND && !(fetched matches Some(game) && game.id
                is Some),
        },
{
    match fetched {
        Some(game) => {
            if game.id.is_some() {
                Ok(GameTemplate::from_game(&game))
            } else {
                Err(NOT_FOUND)
            }
        },
        None => Err(NOT_FOUND),
    }
}

/// The address of a game's page.
pub open spec fn game_url_text(id: GameId) -> Seq<char> {
    "/games/"@ + decimal_text(id as int)
}

pub fn game_url(id: GameId) -> (r: String)
    ensures
        r@ == game_url_text(id),
{
    "/games/".to_owned().concat(decimal(id).as_str())
}

/// The game that a request creates: a new one, hosted by the user that the
/// request named. A request that named nobody is unauthorized.
pub fn handle_game_create(identity: Option<User>) -> (r: Result<Game, u16>)
    ensures
        match identity {
            Some(user) => {
                &&& r matches Ok(game)
                &&& game.id is None
                &&& game.host_id == Some(user.id)
                &&& game.status == Status::Init
                &&& game.opts == (Opts { num_rounds: 4, start_fret: 0, end_fret: 4 })
                &&& game.rounds@.len() == 0
                &&& game.player_ids@ == seq![user.id]
            },
            None => r matches Err(status) && status == UNAUTHORIZED,
        },
{
    match identity {
        Some(user) => Ok(Game::new(user.id)),
        None => Err(UNAUTHORIZED),
    }
}

/// Where the creator of a game is sent on to: the page of the game under
/// the id that the store gave it. Without an id the store has failed.
pub fn after_game_create(stored: Option<GameId>) -> (r: Result<Redirect, u16>)
    ensures
        match stored {
            Some(id) => r matches Ok(redirect) && redirect.to@ == game_url_text(id),
            None => r matches Err(status) && status == INTERNAL_SERVER_ERROR,
        },
{
    match stored {
        Some(id) => Ok(Redirect { to: game_url(id) }),
        None => Err(INTERNAL_SERVER_ERROR),
    }
}

/// Whether a request may start a game: it must name a user, the store must
/// have given the game, and the user must be the game's host.
pub open spec fn starts(identity: Option<User>, fetched: Option<Game>) -> bool {
    identity matches Some(user) && fetched matches Some(game) && game.host_id == Some(user.id)
}

/// Starts the game that the store gave if the request named its host, and
/// returns it for storing. In every other case nothing is to be stored.
pub fn handle_game_start(identity: Option<User>, fetched: Option<Game>) -> (r: Option<Game>)
    ensures
        match r {
            Some(started) => {
                &&& starts(identity, fetched)
                &&& Game::started_from(started, fetched->0)
                &&& ROUND_LOW_MIDI <= started.rounds@.last().note_to_guess.midi()
                    <= ROUND_HIGH_MIDI
            },
            None => !starts(identity, fetched),
        },
{
    match (identity, fetched) {
        (Some(user), Some(game)) => {
            let mut game = game;
            if game.start_by(user.id) {
                Some(game)
            } else {
                None
            }
        },
        _ => None,
    }
}

} // verus!
