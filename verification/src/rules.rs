//! The rules of chess, asked of the `shakmaty` crate. A position is held as
//! its FEN text and a move as the token an engine wrote; every answer of the
//! rules is named as a function of those texts.

use crate::domain::BLACK_WINS;
use crate::domain::Side;
use crate::domain::WHITE_WINS;
use crate::text::text_of;
use shakmaty::CastlingMode;
use shakmaty::Chess;
use shakmaty::Color;
use shakmaty::EnPassantMode;
use shakmaty::fen::Fen;
use shakmaty::Position;
use shakmaty::san::San;
use shakmaty::uci::UciMove;
use vstd::prelude::*;

verus! {

/// The score token of a drawn game.
pub const DRAWN: &'static str = "1/2-1/2";

/// How a finished game stands: won by one side, or drawn.
#[derive(Debug, Clone, Copy, PartialEq, Eq, Structural)]
pub enum Outcome {
    Decisive { winner: Side },
    Draw,
}

impl Outcome {
    /// The score token of this outcome.
    pub open spec fn token(self) -> Seq<char> {
        match self {
            Outcome::Decisive { winner: Side::White } => WHITE_WINS@,
            Outcome::Decisive { winner: Side::Black } => BLACK_WINS@,
            Outcome::Draw => DRAWN@,
        }
    }

    /// The score token of this outcome: `1-0`, `0-1` or `1/2-1/2`.
    pub fn as_str(self) -> (token: &'static str)
        ensures
            token@ == self.token(),
    {
        match self {
            Outcome::Decisive { winner: Side::White } => WHITE_WINS,
            Outcome::Decisive { winner: Side::Black } => BLACK_WINS,
            Outcome::Draw => DRAWN,
        }
    }
}

/// What the rules say of a position in which the game is over.
#[derive(Debug, Clone, Copy, PartialEq, Eq, Structural)]
pub struct Ending {
    pub outcome: Outcome,
    pub checkmate: bool,
    pub stalemate: bool,
}

/// The side to move in the position `fen`; `None` where `fen` is no position.
pub uninterp spec fn turn_at(fen: Seq<char>) -> Option<Side>;

/// The outcome of the game in the position `fen`; `None` where the game goes
/// on, or `fen` is no position.
pub uninterp spec fn outcome_at(fen: Seq<char>) -> Option<Outcome>;

/// Whether the side to move in the position `fen` is checkmated.
pub uninterp spec fn checkmate_at(fen: Seq<char>) -> bool;

/// Whether the side to move in the position `fen` is stalemated.
pub uninterp spec fn stalemate_at(fen: Seq<char>) -> bool;

/// The algebraic notation of the move `token` in the position `fen`; `None`
/// where `token` names no legal move there.
pub uninterp spec fn san_at(fen: Seq<char>, token: Seq<char>) -> Option<Seq<char>>;

/// The position that the move `token` leads to from the position `fen`;
/// `None` where the rules reject the move.
pub uninterp spec fn fen_after(fen: Seq<char>, token: Seq<char>) -> Option<Seq<char>>;

/// What the rules say of the end of the game in the position `fen`.
pub open spec fn ending_at(fen: Seq<char>) -> Option<Ending> {
    match outcome_at(fen) {
        Some(outcome) => Some(
            Ending { outcome, checkmate: checkmate_at(fen), stalemate: stalemate_at(fen) },
        ),
        None => None,
    }
}

/// Calls `Position::turn` of shakmaty on the position of standard chess that
/// `fen` encodes, as `Fen::from_ascii` and `Fen::into_position` read it; `None`
/// where they refuse the text. Claims that the answer is a function of the
/// text alone, and names it `turn_at`.
#[verifier::external_body]
pub(crate) fn side_to_move(fen: &str) -> (side: Option<Side>)
    ensures
        side == turn_at(fen@),
{
    let setup = Fen::from_ascii(fen.as_bytes()).ok()?;
    let pos: Chess = setup.into_position(CastlingMode::Standard).ok()?;
    Some(
        match pos.turn() {
            Color::White => Side::White,
            Color::Black => Side::Black,
        },
    )
}

/// Calls `Position::outcome` of shakmaty on the position that `fen` encodes;
/// `None` where the game goes on there, or `fen` is no position. Claims that
/// the answer is a function of the text alone, and names it `outcome_at`.
#[verifier::external_body]
pub(crate) fn outcome(fen: &str) -> (outcome: Option<Outcome>)
    ensures
        outcome == outcome_at(fen@),
{
    let setup = Fen::from_ascii(fen.as_bytes()).ok()?;
    let pos: Chess = setup.into_position(CastlingMode::Standard).ok()?;
    Some(
        match pos.outcome()? {
            shakmaty::Outcome::Decisive { winner: Color::White } => Outcome::Decisive {
                winner: Side::White,
            },
            shakmaty::Outcome::Decisive { winner: Color::Black } => Outcome::Decisive {
                winner: Side::Black,
            },
            shakmaty::Outcome::Draw => Outcome::Draw,
        },
    )
}

/// Calls `Position::is_checkmate` of shakmaty on the position that `fen`
/// encodes; `false` where `fen` is no position. Claims that the answer is a
/// function of the text alone, named `checkmate_at`, and that in a checkmate
/// the game is won by the side that is not to move: shakmaty's `outcome`
/// answers so whenever the side to move is in check and has no legal move.
#[verifier::external_body]
pub(crate) fn is_checkmate(fen: &str) -> (mate: bool)
    ensures
        mate == checkmate_at(fen@),
        mate ==> turn_at(fen@) is Some && outcome_at(fen@) == Some(
            Outcome::Decisive { winner: turn_at(fen@).unwrap().other() },
        ),
{
    match Fen::from_ascii(fen.as_bytes()) {
        Ok(setup) => match setup.into_position::<Chess>(CastlingMode::Standard) {
            Ok(pos) => pos.is_checkmate(),
            Err(_) => false,
        },
        Err(_) => false,
    }
}

/// Calls `Position::is_stalemate` of shakmaty on the position that `fen`
/// encodes; `false` where `fen` is no position. Claims that the answer is a
/// function of the text alone, and names it `stalemate_at`.
#[verifier::external_body]
pub(crate) fn is_stalemate(fen: &str) -> (stale: bool)
    ensures
        stale == stalemate_at(fen@),
{
    match Fen::from_ascii(fen.as_bytes()) {
        Ok(setup) => match setup.into_position::<Chess>(CastlingMode::Standard) {
            Ok(pos) => pos.is_stalemate(),
            Err(_) => false,
        },
        Err(_) => false,
    }
}

/// Calls `San::from_move` of shakmaty on the position that `fen` encodes and
/// the move that `token` resolves to there, by `UciMove::from_str` and
/// `UciMove::to_move`, and hands back the notation as text. `None` where `fen`
/// is no position, `token` is no UCI move, or the move is not legal there.
/// Claims that the answer is a function of the two texts alone, and names it
/// `san_at`.
#[verifier::external_body]
pub(crate) fn to_algebraic(fen: &str, token: &str) -> (san: Option<String>)
    ensures
        text_of(san) == san_at(fen@, token@),
{
    let setup = Fen::from_ascii(fen.as_bytes()).ok()?;
    let pos: Chess = setup.into_position(CastlingMode::Standard).ok()?;
    let mv = token.parse::<UciMove>().ok()?.to_move(&pos).ok()?;
    Some(San::from_move(&pos, &mv).to_string())
}

/// Calls `Position::play` of shakmaty on the position that `fen` encodes and
/// the move that `token` resolves to there, by `UciMove::from_str` and
/// `UciMove::to_move`, and hands back the new position as the text that
/// `Fen::from_position` gives, an en passant square standing only where the
/// capture is legal. `None` where the move does not resolve or is rejected.
/// Claims that the answer is a function of the two texts alone, and names it
/// `fen_after`.
#[verifier::external_body]
pub(crate) fn apply_move(fen: &str, token: &str) -> (next: Option<String>)
    ensures
        text_of(next) == fen_after(fen@, token@),
{
    let setup = Fen::from_ascii(fen.as_bytes()).ok()?;
    let pos: Chess = setup.into_position(CastlingMode::Standard).ok()?;
    let mv = token.parse::<UciMove>().ok()?.to_move(&pos).ok()?;
    let next = pos.play(&mv).ok()?;
    Some(Fen::from_position(next, EnPassantMode::Legal).to_string())
}

/// What the rules say of the end of the game in the position `fen`: the
/// outcome, and whether it is a checkmate or a stalemate; `None` while the game
/// goes on.
pub fn ending(fen: &str) -> (end: Option<Ending>)
    ensures
        end == ending_at(fen@),
        end matches Some(e) ==> (e.checkmate ==> turn_at(fen@) is Some && e.outcome == (
        Outcome::Decisive { winner: turn_at(fen@).unwrap().other() })),
{
    match outcome(fen) {
        Some(outcome) => {
            let checkmate = is_checkmate(fen);
            let stalemate = is_stalemate(fen);
            Some(Ending { outcome, checkmate, stalemate })
        },
        None => None,
    }
}

} // verus!
