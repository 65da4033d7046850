//! The interpretation of an engine's transcript.
//!
//! The lines are read once, in order. Lines that begin with `info` update a
//! reading of the search, a line that begins with `bestmove` names the move
//! that the engine settled on, and every other line is passed over. A
//! transcript without a best move, or with a line that does not keep to the
//! protocol, yields an error and no result.

pub mod laws;

use vstd::prelude::*;
use vstd::string::StringExecFns;
use self::laws::lemma_interpretation_on_board;
use crate::backends::{BackendError, BackendFault, UciOutput};
use crate::chess::{
    legal_move_notation, opponent, other_color, parse_uci_move, uci_move, Color, Position,
    PositionView, UciMove,
};
use crate::number::{decimal, parse_i32, parse_signed, parse_u32, parse_unsigned, push_decimal};
use crate::text::{chars_of, split_words, string_of, views, words};

verus! {

/// How far one side is ahead.
#[derive(Clone, Copy, Debug, PartialEq, Eq, Structural)]
pub enum Advantage {
    /// Ahead by this many hundredths of a pawn.
    Centipawns(u32),
    /// Mate in this many moves.
    Mate(u32),
    /// Neither side is ahead.
    Equality,
}

/// What `LegalMove` stands for.
pub struct LegalMoveView {
    pub uci: UciMove,
    pub notation: Seq<char>,
}

/// A move that is legal in the analysed position: as the engine named it,
/// and as it is written out against the position.
#[derive(Debug, PartialEq, Eq)]
pub struct LegalMove {
    pub uci: UciMove,
    pub notation: String,
}

impl View for LegalMove {
    type V = LegalMoveView;

    open spec fn view(&self) -> LegalMoveView {
        LegalMoveView { uci: self.uci, notation: self.notation@ }
    }
}

/// What `AnalysisResult` stands for.
pub struct AnalysisView {
    pub advantage_side: Color,
    pub advantage: Advantage,
    pub depth: u32,
    pub pv: Seq<UciMove>,
    pub best_move: LegalMoveView,
}

impl AnalysisView {
    /// Whether the squares of all the moves lie on the board.
    pub open spec fn on_board(self) -> bool {
        &&& self.best_move.uci.on_board()
        &&& forall|i: int| 0 <= i < self.pv.len() ==> (#[trigger] self.pv[i]).on_board()
    }
}

/// The outcome of an analysis.
#[derive(Debug, PartialEq, Eq)]
pub struct AnalysisResult {
    /// The side that the advantage favours.
    pub advantage_side: Color,
    pub advantage: Advantage,
    /// The depth that the search reached.
    pub depth: u32,
    /// The principal variation.
    pub pv: Vec<UciMove>,
    pub best_move: LegalMove,
}

impl View for AnalysisResult {
    type V = AnalysisView;

    open spec fn view(&self) -> AnalysisView {
        AnalysisView {
            advantage_side: self.advantage_side,
            advantage: self.advantage,
            depth: self.depth,
            pv: self.pv@,
            best_move: self.best_move@,
        }
    }
}

/// The name of a side.
pub open spec fn side_name(side: Color) -> Seq<char> {
    match side {
        Color::White => "White"@,
        Color::Black => "Black"@,
    }
}

/// An advantage in words.
pub open spec fn advantage_text(side: Color, advantage: Advantage) -> Seq<char> {
    match advantage {
        Advantage::Equality => "The position is equal."@,
        Advantage::Mate(moves) => side_name(side) + " has a mate in "@ + decimal(moves as nat)
            + " moves"@,
        Advantage::Centipawns(cp) => side_name(side) + " has "@ + decimal(cp as nat)
            + " centipawns advantage"@,
    }
}

/// The outcome of an analysis in words: the depth, the advantage and the
/// best move, each on a line of its own and followed by a full stop.
pub open spec fn description(result: AnalysisView) -> Seq<char> {
    "Analysis depth: "@ + decimal(result.depth as nat) + ".\n"@ + advantage_text(
        result.advantage_side,
        result.advantage,
    ) + ".\nThe best move is "@ + result.best_move.notation + "."@
}

impl AnalysisResult {
    /// The advantage in words.
    pub fn describe_advantage(&self) -> (text: String)
        ensures
            text@ == advantage_text(self.advantage_side, self.advantage),
    {
        let side = match self.advantage_side {
            Color::White => "White",
            Color::Black => "Black",
        };
        match self.advantage {
            Advantage::Equality => "The position is equal.".to_owned(),
            Advantage::Mate(moves) => {
                let mut text = side.to_owned();
                text.append(" has a mate in ");
                push_decimal(&mut text, moves);
                text.append(" moves");
                text
            },
            Advantage::Centipawns(cp) => {
                let mut text = side.to_owned();
                text.append(" has ");
                push_decimal(&mut text, cp);
                text.append(" centipawns advantage");
                text
            },
        }
    }

    /// The outcome in words.
    pub fn describe(&self) -> (text: String)
        ensures
            text@ == description(self@),
    {
        let mut text = "Analysis depth: ".to_owned();
        push_decimal(&mut text, self.depth);
        text.append(".\n");
        text.append(self.describe_advantage().as_str());
        text.append(".\nThe best move is ");
        text.append(self.best_move.notation.as_str());
        text.append(".");
        text
    }
}

/// What `ParseError` stands for.
pub enum ParseFault {
    BadInteger(Seq<char>),
    MissingArgument(Seq<char>),
    UnknownScoreType(Seq<char>),
    BadMove(Seq<char>),
    IllegalMove(Seq<char>),
    MissingBestMove,
}

/// A transcript that does not keep to the protocol. Each error but the last
/// carries the word at fault.
#[derive(Debug, PartialEq, Eq)]
pub enum ParseError {
    /// The word should be a number and is none, or one out of range.
    BadInteger(String),
    /// The line ends where the keyword asks for an argument.
    MissingArgument(String),
    /// The word names no kind of score.
    UnknownScoreType(String),
    /// The word denotes no move.
    BadMove(String),
    /// The move is not legal in the analysed position.
    IllegalMove(String),
    /// The transcript names no best move.
    MissingBestMove,
}

impl View for ParseError {
    type V = ParseFault;

    open spec fn view(&self) -> ParseFault {
        match self {
            ParseError::BadInteger(word) => ParseFault::BadInteger(word@),
            ParseError::MissingArgument(word) => ParseFault::MissingArgument(word@),
            ParseError::UnknownScoreType(word) => ParseFault::UnknownScoreType(word@),
            ParseError::BadMove(word) => ParseFault::BadMove(word@),
            ParseError::IllegalMove(word) => ParseFault::IllegalMove(word@),
            ParseError::MissingBestMove => ParseFault::MissingBestMove,
        }
    }
}

/// What a score of `value`, of the kind that the word `kind` names, says
/// about the position when `turn` is to move: the advantage and the side it
/// favours. The engine scores from the point of view of the side to move, so
/// a negative score favours the other side. A score of 0 is equality,
/// whatever `kind` is.
pub open spec fn score(kind: Seq<char>, value: i32, turn: Color) -> Result<
    (Advantage, Color),
    ParseFault,
> {
    let side = if value < 0 {
        opponent(turn)
    } else {
        turn
    };
    let size = (if value < 0 {
        -value
    } else {
        value as int
    }) as u32;
    if value == 0 {
        Ok((Advantage::Equality, side))
    } else if kind == "cp"@ {
        Ok((Advantage::Centipawns(size), side))
    } else if kind == "mate"@ {
        Ok((Advantage::Mate(size), side))
    } else {
        Err(ParseFault::UnknownScoreType(kind))
    }
}

/// The moves that the words denote, or the first word that denotes none.
pub open spec fn moves(ws: Seq<Seq<char>>) -> Result<Seq<UciMove>, ParseFault>
    decreases ws.len(),
{
    if ws.len() == 0 {
        Ok(seq![])
    } else {
        match uci_move(ws[0]) {
            None => Err(ParseFault::BadMove(ws[0])),
            Some(m) => match moves(ws.drop_first()) {
                Ok(rest) => Ok(seq![m] + rest),
                Err(e) => Err(e),
            },
        }
    }
}

/// Whether `word` is the keyword `keyword`.
pub fn is_keyword(word: &Vec<char>, keyword: &str) -> (same: bool)
    ensures
        same == (word@ == keyword@),
{
    let key = chars_of(keyword);
    if word.len() != key.len() {
        return false;
    }
    let mut i: usize = 0;
    while i < word.len()
        invariant
            i <= word.len(),
            word.len() == key.len(),
            key@ == keyword@,
            word@.take(i as int) == key@.take(i as int),
        decreases word.len() - i,
    {
        if word[i] != key[i] {
            return false;
        }
        i += 1;
    }
    proof {
        assert(word@.take(i as int) == word@);
        assert(key@.take(i as int) == key@);
    }
    true
}

/// The word as a string.
pub fn word_string(word: &Vec<char>) -> (s: String)
    ensures
        s@ == word@,
{
    string_of(word, 0, word.len())
}

/// Works out what a score says about the position; see `score`.
pub fn score_advantage(kind: &Vec<char>, value: i32, turn: Color) -> (r: Result<
    (Advantage, Color),
    ParseError,
>)
    ensures
        match r {
            Ok(found) => score(kind@, value, turn) == Ok::<(Advantage, Color), ParseFault>(found),
            Err(e) => score(kind@, value, turn) == Err::<(Advantage, Color), ParseFault>(e@),
        },
        value == 0 ==> r == Ok::<(Advantage, Color), ParseError>((Advantage::Equality, turn)),
{
    let side = if value < 0 {
        other_color(turn)
    } else {
        turn
    };
    let size: u32 = if value < 0 {
        (-(value as i64)) as u32
    } else {
        value as u32
    };
    if value == 0 {
        Ok((Advantage::Equality, side))
    } else if is_keyword(kind, "cp") {
        Ok((Advantage::Centipawns(size), side))
    } else if is_keyword(kind, "mate") {
        Ok((Advantage::Mate(size), side))
    } else {
        Err(ParseError::UnknownScoreType(word_string(kind)))
    }
}

/// `found` put in front of the moves in `rest`, where there are any.
spec fn moves_after(found: Seq<UciMove>, rest: Result<Seq<UciMove>, ParseFault>) -> Result<
    Seq<UciMove>,
    ParseFault,
> {
    match rest {
        Ok(more) => Ok(found + more),
        Err(e) => Err(e),
    }
}

/// Reads the words from `from` on as moves.
pub fn parse_moves(ws: &Vec<Vec<char>>, from: usize) -> (r: Result<Vec<UciMove>, ParseError>)
    requires
        from <= ws.len(),
    ensures
        match r {
            Ok(found) => moves(views(ws@).skip(from as int)) == Ok::<Seq<UciMove>, ParseFault>(
                found@,
            ),
            Err(e) => moves(views(ws@).skip(from as int)) == Err::<Seq<UciMove>, ParseFault>(e@),
        },
{
    let ghost all = views(ws@);
    let mut found: Vec<UciMove> = Vec::new();
    let mut i: usize = from;
    proof {
        match moves(all.skip(from as int)) {
            Ok(more) => assert(found@ + more == more),
            Err(e) => (),
        }
    }
    while i < ws.len()
        invariant
            from <= i <= ws.len(),
            all == views(ws@),
            moves(all.skip(from as int)) == moves_after(found@, moves(all.skip(i as int))),
        decreases ws.len() - i,
    {
        proof {
            assert(all.skip(i as int).drop_first() == all.skip(i + 1));
        }
        match parse_uci_move(&ws[i]) {
            Some(m) => {
                proof {
                    match moves(all.skip(i + 1)) {
                        Ok(more) => assert(found@ + (seq![m] + more) == found@.push(m) + more),
                        Err(e) => (),
                    }
                }
                found.push(m);
            },
            None => {
                return Err(ParseError::BadMove(word_string(&ws[i])));
            },
        }
        i += 1;
    }
    Ok(found)
}

/// What has been read of a transcript so far.
pub struct Reading {
    pub depth: u32,
    pub advantage: Advantage,
    pub advantage_side: Color,
    pub pv: Seq<UciMove>,
    pub best_move: Option<LegalMoveView>,
}

impl Reading {
    /// Whether the squares of all the moves lie on the board.
    pub open spec fn on_board(self) -> bool {
        &&& self.best_move matches Some(m) ==> m.uci.on_board()
        &&& forall|i: int| 0 <= i < self.pv.len() ==> (#[trigger] self.pv[i]).on_board()
    }
}

/// The reading before any line is read: depth 0, a mate in 0 moves standing
/// for an advantage not yet known, the side to move as the side it favours,
/// no principal variation and no best move.
pub open spec fn start(turn: Color) -> Reading {
    Reading {
        depth: 0,
        advantage: Advantage::Mate(0),
        advantage_side: turn,
        pv: seq![],
        best_move: None,
    }
}

/// The reading after the fields `ws` of an `info` line.
///
/// A field is a keyword and its arguments. `depth` takes a number, which
/// becomes the depth. `score` takes a kind and a number, which become the
/// advantage and its side; see `score`. `pv` takes all the words that are
/// left, as moves, which become the principal variation. Any other keyword
/// takes one word, which is passed over. A field that the line ends in the
/// middle of is an error.
pub open spec fn info_fields(r: Reading, turn: Color, ws: Seq<Seq<char>>) -> Result<
    Reading,
    ParseFault,
>
    decreases ws.len(),
{
    if ws.len() == 0 {
        Ok(r)
    } else if ws[0] == "depth"@ {
        if ws.len() < 2 {
            Err(ParseFault::MissingArgument(ws[0]))
        } else {
            match parse_unsigned(ws[1]) {
                None => Err(ParseFault::BadInteger(ws[1])),
                Some(depth) => info_fields(Reading { depth, ..r }, turn, ws.skip(2)),
            }
        }
    } else if ws[0] == "score"@ {
        if ws.len() < 3 {
            Err(ParseFault::MissingArgument(ws[0]))
        } else {
            match parse_signed(ws[2]) {
                None => Err(ParseFault::BadInteger(ws[2])),
                Some(value) => match score(ws[1], value, turn) {
                    Err(e) => Err(e),
                    Ok(found) => info_fields(
                        Reading { advantage: found.0, advantage_side: found.1, ..r },
                        turn,
                        ws.skip(3),
                    ),
                },
            }
        }
    } else if ws[0] == "pv"@ {
        match moves(ws.skip(1)) {
            Err(e) => Err(e),
            Ok(pv) => Ok(Reading { pv, ..r }),
        }
    } else {
        if ws.len() < 2 {
            Err(ParseFault::MissingArgument(ws[0]))
        } else {
            info_fields(r, turn, ws.skip(2))
        }
    }
}

/// What a `bestmove` line yields when its move is the word `word` and
/// `resolved` is how that move is written out if it is legal in the
/// position: the move, or the reason why there is none.
pub open spec fn best_move(word: Seq<char>, resolved: Option<Seq<char>>) -> Result<
    LegalMoveView,
    ParseFault,
> {
    match uci_move(word) {
        None => Err(ParseFault::BadMove(word)),
        Some(uci) => match resolved {
            None => Err(ParseFault::IllegalMove(word)),
            Some(notation) => Ok(LegalMoveView { uci, notation }),
        },
    }
}

/// The reading after one more line.
///
/// The first word of the line decides. After `info` come fields; see
/// `info_fields`. After `bestmove` comes a move, which has to be legal in
/// the position; see `best_move`. A line with another first word, or with no
/// word at all, changes nothing.
pub open spec fn read_line(r: Reading, position: PositionView, line: Seq<char>) -> Result<
    Reading,
    ParseFault,
> {
    let ws = words(line);
    if ws.len() == 0 {
        Ok(r)
    } else if ws[0] == "info"@ {
        info_fields(r, position.turn, ws.skip(1))
    } else if ws[0] == "bestmove"@ {
        if ws.len() < 2 {
            Err(ParseFault::MissingArgument(ws[0]))
        } else {
            match best_move(ws[1], legal_move_notation(position.fen, ws[1])) {
                Err(e) => Err(e),
                Ok(found) => Ok(Reading { best_move: Some(found), ..r }),
            }
        }
    } else {
        Ok(r)
    }
}

/// The reading after the lines `lines`, read in order, or the error of the
/// first line that has one.
pub open spec fn read_lines(r: Reading, position: PositionView, lines: Seq<Seq<char>>) -> Result<
    Reading,
    ParseFault,
>
    decreases lines.len(),
{
    if lines.len() == 0 {
        Ok(r)
    } else {
        match read_line(r, position, lines[0]) {
            Err(e) => Err(e),
            Ok(next) => read_lines(next, position, lines.drop_first()),
        }
    }
}

/// The result that a reading amounts to once the transcript has ended: there
/// is one only if a best move was named.
pub open spec fn conclusion(r: Reading) -> Result<AnalysisView, ParseFault> {
    match r.best_move {
        None => Err(ParseFault::MissingBestMove),
        Some(best_move) => Ok(
            AnalysisView {
                advantage_side: r.advantage_side,
                advantage: r.advantage,
                depth: r.depth,
                pv: r.pv,
                best_move,
            },
        ),
    }
}

/// What the transcript `lines` of an analysis of `position` says.
pub open spec fn interpretation(position: PositionView, lines: Seq<Seq<char>>) -> Result<
    AnalysisView,
    ParseFault,
> {
    match read_lines(start(position.turn), position, lines) {
        Err(e) => Err(e),
        Ok(r) => conclusion(r),
    }
}

/// The characters of a string that may be absent.
pub open spec fn text_of(s: Option<String>) -> Option<Seq<char>> {
    match s {
        Some(s) => Some(s@),
        None => None,
    }
}

/// Decides what a `bestmove` line yields, given its word and the outcome of
/// resolving it against the position; see `best_move`.
pub fn accept_best_move(word: &Vec<char>, resolved: Option<String>) -> (r: Result<
    LegalMove,
    ParseError,
>)
    ensures
        match r {
            Ok(found) => best_move(word@, text_of(resolved)) == Ok::<LegalMoveView, ParseFault>(
                found@,
            ),
            Err(e) => best_move(word@, text_of(resolved)) == Err::<LegalMoveView, ParseFault>(e@),
        },
{
    match parse_uci_move(word) {
        None => Err(ParseError::BadMove(word_string(word))),
        Some(uci) => match resolved {
            None => Err(ParseError::IllegalMove(word_string(word))),
            Some(notation) => Ok(LegalMove { uci, notation }),
        },
    }
}

/// The interpreter of a transcript: what it has read so far.
pub struct Interpreter {
    pub depth: u32,
    pub advantage: Advantage,
    pub advantage_side: Color,
    pub pv: Vec<UciMove>,
    pub best_move: Option<LegalMove>,
}

impl View for Interpreter {
    type V = Reading;

    open spec fn view(&self) -> Reading {
        Reading {
            depth: self.depth,
            advantage: self.advantage,
            advantage_side: self.advantage_side,
            pv: self.pv@,
            best_move: match self.best_move {
                Some(m) => Some(m@),
                None => None,
            },
        }
    }
}

impl Interpreter {
    /// An interpreter that has read nothing, for a position in which `turn`
    /// is to move.
    pub fn new(turn: Color) -> (fresh: Interpreter)
        ensures
            fresh@ == start(turn),
    {
        Interpreter {
            depth: 0,
            advantage: Advantage::Mate(0),
            advantage_side: turn,
            pv: Vec::new(),
            best_move: None,
        }
    }

    /// Reads the fields of an `info` line, which are the words from `from`
    /// on; see `info_fields`.
    pub fn read_info(self, turn: Color, ws: &Vec<Vec<char>>, from: usize) -> (r: Result<
        Interpreter,
        ParseError,
    >)
        requires
            from <= ws.len(),
        ensures
            match r {
                Ok(next) => info_fields(self@, turn, views(ws@).skip(from as int)) == Ok::<
                    Reading,
                    ParseFault,
                >(next@),
                Err(e) => info_fields(self@, turn, views(ws@).skip(from as int)) == Err::<
                    Reading,
                    ParseFault,
                >(e@),
            },
    {
        let ghost all = views(ws@);
        let ghost goal = info_fields(self@, turn, all.skip(from as int));
        let mut state = self;
        let mut i: usize = from;
        while i < ws.len()
            invariant
                from <= i <= ws.len(),
                all == views(ws@),
                goal == info_fields(self@, turn, all.skip(from as int)),
                goal == info_fields(state@, turn, all.skip(i as int)),
            decreases ws.len() - i,
        {
            let ghost rest = all.skip(i as int);
            proof {
                assert(rest.skip(1) == all.skip(i + 1));
                if i + 1 < ws.len() {
                    assert(rest.skip(2) == all.skip(i + 2));
                }
                if i + 2 < ws.len() {
                    assert(rest.skip(3) == all.skip(i + 3));
                }
            }
            if is_keyword(&ws[i], "depth") {
                if ws.len() - i < 2 {
                    return Err(ParseError::MissingArgument(word_string(&ws[i])));
                }
                match parse_u32(&ws[i + 1]) {
                    None => {
                        return Err(ParseError::BadInteger(word_string(&ws[i + 1])));
                    },
                    Some(depth) => {
                        state.depth = depth;
                    },
                }
                i += 2;
            } else if is_keyword(&ws[i], "score") {
                if ws.len() - i < 3 {
                    return Err(ParseError::MissingArgument(word_string(&ws[i])));
                }
                match parse_i32(&ws[i + 2]) {
                    None => {
                        return Err(ParseError::BadInteger(word_string(&ws[i + 2])));
                    },
                    Some(value) => match score_advantage(&ws[i + 1], value, turn) {
                        Err(e) => {
                            return Err(e);
                        },
                        Ok(found) => {
                            state.advantage = found.0;
                            state.advantage_side = found.1;
                        },
                    },
                }
                i += 3;
            } else if is_keyword(&ws[i], "pv") {
                match parse_moves(ws, i + 1) {
                    Err(e) => {
                        return Err(e);
                    },
                    Ok(pv) => {
                        state.pv = pv;
                        return Ok(state);
                    },
                }
            } else {
                if ws.len() - i < 2 {
                    return Err(ParseError::MissingArgument(word_string(&ws[i])));
                }
                i += 2;
            }
        }
        Ok(state)
    }

    /// Reads one more line of the transcript; see `read_line`.
    pub fn feed(self, position: &Position, line: &str) -> (r: Result<Interpreter, ParseError>)
        ensures
            match r {
                Ok(next) => read_line(self@, position@, line@) == Ok::<Reading, ParseFault>(next@),
                Err(e) => read_line(self@, position@, line@) == Err::<Reading, ParseFault>(e@),
            },
    {
        let ws = split_words(line);
        if ws.len() == 0 {
            return Ok(self);
        }
        if is_keyword(&ws[0], "info") {
            self.read_info(position.turn(), &ws, 1)
        } else if is_keyword(&ws[0], "bestmove") {
            if ws.len() < 2 {
                return Err(ParseError::MissingArgument(word_string(&ws[0])));
            }
            let word = word_string(&ws[1]);
            let resolved = position.legal_move(word.as_str());
            match accept_best_move(&ws[1], resolved) {
                Err(e) => Err(e),
                Ok(found) => {
                    let mut state = self;
                    state.best_move = Some(found);
                    Ok(state)
                },
            }
        } else {
            Ok(self)
        }
    }

    /// Ends the transcript; see `conclusion`.
    pub fn finish(self) -> (r: Result<AnalysisResult, ParseError>)
        ensures
            match r {
                Ok(result) => conclusion(self@) == Ok::<AnalysisView, ParseFault>(result@),
                Err(e) => conclusion(self@) == Err::<AnalysisView, ParseFault>(e@),
            },
    {
        match self.best_move {
            None => Err(ParseError::MissingBestMove),
            Some(best_move) => Ok(
                AnalysisResult {
                    advantage_side: self.advantage_side,
                    advantage: self.advantage,
                    depth: self.depth,
                    pv: self.pv,
                    best_move,
                },
            ),
        }
    }
}

/// Interprets the transcript `uci` of an analysis of `startpos_fen`: the
/// result that it amounts to, or the error of the first line that does not
/// keep to the protocol; see `interpretation`.
pub fn interpret_uci(startpos_fen: Position, uci: UciOutput) -> (r: Result<
    AnalysisResult,
    ParseError,
>)
    ensures
        match r {
            Ok(result) => interpretation(startpos_fen@, views(uci@)) == Ok::<
                AnalysisView,
                ParseFault,
            >(result@),
            Err(e) => interpretation(startpos_fen@, views(uci@)) == Err::<AnalysisView, ParseFault>(
                e@,
            ),
        },
        r matches Ok(result) ==> result@.on_board(),
{
    proof {
        lemma_interpretation_on_board(startpos_fen@, views(uci@));
    }
    let ghost all = views(uci@);
    let ghost position = startpos_fen@;
    let ghost goal = read_lines(start(position.turn), position, all);
    let mut state = Interpreter::new(startpos_fen.turn());
    let mut i: usize = 0;
    proof {
        assert(all.skip(0) == all);
    }
    while i < uci.len()
        invariant
            i <= uci.len(),
            all == views(uci@),
            position == startpos_fen@,
            goal == read_lines(start(position.turn), position, all),
            goal == read_lines(state@, position, all.skip(i as int)),
        decreases uci.len() - i,
    {
        proof {
            assert(all.skip(i as int).drop_first() == all.skip(i + 1));
        }
        match state.feed(&startpos_fen, uci[i].as_str()) {
            Err(e) => {
                return Err(e);
            },
            Ok(next) => {
                state = next;
            },
        }
        i += 1;
    }
    state.finish()
}

/// What an analysis amounts to once the backend has run the commands:
/// the error of the backend if it has one, and else what the transcript
/// says, with an error of the transcript passed on as a violation of the
/// protocol.
pub open spec fn analysis_outcome(
    position: PositionView,
    executed: Result<Seq<Seq<char>>, BackendFault>,
) -> Result<AnalysisView, BackendFault> {
    match executed {
        Err(e) => Err(e),
        Ok(lines) => match interpretation(position, lines) {
            Ok(result) => Ok(result),
            Err(e) => Err(BackendFault::ProtocolViolation(e)),
        },
    }
}

/// The lines that a backend handed back, if it handed any back.
pub open spec fn executed_view(executed: Result<UciOutput, BackendError>) -> Result<
    Seq<Seq<char>>,
    BackendFault,
> {
    match executed {
        Ok(lines) => Ok(views(lines@)),
        Err(e) => Err(e@),
    }
}

/// Ends an analysis of `startpos_fen`, given what the backend handed back;
/// see `analysis_outcome`.
pub fn conclude_analysis(startpos_fen: Position, executed: Result<UciOutput, BackendError>) -> (r:
    Result<AnalysisResult, BackendError>)
    ensures
        match r {
            Ok(result) => analysis_outcome(startpos_fen@, executed_view(executed)) == Ok::<
                AnalysisView,
                BackendFault,
            >(result@),
            Err(e) => analysis_outcome(startpos_fen@, executed_view(executed)) == Err::<
                AnalysisView,
                BackendFault,
            >(e@),
        },
        r matches Ok(result) ==> result@.on_board(),
{
    match executed {
        Err(e) => Err(e),
        Ok(lines) => match interpret_uci(startpos_fen, lines) {
            Ok(result) => Ok(result),
            Err(e) => Err(BackendError::ProtocolViolation(e)),
        },
    }
}

} // verus!
