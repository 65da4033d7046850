//! What the analysis needs to know of chess: the two sides, moves in the
//! notation of the engine protocol, and the position that is analysed.
//!
//! The rules of the game are not written here. Whether a text describes a
//! legal position, and whether a move is legal in it, is asked of the
//! `shakmaty` crate.

use vstd::prelude::*;
use vstd::string::StrSliceExecFns;

verus! {

/// One of the two sides.
#[derive(Clone, Copy, Debug, PartialEq, Eq, Structural)]
pub enum Color {
    White,
    Black,
}

/// The side that `color` plays against.
pub open spec fn opponent(color: Color) -> Color {
    match color {
        Color::White => Color::Black,
        Color::Black => Color::White,
    }
}

/// The side that `color` plays against.
pub fn other_color(color: Color) -> (other: Color)
    ensures
        other == opponent(color),
{
    match color {
        Color::White => Color::Black,
        Color::Black => Color::White,
    }
}

/// A kind of piece.
#[derive(Clone, Copy, Debug, PartialEq, Eq, Structural)]
pub enum Role {
    Pawn,
    Knight,
    Bishop,
    Rook,
    Queen,
    King,
}

/// A square of the board. Files `a` to `h` and ranks `1` to `8` are both
/// counted from 0.
#[derive(Clone, Copy, Debug, PartialEq, Eq, Structural)]
pub struct Square {
    pub file: u8,
    pub rank: u8,
}

impl Square {
    /// Whether the square lies on the board.
    pub open spec fn on_board(self) -> bool {
        self.file < 8 && self.rank < 8
    }
}

/// A move as the engine protocol writes it.
#[derive(Clone, Copy, Debug, PartialEq, Eq, Structural)]
pub enum UciMove {
    /// A piece goes from one square to another, such as `e2e4` or `h7h8q`.
    Normal { from: Square, to: Square, promotion: Option<Role> },
    /// A piece is dropped on a square, such as `Q@f7`.
    Put { role: Role, to: Square },
    /// The null move, `0000`.
    Null,
}

impl UciMove {
    /// Whether the squares of the move lie on the board.
    pub open spec fn on_board(self) -> bool {
        match self {
            UciMove::Normal { from, to, .. } => from.on_board() && to.on_board(),
            UciMove::Put { to, .. } => to.on_board(),
            UciMove::Null => true,
        }
    }
}

/// The square named by a file letter and a rank digit.
pub open spec fn square_named(file: char, rank: char) -> Option<Square> {
    if 'a' <= file <= 'h' && '1' <= rank <= '8' {
        Some(Square { file: (file as u32 - 'a' as u32) as u8, rank: (rank as u32 - '1' as u32) as u8 })
    } else {
        None
    }
}

/// The kind of piece named by a letter, in either case.
pub open spec fn role_named(letter: char) -> Option<Role> {
    if letter == 'p' || letter == 'P' {
        Some(Role::Pawn)
    } else if letter == 'n' || letter == 'N' {
        Some(Role::Knight)
    } else if letter == 'b' || letter == 'B' {
        Some(Role::Bishop)
    } else if letter == 'r' || letter == 'R' {
        Some(Role::Rook)
    } else if letter == 'q' || letter == 'Q' {
        Some(Role::Queen)
    } else if letter == 'k' || letter == 'K' {
        Some(Role::King)
    } else {
        None
    }
}

/// The move that a word denotes in the notation of the engine protocol, if it
/// denotes one.
///
/// A word of four or five characters is read. `0000` is the null move. With
/// `@` in second place the word is a drop: a piece letter, `@`, a square; a
/// fifth character is not read, but it has to be an ASCII character.
/// Otherwise the word is two squares, and a fifth character names the piece
/// that a pawn is promoted to.
pub open spec fn uci_move(word: Seq<char>) -> Option<UciMove> {
    if word == seq!['0', '0', '0', '0'] {
        Some(UciMove::Null)
    } else if word.len() != 4 && word.len() != 5 {
        None
    } else {
        match square_named(word[2], word[3]) {
            None => None,
            Some(to) => if word[1] == '@' {
                match role_named(word[0]) {
                    Some(role) => if word.len() == 4 || (word[4] as u32) < 0x80 {
                        Some(UciMove::Put { role, to })
                    } else {
                        None
                    },
                    None => None,
                }
            } else {
                match square_named(word[0], word[1]) {
                    None => None,
                    Some(from) => if word.len() == 4 {
                        Some(UciMove::Normal { from, to, promotion: None })
                    } else {
                        match role_named(word[4]) {
                            Some(role) => Some(UciMove::Normal { from, to, promotion: Some(role) }),
                            None => None,
                        }
                    },
                }
            },
        }
    }
}

/// The squares of a move that a word denotes lie on the board.
pub proof fn lemma_uci_move_on_board(word: Seq<char>)
    ensures
        uci_move(word) matches Some(mv) ==> mv.on_board(),
{
}

/// Reads a file letter and a rank digit as a square.
pub fn parse_square(file: char, rank: char) -> (square: Option<Square>)
    ensures
        square == square_named(file, rank),
        square matches Some(s) ==> s.on_board(),
{
    if 'a' <= file && file <= 'h' && '1' <= rank && rank <= '8' {
        Some(Square { file: (file as u32 - 'a' as u32) as u8, rank: (rank as u32 - '1' as u32) as u8 })
    } else {
        None
    }
}

/// Reads a letter as a kind of piece.
pub fn parse_role(letter: char) -> (role: Option<Role>)
    ensures
        role == role_named(letter),
{
    if letter == 'p' || letter == 'P' {
        Some(Role::Pawn)
    } else if letter == 'n' || letter == 'N' {
        Some(Role::Knight)
    } else if letter == 'b' || letter == 'B' {
        Some(Role::Bishop)
    } else if letter == 'r' || letter == 'R' {
        Some(Role::Rook)
    } else if letter == 'q' || letter == 'Q' {
        Some(Role::Queen)
    } else if letter == 'k' || letter == 'K' {
        Some(Role::King)
    } else {
        None
    }
}

/// Reads a word as a move in the notation of the engine protocol.
pub fn parse_uci_move(word: &Vec<char>) -> (mv: Option<UciMove>)
    ensures
        mv == uci_move(word@),
        mv matches Some(m) ==> m.on_board(),
{
    if word.len() != 4 && word.len() != 5 {
        return None;
    }
    if word.len() == 4 && word[0] == '0' && word[1] == '0' && word[2] == '0' && word[3] == '0' {
        assert(word@ == seq!['0', '0', '0', '0']);
        return Some(UciMove::Null);
    }
    let to = match parse_square(word[2], word[3]) {
        Some(to) => to,
        None => {
            return None;
        },
    };
    if word[1] == '@' {
        match parse_role(word[0]) {
            Some(role) => if word.len() == 4 || (word[4] as u32) < 0x80 {
                Some(UciMove::Put { role, to })
            } else {
                None
            },
            None => None,
        }
    } else {
        let from = match parse_square(word[0], word[1]) {
            Some(from) => from,
            None => {
                return None;
            },
        };
        if word.len() == 4 {
            Some(UciMove::Normal { from, to, promotion: None })
        } else {
            match parse_role(word[4]) {
                Some(role) => Some(UciMove::Normal { from, to, promotion: Some(role) }),
                None => None,
            }
        }
    }
}

/// The name of a square: its file letter and its rank digit.
pub open spec fn square_name(square: Square) -> Seq<char> {
    seq![('a' as u8 + square.file) as u8 as char, ('1' as u8 + square.rank) as u8 as char]
}

/// The small letter of a kind of piece.
pub open spec fn role_letter(role: Role) -> char {
    match role {
        Role::Pawn => 'p',
        Role::Knight => 'n',
        Role::Bishop => 'b',
        Role::Rook => 'r',
        Role::Queen => 'q',
        Role::King => 'k',
    }
}

/// The capital letter of a kind of piece.
pub open spec fn role_capital(role: Role) -> char {
    match role {
        Role::Pawn => 'P',
        Role::Knight => 'N',
        Role::Bishop => 'B',
        Role::Rook => 'R',
        Role::Queen => 'Q',
        Role::King => 'K',
    }
}

/// A move in the notation of the engine protocol: two squares and, for a
/// promotion, the small letter of the new piece; for a drop, the capital
/// letter of the piece, `@` and the square; `0000` for the null move.
pub open spec fn uci_notation(mv: UciMove) -> Seq<char> {
    match mv {
        UciMove::Normal { from, to, promotion } => square_name(from) + square_name(to) + (
        match promotion {
            Some(role) => seq![role_letter(role)],
            None => seq![],
        }),
        UciMove::Put { role, to } => seq![role_capital(role), '@'] + square_name(to),
        UciMove::Null => seq!['0', '0', '0', '0'],
    }
}

/// A move on the board that is written out and read back is the same move.
pub proof fn lemma_notation_round_trip(mv: UciMove)
    requires
        mv.on_board(),
    ensures
        uci_move(uci_notation(mv)) == Some(mv),
{
}

fn push_square(out: &mut String, square: Square)
    requires
        square.on_board(),
    ensures
        final(out)@ == old(out)@ + square_name(square),
{
    out.push((0x61u8 + square.file) as char);
    out.push((0x31u8 + square.rank) as char);
}

impl UciMove {
    /// Writes the move out in the notation of the engine protocol.
    pub fn notation(&self) -> (text: String)
        requires
            self.on_board(),
        ensures
            text@ == uci_notation(*self),
    {
        let mut text = String::new();
        match *self {
            UciMove::Normal { from, to, promotion } => {
                push_square(&mut text, from);
                push_square(&mut text, to);
                match promotion {
                    Some(role) => {
                        text.push(
                            match role {
                                Role::Pawn => 'p',
                                Role::Knight => 'n',
                                Role::Bishop => 'b',
                                Role::Rook => 'r',
                                Role::Queen => 'q',
                                Role::King => 'k',
                            },
                        );
                    },
                    None => {},
                }
            },
            UciMove::Put { role, to } => {
                text.push(
                    match role {
                        Role::Pawn => 'P',
                        Role::Knight => 'N',
                        Role::Bishop => 'B',
                        Role::Rook => 'R',
                        Role::Queen => 'Q',
                        Role::King => 'K',
                    },
                );
                text.push('@');
                push_square(&mut text, to);
            },
            UciMove::Null => {
                text.push('0');
                text.push('0');
                text.push('0');
                text.push('0');
            },
        }
        text
    }
}

/// The longest text, in characters, that is read as a position.
pub const MAX_FEN_LEN: usize = 256;

/// The side to move in the position of standard chess that the text `fen`
/// describes in Forsyth-Edwards notation; `None` where the text is no such
/// notation or what it describes is no legal position.
pub uninterp spec fn position_turn(fen: Seq<char>) -> Option<Color>;

/// How the move that `word` denotes is written out in the position that `fen`
/// describes, if `fen` describes a legal position, `word` denotes a move and
/// the move is legal in that position; `None` otherwise.
pub uninterp spec fn legal_move_notation(fen: Seq<char>, word: Seq<char>) -> Option<Seq<char>>;

/// Sets up the position that `fen` describes, with `Fen::position` of
/// `shakmaty` on the parsed text, and gives the side to move. The contract
/// claims only that the outcome is a function of the text. Texts longer than
/// `MAX_FEN_LEN` are left out: the parser counts ranks in eight bits.
#[verifier::external_body]
fn setup_turn(fen: &str) -> (turn: Option<Color>)
    requires
        fen@.len() <= MAX_FEN_LEN,
    ensures
        turn == position_turn(fen@),
{
    let setup: shakmaty::fen::Fen = fen.parse().ok()?;
    let _position: shakmaty::Chess = setup.position().ok()?;
    Some(match setup.turn {
        shakmaty::Color::White => Color::White,
        shakmaty::Color::Black => Color::Black,
    })
}

/// Resolves the move that `word` denotes against the position that `fen`
/// describes, with `Uci::to_move` of `shakmaty`, and writes the legal move
/// out as `shakmaty` displays it. The contract claims only that the outcome
/// is a function of the two texts.
#[verifier::external_body]
fn resolve_move(fen: &str, word: &str) -> (notation: Option<String>)
    requires
        fen@.len() <= MAX_FEN_LEN,
    ensures
        match notation {
            Some(text) => legal_move_notation(fen@, word@) == Some(text@),
            None => legal_move_notation(fen@, word@) is None,
        },
{
    let position: shakmaty::Chess = fen.parse::<shakmaty::fen::Fen>().ok()?.position().ok()?;
    let legal = word.parse::<shakmaty::uci::Uci>().ok()?.to_move(&position).ok()?;
    Some(legal.to_string())
}

/// What `Position` stands for: the text of a legal position and its side to
/// move.
pub struct PositionView {
    pub fen: Seq<char>,
    pub turn: Color,
}

/// A legal position of standard chess, kept as the text that describes it,
/// with its side to move.
pub struct Position {
    fen: String,
    turn: Color,
}

impl View for Position {
    type V = PositionView;

    closed spec fn view(&self) -> PositionView {
        PositionView { fen: self.fen@, turn: self.turn }
    }
}

impl Position {
    #[verifier::type_invariant]
    spec fn valid(&self) -> bool {
        self.fen@.len() <= MAX_FEN_LEN && position_turn(self.fen@) == Some(self.turn)
    }

    /// Reads a position in Forsyth-Edwards notation. The text is refused
    /// where it is longer than `MAX_FEN_LEN` characters or describes no
    /// legal position.
    pub fn from_fen(fen: &str) -> (position: Option<Position>)
        ensures
            position is Some <==> fen@.len() <= MAX_FEN_LEN && position_turn(fen@) is Some,
            position matches Some(p) ==> p@.fen == fen@ && position_turn(fen@) == Some(p@.turn),
    {
        if fen.unicode_len() > MAX_FEN_LEN {
            return None;
        }
        match setup_turn(fen) {
            Some(turn) => Some(Position { fen: fen.to_owned(), turn }),
            None => None,
        }
    }

    /// The text that describes the position: it is of bounded length and
    /// describes a legal position.
    pub fn fen(&self) -> (fen: &str)
        ensures
            fen@ == self@.fen,
            fen@.len() <= MAX_FEN_LEN,
            position_turn(fen@) is Some,
    {
        proof {
            use_type_invariant(self);
        }
        self.fen.as_str()
    }

    /// The side to move, as the text of the position gives it.
    pub fn turn(&self) -> (turn: Color)
        ensures
            turn == self@.turn,
            position_turn(self@.fen) == Some(turn),
    {
        proof {
            use_type_invariant(self);
        }
        self.turn
    }

    /// Resolves the move that `word` denotes against the position: how the
    /// move is written out if it is legal, `None` if `word` denotes no move
    /// or the move is not legal.
    pub fn legal_move(&self, word: &str) -> (notation: Option<String>)
        ensures
            match notation {
                Some(text) => legal_move_notation(self@.fen, word@) == Some(text@),
                None => legal_move_notation(self@.fen, word@) is None,
            },
    {
        proof {
            use_type_invariant(self);
        }
        resolve_move(self.fen.as_str(), word)
    }
}

} // verus!
