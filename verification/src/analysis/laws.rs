//! What holds of every transcript and of every reading of one.

use vstd::prelude::*;
use super::{
    info_fields, interpretation, moves, read_line, read_lines, score, start, Advantage,
    AnalysisView, ParseFault, Reading,
};
use crate::chess::{lemma_uci_move_on_board, opponent, Color, PositionView};
use crate::number::{parse_signed, parse_unsigned};
use crate::text::words;

verus! {

/// The squares of moves that words denote lie on the board.
pub proof fn lemma_moves_on_board(ws: Seq<Seq<char>>)
    ensures
        moves(ws) matches Ok(found) ==> forall|i: int|
            0 <= i < found.len() ==> (#[trigger] found[i]).on_board(),
    decreases ws.len(),
{
    if ws.len() > 0 {
        lemma_uci_move_on_board(ws[0]);
        lemma_moves_on_board(ws.drop_first());
    }
}

/// The fields of an `info` line keep the moves of a reading on the board.
pub proof fn lemma_info_fields_on_board(r: Reading, turn: Color, ws: Seq<Seq<char>>)
    requires
        r.on_board(),
    ensures
        info_fields(r, turn, ws) matches Ok(next) ==> next.on_board(),
    decreases ws.len(),
{
    if ws.len() == 0 {
    } else if ws[0] == "depth"@ {
        if ws.len() >= 2 {
            match parse_unsigned(ws[1]) {
                None => {},
                Some(depth) => {
                    lemma_info_fields_on_board(Reading { depth, ..r }, turn, ws.skip(2));
                },
            }
        }
    } else if ws[0] == "score"@ {
        if ws.len() >= 3 {
            match parse_signed(ws[2]) {
                None => {},
                Some(value) => match score(ws[1], value, turn) {
                    Err(e) => {},
                    Ok(found) => {
                        lemma_info_fields_on_board(
                            Reading { advantage: found.0, advantage_side: found.1, ..r },
                            turn,
                            ws.skip(3),
                        );
                    },
                },
            }
        }
    } else if ws[0] == "pv"@ {
        lemma_moves_on_board(ws.skip(1));
    } else {
        if ws.len() >= 2 {
            lemma_info_fields_on_board(r, turn, ws.skip(2));
        }
    }
}

/// Lines keep the moves of a reading on the board.
pub proof fn lemma_read_lines_on_board(r: Reading, position: PositionView, lines: Seq<Seq<char>>)
    requires
        r.on_board(),
    ensures
        read_lines(r, position, lines) matches Ok(next) ==> next.on_board(),
    decreases lines.len(),
{
    if lines.len() > 0 {
        let ws = words(lines[0]);
        lemma_info_fields_on_board(r, position.turn, ws.skip(1));
        if ws.len() >= 2 {
            lemma_uci_move_on_board(ws[1]);
        }
        match read_line(r, position, lines[0]) {
            Err(e) => {},
            Ok(next) => {
                lemma_read_lines_on_board(next, position, lines.drop_first());
            },
        }
    }
}

/// The squares of all the moves of a result lie on the board.
pub proof fn lemma_interpretation_on_board(position: PositionView, lines: Seq<Seq<char>>)
    ensures
        interpretation(position, lines) matches Ok(result) ==> result.on_board(),
{
    lemma_read_lines_on_board(start(position.turn), position, lines);
}

/// A score of 0 is equality, whatever its kind, and favours the side to
/// move.
pub proof fn lemma_zero_score_is_equality(kind: Seq<char>, turn: Color)
    ensures
        score(kind, 0, turn) == Ok::<(Advantage, Color), ParseFault>((Advantage::Equality, turn)),
{
}

/// A score that is not 0 favours the side to move if it is above 0 and the
/// other side if it is below 0, and the advantage is as large as the score
/// without its sign: in centipawns for `cp`, in moves to mate for `mate`.
pub proof fn lemma_score_sign(kind: Seq<char>, value: i32, turn: Color)
    requires
        value != 0,
    ensures
        ({
            let side = if value < 0 {
                opponent(turn)
            } else {
                turn
            };
            let size = vstd::math::abs(value as int) as u32;
            &&& size == vstd::math::abs(value as int)
            &&& kind == "cp"@ ==> score(kind, value, turn) == Ok::<(Advantage, Color), ParseFault>(
                (Advantage::Centipawns(size), side),
            )
            &&& kind == "mate"@ ==> score(kind, value, turn) == Ok::<
                (Advantage, Color),
                ParseFault,
            >((Advantage::Mate(size), side))
            &&& kind != "cp"@ && kind != "mate"@ ==> score(kind, value, turn) == Err::<
                (Advantage, Color),
                ParseFault,
            >(ParseFault::UnknownScoreType(kind))
        }),
{
    reveal_strlit("cp");
    reveal_strlit("mate");
    assert("cp"@.len() != "mate"@.len());
}

/// A line that begins with neither `info` nor `bestmove` changes nothing.
pub proof fn lemma_other_lines_change_nothing(r: Reading, position: PositionView, line: Seq<char>)
    requires
        words(line).len() == 0 || (words(line)[0] != "info"@ && words(line)[0] != "bestmove"@),
    ensures
        read_line(r, position, line) == Ok::<Reading, ParseFault>(r),
{
}

/// Whether the first word of the line is `bestmove`.
pub open spec fn names_best_move(line: Seq<char>) -> bool {
    words(line).len() > 0 && words(line)[0] == "bestmove"@
}

/// The fields of an `info` line leave the best move as it was.
pub proof fn lemma_info_keeps_best_move(r: Reading, turn: Color, ws: Seq<Seq<char>>)
    ensures
        info_fields(r, turn, ws) matches Ok(next) ==> next.best_move == r.best_move,
    decreases ws.len(),
{
    if ws.len() == 0 {
    } else if ws[0] == "depth"@ {
        if ws.len() >= 2 {
            match parse_unsigned(ws[1]) {
                None => {},
                Some(depth) => {
                    lemma_info_keeps_best_move(Reading { depth, ..r }, turn, ws.skip(2));
                },
            }
        }
    } else if ws[0] == "score"@ {
        if ws.len() >= 3 {
            match parse_signed(ws[2]) {
                None => {},
                Some(value) => match score(ws[1], value, turn) {
                    Err(e) => {},
                    Ok(found) => {
                        lemma_info_keeps_best_move(
                            Reading { advantage: found.0, advantage_side: found.1, ..r },
                            turn,
                            ws.skip(3),
                        );
                    },
                },
            }
        }
    } else if ws[0] == "pv"@ {
    } else {
        if ws.len() >= 2 {
            lemma_info_keeps_best_move(r, turn, ws.skip(2));
        }
    }
}

/// Lines of which none begins with `bestmove` do not bring a best move
/// about.
pub proof fn lemma_best_move_needs_line(r: Reading, position: PositionView, lines: Seq<Seq<char>>)
    requires
        r.best_move is None,
        forall|i: int| 0 <= i < lines.len() ==> !names_best_move(#[trigger] lines[i]),
    ensures
        read_lines(r, position, lines) matches Ok(next) ==> next.best_move is None,
    decreases lines.len(),
{
    if lines.len() > 0 {
        lemma_info_keeps_best_move(r, position.turn, words(lines[0]).skip(1));
        match read_line(r, position, lines[0]) {
            Err(e) => {},
            Ok(next) => {
                let rest = lines.drop_first();
                assert forall|i: int| 0 <= i < rest.len() implies !names_best_move(
                    #[trigger] rest[i],
                ) by {}
                lemma_best_move_needs_line(next, position, rest);
            },
        }
    }
}

/// A transcript of which no line begins with `bestmove` has no result.
pub proof fn lemma_no_best_move_no_result(position: PositionView, lines: Seq<Seq<char>>)
    requires
        forall|i: int| 0 <= i < lines.len() ==> !names_best_move(#[trigger] lines[i]),
    ensures
        interpretation(position, lines) is Err,
{
    lemma_best_move_needs_line(start(position.turn), position, lines);
}

/// A transcript of which no line begins with `bestmove`, and of which every
/// line keeps to the protocol, fails for want of a best move.
pub proof fn lemma_missing_best_move(position: PositionView, lines: Seq<Seq<char>>)
    requires
        forall|i: int| 0 <= i < lines.len() ==> !names_best_move(#[trigger] lines[i]),
        read_lines(start(position.turn), position, lines) is Ok,
    ensures
        interpretation(position, lines) == Err::<AnalysisView, ParseFault>(
            ParseFault::MissingBestMove,
        ),
{
    lemma_best_move_needs_line(start(position.turn), position, lines);
}

/// Whether the words are whole fields of an `info` line, none of them a
/// principal variation: `score` with two words after it, every other
/// keyword with one.
pub open spec fn whole_fields(ws: Seq<Seq<char>>) -> bool
    decreases ws.len(),
{
    if ws.len() == 0 {
        true
    } else if ws[0] == "pv"@ {
        false
    } else if ws[0] == "score"@ {
        ws.len() >= 3 && whole_fields(ws.skip(3))
    } else {
        ws.len() >= 2 && whole_fields(ws.skip(2))
    }
}

/// Whether the words begin a field of an `info` line and end in the middle
/// of it: `depth` without its number, `score` without its kind or its
/// number, or another keyword that is not `pv` without its word.
pub open spec fn cut_field(ws: Seq<Seq<char>>) -> bool {
    ws.len() > 0 && ws[0] != "pv"@ && (if ws[0] == "score"@ {
        ws.len() < 3
    } else {
        ws.len() < 2
    })
}

/// The three keywords that `info_fields` knows are three different words.
proof fn lemma_keywords_differ()
    ensures
        "depth"@ != "score"@,
        "depth"@ != "pv"@,
        "score"@ != "pv"@,
{
    reveal_strlit("depth");
    reveal_strlit("score");
    reveal_strlit("pv");
    assert("score"@[0] == 's');
    assert("pv"@[0] == 'p');
}

/// Whole fields are read one after another: what follows them is read from
/// the reading that they leave.
pub proof fn lemma_fields_in_turn(
    r: Reading,
    turn: Color,
    fields: Seq<Seq<char>>,
    rest: Seq<Seq<char>>,
)
    requires
        whole_fields(fields),
    ensures
        info_fields(r, turn, fields + rest) == (match info_fields(r, turn, fields) {
            Ok(next) => info_fields(next, turn, rest),
            Err(e) => Err(e),
        }),
    decreases fields.len(),
{
    lemma_keywords_differ();
    let all = fields + rest;
    if fields.len() > 0 {
        if fields[0] == "score"@ {
            assert(all.skip(3) == fields.skip(3) + rest);
            match parse_signed(fields[2]) {
                None => {},
                Some(value) => match score(fields[1], value, turn) {
                    Err(e) => {},
                    Ok(found) => {
                        lemma_fields_in_turn(
                            Reading { advantage: found.0, advantage_side: found.1, ..r },
                            turn,
                            fields.skip(3),
                            rest,
                        );
                    },
                },
            }
        } else {
            assert(all.skip(2) == fields.skip(2) + rest);
            if fields[0] == "depth"@ {
                match parse_unsigned(fields[1]) {
                    None => {},
                    Some(depth) => {
                        lemma_fields_in_turn(Reading { depth, ..r }, turn, fields.skip(2), rest);
                    },
                }
            } else {
                lemma_fields_in_turn(r, turn, fields.skip(2), rest);
            }
        }
    }
}

/// A field that the line ends in the middle of is an error, wherever in
/// the line the field stands and whatever was read before. The error names
/// the keyword of the field, unless a field before it has an error of its
/// own.
pub proof fn lemma_missing_argument(
    r: Reading,
    turn: Color,
    fields: Seq<Seq<char>>,
    cut: Seq<Seq<char>>,
)
    requires
        whole_fields(fields),
        cut_field(cut),
    ensures
        info_fields(r, turn, fields + cut) is Err,
        info_fields(r, turn, fields) is Ok ==> info_fields(r, turn, fields + cut) == Err::<
            Reading,
            ParseFault,
        >(ParseFault::MissingArgument(cut[0])),
{
    lemma_keywords_differ();
    lemma_fields_in_turn(r, turn, fields, cut);
}

/// An `info` line that ends in the middle of a field is an error, not a
/// reading with something left as it was.
pub proof fn lemma_cut_info_line(
    r: Reading,
    position: PositionView,
    line: Seq<char>,
    fields: Seq<Seq<char>>,
    cut: Seq<Seq<char>>,
)
    requires
        words(line) == seq!["info"@] + fields + cut,
        whole_fields(fields),
        cut_field(cut),
    ensures
        read_line(r, position, line) is Err,
        info_fields(r, position.turn, fields) is Ok ==> read_line(r, position, line) == Err::<
            Reading,
            ParseFault,
        >(ParseFault::MissingArgument(cut[0])),
{
    let ws = words(line);
    assert(ws.skip(1) == fields + cut);
    lemma_missing_argument(r, position.turn, fields, cut);
}

/// Lines are read one after another: what follows a part of the transcript
/// is read from the reading that the part leaves, and an error in the part
/// is the error of the whole.
pub proof fn lemma_lines_in_turn(
    r: Reading,
    position: PositionView,
    part: Seq<Seq<char>>,
    rest: Seq<Seq<char>>,
)
    ensures
        read_lines(r, position, part + rest) == (match read_lines(r, position, part) {
            Ok(next) => read_lines(next, position, rest),
            Err(e) => Err(e),
        }),
    decreases part.len(),
{
    let all = part + rest;
    if part.len() > 0 {
        assert(all.drop_first() == part.drop_first() + rest);
        match read_line(r, position, part[0]) {
            Err(e) => {},
            Ok(next) => {
                lemma_lines_in_turn(next, position, part.drop_first(), rest);
            },
        }
    }
}

/// The error of the first line that has one is the error of the transcript:
/// if the lines before line `k` are read without error and line `k` is not,
/// the lines after it do not matter.
pub proof fn lemma_first_error_is_reported(
    r: Reading,
    position: PositionView,
    lines: Seq<Seq<char>>,
    k: int,
)
    requires
        0 <= k < lines.len(),
        read_lines(r, position, lines.take(k)) matches Ok(before) && read_line(
            before,
            position,
            lines[k],
        ) is Err,
    ensures
        read_lines(r, position, lines) is Err,
        read_lines(r, position, lines)->Err_0 == read_line(
            read_lines(r, position, lines.take(k))->Ok_0,
            position,
            lines[k],
        )->Err_0,
{
    assert(lines == lines.take(k) + lines.skip(k));
    lemma_lines_in_turn(r, position, lines.take(k), lines.skip(k));
}

} // verus!
