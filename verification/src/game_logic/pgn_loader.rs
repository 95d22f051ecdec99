//! Reading a game from PGN text: the headers are skipped, the move
//! numbers, results and comments dropped, and the moves replayed from the
//! starting position. Reading the file is the application's part.

use vstd::prelude::*;
use crate::chess::{
    ChessMove, Piece, START_FEN, SanOutcome, file_of, initial_position, move_from, move_to,
    piece_at, piece_on, play, position_after, rank_of, san_outcome, san_resolve, side_to_move,
    turn,
};
use crate::game_logic::game::count_after;
use crate::game_logic::game_board::{GameBoard, fens};
use crate::pieces::{PieceColor, PieceType};
use crate::text::{
    chars_eq, chars_of, concat_chars, ends_with, has_prefix, has_suffix, slice_chars, split_char,
    split_from, split_on, split_whitespace, string_of, trim_chars, trimmed, views, words,
    is_ws, ws_pred, strip_start_by, strip_end_by, find_char_from, lemma_find_char_bounds,
};

verus! {

/// A line without the carriage return before its line feed.
pub open spec fn without_cr(l: Seq<char>) -> Seq<char> {
    if l.len() > 0 && l.last() == '\r' {
        l.drop_last()
    } else {
        l
    }
}

/// The lines of a text as `str::lines` gives them: split at line feeds, a
/// carriage return before a line feed dropped, and no empty last line
/// after a final line feed.
pub open spec fn text_lines(s: Seq<char>) -> Seq<Seq<char>> {
    let parts = split_on(s, '\n');
    let n = parts.len() as int;
    let kept = if parts[n - 1].len() == 0 { n - 1 } else { n };
    Seq::new(kept as nat, |i: int| if i < n - 1 { without_cr(parts[i]) } else { parts[i] })
}

/// The first line from `k` on that is not blank and not a header, or 0
/// when there is none.
pub open spec fn first_move_line(lines: Seq<Seq<char>>, k: int) -> int
    decreases lines.len() - k,
{
    if k < 0 || k >= lines.len() {
        0
    } else if trimmed(lines[k]).len() > 0 && !has_prefix(trimmed(lines[k]), "["@) {
        k
    } else {
        first_move_line(lines, k + 1)
    }
}

/// Lines joined with single spaces.
pub open spec fn joined(lines: Seq<Seq<char>>) -> Seq<char>
    decreases lines.len(),
{
    if lines.len() == 0 {
        Seq::empty()
    } else if lines.len() == 1 {
        lines[0]
    } else {
        joined(lines.drop_last()) + " "@ + lines.last()
    }
}

/// Whether every character of `t` is a digit or a dot.
pub open spec fn digits_and_dots(t: Seq<char>) -> bool {
    forall|i: int| 0 <= i < t.len() ==> ('0' <= #[trigger] t[i] <= '9' || t[i] == '.')
}

/// Whether a PGN word is a move: not a move number, not a result, not the
/// start of a comment, a variation or a tag.
pub open spec fn is_pgn_move(t: Seq<char>) -> bool {
    &&& !has_suffix(t, "."@)
    &&& !digits_and_dots(t)
    &&& t != "1-0"@ && t != "0-1"@ && t != "1/2-1/2"@ && t != "*"@
    &&& !has_prefix(t, "{"@) && !has_prefix(t, "("@) && !has_prefix(t, "["@)
}

/// The moves among PGN words, in order.
pub open spec fn pgn_moves(ws: Seq<Seq<char>>) -> Seq<Seq<char>>
    decreases ws.len(),
{
    if ws.len() == 0 {
        seq![]
    } else {
        let rest = pgn_moves(ws.drop_last());
        if is_pgn_move(ws.last()) {
            rest.push(ws.last())
        } else {
            rest
        }
    }
}

/// The moves among the words of two texts one after the other are the
/// moves of the first then those of the second.
pub proof fn lemma_pgn_moves_concat(a: Seq<Seq<char>>, b: Seq<Seq<char>>)
    ensures
        pgn_moves(a + b) == pgn_moves(a) + pgn_moves(b),
    decreases b.len(),
{
    if b.len() == 0 {
        assert(a + b =~= a);
        assert(pgn_moves(a) + pgn_moves(b) =~= pgn_moves(a));
    } else {
        lemma_pgn_moves_concat(a, b.drop_last());
        assert((a + b).drop_last() =~= a + b.drop_last());
        assert((a + b).last() == b.last());
        if is_pgn_move(b.last()) {
            assert(pgn_moves(a) + pgn_moves(b) =~= (pgn_moves(a) + pgn_moves(b.drop_last())).push(b.last()));
        }
    }
}

/// A game result ("1-0", "0-1", "1/2-1/2" or "*") is never taken for a
/// move: wherever it stands among the words of a PGN text, the moves read
/// are the same as without it.
pub proof fn lemma_results_are_not_moves(a: Seq<Seq<char>>, t: Seq<char>, b: Seq<Seq<char>>)
    requires
        t == "1-0"@ || t == "0-1"@ || t == "1/2-1/2"@ || t == "*"@,
    ensures
        pgn_moves(a + seq![t] + b) == pgn_moves(a + b),
{
    reveal_strlit("1-0");
    reveal_strlit("0-1");
    reveal_strlit("1/2-1/2");
    reveal_strlit("*");
    assert(!is_pgn_move(t));
    assert(pgn_moves(seq![t]) =~= seq![]) by {
        let w = seq![t];
        assert(w.drop_last() =~= Seq::<Seq<char>>::empty());
        assert(w.last() == t);
        assert(pgn_moves(w.drop_last()) =~= Seq::<Seq<char>>::empty());
    }
    lemma_pgn_moves_concat(a, seq![t]);
    lemma_pgn_moves_concat(a + seq![t], b);
    lemma_pgn_moves_concat(a, b);
    assert(pgn_moves(a) + pgn_moves(seq![t]) =~= pgn_moves(a));
}

/// The moves section of a PGN text: the lines from the first that is not
/// blank or a header, joined. None for a text with no line at all.
pub open spec fn pgn_move_section(pgn: Seq<char>) -> Option<Seq<char>> {
    let lines = text_lines(pgn);
    if lines.len() == 0 {
        None
    } else {
        let k = first_move_line(lines, 0);
        Some(joined(lines.subrange(k, lines.len() as int)))
    }
}

/// The pieces taken by move `m`, made by `mover`, in position `pos`: the
/// piece on the target square; for a pawn going one file aside onto an
/// empty square, the pawn beside it (en passant).
pub open spec fn taken_by(pos: Seq<char>, m: ChessMove, mover: Piece) -> Seq<Piece> {
    let from = move_from(m)->0;
    let to = move_to(m);
    match piece_on(pos, to) {
        Some(p) => seq![p],
        None => if mover.role == PieceType::Pawn && (file_of(to as int) - file_of(from as int) == 1
            || file_of(from as int) - file_of(to as int) == 1) {
            match piece_on(pos, (rank_of(from as int) * 8 + file_of(to as int)) as u8) {
                Some(p) => seq![p],
                None => seq![],
            }
        } else {
            seq![]
        },
    }
}

/// The replay so far: the moves, the positions (from the start), the pieces
/// taken, the count of moves without a pawn move or a capture, and the
/// current position; or the error that stopped it.
pub type PgnReplay = Result<(Seq<ChessMove>, Seq<Seq<char>>, Seq<Piece>, int, Seq<char>), Seq<char>>;

/// One more SAN move of the replay.
pub open spec fn pgn_step(st: PgnReplay, tok: Seq<char>) -> PgnReplay {
    match st {
        Err(e) => Err(e),
        Ok((ms, fs, tk, n, pos)) => match san_outcome(pos, tok) {
            SanOutcome::Invalid => Err("Failed to parse move '"@ + tok + "': invalid san"@),
            SanOutcome::Illegal => Err("Illegal move '"@ + tok + "': illegal san"@),
            SanOutcome::Ambiguous => Err("Illegal move '"@ + tok + "': ambiguous san"@),
            SanOutcome::Found(m) => match move_from(m) {
                None => Err("Invalid move: no from square"@),
                Some(f) => match piece_on(pos, f) {
                    None => Err("No piece at from square"@),
                    Some(pc) => match position_after(pos, m) {
                        None => Err("Failed to apply move"@),
                        Some(next) => Ok(
                            (
                                ms.push(m),
                                fs.push(next),
                                tk + taken_by(pos, m, pc),
                                count_after(n, pc.role, piece_on(pos, move_to(m)) is Some),
                                next,
                            ),
                        ),
                    },
                },
            },
        },
    }
}

/// The count of moves without a pawn move or a capture, in the replay of
/// a PGN text: a move played that takes a piece (one stood on its target
/// square) or moves a pawn sets it to 0, whatever piece moved; any other
/// move played adds one.
pub proof fn lemma_pgn_capture_or_pawn_resets_the_count(st: PgnReplay, tok: Seq<char>)
    requires
        st is Ok,
        pgn_step(st, tok) is Ok,
    ensures
        ({
            let (ms, fs, tk, n, pos) = st->Ok_0;
            let m = san_outcome(pos, tok)->Found_0;
            let mover = piece_on(pos, move_from(m)->0)->0;
            let (ms1, fs1, tk1, n1, pos1) = pgn_step(st, tok)->Ok_0;
            &&& san_outcome(pos, tok) is Found
            &&& if mover.role == PieceType::Pawn || piece_on(pos, move_to(m)) is Some {
                n1 == 0
            } else {
                n1 == n + 1
            }
        }),
{
}

/// The replay of the first `k` moves, from the starting position.
pub open spec fn pgn_fold(toks: Seq<Seq<char>>, k: int) -> PgnReplay
    decreases k,
{
    if k <= 0 {
        Ok((seq![], seq![START_FEN@], seq![], 0, START_FEN@))
    } else {
        pgn_step(pgn_fold(toks, k - 1), toks[k - 1])
    }
}

/// The moves of a PGN text.
pub open spec fn pgn_tokens(pgn: Seq<char>) -> Seq<Seq<char>> {
    match pgn_move_section(pgn) {
        Some(sec) => pgn_moves(words(sec)),
        None => seq![],
    }
}

/// A split always has a first piece.
pub proof fn lemma_split_nonempty(s: Seq<char>, c: char, i: int)
    requires
        0 <= i <= s.len(),
    ensures
        split_from(s, c, i).len() >= 1,
    decreases s.len() - i,
{
    crate::text::lemma_find_char_bounds(s, c, i);
}

/// The lines of a text (see `text_lines`).
fn text_lines_of(v: &Vec<char>) -> (r: Vec<Vec<char>>)
    ensures
        views(r@) == text_lines(v@),
{
    let parts = split_char(v, '\n');
    proof {
        lemma_split_nonempty(v@, '\n', 0);
    }
    let n = parts.len();
    let kept = if parts[n - 1].len() == 0 { n - 1 } else { n };
    let mut out: Vec<Vec<char>> = Vec::new();
    let mut i: usize = 0;
    while i < kept
        invariant
            n == parts@.len(),
            n >= 1,
            kept <= n,
            kept == (if views(parts@)[n - 1].len() == 0 { n - 1 } else { n as int }),
            views(parts@) == split_on(v@, '\n'),
            i <= kept,
            views(out@) == text_lines(v@).subrange(0, i as int),
        decreases kept - i,
    {
        let part = &parts[i];
        let line = if i < n - 1 && part.len() > 0 && part[part.len() - 1] == '\r' {
            slice_chars(part, 0, part.len() - 1)
        } else {
            part.clone()
        };
        let ghost before = out@;
        out.push(line);
        proof {
            assert(views(out@) =~= views(before).push(line@));
            assert(views(parts@)[i as int] == part@);
            if i < n - 1 && part@.len() > 0 && part@.last() == '\r' {
                assert(line@ =~= part@.drop_last());
            }
            assert(text_lines(v@)[i as int] == line@);
            assert(views(out@) =~= text_lines(v@).subrange(0, i as int + 1));
        }
        i += 1;
    }
    proof {
        assert(text_lines(v@).len() == kept);
        assert(text_lines(v@).subrange(0, kept as int) =~= text_lines(v@));
    }
    out
}

/// Whether a line holds moves: it is not blank and not a header.
fn is_move_line(line: &Vec<char>) -> (r: bool)
    ensures
        r == (trimmed(line@).len() > 0 && !has_prefix(trimmed(line@), "["@)),
{
    let t = trim_chars(line);
    t.len() > 0 && !crate::text::starts_with(&t, &chars_of("["))
}

/// The lines from `start` on, joined with single spaces.
fn join_lines_from(lines: &Vec<Vec<char>>, start: usize) -> (r: Vec<char>)
    requires
        start <= lines@.len(),
    ensures
        r@ == joined(views(lines@).subrange(start as int, lines@.len() as int)),
{
    let mut out: Vec<char> = Vec::new();
    let mut i: usize = start;
    let space = chars_of(" ");
    proof {
        assert(views(lines@).subrange(start as int, start as int) =~= Seq::<Seq<char>>::empty());
    }
    while i < lines.len()
        invariant
            start <= i <= lines@.len(),
            space@ == " "@,
            out@ == joined(views(lines@).subrange(start as int, i as int)),
        decreases lines@.len() - i,
    {
        let ghost before = views(lines@).subrange(start as int, i as int);
        proof {
            assert(views(lines@).subrange(start as int, i as int + 1).drop_last() =~= before);
            assert(views(lines@).subrange(start as int, i as int + 1).last() == lines@[i as int]@);
        }
        if i > start {
            out = concat_chars(&concat_chars(&out, &space), &lines[i]);
        } else {
            out = lines[i].clone();
            proof {
                assert(views(lines@).subrange(start as int, i as int + 1) =~= seq![lines@[i as int]@]);
            }
        }
        i += 1;
    }
    out
}

/// Whether a PGN word is a move (see `is_pgn_move`).
fn is_pgn_move_word(t: &Vec<char>) -> (r: bool)
    ensures
        r == is_pgn_move(t@),
{
    if ends_with(t, &chars_of(".")) {
        return false;
    }
    let mut all_digits_dots = true;
    let mut i: usize = 0;
    while i < t.len()
        invariant
            i <= t@.len(),
            all_digits_dots == (forall|j: int| 0 <= j < i ==> ('0' <= #[trigger] t@[j] <= '9' || t@[j] == '.')),
        decreases t@.len() - i,
    {
        let c = t[i];
        if !(('0' <= c && c <= '9') || c == '.') {
            all_digits_dots = false;
        }
        i += 1;
    }
    if all_digits_dots {
        return false;
    }
    !chars_eq(t, &chars_of("1-0")) && !chars_eq(t, &chars_of("0-1")) && !chars_eq(t, &chars_of("1/2-1/2"))
        && !chars_eq(t, &chars_of("*")) && !crate::text::starts_with(t, &chars_of("{"))
        && !crate::text::starts_with(t, &chars_of("(")) && !crate::text::starts_with(t, &chars_of("["))
}

/// The moves among PGN words.
fn keep_pgn_moves(ws: &Vec<Vec<char>>) -> (r: Vec<Vec<char>>)
    ensures
        views(r@) == pgn_moves(views(ws@)),
{
    let mut out: Vec<Vec<char>> = Vec::new();
    let mut i: usize = 0;
    while i < ws.len()
        invariant
            i <= ws@.len(),
            views(out@) == pgn_moves(views(ws@).subrange(0, i as int)),
        decreases ws@.len() - i,
    {
        proof {
            assert(views(ws@).subrange(0, i as int + 1).drop_last() =~= views(ws@).subrange(0, i as int));
        }
        if is_pgn_move_word(&ws[i]) {
            out.push(ws[i].clone());
            proof {
                assert(views(out@) =~= pgn_moves(views(ws@).subrange(0, i as int + 1)));
            }
        }
        i += 1;
    }
    proof {
        assert(views(ws@).subrange(0, ws@.len() as int) =~= views(ws@));
    }
    out
}

/// Once the replay has stopped on an error, it stays stopped on it.
pub proof fn lemma_fold_err_sticky(toks: Seq<Seq<char>>, i: int, k: int)
    requires
        0 < i <= k,
        pgn_fold(toks, i) is Err,
    ensures
        pgn_fold(toks, k) == pgn_fold(toks, i),
    decreases k - i,
{
    if k > i {
        lemma_fold_err_sticky(toks, i, k - 1);
    }
}

/// Whether every character of `s` is whitespace.
pub open spec fn all_ws(s: Seq<char>) -> bool {
    forall|i: int| 0 <= i < s.len() ==> is_ws(#[trigger] s[i])
}

/// Text that trims to nothing is all whitespace, and the other way round.
proof fn lemma_trimmed_empty(s: Seq<char>)
    ensures
        trimmed(s).len() == 0 <==> all_ws(s),
    decreases s.len(),
{
    let a = strip_start_by(s, ws_pred());
    lemma_strip_start_all(s);
    lemma_strip_end_all(a);
    if all_ws(s) {
        lemma_strip_start_of_blank(s);
    }
}

/// Stripping whitespace from the front of all-whitespace text leaves
/// nothing.
proof fn lemma_strip_start_of_blank(s: Seq<char>)
    requires
        all_ws(s),
    ensures
        strip_start_by(s, ws_pred()).len() == 0,
    decreases s.len(),
{
    if s.len() > 0 {
        assert(is_ws(s[0]));
        assert forall|i: int| 0 <= i < s.drop_first().len() implies is_ws(#[trigger] s.drop_first()[i]) by {
            assert(s.drop_first()[i] == s[i + 1]);
        }
        lemma_strip_start_of_blank(s.drop_first());
    }
}

/// The text is all whitespace when what is left after stripping it from
/// the front is.
proof fn lemma_strip_start_all(s: Seq<char>)
    ensures
        all_ws(strip_start_by(s, ws_pred())) ==> all_ws(s),
    decreases s.len(),
{
    if s.len() > 0 && ws_pred()(s[0]) {
        lemma_strip_start_all(s.drop_first());
        if all_ws(strip_start_by(s, ws_pred())) {
            assert forall|i: int| 0 <= i < s.len() implies is_ws(#[trigger] s[i]) by {
                if i > 0 {
                    assert(s[i] == s.drop_first()[i - 1]);
                }
            }
        }
    }
}

/// Stripping whitespace from the back leaves nothing exactly when the text
/// is all whitespace.
proof fn lemma_strip_end_all(s: Seq<char>)
    ensures
        strip_end_by(s, ws_pred()).len() == 0 <==> all_ws(s),
    decreases s.len(),
{
    if s.len() > 0 {
        lemma_strip_end_all(s.drop_last());
        if ws_pred()(s.last()) {
            if all_ws(s.drop_last()) {
                assert forall|i: int| 0 <= i < s.len() implies is_ws(#[trigger] s[i]) by {
                    if i < s.len() - 1 {
                        assert(s[i] == s.drop_last()[i]);
                    }
                }
            }
            if all_ws(s) {
                assert forall|i: int| 0 <= i < s.drop_last().len() implies is_ws(#[trigger] s.drop_last()[i]) by {
                    assert(s.drop_last()[i] == s[i]);
                }
            }
        } else {
            assert(!is_ws(s[s.len() - 1]));
        }
    }
}

/// The pieces of all-whitespace text are all whitespace.
proof fn lemma_split_blank(s: Seq<char>, c: char, i: int)
    requires
        all_ws(s),
        0 <= i <= s.len(),
    ensures
        forall|j: int| 0 <= j < split_from(s, c, i).len() ==> all_ws(#[trigger] split_from(s, c, i)[j]),
    decreases s.len() - i,
{
    lemma_find_char_bounds(s, c, i);
    let k = find_char_from(s, c, i);
    let head = if k >= s.len() { s.subrange(i, s.len() as int) } else { s.subrange(i, k) };
    assert forall|j: int| 0 <= j < head.len() implies is_ws(#[trigger] head[j]) by {
        assert(head[j] == s[i + j]);
    }
    if k < s.len() {
        lemma_split_blank(s, c, k + 1);
        let rest = split_from(s, c, k + 1);
        assert(split_from(s, c, i) == seq![head] + rest);
        assert forall|j: int| 0 <= j < split_from(s, c, i).len() implies all_ws(#[trigger] split_from(s, c, i)[j]) by {
            if j > 0 {
                assert(split_from(s, c, i)[j] == rest[j - 1]);
            }
        }
    }
}

/// Lines of all-whitespace text joined with spaces are all whitespace.
proof fn lemma_joined_blank(lines: Seq<Seq<char>>)
    requires
        forall|j: int| 0 <= j < lines.len() ==> all_ws(#[trigger] lines[j]),
    ensures
        all_ws(joined(lines)),
    decreases lines.len(),
{
    if lines.len() == 1 {
        assert(all_ws(lines[0]));
    } else if lines.len() > 1 {
        let a = lines.drop_last();
        assert forall|j: int| 0 <= j < a.len() implies all_ws(#[trigger] a[j]) by {
            assert(a[j] == lines[j]);
        }
        lemma_joined_blank(a);
        let x = joined(a);
        let y = lines.last();
        assert(all_ws(y));
        reveal_strlit(" ");
        let t = x + " "@ + y;
        assert forall|i: int| 0 <= i < t.len() implies is_ws(#[trigger] t[i]) by {
            if i < x.len() {
                assert(t[i] == x[i]);
            } else if i == x.len() {
                assert(t[i] == ' ');
            } else {
                assert(t[i] == y[i - x.len() - 1]);
            }
        }
    }
}

/// Blank PGN text has no moves: either no moves section or a blank one.
pub proof fn lemma_blank_pgn_has_no_moves(pgn: Seq<char>)
    requires
        trimmed(pgn).len() == 0,
    ensures
        match pgn_move_section(pgn) {
            None => true,
            Some(sec) => trimmed(sec).len() == 0,
        },
{
    lemma_trimmed_empty(pgn);
    let parts = split_on(pgn, '\n');
    crate::game_logic::pgn_loader::lemma_split_nonempty(pgn, '\n', 0);
    lemma_split_blank(pgn, '\n', 0);
    let lines = text_lines(pgn);
    assert forall|j: int| 0 <= j < lines.len() implies all_ws(#[trigger] lines[j]) by {
        assert(all_ws(parts[j]));
        let l = parts[j];
        if l.len() > 0 && l.last() == '\r' {
            assert forall|i: int| 0 <= i < l.drop_last().len() implies is_ws(#[trigger] l.drop_last()[i]) by {
                assert(l.drop_last()[i] == l[i]);
            }
        }
    }
    if lines.len() > 0 {
        let k = first_move_line(lines, 0);
        lemma_first_move_line_bounds(lines, 0);
        let sub = lines.subrange(k, lines.len() as int);
        assert forall|j: int| 0 <= j < sub.len() implies all_ws(#[trigger] sub[j]) by {
            assert(sub[j] == lines[k + j]);
        }
        lemma_joined_blank(sub);
        lemma_trimmed_empty(joined(sub));
    }
}

/// `first_move_line` is an index of the lines, or 0.
proof fn lemma_first_move_line_bounds(lines: Seq<Seq<char>>, k: int)
    requires
        0 <= k,
    ensures
        0 <= first_move_line(lines, k) <= lines.len(),
    decreases lines.len() - k,
{
    if k < lines.len() && !(trimmed(lines[k]).len() > 0 && !has_prefix(trimmed(lines[k]), "["@)) {
        lemma_first_move_line_bounds(lines, k + 1);
    }
}

/// A move that the replay finds illegal in the position reached stops it:
/// the reading fails with "Illegal move '<move>': illegal san".
pub proof fn lemma_illegal_move_stops_the_replay(toks: Seq<Seq<char>>, k: int)
    requires
        0 <= k < toks.len(),
        pgn_fold(toks, k) matches Ok(st) && san_outcome(st.4, toks[k]) == SanOutcome::Illegal,
    ensures
        pgn_fold(toks, toks.len() as int) == Err::<(Seq<ChessMove>, Seq<Seq<char>>, Seq<Piece>, int, Seq<char>), Seq<char>>(
            "Illegal move '"@ + toks[k] + "': illegal san"@,
        ),
{
    assert(pgn_fold(toks, k + 1) == pgn_step(pgn_fold(toks, k), toks[k]));
    if k + 1 < toks.len() {
        lemma_fold_err_sticky(toks, k + 1, toks.len() as int);
    }
}

/// The message when a PGN text has no moves.
pub open spec fn no_moves_message() -> Seq<char> {
    "No moves found in PGN"@
}

/// Reads a game from PGN text: the moves section (`pgn_move_section`) is
/// split into words and its moves (`pgn_moves`) are replayed from the
/// starting position (`pgn_fold`). Gives the board with the moves, the
/// positions, the pieces taken and the move count, and the side to move;
/// or the error of the first move that cannot be played, or "No moves
/// found in PGN" for a text with no moves section or a blank one.
pub fn parse_pgn(pgn_content: &str) -> (r: Result<(GameBoard, PieceColor), String>)
    requires
        pgn_tokens(pgn_content@).len() < i32::MAX,
    ensures
        match pgn_move_section(pgn_content@) {
            None => r matches Err(e) && e@ == no_moves_message(),
            Some(sec) => if trimmed(sec).len() == 0 {
                r matches Err(e) && e@ == no_moves_message()
            } else {
                let toks = pgn_tokens(pgn_content@);
                match pgn_fold(toks, toks.len() as int) {
                    Err(msg) => r matches Err(e) && e@ == msg,
                    Ok((ms, fs, tk, n, pos)) => r matches Ok((gb, player)) && {
                        &&& gb.move_history@ == ms
                        &&& gb.fens() == fs
                        &&& gb.taken_pieces@ == tk
                        &&& gb.consecutive_non_pawn_or_capture == n
                        &&& !gb.is_flipped
                        &&& gb.history_position_index is None
                        &&& gb.original_flip_state is None
                        &&& player == side_to_move(pos)
                    },
                }
            },
        },
        r matches Ok((gb, player)) ==> player == (if gb.move_history@.len() % 2 == 0 {
            PieceColor::White
        } else {
            PieceColor::Black
        }),
        trimmed(pgn_content@).len() == 0 ==> (r matches Err(e) && e@ == no_moves_message()),
{
    proof {
        if trimmed(pgn_content@).len() == 0 {
            lemma_blank_pgn_has_no_moves(pgn_content@);
        }
    }
    let text = chars_of(pgn_content);
    let lines = text_lines_of(&text);
    if lines.len() == 0 {
        return Err(String::from_str("No moves found in PGN"));
    }
    let mut idx: usize = 0;
    while idx < lines.len() && !is_move_line(&lines[idx])
        invariant
            idx <= lines@.len(),
            first_move_line(views(lines@), 0) == first_move_line(views(lines@), idx as int),
        decreases lines@.len() - idx,
    {
        idx += 1;
    }
    let move_start_idx: usize = if idx < lines.len() { idx } else { 0 };
    proof {
        assert(move_start_idx == first_move_line(views(lines@), 0));
    }
    let section = join_lines_from(&lines, move_start_idx);
    if trim_chars(&section).len() == 0 {
        return Err(String::from_str("No moves found in PGN"));
    }
    let words = split_whitespace(&section);
    let tokens = keep_pgn_moves(&words);
    let ghost toks = views(tokens@);
    proof {
        assert(pgn_move_section(pgn_content@) == Some(section@));
        assert(trimmed(section@).len() > 0);
        assert(toks == pgn_tokens(pgn_content@));
    }
    let mut position = initial_position();
    let mut move_history: Vec<ChessMove> = Vec::new();
    let mut position_history: Vec<String> = Vec::new();
    position_history.push(initial_position());
    let mut taken: Vec<Piece> = Vec::new();
    let mut count: i32 = 0;
    proof {
        assert(fens(position_history@) =~= seq![START_FEN@]);
        assert(move_history@ =~= Seq::<ChessMove>::empty());
        assert(taken@ =~= Seq::<Piece>::empty());
    }
    let mut i: usize = 0;
    while i < tokens.len()
        invariant
            i <= tokens@.len(),
            toks == views(tokens@),
            toks == pgn_tokens(pgn_content@),
            pgn_move_section(pgn_content@) == Some(section@),
            trimmed(section@).len() > 0,
            trimmed(pgn_content@).len() > 0,
            toks.len() < i32::MAX,
            crate::chess::fen_valid(position@),
            0 <= count <= i,
            side_to_move(position@) == (if move_history@.len() % 2 == 0 {
                PieceColor::White
            } else {
                PieceColor::Black
            }),
            pgn_fold(toks, i as int) == Ok::<_, Seq<char>>(
                (move_history@, fens(position_history@), taken@, count as int, position@),
            ),
        decreases tokens@.len() - i,
    {
        let tok = &tokens[i];
        let tok_text = string_of(tok);
        proof {
            assert(toks[i as int] == tok_text@);
        }
        match san_resolve(position.as_str(), tok_text.as_str()) {
            SanOutcome::Invalid => {
                let msg = concat_chars(&concat_chars(&chars_of("Failed to parse move '"), tok), &chars_of("': invalid san"));
                proof {
                    lemma_fold_err_sticky(toks, i as int + 1, toks.len() as int);
                }
                return Err(string_of(&msg));
            },
            SanOutcome::Illegal => {
                let msg = concat_chars(&concat_chars(&chars_of("Illegal move '"), tok), &chars_of("': illegal san"));
                proof {
                    lemma_fold_err_sticky(toks, i as int + 1, toks.len() as int);
                }
                return Err(string_of(&msg));
            },
            SanOutcome::Ambiguous => {
                let msg = concat_chars(&concat_chars(&chars_of("Illegal move '"), tok), &chars_of("': ambiguous san"));
                proof {
                    lemma_fold_err_sticky(toks, i as int + 1, toks.len() as int);
                }
                return Err(string_of(&msg));
            },
            SanOutcome::Found(m) => {
                let from = match m.from() {
                    Some(f) => f,
                    None => {
                        proof {
                            lemma_fold_err_sticky(toks, i as int + 1, toks.len() as int);
                        }
                        return Err(String::from_str("Invalid move: no from square"));
                    },
                };
                let mover = match piece_at(position.as_str(), from) {
                    Some(p) => p,
                    None => {
                        proof {
                            lemma_fold_err_sticky(toks, i as int + 1, toks.len() as int);
                        }
                        return Err(String::from_str("No piece at from square"));
                    },
                };
                let to = m.to();
                let target = piece_at(position.as_str(), to);
                let next = match play(position.as_str(), &m) {
                    Some(n) => n,
                    None => {
                        proof {
                            lemma_fold_err_sticky(toks, i as int + 1, toks.len() as int);
                        }
                        return Err(String::from_str("Failed to apply move"));
                    },
                };
                let ghost taken_before = taken@;
                match target {
                    Some(p) => {
                        taken.push(p);
                    },
                    None => {
                        if mover.role == PieceType::Pawn && (to % 8 == from % 8 + 1 || from % 8 == to % 8 + 1) {
                            if let Some(p) = piece_at(position.as_str(), (from / 8) * 8 + to % 8) {
                                taken.push(p);
                            }
                        }
                    },
                }
                proof {
                    assert(taken@ =~= taken_before + taken_by(position@, m, mover));
                }
                count = if mover.role == PieceType::Pawn || target.is_some() { 0 } else { count + 1 };
                let ghost before = position_history@;
                move_history.push(m);
                position_history.push(next.clone());
                position = next;
                proof {
                    assert(fens(position_history@) =~= fens(before).push(position@));
                }
            },
        }
        i += 1;
    }
    let player = turn(position.as_str());
    let game_board = GameBoard {
        move_history,
        position_history,
        consecutive_non_pawn_or_capture: count,
        taken_pieces: taken,
        is_flipped: false,
        history_position_index: None,
        original_flip_state: None,
    };
    Ok((game_board, player))
}

} // verus!
