//! Splitting a migration script into its statements.

use vstd::prelude::*;
use vstd::string::*;

verus! {

/// `String::push` appends one character.
pub assume_specification[ String::push ](s: &mut String, c: char)
    ensures
        final(s)@ == old(s)@.push(c),
;

/// Whether a character is white space: one with the Unicode property
/// `White_Space`.
pub open spec fn is_white(c: char) -> bool {
    ||| '\u{9}' <= c <= '\u{d}'
    ||| c == ' '
    ||| c == '\u{85}'
    ||| c == '\u{a0}'
    ||| c == '\u{1680}'
    ||| '\u{2000}' <= c <= '\u{200a}'
    ||| c == '\u{2028}'
    ||| c == '\u{2029}'
    ||| c == '\u{202f}'
    ||| c == '\u{205f}'
    ||| c == '\u{3000}'
}

fn white(c: char) -> (r: bool)
    ensures
        r == is_white(c),
{
    ('\u{9}' <= c && c <= '\u{d}') || c == ' ' || c == '\u{85}' || c == '\u{a0}' || c == '\u{1680}'
        || ('\u{2000}' <= c && c <= '\u{200a}') || c == '\u{2028}' || c == '\u{2029}' || c
        == '\u{202f}' || c == '\u{205f}' || c == '\u{3000}'
}

/// A text without the white space at its front.
pub open spec fn trim_front(s: Seq<char>) -> Seq<char>
    decreases s.len(),
{
    if s.len() > 0 && is_white(s[0]) {
        trim_front(s.drop_first())
    } else {
        s
    }
}

/// A text without the white space at its back.
pub open spec fn trim_back(s: Seq<char>) -> Seq<char>
    decreases s.len(),
{
    if s.len() > 0 && is_white(s.last()) {
        trim_back(s.drop_last())
    } else {
        s
    }
}

/// A text without the white space around it.
pub open spec fn trimmed(s: Seq<char>) -> Seq<char> {
    trim_back(trim_front(s))
}

/// What becomes of a piece of a script.
pub enum Piece {
    /// It belongs to the statement.
    Kept,
    /// It is a comment.
    Dropped,
    /// It ends the statement.
    End,
}

/// Where `c` stands first in `s` at `from` or later.
pub open spec fn find_char(s: Seq<char>, c: char, from: int) -> Option<int>
    decreases s.len() - from,
{
    if from < 0 || from >= s.len() {
        None
    } else if s[from] == c {
        Some(from)
    } else {
        find_char(s, c, from + 1)
    }
}

/// Whether `word` stands in `s` at `at`.
pub open spec fn stands_at(s: Seq<char>, word: Seq<char>, at: int) -> bool {
    0 <= at && at + word.len() <= s.len() && s.subrange(at, at + word.len()) == word
}

/// Whether `word` stands somewhere in `s`.
pub open spec fn has_word(s: Seq<char>, word: Seq<char>) -> bool {
    exists|at: int| stands_at(s, word, at)
}

/// Where `word` stands first in `s` at `from` or later.
pub open spec fn find_word(s: Seq<char>, word: Seq<char>, from: int) -> Option<int>
    decreases s.len() - from,
{
    if from < 0 || from + word.len() > s.len() {
        None
    } else if stands_at(s, word, from) {
        Some(from)
    } else if from >= s.len() {
        None
    } else {
        find_word(s, word, from + 1)
    }
}

/// Where the dollar-quoted block ends that starts at `i`, if one does: behind
/// the second `$tag$`, the tag being what stands between the first two dollars.
pub open spec fn block_end(s: Seq<char>, i: int) -> Option<int> {
    match find_char(s, '$', i + 1) {
        None => None,
        Some(j) => {
            let tag = s.subrange(i, j + 1);
            match find_word(s, tag, j + 1) {
                None => None,
                Some(k) => Some(k + tag.len()),
            }
        },
    }
}

/// Where the line comment ends that starts at `i`: before the end of the line.
pub open spec fn line_end(s: Seq<char>, i: int) -> int {
    match find_char(s, '\n', i) {
        Some(j) => j,
        None => s.len() as int,
    }
}

/// Where the block comment ends whose text starts at `i`: behind the first
/// `*/`. One that is not closed ends before the last character of the script.
pub open spec fn comment_end(s: Seq<char>, i: int) -> int {
    match find_word(s, seq!['*', '/'], i) {
        Some(j) => j + 2,
        None => if i + 1 < s.len() {
            s.len() - 1
        } else {
            i
        },
    }
}

/// The piece of a script that starts at `i`, and where it ends.
pub open spec fn piece_at(s: Seq<char>, i: int) -> (Piece, int) {
    if s[i] == '$' {
        match block_end(s, i) {
            Some(j) => (Piece::Kept, j),
            None => (Piece::Kept, i + 1),
        }
    } else if i + 1 < s.len() && s[i] == '-' && s[i + 1] == '-' {
        (Piece::Dropped, line_end(s, i))
    } else if i + 1 < s.len() && s[i] == '/' && s[i + 1] == '*' {
        (Piece::Dropped, comment_end(s, i + 2))
    } else if s[i] == ';' {
        (Piece::End, i + 1)
    } else {
        (Piece::Kept, i + 1)
    }
}

/// The statement with the text `current`: none where only white space is left.
pub open spec fn finished(current: Seq<char>) -> Seq<Seq<char>> {
    if trimmed(current).len() == 0 {
        Seq::empty()
    } else {
        seq![trimmed(current)]
    }
}

proof fn find_char_bounds(s: Seq<char>, c: char, from: int)
    requires
        0 <= from,
    ensures
        match find_char(s, c, from) {
            Some(j) => from <= j < s.len() && s[j] == c && forall|k: int|
                from <= k < j ==> s[k] != c,
            None => forall|k: int| from <= k < s.len() ==> s[k] != c,
        },
    decreases s.len() - from,
{
    if from < s.len() && s[from] != c {
        find_char_bounds(s, c, from + 1);
    }
}

proof fn find_word_bounds(s: Seq<char>, word: Seq<char>, from: int)
    requires
        0 <= from,
    ensures
        match find_word(s, word, from) {
            Some(j) => from <= j && stands_at(s, word, j) && forall|k: int|
                from <= k < j ==> !stands_at(s, word, k),
            None => forall|k: int| from <= k ==> !stands_at(s, word, k) || word.len() == 0,
        },
    decreases s.len() - from,
{
    if from + word.len() <= s.len() && !stands_at(s, word, from) && from < s.len() {
        find_word_bounds(s, word, from + 1);
    }
}

/// Every piece takes up at least one character and ends within the script.
pub proof fn pieces_advance(s: Seq<char>, i: int)
    requires
        0 <= i < s.len(),
    ensures
        i < piece_at(s, i).1 <= s.len(),
{
    find_char_bounds(s, '$', i + 1);
    find_char_bounds(s, '\n', i);
    if let Some(j) = find_char(s, '$', i + 1) {
        find_word_bounds(s, s.subrange(i, j + 1), j + 1);
    }
    find_word_bounds(s, seq!['*', '/'], i + 2);
}

/// The statements of a script from `i` on, `current` being what the statement
/// at hand holds so far.
pub open spec fn statements_from(s: Seq<char>, i: int, current: Seq<char>) -> Seq<Seq<char>>
    decreases s.len() - i,
{
    if i < 0 || i >= s.len() {
        finished(current)
    } else {
        proof {
            pieces_advance(s, i);
        }
        let end = piece_at(s, i).1;
        match piece_at(s, i).0 {
            Piece::Kept => statements_from(s, end, current + s.subrange(i, end)),
            Piece::Dropped => statements_from(s, end, current),
            Piece::End => finished(current) + statements_from(s, end, Seq::empty()),
        }
    }
}

/// The statements of a script: the texts between semicolons, without comments
/// and without the white space around them. A semicolon within a dollar-quoted
/// block ends nothing.
pub open spec fn statements(s: Seq<char>) -> Seq<Seq<char>> {
    statements_from(s, 0, Seq::empty())
}

/// A dollar-quoted block belongs to its statement as a whole, whatever
/// semicolons it holds.
pub proof fn dollar_blocks_are_kept_whole(s: Seq<char>, i: int, current: Seq<char>)
    requires
        0 <= i < s.len(),
        s[i] == '$',
        block_end(s, i) is Some,
    ensures
        statements_from(s, i, current) == statements_from(
            s,
            block_end(s, i)->0,
            current + s.subrange(i, block_end(s, i)->0),
        ),
{
}

/// A comment leaves the statement at hand as it is.
pub proof fn comments_are_dropped(s: Seq<char>, i: int, current: Seq<char>)
    requires
        0 <= i,
        i + 1 < s.len(),
        (s[i] == '-' && s[i + 1] == '-') || (s[i] == '/' && s[i + 1] == '*'),
    ensures
        statements_from(s, i, current) == statements_from(s, piece_at(s, i).1, current),
{
}

proof fn trim_front_keeps_no_white(s: Seq<char>)
    ensures
        trim_front(s).len() > 0 ==> !is_white(trim_front(s)[0]),
    decreases s.len(),
{
    if s.len() > 0 && is_white(s[0]) {
        trim_front_keeps_no_white(s.drop_first());
    }
}

proof fn trim_back_keeps_the_front(s: Seq<char>)
    ensures
        trim_back(s).len() > 0 ==> trim_back(s)[0] == s[0] && !is_white(trim_back(s).last()),
    decreases s.len(),
{
    if s.len() > 0 && is_white(s.last()) {
        trim_back_keeps_the_front(s.drop_last());
    }
}

/// Whether a statement is one that can be run: not empty, with no white space
/// around it.
pub open spec fn is_clean(statement: Seq<char>) -> bool {
    statement.len() > 0 && !is_white(statement[0]) && !is_white(statement.last())
}

/// No statement is empty or has white space around it.
pub proof fn statements_are_clean(s: Seq<char>, i: int, current: Seq<char>, k: int)
    requires
        0 <= k < statements_from(s, i, current).len(),
    ensures
        is_clean(statements_from(s, i, current)[k]),
    decreases s.len() - i,
{
    trim_front_keeps_no_white(current);
    trim_back_keeps_the_front(trim_front(current));
    if 0 <= i < s.len() {
        pieces_advance(s, i);
        let end = piece_at(s, i).1;
        match piece_at(s, i).0 {
            Piece::Kept => statements_are_clean(s, end, current + s.subrange(i, end), k),
            Piece::Dropped => statements_are_clean(s, end, current, k),
            Piece::End => {
                let before = finished(current).len();
                if k >= before {
                    statements_are_clean(s, end, Seq::empty(), k - before);
                }
            },
        }
    }
}

/// Whether a text is what stands in a script at some places, read in order and
/// each at most once.
pub open spec fn is_read_at(text: Seq<char>, s: Seq<char>, places: Seq<int>) -> bool {
    &&& places.len() == text.len()
    &&& forall|k: int|
        0 <= k < text.len() ==> 0 <= #[trigger] places[k] < s.len() && s[places[k]] == text[k]
    &&& forall|k: int, l: int|
        0 <= k < l < text.len() ==> #[trigger] places[k] < #[trigger] places[l]
}

proof fn trim_front_is_a_part(s: Seq<char>) -> (from: int)
    ensures
        0 <= from <= s.len(),
        trim_front(s) == s.skip(from),
    decreases s.len(),
{
    if s.len() > 0 && is_white(s[0]) {
        let from = trim_front_is_a_part(s.drop_first());
        assert(s.drop_first().skip(from) =~= s.skip(from + 1));
        from + 1
    } else {
        assert(s.skip(0) =~= s);
        0
    }
}

proof fn trim_back_is_a_part(s: Seq<char>) -> (to: int)
    ensures
        0 <= to <= s.len(),
        trim_back(s) == s.take(to),
    decreases s.len(),
{
    if s.len() > 0 && is_white(s.last()) {
        let to = trim_back_is_a_part(s.drop_last());
        assert(s.drop_last().take(to) =~= s.take(to));
        to
    } else {
        assert(s.take(s.len() as int) =~= s);
        s.len() as int
    }
}

proof fn one_text_is_flat(text: Seq<char>)
    ensures
        seq![text].flatten() == text,
{
    assert(seq![text].drop_first() =~= Seq::empty());
    assert(seq![text].flatten() =~= text + seq![text].drop_first().flatten());
}

/// Where a finished statement is read, `places` being where `current` is.
proof fn a_finished_statement_is_read(
    s: Seq<char>,
    current: Seq<char>,
    places: Seq<int>,
) -> (r: Seq<int>)
    requires
        is_read_at(current, s, places),
    ensures
        is_read_at(finished(current).flatten(), s, r),
        forall|k: int| 0 <= k < r.len() ==> places.contains(#[trigger] r[k]),
{
    let from = trim_front_is_a_part(current);
    let to = trim_back_is_a_part(trim_front(current));
    let r = places.skip(from).take(to);
    let text = trimmed(current);
    assert(text =~= current.skip(from).take(to));
    assert(finished(current).flatten() =~= text) by {
        if text.len() > 0 {
            one_text_is_flat(text);
        }
    }
    assert forall|k: int| 0 <= k < r.len() implies places.contains(#[trigger] r[k]) by {
        assert(r[k] == places[from + k]);
    }
    assert forall|k: int, l: int| 0 <= k < l < text.len() implies #[trigger] r[k]
        < #[trigger] r[l] by {
        assert(r[k] == places[from + k] && r[l] == places[from + l]);
    }
    r
}

proof fn statements_are_read_from(
    s: Seq<char>,
    i: int,
    current: Seq<char>,
    places: Seq<int>,
    low: int,
) -> (r: Seq<int>)
    requires
        0 <= low <= i <= s.len(),
        is_read_at(current, s, places),
        forall|k: int| 0 <= k < places.len() ==> low <= #[trigger] places[k] < i,
    ensures
        is_read_at(statements_from(s, i, current).flatten(), s, r),
        forall|k: int| 0 <= k < r.len() ==> low <= #[trigger] r[k],
    decreases s.len() - i,
{
    if i >= s.len() {
        a_finished_statement_is_read(s, current, places)
    } else {
        pieces_advance(s, i);
        let end = piece_at(s, i).1;
        match piece_at(s, i).0 {
            Piece::Kept => {
                let more = places + Seq::new((end - i) as nat, |k: int| i + k);
                statements_are_read_from(s, end, current + s.subrange(i, end), more, low)
            },
            Piece::Dropped => statements_are_read_from(s, end, current, places, low),
            Piece::End => {
                let a = a_finished_statement_is_read(s, current, places);
                let b = statements_are_read_from(s, end, Seq::empty(), Seq::empty(), end);
                let rest = statements_from(s, end, Seq::empty());
                let all = finished(current) + rest;
                assert(all.flatten() =~= finished(current).flatten() + rest.flatten()) by {
                    if finished(current).len() == 0 {
                        assert(all =~= rest);
                        assert(finished(current).flatten() =~= Seq::empty());
                    } else {
                        assert(all.drop_first() =~= rest);
                        one_text_is_flat(trimmed(current));
                    }
                }
                assert forall|k: int| 0 <= k < a.len() implies low <= #[trigger] a[k] < i by {
                    assert(places.contains(a[k]));
                }
                a + b
            },
        }
    }
}

/// The statements of a script, one after the other, are read from the script in
/// its order, no character twice: nothing is added, moved or repeated.
pub proof fn statements_are_read_from_the_script(s: Seq<char>)
    ensures
        exists|places: Seq<int>| is_read_at(statements(s).flatten(), s, places),
{
    let places = statements_are_read_from(s, 0, Seq::empty(), Seq::empty(), 0);
    assert(is_read_at(statements(s).flatten(), s, places));
}

/// Whether the piece of a script that starts at `i` ends with an end of its own:
/// a dollar-quoted block with its second tag, a line comment with its line and a
/// block comment with its `*/`.
pub open spec fn is_closed_piece(s: Seq<char>, i: int) -> bool {
    if s[i] == '$' {
        block_end(s, i) is Some
    } else if i + 1 < s.len() && s[i] == '-' && s[i + 1] == '-' {
        find_char(s, '\n', i) is Some
    } else if i + 1 < s.len() && s[i] == '/' && s[i + 1] == '*' {
        find_word(s, seq!['*', '/'], i + 2) is Some
    } else {
        true
    }
}

/// Whether a script leaves no block and no comment open, from `i` on.
pub open spec fn is_closed_from(s: Seq<char>, i: int) -> bool
    decreases s.len() - i,
{
    if i < 0 || i >= s.len() {
        true
    } else {
        proof {
            pieces_advance(s, i);
        }
        is_closed_piece(s, i) && is_closed_from(s, piece_at(s, i).1)
    }
}

/// Whether a script leaves no block and no comment open.
pub open spec fn is_closed(s: Seq<char>) -> bool {
    is_closed_from(s, 0)
}

proof fn find_char_in_front(s: Seq<char>, more: Seq<char>, c: char, from: int)
    requires
        0 <= from,
        find_char(s, c, from) is Some,
    ensures
        find_char(s + more, c, from) == find_char(s, c, from),
    decreases s.len() - from,
{
    if s[from] != c {
        find_char_in_front(s, more, c, from + 1);
    }
}

proof fn find_word_in_front(s: Seq<char>, more: Seq<char>, word: Seq<char>, from: int)
    requires
        0 <= from,
        find_word(s, word, from) is Some,
    ensures
        find_word(s + more, word, from) == find_word(s, word, from),
    decreases s.len() - from,
{
    assert((s + more).subrange(from, from + word.len()) =~= s.subrange(from, from + word.len()));
    if !stands_at(s, word, from) {
        find_word_in_front(s, more, word, from + 1);
    }
}

proof fn a_closed_piece_stays(s: Seq<char>, more: Seq<char>, i: int)
    requires
        0 <= i < s.len(),
        is_closed_piece(s, i),
        more.len() > 0,
        more[0] == ';',
    ensures
        piece_at(s + more, i) == piece_at(s, i),
{
    if s[i] == '$' {
        let j = find_char(s, '$', i + 1)->0;
        find_char_bounds(s, '$', i + 1);
        find_char_in_front(s, more, '$', i + 1);
        let tag = s.subrange(i, j + 1);
        assert((s + more).subrange(i, j + 1) =~= tag);
        find_word_in_front(s, more, tag, j + 1);
    } else if i + 1 < s.len() && s[i] == '-' && s[i + 1] == '-' {
        find_char_in_front(s, more, '\n', i);
    } else if i + 1 < s.len() && s[i] == '/' && s[i + 1] == '*' {
        find_word_in_front(s, more, seq!['*', '/'], i + 2);
    } else if i + 1 == s.len() {
        assert((s + more)[i + 1] == ';');
    }
}

spec fn moved(found: Option<int>, by: int) -> Option<int> {
    match found {
        Some(j) => Some(j + by),
        None => None,
    }
}

proof fn find_char_behind(front: Seq<char>, s: Seq<char>, c: char, from: int)
    requires
        0 <= from,
    ensures
        find_char(front + s, c, front.len() + from) == moved(
            find_char(s, c, from),
            front.len() as int,
        ),
    decreases s.len() - from,
{
    if from < s.len() {
        find_char_behind(front, s, c, from + 1);
    }
}

proof fn find_word_behind(front: Seq<char>, s: Seq<char>, word: Seq<char>, from: int)
    requires
        0 <= from,
    ensures
        find_word(front + s, word, front.len() + from) == moved(
            find_word(s, word, from),
            front.len() as int,
        ),
    decreases s.len() - from,
{
    let n = front.len() as int;
    if from + word.len() <= s.len() {
        assert((front + s).subrange(n + from, n + from + word.len()) =~= s.subrange(
            from,
            from + word.len(),
        ));
        if from < s.len() {
            find_word_behind(front, s, word, from + 1);
        }
    }
}

proof fn a_piece_stands_behind(front: Seq<char>, s: Seq<char>, i: int)
    requires
        0 <= i < s.len(),
    ensures
        piece_at(front + s, front.len() + i) == (
            piece_at(s, i).0,
            front.len() + piece_at(s, i).1,
        ),
{
    let n = front.len() as int;
    find_char_bounds(s, '$', i + 1);
    find_char_behind(front, s, '$', i + 1);
    if let Some(j) = find_char(s, '$', i + 1) {
        let tag = s.subrange(i, j + 1);
        assert((front + s).subrange(n + i, n + j + 1) =~= tag);
        find_word_behind(front, s, tag, j + 1);
    }
    find_char_behind(front, s, '\n', i);
    find_word_behind(front, s, seq!['*', '/'], i + 2);
    assert((front + s)[n + i] == s[i]);
    if i + 1 < s.len() {
        assert((front + s)[n + i + 1] == s[i + 1]);
    }
}

proof fn statements_stand_behind(front: Seq<char>, s: Seq<char>, i: int, current: Seq<char>)
    requires
        0 <= i <= s.len(),
    ensures
        statements_from(front + s, front.len() + i, current) == statements_from(s, i, current),
    decreases s.len() - i,
{
    if i < s.len() {
        let n = front.len() as int;
        a_piece_stands_behind(front, s, i);
        pieces_advance(s, i);
        let end = piece_at(s, i).1;
        assert((front + s).subrange(n + i, n + end) =~= s.subrange(i, end));
        match piece_at(s, i).0 {
            Piece::Kept => statements_stand_behind(front, s, end, current + s.subrange(i, end)),
            Piece::Dropped => statements_stand_behind(front, s, end, current),
            Piece::End => statements_stand_behind(front, s, end, Seq::empty()),
        }
    }
}

proof fn statements_join_from(s: Seq<char>, more: Seq<char>, i: int, current: Seq<char>)
    requires
        0 <= i <= s.len(),
        is_closed_from(s, i),
    ensures
        statements_from(s + (seq![';'] + more), i, current) == statements_from(s, i, current)
            + statements(more),
    decreases s.len() - i,
{
    let tail = seq![';'] + more;
    let all = s + tail;
    if i == s.len() {
        assert(all[i] == ';');
        let front = s.push(';');
        assert(all =~= front + more);
        statements_stand_behind(front, more, 0, Seq::empty());
        assert(piece_at(all, i) == (Piece::End, i + 1));
    } else {
        a_closed_piece_stays(s, tail, i);
        pieces_advance(s, i);
        let end = piece_at(s, i).1;
        assert(all.subrange(i, end) =~= s.subrange(i, end));
        match piece_at(s, i).0 {
            Piece::Kept => statements_join_from(s, more, end, current + s.subrange(i, end)),
            Piece::Dropped => statements_join_from(s, more, end, current),
            Piece::End => {
                statements_join_from(s, more, end, Seq::empty());
                let rest = statements_from(s, end, Seq::empty());
                assert(finished(current) + (rest + statements(more)) =~= (finished(current) + rest)
                    + statements(more));
            },
        }
    }
}

/// The statements of two scripts that a semicolon joins are those of the first
/// and then those of the second, where the first leaves no block and no comment
/// open.
pub proof fn joined_scripts_have_the_statements_of_both(s: Seq<char>, more: Seq<char>)
    requires
        is_closed(s),
    ensures
        statements(s + seq![';'] + more) == statements(s) + statements(more),
{
    statements_join_from(s, more, 0, Seq::empty());
    assert(s + seq![';'] + more =~= s + (seq![';'] + more));
}

/// Whether the character at `k` is one of a statement by itself: it ends none, and
/// no block and no comment starts with it.
pub open spec fn is_ordinary(s: Seq<char>, k: int) -> bool {
    &&& s[k] != '$'
    &&& s[k] != ';'
    &&& !(s[k] == '-' && k + 1 < s.len() && s[k + 1] == '-')
    &&& !(s[k] == '/' && k + 1 < s.len() && s[k + 1] == '*')
}

proof fn ordinary_characters_are_kept(s: Seq<char>, i: int, n: int, current: Seq<char>)
    requires
        0 <= i <= n <= s.len(),
        forall|k: int| i <= k < n ==> #[trigger] is_ordinary(s, k),
    ensures
        statements_from(s, i, current) == statements_from(s, n, current + s.subrange(i, n)),
    decreases n - i,
{
    if i < n {
        assert(is_ordinary(s, i));
        ordinary_characters_are_kept(s, i + 1, n, current + s.subrange(i, i + 1));
        assert(current + s.subrange(i, i + 1) + s.subrange(i + 1, n) =~= current + s.subrange(
            i,
            n,
        ));
    } else {
        assert(current + s.subrange(i, n) =~= current);
    }
}

/// A script of ordinary characters is one statement, without the white space
/// around it, or none where there is nothing else.
pub proof fn an_ordinary_script_is_one_statement(s: Seq<char>)
    requires
        forall|k: int| 0 <= k < s.len() ==> #[trigger] is_ordinary(s, k),
    ensures
        statements(s) == if trimmed(s).len() == 0 {
            Seq::<Seq<char>>::empty()
        } else {
            seq![trimmed(s)]
        },
{
    ordinary_characters_are_kept(s, 0, s.len() as int, Seq::empty());
    assert(Seq::<char>::empty() + s.subrange(0, s.len() as int) =~= s);
}

/// What is left of a text without the white space around it: a part of it with
/// nothing but white space before and behind, which neither starts nor ends with
/// any.
pub proof fn a_trimmed_text_is_what_stands_between_white_space(s: Seq<char>) -> (ends: (int, int))
    ensures
        0 <= ends.0 <= ends.1 <= s.len(),
        trimmed(s) == s.subrange(ends.0, ends.1),
        forall|k: int| 0 <= k < ends.0 ==> is_white(#[trigger] s[k]),
        forall|k: int| ends.1 <= k < s.len() ==> is_white(#[trigger] s[k]),
        trimmed(s).len() > 0 ==> !is_white(trimmed(s)[0]) && !is_white(trimmed(s).last()),
{
    let from = front_ends(s);
    let rest = trim_front(s);
    let to = back_starts(rest);
    assert(trimmed(s) =~= s.subrange(from, from + to));
    assert forall|k: int| from + to <= k < s.len() implies is_white(#[trigger] s[k]) by {
        assert(rest[k - from] == s[k]);
    }
    trim_back_keeps_the_front(rest);
    trim_front_keeps_no_white(s);
    (from, from + to)
}

proof fn front_ends(s: Seq<char>) -> (from: int)
    ensures
        0 <= from <= s.len(),
        trim_front(s) == s.subrange(from, s.len() as int),
        forall|k: int| 0 <= k < from ==> is_white(#[trigger] s[k]),
    decreases s.len(),
{
    if s.len() > 0 && is_white(s[0]) {
        let rest = s.drop_first();
        let from = front_ends(rest);
        assert(trim_front(s) =~= s.subrange(from + 1, s.len() as int));
        assert forall|k: int| 0 <= k < from + 1 implies is_white(#[trigger] s[k]) by {
            if k > 0 {
                assert(rest[k - 1] == s[k]);
            }
        }
        from + 1
    } else {
        assert(s.subrange(0, s.len() as int) =~= s);
        0
    }
}

proof fn back_starts(s: Seq<char>) -> (to: int)
    ensures
        0 <= to <= s.len(),
        trim_back(s) == s.subrange(0, to),
        forall|k: int| to <= k < s.len() ==> is_white(#[trigger] s[k]),
    decreases s.len(),
{
    if s.len() > 0 && is_white(s.last()) {
        let rest = s.drop_last();
        let to = back_starts(rest);
        assert(trim_back(s) =~= s.subrange(0, to));
        assert forall|k: int| to <= k < s.len() implies is_white(#[trigger] s[k]) by {
            if k < rest.len() {
                assert(rest[k] == s[k]);
            }
        }
        to
    } else {
        assert(s.subrange(0, s.len() as int) =~= s);
        s.len() as int
    }
}

/// Whether a text is of ordinary characters, and stays so whatever follows.
pub open spec fn is_ordinary_front(front: Seq<char>) -> bool {
    &&& forall|k: int| 0 <= k < front.len() ==> #[trigger] is_ordinary(front, k)
    &&& front.len() > 0 ==> front.last() != '-' && front.last() != '/'
}

proof fn an_ordinary_front_is_kept(front: Seq<char>, rest: Seq<char>)
    requires
        is_ordinary_front(front),
    ensures
        statements(front + rest) == statements_from(front + rest, front.len() as int, front),
        statements(front + rest) == statements_from(rest, 0, front),
{
    let s = front + rest;
    let n = front.len() as int;
    assert forall|k: int| 0 <= k < n implies #[trigger] is_ordinary(s, k) by {
        assert(is_ordinary(front, k));
        assert(s[k] == front[k]);
        if k + 1 < n {
            assert(s[k + 1] == front[k + 1]);
        }
    }
    ordinary_characters_are_kept(s, 0, n, Seq::empty());
    assert(Seq::<char>::empty() + s.subrange(0, n) =~= front);
    statements_stand_behind(front, rest, 0, front);
}

/// A comment from two hyphens to the end of its line changes no statement.
pub proof fn a_line_comment_changes_nothing(
    front: Seq<char>,
    comment: Seq<char>,
    rest: Seq<char>,
)
    requires
        is_ordinary_front(front),
        !comment.contains('\n'),
        rest.len() > 0 ==> rest[0] == '\n',
    ensures
        statements(front + (seq!['-', '-'] + comment + rest)) == statements(front + rest),
{
    let before = front + (seq!['-', '-'] + comment);
    let s = before + rest;
    let n = front.len() as int;
    let end = before.len() as int;
    assert(s =~= front + (seq!['-', '-'] + comment + rest));
    an_ordinary_front_is_kept(front, seq!['-', '-'] + comment + rest);
    an_ordinary_front_is_kept(front, rest);
    assert(s[n] == '-' && s[n + 1] == '-');
    find_char_bounds(s, '\n', n);
    assert forall|k: int| n <= k < end implies s[k] != '\n' by {
        if k >= n + 2 {
            assert(s[k] == comment[k - n - 2]);
            assert(comment.contains(comment[k - n - 2]));
        }
    }
    if rest.len() > 0 {
        assert(s[end] == '\n');
    }
    assert(line_end(s, n) == end);
    statements_stand_behind(before, rest, 0, front);
}

proof fn a_comment_ends_behind_its_first_close(
    s: Seq<char>,
    close: Seq<char>,
    from: int,
    at: int,
)
    requires
        close == seq!['*', '/'],
        0 <= from <= at,
        stands_at(s, close, at),
        forall|k: int| from <= k < at ==> !#[trigger] stands_at(s, close, k),
    ensures
        comment_end(s, from) == at + 2,
{
    find_word_bounds(s, close, from);
}

proof fn a_closed_comment(front: Seq<char>, comment: Seq<char>, rest: Seq<char>)
    requires
        !has_word(comment + seq!['*'], seq!['*', '/']),
    ensures
        ({
            let s = front + comment + seq!['*', '/'] + rest;
            comment_end(s, front.len() as int) == front.len() + comment.len() + 2
        }),
{
    let word = seq!['*', '/'];
    let s = front + comment + word + rest;
    let n = front.len() as int;
    let at = n + comment.len();
    assert(s.subrange(at, at + 2) =~= word);
    assert forall|k: int| n <= k < at implies !#[trigger] stands_at(s, word, k) by {
        let open = comment + seq!['*'];
        assert(open.subrange(k - n, k - n + 2) =~= s.subrange(k, k + 2));
        assert(!stands_at(open, word, k - n));
    }
    a_comment_ends_behind_its_first_close(s, word, n, at);
}

/// A comment from `/*` to the first `*/` changes no statement.
pub proof fn a_block_comment_changes_nothing(
    front: Seq<char>,
    comment: Seq<char>,
    rest: Seq<char>,
)
    requires
        is_ordinary_front(front),
        !has_word(comment + seq!['*'], seq!['*', '/']),
    ensures
        statements(front + (seq!['/', '*'] + comment + seq!['*', '/'] + rest)) == statements(
            front + rest,
        ),
{
    let opened = front + seq!['/', '*'];
    let before = opened + comment + seq!['*', '/'];
    let s = before + rest;
    let n = front.len() as int;
    assert(s =~= front + (seq!['/', '*'] + comment + seq!['*', '/'] + rest));
    an_ordinary_front_is_kept(front, seq!['/', '*'] + comment + seq!['*', '/'] + rest);
    an_ordinary_front_is_kept(front, rest);
    assert(s[n] == '/' && s[n + 1] == '*');
    a_closed_comment(opened, comment, rest);
    statements_stand_behind(before, rest, 0, front);
}

proof fn a_block_ends_behind_its_second_quote(s: Seq<char>, n: int, m: int, at: int)
    requires
        0 <= n,
        2 <= m,
        n + m <= at,
        at + m <= s.len(),
        forall|k: int| n + 1 <= k < n + m - 1 ==> #[trigger] s[k] != '$',
        s[n + m - 1] == '$',
        stands_at(s, s.subrange(n, n + m), at),
        forall|k: int| n + m <= k < at ==> !#[trigger] stands_at(s, s.subrange(n, n + m), k),
    ensures
        block_end(s, n) == Some(at + m),
{
    find_char_bounds(s, '$', n + 1);
    find_word_bounds(s, s.subrange(n, n + m), n + m);
}

proof fn a_closed_block(front: Seq<char>, tag: Seq<char>, body: Seq<char>, rest: Seq<char>)
    requires
        !tag.contains('$'),
        is_closed_only_at_its_end(tag, body),
    ensures
        ({
            let s = front + quote(tag) + body + quote(tag) + rest;
            &&& s[front.len() as int] == '$'
            &&& block_end(s, front.len() as int) == Some(s.len() - rest.len())
        }),
{
    let q = quote(tag);
    let s = front + q + body + q + rest;
    let n = front.len() as int;
    let m = q.len() as int;
    let at = n + m + body.len();
    assert(s.subrange(n, n + m) =~= q);
    assert(s.subrange(at, at + m) =~= q);
    assert forall|k: int| n + 1 <= k < n + m - 1 implies #[trigger] s[k] != '$' by {
        assert(s[k] == tag[k - n - 1]);
        assert(tag.contains(tag[k - n - 1]));
    }
    assert forall|k: int| n + m <= k < at implies !#[trigger] stands_at(s, q, k) by {
        let closed = body + q;
        assert(closed.subrange(k - n - m, k - n) =~= s.subrange(k, k + m));
        assert(!stands_at(closed, q, k - n - m));
    }
    a_block_ends_behind_its_second_quote(s, n, m, at);
}

/// What a dollar-quoted block starts and ends with.
pub open spec fn quote(tag: Seq<char>) -> Seq<char> {
    seq!['$'] + tag + seq!['$']
}

/// Whether a text is followed by the quote before it holds the quote itself.
pub open spec fn is_closed_only_at_its_end(tag: Seq<char>, body: Seq<char>) -> bool {
    forall|k: int| 0 <= k < body.len() ==> !#[trigger] stands_at(body + quote(tag), quote(tag), k)
}

/// A dollar-quoted block belongs to its statement as it stands, whatever it
/// holds: with ordinary characters around it, it makes one statement.
pub proof fn a_dollar_block_is_one_statement(
    front: Seq<char>,
    tag: Seq<char>,
    body: Seq<char>,
    rest: Seq<char>,
)
    requires
        is_ordinary_front(front),
        !tag.contains('$'),
        is_closed_only_at_its_end(tag, body),
        forall|k: int| 0 <= k < rest.len() ==> #[trigger] is_ordinary(rest, k),
    ensures
        ({
            let statement = front + quote(tag) + body + quote(tag) + rest;
            statements(statement) == seq![trimmed(statement)]
        }),
{
    let before = front + quote(tag) + body + quote(tag);
    let block = quote(tag) + body + quote(tag);
    let s = before + rest;
    let n = front.len() as int;
    assert(s =~= front + (block + rest));
    an_ordinary_front_is_kept(front, block + rest);
    a_closed_block(front, tag, body, rest);
    assert(s.subrange(n, before.len() as int) =~= block);
    assert(front + block =~= before);
    statements_stand_behind(before, rest, 0, before);
    ordinary_characters_are_kept(rest, 0, rest.len() as int, before);
    assert(before + rest.subrange(0, rest.len() as int) =~= s);
    let ends = a_trimmed_text_is_what_stands_between_white_space(s);
    if trimmed(s).len() == 0 {
        assert(is_white(s[n]));
    }
}

/// A dollar that starts no block is an ordinary character.
pub proof fn a_single_dollar_is_kept(front: Seq<char>, rest: Seq<char>)
    requires
        is_ordinary_front(front),
        !rest.contains('$'),
        forall|k: int| 0 <= k < rest.len() ==> #[trigger] is_ordinary(rest, k),
    ensures
        statements(front + seq!['$'] + rest) == seq![trimmed(front + seq!['$'] + rest)],
{
    let before = front + seq!['$'];
    let s = before + rest;
    let n = front.len() as int;
    assert(s =~= front + (seq!['$'] + rest));
    an_ordinary_front_is_kept(front, seq!['$'] + rest);
    assert(s[n] == '$');
    find_char_bounds(s, '$', n + 1);
    assert forall|k: int| n + 1 <= k < s.len() implies s[k] != '$' by {
        assert(s[k] == rest[k - n - 1]);
        assert(rest.contains(rest[k - n - 1]));
    }
    assert(front + s.subrange(n, n + 1) =~= before);
    statements_stand_behind(before, rest, 0, before);
    ordinary_characters_are_kept(rest, 0, rest.len() as int, before);
    assert(before + rest.subrange(0, rest.len() as int) =~= s);
    let ends = a_trimmed_text_is_what_stands_between_white_space(s);
    if trimmed(s).len() == 0 {
        assert(is_white(s[n]));
    }
}

/// A block comment that is not closed hides everything behind it but the last
/// character of the script.
pub proof fn an_open_comment_hides_all_but_the_last_character(
    front: Seq<char>,
    comment: Seq<char>,
    last: char,
)
    requires
        is_ordinary_front(front),
        !has_word(comment + seq![last], seq!['*', '/']),
        last != '$',
        last != ';',
    ensures
        statements(front + seq!['/', '*'] + comment + seq![last]) == statements(
            front + seq![last],
        ),
{
    let opened = front + seq!['/', '*'];
    let before = opened + comment;
    let s = before + seq![last];
    let n = front.len() as int;
    let word = seq!['*', '/'];
    assert(s =~= front + (seq!['/', '*'] + comment + seq![last]));
    an_ordinary_front_is_kept(front, seq!['/', '*'] + comment + seq![last]);
    an_ordinary_front_is_kept(front, seq![last]);
    assert(s[n] == '/' && s[n + 1] == '*');
    nothing_closes(opened, comment + seq![last]);
    assert(s =~= opened + (comment + seq![last]));
    if comment.len() > 0 {
        assert(comment_end(s, n + 2) == before.len());
        statements_stand_behind(before, seq![last], 0, front);
    } else {
        assert(comment_end(s, n + 2) == before.len());
        statements_stand_behind(before, seq![last], 0, front);
    }
}

proof fn nothing_closes(front: Seq<char>, rest: Seq<char>)
    requires
        !has_word(rest, seq!['*', '/']),
    ensures
        find_word(front + rest, seq!['*', '/'], front.len() as int) is None,
{
    let s = front + rest;
    let n = front.len() as int;
    let word = seq!['*', '/'];
    find_word_bounds(s, word, n);
    if let Some(j) = find_word(s, word, n) {
        assert(rest.subrange(j - n, j - n + 2) =~= s.subrange(j, j + 2));
        assert(stands_at(rest, word, j - n));
    }
}

/// A script without a dollar, a `--` and a `/*` leaves nothing open.
pub proof fn a_plain_script_is_closed(s: Seq<char>)
    requires
        !s.contains('$'),
        !has_word(s, seq!['-', '-']),
        !has_word(s, seq!['/', '*']),
    ensures
        is_closed(s),
{
    a_plain_script_is_closed_from(s, 0);
}

proof fn a_plain_script_is_closed_from(s: Seq<char>, i: int)
    requires
        !s.contains('$'),
        !has_word(s, seq!['-', '-']),
        !has_word(s, seq!['/', '*']),
        0 <= i,
    ensures
        is_closed_from(s, i),
    decreases s.len() - i,
{
    if i < s.len() {
        assert(s.contains(s[i]));
        if i + 1 < s.len() {
            let two = s.subrange(i, i + 2);
            assert(two =~= seq![s[i], s[i + 1]]);
            assert(!stands_at(s, seq!['-', '-'], i));
            assert(!stands_at(s, seq!['/', '*'], i));
        }
        pieces_advance(s, i);
        a_plain_script_is_closed_from(s, piece_at(s, i).1);
    }
}

fn characters(text: &str) -> (r: Vec<char>)
    ensures
        r@ == text@,
{
    let mut out: Vec<char> = Vec::new();
    for c in iter: text.chars()
        invariant
            out@ == iter.seq().take(iter.index() as int),
            iter.seq() == text@,
    {
        out.push(c);
        assert(iter.seq().take(iter.index() as int + 1) =~= iter.seq().take(
            iter.index() as int,
        ).push(c));
    }
    assert(text@.take(text@.len() as int) =~= text@);
    out
}

fn position_of(s: &Vec<char>, c: char, from: usize) -> (r: Option<usize>)
    ensures
        match r {
            Some(j) => find_char(s@, c, from as int) == Some(j as int) && j < s.len(),
            None => find_char(s@, c, from as int) is None,
        },
{
    let mut i: usize = from;
    while i < s.len()
        invariant
            from <= i,
            find_char(s@, c, from as int) == find_char(s@, c, i as int),
        decreases s.len() - i,
    {
        if s[i] == c {
            return Some(i);
        }
        i = i + 1;
    }
    None
}

/// Whether the characters of `s` from `from` up to `to` stand at `at`.
fn repeats(s: &Vec<char>, from: usize, to: usize, at: usize) -> (r: bool)
    requires
        from <= to <= s.len(),
        at + (to - from) <= s.len(),
    ensures
        r == stands_at(s@, s@.subrange(from as int, to as int), at as int),
{
    let n: usize = to - from;
    let ghost word = s@.subrange(from as int, to as int);
    let mut i: usize = 0;
    while i < n
        invariant
            i <= n,
            n == to - from,
            from <= to <= s.len(),
            at + n <= s.len(),
            word == s@.subrange(from as int, to as int),
            forall|k: int| 0 <= k < i ==> s@[at + k] == word[k],
        decreases n - i,
    {
        if s[at + i] != s[from + i] {
            assert(s@.subrange(at as int, at + n)[i as int] != word[i as int]);
            return false;
        }
        i = i + 1;
    }
    assert(s@.subrange(at as int, at + n) =~= word);
    true
}

fn position_of_repeat(s: &Vec<char>, from: usize, to: usize, start: usize) -> (r: Option<usize>)
    requires
        from < to <= s.len(),
        start <= s.len(),
    ensures
        match r {
            Some(k) => find_word(s@, s@.subrange(from as int, to as int), start as int) == Some(
                k as int,
            ) && k + (to - from) <= s.len(),
            None => find_word(s@, s@.subrange(from as int, to as int), start as int) is None,
        },
{
    let n: usize = to - from;
    let ghost word = s@.subrange(from as int, to as int);
    let mut k: usize = start;
    while k <= s.len() && n <= s.len() - k
        invariant
            from < to <= s.len(),
            n == to - from,
            start <= k <= s.len(),
            word == s@.subrange(from as int, to as int),
            find_word(s@, word, start as int) == find_word(s@, word, k as int),
        decreases s.len() - k,
    {
        if repeats(s, from, to, k) {
            return Some(k);
        }
        k = k + 1;
    }
    None
}

fn end_of_block(s: &Vec<char>, i: usize) -> (r: Option<usize>)
    requires
        i < s.len(),
    ensures
        match r {
            Some(j) => block_end(s@, i as int) == Some(j as int) && j <= s.len(),
            None => block_end(s@, i as int) is None,
        },
{
    match position_of(s, '$', i + 1) {
        None => None,
        Some(j) => {
            proof {
                find_char_bounds(s@, '$', i + 1);
            }
            match position_of_repeat(s, i, j + 1, j + 1) {
                None => None,
                Some(k) => Some(k + (j + 1 - i)),
            }
        },
    }
}

fn end_of_comment(s: &Vec<char>, start: usize) -> (r: usize)
    requires
        start <= s.len(),
    ensures
        r == comment_end(s@, start as int),
{
    let ghost close: Seq<char> = seq!['*', '/'];
    let mut i: usize = start;
    while i < s.len() && 1 < s.len() - i
        invariant
            start <= i <= s.len(),
            i > start ==> i < s.len(),
            close == seq!['*', '/'],
            find_word(s@, close, start as int) == find_word(s@, close, i as int),
        decreases s.len() - i,
    {
        assert(s@.subrange(i as int, i + 2) =~= seq![s@[i as int], s@[i + 1]]);
        if s[i] == '*' && s[i + 1] == '/' {
            assert(stands_at(s@, close, i as int));
            return i + 2;
        }
        assert(!stands_at(s@, close, i as int)) by {
            assert(close[0] == '*' && close[1] == '/');
        }
        i = i + 1;
    }
    i
}

/// Appends the statement with the text `current`, unless only white space is left.
fn finish(out: &mut Vec<String>, current: &Vec<char>)
    ensures
        final(out).deep_view() == old(out).deep_view() + finished(current@),
{
    let mut lo: usize = 0;
    let mut hi: usize = current.len();
    assert(current@.subrange(0, hi as int) =~= current@);
    while lo < hi && white(current[lo])
        invariant
            lo <= hi,
            hi == current.len(),
            trim_front(current@) == trim_front(current@.subrange(lo as int, hi as int)),
        decreases hi - lo,
    {
        assert(current@.subrange(lo as int, hi as int).drop_first() =~= current@.subrange(
            lo + 1,
            hi as int,
        ));
        lo = lo + 1;
    }
    assert(trim_front(current@) == current@.subrange(lo as int, hi as int));
    while lo < hi && white(current[hi - 1])
        invariant
            lo <= hi <= current.len(),
            trimmed(current@) == trim_back(current@.subrange(lo as int, hi as int)),
        decreases hi - lo,
    {
        assert(current@.subrange(lo as int, hi as int).drop_last() =~= current@.subrange(
            lo as int,
            hi - 1,
        ));
        hi = hi - 1;
    }
    assert(trimmed(current@) == current@.subrange(lo as int, hi as int));
    if lo < hi {
        let mut statement = String::new();
        let mut i: usize = lo;
        while i < hi
            invariant
                lo <= i <= hi <= current.len(),
                statement@ == current@.subrange(lo as int, i as int),
            decreases hi - i,
        {
            statement.push(current[i]);
            assert(current@.subrange(lo as int, i + 1) =~= current@.subrange(
                lo as int,
                i as int,
            ).push(current@[i as int]));
            i = i + 1;
        }
        out.push(statement);
        assert(out.deep_view() =~= old(out).deep_view() + finished(current@));
    } else {
        assert(finished(current@) =~= Seq::empty());
        assert(out.deep_view() =~= old(out).deep_view() + finished(current@));
    }
}

/// Splits a script into its statements.
pub fn split_sql_statements(sql: &str) -> (r: Vec<String>)
    ensures
        r.deep_view() == statements(sql@),
{
    let chars = characters(sql);
    let mut out: Vec<String> = Vec::new();
    let mut current: Vec<char> = Vec::new();
    let mut i: usize = 0;
    assert(out.deep_view() + statements_from(sql@, 0, Seq::empty()) =~= statements(sql@));
    while i < chars.len()
        invariant
            i <= chars.len(),
            chars@ == sql@,
            out.deep_view() + statements_from(sql@, i as int, current@) == statements(sql@),
        decreases chars.len() - i,
    {
        proof {
            pieces_advance(sql@, i as int);
        }
        if chars[i] == '$' {
            let end: usize = match end_of_block(&chars, i) {
                Some(j) => j,
                None => i + 1,
            };
            let ghost kept = current@;
            let start: usize = i;
            while i < end
                invariant
                    start <= i <= end <= chars.len(),
                    current@ == kept + chars@.subrange(start as int, i as int),
                decreases end - i,
            {
                current.push(chars[i]);
                assert(chars@.subrange(start as int, i + 1) =~= chars@.subrange(
                    start as int,
                    i as int,
                ).push(chars@[i as int]));
                i = i + 1;
            }
        } else if i < chars.len() - 1 && chars[i] == '-' && chars[i + 1] == '-' {
            i = match position_of(&chars, '\n', i) {
                Some(j) => j,
                None => chars.len(),
            };
        } else if i < chars.len() - 1 && chars[i] == '/' && chars[i + 1] == '*' {
            i = end_of_comment(&chars, i + 2);
        } else if chars[i] == ';' {
            let ghost before = out.deep_view();
            let ghost kept = current@;
            finish(&mut out, &current);
            current = Vec::new();
            i = i + 1;
            assert(current@ =~= Seq::empty());
            assert(out.deep_view() + statements_from(sql@, i as int, current@) =~= before + (
            finished(kept) + statements_from(sql@, i as int, Seq::empty())));
        } else {
            let ghost kept = current@;
            current.push(chars[i]);
            assert(current@ =~= kept + chars@.subrange(i as int, i + 1));
            i = i + 1;
        }
    }
    finish(&mut out, &current);
    out
}

} // verus!
