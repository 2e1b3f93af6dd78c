//! String helpers shared by the route, request, response and cookie modules:
//! splitting, searching, whitespace stripping, lower-casing and decimal
//! rendering, each specified against a mathematical model of the text.

use vstd::prelude::*;
use vstd::string::{StrSliceExecFns, StringExecFns};

verus! {

/// The views of a sequence of owned strings.
pub open spec fn seq_views(v: Seq<String>) -> Seq<Seq<char>> {
    Seq::new(v.len(), |i: int| v[i]@)
}

/// Splitting at every occurrence of `sep`, keeping empty pieces, so the
/// result always holds one more piece than `s` holds separators.
pub open spec fn spec_split(s: Seq<char>, sep: char) -> Seq<Seq<char>>
    decreases s.len(),
{
    if s.len() == 0 {
        seq![Seq::<char>::empty()]
    } else if s[0] == sep {
        seq![Seq::<char>::empty()] + spec_split(s.drop_first(), sep)
    } else {
        let rest = spec_split(s.drop_first(), sep);
        seq![seq![s[0]] + rest[0]] + rest.drop_first()
    }
}

pub proof fn lemma_split_len(s: Seq<char>, sep: char)
    ensures
        spec_split(s, sep).len() >= 1,
    decreases s.len(),
{
    if s.len() != 0 {
        lemma_split_len(s.drop_first(), sep);
    }
}

/// When `s` holds no separator at all, it is its own single piece.
pub proof fn lemma_split_no_sep(s: Seq<char>, sep: char)
    requires
        forall|k: int| 0 <= k < s.len() ==> s[k] != sep,
    ensures
        spec_split(s, sep) =~= seq![s],
    decreases s.len(),
{
    if s.len() == 0 {
        assert(s =~= Seq::<char>::empty());
        assert(spec_split(s, sep) == seq![Seq::<char>::empty()]);
        assert(spec_split(s, sep)[0] == s);
    } else {
        lemma_split_no_sep(s.drop_first(), sep);
        let rest = spec_split(s.drop_first(), sep);
        assert(rest =~= seq![s.drop_first()]);
        assert(rest[0] == s.drop_first());
        assert(seq![s[0]] + s.drop_first() =~= s);
        assert(rest.drop_first() =~= Seq::<Seq<char>>::empty());
        assert(spec_split(s, sep) == seq![seq![s[0]] + rest[0]] + rest.drop_first());
        assert(seq![seq![s[0]] + rest[0]] + rest.drop_first() =~= seq![s]);
    }
}

/// When the first separator stands at `j`, the first piece is everything
/// before it and the rest is the split of everything after it.
pub proof fn lemma_split_at_first_sep(s: Seq<char>, sep: char, j: int)
    requires
        0 <= j < s.len(),
        s[j] == sep,
        forall|k: int| 0 <= k < j ==> s[k] != sep,
    ensures
        spec_split(s, sep) =~= seq![s.take(j)] + spec_split(s.skip(j + 1), sep),
    decreases j,
{
    if j == 0 {
        assert(s.take(0) =~= Seq::<char>::empty());
        assert(s.skip(1) =~= s.drop_first());
    } else {
        lemma_split_at_first_sep(s.drop_first(), sep, j - 1);
        lemma_split_len(s.drop_first().skip(j), sep);
        assert(s.drop_first().take(j - 1) =~= s.take(j).drop_first());
        assert(s.drop_first().skip(j) =~= s.skip(j + 1));
        assert(seq![s[0]] + s.take(j).drop_first() =~= s.take(j));
    }
}

/// The position of the first occurrence of `c` in `s`, if any.
pub open spec fn spec_find(s: Seq<char>, c: char) -> Option<int>
    decreases s.len(),
{
    if s.len() == 0 {
        None
    } else if s[0] == c {
        Some(0)
    } else {
        match spec_find(s.drop_first(), c) {
            Some(i) => Some(i + 1),
            None => None,
        }
    }
}

pub proof fn lemma_find_is_first(s: Seq<char>, c: char)
    ensures
        match spec_find(s, c) {
            Some(j) => 0 <= j < s.len() && s[j] == c && forall|k: int| 0 <= k < j ==> s[k] != c,
            None => forall|k: int| 0 <= k < s.len() ==> s[k] != c,
        },
    decreases s.len(),
{
    if s.len() != 0 && s[0] != c {
        lemma_find_is_first(s.drop_first(), c);
        match spec_find(s.drop_first(), c) {
            Some(i) => {
                assert(spec_find(s, c) == Some(i + 1));
                assert(s[i + 1] == s.drop_first()[i]);
                assert forall|k: int| 0 <= k < i + 1 implies s[k] != c by {
                    if k > 0 {
                        assert(s[k] == s.drop_first()[k - 1]);
                    }
                }
            },
            None => {
                assert(spec_find(s, c) is None);
                assert forall|k: int| 0 <= k < s.len() implies s[k] != c by {
                    if k > 0 {
                        assert(s[k] == s.drop_first()[k - 1]);
                    }
                }
            },
        }
    }
}

/// Finds the first occurrence of `c` in `s`.
pub fn find_char(s: &str, c: char) -> (r: Option<usize>)
    ensures
        match r {
            Some(j) => spec_find(s@, c) == Some(j as int),
            None => spec_find(s@, c) is None,
        },
{
    proof {
        lemma_find_is_first(s@, c);
    }
    let len = s.unicode_len();
    let mut i: usize = 0;
    while i < len
        invariant
            len == s@.len(),
            0 <= i <= len,
            forall|k: int| 0 <= k < i ==> s@[k] != c,
            match spec_find(s@, c) {
                Some(j) => 0 <= j < s@.len() && s@[j] == c && forall|k: int| 0 <= k < j ==> s@[k]
                    != c,
                None => forall|k: int| 0 <= k < s@.len() ==> s@[k] != c,
            },
        decreases len - i,
    {
        if s.get_char(i) == c {
            return Some(i);
        }
        i = i + 1;
    }
    None
}

/// Splits `s` at every occurrence of `sep`, keeping empty pieces.
pub fn split_char(s: &str, sep: char) -> (r: Vec<String>)
    ensures
        seq_views(r@) == spec_split(s@, sep),
{
    let len = s.unicode_len();
    let mut pieces: Vec<String> = Vec::new();
    let mut start: usize = 0;
    let mut i: usize = 0;
    proof {
        assert(s@.skip(0) =~= s@);
        assert(seq_views(pieces@) =~= Seq::<Seq<char>>::empty());
        assert(seq_views(pieces@) + spec_split(s@.skip(0), sep) =~= spec_split(s@, sep));
    }
    while i < len
        invariant
            len == s@.len(),
            0 <= start <= i <= len,
            forall|k: int| start <= k < i ==> s@[k] != sep,
            spec_split(s@, sep) =~= seq_views(pieces@) + spec_split(s@.skip(start as int), sep),
        decreases len - i,
    {
        if s.get_char(i) == sep {
            let piece = s.substring_char(start, i).to_owned();
            proof {
                let tail = s@.skip(start as int);
                lemma_find_is_first(tail, sep);
                lemma_split_at_first_sep(tail, sep, i - start);
                assert(tail.take(i - start) =~= s@.subrange(start as int, i as int));
                assert(tail.skip(i - start + 1) =~= s@.skip(i + 1));
                assert(seq_views(pieces@.push(piece)) =~= seq_views(pieces@) + seq![piece@]);
            }
            pieces.push(piece);
            start = i + 1;
        }
        i = i + 1;
    }
    let last = s.substring_char(start, len).to_owned();
    proof {
        let tail = s@.skip(start as int);
        lemma_split_no_sep(tail, sep);
        assert(tail =~= s@.subrange(start as int, len as int));
        assert(seq_views(pieces@.push(last)) =~= seq_views(pieces@) + seq![last@]);
    }
    pieces.push(last);
    pieces
}

/// A line terminator's carriage return, dropped from the end of a line.
pub open spec fn strip_cr(line: Seq<char>) -> Seq<char> {
    if line.len() > 0 && line.last() == '\r' {
        line.drop_last()
    } else {
        line
    }
}

/// The lines of `s`: pieces separated by `'\n'`, each terminated piece with a
/// trailing `'\r'` dropped, and a final empty piece after a terminating
/// `'\n'` not counted as a line.
pub open spec fn spec_lines(s: Seq<char>) -> Seq<Seq<char>> {
    if s.len() == 0 {
        Seq::empty()
    } else {
        let pieces = spec_split(s, '\n');
        let terminated = pieces.drop_last().map_values(|line: Seq<char>| strip_cr(line));
        if s.last() == '\n' {
            terminated
        } else {
            terminated.push(pieces.last())
        }
    }
}

/// Splits `s` into lines as the request grammar reads them.
pub fn split_lines(s: &str) -> (r: Vec<String>)
    ensures
        seq_views(r@) == spec_lines(s@),
{
    let len = s.unicode_len();
    if len == 0 {
        let r: Vec<String> = Vec::new();
        proof {
            assert(seq_views(r@) =~= spec_lines(s@));
        }
        return r;
    }
    let mut pieces = split_char(s, '\n');
    let ghost all_pieces = spec_split(s@, '\n');
    proof {
        lemma_split_len(s@, '\n');
    }
    let ends_with_newline = s.get_char(len - 1) == '\n';
    let ghost unterminated: Option<Seq<char>> = if s@.last() == '\n' {
        None
    } else {
        Some(all_pieces.last())
    };
    let tail: Option<String> = if ends_with_newline {
        pieces.pop();
        None
    } else {
        pieces.pop()
    };
    proof {
        assert(seq_views(pieces@) =~= all_pieces.drop_last());
    }
    let n = pieces.len();
    let mut out: Vec<String> = Vec::new();
    let mut i: usize = 0;
    let ghost terminated = all_pieces.drop_last().map_values(|line: Seq<char>| strip_cr(line));
    while i < n
        invariant
            n == pieces.len(),
            0 <= i <= n,
            seq_views(pieces@) == all_pieces.drop_last(),
            terminated == all_pieces.drop_last().map_values(|line: Seq<char>| strip_cr(line)),
            seq_views(out@) =~= terminated.take(i as int),
        decreases n - i,
    {
        let piece = &pieces[i];
        let piece_len = piece.as_str().unicode_len();
        let line: String = if piece_len > 0 && piece.as_str().get_char(piece_len - 1) == '\r' {
            piece.as_str().substring_char(0, piece_len - 1).to_owned()
        } else {
            piece.as_str().substring_char(0, piece_len).to_owned()
        };
        proof {
            assert(piece@ =~= piece@.subrange(0, piece@.len() as int));
            assert(piece@.drop_last() =~= piece@.subrange(0, piece@.len() - 1));
            assert(line@ == strip_cr(piece@));
            assert(terminated[i as int] == strip_cr(all_pieces.drop_last()[i as int]));
            assert(seq_views(out@.push(line)) =~= seq_views(out@).push(line@));
            assert(terminated.take(i + 1) =~= terminated.take(i as int).push(
                terminated[i as int],
            ));
        }
        out.push(line);
        i = i + 1;
    }
    proof {
        assert(terminated.take(n as int) =~= terminated);
    }
    match tail {
        Some(last) => {
            proof {
                assert(seq_views(out@.push(last)) =~= seq_views(out@).push(last@));
                assert(seq_views(out@).push(last@) =~= spec_lines(s@));
            }
            out.push(last);
        },
        None => {
            proof {
                assert(seq_views(out@) =~= spec_lines(s@));
            }
        },
    }
    out
}

/// The concatenation of a sequence of pieces, in order.
pub open spec fn spec_concat(ss: Seq<Seq<char>>) -> Seq<char>
    decreases ss.len(),
{
    if ss.len() == 0 {
        Seq::empty()
    } else {
        ss[0] + spec_concat(ss.drop_first())
    }
}

/// Joins `v[from..]` into one string, with nothing between the pieces.
pub fn join_from(v: &Vec<String>, from: usize) -> (r: String)
    requires
        from <= v@.len(),
    ensures
        r@ == spec_concat(seq_views(v@).skip(from as int)),
{
    let mut out = String::new();
    let mut i: usize = from;
    let n = v.len();
    while i < n
        invariant
            from <= i <= n,
            n == v@.len(),
            out@ + spec_concat(seq_views(v@).skip(i as int)) =~= spec_concat(
                seq_views(v@).skip(from as int),
            ),
        decreases n - i,
    {
        proof {
            let views = seq_views(v@);
            assert(views.skip(i as int)[0] == v@[i as int]@);
            assert(views.skip(i as int).drop_first() =~= views.skip(i + 1));
            assert(spec_concat(views.skip(i as int)) == v@[i as int]@ + spec_concat(
                views.skip(i + 1),
            ));
        }
        out.append(v[i].as_str());
        i = i + 1;
    }
    proof {
        assert(seq_views(v@).skip(n as int) =~= Seq::<Seq<char>>::empty());
        assert(out@ + spec_concat(seq_views(v@).skip(n as int)) =~= out@);
    }
    out
}

/// Whether a character counts as alphanumeric under Unicode.
pub uninterp spec fn char_alnum(c: char) -> bool;

/// Relies on char::is_alphanumeric: the answer depends on the character alone.
#[verifier::external_body]
pub fn is_alnum_char(c: char) -> (r: bool)
    ensures
        r == char_alnum(c),
{
    c.is_alphanumeric()
}

/// Whether a character counts as whitespace under Unicode.
pub uninterp spec fn char_white(c: char) -> bool;

/// Relies on char::is_whitespace: the answer depends on the character alone.
#[verifier::external_body]
pub fn is_white_char(c: char) -> (r: bool)
    ensures
        r == char_white(c),
{
    c.is_whitespace()
}

/// The Unicode lower-casing of a text.
pub uninterp spec fn lower_of(s: Seq<char>) -> Seq<char>;

/// Relies on str::to_lowercase: the result depends on the characters alone.
#[verifier::external_body]
pub fn lower_str(s: &str) -> (r: String)
    ensures
        r@ == lower_of(s@),
{
    s.to_lowercase()
}

/// Whether every character of `s` is alphanumeric.
pub open spec fn spec_all_alnum(s: Seq<char>) -> bool {
    forall|i: int| 0 <= i < s.len() ==> char_alnum(s[i])
}

/// Tests whether every character of `s` is alphanumeric.
pub fn all_alnum(s: &str) -> (r: bool)
    ensures
        r == spec_all_alnum(s@),
{
    let len = s.unicode_len();
    let mut i: usize = 0;
    while i < len
        invariant
            len == s@.len(),
            0 <= i <= len,
            forall|k: int| 0 <= k < i ==> char_alnum(s@[k]),
        decreases len - i,
    {
        if !is_alnum_char(s.get_char(i)) {
            return false;
        }
        i = i + 1;
    }
    true
}

/// Removes every whitespace character from `s`.
pub fn strip_white(s: &str) -> (r: String)
    ensures
        r@ == s@.filter(|c: char| !char_white(c)),
{
    let len = s.unicode_len();
    let mut out = String::new();
    let mut i: usize = 0;
    proof {
        assert(s@.take(0) =~= Seq::<char>::empty());
        assert(s@.take(0).filter(|c: char| !char_white(c)) =~= Seq::<char>::empty());
    }
    while i < len
        invariant
            len == s@.len(),
            0 <= i <= len,
            out@ == s@.take(i as int).filter(|c: char| !char_white(c)),
        decreases len - i,
    {
        let c = s.get_char(i);
        proof {
            assert(s@.take(i + 1).drop_last() =~= s@.take(i as int));
            assert(s@.take(i + 1).last() == c);
            reveal_with_fuel(Seq::filter, 2);
        }
        if !is_white_char(c) {
            let piece = s.substring_char(i, i + 1);
            proof {
                assert(piece@ =~= seq![c]);
                assert(out@ + seq![c] =~= s@.take(i + 1).filter(|ch: char| !char_white(ch)));
            }
            out.append(piece);
        }
        i = i + 1;
    }
    proof {
        assert(s@.take(len as int) =~= s@);
    }
    out
}

/// The decimal digit character for a value below ten.
pub open spec fn spec_digit(d: int) -> char {
    if d == 0 {
        '0'
    } else if d == 1 {
        '1'
    } else if d == 2 {
        '2'
    } else if d == 3 {
        '3'
    } else if d == 4 {
        '4'
    } else if d == 5 {
        '5'
    } else if d == 6 {
        '6'
    } else if d == 7 {
        '7'
    } else if d == 8 {
        '8'
    } else {
        '9'
    }
}

/// The decimal rendering of a non-negative integer, without leading zeros.
pub open spec fn spec_dec(n: int) -> Seq<char>
    decreases n,
{
    if n < 10 {
        seq![spec_digit(n)]
    } else {
        spec_dec(n / 10).push(spec_digit(n % 10))
    }
}

/// The decimal rendering of an integer, with a leading minus sign when
/// negative.
pub open spec fn spec_dec_signed(n: int) -> Seq<char> {
    if n < 0 {
        seq!['-'] + spec_dec(-n)
    } else {
        spec_dec(n)
    }
}

/// Appends the decimal rendering of `n` to `out`.
pub fn push_decimal(n: u64, out: &mut String)
    ensures
        final(out)@ == old(out)@ + spec_dec(n as int),
    decreases n,
{
    if n >= 10 {
        push_decimal(n / 10, out);
    }
    let d = n % 10;
    match d {
        0 => out.append("0"),
        1 => out.append("1"),
        2 => out.append("2"),
        3 => out.append("3"),
        4 => out.append("4"),
        5 => out.append("5"),
        6 => out.append("6"),
        7 => out.append("7"),
        8 => out.append("8"),
        _ => out.append("9"),
    }
    proof {
        reveal_strlit("0");
        reveal_strlit("1");
        reveal_strlit("2");
        reveal_strlit("3");
        reveal_strlit("4");
        reveal_strlit("5");
        reveal_strlit("6");
        reveal_strlit("7");
        reveal_strlit("8");
        reveal_strlit("9");
        if n < 10 {
            assert(old(out)@ + seq![spec_digit(n as int)] =~= final(out)@);
        } else {
            assert(old(out)@ + spec_dec(n as int / 10) + seq![spec_digit(n as int % 10)]
                =~= final(out)@);
            assert(spec_dec(n as int) == spec_dec(n as int / 10).push(spec_digit(n as int % 10)));
            assert(old(out)@ + spec_dec(n as int) =~= old(out)@ + spec_dec(n as int / 10) + seq![
                spec_digit(n as int % 10),
            ]);
        }
    }
}

/// Renders a non-negative integer in decimal.
pub fn to_decimal(n: u64) -> (r: String)
    ensures
        r@ == spec_dec(n as int),
{
    let mut out = String::new();
    push_decimal(n, &mut out);
    proof {
        assert(Seq::<char>::empty() + spec_dec(n as int) =~= spec_dec(n as int));
    }
    out
}

/// Renders a signed integer in decimal.
pub fn to_decimal_signed(n: i32) -> (r: String)
    ensures
        r@ == spec_dec_signed(n as int),
{
    if n < 0 {
        let mut out = String::from_str("-");
        let mag: u64 = (-(n as i64)) as u64;
        proof {
            reveal_strlit("-");
            assert(out@ =~= seq!['-']);
        }
        push_decimal(mag, &mut out);
        proof {
            assert(seq!['-'] + spec_dec(mag as int) =~= spec_dec_signed(n as int));
        }
        out
    } else {
        to_decimal(n as u64)
    }
}

/// Character-for-character equality of two string slices.
pub fn str_eq_str(a: &str, b: &str) -> (r: bool)
    ensures
        r == (a@ == b@),
{
    let a_len = a.unicode_len();
    let b_len = b.unicode_len();
    if a_len != b_len {
        assert(a@.len() != b@.len());
        return false;
    }
    let mut i: usize = 0;
    while i < a_len
        invariant
            a_len == a@.len(),
            b_len == b@.len(),
            a_len == b_len,
            0 <= i <= a_len,
            forall|j: int| 0 <= j < i ==> a@[j] == b@[j],
        decreases a_len - i,
    {
        if a.get_char(i) != b.get_char(i) {
            assert(a@[i as int] != b@[i as int]);
            return false;
        }
        i = i + 1;
    }
    proof {
        assert(a@ =~= b@);
    }
    true
}

} // verus!
