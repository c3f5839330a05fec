//! Layout of usage text: word wrapping and two-column rows.

use vstd::prelude::*;
use vstd::utf8::encode_utf8;

verus! {

/// Column at which the second column of a usage row starts, shared with the option parser's own
/// usage block so that both sections line up.
pub const COL2_START: usize = 24;

/// Width at which the second column of a usage row wraps, shared with the option parser.
pub const COL2_WIDTH: usize = 54;

/// Width of a text as the number of bytes of its UTF-8 encoding.
pub open spec fn width(s: Seq<char>) -> nat {
    encode_utf8(s).len()
}

/// `n` spaces.
pub open spec fn spaces(n: nat) -> Seq<char> {
    Seq::new(n, |i: int| ' ')
}

/// The pieces of `s` between single spaces, as `str::split(' ')` yields them: there is always at
/// least one piece, and two adjacent spaces delimit an empty one.
pub open spec fn split_spaces(s: Seq<char>) -> Seq<Seq<char>>
    decreases s.len(),
{
    if s.len() == 0 {
        seq![Seq::empty()]
    } else {
        let init = split_spaces(s.drop_last());
        if s.last() == ' ' {
            init.push(Seq::empty())
        } else {
            init.update(init.len() - 1, init.last().push(s.last()))
        }
    }
}

/// Greedy packing of `ws` into lines: the text so far and the width of its last line.
///
/// A word joins the current line, after one space, when the line stays within `max`; otherwise
/// it starts a new line indented by `pad` spaces. While the current line is still zero wide
/// (at the start, or after empty words), a word is appended without a separator.
pub open spec fn pack(ws: Seq<Seq<char>>, pad: nat, max: nat) -> (Seq<char>, nat)
    decreases ws.len(),
{
    if ws.len() == 0 {
        (Seq::empty(), 0)
    } else {
        let (t, len) = pack(ws.drop_last(), pad, max);
        let w = ws.last();
        if len == 0 {
            (t + w, width(w))
        } else if len + width(w) + 1 > max {
            (t + seq!['\n'] + spaces(pad) + w, width(w))
        } else {
            (t + seq![' '] + w, len + 1 + width(w))
        }
    }
}

/// Packing never joins a word onto a line past `max`: after each word, the line in progress is
/// either within `max` or exactly as wide as that word, which then stands alone after the line
/// start.
pub proof fn lemma_line_fits_or_single_word(ws: Seq<Seq<char>>, pad: nat, max: nat)
    requires
        ws.len() > 0,
    ensures
        pack(ws, pad, max).1 <= max || pack(ws, pad, max).1 == width(ws.last()),
{
}

/// `s` wrapped at `max`, every line but the first indented by `pad` spaces.
pub open spec fn wrapped(s: Seq<char>, pad: nat, max: nat) -> Seq<char> {
    pack(split_spaces(s), pad, max).0
}

/// A usage row: `col1`, then `col2` wrapped at `width2` starting at column `start2`. A first
/// column that reaches `start2` is followed by a line break and `start2` spaces.
pub open spec fn two_columns(col1: Seq<char>, col2: Seq<char>, start2: nat, width2: nat) -> Seq<
    char,
> {
    if width(col1) < start2 {
        col1 + spaces((start2 - width(col1)) as nat) + wrapped(col2, start2, width2)
    } else {
        col1 + seq!['\n'] + spaces(start2) + wrapped(col2, start2, width2)
    }
}

/// The text of a decimal digit.
pub open spec fn digit_text(d: nat) -> Seq<char> {
    if d == 0 {
        "0"@
    } else if d == 1 {
        "1"@
    } else if d == 2 {
        "2"@
    } else if d == 3 {
        "3"@
    } else if d == 4 {
        "4"@
    } else if d == 5 {
        "5"@
    } else if d == 6 {
        "6"@
    } else if d == 7 {
        "7"@
    } else if d == 8 {
        "8"@
    } else {
        "9"@
    }
}

/// The decimal notation of `n`, without leading zeros.
pub open spec fn decimal(n: nat) -> Seq<char>
    decreases n,
{
    if n < 10 {
        digit_text(n)
    } else {
        decimal(n / 10) + digit_text(n % 10)
    }
}

fn digit_str(d: usize) -> (r: &'static str)
    requires
        d < 10,
    ensures
        r@ == digit_text(d as nat),
{
    match d {
        0 => "0",
        1 => "1",
        2 => "2",
        3 => "3",
        4 => "4",
        5 => "5",
        6 => "6",
        7 => "7",
        8 => "8",
        _ => "9",
    }
}

/// The decimal notation of `n`.
pub fn decimal_string(n: usize) -> (r: String)
    ensures
        r@ == decimal(n as nat),
    decreases n,
{
    if n < 10 {
        String::from_str(digit_str(n))
    } else {
        let mut r = decimal_string(n / 10);
        r.append(digit_str(n % 10));
        r
    }
}

/// The byte width of a string.
pub fn byte_len(s: &str) -> (n: usize)
    ensures
        n == width(s@),
{
    s.as_bytes().len()
}

/// A string of `n` spaces.
pub fn spaces_string(n: usize) -> (r: String)
    ensures
        r@ == spaces(n as nat),
{
    let mut r = String::new();
    let mut i: usize = 0;
    while i < n
        invariant
            i <= n,
            r@ == spaces(i as nat),
        decreases n - i,
    {
        r.append(" ");
        proof {
            reveal_strlit(" ");
        }
        i = i + 1;
        assert(r@ =~= spaces(i as nat));
    }
    r
}

/// Splits `s` at every single space, as `str::split(' ')` does.
pub fn split_spaces_exec<'a>(s: &'a str) -> (r: Vec<&'a str>)
    ensures
        r@.map_values(|w: &str| w@) == split_spaces(s@),
{
    let n = s.unicode_len();
    let mut r: Vec<&'a str> = Vec::new();
    let mut start: usize = 0;
    let mut i: usize = 0;
    proof {
        assert(s@.subrange(0, 0) =~= Seq::<char>::empty());
        assert(r@.map_values(|w: &str| w@).push(s@.subrange(0, 0)) =~= split_spaces(
            s@.subrange(0, 0),
        ));
    }
    while i < n
        invariant
            n == s@.len(),
            start <= i <= n,
            r@.map_values(|w: &str| w@).push(s@.subrange(start as int, i as int)) == split_spaces(
                s@.subrange(0, i as int),
            ),
        decreases n - i,
    {
        let c = s.get_char(i);
        proof {
            let pre = s@.subrange(0, i as int);
            let next = s@.subrange(0, i + 1);
            assert(next.drop_last() =~= pre);
            assert(next.last() == c);
        }
        if c == ' ' {
            let piece = s.substring_char(start, i);
            r.push(piece);
            start = i + 1;
            proof {
                assert(s@.subrange(start as int, i + 1) =~= Seq::<char>::empty());
            }
        } else {
            proof {
                assert(s@.subrange(start as int, i + 1) =~= s@.subrange(start as int, i as int).push(c));
            }
        }
        i = i + 1;
        proof {
            assert(r@.map_values(|w: &str| w@).push(s@.subrange(start as int, i as int)) =~= split_spaces(
                s@.subrange(0, i as int),
            ));
        }
    }
    let last = s.substring_char(start, n);
    r.push(last);
    proof {
        assert(s@.subrange(0, n as int) =~= s@);
        assert(r@.map_values(|w: &str| w@) =~= split_spaces(s@));
    }
    r
}

/// Reformats `unwrapped` to fit within `max_width`: words are packed greedily onto lines, and
/// every line but the first is prefixed with `pad_width` spaces. A word wider than `max_width`
/// stands alone on its line and is not split.
pub fn wrap(unwrapped: &str, pad_width: usize, max_width: usize) -> (r: String)
    ensures
        r@ == wrapped(unwrapped@, pad_width as nat, max_width as nat),
{
    let words = split_spaces_exec(unwrapped);
    let ghost ws = words@.map_values(|w: &str| w@);
    let mut text = String::new();
    let mut len: usize = 0;
    let mut k: usize = 0;
    while k < words.len()
        invariant
            ws == words@.map_values(|w: &str| w@),
            k <= words.len(),
            (text@, len as nat) == pack(ws.take(k as int), pad_width as nat, max_width as nat),
        decreases words.len() - k,
    {
        let word = words[k];
        let wl = byte_len(word);
        proof {
            assert(ws.take(k + 1).drop_last() =~= ws.take(k as int));
            assert(ws.take(k + 1).last() == word@);
        }
        if len == 0 {
            text.append(word);
            len = wl;
        } else if len >= max_width || wl >= max_width - len {
            text.append("\n");
            let pad = spaces_string(pad_width);
            text.append(pad.as_str());
            text.append(word);
            len = wl;
            proof {
                reveal_strlit("\n");
            }
        } else {
            text.append(" ");
            text.append(word);
            len = len + 1 + wl;
            proof {
                reveal_strlit(" ");
            }
        }
        k = k + 1;
    }
    proof {
        assert(ws.take(k as int) =~= ws);
    }
    text
}

/// Formats `col1` and `col2` as two columns: the second starts at column `start2` and is wrapped
/// to `width2`. A first column that is too wide is followed by a line break.
pub fn format_two_columns(col1: String, col2: &str, start2: usize, width2: usize) -> (r: String)
    ensures
        r@ == two_columns(col1@, col2@, start2 as nat, width2 as nat),
{
    let mut text = col1;
    let w = byte_len(text.as_str());
    if w < start2 {
        let pad = spaces_string(start2 - w);
        text.append(pad.as_str());
    } else {
        text.append("\n");
        let pad = spaces_string(start2);
        text.append(pad.as_str());
        proof {
            reveal_strlit("\n");
        }
    }
    let body = wrap(col2, start2, width2);
    text.append(body.as_str());
    text
}

} // verus!
