//! Text building blocks shared by the query builder and the client: joining
//! pieces with a separator, and rendering integers in decimal.

use vstd::prelude::*;
use vstd::string::StringExecFns;

verus! {

/// The pieces of `parts` concatenated with `sep` between consecutive pieces.
pub open spec fn join(parts: Seq<Seq<char>>, sep: Seq<char>) -> Seq<char>
    decreases parts.len(),
{
    if parts.len() == 0 {
        Seq::empty()
    } else if parts.len() == 1 {
        parts[0]
    } else {
        parts[0] + sep + join(parts.drop_first(), sep)
    }
}

/// Appending one more piece extends a join by the separator and the piece
/// (by the piece alone when the join was empty so far).
pub proof fn lemma_join_push(parts: Seq<Seq<char>>, sep: Seq<char>, p: Seq<char>)
    ensures
        join(parts.push(p), sep) == if parts.len() == 0 {
            p
        } else {
            join(parts, sep) + sep + p
        },
    decreases parts.len(),
{
    let pushed = parts.push(p);
    if parts.len() == 0 {
        assert(pushed.len() == 1);
        assert(pushed[0] == p);
    } else if parts.len() == 1 {
        assert(pushed.drop_first() =~= seq![p]);
        assert(join(pushed.drop_first(), sep) == p);
        assert(join(pushed, sep) == parts[0] + sep + p);
    } else {
        assert(pushed.drop_first() =~= parts.drop_first().push(p));
        lemma_join_push(parts.drop_first(), sep, p);
        assert(join(pushed, sep) == parts[0] + sep + (join(parts.drop_first(), sep) + sep + p));
        assert(parts[0] + sep + (join(parts.drop_first(), sep) + sep + p) =~= (parts[0] + sep
            + join(parts.drop_first(), sep)) + sep + p);
    }
}

/// The decimal digit character for `d` in `0 ..= 9`.
pub open spec fn digit_char(d: int) -> char {
    if d == 0 {
        '0'
    } else if d == 1 {
        '1'
    } else if d == 2 {
        '2'
    } else if d == 3 {
        '3'
    } else if d == 4 {
        '4'
    } else if d == 5 {
        '5'
    } else if d == 6 {
        '6'
    } else if d == 7 {
        '7'
    } else if d == 8 {
        '8'
    } else {
        '9'
    }
}

/// The decimal digits of a nonnegative `n`, most significant first, with no
/// leading zero except for `n == 0` itself.
pub open spec fn dec_chars(n: int) -> Seq<char>
    decreases n,
{
    if n <= 9 {
        seq![digit_char(n)]
    } else {
        dec_chars(n / 10).push(digit_char(n % 10))
    }
}

/// The decimal rendering of a possibly negative number: a leading minus sign
/// for negatives.
pub open spec fn int_chars(n: int) -> Seq<char> {
    if n < 0 {
        seq!['-'] + dec_chars(-n)
    } else {
        dec_chars(n)
    }
}

/// Appends the single digit character for `d`.
fn append_digit(s: &mut String, d: u64)
    requires
        d <= 9,
    ensures
        final (s)@ == old(s)@ + seq![digit_char(d as int)],
{
    if d == 0 {
        s.append("0");
        proof {
            reveal_strlit("0");
            assert(("0")@ =~= seq!['0']);
        }
    } else if d == 1 {
        s.append("1");
        proof {
            reveal_strlit("1");
            assert(("1")@ =~= seq!['1']);
        }
    } else if d == 2 {
        s.append("2");
        proof {
            reveal_strlit("2");
            assert(("2")@ =~= seq!['2']);
        }
    } else if d == 3 {
        s.append("3");
        proof {
            reveal_strlit("3");
            assert(("3")@ =~= seq!['3']);
        }
    } else if d == 4 {
        s.append("4");
        proof {
            reveal_strlit("4");
            assert(("4")@ =~= seq!['4']);
        }
    } else if d == 5 {
        s.append("5");
        proof {
            reveal_strlit("5");
            assert(("5")@ =~= seq!['5']);
        }
    } else if d == 6 {
        s.append("6");
        proof {
            reveal_strlit("6");
            assert(("6")@ =~= seq!['6']);
        }
    } else if d == 7 {
        s.append("7");
        proof {
            reveal_strlit("7");
            assert(("7")@ =~= seq!['7']);
        }
    } else if d == 8 {
        s.append("8");
        proof {
            reveal_strlit("8");
            assert(("8")@ =~= seq!['8']);
        }
    } else {
        s.append("9");
        proof {
            reveal_strlit("9");
            assert(("9")@ =~= seq!['9']);
        }
    }
}

/// Appends the decimal digits of `n`.
pub fn append_u64(s: &mut String, n: u64)
    ensures
        final (s)@ == old(s)@ + dec_chars(n as int),
    decreases n,
{
    if n > 9 {
        append_u64(s, n / 10);
    }
    append_digit(s, n % 10);
    proof {
        if n > 9 {
            assert(dec_chars(n as int) == dec_chars(n as int / 10).push(digit_char(n as int % 10)));
            assert(dec_chars(n as int / 10).push(digit_char(n as int % 10)) =~= dec_chars(
                n as int / 10,
            ) + seq![digit_char(n as int % 10)]);
        } else {
            assert(n % 10 == n as int);
            assert(old(s)@ + seq![digit_char(n as int)] == old(s)@ + dec_chars(n as int));
        }
    }
}

/// Appends the decimal rendering of `n`, with a minus sign for negatives.
pub fn append_i64(s: &mut String, n: i64)
    ensures
        final (s)@ == old(s)@ + int_chars(n as int),
{
    if n < 0 {
        s.append("-");
        proof {
            reveal_strlit("-");
            assert(("-")@ =~= seq!['-']);
        }
        let wide: i128 = n as i128;
        let mag: u64 = (-wide) as u64;
        assert(mag as int == -(n as int));
        append_u64(s, mag);
        assert(seq!['-'] + dec_chars(mag as int) =~= ("-")@ + dec_chars(mag as int));
    } else {
        append_u64(s, n as u64);
    }
}

/// Renders `n` in decimal.
pub fn u64_string(n: u64) -> (r: String)
    ensures
        r@ == dec_chars(n as int),
{
    let mut s = String::new();
    append_u64(&mut s, n);
    s
}

/// Renders `n` in decimal, with a minus sign for negatives.
pub fn i64_string(n: i64) -> (r: String)
    ensures
        r@ == int_chars(n as int),
{
    let mut s = String::new();
    append_i64(&mut s, n);
    s
}

} // verus!
