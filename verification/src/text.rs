//! Text-building helpers shared by the rendering code: decimal numerals for
//! unsigned integers and separator-joined concatenation of string sequences.

use vstd::prelude::*;

verus! {

/// The decimal digit character for `d`, a value from 0 through 9.
pub open spec fn dec_digit(d: int) -> char
    recommends
        0 <= d < 10,
{
    if d == 0 {
        '0'
    } else if d == 1 {
        '1'
    } else if d == 2 {
        '2'
    } else if d == 3 {
        '3'
    } else if d == 4 {
        '4'
    } else if d == 5 {
        '5'
    } else if d == 6 {
        '6'
    } else if d == 7 {
        '7'
    } else if d == 8 {
        '8'
    } else {
        '9'
    }
}

/// The decimal numeral of `n`, most significant digit first, without leading
/// zeros; the numeral of zero is the single digit `0`.
pub open spec fn dec_str(n: nat) -> Seq<char>
    decreases n,
{
    if n < 10 {
        seq![dec_digit(n as int)]
    } else {
        dec_str(n / 10) + seq![dec_digit((n % 10) as int)]
    }
}

fn dec_digit_str(d: u64) -> (r: &'static str)
    requires
        d < 10,
    ensures
        r@ == seq![dec_digit(d as int)],
{
    proof {
        reveal_strlit("0");
        reveal_strlit("1");
        reveal_strlit("2");
        reveal_strlit("3");
        reveal_strlit("4");
        reveal_strlit("5");
        reveal_strlit("6");
        reveal_strlit("7");
        reveal_strlit("8");
        reveal_strlit("9");
    }
    if d == 0 {
        proof {
            assert("0"@ =~= seq![dec_digit(d as int)]);
        }
        "0"
    } else if d == 1 {
        proof {
            assert("1"@ =~= seq![dec_digit(d as int)]);
        }
        "1"
    } else if d == 2 {
        proof {
            assert("2"@ =~= seq![dec_digit(d as int)]);
        }
        "2"
    } else if d == 3 {
        proof {
            assert("3"@ =~= seq![dec_digit(d as int)]);
        }
        "3"
    } else if d == 4 {
        proof {
            assert("4"@ =~= seq![dec_digit(d as int)]);
        }
        "4"
    } else if d == 5 {
        proof {
            assert("5"@ =~= seq![dec_digit(d as int)]);
        }
        "5"
    } else if d == 6 {
        proof {
            assert("6"@ =~= seq![dec_digit(d as int)]);
        }
        "6"
    } else if d == 7 {
        proof {
            assert("7"@ =~= seq![dec_digit(d as int)]);
        }
        "7"
    } else if d == 8 {
        proof {
            assert("8"@ =~= seq![dec_digit(d as int)]);
        }
        "8"
    } else {
        proof {
            assert("9"@ =~= seq![dec_digit(d as int)]);
        }
        "9"
    }
}

/// Renders `n` as its decimal numeral.
pub fn u64_to_dec(n: u64) -> (r: String)
    ensures
        r@ == dec_str(n as nat),
    decreases n,
{
    let d = n % 10;
    let digit = dec_digit_str(d);
    if n < 10 {
        proof {
            assert(d == n);
        }
        digit.to_owned()
    } else {
        let mut prefix = u64_to_dec(n / 10);
        prefix.append(digit);
        proof {
            assert((n / 10) as nat == n as nat / 10);
            assert(d as int == (n as nat % 10) as int);
            assert(prefix@ == dec_str(n as nat));
        }
        prefix
    }
}

/// The character sequences of a sequence of strings, in order.
pub open spec fn views_of(parts: Seq<String>) -> Seq<Seq<char>> {
    Seq::new(parts.len(), |i: int| parts[i]@)
}

/// The elements of `parts` concatenated in order with `sep` between
/// consecutive elements.
pub open spec fn join_with(parts: Seq<Seq<char>>, sep: Seq<char>) -> Seq<char>
    decreases parts.len(),
{
    if parts.len() == 0 {
        Seq::empty()
    } else if parts.len() == 1 {
        parts[0]
    } else {
        parts[0] + sep + join_with(parts.drop_first(), sep)
    }
}

/// Appending one more part to a joined sequence appends one separator and the
/// part (or just the part, when the sequence was empty).
pub proof fn lemma_join_with_push(parts: Seq<Seq<char>>, sep: Seq<char>, part: Seq<char>)
    ensures
        join_with(parts.push(part), sep) == if parts.len() == 0 {
            part
        } else {
            join_with(parts, sep) + sep + part
        },
    decreases parts.len(),
{
    let pushed = parts.push(part);
    if parts.len() == 0 {
        assert(pushed[0] == part);
    } else {
        assert(pushed.drop_first() =~= parts.drop_first().push(part));
        lemma_join_with_push(parts.drop_first(), sep, part);
        if parts.len() == 1 {
            assert(join_with(pushed, sep) == parts[0] + sep + part);
        } else {
            assert(join_with(pushed, sep) == pushed[0] + sep + join_with(
                parts.drop_first().push(part),
                sep,
            ));
            assert(join_with(parts.drop_first().push(part), sep) == join_with(
                parts.drop_first(),
                sep,
            ) + sep + part);
            assert((parts[0] + sep + (join_with(parts.drop_first(), sep) + sep + part)) =~= (parts[0]
                + sep + join_with(parts.drop_first(), sep)) + sep + part);
        }
    }
}

/// Joins the strings of `parts` with the separator `sep`.
pub fn join_strings(parts: &[String], sep: &str) -> (r: String)
    ensures
        r@ == join_with(views_of(parts@), sep@),
{
    let ghost dv = views_of(parts@);
    let mut r = String::new();
    let mut i: usize = 0;
    proof {
        assert(dv.take(0) =~= Seq::<Seq<char>>::empty());
    }
    while i < parts.len()
        invariant
            i <= parts.len(),
            dv == parts.deep_view(),
            dv.len() == parts.len(),
            forall|j: int| 0 <= j < parts.len() ==> dv[j] == parts[j]@,
            r@ == join_with(dv.take(i as int), sep@),
        decreases parts.len() - i,
    {
        if i > 0 {
            r.append(sep);
        }
        r.append(parts[i].as_str());
        proof {
            lemma_join_with_push(dv.take(i as int), sep@, dv[i as int]);
            assert(dv.take(i as int).push(dv[i as int]) =~= dv.take(i as int + 1));
        }
        i = i + 1;
    }
    proof {
        assert(dv.take(parts.len() as int) =~= dv);
    }
    r
}

/// Copies a slice of strings into a vector.
pub fn copy_strings(parts: &[String]) -> (r: Vec<String>)
    ensures
        r@ == parts@,
{
    let mut r: Vec<String> = Vec::new();
    let mut i: usize = 0;
    while i < parts.len()
        invariant
            i <= parts.len(),
            r@ == parts@.take(i as int),
        decreases parts.len() - i,
    {
        r.push(parts[i].clone());
        proof {
            assert(parts@.take(i as int).push(parts@[i as int]) =~= parts@.take(i as int + 1));
        }
        i = i + 1;
    }
    proof {
        assert(parts@.take(parts.len() as int) =~= parts@);
    }
    r
}

} // verus!
