//! Small verified text helpers: decimal formatting of integers.

use vstd::prelude::*;
use vstd::string::StringExecFns;

verus! {

/// The decimal digit character for a value below ten.
pub open spec fn spec_digit_char(d: int) -> char
    recommends
        0 <= d < 10,
{
    if d == 0 {
        '0'
    } else if d == 1 {
        '1'
    } else if d == 2 {
        '2'
    } else if d == 3 {
        '3'
    } else if d == 4 {
        '4'
    } else if d == 5 {
        '5'
    } else if d == 6 {
        '6'
    } else if d == 7 {
        '7'
    } else if d == 8 {
        '8'
    } else {
        '9'
    }
}

/// The decimal representation of a non-negative integer, most significant
/// digit first, with no leading zeros (zero itself is "0").
pub open spec fn spec_decimal(n: int) -> Seq<char>
    recommends
        n >= 0,
    decreases n,
{
    if n < 10 {
        seq![spec_digit_char(n)]
    } else {
        spec_decimal(n / 10).push(spec_digit_char(n % 10))
    }
}

/// One-character string slice for a decimal digit.
fn digit_str(d: u64) -> (s: &'static str)
    requires
        d < 10,
    ensures
        s@ == seq![spec_digit_char(d as int)],
{
    proof {
        reveal_strlit("0");
        reveal_strlit("1");
        reveal_strlit("2");
        reveal_strlit("3");
        reveal_strlit("4");
        reveal_strlit("5");
        reveal_strlit("6");
        reveal_strlit("7");
        reveal_strlit("8");
        reveal_strlit("9");
    }
    if d == 0 {
        "0"
    } else if d == 1 {
        "1"
    } else if d == 2 {
        "2"
    } else if d == 3 {
        "3"
    } else if d == 4 {
        "4"
    } else if d == 5 {
        "5"
    } else if d == 6 {
        "6"
    } else if d == 7 {
        "7"
    } else if d == 8 {
        "8"
    } else {
        "9"
    }
}

/// Format an unsigned integer in decimal.
pub fn u64_to_dec(n: u64) -> (s: String)
    ensures
        s@ == spec_decimal(n as int),
    decreases n,
{
    if n < 10 {
        String::from_str(digit_str(n))
    } else {
        proof {
            vstd::arithmetic::div_mod::lemma_div_decreases(n as int, 10);
        }
        let mut s = u64_to_dec(n / 10);
        s.append(digit_str(n % 10));
        s
    }
}

/// The given character sequences joined with a separator between them.
pub open spec fn spec_join(parts: Seq<Seq<char>>, sep: Seq<char>) -> Seq<char>
    decreases parts.len(),
{
    if parts.len() == 0 {
        Seq::<char>::empty()
    } else if parts.len() == 1 {
        parts[0]
    } else {
        parts[0] + sep + spec_join(parts.subrange(1, parts.len() as int), sep)
    }
}

/// Appending one more part extends the join by a separator and the part.
proof fn lemma_join_push(parts: Seq<Seq<char>>, sep: Seq<char>, x: Seq<char>)
    ensures
        spec_join(parts.push(x), sep) == if parts.len() == 0 {
            x
        } else {
            spec_join(parts, sep) + sep + x
        },
    decreases parts.len(),
{
    let p2 = parts.push(x);
    if parts.len() == 0 {
        assert(p2.len() == 1);
        assert(p2[0] == x);
    } else if parts.len() == 1 {
        assert(p2.len() == 2);
        assert(p2[0] == parts[0]);
        assert(p2.subrange(1, 2) =~= seq![x]);
        assert(spec_join(p2.subrange(1, 2), sep) == x);
    } else {
        assert(p2.subrange(1, p2.len() as int) =~= parts.subrange(
            1,
            parts.len() as int,
        ).push(x));
        lemma_join_push(parts.subrange(1, parts.len() as int), sep, x);
        assert(spec_join(parts, sep) == parts[0] + sep + spec_join(
            parts.subrange(1, parts.len() as int),
            sep,
        ));
        assert(p2[0] == parts[0]);
        assert(spec_join(p2, sep) == p2[0] + sep + spec_join(p2.subrange(1, p2.len() as int), sep));
        assert((parts[0] + sep + (spec_join(parts.subrange(1, parts.len() as int), sep) + sep + x))
            =~= (parts[0] + sep + spec_join(parts.subrange(1, parts.len() as int), sep)) + sep + x);
    }
}

/// Join a list of strings with a separator.
pub fn join_strings(parts: &Vec<String>, sep: &str) -> (r: String)
    ensures
        r@ == spec_join(parts@.map_values(|s: String| s@), sep@),
{
    let ghost views = parts@.map_values(|s: String| s@);
    let mut r = String::new();
    let n = parts.len();
    let mut i: usize = 0;
    while i < n
        invariant
            0 <= i <= n,
            n == parts@.len(),
            views == parts@.map_values(|s: String| s@),
            views.len() == n,
            r@ == spec_join(views.subrange(0, i as int), sep@),
        decreases n - i,
    {
        if i > 0 {
            r.append(sep);
        }
        r.append(parts[i].as_str());
        proof {
            let pre = views.subrange(0, i as int);
            lemma_join_push(pre, sep@, views[i as int]);
            assert(views.subrange(0, i as int + 1) =~= pre.push(views[i as int]));
            assert(views[i as int] == parts@[i as int]@);
            if i == 0 {
                assert(r@ =~= views[0]);
            }
        }
        i = i + 1;
    }
    proof {
        assert(views.subrange(0, n as int) =~= views);
    }
    r
}

} // verus!
