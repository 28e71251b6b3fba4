//! Text helpers used to build keys, URLs and messages.

use vstd::prelude::*;
use vstd::string::*;

verus! {

/// The character of a decimal digit.
pub open spec fn digit_char(d: nat) -> char {
    if d == 0 {
        '0'
    } else if d == 1 {
        '1'
    } else if d == 2 {
        '2'
    } else if d == 3 {
        '3'
    } else if d == 4 {
        '4'
    } else if d == 5 {
        '5'
    } else if d == 6 {
        '6'
    } else if d == 7 {
        '7'
    } else if d == 8 {
        '8'
    } else {
        '9'
    }
}

/// The decimal representation of a natural number, without sign or leading zeros.
pub open spec fn decimal(n: nat) -> Seq<char>
    decreases n,
{
    if n < 10 {
        seq![digit_char(n)]
    } else {
        decimal(n / 10).push(digit_char(n % 10))
    }
}

/// Whether a character is one of the decimal digits `0` to `9`.
pub open spec fn is_decimal_digit(c: char) -> bool {
    '0' <= c && c <= '9'
}

/// The number that a string of decimal digits denotes.
pub open spec fn digits_value(s: Seq<char>) -> int
    decreases s.len(),
{
    if s.len() == 0 {
        0
    } else {
        digits_value(s.drop_last()) * 10 + ((s.last() as u32) as int - ('0' as u32) as int)
    }
}

/// The decimal representation of `n` is a nonempty string of decimal
/// digits, without a leading zero unless `n` is zero, that denotes `n`.
pub proof fn law_decimal_denotes_its_number(n: nat)
    ensures
        decimal(n).len() > 0,
        forall|i: int| 0 <= i < decimal(n).len() ==> is_decimal_digit(#[trigger] decimal(n)[i]),
        digits_value(decimal(n)) == n,
        decimal(n)[0] == '0' ==> n == 0,
        n == 0 ==> decimal(n) == seq!['0'],
    decreases n,
{
    let d = n % 10;
    assert(digit_char(d) as u32 == 48 + d);
    assert('0' as u32 == 48);
    if n >= 10 {
        law_decimal_denotes_its_number(n / 10);
        let s = decimal(n);
        assert(s.drop_last() =~= decimal(n / 10));
        assert(s.last() == digit_char(d));
        assert forall|i: int| 0 <= i < s.len() implies is_decimal_digit(#[trigger] s[i]) by {
            if i < s.len() - 1 {
                assert(s[i] == decimal(n / 10)[i]);
            }
        }
        assert(s[0] == decimal(n / 10)[0]);
        assert(digits_value(s) == digits_value(decimal(n / 10)) * 10 + d);
        assert(n == (n / 10) * 10 + d);
    } else {
        let s = decimal(n);
        assert(s.drop_last() =~= Seq::<char>::empty());
        assert(digits_value(s) == digits_value(Seq::<char>::empty()) * 10 + d);
    }
}

fn digit_str(d: u64) -> (s: &'static str)
    requires
        d < 10,
    ensures
        s@ == seq![digit_char(d as nat)],
{
    if d == 0 {
        proof { reveal_strlit("0"); }
        "0"
    } else if d == 1 {
        proof { reveal_strlit("1"); }
        "1"
    } else if d == 2 {
        proof { reveal_strlit("2"); }
        "2"
    } else if d == 3 {
        proof { reveal_strlit("3"); }
        "3"
    } else if d == 4 {
        proof { reveal_strlit("4"); }
        "4"
    } else if d == 5 {
        proof { reveal_strlit("5"); }
        "5"
    } else if d == 6 {
        proof { reveal_strlit("6"); }
        "6"
    } else if d == 7 {
        proof { reveal_strlit("7"); }
        "7"
    } else if d == 8 {
        proof { reveal_strlit("8"); }
        "8"
    } else {
        proof { reveal_strlit("9"); }
        "9"
    }
}

/// Appends the decimal representation of `n` to `s`.
pub fn push_decimal(s: &mut String, n: u64)
    ensures
        final(s)@ == old(s)@ + decimal(n as nat),
    decreases n,
{
    let ghost start = s@;
    if n >= 10 {
        push_decimal(s, n / 10);
    }
    let d = digit_str(n % 10);
    s.append(d);
    proof {
        if n >= 10 {
            assert(start + decimal(n as nat / 10) + seq![digit_char(n as nat % 10)] =~= start
                + decimal(n as nat));
        } else {
            assert(decimal(n as nat) == seq![digit_char(n as nat)]);
        }
    }
}

/// The decimal representation of `n`, as `to_string` writes it.
pub fn decimal_string(n: u64) -> (r: String)
    ensures
        r@ == decimal(n as nat),
{
    let mut s = String::new();
    push_decimal(&mut s, n);
    assert(s@ =~= decimal(n as nat));
    s
}


/// `s` with every trailing `'/'` removed, as `trim_end_matches('/')` returns it.
pub open spec fn trim_trailing_slashes_spec(s: Seq<char>) -> Seq<char>
    decreases s.len(),
{
    if s.len() > 0 && s.last() == '/' {
        trim_trailing_slashes_spec(s.drop_last())
    } else {
        s
    }
}

/// Trimming leaves no trailing `'/'`, keeps a prefix of the input whose
/// removed rest is all `'/'`, and trimming again changes nothing.
pub proof fn law_trim_trailing_slashes(s: Seq<char>)
    ensures
        trim_trailing_slashes_spec(s).len() == 0 || trim_trailing_slashes_spec(s).last() != '/',
        trim_trailing_slashes_spec(s).is_prefix_of(s),
        trim_trailing_slashes_spec(trim_trailing_slashes_spec(s)) == trim_trailing_slashes_spec(s),
        forall|i: int|
            trim_trailing_slashes_spec(s).len() <= i < s.len() ==> #[trigger] s[i] == '/',
    decreases s.len(),
{
    if s.len() > 0 && s.last() == '/' {
        law_trim_trailing_slashes(s.drop_last());
        let t = trim_trailing_slashes_spec(s.drop_last());
        assert forall|i: int| t.len() <= i < s.len() implies #[trigger] s[i] == '/' by {
            if i < s.len() - 1 {
                assert(s[i] == s.drop_last()[i]);
            }
        }
        assert(t.is_prefix_of(s)) by {
            assert forall|i: int| 0 <= i < t.len() implies t[i] == s[i] by {
                assert(t[i] == s.drop_last()[i]);
            }
        }
    } else {
        assert(s.is_prefix_of(s));
    }
}

/// Removes every trailing `'/'` from `s`.
pub fn trim_trailing_slashes(s: &str) -> (r: String)
    ensures
        r@ == trim_trailing_slashes_spec(s@),
{
    let n = s.unicode_len();
    let mut k: usize = n;
    assert(s@.subrange(0, n as int) =~= s@);
    loop
        invariant
            n == s@.len(),
            k <= n,
            trim_trailing_slashes_spec(s@) == trim_trailing_slashes_spec(s@.subrange(0, k as int)),
        ensures
            trim_trailing_slashes_spec(s@) == s@.subrange(0, k as int),
        decreases k,
    {
        if k == 0 {
            assert(s@.subrange(0, 0).len() == 0);
            break;
        }
        let c = s.get_char(k - 1);
        if c != '/' {
            assert(s@.subrange(0, k as int).last() == c);
            break;
        }
        assert(s@.subrange(0, k as int).drop_last() =~= s@.subrange(0, k - 1));
        k = k - 1;
    }
    let t = s.substring_char(0, k);
    String::from_str(t)
}

/// The elements of `parts` joined by `sep`, as `[String]::join` writes them.
pub open spec fn joined(parts: Seq<Seq<char>>, sep: Seq<char>) -> Seq<char>
    decreases parts.len(),
{
    if parts.len() == 0 {
        Seq::empty()
    } else if parts.len() == 1 {
        parts[0]
    } else {
        joined(parts.drop_last(), sep) + sep + parts.last()
    }
}

/// Joining puts the separator between consecutive parts and nowhere else:
/// nothing for no parts, the part itself for one, and otherwise the first
/// part, the separator, and the rest joined.
pub proof fn law_join_separates_parts(parts: Seq<Seq<char>>, sep: Seq<char>)
    ensures
        parts.len() == 0 ==> joined(parts, sep) == Seq::<char>::empty(),
        parts.len() == 1 ==> joined(parts, sep) == parts[0],
        parts.len() >= 2 ==> joined(parts, sep) == parts[0] + sep + joined(parts.drop_first(), sep),
        parts.len() >= 1 ==> joined(parts.push(parts[0]), sep) == joined(parts, sep) + sep + parts[0],
    decreases parts.len(),
{
    if parts.len() >= 3 {
        law_join_separates_parts(parts.drop_last(), sep);
        let x = parts.drop_last().drop_first();
        assert(joined(parts.drop_last(), sep) == parts[0] + sep + joined(x, sep));
        assert(parts.drop_last().drop_first() =~= parts.drop_first().drop_last());
        assert(parts.drop_first().last() == parts.last());
        assert(parts.drop_last()[0] == parts[0]);
        assert(joined(parts, sep) == joined(parts.drop_last(), sep) + sep + parts.last());
        assert(joined(parts.drop_first(), sep) == joined(parts.drop_first().drop_last(), sep) + sep
            + parts.drop_first().last());
        assert(joined(parts.drop_first(), sep) == joined(x, sep) + sep + parts.last());
        assert(joined(parts, sep) =~= parts[0] + sep + joined(parts.drop_first(), sep));
    } else if parts.len() == 2 {
        assert(parts.drop_last() =~= seq![parts[0]]);
        assert(parts.drop_first() =~= seq![parts[1]]);
        assert(joined(parts.drop_last(), sep) == parts[0]);
        assert(joined(parts.drop_first(), sep) == parts[1]);
        assert(joined(parts, sep) == joined(parts.drop_last(), sep) + sep + parts.last());
    }
    if parts.len() >= 1 {
        assert(parts.push(parts[0]).drop_last() =~= parts);
    }
}

/// The views of a vector of strings.
pub open spec fn string_views(v: Seq<String>) -> Seq<Seq<char>> {
    v.map_values(|x: String| x@)
}

/// Joins `parts` with `sep` between consecutive elements.
pub fn join_strings(parts: &Vec<String>, sep: &str) -> (r: String)
    ensures
        r@ == joined(string_views(parts@), sep@),
{
    let mut r = String::new();
    let ghost views = string_views(parts@);
    let mut i: usize = 0;
    while i < parts.len()
        invariant
            i <= parts.len(),
            views == string_views(parts@),
            r@ == joined(views.take(i as int), sep@),
        decreases parts.len() - i,
    {
        if i != 0 {
            r.append(sep);
        }
        r.append(parts[i].as_str());
        proof {
            assert(views.take(i + 1).drop_last() =~= views.take(i as int));
            assert(views.take(i + 1).last() == parts@[i as int]@);
            if i == 0 {
                assert(views.take(0) =~= Seq::<Seq<char>>::empty());
            }
        }
        i = i + 1;
    }
    assert(views.take(parts.len() as int) =~= views);
    r
}

/// Whether two strings hold the same characters.
pub fn str_equal(a: &str, b: &str) -> (r: bool)
    ensures
        r == (a@ == b@),
{
    let x = String::from_str(a);
    let y = String::from_str(b);
    x == y
}

} // verus!
