//! Decimal formatting of integers and separator joins, the two text
//! primitives that the query builders are specified with.

use vstd::prelude::*;
use vstd::string::StringExecFns;

verus! {

/// The character for a single decimal digit.
pub open spec fn digit_char(d: nat) -> char {
    if d == 0 {
        '0'
    } else if d == 1 {
        '1'
    } else if d == 2 {
        '2'
    } else if d == 3 {
        '3'
    } else if d == 4 {
        '4'
    } else if d == 5 {
        '5'
    } else if d == 6 {
        '6'
    } else if d == 7 {
        '7'
    } else if d == 8 {
        '8'
    } else {
        '9'
    }
}

/// Decimal representation of a natural number, most significant digit first,
/// without leading zeros (zero itself is the single character '0').
pub open spec fn dec_digits(n: nat) -> Seq<char>
    decreases n,
{
    if n < 10 {
        seq![digit_char(n)]
    } else {
        dec_digits(n / 10) + seq![digit_char(n % 10)]
    }
}

/// Decimal representation of an integer: a leading '-' for negative values.
pub open spec fn dec_int(n: int) -> Seq<char> {
    if n < 0 {
        seq!['-'] + dec_digits((-n) as nat)
    } else {
        dec_digits(n as nat)
    }
}

/// The views of a sequence of strings.
pub open spec fn str_views(v: Seq<String>) -> Seq<Seq<char>> {
    v.map_values(|s: String| s@)
}

/// The decimal representations of a sequence of ids.
pub open spec fn dec_seq(ids: Seq<u32>) -> Seq<Seq<char>> {
    ids.map_values(|v: u32| dec_digits(v as nat))
}

/// The parts joined with the separator between consecutive parts.
pub open spec fn join_with(parts: Seq<Seq<char>>, sep: Seq<char>) -> Seq<char>
    decreases parts.len(),
{
    if parts.len() == 0 {
        Seq::empty()
    } else if parts.len() == 1 {
        parts[0]
    } else {
        parts[0] + sep + join_with(parts.drop_first(), sep)
    }
}

/// Appending one more part to a join extends it with the separator and the
/// part (or is just the part when nothing was joined yet).
pub proof fn lemma_join_with_push(parts: Seq<Seq<char>>, sep: Seq<char>, part: Seq<char>)
    ensures
        join_with(parts.push(part), sep) == if parts.len() == 0 {
            part
        } else {
            join_with(parts, sep) + sep + part
        },
    decreases parts.len(),
{
    if parts.len() == 0 {
        assert(parts.push(part) =~= seq![part]);
        assert(join_with(parts.push(part), sep) == part);
    } else {
        assert(parts.push(part).drop_first() =~= parts.drop_first().push(part));
        lemma_join_with_push(parts.drop_first(), sep, part);
        if parts.len() == 1 {
            assert(parts.drop_first().len() == 0);
            assert(join_with(parts.push(part), sep) =~= parts[0] + sep + part);
            assert(join_with(parts, sep) == parts[0]);
        } else {
            assert(join_with(parts.push(part), sep) =~= parts[0] + sep + (join_with(
                parts.drop_first(),
                sep,
            ) + sep + part));
            assert(join_with(parts, sep) + sep + part =~= parts[0] + sep + (join_with(
                parts.drop_first(),
                sep,
            ) + sep + part));
        }
    }
}

/// The string for a single decimal digit.
fn digit_str(d: u64) -> (r: &'static str)
    requires
        d < 10,
    ensures
        r@ == seq![digit_char(d as nat)],
{
    let r: &'static str = match d {
        0 => "0",
        1 => "1",
        2 => "2",
        3 => "3",
        4 => "4",
        5 => "5",
        6 => "6",
        7 => "7",
        8 => "8",
        _ => "9",
    };
    proof {
        reveal_strlit("0");
        reveal_strlit("1");
        reveal_strlit("2");
        reveal_strlit("3");
        reveal_strlit("4");
        reveal_strlit("5");
        reveal_strlit("6");
        reveal_strlit("7");
        reveal_strlit("8");
        reveal_strlit("9");
        assert(r@ =~= seq![digit_char(d as nat)]);
    }
    r
}

/// Formats an unsigned value in decimal.
pub fn u64_to_dec(n: u64) -> (r: String)
    ensures
        r@ == dec_digits(n as nat),
    decreases n,
{
    if n < 10 {
        digit_str(n).to_owned()
    } else {
        let mut r = u64_to_dec(n / 10);
        r.append(digit_str(n % 10));
        proof {
            assert(r@ =~= dec_digits(n as nat));
        }
        r
    }
}

/// Formats an unsigned 32-bit value in decimal.
pub fn u32_to_dec(n: u32) -> (r: String)
    ensures
        r@ == dec_digits(n as nat),
{
    u64_to_dec(n as u64)
}

/// Formats a signed value in decimal, with a leading '-' when negative.
pub fn i64_to_dec(n: i64) -> (r: String)
    ensures
        r@ == dec_int(n as int),
{
    if n >= 0 {
        u64_to_dec(n as u64)
    } else {
        let mag: u64 = if n == i64::MIN {
            9223372036854775808u64
        } else {
            (-n) as u64
        };
        let mut r = "-".to_owned();
        let digits = u64_to_dec(mag);
        r.append(digits.as_str());
        proof {
            reveal_strlit("-");
            assert(r@ =~= dec_int(n as int));
        }
        r
    }
}

/// The character for a single hexadecimal digit, lower case.
pub open spec fn hex_digit_char(d: nat) -> char {
    if d < 10 {
        digit_char(d)
    } else if d == 10 {
        'a'
    } else if d == 11 {
        'b'
    } else if d == 12 {
        'c'
    } else if d == 13 {
        'd'
    } else if d == 14 {
        'e'
    } else {
        'f'
    }
}

/// The string for a single hexadecimal digit.
pub fn hex_digit_str(d: u32) -> (r: &'static str)
    requires
        d < 16,
    ensures
        r@ == seq![hex_digit_char(d as nat)],
{
    if d < 10 {
        digit_str(d as u64)
    } else {
        let r: &'static str = match d {
            10 => "a",
            11 => "b",
            12 => "c",
            13 => "d",
            14 => "e",
            _ => "f",
        };
        proof {
            reveal_strlit("a");
            reveal_strlit("b");
            reveal_strlit("c");
            reveal_strlit("d");
            reveal_strlit("e");
            reveal_strlit("f");
            assert(r@ =~= seq![hex_digit_char(d as nat)]);
        }
        r
    }
}

/// Relies on String::push: appends exactly the one character.
#[verifier::external_body]
pub fn push_char(s: &mut String, c: char)
    ensures
        final(s)@ == old(s)@.push(c),
{
    s.push(c);
}

/// Concatenates a literal prefix and a built suffix.
pub fn prefixed(prefix: &str, rest: &str) -> (r: String)
    ensures
        r@ == prefix@ + rest@,
{
    let mut r = prefix.to_owned();
    r.append(rest);
    r
}

/// Joins the parts with the separator between consecutive parts.
pub fn join_strings(parts: &Vec<String>, sep: &str) -> (r: String)
    ensures
        r@ == join_with(str_views(parts@), sep@),
{
    let mut r = String::new();
    let mut i: usize = 0;
    while i < parts.len()
        invariant
            i <= parts.len(),
            r@ == join_with(str_views(parts@.take(i as int)), sep@),
        decreases parts.len() - i,
    {
        if i > 0 {
            r.append(sep);
        }
        r.append(parts[i].as_str());
        proof {
            let prefix = str_views(parts@.take(i as int));
            lemma_join_with_push(prefix, sep@, parts@[i as int]@);
            assert(str_views(parts@.take(i + 1 as int)) =~= prefix.push(parts@[i as int]@));
        }
        i = i + 1;
    }
    proof {
        assert(parts@.take(parts@.len() as int) =~= parts@);
    }
    r
}

/// Formats each id in decimal and joins them with the separator.
pub fn join_dec_u32(ids: &Vec<u32>, sep: &str) -> (r: String)
    ensures
        r@ == join_with(dec_seq(ids@), sep@),
{
    let mut parts: Vec<String> = Vec::new();
    let mut i: usize = 0;
    while i < ids.len()
        invariant
            i <= ids.len(),
            str_views(parts@) =~= dec_seq(ids@.take(i as int)),
        decreases ids.len() - i,
    {
        let ghost prev = parts@;
        parts.push(u32_to_dec(ids[i]));
        proof {
            assert(str_views(parts@) =~= str_views(prev).push(dec_digits(ids@[i as int] as nat)));
            assert(ids@.take((i + 1) as int) =~= ids@.take(i as int).push(ids@[i as int]));
            assert(dec_seq(ids@.take((i + 1) as int)) =~= dec_seq(ids@.take(i as int)).push(
                dec_digits(ids@[i as int] as nat),
            ));
        }
        i = i + 1;
    }
    proof {
        assert(ids@.take(ids@.len() as int) =~= ids@);
    }
    join_strings(&parts, sep)
}

/// A single optional filter: the filter text when the parameter is present,
/// nothing otherwise.
pub open spec fn one_if(cond: bool, text: Seq<char>) -> Seq<Seq<char>> {
    if cond {
        seq![text]
    } else {
        Seq::empty()
    }
}

/// The conjunction tail appended to a fixed WHERE clause: empty when there are
/// no filters, otherwise " AND " followed by the filters joined with " AND ".
pub open spec fn spec_and_clause(parts: Seq<Seq<char>>) -> Seq<char> {
    if parts.len() == 0 {
        Seq::empty()
    } else {
        " AND "@ + join_with(parts, " AND "@)
    }
}

/// Builds the conjunction tail for a list of filters.
pub fn and_clause(parts: &Vec<String>) -> (r: String)
    ensures
        r@ == spec_and_clause(str_views(parts@)),
{
    if parts.is_empty() {
        let r = String::new();
        proof {
            assert(r@ =~= spec_and_clause(str_views(parts@)));
        }
        r
    } else {
        let joined = join_strings(parts, " AND ");
        prefixed(" AND ", joined.as_str())
    }
}

/// A membership filter: the prefix, the ids in decimal joined with the
/// separator, and the closing suffix.
pub fn list_filter(prefix: &str, ids: &Vec<u32>, sep: &str, suffix: &str) -> (r: String)
    ensures
        r@ == prefix@ + join_with(dec_seq(ids@), sep@) + suffix@,
{
    let mut r = prefix.to_owned();
    let joined = join_dec_u32(ids, sep);
    r.append(joined.as_str());
    r.append(suffix);
    r
}

} // verus!
