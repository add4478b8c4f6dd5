use vstd::prelude::*;

verus! {

// ---------------------------------------------------------------------
// Building strings from characters
// ---------------------------------------------------------------------

/// Relies on `String`'s `FromIterator` over characters: collecting the
/// characters of a vector yields the string with exactly those
/// characters in order.
#[verifier::external_body]
pub fn string_from_chars(chars: &Vec<char>) -> (r: String)
    ensures
        r@ == chars@,
{
    chars.iter().collect()
}

/// The characters of a string, as a vector.
pub fn chars_of(s: &str) -> (v: Vec<char>)
    ensures
        v@ == s@,
{
    let n = s.unicode_len();
    let mut v: Vec<char> = Vec::new();
    let mut i: usize = 0;
    while i < n
        invariant
            n == s@.len(),
            i <= n,
            v@ == s@.subrange(0, i as int),
        decreases n - i,
    {
        v.push(s.get_char(i));
        i = i + 1;
        proof {
            assert(v@ =~= s@.subrange(0, i as int));
        }
    }
    proof {
        assert(v@ =~= s@);
    }
    v
}

// ---------------------------------------------------------------------
// Decimal rendering of numbers
// ---------------------------------------------------------------------

/// The character for one decimal digit.
pub open spec fn spec_digit_char(d: nat) -> char {
    if d == 0 {
        '0'
    } else if d == 1 {
        '1'
    } else if d == 2 {
        '2'
    } else if d == 3 {
        '3'
    } else if d == 4 {
        '4'
    } else if d == 5 {
        '5'
    } else if d == 6 {
        '6'
    } else if d == 7 {
        '7'
    } else if d == 8 {
        '8'
    } else {
        '9'
    }
}

/// The decimal rendering of a number, most significant digit first,
/// without leading zeroes (`0` renders as `"0"`).
pub open spec fn spec_decimal(n: nat) -> Seq<char>
    decreases n,
{
    if n < 10 {
        seq![spec_digit_char(n)]
    } else {
        spec_decimal(n / 10).push(spec_digit_char(n % 10))
    }
}

fn digit_str(d: u32) -> (r: &'static str)
    requires
        d < 10,
    ensures
        r@ =~= seq![spec_digit_char(d as nat)],
{
    proof {
        reveal_strlit("0");
        reveal_strlit("1");
        reveal_strlit("2");
        reveal_strlit("3");
        reveal_strlit("4");
        reveal_strlit("5");
        reveal_strlit("6");
        reveal_strlit("7");
        reveal_strlit("8");
        reveal_strlit("9");
    }
    match d {
        0 => "0",
        1 => "1",
        2 => "2",
        3 => "3",
        4 => "4",
        5 => "5",
        6 => "6",
        7 => "7",
        8 => "8",
        _ => "9",
    }
}

/// Renders a number in decimal.
pub fn u32_to_string(n: u32) -> (r: String)
    ensures
        r@ == spec_decimal(n as nat),
    decreases n,
{
    if n < 10 {
        digit_str(n).to_owned()
    } else {
        let mut r = u32_to_string(n / 10);
        r.append(digit_str(n % 10));
        proof {
            assert(r@ =~= spec_decimal(n as nat));
        }
        r
    }
}

// ---------------------------------------------------------------------
// snake_case conversion
// ---------------------------------------------------------------------

/// Whether a character is an ASCII capital letter.
pub open spec fn spec_is_upper(c: char) -> bool {
    65 <= (c as u32) <= 90
}

/// The lowercased form of an ASCII capital letter; other characters are
/// unchanged.
pub open spec fn spec_lower(c: char) -> char {
    if spec_is_upper(c) {
        (((c as u32) + 32) as u8) as char
    } else {
        c
    }
}

/// The contribution of position `i` of `s` to the snake_case form: a
/// capital letter is lowercased, and additionally preceded by an
/// underscore when the previous character exists and is neither a
/// capital letter nor an underscore.
pub open spec fn spec_snake_piece(s: Seq<char>, i: int) -> Seq<char> {
    if spec_is_upper(s[i]) {
        if i > 0 && !spec_is_upper(s[i - 1]) && s[i - 1] != '_' {
            seq!['_', spec_lower(s[i])]
        } else {
            seq![spec_lower(s[i])]
        }
    } else {
        seq![s[i]]
    }
}

pub open spec fn spec_snake_prefix(s: Seq<char>, n: int) -> Seq<char>
    decreases n,
{
    if n <= 0 {
        Seq::empty()
    } else {
        spec_snake_prefix(s, n - 1) + spec_snake_piece(s, n - 1)
    }
}

/// The snake_case form of an identifier.
pub open spec fn spec_snake_case(s: Seq<char>) -> Seq<char> {
    spec_snake_prefix(s, s.len() as int)
}

fn is_upper(c: char) -> (r: bool)
    ensures
        r == spec_is_upper(c),
{
    let u = c as u32;
    65 <= u && u <= 90
}

fn lower(c: char) -> (r: char)
    ensures
        r == spec_lower(c),
{
    let u = c as u32;
    if 65 <= u && u <= 90 {
        ((u + 32) as u8) as char
    } else {
        c
    }
}

/// Converts an identifier to snake_case: ASCII capital letters are
/// lowercased, and an underscore is inserted before a capital that
/// follows a character which is neither a capital nor an underscore.
pub fn to_snake_case(name: &str) -> (r: String)
    ensures
        r@ == spec_snake_case(name@),
{
    let cs = chars_of(name);
    let mut out: Vec<char> = Vec::new();
    let mut i: usize = 0;
    while i < cs.len()
        invariant
            cs@ == name@,
            i <= cs@.len(),
            out@ == spec_snake_prefix(name@, i as int),
        decreases cs@.len() - i,
    {
        let c = cs[i];
        if is_upper(c) {
            if i > 0 && !is_upper(cs[i - 1]) && cs[i - 1] != '_' {
                out.push('_');
            }
            out.push(lower(c));
        } else {
            out.push(c);
        }
        i = i + 1;
        proof {
            assert(out@ =~= spec_snake_prefix(name@, i as int));
        }
    }
    string_from_chars(&out)
}

// ---------------------------------------------------------------------
// Levenshtein distance
// ---------------------------------------------------------------------

/// The Levenshtein edit distance between two character sequences: the
/// least number of single-character insertions, deletions and
/// substitutions that turns one into the other.
pub open spec fn spec_levenshtein(a: Seq<char>, b: Seq<char>) -> nat
    decreases a.len() + b.len(),
{
    if a.len() == 0 {
        b.len()
    } else if b.len() == 0 {
        a.len()
    } else if a[0] == b[0] {
        spec_levenshtein(a.skip(1), b.skip(1))
    } else {
        1 + min3(
            spec_levenshtein(a.skip(1), b),
            spec_levenshtein(a, b.skip(1)),
            spec_levenshtein(a.skip(1), b.skip(1)),
        )
    }
}

pub open spec fn min3(x: nat, y: nat, z: nat) -> nat {
    if x <= y && x <= z {
        x
    } else if y <= z {
        y
    } else {
        z
    }
}

/// The distance never exceeds the length of the longer sequence.
pub proof fn lemma_levenshtein_bound(a: Seq<char>, b: Seq<char>)
    ensures
        spec_levenshtein(a, b) <= if a.len() >= b.len() {
            a.len()
        } else {
            b.len()
        },
    decreases a.len() + b.len(),
{
    if a.len() == 0 || b.len() == 0 {
    } else {
        lemma_levenshtein_bound(a.skip(1), b.skip(1));
        if a[0] != b[0] {
            lemma_levenshtein_bound(a.skip(1), b);
            lemma_levenshtein_bound(a, b.skip(1));
        }
    }
}

fn lev_from(a: &Vec<char>, b: &Vec<char>, i: usize, j: usize) -> (r: usize)
    requires
        i <= a@.len(),
        j <= b@.len(),
    ensures
        r == spec_levenshtein(a@.skip(i as int), b@.skip(j as int)),
    decreases a@.len() - i + b@.len() - j,
{
    let ghost sa = a@.skip(i as int);
    let ghost sb = b@.skip(j as int);
    if i == a.len() {
        proof {
            assert(sa.len() == 0);
        }
        b.len() - j
    } else if j == b.len() {
        proof {
            assert(sb.len() == 0);
        }
        a.len() - i
    } else {
        proof {
            assert(sa[0] == a@[i as int]);
            assert(sb[0] == b@[j as int]);
            assert(sa.skip(1) =~= a@.skip(i + 1));
            assert(sb.skip(1) =~= b@.skip(j + 1));
        }
        if a[i] == b[j] {
            lev_from(a, b, i + 1, j + 1)
        } else {
            let del = lev_from(a, b, i + 1, j);
            let ins = lev_from(a, b, i, j + 1);
            let sub = lev_from(a, b, i + 1, j + 1);
            proof {
                lemma_levenshtein_bound(sa.skip(1), sb.skip(1));
            }
            let m = if del <= ins && del <= sub {
                del
            } else if ins <= sub {
                ins
            } else {
                sub
            };
            1 + m
        }
    }
}

/// The Levenshtein edit distance between two strings.
pub fn get_levenshtein_distance(a: &str, b: &str) -> (r: usize)
    ensures
        r == spec_levenshtein(a@, b@),
{
    let va = chars_of(a);
    let vb = chars_of(b);
    proof {
        assert(va@.skip(0) =~= a@);
        assert(vb@.skip(0) =~= b@);
    }
    lev_from(&va, &vb, 0, 0)
}

} // verus!
