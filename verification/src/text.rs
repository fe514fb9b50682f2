use num_format::ToFormattedString;
use vstd::prelude::*;
use vstd::string::StringExecFns;

verus! {

/// How one character is written inside HTML text or an attribute value:
/// the four characters that could change the markup become entities.
pub open spec fn escape_char(c: char) -> Seq<char> {
    if c == '&' {
        seq!['&', 'a', 'm', 'p', ';']
    } else if c == '<' {
        seq!['&', 'l', 't', ';']
    } else if c == '>' {
        seq!['&', 'g', 't', ';']
    } else if c == '"' {
        seq!['&', 'q', 'u', 'o', 't', ';']
    } else {
        seq![c]
    }
}

/// The HTML-escaped form of a string.
pub open spec fn escaped(s: Seq<char>) -> Seq<char>
    decreases s.len(),
{
    if s.len() == 0 {
        Seq::empty()
    } else {
        escape_char(s[0]) + escaped(s.drop_first())
    }
}

pub proof fn lemma_escaped_push(s: Seq<char>, i: int)
    requires
        0 <= i < s.len(),
    ensures
        escaped(s.take(i + 1)) == escaped(s.take(i)) + escape_char(s[i]),
    decreases i,
{
    if i == 0 {
        assert(s.take(1).drop_first() =~= Seq::<char>::empty());
        assert(s.take(0) =~= Seq::<char>::empty());
        assert(s.take(1)[0] == s[0]);
        assert(s.take(1).len() == 1);
        assert(escaped(s.take(1)) == escape_char(s.take(1)[0]) + escaped(s.take(1).drop_first()));
        assert(escape_char(s[0]) + Seq::<char>::empty() =~= escape_char(s[0]));
        assert(escaped(s.take(0)) + escape_char(s[0]) =~= escape_char(s[0]));
    } else {
        let t = s.drop_first();
        lemma_escaped_push(t, i - 1);
        assert(s.take(i + 1).drop_first() =~= t.take(i));
        assert(s.take(i).drop_first() =~= t.take(i - 1));
        assert(escaped(s.take(i + 1)) == escape_char(s[0]) + escaped(t.take(i)));
        assert(escaped(s.take(i)) == escape_char(s[0]) + escaped(t.take(i - 1)));
        assert(t[i - 1] == s[i]);
        assert(escape_char(s[0]) + (escaped(t.take(i - 1)) + escape_char(s[i])) =~= (escape_char(
            s[0],
        ) + escaped(t.take(i - 1))) + escape_char(s[i]));
    }
}

/// Relies on std's `str::chars`: yields the string's characters in order.
#[verifier::external_body]
fn chars_of(s: &str) -> (r: Vec<char>)
    ensures
        r@ == s@,
{
    s.chars().collect()
}

/// Relies on std's `String::push`: appends one character.
#[verifier::external_body]
fn push_char(s: &mut String, c: char)
    ensures
        final(s)@ == old(s)@.push(c),
{
    s.push(c)
}

/// HTML-escapes a string for use as text content or an attribute value.
pub fn escape(s: &str) -> (r: String)
    ensures
        r@ == escaped(s@),
{
    let cs = chars_of(s);
    let mut r = String::new();
    let mut i: usize = 0;
    while i < cs.len()
        invariant
            cs@ == s@,
            i <= cs.len(),
            r@ == escaped(s@.take(i as int)),
        decreases cs.len() - i,
    {
        let c = cs[i];
        if c == '&' {
            r.append("&amp;");
        } else if c == '<' {
            r.append("&lt;");
        } else if c == '>' {
            r.append("&gt;");
        } else if c == '"' {
            r.append("&quot;");
        } else {
            push_char(&mut r, c);
        }
        proof {
            lemma_escaped_push(s@, i as int);
            reveal_strlit("&amp;");
            reveal_strlit("&lt;");
            reveal_strlit("&gt;");
            reveal_strlit("&quot;");
            assert(r@ =~= escaped(s@.take((i + 1) as int)));
        }
        i += 1;
    }
    proof {
        assert(s@.take(cs@.len() as int) =~= s@);
    }
    r
}

/// The decimal digit characters of `n`, most significant first.
pub open spec fn dec_seq(n: nat) -> Seq<char>
    decreases n,
{
    if n < 10 {
        seq![dec_digit(n as int)]
    } else {
        dec_seq((n / 10) as nat).push(dec_digit((n % 10) as int))
    }
}

/// The digit character for a value between 0 and 9.
pub open spec fn dec_digit(d: int) -> char {
    if d == 0 {
        '0'
    } else if d == 1 {
        '1'
    } else if d == 2 {
        '2'
    } else if d == 3 {
        '3'
    } else if d == 4 {
        '4'
    } else if d == 5 {
        '5'
    } else if d == 6 {
        '6'
    } else if d == 7 {
        '7'
    } else if d == 8 {
        '8'
    } else {
        '9'
    }
}

fn dec_digit_exec(d: u64) -> (c: char)
    requires
        d < 10,
    ensures
        c == dec_digit(d as int),
{
    if d == 0 {
        '0'
    } else if d == 1 {
        '1'
    } else if d == 2 {
        '2'
    } else if d == 3 {
        '3'
    } else if d == 4 {
        '4'
    } else if d == 5 {
        '5'
    } else if d == 6 {
        '6'
    } else if d == 7 {
        '7'
    } else if d == 8 {
        '8'
    } else {
        '9'
    }
}

/// Writes `n` in decimal, most significant digit first.
pub fn dec_string(n: u64) -> (r: String)
    ensures
        r@ == dec_seq(n as nat),
{
    let mut digits: Vec<char> = Vec::new();
    let mut m: u64 = n;
    proof {
        assert(dec_seq(n as nat) =~= dec_seq(m as nat) + digits@);
    }
    loop
        invariant_except_break
            dec_seq(n as nat) == dec_seq(m as nat) + digits@,
        ensures
            dec_seq(n as nat) == digits@,
        decreases m,
    {
        let d = dec_digit_exec(m % 10);
        let ghost d0 = digits@;
        digits.insert(0, d);
        proof {
            assert(digits@ =~= seq![d] + d0);
            if m >= 10 {
                assert(dec_seq(m as nat) == dec_seq((m / 10) as nat).push(
                    dec_digit((m % 10) as int),
                ));
                assert(dec_seq(m as nat) + d0 =~= dec_seq((m / 10) as nat) + digits@);
            } else {
                assert(dec_seq(m as nat) =~= seq![d]);
                assert(dec_seq(m as nat) + d0 =~= digits@);
            }
        }
        if m < 10 {
            break ;
        }
        m = m / 10;
    }
    let mut r = String::new();
    let mut i: usize = 0;
    while i < digits.len()
        invariant
            i <= digits.len(),
            r@ == digits@.take(i as int),
        decreases digits.len() - i,
    {
        push_char(&mut r, digits[i]);
        proof {
            assert(digits@.take((i + 1) as int) =~= digits@.take(i as int).push(digits@[i as int]));
        }
        i += 1;
    }
    proof {
        assert(digits@.take(digits@.len() as int) =~= digits@);
    }
    r
}

/// `digits` regrouped from the right in blocks of three, comma-separated:
/// the form the en locale gives a whole number.
pub open spec fn grouped(digits: Seq<char>) -> Seq<char>
    decreases digits.len(),
{
    if digits.len() <= 3 {
        digits
    } else {
        grouped(digits.take(digits.len() - 3)) + seq![','] + digits.skip(digits.len() - 3)
    }
}

/// Relies on num_format's `ToFormattedString` for `u64` with `Locale::en`:
/// decimal digits separated into groups of three by commas.
#[verifier::external_body]
pub(crate) fn formatted_u64(n: u64) -> (r: String)
    ensures
        r@ == grouped(dec_seq(n as nat)),
{
    n.to_formatted_string(&num_format::Locale::en)
}

/// The hexadecimal digit character for a value between 0 and 15.
pub open spec fn hex_digit(d: int) -> char {
    if d < 10 {
        dec_digit(d)
    } else if d == 10 {
        'a'
    } else if d == 11 {
        'b'
    } else if d == 12 {
        'c'
    } else if d == 13 {
        'd'
    } else if d == 14 {
        'e'
    } else {
        'f'
    }
}

/// The `i`-th hexadecimal digit of `n`, counting from the most
/// significant of its 32 digits.
pub open spec fn uuid_nibble(n: u128, i: int) -> int {
    ((n >> (((31 - i) * 4) as u128)) & 0xf) as int
}

/// The hyphenated unique-id form of a 128-bit value: 32 lowercase
/// hexadecimal digits, most significant first, with hyphens after the
/// 8th, 12th, 16th and 20th digit.
pub open spec fn uuid_seq(n: u128) -> Seq<char> {
    Seq::new(
        36,
        |i: int|
            if i == 8 || i == 13 || i == 18 || i == 23 {
                '-'
            } else {
                hex_digit(uuid_nibble(n, uuid_digit_pos(i)))
            },
    )
}

/// Which of the 32 hex digits stands at string position `i`.
pub open spec fn uuid_digit_pos(i: int) -> int {
    if i < 8 {
        i
    } else if i < 13 {
        i - 1
    } else if i < 18 {
        i - 2
    } else if i < 23 {
        i - 3
    } else {
        i - 4
    }
}

/// Relies on the uuid crate's `Display` for `Uuid` (with `from_u128`,
/// which takes the value's big-endian bytes): the hyphenated, lowercase
/// hexadecimal form.
#[verifier::external_body]
pub(crate) fn uuid_string(id: u128) -> (r: String)
    ensures
        r@ == uuid_seq(id),
{
    uuid::Uuid::from_u128(id).to_string()
}

} // verus!
