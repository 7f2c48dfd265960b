//! Small text-building blocks for the renderer: decimal and hex digits,
//! JSON string escaping, and joining of parts with a separator.
//!
//! Everything here is stated over `Seq<char>`, the view of `String`, so the
//! record renderer can promise the exact text it emits.

use vstd::prelude::*;
use vstd::string::StringExecFns;
use vstd::string::StringSliceAdditionalSpecFns;
use vstd::std_specs::iter::IteratorSpec;

verus! {

/// Relies on std's `String::push`: it appends exactly the given character
/// to the end of the string.
#[verifier::external_body]
pub fn push_char(out: &mut String, c: char)
    ensures
        final(out)@ == old(out)@.push(c),
{
    out.push(c)
}

/// Relies on std's `str::from_utf8`: it returns `Ok` exactly when the bytes
/// are valid UTF-8, and the returned slice consists of those very bytes.
#[verifier::external_body]
pub fn bytes_as_utf8(bytes: &[u8]) -> (r: Option<&str>)
    ensures
        r is Some <==> vstd::utf8::valid_utf8(bytes@),
        r is Some ==> r->0.spec_bytes() == bytes@,
{
    match std::str::from_utf8(bytes) {
        Ok(s) => Some(s),
        Err(_) => None,
    }
}

/// The view of a valid UTF-8 decoding is `decode_utf8` of its bytes.
pub proof fn lemma_utf8_view(s: &str, bytes: Seq<u8>)
    requires
        s.spec_bytes() == bytes,
    ensures
        s@ == vstd::utf8::decode_utf8(bytes),
{
    vstd::utf8::encode_utf8_decode_utf8(s@);
}

/// The decimal digit character for `d` (`d` below ten).
pub open spec fn spec_dec_digit(d: u8) -> char {
    ((48 + d) as u8) as char
}

/// The lowercase hex digit character for `d` (`d` below sixteen).
pub open spec fn spec_hex_digit(d: u8) -> char {
    if d < 10 {
        ((48 + d) as u8) as char
    } else {
        ((87 + d) as u8) as char
    }
}

/// Decimal digits of `n`, empty for zero (helper for `decimal_of`).
pub open spec fn decimal_rec(n: nat) -> Seq<char>
    decreases n,
{
    if n == 0 {
        Seq::empty()
    } else {
        decimal_rec(n / 10) + seq![spec_dec_digit((n % 10) as u8)]
    }
}

/// The decimal rendering of `n`, without sign or leading zeros.
pub open spec fn decimal_of(n: nat) -> Seq<char> {
    if n == 0 {
        seq!['0']
    } else {
        decimal_rec(n)
    }
}

/// Two lowercase hex digits of one byte.
pub open spec fn hex_of_byte(b: u8) -> Seq<char> {
    seq![spec_hex_digit(b / 16), spec_hex_digit(b % 16)]
}

/// The parts joined by the separator: empty for no parts, and no
/// separator before the first or after the last part.
pub open spec fn join_with(parts: Seq<Seq<char>>, sep: Seq<char>) -> Seq<char>
    decreases parts.len(),
{
    if parts.len() == 0 {
        Seq::empty()
    } else if parts.len() == 1 {
        parts[0]
    } else {
        parts[0] + sep + join_with(parts.drop_first(), sep)
    }
}

/// Appending one part to a join adds one separator, except to an empty join.
pub proof fn lemma_join_with_snoc(parts: Seq<Seq<char>>, sep: Seq<char>, p: Seq<char>)
    ensures
        join_with(parts.push(p), sep) == if parts.len() == 0 {
            p
        } else {
            join_with(parts, sep) + sep + p
        },
    decreases parts.len(),
{
    let whole = parts.push(p);
    if parts.len() == 0 {
        assert(whole.len() == 1);
        assert(whole[0] == p);
    } else if parts.len() == 1 {
        assert(whole.drop_first() =~= seq![p]);
        assert(join_with(whole.drop_first(), sep) == p);
        assert(join_with(whole, sep) =~= join_with(parts, sep) + sep + p);
    } else {
        assert(whole.drop_first() =~= parts.drop_first().push(p));
        lemma_join_with_snoc(parts.drop_first(), sep, p);
        assert(join_with(whole, sep) =~= join_with(parts, sep) + sep + p);
    }
}

/// What one character contributes to a JSON string body: itself, unless it
/// is a quote, a backslash, or a control character, which are escaped.
pub open spec fn json_escaped_char(c: char) -> Seq<char> {
    if c == '"' {
        seq!['\\', '"']
    } else if c == '\\' {
        seq!['\\', '\\']
    } else if (c as u32) < 32 {
        if c == '\u{8}' {
            seq!['\\', 'b']
        } else if c == '\t' {
            seq!['\\', 't']
        } else if c == '\n' {
            seq!['\\', 'n']
        } else if c == '\u{c}' {
            seq!['\\', 'f']
        } else if c == '\r' {
            seq!['\\', 'r']
        } else {
            seq!['\\', 'u', '0', '0', spec_hex_digit(((c as u32) / 16) as u8), spec_hex_digit(
                ((c as u32) % 16) as u8,
            )]
        }
    } else {
        seq![c]
    }
}

/// The body of a JSON string: each character escaped as JSON asks.
pub open spec fn json_escaped(s: Seq<char>) -> Seq<char>
    decreases s.len(),
{
    if s.len() == 0 {
        Seq::empty()
    } else {
        json_escaped_char(s[0]) + json_escaped(s.drop_first())
    }
}

/// A whole JSON string: the escaped body between two quotes.
pub open spec fn json_string_of(s: Seq<char>) -> Seq<char> {
    seq!['"'] + json_escaped(s) + seq!['"']
}

/// Escaping one more character appends that character's escape.
pub proof fn lemma_json_escaped_snoc(s: Seq<char>, c: char)
    ensures
        json_escaped(s.push(c)) == json_escaped(s) + json_escaped_char(c),
    decreases s.len(),
{
    let whole = s.push(c);
    if s.len() == 0 {
        assert(whole.drop_first() =~= Seq::<char>::empty());
        assert(s =~= Seq::<char>::empty());
        assert(json_escaped(whole) == json_escaped_char(whole[0]) + json_escaped(
            whole.drop_first(),
        ));
        assert(whole[0] == c);
        assert(json_escaped(whole) =~= json_escaped(s) + json_escaped_char(c));
    } else {
        assert(whole.drop_first() =~= s.drop_first().push(c));
        lemma_json_escaped_snoc(s.drop_first(), c);
        assert(whole[0] == s[0]);
        assert(json_escaped(whole) == json_escaped_char(whole[0]) + json_escaped(
            whole.drop_first(),
        ));
        assert(json_escaped(s) == json_escaped_char(s[0]) + json_escaped(s.drop_first()));
        assert(json_escaped(whole) =~= json_escaped(s) + json_escaped_char(c));
    }
}

/// The decimal digit character for `d`.
pub fn dec_digit(d: u8) -> (c: char)
    requires
        d < 10,
    ensures
        c == spec_dec_digit(d),
{
    (48 + d) as char
}

/// The lowercase hex digit character for `d`.
pub fn hex_digit(d: u8) -> (c: char)
    requires
        d < 16,
    ensures
        c == spec_hex_digit(d),
{
    if d < 10 {
        (48 + d) as char
    } else {
        (87 + d) as char
    }
}

/// Appends the digits of a positive number (helper for `push_decimal`).
fn push_decimal_rec(out: &mut String, n: u64)
    requires
        n > 0,
    ensures
        final(out)@ == old(out)@ + decimal_rec(n as nat),
    decreases n,
{
    if n >= 10 {
        push_decimal_rec(out, n / 10);
    }
    push_char(out, dec_digit((n % 10) as u8));
    proof {
        assert(decimal_rec(n as nat) == decimal_rec(n as nat / 10) + seq![
            spec_dec_digit((n as nat % 10) as u8),
        ]);
        assert(out@ =~= old(out)@ + decimal_rec(n as nat));
    }
}

/// Appends the decimal rendering of `n`.
pub fn push_decimal(out: &mut String, n: u64)
    ensures
        final(out)@ == old(out)@ + decimal_of(n as nat),
{
    if n == 0 {
        push_char(out, '0');
    } else {
        push_decimal_rec(out, n);
    }
}

/// Appends the two lowercase hex digits of one byte.
pub fn push_hex_byte(out: &mut String, b: u8)
    ensures
        final(out)@ == old(out)@ + hex_of_byte(b),
{
    push_char(out, hex_digit(b / 16));
    push_char(out, hex_digit(b % 16));
}

/// The hex renderings of each byte, in order.
pub open spec fn hex_parts(bytes: Seq<u8>) -> Seq<Seq<char>> {
    bytes.map_values(|b: u8| hex_of_byte(b))
}

/// Appends the lowercase hex rendering of every byte, with nothing between.
pub fn push_hex_bytes(out: &mut String, bytes: &[u8])
    ensures
        final(out)@ == old(out)@ + join_with(hex_parts(bytes@), Seq::empty()),
{
    let n = bytes.len();
    let mut i: usize = 0;
    while i < n
        invariant
            i <= n,
            n == bytes@.len(),
            out@ == old(out)@ + join_with(hex_parts(bytes@.take(i as int)), Seq::empty()),
        decreases n - i,
    {
        let ghost done = bytes@.take(i as int);
        push_hex_byte(out, bytes[i]);
        proof {
            assert(bytes@.take(i + 1) =~= done.push(bytes@[i as int]));
            assert(hex_parts(done.push(bytes@[i as int])) =~= hex_parts(done).push(
                hex_of_byte(bytes@[i as int]),
            ));
            lemma_join_with_snoc(hex_parts(done), Seq::empty(), hex_of_byte(bytes@[i as int]));
            assert(out@ =~= old(out)@ + join_with(hex_parts(bytes@.take(i + 1)), Seq::empty()));
        }
        i = i + 1;
    }
    proof {
        assert(bytes@.take(n as int) =~= bytes@);
    }
}

/// The decimal renderings of each byte, in order.
pub open spec fn decimal_parts(bytes: Seq<u8>) -> Seq<Seq<char>> {
    bytes.map_values(|b: u8| decimal_of(b as nat))
}

/// Appends the decimal rendering of every byte, the separator between
/// neighbours.
pub fn push_joined_decimals(out: &mut String, bytes: &[u8], sep: &str)
    ensures
        final(out)@ == old(out)@ + join_with(decimal_parts(bytes@), sep@),
{
    let n = bytes.len();
    let mut i: usize = 0;
    while i < n
        invariant
            i <= n,
            n == bytes@.len(),
            out@ == old(out)@ + join_with(decimal_parts(bytes@.take(i as int)), sep@),
        decreases n - i,
    {
        let ghost done = bytes@.take(i as int);
        if i > 0 {
            out.append(sep);
        }
        push_decimal(out, bytes[i] as u64);
        proof {
            assert(bytes@.take(i + 1) =~= done.push(bytes@[i as int]));
            assert(decimal_parts(done.push(bytes@[i as int])) =~= decimal_parts(done).push(
                decimal_of(bytes@[i as int] as nat),
            ));
            lemma_join_with_snoc(decimal_parts(done), sep@, decimal_of(bytes@[i as int] as nat));
            assert(out@ =~= old(out)@ + join_with(decimal_parts(bytes@.take(i + 1)), sep@));
        }
        i = i + 1;
    }
    proof {
        assert(bytes@.take(n as int) =~= bytes@);
    }
}

/// Appends the JSON escape of every character of `s`, in order.
pub fn push_json_escaped(out: &mut String, s: &str)
    ensures
        final(out)@ == old(out)@ + json_escaped(s@),
{
    let ghost mut done: Seq<char> = Seq::empty();
    let mut it = s.chars();
    loop
        invariant_except_break
            done + it.remaining() == s@,
            out@ == old(out)@ + json_escaped(done),
            it.decrease() is Some,
        ensures
            out@ == old(out)@ + json_escaped(s@),
        decreases it.decrease()->0,
    {
        match it.next() {
            Some(c) => {
                proof {
                    lemma_json_escaped_snoc(done, c);
                    done = done.push(c);
                    assert(done + it.remaining() =~= s@);
                }
                if c == '"' {
                    push_char(out, '\\');
                    push_char(out, '"');
                } else if c == '\\' {
                    push_char(out, '\\');
                    push_char(out, '\\');
                } else if (c as u32) < 32 {
                    let code = c as u32;
                    if c == '\u{8}' {
                        push_char(out, '\\');
                        push_char(out, 'b');
                    } else if c == '\t' {
                        push_char(out, '\\');
                        push_char(out, 't');
                    } else if c == '\n' {
                        push_char(out, '\\');
                        push_char(out, 'n');
                    } else if c == '\u{c}' {
                        push_char(out, '\\');
                        push_char(out, 'f');
                    } else if c == '\r' {
                        push_char(out, '\\');
                        push_char(out, 'r');
                    } else {
                        push_char(out, '\\');
                        push_char(out, 'u');
                        push_char(out, '0');
                        push_char(out, '0');
                        push_char(out, hex_digit((code / 16) as u8));
                        push_char(out, hex_digit((code % 16) as u8));
                    }
                } else {
                    push_char(out, c);
                }
                proof {
                    assert(out@ =~= old(out)@ + json_escaped(done));
                }
            },
            None => {
                proof {
                    assert(done =~= s@);
                }
                break ;
            },
        }
    }
}

/// Appends a whole JSON string: quote, escaped body, quote.
pub fn push_json_string(out: &mut String, s: &str)
    ensures
        final(out)@ == old(out)@ + json_string_of(s@),
{
    push_char(out, '"');
    push_json_escaped(out, s);
    push_char(out, '"');
    proof {
        assert(out@ =~= old(out)@ + json_string_of(s@));
    }
}

} // verus!
