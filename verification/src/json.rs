//! The byte-level JSON pieces that the vault header is authenticated with:
//! unsigned decimal numbers and quoted, escaped strings.

use vstd::prelude::*;

verus! {

/// The UTF-8 encoding of a string's characters: the bytes that `as_bytes`
/// gives.
pub open spec fn utf8(s: Seq<char>) -> Seq<u8> {
    vstd::utf8::encode_utf8(s)
}

/// ASCII digit for a value below ten.
pub open spec fn digit_byte(d: nat) -> u8
    recommends
        d < 10,
{
    (48 + d) as u8
}

/// Shortest decimal rendering of `n`, most significant digit first.
pub open spec fn decimal(n: nat) -> Seq<u8>
    decreases n,
{
    if n < 10 {
        seq![digit_byte(n)]
    } else {
        decimal(n / 10).push(digit_byte(n % 10))
    }
}

/// Appends the decimal rendering of `n` to `out`.
pub fn push_decimal(out: &mut Vec<u8>, n: u32)
    ensures
        final(out)@ == old(out)@ + decimal(n as nat),
    decreases n,
{
    if n >= 10 {
        push_decimal(out, n / 10);
    }
    let d: u8 = (n % 10) as u8;
    out.push(48u8 + d);
    proof {
        assert(final(out)@ =~= old(out)@ + decimal(n as nat));
    }
}


/// Lower-case hexadecimal digit for a value below sixteen.
pub open spec fn hex_digit(v: nat) -> u8
    recommends
        v < 16,
{
    if v < 10 {
        (48 + v) as u8
    } else {
        (87 + v) as u8
    }
}

/// How one byte of a string's UTF-8 encoding is written inside a JSON string
/// literal: the quote and the backslash are escaped, the control characters
/// with a short form get it, the other control characters become `\u00xx`,
/// and every other byte stands for itself.
pub open spec fn escape_byte(b: u8) -> Seq<u8> {
    if b == 0x22 {
        seq![0x5Cu8, 0x22u8]
    } else if b == 0x5C {
        seq![0x5Cu8, 0x5Cu8]
    } else if b == 0x08 {
        seq![0x5Cu8, 0x62u8]
    } else if b == 0x09 {
        seq![0x5Cu8, 0x74u8]
    } else if b == 0x0A {
        seq![0x5Cu8, 0x6Eu8]
    } else if b == 0x0C {
        seq![0x5Cu8, 0x66u8]
    } else if b == 0x0D {
        seq![0x5Cu8, 0x72u8]
    } else if b < 0x20 {
        seq![0x5Cu8, 0x75u8, 0x30u8, 0x30u8, hex_digit((b / 16) as nat), hex_digit((b % 16) as nat)]
    } else {
        seq![b]
    }
}

/// The escaped body of a JSON string literal.
pub open spec fn escape(s: Seq<u8>) -> Seq<u8>
    decreases s.len(),
{
    if s.len() == 0 {
        Seq::empty()
    } else {
        escape(s.drop_last()) + escape_byte(s.last())
    }
}

/// A complete JSON string literal for the bytes `s`.
pub open spec fn quoted(s: Seq<u8>) -> Seq<u8> {
    seq![0x22u8] + escape(s) + seq![0x22u8]
}

fn hex_digit_byte(v: u8) -> (r: u8)
    requires
        v < 16,
    ensures
        r == hex_digit(v as nat),
{
    if v < 10 {
        48 + v
    } else {
        87 + v
    }
}

/// Appends the escaped form of one byte.
fn push_escaped_byte(out: &mut Vec<u8>, b: u8)
    ensures
        final(out)@ == old(out)@ + escape_byte(b),
{
    if b == 0x22 || b == 0x5C {
        out.push(0x5C);
        out.push(b);
    } else if b == 0x08 {
        out.push(0x5C);
        out.push(0x62);
    } else if b == 0x09 {
        out.push(0x5C);
        out.push(0x74);
    } else if b == 0x0A {
        out.push(0x5C);
        out.push(0x6E);
    } else if b == 0x0C {
        out.push(0x5C);
        out.push(0x66);
    } else if b == 0x0D {
        out.push(0x5C);
        out.push(0x72);
    } else if b < 0x20 {
        out.push(0x5C);
        out.push(0x75);
        out.push(0x30);
        out.push(0x30);
        let hi = hex_digit_byte(b / 16);
        let lo = hex_digit_byte(b % 16);
        out.push(hi);
        out.push(lo);
    } else {
        out.push(b);
    }
    proof {
        assert(final(out)@ =~= old(out)@ + escape_byte(b));
    }
}

/// Appends `s` as a JSON string literal: its UTF-8 bytes, escaped, between
/// double quotes.
pub fn push_quoted(out: &mut Vec<u8>, s: &str)
    ensures
        final(out)@ == old(out)@ + quoted(utf8(s@)),
{
    let bytes = s.as_bytes();
    let ghost start = out@;
    out.push(0x22);
    let n = bytes.len();
    for i in 0..n
        invariant
            n == bytes@.len(),
            out@ == start + seq![0x22u8] + escape(bytes@.take(i as int)),
    {
        proof {
            assert(bytes@.take(i + 1).drop_last() =~= bytes@.take(i as int));
            assert(bytes@.take(i + 1).last() == bytes@[i as int]);
        }
        push_escaped_byte(out, bytes[i]);
        proof {
            assert(out@ =~= start + seq![0x22u8] + escape(bytes@.take(i + 1)));
        }
    }
    out.push(0x22);
    proof {
        assert(bytes@.take(n as int) =~= bytes@);
        assert(out@ =~= start + quoted(utf8(s@)));
    }
}


/// The decimal rendering of `n` as characters.
pub open spec fn decimal_text(n: nat) -> Seq<char> {
    decimal(n).map_values(|b: u8| b as char)
}

/// The one-character string for a decimal digit.
fn digit_str(d: u32) -> (r: &'static str)
    requires
        d < 10,
    ensures
        r@ == seq![digit_byte(d as nat) as char],
{
    match d {
        0 => {
            proof {
                reveal_strlit("0");
            }
            "0"
        },
        1 => {
            proof {
                reveal_strlit("1");
            }
            "1"
        },
        2 => {
            proof {
                reveal_strlit("2");
            }
            "2"
        },
        3 => {
            proof {
                reveal_strlit("3");
            }
            "3"
        },
        4 => {
            proof {
                reveal_strlit("4");
            }
            "4"
        },
        5 => {
            proof {
                reveal_strlit("5");
            }
            "5"
        },
        6 => {
            proof {
                reveal_strlit("6");
            }
            "6"
        },
        7 => {
            proof {
                reveal_strlit("7");
            }
            "7"
        },
        8 => {
            proof {
                reveal_strlit("8");
            }
            "8"
        },
        _ => {
            proof {
                reveal_strlit("9");
            }
            "9"
        },
    }
}

/// The decimal rendering of `n` as a `String`.
pub fn decimal_string(n: u32) -> (r: String)
    ensures
        r@ == decimal_text(n as nat),
    decreases n,
{
    if n < 10 {
        let r = String::from_str(digit_str(n));
        proof {
            assert(r@ =~= decimal_text(n as nat));
        }
        r
    } else {
        let head = decimal_string(n / 10);
        let r = head.concat(digit_str(n % 10));
        proof {
            assert(decimal(n as nat) == decimal((n / 10) as nat).push(digit_byte((n % 10) as nat)));
            assert(r@ =~= decimal_text(n as nat));
        }
        r
    }
}


/// A string's UTF-8 encoding has at most four bytes per character.
pub proof fn lemma_utf8_len(s: Seq<char>)
    ensures
        utf8(s).len() <= 4 * s.len(),
    decreases s.len(),
{
    if s.len() > 0 {
        lemma_utf8_len(s.drop_first());
    }
}

/// Escaping writes at most six bytes for each byte.
pub proof fn lemma_escape_len(s: Seq<u8>)
    ensures
        escape(s).len() <= 6 * s.len(),
    decreases s.len(),
{
    if s.len() > 0 {
        lemma_escape_len(s.drop_last());
    }
}

/// A decimal rendering has at least one digit and at most `n + 1`.
pub proof fn lemma_decimal_len(n: nat)
    ensures
        1 <= decimal(n).len() <= n + 1,
    decreases n,
{
    if n >= 10 {
        lemma_decimal_len(n / 10);
    }
}


/// Escaping distributes over concatenation.
pub proof fn lemma_escape_append(a: Seq<u8>, b: Seq<u8>)
    ensures
        escape(a + b) == escape(a) + escape(b),
    decreases b.len(),
{
    if b.len() == 0 {
        assert(a + b =~= a);
        assert(escape(a) + escape(b) =~= escape(a));
    } else {
        lemma_escape_append(a, b.drop_last());
        assert((a + b).drop_last() =~= a + b.drop_last());
        assert(escape(a + b) =~= escape(a) + escape(b));
    }
}

/// The escape of a non-empty string starts with the escape of its first byte.
pub proof fn lemma_escape_first(s: Seq<u8>)
    requires
        s.len() > 0,
    ensures
        escape(s) == escape_byte(s[0]) + escape(s.drop_first()),
{
    lemma_escape_append(seq![s[0]], s.drop_first());
    assert(seq![s[0]] + s.drop_first() =~= s);
    assert(seq![s[0]].drop_last() =~= Seq::<u8>::empty());
    assert(seq![s[0]].last() == s[0]);
    assert(escape(Seq::<u8>::empty()) == Seq::<u8>::empty());
    assert(escape(seq![s[0]]) =~= escape_byte(s[0]));
}

/// Escapes are a prefix code: an escaped byte never starts with a double
/// quote, and two escapes that begin a common text are those of one byte.
pub proof fn lemma_escape_byte_prefix(c: u8, d: u8, x: Seq<u8>, y: Seq<u8>)
    requires
        escape_byte(c) + x == escape_byte(d) + y,
    ensures
        c == d,
        x == y,
{
    let s = escape_byte(c) + x;
    let ec = escape_byte(c);
    let ed = escape_byte(d);
    assert(s[0] == ec[0] && s[0] == ed[0]);
    if ec.len() >= 2 && ed.len() >= 2 {
        assert(s[1] == ec[1] && s[1] == ed[1]);
    }
    if ec.len() == 6 && ed.len() == 6 {
        assert(s[4] == ec[4] && s[4] == ed[4]);
        assert(s[5] == ec[5] && s[5] == ed[5]);
        assert(c == 16 * (c / 16) + c % 16);
        assert(d == 16 * (d / 16) + d % 16);
    }
    assert(c == d);
    assert(x =~= s.subrange(ec.len() as int, s.len() as int));
    assert(y =~= s.subrange(ed.len() as int, s.len() as int));
}

/// A quoted string can be read back from the front of a text: whatever
/// follows the closing quote is left over unchanged.
pub proof fn lemma_escape_prefix(a: Seq<u8>, b: Seq<u8>, x: Seq<u8>, y: Seq<u8>)
    requires
        escape(a) + seq![0x22u8] + x == escape(b) + seq![0x22u8] + y,
    ensures
        a == b,
        x == y,
    decreases a.len(),
{
    let s = escape(a) + seq![0x22u8] + x;
    if a.len() == 0 {
        if b.len() > 0 {
            lemma_escape_first(b);
            assert(s[0] == escape_byte(b[0])[0]);
        }
        assert(b.len() == 0);
        assert(x =~= s.drop_first());
        assert(y =~= s.drop_first());
        assert(a =~= b);
    } else {
        lemma_escape_first(a);
        if b.len() == 0 {
            assert(s[0] == escape_byte(a[0])[0]);
        }
        lemma_escape_first(b);
        assert(escape_byte(a[0]) + (escape(a.drop_first()) + seq![0x22u8] + x) =~= s);
        assert(escape_byte(b[0]) + (escape(b.drop_first()) + seq![0x22u8] + y) =~= escape(b)
            + seq![0x22u8] + y);
        lemma_escape_byte_prefix(
            a[0],
            b[0],
            escape(a.drop_first()) + seq![0x22u8] + x,
            escape(b.drop_first()) + seq![0x22u8] + y,
        );
        lemma_escape_prefix(a.drop_first(), b.drop_first(), x, y);
        assert(a =~= seq![a[0]] + a.drop_first());
        assert(b =~= seq![b[0]] + b.drop_first());
    }
}

/// Two texts that each start with a quoted string agree on the strings and
/// on what follows them.
pub proof fn lemma_quoted_prefix(a: Seq<u8>, b: Seq<u8>, x: Seq<u8>, y: Seq<u8>)
    requires
        quoted(a) + x == quoted(b) + y,
    ensures
        a == b,
        x == y,
{
    let s = quoted(a) + x;
    assert(escape(a) + seq![0x22u8] + x =~= s.drop_first());
    assert(escape(b) + seq![0x22u8] + y =~= (quoted(b) + y).drop_first());
    lemma_escape_prefix(a, b, x, y);
}

/// Every byte of a decimal rendering is an ASCII digit.
pub proof fn lemma_decimal_digits(n: nat)
    ensures
        forall|i: int| 0 <= i < decimal(n).len() ==> 48 <= #[trigger] decimal(n)[i] <= 57,
    decreases n,
{
    if n >= 10 {
        lemma_decimal_digits(n / 10);
        let d = decimal(n / 10);
        assert forall|i: int| 0 <= i < decimal(n).len() implies 48 <= #[trigger] decimal(n)[i]
            <= 57 by {
            if i < d.len() {
                assert(decimal(n)[i] == d[i]);
            }
        }
    }
}

/// Decimal renderings of different numbers differ.
pub proof fn lemma_decimal_injective(n: nat, m: nat)
    requires
        decimal(n) == decimal(m),
    ensures
        n == m,
    decreases n,
{
    lemma_decimal_len(n / 10);
    lemma_decimal_len(m / 10);
    if n < 10 && m < 10 {
        assert(decimal(n)[0] == digit_byte(n));
        assert(decimal(m)[0] == digit_byte(m));
    } else if n >= 10 && m >= 10 {
        assert(decimal(n / 10) =~= decimal(n).drop_last());
        assert(decimal(m / 10) =~= decimal(m).drop_last());
        lemma_decimal_injective(n / 10, m / 10);
        assert(decimal(n).last() == digit_byte(n % 10));
        assert(decimal(m).last() == digit_byte(m % 10));
        assert(n % 10 == m % 10);
        assert(n == 10 * (n / 10) + n % 10);
        assert(m == 10 * (m / 10) + m % 10);
    } else if n < 10 {
        assert(decimal(n).len() == 1);
        assert(decimal(m).len() == decimal(m / 10).len() + 1);
    } else {
        assert(decimal(m).len() == 1);
        assert(decimal(n).len() == decimal(n / 10).len() + 1);
    }
}

/// A number written in decimal can be read back from the front of a text
/// when a non-digit follows it.
pub proof fn lemma_decimal_prefix(n: nat, m: nat, x: Seq<u8>, y: Seq<u8>)
    requires
        decimal(n) + x == decimal(m) + y,
        x.len() > 0 && !(48 <= x[0] <= 57),
        y.len() > 0 && !(48 <= y[0] <= 57),
    ensures
        n == m,
        x == y,
{
    let s = decimal(n) + x;
    let k = decimal(n).len();
    let j = decimal(m).len();
    lemma_decimal_digits(n);
    lemma_decimal_digits(m);
    if k < j {
        assert(s[k as int] == x[0]);
        assert(s[k as int] == decimal(m)[k as int]);
    }
    if j < k {
        assert(s[j as int] == y[0]);
        assert(s[j as int] == decimal(n)[j as int]);
    }
    assert(decimal(n) =~= s.subrange(0, k as int));
    assert(decimal(m) =~= s.subrange(0, k as int));
    lemma_decimal_injective(n, m);
    assert(x =~= s.subrange(k as int, s.len() as int));
    assert(y =~= s.subrange(k as int, s.len() as int));
}

/// A string's UTF-8 encoding determines the string.
pub proof fn lemma_utf8_injective(a: Seq<char>, b: Seq<char>)
    requires
        utf8(a) == utf8(b),
    ensures
        a == b,
{
    vstd::utf8::encode_utf8_decode_utf8(a);
    vstd::utf8::encode_utf8_decode_utf8(b);
}

} // verus!
