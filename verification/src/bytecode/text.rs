use vstd::prelude::*;
use vstd::string::StringExecFns;

verus! {

/// The character of a decimal digit.
pub open spec fn digit_char(digit: nat) -> char {
    if digit == 0 {
        '0'
    } else if digit == 1 {
        '1'
    } else if digit == 2 {
        '2'
    } else if digit == 3 {
        '3'
    } else if digit == 4 {
        '4'
    } else if digit == 5 {
        '5'
    } else if digit == 6 {
        '6'
    } else if digit == 7 {
        '7'
    } else if digit == 8 {
        '8'
    } else {
        '9'
    }
}

/// The decimal digits of a number, most significant first, without leading
/// zeros.
pub open spec fn decimal(n: nat) -> Seq<char>
    decreases n,
{
    if n < 10 {
        seq![digit_char(n)]
    } else {
        decimal(n / 10).push(digit_char(n % 10))
    }
}

/// `count` times the character `fill`.
pub open spec fn filler(fill: char, count: nat) -> Seq<char> {
    Seq::new(count, |i: int| fill)
}

/// The text, with `fill` in front of it as often as it takes to reach
/// `width` characters. A text that is as long or longer stays as it is.
pub open spec fn padded(text: Seq<char>, width: nat, fill: char) -> Seq<char> {
    if text.len() >= width {
        text
    } else {
        filler(fill, (width - text.len()) as nat) + text
    }
}

/// The text of one decimal digit.
fn digit_text(digit: usize) -> (r: &'static str)
    requires
        digit < 10,
    ensures
        r@ == seq![digit_char(digit as nat)],
{
    proof {
        reveal_strlit("0");
        reveal_strlit("1");
        reveal_strlit("2");
        reveal_strlit("3");
        reveal_strlit("4");
        reveal_strlit("5");
        reveal_strlit("6");
        reveal_strlit("7");
        reveal_strlit("8");
        reveal_strlit("9");
    }
    let r = if digit == 0 {
        "0"
    } else if digit == 1 {
        "1"
    } else if digit == 2 {
        "2"
    } else if digit == 3 {
        "3"
    } else if digit == 4 {
        "4"
    } else if digit == 5 {
        "5"
    } else if digit == 6 {
        "6"
    } else if digit == 7 {
        "7"
    } else if digit == 8 {
        "8"
    } else {
        "9"
    };
    assert(r@ =~= seq![digit_char(digit as nat)]);
    r
}

/// Appends the decimal digits of `n` to `out` and says how many they are.
pub fn append_decimal(out: &mut String, n: usize) -> (count: usize)
    ensures
        final(out)@ == old(out)@ + decimal(n as nat),
        count == decimal(n as nat).len(),
        1 <= count <= 20,
    decreases n,
{
    if n < 10 {
        out.append(digit_text(n));
        1
    } else {
        let before = append_decimal(out, n / 10);
        out.append(digit_text(n % 10));
        assert(out@ =~= old(out)@ + decimal(n as nat));
        proof {
            lemma_decimal_len(n as nat);
        }
        before + 1
    }
}

/// A number below `10^20` has at most 20 digits; every `usize` is below.
pub proof fn lemma_decimal_len(n: nat)
    requires
        n <= usize::MAX,
    ensures
        1 <= decimal(n).len() <= 20,
{
    reveal_with_fuel(pow10, 21);
    assert(pow10(20) == 100000000000000000000nat);
    lemma_decimal_bound(n, 20);
}

/// A number below `10^digits` has at most `digits` digits.
proof fn lemma_decimal_bound(n: nat, digits: nat)
    requires
        digits >= 1,
        n < pow10(digits),
    ensures
        1 <= decimal(n).len() <= digits,
    decreases n,
{
    if n >= 10 {
        if digits == 1 {
            assert(pow10(1) == 10 * pow10(0));
        } else {
            assert(n / 10 < pow10((digits - 1) as nat)) by (nonlinear_arith)
                requires
                    n < 10 * pow10((digits - 1) as nat),
            ;
            lemma_decimal_bound(n / 10, (digits - 1) as nat);
        }
    }
}

/// Ten to the power of `e`.
pub open spec fn pow10(e: nat) -> nat
    decreases e,
{
    if e == 0 {
        1
    } else {
        10 * pow10((e - 1) as nat)
    }
}

/// The decimal digits of `n`, with `fill` in front of them as often as it
/// takes to reach `width` characters.
fn padded_decimal(n: usize, width: usize, fill: &'static str, Ghost(c): Ghost<char>) -> (r: String)
    requires
        fill@ == seq![c],
    ensures
        r@ == padded(decimal(n as nat), width as nat, c),
{
    let mut digits = String::from_str("");
    proof {
        reveal_strlit("");
    }
    let count = append_decimal(&mut digits, n);
    assert(digits@ =~= decimal(n as nat));
    let mut r = String::from_str("");
    assert(r@ =~= filler(c, 0));
    let mut i: usize = count;
    while i < width
        invariant
            count <= i,
            i <= width || i == count,
            fill@ == seq![c],
            r@ == filler(c, (i - count) as nat),
        decreases width - i,
    {
        r.append(fill);
        i += 1;
        assert(r@ =~= filler(c, (i - count) as nat));
    }
    r.append(digits.as_str());
    assert(r@ =~= padded(decimal(n as nat), width as nat, c));
    r
}

/// The decimal digits of `n`, with zeros in front of them as often as it
/// takes to reach `width` characters.
pub fn zero_padded(n: usize, width: usize) -> (r: String)
    ensures
        r@ == padded(decimal(n as nat), width as nat, '0'),
{
    proof {
        reveal_strlit("0");
    }
    assert("0"@ =~= seq!['0']);
    padded_decimal(n, width, "0", Ghost('0'))
}

/// The decimal digits of `n`, with spaces in front of them as often as it
/// takes to reach `width` characters.
pub fn space_padded(n: usize, width: usize) -> (r: String)
    ensures
        r@ == padded(decimal(n as nat), width as nat, ' '),
{
    proof {
        reveal_strlit(" ");
    }
    assert(" "@ =~= seq![' ']);
    padded_decimal(n, width, " ", Ghost(' '))
}

/// The character of a hexadecimal digit, in lower case.
pub open spec fn hex_char(digit: nat) -> char {
    if digit < 10 {
        digit_char(digit)
    } else if digit == 10 {
        'a'
    } else if digit == 11 {
        'b'
    } else if digit == 12 {
        'c'
    } else if digit == 13 {
        'd'
    } else if digit == 14 {
        'e'
    } else {
        'f'
    }
}

/// The two hexadecimal digits of a byte.
pub open spec fn hex_byte(byte: u8) -> Seq<char> {
    seq![hex_char((byte / 16) as nat), hex_char((byte % 16) as nat)]
}

/// The bytes as pairs of hexadecimal digits, with a comma and a space
/// between one byte and the next.
pub open spec fn hex_list(bytes: Seq<u8>) -> Seq<char>
    decreases bytes.len(),
{
    if bytes.len() == 0 {
        Seq::empty()
    } else if bytes.len() == 1 {
        hex_byte(bytes[0])
    } else {
        hex_list(bytes.drop_last()) + ", "@ + hex_byte(bytes.last())
    }
}

/// The text of one hexadecimal digit.
fn hex_text(digit: u8) -> (r: &'static str)
    requires
        digit < 16,
    ensures
        r@ == seq![hex_char(digit as nat)],
{
    if digit < 10 {
        digit_text(digit as usize)
    } else {
        proof {
            reveal_strlit("a");
            reveal_strlit("b");
            reveal_strlit("c");
            reveal_strlit("d");
            reveal_strlit("e");
            reveal_strlit("f");
        }
        let r = if digit == 10 {
            "a"
        } else if digit == 11 {
            "b"
        } else if digit == 12 {
            "c"
        } else if digit == 13 {
            "d"
        } else if digit == 14 {
            "e"
        } else {
            "f"
        };
        assert(r@ =~= seq![hex_char(digit as nat)]);
        r
    }
}

/// Appends the two hexadecimal digits of a byte to `out`.
pub fn append_hex_byte(out: &mut String, byte: u8)
    ensures
        final(out)@ == old(out)@ + hex_byte(byte),
{
    out.append(hex_text(byte / 16));
    out.append(hex_text(byte % 16));
    assert(out@ =~= old(out)@ + hex_byte(byte));
}

/// Appends the first `count` of the bytes as `hex_list` shows them.
pub fn append_hex_list(out: &mut String, bytes: &[u8], count: usize)
    requires
        count <= bytes@.len(),
    ensures
        final(out)@ == old(out)@ + hex_list(bytes@.take(count as int)),
{
    let mut i: usize = 0;
    assert(out@ =~= old(out)@ + hex_list(bytes@.take(0)));
    while i < count
        invariant
            i <= count <= bytes@.len(),
            out@ == old(out)@ + hex_list(bytes@.take(i as int)),
        decreases count - i,
    {
        let ghost before = out@;
        if i > 0 {
            out.append(", ");
        }
        append_hex_byte(out, bytes[i]);
        i += 1;
        proof {
            let now = bytes@.take(i as int);
            assert(now.drop_last() =~= bytes@.take(i - 1));
            assert(now.last() == bytes@[i - 1]);
            assert(out@ =~= old(out)@ + hex_list(now));
        }
    }
}

} // verus!
