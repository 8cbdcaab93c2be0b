//! Numbers and padded fields as text, for the build log.

use vstd::prelude::*;
use vstd::string::*;

verus! {

/// `String::push` appends one character to the end of the string.
pub assume_specification[ String::push ](s: &mut String, ch: char)
    ensures
        final(s)@ == old(s)@.push(ch),
;

/// The character of a digit below sixteen, with lower-case letters from
/// ten on.
pub open spec fn spec_digit(d: nat) -> char {
    if d == 0 {
        '0'
    } else if d == 1 {
        '1'
    } else if d == 2 {
        '2'
    } else if d == 3 {
        '3'
    } else if d == 4 {
        '4'
    } else if d == 5 {
        '5'
    } else if d == 6 {
        '6'
    } else if d == 7 {
        '7'
    } else if d == 8 {
        '8'
    } else if d == 9 {
        '9'
    } else if d == 10 {
        'a'
    } else if d == 11 {
        'b'
    } else if d == 12 {
        'c'
    } else if d == 13 {
        'd'
    } else if d == 14 {
        'e'
    } else {
        'f'
    }
}

pub fn digit(d: u64) -> (r: char)
    requires
        d < 16,
    ensures
        r == spec_digit(d as nat),
{
    match d {
        0 => '0',
        1 => '1',
        2 => '2',
        3 => '3',
        4 => '4',
        5 => '5',
        6 => '6',
        7 => '7',
        8 => '8',
        9 => '9',
        10 => 'a',
        11 => 'b',
        12 => 'c',
        13 => 'd',
        14 => 'e',
        _ => 'f',
    }
}

/// The decimal digits of a number, without leading zeros.
pub open spec fn spec_decimal(value: nat) -> Seq<char>
    decreases value,
{
    if value < 10 {
        seq![spec_digit(value)]
    } else {
        spec_decimal(value / 10).push(spec_digit(value % 10))
    }
}

/// The hexadecimal digits of a number, in lower case and without leading
/// zeros.
pub open spec fn spec_hex(value: nat) -> Seq<char>
    decreases value,
{
    if value < 16 {
        seq![spec_digit(value)]
    } else {
        spec_hex(value / 16).push(spec_digit(value % 16))
    }
}

/// `count` times the character `ch`.
pub open spec fn spec_fill(ch: char, count: nat) -> Seq<char> {
    Seq::new(count, |i: int| ch)
}

/// The text followed by as many spaces as it is short of `width`
/// characters.
pub open spec fn spec_pad_right(text: Seq<char>, width: nat) -> Seq<char> {
    if text.len() < width {
        text + spec_fill(' ', (width - text.len()) as nat)
    } else {
        text
    }
}

/// The hexadecimal digits of a number after as many zeros as they are
/// short of `width` characters.
pub open spec fn spec_hex_padded(value: nat, width: nat) -> Seq<char> {
    if spec_hex(value).len() < width {
        spec_fill('0', (width - spec_hex(value).len()) as nat) + spec_hex(value)
    } else {
        spec_hex(value)
    }
}

/// `true` or `false`.
pub open spec fn spec_bool_text(value: bool) -> Seq<char> {
    if value {
        "true"@
    } else {
        "false"@
    }
}

/// Sixteen to the power of `digits`.
pub open spec fn spec_sixteen_to(digits: nat) -> nat
    decreases digits,
{
    if digits == 0 {
        1
    } else {
        16 * spec_sixteen_to((digits - 1) as nat)
    }
}

/// A number below sixteen to the power of `digits` has at most that many
/// hexadecimal digits, and every number has one at least.
pub proof fn lemma_hex_len_below(value: nat, digits: nat)
    requires
        digits >= 1,
    ensures
        1 <= spec_hex(value).len(),
        value < spec_sixteen_to(digits) ==> spec_hex(value).len() <= digits,
    decreases value,
{
    reveal_with_fuel(spec_sixteen_to, 2);
    if value >= 16 {
        if digits >= 2 {
            lemma_hex_len_below(value / 16, (digits - 1) as nat);
        } else {
            lemma_hex_len_below(value / 16, 1);
        }
    }
}

/// A number of 64 bits has at most sixteen hexadecimal digits, so padding
/// it to sixteen always gives sixteen characters.
pub proof fn lemma_hex_len(value: nat)
    ensures
        1 <= spec_hex(value).len(),
        value < 0x1_0000_0000_0000_0000 ==> spec_hex(value).len() <= 16,
        value < 0x1_0000_0000_0000_0000 ==> spec_hex_padded(value, 16).len() == 16,
{
    lemma_hex_len_below(value, 16);
    assert(spec_sixteen_to(16) == 0x1_0000_0000_0000_0000) by {
        reveal_with_fuel(spec_sixteen_to, 17);
    }
}

/// Appends the decimal digits of `value`.
pub fn push_decimal(out: &mut String, value: u64)
    ensures
        final(out)@ == old(out)@ + spec_decimal(value as nat),
    decreases value,
{
    if value >= 10 {
        push_decimal(out, value / 10);
    }
    out.push(digit(value % 10));
    assert(out@ =~= old(out)@ + spec_decimal(value as nat));
}

/// Appends the hexadecimal digits of `value`.
pub fn push_hex(out: &mut String, value: u64)
    ensures
        final(out)@ == old(out)@ + spec_hex(value as nat),
    decreases value,
{
    if value >= 16 {
        push_hex(out, value / 16);
    }
    out.push(digit(value % 16));
    assert(out@ =~= old(out)@ + spec_hex(value as nat));
}

/// The number of hexadecimal digits of `value`.
pub fn hex_len(value: u64) -> (r: usize)
    ensures
        r == spec_hex(value as nat).len(),
        1 <= r <= 16,
{
    proof {
        lemma_hex_len(value as nat);
    }
    let mut rest: u64 = value;
    let mut count: usize = 1;
    while rest >= 16
        invariant
            1 <= count,
            count + spec_hex(rest as nat).len() == spec_hex(value as nat).len() + 1,
            spec_hex(value as nat).len() <= 16,
            1 <= spec_hex(rest as nat).len(),
        decreases rest,
    {
        proof {
            lemma_hex_len((rest / 16) as nat);
        }
        rest = rest / 16;
        count = count + 1;
    }
    count
}

/// Appends `count` times the character `ch`.
pub fn push_fill(out: &mut String, ch: char, count: usize)
    ensures
        final(out)@ == old(out)@ + spec_fill(ch, count as nat),
{
    let mut i: usize = 0;
    assert(out@ =~= old(out)@ + spec_fill(ch, 0));
    while i < count
        invariant
            i <= count,
            out@ == old(out)@ + spec_fill(ch, i as nat),
        decreases count - i,
    {
        out.push(ch);
        i = i + 1;
        assert(out@ =~= old(out)@ + spec_fill(ch, i as nat));
    }
}

/// Appends `text`, padded on the right with spaces to `width` characters.
pub fn push_padded(out: &mut String, text: &str, width: usize)
    ensures
        final(out)@ == old(out)@ + spec_pad_right(text@, width as nat),
{
    out.append(text);
    let len = text.unicode_len();
    if len < width {
        push_fill(out, ' ', width - len);
    }
    assert(out@ =~= old(out)@ + spec_pad_right(text@, width as nat));
}

/// Appends the hexadecimal digits of `value`, padded on the left with
/// zeros to `width` characters.
pub fn push_hex_padded(out: &mut String, value: u64, width: usize)
    ensures
        final(out)@ == old(out)@ + spec_hex_padded(value as nat, width as nat),
{
    let len = hex_len(value);
    if len < width {
        push_fill(out, '0', width - len);
    }
    push_hex(out, value);
    assert(out@ =~= old(out)@ + spec_hex_padded(value as nat, width as nat));
}

/// Appends `true` or `false`.
pub fn push_bool(out: &mut String, value: bool)
    ensures
        final(out)@ == old(out)@ + spec_bool_text(value),
{
    if value {
        out.append("true");
    } else {
        out.append("false");
    }
}

/// The lines in a row, with a line feed between each two.
pub open spec fn spec_join_lines(lines: Seq<Seq<char>>) -> Seq<char>
    decreases lines.len(),
{
    if lines.len() == 0 {
        Seq::empty()
    } else if lines.len() == 1 {
        lines[0]
    } else {
        spec_join_lines(lines.drop_last()) + seq!['\n'] + lines.last()
    }
}

/// The text of each string of a list.
pub open spec fn spec_texts(lines: Seq<String>) -> Seq<Seq<char>> {
    lines.map_values(|line: String| line@)
}

/// Appends the lines, with a line feed between each two.
pub fn push_joined(out: &mut String, lines: &Vec<String>)
    ensures
        final(out)@ == old(out)@ + spec_join_lines(spec_texts(lines@)),
{
    let mut i: usize = 0;
    assert(out@ =~= old(out)@ + spec_join_lines(spec_texts(lines@).subrange(0, 0)));
    while i < lines.len()
        invariant
            i <= lines.len(),
            out@ == old(out)@ + spec_join_lines(spec_texts(lines@).subrange(0, i as int)),
        decreases lines.len() - i,
    {
        let ghost done = spec_texts(lines@).subrange(0, i as int);
        let ghost next = spec_texts(lines@).subrange(0, i + 1);
        proof {
            assert(next.drop_last() =~= done);
            assert(next.last() == lines@[i as int]@);
        }
        if i > 0 {
            out.push('\n');
        }
        out.append(lines[i].as_str());
        proof {
            if i == 0 {
                assert(done.len() == 0);
                assert(out@ =~= old(out)@ + spec_join_lines(next));
            } else {
                assert(out@ =~= old(out)@ + spec_join_lines(next));
            }
        }
        i = i + 1;
    }
    assert(spec_texts(lines@).subrange(0, i as int) =~= spec_texts(lines@));
}

} // verus!
