use vstd::prelude::*;

verus! {

/// The upper-case hexadecimal digit of a value below 16.
pub open spec fn hex_digit(d: int) -> char {
    if d < 10 {
        (48 + d) as char
    } else {
        (55 + d) as char
    }
}

/// The bytes written in upper-case hexadecimal, two digits each, high digit first.
pub open spec fn hex_string(bytes: Seq<u8>) -> Seq<char> {
    Seq::new(
        2 * bytes.len(),
        |i: int|
            if i % 2 == 0 {
                hex_digit(bytes[i / 2] as int / 16)
            } else {
                hex_digit(bytes[i / 2] as int % 16)
            },
    )
}

/// Appends `c` to `s`, through `String::push`.
#[verifier::external_body]
fn push_char(s: &mut String, c: char)
    ensures
        final(s)@ == old(s)@.push(c),
{
    s.push(c);
}

/// The hexadecimal digit of `d`.
fn hex_digit_char(d: u8) -> (c: char)
    requires
        d < 16,
    ensures
        c == hex_digit(d as int),
{
    match d {
        0 => '0',
        1 => '1',
        2 => '2',
        3 => '3',
        4 => '4',
        5 => '5',
        6 => '6',
        7 => '7',
        8 => '8',
        9 => '9',
        10 => 'A',
        11 => 'B',
        12 => 'C',
        13 => 'D',
        14 => 'E',
        _ => 'F',
    }
}

/// Formats bytes as upper-case hexadecimal, two digits per byte, with no separator.
pub fn format_hex(bytes: &[u8]) -> (buffer: String)
    ensures
        buffer@ == hex_string(bytes@),
{
    let mut buffer = String::new();
    let mut i: usize = 0;
    while i < bytes.len()
        invariant
            0 <= i <= bytes@.len(),
            buffer@ == hex_string(bytes@.subrange(0, i as int)),
        decreases bytes@.len() - i,
    {
        let byte = bytes[i];
        push_char(&mut buffer, hex_digit_char(byte / 16));
        push_char(&mut buffer, hex_digit_char(byte % 16));
        proof {
            assert(buffer@ =~= hex_string(bytes@.subrange(0, i + 1)));
        }
        i = i + 1;
    }
    proof {
        assert(bytes@.subrange(0, bytes@.len() as int) =~= bytes@);
    }
    buffer
}

} // verus!
