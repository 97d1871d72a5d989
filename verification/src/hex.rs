//! Lowercase hexadecimal rendering of byte strings.
//!
//! Every byte becomes two digits, high nibble first, in byte order. The
//! rendering is defined position by position, so that the text of a digest
//! can be reasoned about without unfolding a recursion.

use vstd::prelude::*;

verus! {

/// The digit for a nibble: `0`–`9`, then `a`–`f`.
pub open spec fn hex_digit(nibble: int) -> char {
    if nibble == 0 {
        '0'
    } else if nibble == 1 {
        '1'
    } else if nibble == 2 {
        '2'
    } else if nibble == 3 {
        '3'
    } else if nibble == 4 {
        '4'
    } else if nibble == 5 {
        '5'
    } else if nibble == 6 {
        '6'
    } else if nibble == 7 {
        '7'
    } else if nibble == 8 {
        '8'
    } else if nibble == 9 {
        '9'
    } else if nibble == 10 {
        'a'
    } else if nibble == 11 {
        'b'
    } else if nibble == 12 {
        'c'
    } else if nibble == 13 {
        'd'
    } else if nibble == 14 {
        'e'
    } else {
        'f'
    }
}

/// The digit at position `i` of the rendering of `bytes`: even positions show
/// the high nibble of byte `i / 2`, odd positions its low nibble.
pub open spec fn hex_at(bytes: Seq<u8>, i: int) -> char {
    if i % 2 == 0 {
        hex_digit(bytes[i / 2] as int / 16)
    } else {
        hex_digit(bytes[i / 2] as int % 16)
    }
}

/// The lowercase hexadecimal rendering of `bytes`: two digits per byte.
pub open spec fn hex_text(bytes: Seq<u8>) -> Seq<char> {
    Seq::new(2 * bytes.len(), |i: int| hex_at(bytes, i))
}

/// `String::push`: the character is appended to the end of the string. The
/// standard library documents exactly this; the statement is not proved here.
pub assume_specification[ String::push ](s: &mut String, c: char)
    ensures
        final(s)@ == old(s)@.push(c),
;

/// Rendering a longer byte string extends the rendering of its prefix by the
/// two digits of the next byte.
pub proof fn lemma_hex_text_step(bytes: Seq<u8>, n: int)
    requires
        0 <= n < bytes.len(),
    ensures
        hex_text(bytes.take(n + 1)) == hex_text(bytes.take(n)).push(
            hex_digit(bytes[n] as int / 16),
        ).push(hex_digit(bytes[n] as int % 16)),
{
    let longer = hex_text(bytes.take(n + 1));
    let built = hex_text(bytes.take(n)).push(hex_digit(bytes[n] as int / 16)).push(
        hex_digit(bytes[n] as int % 16),
    );
    assert(longer.len() == built.len());
    assert forall|i: int| 0 <= i < longer.len() implies longer[i] == built[i] by {
        if i < 2 * n {
            assert(bytes.take(n + 1)[i / 2] == bytes.take(n)[i / 2]);
        } else {
            assert(i / 2 == n);
            assert(bytes.take(n + 1)[n] == bytes[n]);
        }
    }
    assert(longer =~= built);
}

/// The digit for a nibble.
pub fn hex_char(nibble: u8) -> (c: char)
    requires
        nibble < 16,
    ensures
        c == hex_digit(nibble as int),
{
    match nibble {
        0 => '0',
        1 => '1',
        2 => '2',
        3 => '3',
        4 => '4',
        5 => '5',
        6 => '6',
        7 => '7',
        8 => '8',
        9 => '9',
        10 => 'a',
        11 => 'b',
        12 => 'c',
        13 => 'd',
        14 => 'e',
        _ => 'f',
    }
}

/// Appends the lowercase hexadecimal rendering of `data` to `out`.
pub fn push_hex(out: &mut String, data: &[u8])
    ensures
        final(out)@ == old(out)@ + hex_text(data@),
{
    let mut i: usize = 0;
    assert(data@.take(0) =~= Seq::<u8>::empty());
    assert(hex_text(Seq::<u8>::empty()) =~= Seq::<char>::empty());
    while i < data.len()
        invariant
            i <= data.len(),
            out@ == old(out)@ + hex_text(data@.take(i as int)),
        decreases data.len() - i,
    {
        let byte: u8 = data[i];
        proof {
            lemma_hex_text_step(data@, i as int);
        }
        out.push(hex_char(byte / 16));
        out.push(hex_char(byte % 16));
        i += 1;
    }
    assert(data@.take(data.len() as int) =~= data@);
}

/// The lowercase hexadecimal rendering of `data`.
pub fn to_hex(data: &[u8]) -> (text: String)
    ensures
        text@ == hex_text(data@),
{
    let mut text = String::new();
    push_hex(&mut text, data);
    text
}

} // verus!
