//! Packed RGBA colors, and their `0x`-prefixed hexadecimal text form used
//! by the style persistence around this library.

use vstd::prelude::*;

verus! {

use vstd::string::StrSliceExecFns;
use vstd::string::StringExecFns;

/// The lowercase hexadecimal digit for a value below sixteen.
pub open spec fn hex_char(n: u32) -> char {
    if n == 0 {
        '0'
    } else if n == 1 {
        '1'
    } else if n == 2 {
        '2'
    } else if n == 3 {
        '3'
    } else if n == 4 {
        '4'
    } else if n == 5 {
        '5'
    } else if n == 6 {
        '6'
    } else if n == 7 {
        '7'
    } else if n == 8 {
        '8'
    } else if n == 9 {
        '9'
    } else if n == 10 {
        'a'
    } else if n == 11 {
        'b'
    } else if n == 12 {
        'c'
    } else if n == 13 {
        'd'
    } else if n == 14 {
        'e'
    } else {
        'f'
    }
}

/// The value a lowercase hexadecimal digit denotes, or sixteen for any
/// other character.
pub open spec fn hex_value(c: char) -> u32 {
    if c == '0' {
        0
    } else if c == '1' {
        1
    } else if c == '2' {
        2
    } else if c == '3' {
        3
    } else if c == '4' {
        4
    } else if c == '5' {
        5
    } else if c == '6' {
        6
    } else if c == '7' {
        7
    } else if c == '8' {
        8
    } else if c == '9' {
        9
    } else if c == 'a' {
        10
    } else if c == 'b' {
        11
    } else if c == 'c' {
        12
    } else if c == 'd' {
        13
    } else if c == 'e' {
        14
    } else if c == 'f' {
        15
    } else {
        16
    }
}

/// The text `0x` followed by the eight lowercase hexadecimal digits of
/// `c`, most significant nibble first.
pub open spec fn spec_hex_string(c: u32) -> Seq<char> {
    seq![
        '0',
        'x',
        hex_char((c >> 28) & 0xf),
        hex_char((c >> 24) & 0xf),
        hex_char((c >> 20) & 0xf),
        hex_char((c >> 16) & 0xf),
        hex_char((c >> 12) & 0xf),
        hex_char((c >> 8) & 0xf),
        hex_char((c >> 4) & 0xf),
        hex_char(c & 0xf),
    ]
}

/// The text is `0x` followed by exactly eight lowercase hexadecimal
/// digits.
pub open spec fn spec_is_hex_string(s: Seq<char>) -> bool {
    &&& s.len() == 10
    &&& s[0] == '0'
    &&& s[1] == 'x'
    &&& forall|i: int| 2 <= i < 10 ==> #[trigger] hex_value(s[i]) < 16
}

/// The number the digit characters `s[2 ..= k-1]` denote, read left to
/// right.
pub open spec fn spec_hex_fold(s: Seq<char>, k: int) -> int
    decreases k,
{
    if k <= 2 {
        0
    } else {
        spec_hex_fold(s, k - 1) * 16 + hex_value(s[k - 1])
    }
}

/// The number all eight digit characters denote.
pub open spec fn spec_hex_parse(s: Seq<char>) -> int {
    spec_hex_fold(s, 10)
}

/// Sixteen to the power `k`.
pub open spec fn pow16(k: int) -> int
    decreases k,
{
    if k <= 0 {
        1
    } else {
        16 * pow16(k - 1)
    }
}

/// The red channel of a packed `0xRRGGBBAA` color.
pub open spec fn spec_r(c: u32) -> u8 {
    ((c >> 24) & 0xff) as u8
}

/// The green channel of a packed `0xRRGGBBAA` color.
pub open spec fn spec_g(c: u32) -> u8 {
    ((c >> 16) & 0xff) as u8
}

/// The blue channel of a packed `0xRRGGBBAA` color.
pub open spec fn spec_b(c: u32) -> u8 {
    ((c >> 8) & 0xff) as u8
}

/// The alpha channel of a packed `0xRRGGBBAA` color.
pub open spec fn spec_a(c: u32) -> u8 {
    (c & 0xff) as u8
}

/// A color packed into 32 bits as `0xRRGGBBAA`.
#[derive(Debug, Clone, Copy, PartialEq, Eq, Structural)]
pub struct Rgba8(pub u32);

impl Rgba8 {
    /// Red channel.
    pub fn r(&self) -> (r: u8)
        ensures
            r == spec_r(self.0),
    {
        proof {
            let c = self.0;
            assert((c >> 24) & 0xff == c >> 24) by (bit_vector);
        }
        #[verifier::truncate] ((self.0 >> 24) as u8)
    }

    /// Green channel.
    pub fn g(&self) -> (r: u8)
        ensures
            r == spec_g(self.0),
    {
        #[verifier::truncate] (((self.0 >> 16) & 0xff) as u8)
    }

    /// Blue channel.
    pub fn b(&self) -> (r: u8)
        ensures
            r == spec_b(self.0),
    {
        #[verifier::truncate] (((self.0 >> 8) & 0xff) as u8)
    }

    /// Alpha channel.
    pub fn a(&self) -> (r: u8)
        ensures
            r == spec_a(self.0),
    {
        #[verifier::truncate] ((self.0 & 0xff) as u8)
    }

    /// The four channels in `[r, g, b, a]` order.
    pub fn to_array(&self) -> (r: [u8; 4])
        ensures
            r == ([spec_r(self.0), spec_g(self.0), spec_b(self.0), spec_a(self.0)]),
    {
        [self.r(), self.g(), self.b(), self.a()]
    }

    /// The color as `0x` followed by its eight lowercase hexadecimal
    /// digits, the form the style files store colors in.
    pub fn to_hex_string(&self) -> (r: String)
        ensures
            r@ == spec_hex_string(self.0),
    {
        let c = self.0;
        let mut s = String::new();
        s.append("0x");
        proof {
            reveal_strlit("0x");
            assert(s@ =~= seq!['0', 'x']);
        }
        proof {
            assert(((c >> 28) & 0xf) < 16 && ((c >> 24) & 0xf) < 16 && ((c >> 20) & 0xf) < 16 && ((
            c >> 16) & 0xf) < 16 && ((c >> 12) & 0xf) < 16 && ((c >> 8) & 0xf) < 16 && ((c >> 4)
                & 0xf) < 16 && (c & 0xf) < 16) by (bit_vector);
        }
        push_nibble(&mut s, (c >> 28) & 0xf);
        push_nibble(&mut s, (c >> 24) & 0xf);
        push_nibble(&mut s, (c >> 20) & 0xf);
        push_nibble(&mut s, (c >> 16) & 0xf);
        push_nibble(&mut s, (c >> 12) & 0xf);
        push_nibble(&mut s, (c >> 8) & 0xf);
        push_nibble(&mut s, (c >> 4) & 0xf);
        push_nibble(&mut s, c & 0xf);
        proof {
            assert(s@ =~= spec_hex_string(c));
        }
        s
    }

    /// Parse the text form back into a color: succeeds exactly on `0x`
    /// followed by eight lowercase hexadecimal digits, and then returns
    /// exactly the number those digits denote.
    pub fn from_hex(s: &str) -> (r: Option<Rgba8>)
        ensures
            r is Some <==> spec_is_hex_string(s@),
            (match r {
                Some(c) => c.0 == spec_hex_parse(s@),
                None => true,
            }),
    {
        if s.unicode_len() != 10 {
            return None;
        }
        let c0 = s.get_char(0);
        let c1 = s.get_char(1);
        if c0 != '0' || c1 != 'x' {
            return None;
        }
        let mut acc: u32 = 0;
        let mut i: usize = 2;
        proof {
            lemma_pow16_bounds();
        }
        while i < 10
        invariant
                2 <= i <= 10,
                s@.len() == 10,
                acc as int == spec_hex_fold(s@, i as int),
                (acc as int) < pow16(i as int - 2),
                pow16(8) == 0x1_0000_0000,
                forall|j: int| 2 <= j < i ==> #[trigger] hex_value(s@[j]) < 16,
            decreases 10 - i,
        {
            let c = s.get_char(i);
            let v = hex_digit_value(c);
            if v >= 16 {
                return None;
            }
            proof {
                lemma_pow16_mono(i as int - 2);
                lemma_pow16_le(i as int - 1, 8);
                assert(acc as int * 16 + v < pow16(i as int - 1));
            }
            acc = acc * 16 + v;
            i = i + 1;
        }
        Some(Rgba8(acc))
    }
}

/// Powers of sixteen grow by a factor sixteen, and the eighth is 2^32.
proof fn lemma_pow16_bounds()
    ensures
        pow16(8) == 0x1_0000_0000,
{
    reveal_with_fuel(pow16, 9);
}

/// Multiplying a value below one power of sixteen by sixteen keeps it
/// below the next.
proof fn lemma_pow16_mono(k: int)
    requires
        k >= 0,
    ensures
        pow16(k) * 16 == pow16(k + 1),
        pow16(k) >= 1,
    decreases k,
{
    if k > 0 {
        lemma_pow16_mono(k - 1);
    }
}

/// Powers of sixteen are monotone.
proof fn lemma_pow16_le(k1: int, k2: int)
    requires
        0 <= k1 <= k2,
    ensures
        pow16(k1) <= pow16(k2),
        pow16(k1) >= 1,
    decreases k2 - k1,
{
    if k1 < k2 {
        lemma_pow16_le(k1, k2 - 1);
        lemma_pow16_mono(k2 - 1);
    } else {
        lemma_pow16_mono(k1);
    }
}

/// The value a lowercase hexadecimal digit character denotes; sixteen for
/// any other character.
fn hex_digit_value(c: char) -> (v: u32)
    ensures
        v == hex_value(c),
{
    match c {
        '0' => 0,
        '1' => 1,
        '2' => 2,
        '3' => 3,
        '4' => 4,
        '5' => 5,
        '6' => 6,
        '7' => 7,
        '8' => 8,
        '9' => 9,
        'a' => 10,
        'b' => 11,
        'c' => 12,
        'd' => 13,
        'e' => 14,
        'f' => 15,
        _ => 16,
    }
}

/// Append the single lowercase hexadecimal digit of a value below sixteen.
fn push_nibble(s: &mut String, n: u32)
    requires
        n < 16,
    ensures
        final(s)@ == old(s)@ + seq![hex_char(n)],
{
    if n == 0 {
        s.append("0");
        proof {
            reveal_strlit("0");
            assert(s@ =~= old(s)@ + seq![hex_char(n)]);
        }
    } else if n == 1 {
        s.append("1");
        proof {
            reveal_strlit("1");
            assert(s@ =~= old(s)@ + seq![hex_char(n)]);
        }
    } else if n == 2 {
        s.append("2");
        proof {
            reveal_strlit("2");
            assert(s@ =~= old(s)@ + seq![hex_char(n)]);
        }
    } else if n == 3 {
        s.append("3");
        proof {
            reveal_strlit("3");
            assert(s@ =~= old(s)@ + seq![hex_char(n)]);
        }
    } else if n == 4 {
        s.append("4");
        proof {
            reveal_strlit("4");
            assert(s@ =~= old(s)@ + seq![hex_char(n)]);
        }
    } else if n == 5 {
        s.append("5");
        proof {
            reveal_strlit("5");
            assert(s@ =~= old(s)@ + seq![hex_char(n)]);
        }
    } else if n == 6 {
        s.append("6");
        proof {
            reveal_strlit("6");
            assert(s@ =~= old(s)@ + seq![hex_char(n)]);
        }
    } else if n == 7 {
        s.append("7");
        proof {
            reveal_strlit("7");
            assert(s@ =~= old(s)@ + seq![hex_char(n)]);
        }
    } else if n == 8 {
        s.append("8");
        proof {
            reveal_strlit("8");
            assert(s@ =~= old(s)@ + seq![hex_char(n)]);
        }
    } else if n == 9 {
        s.append("9");
        proof {
            reveal_strlit("9");
            assert(s@ =~= old(s)@ + seq![hex_char(n)]);
        }
    } else if n == 10 {
        s.append("a");
        proof {
            reveal_strlit("a");
            assert(s@ =~= old(s)@ + seq![hex_char(n)]);
        }
    } else if n == 11 {
        s.append("b");
        proof {
            reveal_strlit("b");
            assert(s@ =~= old(s)@ + seq![hex_char(n)]);
        }
    } else if n == 12 {
        s.append("c");
        proof {
            reveal_strlit("c");
            assert(s@ =~= old(s)@ + seq![hex_char(n)]);
        }
    } else if n == 13 {
        s.append("d");
        proof {
            reveal_strlit("d");
            assert(s@ =~= old(s)@ + seq![hex_char(n)]);
        }
    } else if n == 14 {
        s.append("e");
        proof {
            reveal_strlit("e");
            assert(s@ =~= old(s)@ + seq![hex_char(n)]);
        }
    } else {
        s.append("f");
        proof {
            reveal_strlit("f");
            assert(s@ =~= old(s)@ + seq![hex_char(n)]);
        }
    }
}

} // verus!
