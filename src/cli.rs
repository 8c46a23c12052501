use vstd::prelude::*;

use crate::avif::codec::Codec;
use hex::FromHex;

verus! {

/// Where the frames come from and the base name of the output.
pub struct IoOptions {
    pub input: String,
    pub output: String,
}

/// The tuning of the AVIF encoder.
#[derive(Debug, Clone, Copy, PartialEq, Eq, Structural)]
pub struct AvifOptions {
    pub codec: Codec,
    pub quantizer: u8,
    pub quantizer_alpha: u8,
    pub speed: u8,
    /// The thread limit; the number of CPUs when absent.
    pub max_threads: Option<usize>,
}

/// The `avif` command: input, output and tuning.
pub struct AvifCommand {
    pub io: IoOptions,
    pub opts: AvifOptions,
}

/// An animation's background color, as alpha, red, green and blue.
#[derive(Debug, Clone, Copy, PartialEq, Eq)]
pub struct BackgroundColor(pub [u8; 4]);

pub open spec fn is_hex_digit(c: char) -> bool {
    ('0' <= c && c <= '9') || ('a' <= c && c <= 'f') || ('A' <= c && c <= 'F')
}

/// The value of a hexadecimal digit.
pub open spec fn hex_value(c: char) -> int {
    if '0' <= c && c <= '9' {
        c as int - '0' as int
    } else if 'a' <= c && c <= 'f' {
        c as int - 'a' as int + 10
    } else {
        c as int - 'A' as int + 10
    }
}

pub open spec fn all_hex(s: Seq<char>) -> bool {
    forall|i: int| 0 <= i < s.len() ==> is_hex_digit(#[trigger] s[i])
}

/// The byte written by the two digits at `i` and `i + 1`.
pub open spec fn hex_byte(s: Seq<char>, i: int) -> int {
    hex_value(s[i]) * 16 + hex_value(s[i + 1])
}

/// `bytes` is what the even-length digit string `s` encodes, high digit first.
pub open spec fn decodes_to(s: Seq<char>, bytes: Seq<u8>) -> bool {
    &&& s.len() == 2 * bytes.len()
    &&& forall|k: int| 0 <= k < bytes.len() ==> bytes[k] as int == #[trigger] hex_byte(s, 2 * k)
}

/// Relies on `hex::FromHex` for `[u8; 3]`: six hexadecimal digits, either
/// case, decode to three bytes; any other text is an error.
#[verifier::external_body]
fn bytes3_from_hex(s: &str) -> (r: Result<[u8; 3], String>)
    ensures
        r.is_ok() == (s@.len() == 6 && all_hex(s@)),
        r.is_ok() ==> decodes_to(s@, r->Ok_0@),
{
    <[u8; 3]>::from_hex(s).map_err(|e| e.to_string())
}

/// Relies on `hex::FromHex` for `[u8; 4]`: eight hexadecimal digits, either
/// case, decode to four bytes; any other text is an error.
#[verifier::external_body]
fn bytes4_from_hex(s: &str) -> (r: Result<[u8; 4], String>)
    ensures
        r.is_ok() == (s@.len() == 8 && all_hex(s@)),
        r.is_ok() ==> decodes_to(s@, r->Ok_0@),
{
    <[u8; 4]>::from_hex(s).map_err(|e| e.to_string())
}

/// `#rrggbb` (opaque) or `#aarrggbb`.
pub open spec fn is_color_text(s: Seq<char>) -> bool {
    &&& s.len() == 7 || s.len() == 9
    &&& s[0] == '#'
    &&& all_hex(s.subrange(1, s.len() as int))
}

/// The color that a text of `is_color_text` names, as alpha, red, green, blue.
pub open spec fn color_of_text(s: Seq<char>) -> Seq<int> {
    if s.len() == 7 {
        seq![255, hex_byte(s, 1), hex_byte(s, 3), hex_byte(s, 5)]
    } else {
        seq![hex_byte(s, 1), hex_byte(s, 3), hex_byte(s, 5), hex_byte(s, 7)]
    }
}

impl BackgroundColor {
    /// Reads `#rrggbb` (alpha 255) or `#aarrggbb`.
    pub fn parse(s: &str) -> (r: Result<BackgroundColor, String>)
        ensures
            r is Ok <==> is_color_text(s@),
            !(s@.len() > 0 && s@[0] == '#' && (s@.len() == 7 || s@.len() == 9)) ==> r is Err
                && r->Err_0@ == "Expected #abcdef, or #abcdef01"@,
            match r {
                Ok(c) => c.0@.map_values(|b: u8| b as int) == color_of_text(s@),
                Err(_) => true,
            },
    {
        let n = s.unicode_len();
        if n == 0 || s.get_char(0) != '#' || (n != 7 && n != 9) {
            return Err("Expected #abcdef, or #abcdef01".to_owned());
        }
        let digits = s.substring_char(1, n);
        assert(digits@ =~= s@.subrange(1, n as int));
        if n == 7 {
            match bytes3_from_hex(digits) {
                Ok(rgb) => {
                    let c = [255u8, rgb[0], rgb[1], rgb[2]];
                    proof {
                        assert(hex_byte(digits@, 0) == hex_byte(s@, 1));
                        assert(hex_byte(digits@, 2) == hex_byte(s@, 3));
                        assert(hex_byte(digits@, 4) == hex_byte(s@, 5));
                        assert(rgb@[0] as int == hex_byte(digits@, (2 * 0) as int));
                        assert(rgb@[1] as int == hex_byte(digits@, (2 * 1) as int));
                        assert(rgb@[2] as int == hex_byte(digits@, (2 * 2) as int));
                        assert(c@.map_values(|b: u8| b as int) =~= color_of_text(s@));
                    }
                    Ok(BackgroundColor(c))
                },
                Err(e) => Err(e),
            }
        } else {
            match bytes4_from_hex(digits) {
                Ok(argb) => {
                    proof {
                        assert(hex_byte(digits@, 0) == hex_byte(s@, 1));
                        assert(hex_byte(digits@, 2) == hex_byte(s@, 3));
                        assert(hex_byte(digits@, 4) == hex_byte(s@, 5));
                        assert(hex_byte(digits@, 6) == hex_byte(s@, 7));
                        assert(argb@[0] as int == hex_byte(digits@, (2 * 0) as int));
                        assert(argb@[1] as int == hex_byte(digits@, (2 * 1) as int));
                        assert(argb@[2] as int == hex_byte(digits@, (2 * 2) as int));
                        assert(argb@[3] as int == hex_byte(digits@, (2 * 3) as int));
                        assert(argb@.map_values(|b: u8| b as int) =~= color_of_text(s@));
                    }
                    Ok(BackgroundColor(argb))
                },
                Err(e) => Err(e),
            }
        }
    }
}

impl std::str::FromStr for BackgroundColor {
    type Err = String;

    fn from_str(s: &str) -> Result<Self, Self::Err> {
        Self::parse(s)
    }
}

} // verus!
