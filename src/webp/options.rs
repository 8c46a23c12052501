use vstd::prelude::*;

use crate::cli::BackgroundColor;
use crate::text::{chars_of, same_text, split_on, split_ranges};

verus! {

/// How far apart the animation encoder places key frames.
#[derive(Debug, Clone, Copy, PartialEq, Eq, Structural)]
pub enum KeyframeDistance {
    /// At least the first, at most the second number of frames apart.
    MinMax(u32, u32),
    /// No key frames beyond the first.
    Disabled,
    /// Every frame is a key frame.
    AllFrames,
}

/// The encoder's `(kmin, kmax)` pair of a distance.
pub open spec fn spec_to_pair(d: KeyframeDistance) -> (i32, i32) {
    match d {
        KeyframeDistance::MinMax(min, max) => (min as i32, max as i32),
        KeyframeDistance::Disabled => (-1i32, 0i32),
        KeyframeDistance::AllFrames => (0i32, 1i32),
    }
}

/// The distance of an encoder `(kmin, kmax)` pair.
pub open spec fn spec_from_pair(min: i32, max: i32) -> KeyframeDistance {
    if max <= 0 {
        KeyframeDistance::Disabled
    } else if max == 1 {
        KeyframeDistance::AllFrames
    } else {
        KeyframeDistance::MinMax(min as u32, max as u32)
    }
}

/// The digits of a number text without its optional leading `+`.
pub open spec fn unsigned_digits(t: Seq<char>) -> Seq<char> {
    if t.len() > 0 && t[0] == '+' {
        t.drop_first()
    } else {
        t
    }
}

/// The value of a string of decimal digits.
pub open spec fn digits_value(d: Seq<char>) -> int
    decreases d.len(),
{
    if d.len() == 0 {
        0
    } else {
        digits_value(d.drop_last()) * 10 + (d.last() as int - '0' as int)
    }
}

/// What `u32::from_str` reads from a text: an optional `+` and one or more
/// decimal digits whose value fits in 32 bits.
pub open spec fn spec_parse_u32(t: Seq<char>) -> Option<u32> {
    let d = unsigned_digits(t);
    if d.len() > 0 && (forall|i: int| 0 <= i < d.len() ==> '0' <= #[trigger] d[i] && d[i] <= '9')
        && digits_value(d) <= u32::MAX {
        Some(digits_value(d) as u32)
    } else {
        None
    }
}

/// The characters of Unicode's White_Space property, as `char::is_whitespace`
/// documents them.
pub open spec fn is_white_space(c: char) -> bool {
    ('\u{9}' <= c && c <= '\u{d}') || c == ' ' || c == '\u{85}' || c == '\u{a0}' || c == '\u{1680}'
        || ('\u{2000}' <= c && c <= '\u{200a}') || c == '\u{2028}' || c == '\u{2029}' || c == '\u{202f}'
        || c == '\u{205f}' || c == '\u{3000}'
}

/// The text without its leading white space.
pub open spec fn trim_start(s: Seq<char>) -> Seq<char>
    decreases s.len(),
{
    if s.len() > 0 && is_white_space(s[0]) {
        trim_start(s.drop_first())
    } else {
        s
    }
}

/// The text without its trailing white space.
pub open spec fn trim_end(s: Seq<char>) -> Seq<char>
    decreases s.len(),
{
    if s.len() > 0 && is_white_space(s.last()) {
        trim_end(s.drop_last())
    } else {
        s
    }
}

/// The text without its leading and trailing white space.
pub open spec fn spec_trim(s: Seq<char>) -> Seq<char> {
    trim_end(trim_start(s))
}

/// Relies on `str::trim`, whose documentation removes leading and trailing
/// white space in the sense of Unicode's White_Space property.
#[verifier::external_body]
fn trim_text(s: &str) -> (r: &str)
    ensures
        r@ == spec_trim(s@),
{
    s.trim()
}

/// Relies on `u32::from_str` (`str::parse::<u32>`), whose documentation
/// accepts an optional `+` followed by decimal digits, and rejects a value
/// that does not fit.
#[verifier::external_body]
fn parse_u32(s: &str) -> (r: Option<u32>)
    ensures
        r == spec_parse_u32(s@),
{
    s.parse::<u32>().ok()
}

/// The numbers that the texts hold, in order; texts that hold no number are
/// left out.
pub open spec fn numbers_in(texts: Seq<Seq<char>>) -> Seq<u32>
    decreases texts.len(),
{
    if texts.len() == 0 {
        Seq::empty()
    } else {
        let rest = numbers_in(texts.drop_last());
        match spec_parse_u32(texts.last()) {
            Some(v) => rest.push(v),
            None => rest,
        }
    }
}

/// The pieces of `s` between the occurrences of `sep`, each trimmed.
pub open spec fn trimmed_pieces(s: Seq<char>, sep: Seq<char>) -> Seq<Seq<char>> {
    split_on(s, sep).map_values(|p: Seq<char>| spec_trim(p))
}

/// A range from the first two numbers found.
pub open spec fn spec_min_max(values: Seq<u32>) -> Result<KeyframeDistance, Seq<char>> {
    if values.len() == 0 {
        Err("no min"@)
    } else if values.len() == 1 {
        Err("no max"@)
    } else {
        Ok(KeyframeDistance::MinMax(values[0], values[1]))
    }
}

/// `disabled`, one of the spellings of "all frames", or a range written
/// `min..max` or `min,max`.
pub open spec fn spec_parse_distance(s: Seq<char>) -> Result<KeyframeDistance, Seq<char>> {
    if s == "disabled"@ {
        Ok(KeyframeDistance::Disabled)
    } else if s == "allframes"@ || s == "all-frames"@ || s == "allFrames"@ || s == "all_frames"@ {
        Ok(KeyframeDistance::AllFrames)
    } else if split_on(s, ".."@).len() > 1 {
        spec_min_max(numbers_in(trimmed_pieces(s, ".."@)))
    } else if split_on(s, ","@).len() > 1 {
        spec_min_max(numbers_in(trimmed_pieces(s, ","@)))
    } else {
        Err("Invalid distance, try 'disabled', 'all-frames', or '3..5'"@)
    }
}

/// The pieces of `s` between the occurrences of `sep`, each trimmed.
fn pieces_between<'a>(s: &'a str, sep: &str) -> (r: Vec<&'a str>)
    requires
        sep@.len() > 0,
    ensures
        r@.map_values(|t: &str| t@) == trimmed_pieces(s@, sep@),
{
    let cs = chars_of(s);
    let cp = chars_of(sep);
    let ranges = split_ranges(&cs, &cp);
    let ghost pieces = split_on(cs@, cp@);
    let mut out: Vec<&'a str> = Vec::new();
    let mut k: usize = 0;
    while k < ranges.len()
        invariant
            cs@ == s@,
            cp@ == sep@,
            pieces == split_on(cs@, cp@),
            ranges@.len() == split_on(cs@, cp@).len(),
            forall|j: int| 0 <= j < ranges@.len() ==> (#[trigger] ranges@[j]).0 <= ranges@[j].1 && ranges@[j].1 <= cs.len(),
            forall|j: int| 0 <= j < ranges@.len() ==> cs@.subrange(ranges@[j].0 as int, ranges@[j].1 as int) == #[trigger] split_on(cs@, cp@)[j],
            k <= ranges.len(),
            out@.len() == k,
            forall|j: int| 0 <= j < k ==> (#[trigger] out@[j])@ == spec_trim(pieces[j]),
        decreases ranges.len() - k,
    {
        let (a, b) = ranges[k];
        assert(cs@.subrange(a as int, b as int) == split_on(cs@, cp@)[k as int]);
        let piece = s.substring_char(a, b);
        out.push(trim_text(piece));
        k = k + 1;
    }
    assert(out@.map_values(|t: &str| t@) =~= trimmed_pieces(s@, sep@));
    out
}

/// The numbers that the texts hold, in order.
fn numbers_of_texts(texts: &Vec<&str>) -> (r: Vec<u32>)
    ensures
        r@ == numbers_in(texts@.map_values(|t: &str| t@)),
{
    let ghost views = texts@.map_values(|t: &str| t@);
    let mut values: Vec<u32> = Vec::new();
    let mut k: usize = 0;
    while k < texts.len()
        invariant
            views == texts@.map_values(|t: &str| t@),
            k <= texts.len(),
            values@ == numbers_in(views.take(k as int)),
        decreases texts.len() - k,
    {
        let parsed = parse_u32(texts[k]);
        proof {
            assert(views.take(k + 1).drop_last() =~= views.take(k as int));
            assert(views.take(k + 1).last() == texts@[k as int]@);
        }
        match parsed {
            Some(v) => values.push(v),
            None => {},
        }
        k = k + 1;
    }
    assert(views.take(texts.len() as int) =~= views);
    values
}

/// The range from the first two numbers, or the error that names the one
/// missing.
fn min_max(values: &Vec<u32>) -> (r: Result<KeyframeDistance, String>)
    ensures
        spec_min_max(values@) is Ok ==> r == Ok::<KeyframeDistance, String>(spec_min_max(values@)->Ok_0),
        spec_min_max(values@) is Err ==> r is Err && r->Err_0@ == spec_min_max(values@)->Err_0,
{
    if values.len() == 0 {
        Err("no min".to_owned())
    } else if values.len() == 1 {
        Err("no max".to_owned())
    } else {
        Ok(KeyframeDistance::MinMax(values[0], values[1]))
    }
}

/// The range from the first two numbers that the already trimmed pieces
/// of a range text hold, or the error that names the one missing.
pub fn distance_from_trimmed(texts: &Vec<&str>) -> (r: Result<KeyframeDistance, String>)
    ensures
        spec_min_max(numbers_in(texts@.map_values(|t: &str| t@))) is Ok ==> r == Ok::<KeyframeDistance, String>(
            spec_min_max(numbers_in(texts@.map_values(|t: &str| t@)))->Ok_0,
        ),
        spec_min_max(numbers_in(texts@.map_values(|t: &str| t@))) is Err ==> r is Err
            && r->Err_0@ == spec_min_max(numbers_in(texts@.map_values(|t: &str| t@)))->Err_0,
{
    let values = numbers_of_texts(texts);
    min_max(&values)
}

impl KeyframeDistance {
    /// The distance of an encoder `(kmin, kmax)` pair: a maximum of zero or
    /// less disables key frames, a maximum of one makes every frame a key
    /// frame.
    pub fn from_pair(pair: (i32, i32)) -> (r: KeyframeDistance)
        ensures
            r == spec_from_pair(pair.0, pair.1),
    {
        let (min, max) = pair;
        if max <= 0 {
            KeyframeDistance::Disabled
        } else if max == 1 {
            KeyframeDistance::AllFrames
        } else {
            KeyframeDistance::MinMax(min as u32, max as u32)
        }
    }

    /// The encoder's `(kmin, kmax)` pair.
    pub fn to_pair(self) -> (r: (i32, i32))
        ensures
            r == spec_to_pair(self),
    {
        match self {
            KeyframeDistance::MinMax(min, max) => (min as i32, max as i32),
            KeyframeDistance::Disabled => (-1, 0),
            KeyframeDistance::AllFrames => (0, 1),
        }
    }

    /// Reads `disabled`, `allframes` / `all-frames` / `allFrames` /
    /// `all_frames`, or a range `min..max` or `min,max` whose pieces may be
    /// padded with white space.
    pub fn parse(s: &str) -> (r: Result<KeyframeDistance, String>)
        ensures
            spec_parse_distance(s@) is Ok ==> r == Ok::<KeyframeDistance, String>(spec_parse_distance(s@)->Ok_0),
            spec_parse_distance(s@) is Err ==> r is Err && r->Err_0@ == spec_parse_distance(s@)->Err_0,
    {
        proof {
            reveal_strlit("..");
            reveal_strlit(",");
        }
        if same_text(s, "disabled") {
            return Ok(KeyframeDistance::Disabled);
        }
        if same_text(s, "allframes") || same_text(s, "all-frames") || same_text(s, "allFrames")
            || same_text(s, "all_frames") {
            return Ok(KeyframeDistance::AllFrames);
        }
        let cs = chars_of(s);
        let dots = chars_of("..");
        let comma = chars_of(",");
        if split_ranges(&cs, &dots).len() > 1 {
            let pieces = pieces_between(s, "..");
            return distance_from_trimmed(&pieces);
        }
        if split_ranges(&cs, &comma).len() > 1 {
            let pieces = pieces_between(s, ",");
            return distance_from_trimmed(&pieces);
        }
        Err("Invalid distance, try 'disabled', 'all-frames', or '3..5'".to_owned())
    }
}

impl std::str::FromStr for KeyframeDistance {
    type Err = String;

    fn from_str(s: &str) -> Result<Self, Self::Err> {
        Self::parse(s)
    }
}

/// The animation settings of the encoder, as plain values.
#[derive(Debug, Clone, Copy, PartialEq, Eq, Structural)]
pub struct AnimEncoderOptions {
    /// Minimize the output size (slow); implies no key-frame insertion.
    pub minimize_size: bool,
    pub kmin: i32,
    pub kmax: i32,
    pub allow_mixed: bool,
    /// The background color, alpha in the most significant byte.
    pub bgcolor: u32,
    /// How often the animation plays; 0 is forever.
    pub loop_count: i32,
}

/// The animation options that a user may give; each absent one keeps the
/// encoder's default.
#[derive(Debug, Clone, Copy, PartialEq, Eq)]
pub struct AnimCliOptions {
    pub minimize_size: Option<bool>,
    pub keyframe_distance: Option<KeyframeDistance>,
    pub allow_mixed: Option<bool>,
    pub background_color: Option<BackgroundColor>,
    pub loop_count: Option<i32>,
}

/// The 32-bit number of four bytes, the first the most significant.
pub open spec fn spec_from_be_bytes(b: Seq<u8>) -> int {
    b[0] * 0x1000000 + b[1] * 0x10000 + b[2] * 0x100 + b[3]
}

/// The four bytes of a 32-bit number, the most significant first.
pub open spec fn spec_to_be_bytes(v: u32) -> Seq<u8> {
    seq![(v / 0x1000000) as u8, (v / 0x10000 % 0x100) as u8, (v / 0x100 % 0x100) as u8, (v % 0x100) as u8]
}

impl AnimEncoderOptions {
    pub fn minimize_size(&self) -> (r: bool)
        ensures
            r == self.minimize_size,
    {
        self.minimize_size
    }

    pub fn set_minimize_size(&mut self, minimize_size: bool)
        ensures
            *final(self) == (AnimEncoderOptions { minimize_size, ..*old(self) }),
    {
        self.minimize_size = minimize_size;
    }

    pub fn keyframe_distance(&self) -> (r: KeyframeDistance)
        ensures
            r == spec_from_pair(self.kmin, self.kmax),
    {
        KeyframeDistance::from_pair((self.kmin, self.kmax))
    }

    pub fn set_keyframe_distance(&mut self, distance: KeyframeDistance)
        ensures
            *final(self) == (AnimEncoderOptions {
                kmin: spec_to_pair(distance).0,
                kmax: spec_to_pair(distance).1,
                ..*old(self)
            }),
    {
        let (min, max) = distance.to_pair();
        self.kmin = min;
        self.kmax = max;
    }

    pub fn allow_mixed(&self) -> (r: bool)
        ensures
            r == self.allow_mixed,
    {
        self.allow_mixed
    }

    pub fn set_allow_mixed(&mut self, allow_mixed: bool)
        ensures
            *final(self) == (AnimEncoderOptions { allow_mixed, ..*old(self) }),
    {
        self.allow_mixed = allow_mixed;
    }

    /// The background color as alpha, red, green and blue.
    pub fn background_color(&self) -> (r: [u8; 4])
        ensures
            r@ == spec_to_be_bytes(self.bgcolor),
    {
        let v = self.bgcolor;
        let r = [(v / 0x1000000) as u8, (v / 0x10000 % 0x100) as u8, (v / 0x100 % 0x100) as u8, (v % 0x100) as u8];
        assert(r@ =~= spec_to_be_bytes(v));
        r
    }

    /// Sets the background color from alpha, red, green and blue.
    pub fn set_background_color(&mut self, color: [u8; 4])
        ensures
            *final(self) == (AnimEncoderOptions { bgcolor: spec_from_be_bytes(color@) as u32, ..*old(self) }),
            final(self).bgcolor == spec_from_be_bytes(color@),
    {
        let v: u32 = (color[0] as u32) * 0x1000000 + (color[1] as u32) * 0x10000 + (color[2] as u32) * 0x100
            + (color[3] as u32);
        self.bgcolor = v;
    }

    pub fn loop_count(&self) -> (r: i32)
        ensures
            r == self.loop_count,
    {
        self.loop_count
    }

    pub fn set_loop_count(&mut self, loop_count: i32)
        ensures
            *final(self) == (AnimEncoderOptions { loop_count, ..*old(self) }),
    {
        self.loop_count = loop_count;
    }

    /// Takes over each option that the user gave.
    pub fn apply_cli_options(&mut self, opts: &AnimCliOptions)
        ensures
            final(self).minimize_size == (match opts.minimize_size {
                Some(v) => v,
                None => old(self).minimize_size,
            }),
            (final(self).kmin, final(self).kmax) == (match opts.keyframe_distance {
                Some(d) => spec_to_pair(d),
                None => (old(self).kmin, old(self).kmax),
            }),
            final(self).allow_mixed == (match opts.allow_mixed {
                Some(v) => v,
                None => old(self).allow_mixed,
            }),
            final(self).bgcolor == (match opts.background_color {
                Some(c) => spec_from_be_bytes(c.0@) as u32,
                None => old(self).bgcolor,
            }),
            final(self).loop_count == (match opts.loop_count {
                Some(v) => v,
                None => old(self).loop_count,
            }),
    {
        if let Some(v) = opts.minimize_size {
            self.set_minimize_size(v);
        }
        if let Some(d) = opts.keyframe_distance {
            self.set_keyframe_distance(d);
        }
        if let Some(v) = opts.allow_mixed {
            self.set_allow_mixed(v);
        }
        if let Some(v) = opts.loop_count {
            self.set_loop_count(v);
        }
        if let Some(c) = opts.background_color {
            self.set_background_color(c.0);
        }
    }
}

/// Reading back a background color gives the bytes it was set from.
pub proof fn background_color_round_trip(color: Seq<u8>)
    requires
        color.len() == 4,
    ensures
        spec_to_be_bytes(spec_from_be_bytes(color) as u32) == color,
{
    let a = color[0] as int;
    let r = color[1] as int;
    let g = color[2] as int;
    let b = color[3] as int;
    let v = spec_from_be_bytes(color);
    assert(0 <= v <= u32::MAX);
    assert(v / 0x1000000 == a && v / 0x10000 % 0x100 == r && v / 0x100 % 0x100 == g && v % 0x100 == b)
        by (nonlinear_arith)
        requires
            v == a * 0x1000000 + r * 0x10000 + g * 0x100 + b,
            0 <= a < 256,
            0 <= r < 256,
            0 <= g < 256,
            0 <= b < 256,
    ;
    assert(spec_to_be_bytes(v as u32) =~= color);
}

} // verus!
