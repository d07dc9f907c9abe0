//! D185 development profiles: the film-simulation and effect enums, the value
//! encodings the camera expects, exposure-compensation notation, and the
//! settings a recipe applies to a profile.
//!
//! Binary layout of a D185 profile: bytes `0..2` hold the number of property
//! slots (u16 LE), bytes `2..0x201` an IOP code and padding, and from `0x201`
//! on, one u32 LE value per property slot.
use vstd::prelude::*;

use crate::text::{
    chars_eq_str, chars_of, dec, dec_chars, dec_plus, push_dec_plus, find_char, first_index, lemma_first_index, hex, push_hex, hex_chars, pad_left, pad_right, push_pad_left, push_pad_right, push_dec_i64, dec_int, string_views,
    lowercase_chars, pad_zero, parse_i32_chars, parse_i32_spec, push_chars, push_dec,
    push_pad_zero, push_str, split_whitespace, string_of, sub_chars, trim, trim_chars, trim_str,
    unicode_lowercase, views, words, contains_char, digit_char, is_ws, trim_start, trim_end,
    lemma_words_take_word, lemma_words_skip_ws, all_ascii, ascii_lowercase, lemma_trim_ascii,
};

verus! {

// ---------------------------------------------------------------------------
// Film simulation and effect levels
// ---------------------------------------------------------------------------

/// Film simulations of the X100VI.
#[derive(Clone, Copy, Debug, PartialEq, Eq, Structural)]
pub enum FilmSimulation {
    Provia,
    Velvia,
    Astia,
    ClassicChrome,
    ClassicNeg,
    ProNegHi,
    ProNegStd,
    Eterna,
    EternaBleachBypass,
    Acros,
    AcrosYe,
    AcrosR,
    AcrosG,
    Monochrome,
    MonochromeYe,
    MonochromeR,
    MonochromeG,
    Sepia,
    NostalgicNeg,
    RealaAce,
}

impl FilmSimulation {
    /// The D185 code of the film simulation (property index 7).
    pub open spec fn d185_code(self) -> u32 {
        match self {
            FilmSimulation::Provia => 0x01,
            FilmSimulation::Velvia => 0x02,
            FilmSimulation::Astia => 0x03,
            FilmSimulation::ProNegHi => 0x04,
            FilmSimulation::ProNegStd => 0x05,
            FilmSimulation::Monochrome => 0x06,
            FilmSimulation::MonochromeYe => 0x07,
            FilmSimulation::MonochromeR => 0x08,
            FilmSimulation::MonochromeG => 0x09,
            FilmSimulation::Sepia => 0x0A,
            FilmSimulation::ClassicChrome => 0x0B,
            FilmSimulation::Acros => 0x0C,
            FilmSimulation::AcrosYe => 0x0D,
            FilmSimulation::AcrosR => 0x0E,
            FilmSimulation::AcrosG => 0x0F,
            FilmSimulation::Eterna => 0x10,
            FilmSimulation::ClassicNeg => 0x11,
            FilmSimulation::EternaBleachBypass => 0x12,
            FilmSimulation::NostalgicNeg => 0x13,
            FilmSimulation::RealaAce => 0x14,
        }
    }

    /// Display label of the film simulation.
    pub open spec fn label_text(self) -> Seq<char> {
        match self {
            FilmSimulation::Provia => "Provia/Standard"@,
            FilmSimulation::Velvia => "Velvia/Vivid"@,
            FilmSimulation::Astia => "Astia/Soft"@,
            FilmSimulation::ProNegHi => "PRO Neg Hi"@,
            FilmSimulation::ProNegStd => "PRO Neg Std"@,
            FilmSimulation::Monochrome => "Monochrome"@,
            FilmSimulation::MonochromeYe => "Monochrome+Ye"@,
            FilmSimulation::MonochromeR => "Monochrome+R"@,
            FilmSimulation::MonochromeG => "Monochrome+G"@,
            FilmSimulation::Sepia => "Sepia"@,
            FilmSimulation::ClassicChrome => "Classic Chrome"@,
            FilmSimulation::Acros => "Acros"@,
            FilmSimulation::AcrosYe => "Acros+Ye"@,
            FilmSimulation::AcrosR => "Acros+R"@,
            FilmSimulation::AcrosG => "Acros+G"@,
            FilmSimulation::Eterna => "Eterna/Cinema"@,
            FilmSimulation::ClassicNeg => "Classic Neg"@,
            FilmSimulation::EternaBleachBypass => "Eterna Bleach Bypass"@,
            FilmSimulation::NostalgicNeg => "Nostalgic Neg"@,
            FilmSimulation::RealaAce => "REALA ACE"@,
        }
    }

    /// The D185 code of the film simulation.
    pub fn to_d185(self) -> (r: u32)
        ensures
            r == self.d185_code(),
    {
        match self {
            FilmSimulation::Provia => 0x01,
            FilmSimulation::Velvia => 0x02,
            FilmSimulation::Astia => 0x03,
            FilmSimulation::ProNegHi => 0x04,
            FilmSimulation::ProNegStd => 0x05,
            FilmSimulation::Monochrome => 0x06,
            FilmSimulation::MonochromeYe => 0x07,
            FilmSimulation::MonochromeR => 0x08,
            FilmSimulation::MonochromeG => 0x09,
            FilmSimulation::Sepia => 0x0A,
            FilmSimulation::ClassicChrome => 0x0B,
            FilmSimulation::Acros => 0x0C,
            FilmSimulation::AcrosYe => 0x0D,
            FilmSimulation::AcrosR => 0x0E,
            FilmSimulation::AcrosG => 0x0F,
            FilmSimulation::Eterna => 0x10,
            FilmSimulation::ClassicNeg => 0x11,
            FilmSimulation::EternaBleachBypass => 0x12,
            FilmSimulation::NostalgicNeg => 0x13,
            FilmSimulation::RealaAce => 0x14,
        }
    }

    /// Display label of the film simulation.
    pub fn label(self) -> (r: &'static str)
        ensures
            r@ == self.label_text(),
    {
        match self {
            FilmSimulation::Provia => "Provia/Standard",
            FilmSimulation::Velvia => "Velvia/Vivid",
            FilmSimulation::Astia => "Astia/Soft",
            FilmSimulation::ProNegHi => "PRO Neg Hi",
            FilmSimulation::ProNegStd => "PRO Neg Std",
            FilmSimulation::Monochrome => "Monochrome",
            FilmSimulation::MonochromeYe => "Monochrome+Ye",
            FilmSimulation::MonochromeR => "Monochrome+R",
            FilmSimulation::MonochromeG => "Monochrome+G",
            FilmSimulation::Sepia => "Sepia",
            FilmSimulation::ClassicChrome => "Classic Chrome",
            FilmSimulation::Acros => "Acros",
            FilmSimulation::AcrosYe => "Acros+Ye",
            FilmSimulation::AcrosR => "Acros+R",
            FilmSimulation::AcrosG => "Acros+G",
            FilmSimulation::Eterna => "Eterna/Cinema",
            FilmSimulation::ClassicNeg => "Classic Neg",
            FilmSimulation::EternaBleachBypass => "Eterna Bleach Bypass",
            FilmSimulation::NostalgicNeg => "Nostalgic Neg",
            FilmSimulation::RealaAce => "REALA ACE",
        }
    }
}

/// Grain effect roughness.
#[derive(Clone, Copy, Debug, PartialEq, Eq, Structural)]
pub enum GrainEffect {
    Off,
    Weak,
    Strong,
}

/// Grain effect size.
#[derive(Clone, Copy, Debug, PartialEq, Eq, Structural)]
pub enum GrainSize {
    Small,
    Large,
}

/// Color chrome effect (and FX blue) level.
#[derive(Clone, Copy, Debug, PartialEq, Eq, Structural)]
pub enum ChromeLevel {
    Off,
    Weak,
    Strong,
}

impl GrainEffect {
    /// Combined roughness-and-size ordinal of property index 8:
    /// 1 = off, 2 = weak+small, 3 = strong+small, 4 = weak+large, 5 = strong+large.
    pub open spec fn d185_code(self, size: Option<GrainSize>) -> u32 {
        let large = size == Some(GrainSize::Large);
        match self {
            GrainEffect::Off => 1,
            GrainEffect::Weak => if large {
                4
            } else {
                2
            },
            GrainEffect::Strong => if large {
                5
            } else {
                3
            },
        }
    }

    /// The combined grain ordinal; a missing size counts as small.
    pub fn to_d185(self, size: Option<GrainSize>) -> (r: u32)
        ensures
            r == self.d185_code(size),
    {
        let large = match size {
            Some(GrainSize::Large) => true,
            _ => false,
        };
        match self {
            GrainEffect::Off => 1,
            GrainEffect::Weak => if large {
                4
            } else {
                2
            },
            GrainEffect::Strong => if large {
                5
            } else {
                3
            },
        }
    }
}


/// Roughness that a combined grain ordinal stands for.
pub open spec fn grain_roughness_of(code: u32) -> Option<GrainEffect> {
    match code {
        1 => Some(GrainEffect::Off),
        2 | 4 => Some(GrainEffect::Weak),
        3 | 5 => Some(GrainEffect::Strong),
        _ => None,
    }
}

/// Size that a combined grain ordinal stands for, where grain is on.
pub open spec fn grain_size_of(code: u32) -> Option<GrainSize> {
    match code {
        2 | 3 => Some(GrainSize::Small),
        4 | 5 => Some(GrainSize::Large),
        _ => None,
    }
}

/// The combined grain ordinal keeps both halves of the setting: its
/// roughness is read back from it, and, where grain is on, its size (small
/// where none is given). So a weak grain never gets a strong grain's code,
/// and distinct settings get distinct codes.
pub proof fn law_grain_code_keeps_setting(g: GrainEffect, size: Option<GrainSize>)
    ensures
        grain_roughness_of(g.d185_code(size)) == Some(g),
        g != GrainEffect::Off ==> grain_size_of(g.d185_code(size)) == Some(
            match size {
                Some(z) => z,
                None => GrainSize::Small,
            },
        ),
        g == GrainEffect::Off ==> grain_size_of(g.d185_code(size)) == None::<GrainSize>,
{
}
impl GrainSize {
    /// Legacy size code (0x10 small, 0x20 large).
    pub open spec fn d185_code(self) -> u32 {
        match self {
            GrainSize::Small => 0x10,
            GrainSize::Large => 0x20,
        }
    }

    /// Legacy size code (0x10 small, 0x20 large).
    pub fn to_d185(self) -> (r: u32)
        ensures
            r == self.d185_code(),
    {
        match self {
            GrainSize::Small => 0x10,
            GrainSize::Large => 0x20,
        }
    }
}

impl ChromeLevel {
    /// Chrome level code: off 1, weak 2, strong 3.
    pub open spec fn d185_code(self) -> u32 {
        match self {
            ChromeLevel::Off => 1,
            ChromeLevel::Weak => 2,
            ChromeLevel::Strong => 3,
        }
    }

    /// Chrome level code: off 1, weak 2, strong 3.
    pub fn to_d185(self) -> (r: u32)
        ensures
            r == self.d185_code(),
    {
        match self {
            ChromeLevel::Off => 1,
            ChromeLevel::Weak => 2,
            ChromeLevel::Strong => 3,
        }
    }
}

/// Film simulation that a D185 film code (property index 7) stands for.
pub open spec fn film_of_code(code: u32) -> Option<FilmSimulation> {
    match code {
        0x01 => Some(FilmSimulation::Provia),
        0x02 => Some(FilmSimulation::Velvia),
        0x03 => Some(FilmSimulation::Astia),
        0x04 => Some(FilmSimulation::ProNegHi),
        0x05 => Some(FilmSimulation::ProNegStd),
        0x06 => Some(FilmSimulation::Monochrome),
        0x07 => Some(FilmSimulation::MonochromeYe),
        0x08 => Some(FilmSimulation::MonochromeR),
        0x09 => Some(FilmSimulation::MonochromeG),
        0x0A => Some(FilmSimulation::Sepia),
        0x0B => Some(FilmSimulation::ClassicChrome),
        0x0C => Some(FilmSimulation::Acros),
        0x0D => Some(FilmSimulation::AcrosYe),
        0x0E => Some(FilmSimulation::AcrosR),
        0x0F => Some(FilmSimulation::AcrosG),
        0x10 => Some(FilmSimulation::Eterna),
        0x11 => Some(FilmSimulation::ClassicNeg),
        0x12 => Some(FilmSimulation::EternaBleachBypass),
        0x13 => Some(FilmSimulation::NostalgicNeg),
        0x14 => Some(FilmSimulation::RealaAce),
        _ => None,
    }
}

/// Each film simulation's D185 code stands for that simulation and no other,
/// and every code lies in the camera's numbering 1 to 20.
pub proof fn law_film_code_names_film(f: FilmSimulation, g: FilmSimulation)
    ensures
        film_of_code(f.d185_code()) == Some(f),
        1 <= f.d185_code() <= 20,
        f.d185_code() == g.d185_code() ==> f == g,
{
}

/// Chrome level that a D185 chrome code stands for.
pub open spec fn chrome_of_code(code: u32) -> Option<ChromeLevel> {
    match code {
        1 => Some(ChromeLevel::Off),
        2 => Some(ChromeLevel::Weak),
        3 => Some(ChromeLevel::Strong),
        _ => None,
    }
}

/// Each chrome level's code stands for that level and no other.
pub proof fn law_chrome_code_names_level(c: ChromeLevel)
    ensures
        chrome_of_code(c.d185_code()) == Some(c),
{
}

// ---------------------------------------------------------------------------
// Value encodings
// ---------------------------------------------------------------------------

/// The 32-bit two's-complement pattern of a value in the `i32` range.
pub open spec fn u32_bits(x: int) -> u32 {
    if x < 0 {
        (x + 0x1_0000_0000) as u32
    } else {
        x as u32
    }
}

/// `x as u32` for an `i32` is its two's-complement pattern.
pub fn i32_bits(x: i32) -> (r: u32)
    ensures
        r == u32_bits(x as int),
        r as i32 == x,
{
    let r = x as u32;
    assert(r == u32_bits(x as int) && r as i32 == x) by (bit_vector)
        requires
            r == x as u32,
    ;
    r
}

/// Highlight / shadow tone, given in tenths of a step: the value times ten.
/// (Tone settings are held in tenths, so the product is the tenths themselves.)
pub fn encode_tone(tenths: i32) -> (r: u32)
    ensures
        r == u32_bits(tenths as int),
{
    i32_bits(tenths)
}

/// Color / sharpness / clarity: the value times ten, as a two's-complement u32.
pub fn encode_range(val: i32) -> (r: u32)
    requires
        -214748364 <= val <= 214748364,
    ensures
        r == u32_bits(val * 10),
{
    i32_bits(val * 10)
}

/// Noise reduction in Fuji's non-linear table; values outside -4..=4 encode as 0.
pub open spec fn noise_reduction_code(val: int) -> u32 {
    if val == 4 {
        0x5000
    } else if val == 3 {
        0x6000
    } else if val == 2 {
        0x0000
    } else if val == 1 {
        0x1000
    } else if val == -1 {
        0x3000
    } else if val == -2 {
        0x4000
    } else if val == -3 {
        0x7000
    } else if val == -4 {
        0x8000
    } else {
        0x2000
    }
}

/// Noise reduction in Fuji's non-linear table.
pub fn encode_noise_reduction(val: i32) -> (r: u32)
    ensures
        r == noise_reduction_code(val as int),
{
    match val {
        4 => 0x5000,
        3 => 0x6000,
        2 => 0x0000,
        1 => 0x1000,
        0 => 0x2000,
        -1 => 0x3000,
        -2 => 0x4000,
        -3 => 0x7000,
        -4 => 0x8000,
        _ => 0x2000,
    }
}

/// Noise-reduction level that a D185 code stands for, in Fuji's table.
pub open spec fn noise_reduction_level(code: u32) -> Option<int> {
    match code {
        0x5000 => Some(4),
        0x6000 => Some(3),
        0x0000 => Some(2),
        0x1000 => Some(1),
        0x2000 => Some(0),
        0x3000 => Some(-1),
        0x4000 => Some(-2),
        0x7000 => Some(-3),
        0x8000 => Some(-4),
        _ => None,
    }
}

/// Every noise-reduction level from -4 to 4 is written as the code that
/// Fuji's table gives for it, so the level is read back from the code and
/// distinct levels get distinct codes.
pub proof fn law_noise_reduction_table(a: int, b: int)
    requires
        -4 <= a <= 4,
        -4 <= b <= 4,
    ensures
        noise_reduction_level(noise_reduction_code(a)) == Some(a),
        noise_reduction_code(a) == noise_reduction_code(b) ==> a == b,
{
}

/// Clarity: the value times ten, like color and sharpness.
pub fn encode_clarity(val: i32) -> (r: u32)
    requires
        -214748364 <= val <= 214748364,
    ensures
        r == u32_bits(val * 10),
{
    encode_range(val)
}

/// White-balance shift: the raw signed value.
pub fn encode_wb_shift(val: i32) -> (r: u32)
    ensures
        r == u32_bits(val as int),
{
    i32_bits(val)
}

/// Exposure compensation in millis (EV × 1000) as a two's-complement u32.
pub fn encode_exposure_comp(millis: i32) -> (r: u32)
    ensures
        r == u32_bits(millis as int),
        r as i32 == millis,
{
    i32_bits(millis)
}

// ---------------------------------------------------------------------------
// Exposure compensation notation
// ---------------------------------------------------------------------------

/// The fraction part `1/3` or `2/3` in millis, with the whole stops.
pub open spec fn ev_fraction(whole: int, f: Seq<char>) -> Result<(int, int), Seq<char>> {
    if f == "1/3"@ {
        Ok((whole, 333))
    } else if f == "2/3"@ {
        Ok((whole, 667))
    } else {
        Err("unsupported fraction: "@ + f + " (use 1/3 or 2/3)"@)
    }
}

/// Whole stops and fraction (in millis) of an exposure value without its sign,
/// in one of the notations `1.3` / `.7`, `1/3` / `1 2/3`, or `2`; or the
/// message that rejects it. `t` is the whole trimmed input, quoted by one message.
pub open spec fn ev_body_parts(t: Seq<char>, body: Seq<char>) -> Result<(int, int), Seq<char>> {
    if body.contains('.') {
        let dot = first_index(body, '.')->0;
        let frac = body.skip(dot + 1);
        let whole: Option<int> = if dot == 0 {
            Some(0)
        } else {
            match parse_i32_spec(body.take(dot)) {
                Some(w) => Some(w as int),
                None => None,
            }
        };
        match whole {
            None => Err("invalid number: "@ + body),
            Some(w) => if frac == "0"@ {
                Ok((w, 0))
            } else if frac == "3"@ {
                Ok((w, 333))
            } else if frac == "7"@ {
                Ok((w, 667))
            } else {
                Err("use .3 for 1/3 or .7 for 2/3 (got ."@ + frac + ")"@)
            },
        }
    } else if body.contains('/') {
        let parts = words(body);
        if parts.len() == 1 {
            ev_fraction(0, parts[0])
        } else if parts.len() == 2 {
            match parse_i32_spec(parts[0]) {
                Some(w) => ev_fraction(w as int, parts[1]),
                None => Err("invalid number: "@ + parts[0]),
            }
        } else {
            Err("cannot parse '"@ + t + "'"@)
        }
    } else {
        match parse_i32_spec(body) {
            Some(w) => Ok((w as int, 0)),
            None => Err("invalid number: "@ + body),
        }
    }
}

/// The sign and the unsigned body of a trimmed exposure value.
pub open spec fn ev_sign_body(t: Seq<char>) -> (bool, Seq<char>) {
    if t.len() > 0 && t[0] == '-' {
        (true, trim(t.drop_first()))
    } else if t.len() > 0 && t[0] == '+' {
        (false, trim(t.drop_first()))
    } else {
        (false, t)
    }
}

/// Whole stops and millis fraction of an exposure value, before the range check.
pub open spec fn ev_parts(s: Seq<char>) -> Result<(int, int), Seq<char>> {
    let t = trim(s);
    if t.len() == 0 {
        Err("empty string"@)
    } else {
        ev_body_parts(t, ev_sign_body(t).1)
    }
}

/// Whether reading `s` overflows `i32` when it scales the whole stops to millis
/// (`whole * 1000 + frac`); std panics there in debug builds.
pub open spec fn ev_overflows(s: Seq<char>) -> bool {
    match ev_parts(s) {
        Ok(p) => !(i32::MIN <= p.0 * 1000 && p.0 * 1000 + p.1 <= i32::MAX),
        Err(_) => false,
    }
}

/// Exposure compensation in millis (EV × 1000) written in `s`, or the message
/// that rejects it.
pub open spec fn exposure_comp_value(s: Seq<char>) -> Result<int, Seq<char>> {
    match ev_parts(s) {
        Err(m) => Err(m),
        Ok(p) => {
            let millis = p.0 * 1000 + p.1;
            if millis > 3000 || millis < -3000 {
                Err("out of range: ±3 EV max"@)
            } else if ev_sign_body(trim(s)).0 {
                Ok(-millis)
            } else {
                Ok(millis)
            }
        },
    }
}

/// Whole stops and fraction of `f` after `whole` stops.
fn ev_fraction_exec(whole: i32, f: &Vec<char>) -> (r: Result<(i32, i32), String>)
    ensures
        match r {
            Ok(p) => ev_fraction(whole as int, f@) == Ok::<(int, int), Seq<char>>(
                (p.0 as int, p.1 as int),
            ),
            Err(m) => ev_fraction(whole as int, f@) == Err::<(int, int), Seq<char>>(m@),
        },
{
    if chars_eq_str(f, "1/3") {
        Ok((whole, 333))
    } else if chars_eq_str(f, "2/3") {
        Ok((whole, 667))
    } else {
        let mut m: Vec<char> = Vec::new();
        push_str(&mut m, "unsupported fraction: ");
        push_chars(&mut m, f);
        push_str(&mut m, " (use 1/3 or 2/3)");
        Err(string_of(&m))
    }
}

fn invalid_number(v: &Vec<char>) -> (r: String)
    ensures
        r@ == "invalid number: "@ + v@,
{
    let mut m: Vec<char> = Vec::new();
    push_str(&mut m, "invalid number: ");
    push_chars(&mut m, v);
    string_of(&m)
}

fn ev_body_parts_exec(t: &Vec<char>, body: &Vec<char>) -> (r: Result<(i32, i32), String>)
    ensures
        match r {
            Ok(p) => ev_body_parts(t@, body@) == Ok::<(int, int), Seq<char>>(
                (p.0 as int, p.1 as int),
            ),
            Err(m) => ev_body_parts(t@, body@) == Err::<(int, int), Seq<char>>(m@),
        },
{
    match find_char(body, '.') {
        Some(dot) => {
            proof {
                lemma_first_index(body@, '.');
            }
            assert(first_index(body@, '.') == Some(dot as int));
            assert(dot < body.len());
            let whole: i32 = if dot == 0 {
                0
            } else {
                let w = sub_chars(body, 0, dot);
                assert(w@ =~= body@.take(dot as int));
                match parse_i32_chars(&w) {
                    Some(x) => x,
                    None => {
                        return Err(invalid_number(body));
                    },
                }
            };
            let frac = sub_chars(body, dot + 1, body.len());
            assert(frac@ =~= body@.skip(dot + 1));
            if chars_eq_str(&frac, "0") {
                Ok((whole, 0))
            } else if chars_eq_str(&frac, "3") {
                Ok((whole, 333))
            } else if chars_eq_str(&frac, "7") {
                Ok((whole, 667))
            } else {
                let mut m: Vec<char> = Vec::new();
                push_str(&mut m, "use .3 for 1/3 or .7 for 2/3 (got .");
                push_chars(&mut m, &frac);
                push_str(&mut m, ")");
                Err(string_of(&m))
            }
        },
        None => {
            proof {
                lemma_first_index(body@, '.');
            }
            if contains_char(body, '/') {
                let parts = split_whitespace(body);
                assert(views(parts@).len() == parts@.len());
                if parts.len() == 1 {
                    assert(views(parts@)[0] == parts@[0]@);
                    ev_fraction_exec(0, &parts[0])
                } else if parts.len() == 2 {
                    assert(views(parts@)[0] == parts@[0]@);
                    assert(views(parts@)[1] == parts@[1]@);
                    match parse_i32_chars(&parts[0]) {
                        Some(w) => ev_fraction_exec(w, &parts[1]),
                        None => Err(invalid_number(&parts[0])),
                    }
                } else {
                    let mut m: Vec<char> = Vec::new();
                    push_str(&mut m, "cannot parse '");
                    push_chars(&mut m, t);
                    push_str(&mut m, "'");
                    Err(string_of(&m))
                }
            } else {
                match parse_i32_chars(body) {
                    Some(w) => Ok((w, 0)),
                    None => Err(invalid_number(body)),
                }
            }
        },
    }
}

/// Whether reading `s` as an exposure value would overflow `i32`
/// (see `ev_overflows`); callers that cannot rule it out test it first.
pub fn exposure_comp_overflows(s: &str) -> (r: bool)
    ensures
        r == ev_overflows(s@),
{
    let t = trim_str(s);
    if t.len() == 0 {
        return false;
    }
    let body = if t[0] == '-' || t[0] == '+' {
        let rest = sub_chars(&t, 1, t.len());
        assert(rest@ =~= t@.drop_first());
        trim_chars(&rest)
    } else {
        sub_chars(&t, 0, t.len())
    };
    assert(t@.subrange(0, t@.len() as int) =~= t@);
    match ev_body_parts_exec(&t, &body) {
        Ok(p) => {
            let w = p.0 as i64;
            let f = p.1 as i64;
            !(-2147483648i64 <= w * 1000 && w * 1000 + f <= 2147483647i64)
        },
        Err(_) => false,
    }
}

/// Parses exposure compensation from decimal shorthand (`0`, `+1`, `-0.7`,
/// `+1.3`, where `.3` is 1/3 and `.7` is 2/3 of a stop) or fraction notation
/// (`+1/3`, `-1 2/3`), into millis (EV × 1000), at most ±3 EV.
pub fn parse_exposure_comp(s: &str) -> (r: Result<i32, String>)
    requires
        !ev_overflows(s@),
    ensures
        match r {
            Ok(v) => exposure_comp_value(s@) == Ok::<int, Seq<char>>(v as int),
            Err(m) => exposure_comp_value(s@) == Err::<int, Seq<char>>(m@),
        },
{
    let t = trim_str(s);
    if t.len() == 0 {
        return Err(string_of(&chars_of("empty string")));
    }
    let neg = t[0] == '-';
    let body = if t[0] == '-' || t[0] == '+' {
        let rest = sub_chars(&t, 1, t.len());
        assert(rest@ =~= t@.drop_first());
        trim_chars(&rest)
    } else {
        sub_chars(&t, 0, t.len())
    };
    assert(t@.subrange(0, t@.len() as int) =~= t@);
    let (whole, frac) = match ev_body_parts_exec(&t, &body) {
        Ok(p) => p,
        Err(m) => {
            return Err(m);
        },
    };
    let millis = whole * 1000 + frac;
    if millis > 3000 || millis < -3000 {
        return Err(string_of(&chars_of("out of range: ±3 EV max")));
    }
    Ok(
        if neg {
            -millis
        } else {
            millis
        },
    )
}

/// Sign of an exposure value as `format_ev` writes it.
pub open spec fn ev_sign(millis: int) -> Seq<char> {
    if millis < 0 {
        "-"@
    } else if millis > 0 {
        "+"@
    } else {
        ""@
    }
}

/// Exposure value in millis written in fraction notation: `0`, `+1/3`,
/// `-2/3`, `+1`, `+1 1/3`, `-2 2/3`; other millis as `+1.250`.
pub open spec fn ev_text(millis: int) -> Seq<char> {
    let a = if millis < 0 {
        -millis
    } else {
        millis
    };
    let w = a / 1000;
    let r = a % 1000;
    let sign = ev_sign(millis);
    if w == 0 && r == 0 {
        "0"@
    } else if w == 0 && r == 333 {
        sign + "1/3"@
    } else if w == 0 && r == 667 {
        sign + "2/3"@
    } else if r == 0 {
        sign + dec(w as nat)
    } else if r == 333 {
        sign + dec(w as nat) + " 1/3"@
    } else if r == 667 {
        sign + dec(w as nat) + " 2/3"@
    } else {
        sign + dec(w as nat) + "."@ + pad_zero(dec(r as nat), 3)
    }
}

/// Writes exposure in millis in fraction notation (see `ev_text`).
pub fn format_ev(millis: i32) -> (r: String)
    requires
        millis != i32::MIN,
    ensures
        r@ == ev_text(millis as int),
{
    let mut v: Vec<char> = Vec::new();
    let a: i32 = if millis < 0 {
        -millis
    } else {
        millis
    };
    let w = a / 1000;
    let rem = a % 1000;
    if w == 0 && rem == 0 {
        push_str(&mut v, "0");
        return string_of(&v);
    }
    if millis < 0 {
        push_str(&mut v, "-");
    } else if millis > 0 {
        push_str(&mut v, "+");
    } else {
        push_str(&mut v, "");
    }
    if w == 0 && rem == 333 {
        push_str(&mut v, "1/3");
    } else if w == 0 && rem == 667 {
        push_str(&mut v, "2/3");
    } else {
        push_dec(&mut v, w as u64);
        if rem == 0 {
        } else if rem == 333 {
            push_str(&mut v, " 1/3");
        } else if rem == 667 {
            push_str(&mut v, " 2/3");
        } else {
            push_str(&mut v, ".");
            let d = dec_chars(rem as u64);
            push_pad_zero(&mut v, &d, 3);
        }
    }
    string_of(&v)
}

/// The sign of an exposure value only negates it: for a trimmed unsigned
/// text `b`, `-b` reads as the negation of what `b` reads as and `+b` as the
/// same value, and each is rejected exactly when `b` is.
pub proof fn law_exposure_sign_symmetry(b: Seq<char>)
    requires
        b.len() == 0 || (!is_ws(b[0]) && !is_ws(b.last())),
        b.len() > 0 ==> b[0] != '-' && b[0] != '+',
    ensures
        match exposure_comp_value(b) {
            Ok(m) => exposure_comp_value(seq!['-'] + b) == Ok::<int, Seq<char>>(-m)
                && exposure_comp_value(seq!['+'] + b) == Ok::<int, Seq<char>>(m),
            Err(_) => exposure_comp_value(seq!['-'] + b) is Err && exposure_comp_value(
                seq!['+'] + b,
            ) is Err,
        },
{
    let neg = seq!['-'] + b;
    let pos = seq!['+'] + b;
    if b.len() == 0 {
        assert(trim(b) =~= b) by {
            assert(trim_start(b) == b);
            assert(trim_end(b) == b);
        }
        assert(neg =~= seq!['-']);
        assert(pos =~= seq!['+']);
        assert(neg.last() == '-');
        assert(pos.last() == '+');
        lemma_trim_unchanged(neg);
        lemma_trim_unchanged(pos);
        assert(neg.drop_first() =~= b);
        assert(pos.drop_first() =~= b);
        assert(ev_body_parts(neg, b) is Err);
        assert(ev_body_parts(pos, b) is Err);
        return;
    }
    assert(neg.last() == b.last());
    assert(pos.last() == b.last());
    lemma_trim_unchanged(b);
    lemma_trim_unchanged(neg);
    lemma_trim_unchanged(pos);
    assert(neg.drop_first() =~= b);
    assert(pos.drop_first() =~= b);
    assert(ev_sign_body(b) == (false, b));
    assert(ev_sign_body(neg) == (true, b));
    assert(ev_sign_body(pos) == (false, b));
    let r = ev_body_parts(b, b);
    assert(r is Ok ==> ev_body_parts(neg, b) == r && ev_body_parts(pos, b) == r);
    assert(r is Err ==> ev_body_parts(neg, b) is Err && ev_body_parts(pos, b) is Err);
}

/// A sequence that neither starts nor ends with whitespace is its own trim.
proof fn lemma_trim_unchanged(s: Seq<char>)
    requires
        s.len() > 0,
        !is_ws(s[0]),
        !is_ws(s.last()),
    ensures
        trim(s) == s,
{
    assert(trim_start(s) == s);
    assert(trim_end(s) == s);
}

/// A single decimal digit: how `dec` writes it and how `i32::from_str` reads it.
proof fn lemma_one_digit(w: int)
    requires
        0 <= w < 10,
    ensures
        dec(w as nat) == seq![digit_char(w)],
        parse_i32_spec(seq![digit_char(w)]) == Some(w as i32),
        '0' <= digit_char(w) <= '9',
        !is_ws(digit_char(w)),
{
    let d = digit_char(w);
    assert(d as u32 == w + 48);
    let s = seq![d];
    assert(s.drop_last() =~= Seq::<char>::empty());
    assert(crate::text::digits_value(s.drop_last()) == 0);
    assert(s.last() == d);
    assert(crate::text::all_digits(s));
    assert(crate::text::digits_value(s) == w);
}

/// The body of an exposure value written with a fraction: `1/3`, `2/3`, or
/// whole stops, a space and the fraction.
proof fn lemma_fraction_body(t: Seq<char>, body: Seq<char>, w: int, f: int)
    requires
        0 <= w < 10,
        f == 333 || f == 667,
        body == ({
            let frac = if f == 333 {
                "1/3"@
            } else {
                "2/3"@
            };
            if w == 0 {
                frac
            } else {
                dec(w as nat) + " "@ + frac
            }
        }),
    ensures
        body.len() > 0,
        !is_ws(body[0]),
        !is_ws(body.last()),
        body[0] != '-' && body[0] != '+',
        ev_body_parts(t, body) == Ok::<(int, int), Seq<char>>((w, f)),
{
    reveal_strlit("1/3");
    reveal_strlit("2/3");
    reveal_strlit(" ");
    lemma_one_digit(w);
    let d = digit_char(w);
    let frac = if f == 333 {
        "1/3"@
    } else {
        "2/3"@
    };
    let fd = if f == 333 {
        '1'
    } else {
        '2'
    };
    assert(frac =~= seq![fd, '/', '3']);
    if w == 0 {
        assert(!body.contains('.'));
        assert(body[1] == '/');
        assert(body.contains('/'));
        lemma_words_take_word(body, 0, 3);
        assert(body.skip(0) =~= body);
        assert(body.skip(3) =~= Seq::<char>::empty());
        assert(body.subrange(0, 3) =~= frac);
        assert(words(body) =~= seq![frac]);
    } else {
        assert(body =~= seq![d, ' ', fd, '/', '3']);
        assert(!body.contains('.'));
        assert(body[3] == '/');
        assert(body.contains('/'));
        lemma_words_take_word(body, 0, 1);
        lemma_words_skip_ws(body, 1);
        lemma_words_take_word(body, 2, 5);
        assert(body.skip(0) =~= body);
        assert(body.skip(5) =~= Seq::<char>::empty());
        assert(body.subrange(0, 1) =~= seq![d]);
        assert(body.subrange(2, 5) =~= frac);
        assert(words(body) =~= seq![seq![d], frac]);
    }
}

/// The body of an exposure value in whole stops: their digit.
proof fn lemma_whole_body(t: Seq<char>, body: Seq<char>, w: int)
    requires
        0 <= w < 10,
        body == dec(w as nat),
    ensures
        body.len() > 0,
        !is_ws(body[0]),
        !is_ws(body.last()),
        body[0] != '-' && body[0] != '+',
        ev_body_parts(t, body) == Ok::<(int, int), Seq<char>>((w, 0)),
{
    lemma_one_digit(w);
    assert(!body.contains('.'));
    assert(!body.contains('/'));
}

/// An exposure within ±3 EV in whole stops and thirds, written in fraction
/// notation (`format_ev`), reads back as the same value (`parse_exposure_comp`).
pub proof fn law_exposure_text_roundtrip(millis: int)
    requires
        -3000 <= millis <= 3000,
        ({
            let a = if millis < 0 {
                -millis
            } else {
                millis
            };
            a % 1000 == 0 || a % 1000 == 333 || a % 1000 == 667
        }),
    ensures
        !ev_overflows(ev_text(millis)),
        exposure_comp_value(ev_text(millis)) == Ok::<int, Seq<char>>(millis),
{
    reveal_strlit("0");
    reveal_strlit("-");
    reveal_strlit("+");
    reveal_strlit("");
    reveal_strlit(" 1/3");
    reveal_strlit(" 2/3");
    reveal_strlit(" ");
    reveal_strlit("1/3");
    reveal_strlit("2/3");
    let a = if millis < 0 {
        -millis
    } else {
        millis
    };
    let w = a / 1000;
    let r = a % 1000;
    let t = ev_text(millis);
    if millis == 0 {
        assert(t =~= dec(0));
        lemma_whole_body(t, t, 0);
        lemma_trim_unchanged(t);
        return;
    }
    let body = if r == 0 {
        dec(w as nat)
    } else if w == 0 {
        if r == 333 {
            "1/3"@
        } else {
            "2/3"@
        }
    } else {
        dec(w as nat) + " "@ + if r == 333 {
            "1/3"@
        } else {
            "2/3"@
        }
    };
    if r == 0 {
        lemma_whole_body(t, body, w);
    } else {
        lemma_fraction_body(t, body, w, r);
        assert(" 1/3"@ =~= " "@ + "1/3"@);
        assert(" 2/3"@ =~= " "@ + "2/3"@);
    }
    let sign = ev_sign(millis);
    assert(t =~= sign + body);
    assert(t[0] == sign[0]);
    assert(t.last() == body.last());
    lemma_trim_unchanged(t);
    assert(t.drop_first() =~= body);
    lemma_trim_unchanged(body);
    assert(ev_body_parts(t, body) == Ok::<(int, int), Seq<char>>((w, r)));
}

// ---------------------------------------------------------------------------
// White balance
// ---------------------------------------------------------------------------

/// Camera code of a white-balance mode name (already trimmed and lower-cased).
pub open spec fn white_balance_code(m: Seq<char>) -> Option<u32> {
    if m == "auto"@ || m == "auto-white"@ || m == "auto-ambience"@ {
        Some(0x0002)
    } else if m == "daylight"@ {
        Some(0x0004)
    } else if m == "shade"@ {
        Some(0x8006)
    } else if m == "incandescent"@ {
        Some(0x0006)
    } else if m == "fluorescent-1"@ {
        Some(0x8001)
    } else if m == "fluorescent-2"@ {
        Some(0x8002)
    } else if m == "fluorescent-3"@ {
        Some(0x8003)
    } else if m == "temperature"@ {
        Some(0x8007)
    } else {
        None
    }
}

/// Camera code of a white-balance mode, matched after trimming and
/// lower-casing (so recipe spellings such as `Auto` match).
pub fn encode_white_balance(mode: &str, _temp: Option<u32>) -> (r: Option<u32>)
    ensures
        r == white_balance_code(unicode_lowercase(trim(mode@))),
        all_ascii(mode@) ==> r == white_balance_code(ascii_lowercase(trim(mode@))),
{
    let t = trim_str(mode);
    proof {
        if all_ascii(mode@) {
            lemma_trim_ascii(mode@);
        }
    }
    let m = lowercase_chars(&t);
    if chars_eq_str(&m, "auto") || chars_eq_str(&m, "auto-white") || chars_eq_str(
        &m,
        "auto-ambience",
    ) {
        Some(0x0002)
    } else if chars_eq_str(&m, "daylight") {
        Some(0x0004)
    } else if chars_eq_str(&m, "shade") {
        Some(0x8006)
    } else if chars_eq_str(&m, "incandescent") {
        Some(0x0006)
    } else if chars_eq_str(&m, "fluorescent-1") {
        Some(0x8001)
    } else if chars_eq_str(&m, "fluorescent-2") {
        Some(0x8002)
    } else if chars_eq_str(&m, "fluorescent-3") {
        Some(0x8003)
    } else if chars_eq_str(&m, "temperature") {
        Some(0x8007)
    } else {
        None
    }
}

/// White-balance mode that a camera white-balance code stands for.
pub open spec fn white_balance_mode_of(code: u32) -> Option<Seq<char>> {
    match code {
        0x0002 => Some("auto"@),
        0x0004 => Some("daylight"@),
        0x8006 => Some("shade"@),
        0x0006 => Some("incandescent"@),
        0x8001 => Some("fluorescent-1"@),
        0x8002 => Some("fluorescent-2"@),
        0x8003 => Some("fluorescent-3"@),
        0x8007 => Some("temperature"@),
        _ => None,
    }
}

/// A white-balance mode gets the camera code of that mode: each mode's code
/// stands for it (the two auto variants share the code of `auto`), and each
/// code that stands for a mode is what that mode gets.
pub proof fn law_white_balance_code_names_mode(m: Seq<char>, c: u32)
    ensures
        white_balance_code(m) == Some(c) ==> white_balance_mode_of(c) == Some(m) || (c == 0x0002
            && (m == "auto-white"@ || m == "auto-ambience"@)),
        white_balance_mode_of(c) == Some(m) ==> white_balance_code(m) == Some(c),
{
    reveal_strlit("auto");
    assert("auto"@.len() == 4 && "auto"@[0] == 'a');
    reveal_strlit("auto-white");
    assert("auto-white"@.len() == 10 && "auto-white"@[0] == 'a');
    reveal_strlit("auto-ambience");
    assert("auto-ambience"@.len() == 13 && "auto-ambience"@[0] == 'a');
    reveal_strlit("daylight");
    assert("daylight"@.len() == 8 && "daylight"@[0] == 'd');
    reveal_strlit("shade");
    assert("shade"@.len() == 5 && "shade"@[0] == 's');
    reveal_strlit("incandescent");
    assert("incandescent"@.len() == 12 && "incandescent"@[0] == 'i');
    reveal_strlit("fluorescent-1");
    assert("fluorescent-1"@.len() == 13 && "fluorescent-1"@[0] == 'f' && "fluorescent-1"@[12] == '1');
    reveal_strlit("fluorescent-2");
    assert("fluorescent-2"@.len() == 13 && "fluorescent-2"@[0] == 'f' && "fluorescent-2"@[12] == '2');
    reveal_strlit("fluorescent-3");
    assert("fluorescent-3"@.len() == 13 && "fluorescent-3"@[0] == 'f' && "fluorescent-3"@[12] == '3');
    reveal_strlit("temperature");
    assert("temperature"@.len() == 11 && "temperature"@[0] == 't');
}


// ---------------------------------------------------------------------------
// Recipe settings
// ---------------------------------------------------------------------------

/// Settings a recipe (or the command line, or a project override) applies to
/// a profile. Tone values (`highlight`, `shadow`) are held in tenths of a step.
pub struct RecipeSettings {
    pub film_sim: Option<FilmSimulation>,
    pub grain: Option<GrainEffect>,
    pub grain_size: Option<GrainSize>,
    /// Highlight tone in tenths of a step (`-15` is -1.5).
    pub highlight: Option<i32>,
    /// Shadow tone in tenths of a step.
    pub shadow: Option<i32>,
    pub color: Option<i32>,
    pub sharpness: Option<i32>,
    pub noise_reduction: Option<i32>,
    pub clarity: Option<i32>,
    pub white_balance: Option<String>,
    pub wb_temp: Option<u32>,
    pub wb_shift_r: Option<i32>,
    pub wb_shift_b: Option<i32>,
    pub chrome_effect: Option<ChromeLevel>,
    pub chrome_blue: Option<ChromeLevel>,
    pub dynamic_range: Option<u32>,
    /// Exposure compensation in millis (EV × 1000), e.g. 333 = +1/3 EV.
    pub exposure_comp: Option<i32>,
}

/// Mathematical model of `RecipeSettings`: the white-balance name as characters.
pub struct SettingsModel {
    pub film_sim: Option<FilmSimulation>,
    pub grain: Option<GrainEffect>,
    pub grain_size: Option<GrainSize>,
    pub highlight: Option<i32>,
    pub shadow: Option<i32>,
    pub color: Option<i32>,
    pub sharpness: Option<i32>,
    pub noise_reduction: Option<i32>,
    pub clarity: Option<i32>,
    pub white_balance: Option<Seq<char>>,
    pub wb_temp: Option<u32>,
    pub wb_shift_r: Option<i32>,
    pub wb_shift_b: Option<i32>,
    pub chrome_effect: Option<ChromeLevel>,
    pub chrome_blue: Option<ChromeLevel>,
    pub dynamic_range: Option<u32>,
    pub exposure_comp: Option<i32>,
}

/// The characters of an optional string.
pub open spec fn opt_chars(o: Option<String>) -> Option<Seq<char>> {
    match o {
        Some(s) => Some(s@),
        None => None,
    }
}

/// Copy of an optional string.
pub fn clone_opt_string(o: &Option<String>) -> (r: Option<String>)
    ensures
        opt_chars(r) == opt_chars(*o),
{
    match o {
        Some(s) => Some(s.clone()),
        None => None,
    }
}

impl View for RecipeSettings {
    type V = SettingsModel;

    open spec fn view(&self) -> SettingsModel {
        SettingsModel {
            film_sim: self.film_sim,
            grain: self.grain,
            grain_size: self.grain_size,
            highlight: self.highlight,
            shadow: self.shadow,
            color: self.color,
            sharpness: self.sharpness,
            noise_reduction: self.noise_reduction,
            clarity: self.clarity,
            white_balance: opt_chars(self.white_balance),
            wb_temp: self.wb_temp,
            wb_shift_r: self.wb_shift_r,
            wb_shift_b: self.wb_shift_b,
            chrome_effect: self.chrome_effect,
            chrome_blue: self.chrome_blue,
            dynamic_range: self.dynamic_range,
            exposure_comp: self.exposure_comp,
        }
    }
}

impl Clone for RecipeSettings {
    fn clone(&self) -> (r: Self)
        ensures
            r@ == self@,
    {
        RecipeSettings {
            film_sim: self.film_sim,
            grain: self.grain,
            grain_size: self.grain_size,
            highlight: self.highlight,
            shadow: self.shadow,
            color: self.color,
            sharpness: self.sharpness,
            noise_reduction: self.noise_reduction,
            clarity: self.clarity,
            white_balance: clone_opt_string(&self.white_balance),
            wb_temp: self.wb_temp,
            wb_shift_r: self.wb_shift_r,
            wb_shift_b: self.wb_shift_b,
            chrome_effect: self.chrome_effect,
            chrome_blue: self.chrome_blue,
            dynamic_range: self.dynamic_range,
            exposure_comp: self.exposure_comp,
        }
    }
}

impl Default for RecipeSettings {
    fn default() -> (r: Self)
        ensures
            r@ == SettingsModel::empty(),
    {
        RecipeSettings {
            film_sim: None,
            grain: None,
            grain_size: None,
            highlight: None,
            shadow: None,
            color: None,
            sharpness: None,
            noise_reduction: None,
            clarity: None,
            white_balance: None,
            wb_temp: None,
            wb_shift_r: None,
            wb_shift_b: None,
            chrome_effect: None,
            chrome_blue: None,
            dynamic_range: None,
            exposure_comp: None,
        }
    }
}

impl SettingsModel {
    /// Settings that change nothing.
    pub open spec fn empty() -> SettingsModel {
        SettingsModel {
            film_sim: None,
            grain: None,
            grain_size: None,
            highlight: None,
            shadow: None,
            color: None,
            sharpness: None,
            noise_reduction: None,
            clarity: None,
            white_balance: None,
            wb_temp: None,
            wb_shift_r: None,
            wb_shift_b: None,
            chrome_effect: None,
            chrome_blue: None,
            dynamic_range: None,
            exposure_comp: None,
        }
    }

    /// No setting is present (the colour temperature alone does not count,
    /// since it only applies together with a white-balance mode).
    pub open spec fn no_settings(self) -> bool {
        &&& self.film_sim is None
        &&& self.grain is None
        &&& self.grain_size is None
        &&& self.highlight is None
        &&& self.shadow is None
        &&& self.color is None
        &&& self.sharpness is None
        &&& self.noise_reduction is None
        &&& self.clarity is None
        &&& self.white_balance is None
        &&& self.wb_shift_r is None
        &&& self.wb_shift_b is None
        &&& self.chrome_effect is None
        &&& self.chrome_blue is None
        &&& self.dynamic_range is None
        &&& self.exposure_comp is None
    }

    /// The values can be encoded without leaving `i32`: color, sharpness and
    /// clarity times ten fit, and the exposure is not `i32::MIN`.
    pub open spec fn encodable(self) -> bool {
        &&& (self.color matches Some(v) ==> -214748364 <= v <= 214748364)
        &&& (self.sharpness matches Some(v) ==> -214748364 <= v <= 214748364)
        &&& (self.clarity matches Some(v) ==> -214748364 <= v <= 214748364)
        &&& (self.exposure_comp matches Some(v) ==> v != i32::MIN)
    }

    /// The settings with command-line values laid over them: each given value wins.
    pub open spec fn merged(
        self,
        film_sim: Option<FilmSimulation>,
        grain: Option<GrainEffect>,
        grain_size: Option<GrainSize>,
        exposure_comp: Option<i32>,
    ) -> SettingsModel {
        SettingsModel {
            film_sim: if film_sim is Some {
                film_sim
            } else {
                self.film_sim
            },
            grain: if grain is Some {
                grain
            } else {
                self.grain
            },
            grain_size: if grain_size is Some {
                grain_size
            } else {
                self.grain_size
            },
            exposure_comp: if exposure_comp is Some {
                exposure_comp
            } else {
                self.exposure_comp
            },
            ..self
        }
    }
}

/// Debug name of a grain level.
pub open spec fn grain_name(g: GrainEffect) -> Seq<char> {
    match g {
        GrainEffect::Off => "Off"@,
        GrainEffect::Weak => "Weak"@,
        GrainEffect::Strong => "Strong"@,
    }
}

/// Debug name of a chrome level.
pub open spec fn chrome_name(c: ChromeLevel) -> Seq<char> {
    match c {
        ChromeLevel::Off => "Off"@,
        ChromeLevel::Weak => "Weak"@,
        ChromeLevel::Strong => "Strong"@,
    }
}

/// A tone value given in tenths, written as `{:+}` writes the decimal value:
/// `+0`, `+2`, `-1.5`.
pub open spec fn tenths_plus(t: int) -> Seq<char> {
    let a = if t < 0 {
        -t
    } else {
        t
    };
    (if t < 0 {
        "-"@
    } else {
        "+"@
    }) + dec((a / 10) as nat) + (if a % 10 == 0 {
        ""@
    } else {
        "."@ + dec((a % 10) as nat)
    })
}

/// Summary piece `{label}{v:+}` of an optional signed value.
pub open spec fn plus_piece(label: Seq<char>, o: Option<i32>) -> Seq<Seq<char>> {
    match o {
        Some(v) => seq![label + dec_plus(v as int)],
        None => seq![],
    }
}

/// Summary piece of an optional tone value in tenths.
pub open spec fn tenths_piece(label: Seq<char>, o: Option<i32>) -> Seq<Seq<char>> {
    match o {
        Some(v) => seq![label + tenths_plus(v as int)],
        None => seq![],
    }
}

/// Summary piece of the film simulation.
pub open spec fn film_piece(o: Option<FilmSimulation>) -> Seq<Seq<char>> {
    match o {
        Some(f) => seq!["Film: "@ + f.label_text()],
        None => seq![],
    }
}

/// Summary piece of the grain (`Grain: Weak/large`).
pub open spec fn grain_piece(g: Option<GrainEffect>, size: Option<GrainSize>) -> Seq<Seq<char>> {
    match g {
        Some(g) => seq![
            "Grain: "@ + grain_name(g) + match size {
                Some(GrainSize::Small) => "/small"@,
                Some(GrainSize::Large) => "/large"@,
                None => ""@,
            },
        ],
        None => seq![],
    }
}

/// Summary piece of the white balance: the temperature when there is one.
pub open spec fn wb_piece(wb: Option<Seq<char>>, temp: Option<u32>) -> Seq<Seq<char>> {
    match wb {
        Some(w) => match temp {
            Some(t) => seq!["WB: "@ + dec(t as nat) + "K"@],
            None => seq!["WB: "@ + w],
        },
        None => seq![],
    }
}

/// Summary piece of a chrome level.
pub open spec fn chrome_piece(label: Seq<char>, o: Option<ChromeLevel>) -> Seq<Seq<char>> {
    match o {
        Some(c) => seq![label + chrome_name(c)],
        None => seq![],
    }
}

/// Summary piece of the dynamic range (`DR200`).
pub open spec fn dr_piece(o: Option<u32>) -> Seq<Seq<char>> {
    match o {
        Some(d) => seq!["DR"@ + dec(d as nat)],
        None => seq![],
    }
}

/// Summary piece of the exposure compensation (`EV: +1/3`).
pub open spec fn ev_piece(o: Option<i32>) -> Seq<Seq<char>> {
    match o {
        Some(e) => seq!["EV: "@ + ev_text(e as int)],
        None => seq![],
    }
}

/// The pieces of the settings summary, in order.
pub open spec fn summary_parts(m: SettingsModel) -> Seq<Seq<char>> {
    film_piece(m.film_sim) + grain_piece(m.grain, m.grain_size) + tenths_piece(
        "Highlight: "@,
        m.highlight,
    ) + tenths_piece("Shadow: "@, m.shadow) + plus_piece("Color: "@, m.color) + plus_piece(
        "Sharp: "@,
        m.sharpness,
    ) + plus_piece("NR: "@, m.noise_reduction) + plus_piece("Clarity: "@, m.clarity) + wb_piece(
        m.white_balance,
        m.wb_temp,
    ) + plus_piece("WB-R: "@, m.wb_shift_r) + plus_piece("WB-B: "@, m.wb_shift_b) + chrome_piece(
        "Chrome: "@,
        m.chrome_effect,
    ) + chrome_piece("ChromeBlue: "@, m.chrome_blue) + dr_piece(m.dynamic_range) + ev_piece(
        m.exposure_comp,
    )
}

/// The pieces joined with `sep`.
pub open spec fn join(parts: Seq<Seq<char>>, sep: Seq<char>) -> Seq<char>
    decreases parts.len(),
{
    if parts.len() == 0 {
        seq![]
    } else if parts.len() == 1 {
        parts[0]
    } else {
        join(parts.drop_last(), sep) + sep + parts.last()
    }
}

/// One-line summary of settings: the pieces joined with `, `, or
/// `camera defaults` when there are none.
pub open spec fn summary_text(m: SettingsModel) -> Seq<char> {
    let parts = summary_parts(m);
    if parts.len() == 0 {
        "camera defaults"@
    } else {
        join(parts, ", "@)
    }
}

/// Joins the pieces with `sep`.
pub fn join_chars(parts: &Vec<Vec<char>>, sep: &str) -> (r: Vec<char>)
    ensures
        r@ == join(views(parts@), sep@),
{
    let mut r: Vec<char> = Vec::new();
    let mut i: usize = 0;
    while i < parts.len()
        invariant
            i <= parts.len(),
            r@ == join(views(parts@).take(i as int), sep@),
        decreases parts.len() - i,
    {
        let ghost before = views(parts@).take(i as int);
        assert(views(parts@).take(i + 1).drop_last() =~= before);
        assert(views(parts@).take(i + 1).last() == parts@[i as int]@);
        if i > 0 {
            push_str(&mut r, sep);
        } else {
            assert(before =~= Seq::<Seq<char>>::empty());
        }
        push_chars(&mut r, &parts[i]);
        i += 1;
    }
    assert(views(parts@).take(parts.len() as int) =~= views(parts@));
    r
}

/// Appends a tone value in tenths as `tenths_plus` writes it.
pub fn push_tenths_plus(v: &mut Vec<char>, t: i32)
    ensures
        final(v)@ == old(v)@ + tenths_plus(t as int),
{
    let ghost v0 = v@;
    let a: u64 = if t < 0 {
        (0i64 - t as i64) as u64
    } else {
        t as u64
    };
    if t < 0 {
        push_str(v, "-");
    } else {
        push_str(v, "+");
    }
    push_dec(v, a / 10);
    if a % 10 != 0 {
        push_str(v, ".");
        push_dec(v, a % 10);
    } else {
        push_str(v, "");
    }
    assert(v@ =~= v0 + tenths_plus(t as int));
}

/// Appends a new piece.
pub fn push_part(parts: &mut Vec<Vec<char>>, p: Vec<char>)
    ensures
        views(final(parts)@) == views(old(parts)@).push(p@),
{
    let ghost before = parts@;
    parts.push(p);
    assert(views(parts@) =~= views(before).push(p@));
}

fn add_plus_piece(parts: &mut Vec<Vec<char>>, label: &str, o: Option<i32>)
    ensures
        views(final(parts)@) == views(old(parts)@) + plus_piece(label@, o),
{
    let ghost before = views(parts@);
    if let Some(v) = o {
        let mut p: Vec<char> = Vec::new();
        push_str(&mut p, label);
        push_dec_plus(&mut p, v as i64);
        push_part(parts, p);
    }
    assert(views(parts@) =~= before + plus_piece(label@, o));
}

fn add_tenths_piece(parts: &mut Vec<Vec<char>>, label: &str, o: Option<i32>)
    ensures
        views(final(parts)@) == views(old(parts)@) + tenths_piece(label@, o),
{
    let ghost before = views(parts@);
    if let Some(v) = o {
        let mut p: Vec<char> = Vec::new();
        push_str(&mut p, label);
        push_tenths_plus(&mut p, v);
        push_part(parts, p);
    }
    assert(views(parts@) =~= before + tenths_piece(label@, o));
}

fn add_film_piece(parts: &mut Vec<Vec<char>>, o: Option<FilmSimulation>)
    ensures
        views(final(parts)@) == views(old(parts)@) + film_piece(o),
{
    let ghost before = views(parts@);
    if let Some(sim) = o {
        let mut p = chars_of("Film: ");
        push_str(&mut p, sim.label());
        push_part(parts, p);
    }
    assert(views(parts@) =~= before + film_piece(o));
}

fn add_grain_piece(parts: &mut Vec<Vec<char>>, o: Option<GrainEffect>, size: Option<GrainSize>)
    ensures
        views(final(parts)@) == views(old(parts)@) + grain_piece(o, size),
{
    let ghost before = views(parts@);
    if let Some(grain) = o {
        let mut p = chars_of("Grain: ");
        match grain {
            GrainEffect::Off => push_str(&mut p, "Off"),
            GrainEffect::Weak => push_str(&mut p, "Weak"),
            GrainEffect::Strong => push_str(&mut p, "Strong"),
        }
        match size {
            Some(GrainSize::Small) => push_str(&mut p, "/small"),
            Some(GrainSize::Large) => push_str(&mut p, "/large"),
            None => push_str(&mut p, ""),
        }
        push_part(parts, p);
    }
    assert(views(parts@) =~= before + grain_piece(o, size));
}

fn add_wb_piece(parts: &mut Vec<Vec<char>>, wb: &Option<String>, temp: Option<u32>)
    ensures
        views(final(parts)@) == views(old(parts)@) + wb_piece(opt_chars(*wb), temp),
{
    let ghost before = views(parts@);
    if let Some(w) = wb {
        let mut p = chars_of("WB: ");
        if let Some(t) = temp {
            push_dec(&mut p, t as u64);
            push_str(&mut p, "K");
        } else {
            push_str(&mut p, w.as_str());
        }
        push_part(parts, p);
    }
    assert(views(parts@) =~= before + wb_piece(opt_chars(*wb), temp));
}

fn add_chrome_piece(parts: &mut Vec<Vec<char>>, label: &str, o: Option<ChromeLevel>)
    ensures
        views(final(parts)@) == views(old(parts)@) + chrome_piece(label@, o),
{
    let ghost before = views(parts@);
    if let Some(c) = o {
        let mut p: Vec<char> = Vec::new();
        push_str(&mut p, label);
        push_chrome_name(&mut p, c);
        push_part(parts, p);
    }
    assert(views(parts@) =~= before + chrome_piece(label@, o));
}

fn add_dr_piece(parts: &mut Vec<Vec<char>>, o: Option<u32>)
    ensures
        views(final(parts)@) == views(old(parts)@) + dr_piece(o),
{
    let ghost before = views(parts@);
    if let Some(d) = o {
        let mut p = chars_of("DR");
        push_dec(&mut p, d as u64);
        push_part(parts, p);
    }
    assert(views(parts@) =~= before + dr_piece(o));
}

fn add_ev_piece(parts: &mut Vec<Vec<char>>, o: Option<i32>)
    requires
        o matches Some(v) ==> v != i32::MIN,
    ensures
        views(final(parts)@) == views(old(parts)@) + ev_piece(o),
{
    let ghost before = views(parts@);
    if let Some(e) = o {
        let mut p = chars_of("EV: ");
        let f = format_ev(e);
        push_str(&mut p, f.as_str());
        push_part(parts, p);
    }
    assert(views(parts@) =~= before + ev_piece(o));
}

impl RecipeSettings {
    /// Whether the settings can be encoded into a profile (see `encodable`).
    pub fn is_encodable(&self) -> (r: bool)
        ensures
            r == self@.encodable(),
    {
        let fits = |v: Option<i32>| -> (b: bool)
            ensures
                b == (v matches Some(x) ==> -214748364 <= x <= 214748364),
            {
                match v {
                    Some(x) => -214748364 <= x && x <= 214748364,
                    None => true,
                }
            };
        fits(self.color) && fits(self.sharpness) && fits(self.clarity) && self.exposure_comp
            != Some(i32::MIN)
    }

    /// No setting is present.
    pub fn is_empty(&self) -> (r: bool)
        ensures
            r == self@.no_settings(),
    {
        self.film_sim.is_none() && self.grain.is_none() && self.grain_size.is_none()
            && self.highlight.is_none() && self.shadow.is_none() && self.color.is_none()
            && self.sharpness.is_none() && self.noise_reduction.is_none() && self.clarity.is_none()
            && self.white_balance.is_none() && self.wb_shift_r.is_none() && self.wb_shift_b.is_none()
            && self.chrome_effect.is_none() && self.chrome_blue.is_none()
            && self.dynamic_range.is_none() && self.exposure_comp.is_none()
    }

    /// One-line human-readable summary (see `summary_text`).
    pub fn summary(&self) -> (r: String)
        requires
            self@.exposure_comp != Some(i32::MIN),
        ensures
            r@ == summary_text(self@),
    {
        let mut parts: Vec<Vec<char>> = Vec::new();
        add_film_piece(&mut parts, self.film_sim);
        add_grain_piece(&mut parts, self.grain, self.grain_size);
        add_tenths_piece(&mut parts, "Highlight: ", self.highlight);
        add_tenths_piece(&mut parts, "Shadow: ", self.shadow);
        add_plus_piece(&mut parts, "Color: ", self.color);
        add_plus_piece(&mut parts, "Sharp: ", self.sharpness);
        add_plus_piece(&mut parts, "NR: ", self.noise_reduction);
        add_plus_piece(&mut parts, "Clarity: ", self.clarity);
        add_wb_piece(&mut parts, &self.white_balance, self.wb_temp);
        add_plus_piece(&mut parts, "WB-R: ", self.wb_shift_r);
        add_plus_piece(&mut parts, "WB-B: ", self.wb_shift_b);
        add_chrome_piece(&mut parts, "Chrome: ", self.chrome_effect);
        add_chrome_piece(&mut parts, "ChromeBlue: ", self.chrome_blue);
        add_dr_piece(&mut parts, self.dynamic_range);
        add_ev_piece(&mut parts, self.exposure_comp);
        assert(views(parts@) =~= summary_parts(self@));
        if parts.len() == 0 {
            string_of(&chars_of("camera defaults"))
        } else {
            string_of(&join_chars(&parts, ", "))
        }
    }

    /// Lays command-line values over the settings; each given value wins.
    pub fn merge_cli(
        &mut self,
        film_sim: Option<FilmSimulation>,
        grain: Option<GrainEffect>,
        grain_size: Option<GrainSize>,
        exposure_comp: Option<i32>,
    )
        ensures
            final(self)@ == old(self)@.merged(film_sim, grain, grain_size, exposure_comp),
    {
        if let Some(fs) = film_sim {
            self.film_sim = Some(fs);
        }
        if let Some(g) = grain {
            self.grain = Some(g);
        }
        if let Some(gs) = grain_size {
            self.grain_size = Some(gs);
        }
        if let Some(ev) = exposure_comp {
            self.exposure_comp = Some(ev);
        }
    }
}

/// Appends the Debug name of a chrome level.
fn push_chrome_name(p: &mut Vec<char>, c: ChromeLevel)
    ensures
        final(p)@ == old(p)@ + chrome_name(c),
{
    match c {
        ChromeLevel::Off => push_str(p, "Off"),
        ChromeLevel::Weak => push_str(p, "Weak"),
        ChromeLevel::Strong => push_str(p, "Strong"),
    }
}


// ---------------------------------------------------------------------------
// D185 profile properties
// ---------------------------------------------------------------------------

/// Offset of the first property value in a D185 profile.
pub const PROPS_OFFSET: usize = 0x201;
/// Property index of the exposure bias.
pub const PROP_EXPOSURE_BIAS: usize = 4;
/// Property index of the dynamic range.
pub const PROP_DYNAMIC_RANGE: usize = 5;
/// Property index of the film simulation.
pub const PROP_FILM_SIM: usize = 7;
/// Property index of the combined grain ordinal.
pub const PROP_GRAIN: usize = 8;
/// Property index of "white balance follows the shooting condition".
pub const PROP_WB_SHOOT_COND: usize = 10;
/// Property index of the white balance mode.
pub const PROP_WB: usize = 11;
/// Property index of the red white-balance shift.
pub const PROP_WB_SHIFT_R: usize = 12;
/// Property index of the blue white-balance shift.
pub const PROP_WB_SHIFT_B: usize = 13;
/// Property index of the colour temperature.
pub const PROP_WB_TEMP: usize = 14;
/// Property index of the highlight tone.
pub const PROP_HIGHLIGHT: usize = 15;
/// Property index of the shadow tone.
pub const PROP_SHADOW: usize = 16;
/// Property index of the colour.
pub const PROP_COLOR: usize = 17;
/// Property index of the sharpness.
pub const PROP_SHARPNESS: usize = 18;
/// Property index of the noise reduction.
pub const PROP_NOISE_REDUCTION: usize = 19;
/// Property index of the colour chrome effect.
pub const PROP_CHROME_EFFECT: usize = 23;
/// Property index of the colour chrome FX blue.
pub const PROP_CHROME_BLUE: usize = 24;
/// Property index of the clarity.
pub const PROP_CLARITY: usize = 26;

/// Byte offset of property `index`.
pub open spec fn prop_offset(index: int) -> int {
    PROPS_OFFSET + 4 * index
}

/// The little-endian u32 stored in bytes `off..off + 4`.
pub open spec fn le_u32_at(p: Seq<u8>, off: int) -> int {
    p[off] + 0x100 * p[off + 1] + 0x1_0000 * p[off + 2] + 0x100_0000 * p[off + 3]
}

/// Value of property `index`, when the profile is long enough to hold it.
pub open spec fn prop_value(p: Seq<u8>, index: int) -> Option<u32> {
    if 0 <= index && prop_offset(index) + 4 <= p.len() {
        Some(le_u32_at(p, prop_offset(index)) as u32)
    } else {
        None
    }
}

/// Byte `k` (0 = least significant) of `v`.
pub open spec fn le_byte(v: u32, k: int) -> u8 {
    if k == 0 {
        (v % 0x100) as u8
    } else if k == 1 {
        ((v / 0x100) % 0x100) as u8
    } else if k == 2 {
        ((v / 0x1_0000) % 0x100) as u8
    } else {
        (v / 0x100_0000) as u8
    }
}

/// The profile with property `index` set to `v`; unchanged when it does not
/// hold that property.
pub open spec fn with_prop(p: Seq<u8>, index: int, v: u32) -> Seq<u8> {
    let off = prop_offset(index);
    if 0 <= index && off + 4 <= p.len() {
        Seq::new(
            p.len(),
            |i: int|
                if off <= i < off + 4 {
                    le_byte(v, i - off)
                } else {
                    p[i]
                },
        )
    } else {
        p
    }
}

/// The four little-endian bytes of a value read back as that value.
pub proof fn lemma_le_bytes(v: u32)
    ensures
        le_byte(v, 0) + 0x100 * le_byte(v, 1) + 0x1_0000 * le_byte(v, 2) + 0x100_0000 * le_byte(
            v,
            3,
        ) == v,
{
    let b0 = le_byte(v, 0);
    let b1 = le_byte(v, 1);
    let b2 = le_byte(v, 2);
    let b3 = le_byte(v, 3);
    assert(b0 == v % 0x100);
    assert(b1 == (v / 0x100) % 0x100);
    assert(b2 == (v / 0x1_0000) % 0x100);
    assert(b3 == v / 0x100_0000);
    assert(v % 0x100 + 0x100 * ((v / 0x100) % 0x100) + 0x1_0000 * ((v / 0x1_0000) % 0x100)
        + 0x100_0000 * (v / 0x100_0000) == v) by (bit_vector);
}

/// Reading a property back after setting it gives the value set; the other
/// properties, the other bytes and the length are unchanged.
pub proof fn lemma_with_prop(p: Seq<u8>, index: int, v: u32, other: int)
    requires
        0 <= index,
    ensures
        with_prop(p, index, v).len() == p.len(),
        prop_offset(index) + 4 <= p.len() ==> prop_value(with_prop(p, index, v), index) == Some(v),
        other != index ==> prop_value(with_prop(p, index, v), other) == prop_value(p, other),
        forall|i: int|
            0 <= i < p.len() && !(prop_offset(index) <= i < prop_offset(index) + 4) ==> #[trigger] with_prop(
                p,
                index,
                v,
            )[i] == p[i],
{
    let q = with_prop(p, index, v);
    if prop_offset(index) + 4 <= p.len() {
        let off = prop_offset(index);
        assert(q[off] == le_byte(v, 0));
        assert(q[off + 1] == le_byte(v, 1));
        assert(q[off + 2] == le_byte(v, 2));
        assert(q[off + 3] == le_byte(v, 3));
        lemma_le_bytes(v);
        if other != index && 0 <= other && prop_offset(other) + 4 <= p.len() {
            let o = prop_offset(other);
            assert(q[o] == p[o]);
            assert(q[o + 1] == p[o + 1]);
            assert(q[o + 2] == p[o + 2]);
            assert(q[o + 3] == p[o + 3]);
        }
    }
}

/// Reads property `index` (a little-endian u32 at `0x201 + 4 * index`), or
/// `None` when the profile is too short to hold it.
pub fn read_prop(profile: &[u8], index: usize) -> (r: Option<u32>)
    ensures
        r == prop_value(profile@, index as int),
{
    if profile.len() < PROPS_OFFSET + 4 || index > (profile.len() - PROPS_OFFSET - 4) / 4 {
        return None;
    }
    let offset = PROPS_OFFSET + index * 4;
    let b0 = profile[offset] as u32;
    let b1 = profile[offset + 1] as u32;
    let b2 = profile[offset + 2] as u32;
    let b3 = profile[offset + 3] as u32;
    Some(b0 + b1 * 0x100 + b2 * 0x1_0000 + b3 * 0x100_0000)
}

/// Writes property `index` as a little-endian u32; a profile too short to hold
/// it is left unchanged.
pub fn write_prop(profile: &mut Vec<u8>, index: usize, value: u32)
    ensures
        final(profile)@ == with_prop(old(profile)@, index as int, value),
{
    if profile.len() >= PROPS_OFFSET + 4 && index <= (profile.len() - PROPS_OFFSET - 4) / 4 {
        let offset = PROPS_OFFSET + index * 4;
        let ghost p0 = profile@;
        profile[offset] = (value % 0x100) as u8;
        profile[offset + 1] = ((value / 0x100) % 0x100) as u8;
        profile[offset + 2] = ((value / 0x1_0000) % 0x100) as u8;
        profile[offset + 3] = (value / 0x100_0000) as u8;
        assert(profile@ =~= with_prop(p0, index as int, value));
    }
}

/// Reading a property back after writing it gives the value written, and
/// writing leaves the length, every other property and every byte outside the
/// property's four unchanged.
pub proof fn law_read_after_write(p: Seq<u8>, index: int, v: u32, other: int)
    requires
        0 <= index,
        prop_offset(index) + 4 <= p.len(),
    ensures
        prop_value(with_prop(p, index, v), index) == Some(v),
        other != index ==> prop_value(with_prop(p, index, v), other) == prop_value(p, other),
        with_prop(p, index, v).len() == p.len(),
{
    lemma_with_prop(p, index, v, other);
}

// ---------------------------------------------------------------------------
// Applying settings to a profile
// ---------------------------------------------------------------------------

/// A profile and the change lines logged so far.
pub type ApplyState = (Seq<u8>, Seq<Seq<char>>);

/// Log line of one property change: `  {name} 0x{old:X} -> 0x{new:X}`.
pub open spec fn change_line(name: Seq<char>, old: u32, new: u32) -> Seq<char> {
    "  "@ + name + " 0x"@ + hex(old as nat) + " -> 0x"@ + hex(new as nat)
}

/// Sets one property and logs the change (the old value reads as 0 when the
/// profile does not hold the property).
pub open spec fn set_step(st: ApplyState, name: Seq<char>, index: int, v: u32) -> ApplyState {
    let old = match prop_value(st.0, index) {
        Some(x) => x,
        None => 0u32,
    };
    (with_prop(st.0, index, v), st.1.push(change_line(name, old, v)))
}

/// `set_step` when a value is given; nothing otherwise.
pub open spec fn opt_step(st: ApplyState, name: Seq<char>, index: int, o: Option<u32>) -> ApplyState {
    match o {
        Some(v) => set_step(st, name, index, v),
        None => st,
    }
}

/// Most negative exposure (millis) the camera honours at dynamic range `dr`.
pub open spec fn ev_floor(dr: u32) -> int {
    if dr >= 400 {
        -2000
    } else {
        -3000
    }
}

/// Exposure raised to the floor of the dynamic range.
pub open spec fn clamp_ev(ev: int, dr: u32) -> int {
    if ev < ev_floor(dr) {
        ev_floor(dr)
    } else {
        ev
    }
}

/// Log line of a clamped exposure.
pub open spec fn clamp_line(ev: int, dr: u32) -> Seq<char> {
    "  ExposureBias clamped "@ + ev_text(ev) + " -> "@ + ev_text(clamp_ev(ev, dr)) + " (DR"@ + dec(
        dr as nat,
    ) + " limits negative EV to "@ + ev_text(ev_floor(dr)) + ")"@
}

/// Dynamic range the profile holds (100 when it cannot be read).
pub open spec fn profile_dr(p: Seq<u8>) -> u32 {
    match prop_value(p, 5) {
        Some(x) => x,
        None => 100u32,
    }
}

/// Sets the exposure bias, clamped to the floor of the profile's dynamic range.
pub open spec fn ev_step(st: ApplyState, ev: i32) -> ApplyState {
    let dr = profile_dr(st.0);
    let c = clamp_ev(ev as int, dr);
    let st1 = if c != ev {
        (st.0, st.1.push(clamp_line(ev as int, dr)))
    } else {
        st
    };
    set_step(st1, "ExposureBias"@, 4, u32_bits(c))
}

/// Sets the white balance: with a known mode, "shooting condition" off and the
/// mode; with a temperature, the temperature.
pub open spec fn wb_steps(st: ApplyState, wb: Option<Seq<char>>, temp: Option<u32>) -> ApplyState {
    match wb {
        None => st,
        Some(w) => {
            let st1 = match white_balance_code(unicode_lowercase(trim(w))) {
                Some(code) => set_step(set_step(st, "WBShootCond"@, 10, 0), "WB"@, 11, code),
                None => st,
            };
            opt_step(st1, "WBTemp"@, 14, temp)
        },
    }
}

/// D185 code of an optional film simulation.
pub open spec fn film_code(o: Option<FilmSimulation>) -> Option<u32> {
    match o {
        Some(f) => Some(f.d185_code()),
        None => None,
    }
}

/// D185 grain ordinal of an optional grain level.
pub open spec fn grain_code(o: Option<GrainEffect>, size: Option<GrainSize>) -> Option<u32> {
    match o {
        Some(g) => Some(g.d185_code(size)),
        None => None,
    }
}

/// Tone code (tenths as two's complement) of an optional tone.
pub open spec fn tone_code(o: Option<i32>) -> Option<u32> {
    match o {
        Some(t) => Some(u32_bits(t as int)),
        None => None,
    }
}

/// Code of an optional value stored times ten.
pub open spec fn range_code(o: Option<i32>) -> Option<u32> {
    match o {
        Some(v) => Some(u32_bits(v * 10)),
        None => None,
    }
}

/// Noise-reduction code of an optional value.
pub open spec fn nr_code(o: Option<i32>) -> Option<u32> {
    match o {
        Some(v) => Some(noise_reduction_code(v as int)),
        None => None,
    }
}

/// Code of an optional chrome level.
pub open spec fn chrome_code(o: Option<ChromeLevel>) -> Option<u32> {
    match o {
        Some(c) => Some(c.d185_code()),
        None => None,
    }
}

/// Code of an optional white-balance shift.
pub open spec fn shift_code(o: Option<i32>) -> Option<u32> {
    match o {
        Some(v) => Some(u32_bits(v as int)),
        None => None,
    }
}

/// The first half of applying settings: dynamic range, exposure, film
/// simulation, grain, tones, colour, sharpness, noise reduction, clarity.
pub open spec fn apply_first(p: Seq<u8>, m: SettingsModel) -> ApplyState {
    let s1 = opt_step((p, seq![]), "DynamicRange"@, 5, m.dynamic_range);
    let s2 = match m.exposure_comp {
        Some(ev) => ev_step(s1, ev),
        None => s1,
    };
    let s3 = opt_step(s2, "FilmSim"@, 7, film_code(m.film_sim));
    let s4 = opt_step(s3, "Grain"@, 8, grain_code(m.grain, m.grain_size));
    let s5 = opt_step(s4, "Highlight"@, 15, tone_code(m.highlight));
    let s6 = opt_step(s5, "Shadow"@, 16, tone_code(m.shadow));
    let s7 = opt_step(s6, "Color"@, 17, range_code(m.color));
    let s8 = opt_step(s7, "Sharpness"@, 18, range_code(m.sharpness));
    let s9 = opt_step(s8, "NR"@, 19, nr_code(m.noise_reduction));
    opt_step(s9, "Clarity"@, 26, range_code(m.clarity))
}

/// The second half: chrome effects, white balance and its shifts.
pub open spec fn apply_second(st: ApplyState, m: SettingsModel) -> ApplyState {
    let s11 = opt_step(st, "ChromeEffect"@, 23, chrome_code(m.chrome_effect));
    let s12 = opt_step(s11, "ChromeFXBlue"@, 24, chrome_code(m.chrome_blue));
    let s13 = wb_steps(s12, m.white_balance, m.wb_temp);
    let s14 = opt_step(s13, "WB-R"@, 12, shift_code(m.wb_shift_r));
    opt_step(s14, "WB-B"@, 13, shift_code(m.wb_shift_b))
}

/// The profile after applying settings, and the change lines.
pub open spec fn apply_model(p: Seq<u8>, m: SettingsModel) -> ApplyState {
    apply_second(apply_first(p, m), m)
}

/// Whether the profile is too short to hold the first property.
pub open spec fn profile_too_short(p: Seq<u8>) -> bool {
    p.len() < PROPS_OFFSET + 4
}

/// The profile `apply_recipe` leaves.
pub open spec fn applied_profile(p: Seq<u8>, m: SettingsModel) -> Seq<u8> {
    if profile_too_short(p) {
        p
    } else {
        apply_model(p, m).0
    }
}

/// The log `apply_recipe` returns.
pub open spec fn apply_log(p: Seq<u8>, m: SettingsModel) -> Seq<char> {
    if profile_too_short(p) {
        "profile too short to modify"@
    } else if apply_model(p, m).1.len() == 0 {
        "no changes"@
    } else {
        join(apply_model(p, m).1, "\n"@)
    }
}

fn set_prop(profile: &mut Vec<u8>, changes: &mut Vec<Vec<char>>, name: &str, index: usize, value: u32)
    requires
        index <= 26,
    ensures
        (final(profile)@, views(final(changes)@)) == set_step(
            (old(profile)@, views(old(changes)@)),
            name@,
            index as int,
            value,
        ),
{
    let old = match read_prop(profile.as_slice(), index) {
        Some(x) => x,
        None => 0,
    };
    write_prop(profile, index, value);
    let mut line = chars_of("  ");
    push_str(&mut line, name);
    push_str(&mut line, " 0x");
    push_hex(&mut line, old as u64);
    push_str(&mut line, " -> 0x");
    push_hex(&mut line, value as u64);
    push_part(changes, line);
}

fn set_opt(profile: &mut Vec<u8>, changes: &mut Vec<Vec<char>>, name: &str, index: usize, o: Option<u32>)
    requires
        index <= 26,
    ensures
        (final(profile)@, views(final(changes)@)) == opt_step(
            (old(profile)@, views(old(changes)@)),
            name@,
            index as int,
            o,
        ),
{
    if let Some(v) = o {
        set_prop(profile, changes, name, index, v);
    }
}

fn set_exposure(profile: &mut Vec<u8>, changes: &mut Vec<Vec<char>>, ev: i32)
    requires
        ev != i32::MIN,
    ensures
        (final(profile)@, views(final(changes)@)) == ev_step(
            (old(profile)@, views(old(changes)@)),
            ev,
        ),
{
    let dr = match read_prop(profile.as_slice(), PROP_DYNAMIC_RANGE) {
        Some(x) => x,
        None => 100,
    };
    let min_ev: i32 = if dr >= 400 {
        -2000
    } else {
        -3000
    };
    let clamped = if ev < min_ev {
        min_ev
    } else {
        ev
    };
    if clamped != ev {
        let mut line = chars_of("  ExposureBias clamped ");
        push_str(&mut line, format_ev(ev).as_str());
        push_str(&mut line, " -> ");
        push_str(&mut line, format_ev(clamped).as_str());
        push_str(&mut line, " (DR");
        push_dec(&mut line, dr as u64);
        push_str(&mut line, " limits negative EV to ");
        push_str(&mut line, format_ev(min_ev).as_str());
        push_str(&mut line, ")");
        push_part(changes, line);
    }
    set_prop(profile, changes, "ExposureBias", PROP_EXPOSURE_BIAS, encode_exposure_comp(clamped));
}

fn set_white_balance(
    profile: &mut Vec<u8>,
    changes: &mut Vec<Vec<char>>,
    wb: &Option<String>,
    temp: Option<u32>,
)
    ensures
        (final(profile)@, views(final(changes)@)) == wb_steps(
            (old(profile)@, views(old(changes)@)),
            opt_chars(*wb),
            temp,
        ),
{
    if let Some(w) = wb {
        if let Some(code) = encode_white_balance(w.as_str(), temp) {
            set_prop(profile, changes, "WBShootCond", PROP_WB_SHOOT_COND, 0);
            set_prop(profile, changes, "WB", PROP_WB, code);
        }
        set_opt(profile, changes, "WBTemp", PROP_WB_TEMP, temp);
    }
}

fn apply_first_half(profile: &mut Vec<u8>, changes: &mut Vec<Vec<char>>, settings: &RecipeSettings)
    requires
        settings@.encodable(),
        views(old(changes)@) == Seq::<Seq<char>>::empty(),
    ensures
        (final(profile)@, views(final(changes)@)) == apply_first(old(profile)@, settings@),
{
    set_opt(profile, changes, "DynamicRange", PROP_DYNAMIC_RANGE, settings.dynamic_range);
    if let Some(ev) = settings.exposure_comp {
        set_exposure(profile, changes, ev);
    }
    let film = match settings.film_sim {
        Some(f) => Some(f.to_d185()),
        None => None,
    };
    set_opt(profile, changes, "FilmSim", PROP_FILM_SIM, film);
    let grain = match settings.grain {
        Some(g) => Some(g.to_d185(settings.grain_size)),
        None => None,
    };
    set_opt(profile, changes, "Grain", PROP_GRAIN, grain);
    let hl = match settings.highlight {
        Some(t) => Some(encode_tone(t)),
        None => None,
    };
    set_opt(profile, changes, "Highlight", PROP_HIGHLIGHT, hl);
    let sh = match settings.shadow {
        Some(t) => Some(encode_tone(t)),
        None => None,
    };
    set_opt(profile, changes, "Shadow", PROP_SHADOW, sh);
    let color = match settings.color {
        Some(v) => Some(encode_range(v)),
        None => None,
    };
    set_opt(profile, changes, "Color", PROP_COLOR, color);
    let sharp = match settings.sharpness {
        Some(v) => Some(encode_range(v)),
        None => None,
    };
    set_opt(profile, changes, "Sharpness", PROP_SHARPNESS, sharp);
    let nr = match settings.noise_reduction {
        Some(v) => Some(encode_noise_reduction(v)),
        None => None,
    };
    set_opt(profile, changes, "NR", PROP_NOISE_REDUCTION, nr);
    let clarity = match settings.clarity {
        Some(v) => Some(encode_clarity(v)),
        None => None,
    };
    set_opt(profile, changes, "Clarity", PROP_CLARITY, clarity);
}

fn apply_second_half(profile: &mut Vec<u8>, changes: &mut Vec<Vec<char>>, settings: &RecipeSettings)
    ensures
        (final(profile)@, views(final(changes)@)) == apply_second(
            (old(profile)@, views(old(changes)@)),
            settings@,
        ),
{
    let ce = match settings.chrome_effect {
        Some(c) => Some(c.to_d185()),
        None => None,
    };
    set_opt(profile, changes, "ChromeEffect", PROP_CHROME_EFFECT, ce);
    let cb = match settings.chrome_blue {
        Some(c) => Some(c.to_d185()),
        None => None,
    };
    set_opt(profile, changes, "ChromeFXBlue", PROP_CHROME_BLUE, cb);
    set_white_balance(profile, changes, &settings.white_balance, settings.wb_temp);
    let r = match settings.wb_shift_r {
        Some(v) => Some(encode_wb_shift(v)),
        None => None,
    };
    set_opt(profile, changes, "WB-R", PROP_WB_SHIFT_R, r);
    let b = match settings.wb_shift_b {
        Some(v) => Some(encode_wb_shift(v)),
        None => None,
    };
    set_opt(profile, changes, "WB-B", PROP_WB_SHIFT_B, b);
}

/// Applies recipe settings to a D185 profile in place and returns the log of
/// changes, one line per property (`  FilmSim 0x1 -> 0xB`), `no changes`, or
/// `profile too short to modify`. The exposure is raised to the floor the
/// dynamic range allows (-2 EV at DR400, -3 EV otherwise), with a log line.
pub fn apply_recipe(profile: &mut Vec<u8>, settings: &RecipeSettings) -> (r: String)
    requires
        old(profile)@.len() >= PROPS_OFFSET + 4 ==> settings@.encodable(),
    ensures
        final(profile)@ == applied_profile(old(profile)@, settings@),
        r@ == apply_log(old(profile)@, settings@),
{
    if profile.len() < PROPS_OFFSET + 4 {
        return string_of(&chars_of("profile too short to modify"));
    }
    let mut changes: Vec<Vec<char>> = Vec::new();
    assert(views(changes@) =~= Seq::<Seq<char>>::empty());
    apply_first_half(profile, &mut changes, settings);
    apply_second_half(profile, &mut changes, settings);
    if changes.len() == 0 {
        string_of(&chars_of("no changes"))
    } else {
        string_of(&join_chars(&changes, "\n"))
    }
}

// ---------------------------------------------------------------------------
// Reading the film simulation back
// ---------------------------------------------------------------------------

/// Film simulation name of a D185 code.
pub open spec fn film_name(v: u32) -> Seq<char> {
    if v == 0x01 {
        "Provia/Standard"@
    } else if v == 0x02 {
        "Velvia/Vivid"@
    } else if v == 0x03 {
        "Astia/Soft"@
    } else if v == 0x04 {
        "PRO Neg Hi"@
    } else if v == 0x05 {
        "PRO Neg Std"@
    } else if v == 0x06 {
        "Monochrome"@
    } else if v == 0x07 {
        "Monochrome+Ye"@
    } else if v == 0x08 {
        "Monochrome+R"@
    } else if v == 0x09 {
        "Monochrome+G"@
    } else if v == 0x0A {
        "Sepia"@
    } else if v == 0x0B {
        "Classic Chrome"@
    } else if v == 0x0C {
        "Acros"@
    } else if v == 0x0D {
        "Acros+Ye"@
    } else if v == 0x0E {
        "Acros+R"@
    } else if v == 0x0F {
        "Acros+G"@
    } else if v == 0x10 {
        "Eterna/Cinema"@
    } else if v == 0x11 {
        "Classic Neg"@
    } else if v == 0x12 {
        "Eterna Bleach Bypass"@
    } else if v == 0x13 {
        "Nostalgic Neg"@
    } else if v == 0x14 {
        "REALA ACE"@
    } else {
        "Unknown"@
    }
}

/// Display of the profile's film simulation: `{name} (0x{code:X})`, or
/// `unreadable` when the profile does not hold the property.
pub open spec fn film_sim_text(p: Seq<u8>) -> Seq<char> {
    match prop_value(p, 7) {
        Some(v) => film_name(v) + " (0x"@ + hex(v as nat) + ")"@,
        None => "unreadable"@,
    }
}

fn film_name_str(v: u32) -> (r: &'static str)
    ensures
        r@ == film_name(v),
{
    match v {
        0x01 => "Provia/Standard",
        0x02 => "Velvia/Vivid",
        0x03 => "Astia/Soft",
        0x04 => "PRO Neg Hi",
        0x05 => "PRO Neg Std",
        0x06 => "Monochrome",
        0x07 => "Monochrome+Ye",
        0x08 => "Monochrome+R",
        0x09 => "Monochrome+G",
        0x0A => "Sepia",
        0x0B => "Classic Chrome",
        0x0C => "Acros",
        0x0D => "Acros+Ye",
        0x0E => "Acros+R",
        0x0F => "Acros+G",
        0x10 => "Eterna/Cinema",
        0x11 => "Classic Neg",
        0x12 => "Eterna Bleach Bypass",
        0x13 => "Nostalgic Neg",
        0x14 => "REALA ACE",
        _ => "Unknown",
    }
}

/// The current film simulation of a profile, for display.
pub fn current_film_sim(profile: &[u8]) -> (r: String)
    ensures
        r@ == film_sim_text(profile@),
{
    match read_prop(profile, PROP_FILM_SIM) {
        Some(v) => {
            let mut line = chars_of(film_name_str(v));
            push_str(&mut line, " (0x");
            push_hex(&mut line, v as u64);
            push_str(&mut line, ")");
            string_of(&line)
        },
        None => string_of(&chars_of("unreadable")),
    }
}

/// The name `current_film_sim` shows for a film simulation's code is the
/// simulation's own label.
pub proof fn law_film_name_is_label(f: FilmSimulation)
    ensures
        film_name(f.d185_code()) == f.label_text(),
{
}


// ---------------------------------------------------------------------------
// What applying settings keeps and sets
// ---------------------------------------------------------------------------

/// A profile-changing step keeps the length and the bytes before the
/// properties.
pub open spec fn keeps_frame(p: Seq<u8>, q: Seq<u8>) -> bool {
    &&& q.len() == p.len()
    &&& forall|i: int| 0 <= i < PROPS_OFFSET && i < p.len() ==> #[trigger] q[i] == p[i]
}

proof fn lemma_set_step(st: ApplyState, name: Seq<char>, index: int, v: u32, other: int)
    requires
        0 <= index,
    ensures
        keeps_frame(st.0, set_step(st, name, index, v).0),
        other != index ==> prop_value(set_step(st, name, index, v).0, other) == prop_value(
            st.0,
            other,
        ),
        prop_offset(index) + 4 <= st.0.len() ==> prop_value(set_step(st, name, index, v).0, index)
            == Some(v),
{
    lemma_with_prop(st.0, index, v, other);
}

proof fn lemma_opt_step(st: ApplyState, name: Seq<char>, index: int, o: Option<u32>, other: int)
    requires
        0 <= index,
    ensures
        keeps_frame(st.0, opt_step(st, name, index, o).0),
        other != index ==> prop_value(opt_step(st, name, index, o).0, other) == prop_value(
            st.0,
            other,
        ),
        o matches Some(v) ==> (prop_offset(index) + 4 <= st.0.len() ==> prop_value(
            opt_step(st, name, index, o).0,
            index,
        ) == Some(v)),
{
    if let Some(v) = o {
        lemma_set_step(st, name, index, v, other);
    }
}

proof fn lemma_ev_step(st: ApplyState, ev: i32, other: int)
    ensures
        keeps_frame(st.0, ev_step(st, ev).0),
        other != 4 ==> prop_value(ev_step(st, ev).0, other) == prop_value(st.0, other),
{
    let dr = profile_dr(st.0);
    let c = clamp_ev(ev as int, dr);
    let st1 = if c != ev {
        (st.0, st.1.push(clamp_line(ev as int, dr)))
    } else {
        st
    };
    lemma_set_step(st1, "ExposureBias"@, 4, u32_bits(c), other);
}

proof fn lemma_wb_steps(st: ApplyState, wb: Option<Seq<char>>, temp: Option<u32>, other: int)
    ensures
        keeps_frame(st.0, wb_steps(st, wb, temp).0),
        other != 10 && other != 11 && other != 14 ==> prop_value(wb_steps(st, wb, temp).0, other)
            == prop_value(st.0, other),
{
    if let Some(w) = wb {
        let st1 = match white_balance_code(unicode_lowercase(trim(w))) {
            Some(code) => {
                let a = set_step(st, "WBShootCond"@, 10, 0);
                lemma_set_step(st, "WBShootCond"@, 10, 0, other);
                lemma_set_step(a, "WB"@, 11, code, other);
                set_step(a, "WB"@, 11, code)
            },
            None => st,
        };
        lemma_opt_step(st1, "WBTemp"@, 14, temp, other);
    }
}

/// Whether applying the settings writes property `i`.
pub open spec fn writes_prop(m: SettingsModel, i: int) -> bool {
    ||| i == 4 && m.exposure_comp is Some
    ||| i == 5 && m.dynamic_range is Some
    ||| i == 7 && m.film_sim is Some
    ||| i == 8 && m.grain is Some
    ||| (i == 10 || i == 11) && m.white_balance is Some
    ||| i == 12 && m.wb_shift_r is Some
    ||| i == 13 && m.wb_shift_b is Some
    ||| i == 14 && m.white_balance is Some && m.wb_temp is Some
    ||| i == 15 && m.highlight is Some
    ||| i == 16 && m.shadow is Some
    ||| i == 17 && m.color is Some
    ||| i == 18 && m.sharpness is Some
    ||| i == 19 && m.noise_reduction is Some
    ||| i == 23 && m.chrome_effect is Some
    ||| i == 24 && m.chrome_blue is Some
    ||| i == 26 && m.clarity is Some
}

proof fn lemma_apply_first(p: Seq<u8>, m: SettingsModel, other: int)
    ensures
        keeps_frame(p, apply_first(p, m).0),
        !writes_prop(m, other) ==> prop_value(apply_first(p, m).0, other) == prop_value(
            p,
            other,
        ),
        m.film_sim matches Some(f) ==> (prop_offset(7) + 4 <= p.len() ==> prop_value(
            apply_first(p, m).0,
            7,
        ) == Some(f.d185_code())),
{
    let s0: ApplyState = (p, seq![]);
    let s1 = opt_step(s0, "DynamicRange"@, 5, m.dynamic_range);
    lemma_opt_step(s0, "DynamicRange"@, 5, m.dynamic_range, other);
    lemma_opt_step(s0, "DynamicRange"@, 5, m.dynamic_range, 7);
    let s2 = match m.exposure_comp {
        Some(ev) => ev_step(s1, ev),
        None => s1,
    };
    if let Some(ev) = m.exposure_comp {
        lemma_ev_step(s1, ev, other);
        lemma_ev_step(s1, ev, 7);
    }
    let s3 = opt_step(s2, "FilmSim"@, 7, film_code(m.film_sim));
    lemma_opt_step(s2, "FilmSim"@, 7, film_code(m.film_sim), other);
    let s4 = opt_step(s3, "Grain"@, 8, grain_code(m.grain, m.grain_size));
    lemma_opt_step(s3, "Grain"@, 8, grain_code(m.grain, m.grain_size), other);
    lemma_opt_step(s3, "Grain"@, 8, grain_code(m.grain, m.grain_size), 7);
    let s5 = opt_step(s4, "Highlight"@, 15, tone_code(m.highlight));
    lemma_opt_step(s4, "Highlight"@, 15, tone_code(m.highlight), other);
    lemma_opt_step(s4, "Highlight"@, 15, tone_code(m.highlight), 7);
    let s6 = opt_step(s5, "Shadow"@, 16, tone_code(m.shadow));
    lemma_opt_step(s5, "Shadow"@, 16, tone_code(m.shadow), other);
    lemma_opt_step(s5, "Shadow"@, 16, tone_code(m.shadow), 7);
    let s7 = opt_step(s6, "Color"@, 17, range_code(m.color));
    lemma_opt_step(s6, "Color"@, 17, range_code(m.color), other);
    lemma_opt_step(s6, "Color"@, 17, range_code(m.color), 7);
    let s8 = opt_step(s7, "Sharpness"@, 18, range_code(m.sharpness));
    lemma_opt_step(s7, "Sharpness"@, 18, range_code(m.sharpness), other);
    lemma_opt_step(s7, "Sharpness"@, 18, range_code(m.sharpness), 7);
    let s9 = opt_step(s8, "NR"@, 19, nr_code(m.noise_reduction));
    lemma_opt_step(s8, "NR"@, 19, nr_code(m.noise_reduction), other);
    lemma_opt_step(s8, "NR"@, 19, nr_code(m.noise_reduction), 7);
    lemma_opt_step(s9, "Clarity"@, 26, range_code(m.clarity), other);
    lemma_opt_step(s9, "Clarity"@, 26, range_code(m.clarity), 7);
}

proof fn lemma_apply_second(st: ApplyState, m: SettingsModel, other: int)
    ensures
        keeps_frame(st.0, apply_second(st, m).0),
        (!writes_prop(m, other) || other == 7) ==> prop_value(apply_second(st, m).0, other)
            == prop_value(st.0, other),
{
    let s11 = opt_step(st, "ChromeEffect"@, 23, chrome_code(m.chrome_effect));
    lemma_opt_step(st, "ChromeEffect"@, 23, chrome_code(m.chrome_effect), other);
    let s12 = opt_step(s11, "ChromeFXBlue"@, 24, chrome_code(m.chrome_blue));
    lemma_opt_step(s11, "ChromeFXBlue"@, 24, chrome_code(m.chrome_blue), other);
    let s13 = wb_steps(s12, m.white_balance, m.wb_temp);
    lemma_wb_steps(s12, m.white_balance, m.wb_temp, other);
    let s14 = opt_step(s13, "WB-R"@, 12, shift_code(m.wb_shift_r));
    lemma_opt_step(s13, "WB-R"@, 12, shift_code(m.wb_shift_r), other);
    lemma_opt_step(s14, "WB-B"@, 13, shift_code(m.wb_shift_b), other);
}

/// After applying settings with a noise-reduction level from -4 to 4 to a
/// profile that holds the property, the property reads back as that level in
/// Fuji's table.
pub proof fn law_apply_sets_noise_reduction(p: Seq<u8>, m: SettingsModel, v: i32)
    requires
        m.noise_reduction == Some(v),
        -4 <= v <= 4,
        prop_offset(19) + 4 <= p.len(),
    ensures
        prop_value(applied_profile(p, m), 19) matches Some(c) && noise_reduction_level(c) == Some(
            v as int,
        ),
{
    lemma_apply_holds(p, m);
    law_noise_reduction_table(v as int, v as int);
}

/// After applying settings with a grain effect to a profile that holds the
/// property, the property reads back as that roughness, and, where grain is
/// on, as the given size (small where none is given).
pub proof fn law_apply_sets_grain(p: Seq<u8>, m: SettingsModel, g: GrainEffect)
    requires
        m.grain == Some(g),
        prop_offset(8) + 4 <= p.len(),
    ensures
        prop_value(applied_profile(p, m), 8) matches Some(c) && grain_roughness_of(c) == Some(g)
            && (g != GrainEffect::Off ==> grain_size_of(c) == Some(
            match m.grain_size {
                Some(z) => z,
                None => GrainSize::Small,
            },
        )),
{
    lemma_apply_holds(p, m);
    law_grain_code_keeps_setting(g, m.grain_size);
}

/// The white-balance slots after applying settings to a profile that holds
/// them: a white balance whose mode is known sets "shooting condition" (slot
/// 10) to 0 and the mode (slot 11) to its code, and an unknown mode leaves
/// both as they were; the temperature (slot 14) is written only when both a
/// white balance and a temperature are given.
pub proof fn law_apply_sets_white_balance(p: Seq<u8>, m: SettingsModel)
    requires
        prop_offset(14) + 4 <= p.len(),
    ensures
        ({
            let q = applied_profile(p, m);
            &&& (m.white_balance matches Some(w) ==> match white_balance_code(
                unicode_lowercase(trim(w)),
            ) {
                Some(c) => prop_value(q, 10) == Some(0u32) && prop_value(q, 11) == Some(c),
                None => prop_value(q, 10) == prop_value(p, 10) && prop_value(q, 11) == prop_value(
                    p,
                    11,
                ),
            })
            &&& (m.white_balance is None ==> prop_value(q, 10) == prop_value(p, 10) && prop_value(
                q,
                11,
            ) == prop_value(p, 11))
            &&& prop_value(q, 14) == (if m.white_balance is Some && m.wb_temp is Some {
                m.wb_temp
            } else {
                prop_value(p, 14)
            })
        }),
{
    let m0 = SettingsModel { white_balance: None, wb_temp: None, wb_shift_r: None, wb_shift_b: None, ..m };
    assert(apply_first(p, m) == apply_first(p, m0));
    let st = apply_first(p, m);
    lemma_apply_first(p, m0, 10);
    lemma_apply_first(p, m0, 11);
    lemma_apply_first(p, m0, 14);
    let s11 = opt_step(st, "ChromeEffect"@, 23, chrome_code(m.chrome_effect));
    let s12 = opt_step(s11, "ChromeFXBlue"@, 24, chrome_code(m.chrome_blue));
    let s13 = wb_steps(s12, m.white_balance, m.wb_temp);
    let s14 = opt_step(s13, "WB-R"@, 12, shift_code(m.wb_shift_r));
    let s15 = opt_step(s14, "WB-B"@, 13, shift_code(m.wb_shift_b));
    assert(apply_model(p, m) == s15);
    lemma_opt_step(st, "ChromeEffect"@, 23, chrome_code(m.chrome_effect), 10);
    lemma_opt_step(st, "ChromeEffect"@, 23, chrome_code(m.chrome_effect), 11);
    lemma_opt_step(st, "ChromeEffect"@, 23, chrome_code(m.chrome_effect), 14);
    lemma_opt_step(s11, "ChromeFXBlue"@, 24, chrome_code(m.chrome_blue), 10);
    lemma_opt_step(s11, "ChromeFXBlue"@, 24, chrome_code(m.chrome_blue), 11);
    lemma_opt_step(s11, "ChromeFXBlue"@, 24, chrome_code(m.chrome_blue), 14);
    lemma_opt_step(s13, "WB-R"@, 12, shift_code(m.wb_shift_r), 10);
    lemma_opt_step(s13, "WB-R"@, 12, shift_code(m.wb_shift_r), 11);
    lemma_opt_step(s13, "WB-R"@, 12, shift_code(m.wb_shift_r), 14);
    lemma_opt_step(s14, "WB-B"@, 13, shift_code(m.wb_shift_b), 10);
    lemma_opt_step(s14, "WB-B"@, 13, shift_code(m.wb_shift_b), 11);
    lemma_opt_step(s14, "WB-B"@, 13, shift_code(m.wb_shift_b), 14);
    assert(s12.0.len() == p.len());
    if let Some(w) = m.white_balance {
        match white_balance_code(unicode_lowercase(trim(w))) {
            Some(c) => {
                let a = set_step(s12, "WBShootCond"@, 10, 0);
                let b = set_step(a, "WB"@, 11, c);
                lemma_set_step(s12, "WBShootCond"@, 10, 0, 11);
                lemma_set_step(s12, "WBShootCond"@, 10, 0, 14);
                lemma_set_step(a, "WB"@, 11, c, 10);
                lemma_set_step(a, "WB"@, 11, c, 14);
                lemma_opt_step(b, "WBTemp"@, 14, m.wb_temp, 10);
                lemma_opt_step(b, "WBTemp"@, 14, m.wb_temp, 11);
                lemma_opt_step(b, "WBTemp"@, 14, m.wb_temp, 14);
            },
            None => {
                lemma_opt_step(s12, "WBTemp"@, 14, m.wb_temp, 10);
                lemma_opt_step(s12, "WBTemp"@, 14, m.wb_temp, 11);
                lemma_opt_step(s12, "WBTemp"@, 14, m.wb_temp, 14);
            },
        }
    }
}

proof fn lemma_opt_keeps(st: ApplyState, name: Seq<char>, index: int, o: Option<u32>)
    requires
        0 <= index,
    ensures
        opt_step(st, name, index, o).0.len() == st.0.len(),
        forall|other: int| other != index ==> #[trigger] prop_value(opt_step(st, name, index, o).0, other)
            == prop_value(st.0, other),
        o matches Some(v) ==> (prop_value(opt_step(st, name, index, o).0, index) == Some(v)
            || prop_value(opt_step(st, name, index, o).0, index) is None),
{
    assert forall|other: int| other != index implies #[trigger] prop_value(opt_step(st, name, index, o).0, other)
        == prop_value(st.0, other) by {
        lemma_opt_step(st, name, index, o, other);
    }
    lemma_opt_step(st, name, index, o, index);
}

/// A profile that already holds a value keeps its bytes when the value is
/// written again.
proof fn lemma_with_prop_same(p: Seq<u8>, index: int, v: u32)
    requires
        0 <= index,
        prop_value(p, index) == Some(v) || prop_value(p, index) is None,
    ensures
        with_prop(p, index, v) == p,
{
    let off = prop_offset(index);
    if off + 4 <= p.len() {
        let b0 = p[off];
        let b1 = p[off + 1];
        let b2 = p[off + 2];
        let b3 = p[off + 3];
        assert(v == (b0 + 0x100 * b1 + 0x1_0000 * b2 + 0x100_0000 * b3) as u32);
        assert(((b0 as u32) + 0x100 * (b1 as u32) + 0x1_0000 * (b2 as u32) + 0x100_0000 * (b3 as u32))
            as u32 == (b0 + 0x100 * b1 + 0x1_0000 * b2 + 0x100_0000 * b3) as u32);
        let w = v;
        assert(w % 0x100 == b0 && (w / 0x100) % 0x100 == b1 && (w / 0x1_0000) % 0x100 == b2 && w
            / 0x100_0000 == b3) by (bit_vector)
            requires
                w == ((b0 as u32) + 0x100 * (b1 as u32) + 0x1_0000 * (b2 as u32) + 0x100_0000 * (
                b3 as u32)) as u32,
        ;
        assert(with_prop(p, index, v) =~= p);
    }
}

proof fn lemma_opt_fixed(st: ApplyState, name: Seq<char>, index: int, o: Option<u32>)
    requires
        0 <= index,
        o matches Some(v) ==> (prop_value(st.0, index) == Some(v) || prop_value(st.0, index) is None),
    ensures
        opt_step(st, name, index, o).0 == st.0,
{
    if let Some(v) = o {
        lemma_with_prop_same(st.0, index, v);
    }
}

/// Property `index` holds the value to be written, if any (or the profile
/// does not hold the property).
pub open spec fn holds(q: Seq<u8>, index: int, o: Option<u32>) -> bool {
    o matches Some(v) ==> (prop_value(q, index) == Some(v) || prop_value(q, index) is None)
}

/// The dynamic range the exposure step of an application reads.
pub open spec fn applied_dr(p: Seq<u8>, m: SettingsModel) -> u32 {
    profile_dr(opt_step((p, seq![]), "DynamicRange"@, 5, m.dynamic_range).0)
}

/// The exposure code an application writes.
pub open spec fn ev_code(dr: u32, m: SettingsModel) -> Option<u32> {
    match m.exposure_comp {
        Some(ev) => Some(u32_bits(clamp_ev(ev as int, dr))),
        None => None,
    }
}

/// The white-balance mode code an application writes.
pub open spec fn wb_code(m: SettingsModel) -> Option<u32> {
    match m.white_balance {
        Some(w) => white_balance_code(unicode_lowercase(trim(w))),
        None => None,
    }
}

/// The white-balance slots, written as single steps.
pub open spec fn wb_as_steps(st: ApplyState, m: SettingsModel) -> ApplyState {
    let wa = opt_step(st, "WBShootCond"@, 10, if wb_code(m) is Some { Some(0u32) } else { None });
    let wb = opt_step(wa, "WB"@, 11, wb_code(m));
    opt_step(wb, "WBTemp"@, 14, if m.white_balance is Some { m.wb_temp } else { None })
}

proof fn lemma_wb_as_steps(st: ApplyState, m: SettingsModel)
    ensures
        wb_as_steps(st, m).0 == wb_steps(st, m.white_balance, m.wb_temp).0,
{
}

/// The exposure step as a single write.
proof fn lemma_ev_as_step(st: ApplyState, ev: i32)
    ensures
        ev_step(st, ev).0 == opt_step(st, "ExposureBias"@, 4, Some(u32_bits(clamp_ev(ev as int, profile_dr(st.0))))).0,
{
}

/// What the first half of an application leaves: each of its values in place.
#[verifier::rlimit(40)]
proof fn lemma_first_half_holds(p: Seq<u8>, m: SettingsModel)
    ensures
        ({
            let q = apply_first(p, m).0;
            let dr = applied_dr(p, m);
            &&& q.len() == p.len()
            &&& profile_dr(q) == dr
            &&& holds(q, 5, m.dynamic_range)
            &&& holds(q, 4, ev_code(dr, m))
            &&& holds(q, 7, film_code(m.film_sim))
            &&& holds(q, 8, grain_code(m.grain, m.grain_size))
            &&& holds(q, 15, tone_code(m.highlight))
            &&& holds(q, 16, tone_code(m.shadow))
            &&& holds(q, 17, range_code(m.color))
            &&& holds(q, 18, range_code(m.sharpness))
            &&& holds(q, 19, nr_code(m.noise_reduction))
            &&& holds(q, 26, range_code(m.clarity))
        }),
{
    let s0: ApplyState = (p, seq![]);
    let s1 = opt_step(s0, "DynamicRange"@, 5, m.dynamic_range);
    lemma_opt_keeps(s0, "DynamicRange"@, 5, m.dynamic_range);
    let dr = profile_dr(s1.0);
    let s2 = match m.exposure_comp {
        Some(ev) => ev_step(s1, ev),
        None => s1,
    };
    let e2 = opt_step(s1, "ExposureBias"@, 4, ev_code(dr, m));
    if let Some(ev) = m.exposure_comp {
        lemma_ev_as_step(s1, ev);
    }
    assert(s2.0 == e2.0);
    lemma_opt_keeps(s1, "ExposureBias"@, 4, ev_code(dr, m));
    let s3 = opt_step(s2, "FilmSim"@, 7, film_code(m.film_sim));
    lemma_opt_keeps(s2, "FilmSim"@, 7, film_code(m.film_sim));
    let s4 = opt_step(s3, "Grain"@, 8, grain_code(m.grain, m.grain_size));
    lemma_opt_keeps(s3, "Grain"@, 8, grain_code(m.grain, m.grain_size));
    let s5 = opt_step(s4, "Highlight"@, 15, tone_code(m.highlight));
    lemma_opt_keeps(s4, "Highlight"@, 15, tone_code(m.highlight));
    let s6 = opt_step(s5, "Shadow"@, 16, tone_code(m.shadow));
    lemma_opt_keeps(s5, "Shadow"@, 16, tone_code(m.shadow));
    let s7 = opt_step(s6, "Color"@, 17, range_code(m.color));
    lemma_opt_keeps(s6, "Color"@, 17, range_code(m.color));
    let s8 = opt_step(s7, "Sharpness"@, 18, range_code(m.sharpness));
    lemma_opt_keeps(s7, "Sharpness"@, 18, range_code(m.sharpness));
    let s9 = opt_step(s8, "NR"@, 19, nr_code(m.noise_reduction));
    lemma_opt_keeps(s8, "NR"@, 19, nr_code(m.noise_reduction));
    let s10 = opt_step(s9, "Clarity"@, 26, range_code(m.clarity));
    lemma_opt_keeps(s9, "Clarity"@, 26, range_code(m.clarity));
    assert(apply_first(p, m) == s10);
}

/// What a whole application leaves: each of its values in place.
#[verifier::rlimit(40)]
proof fn lemma_apply_holds(p: Seq<u8>, m: SettingsModel)
    ensures
        ({
            let q = apply_model(p, m).0;
            let dr = applied_dr(p, m);
            &&& q.len() == p.len()
            &&& profile_dr(q) == dr
            &&& holds(q, 5, m.dynamic_range)
            &&& holds(q, 4, ev_code(dr, m))
            &&& holds(q, 7, film_code(m.film_sim))
            &&& holds(q, 8, grain_code(m.grain, m.grain_size))
            &&& holds(q, 15, tone_code(m.highlight))
            &&& holds(q, 16, tone_code(m.shadow))
            &&& holds(q, 17, range_code(m.color))
            &&& holds(q, 18, range_code(m.sharpness))
            &&& holds(q, 19, nr_code(m.noise_reduction))
            &&& holds(q, 26, range_code(m.clarity))
            &&& holds(q, 23, chrome_code(m.chrome_effect))
            &&& holds(q, 24, chrome_code(m.chrome_blue))
            &&& holds(q, 10, if wb_code(m) is Some { Some(0u32) } else { None })
            &&& holds(q, 11, wb_code(m))
            &&& holds(q, 14, if m.white_balance is Some { m.wb_temp } else { None })
            &&& holds(q, 12, shift_code(m.wb_shift_r))
            &&& holds(q, 13, shift_code(m.wb_shift_b))
        }),
{
    lemma_first_half_holds(p, m);
    let s10 = apply_first(p, m);
    let s11 = opt_step(s10, "ChromeEffect"@, 23, chrome_code(m.chrome_effect));
    lemma_opt_keeps(s10, "ChromeEffect"@, 23, chrome_code(m.chrome_effect));
    let s12 = opt_step(s11, "ChromeFXBlue"@, 24, chrome_code(m.chrome_blue));
    lemma_opt_keeps(s11, "ChromeFXBlue"@, 24, chrome_code(m.chrome_blue));
    let wa = opt_step(s12, "WBShootCond"@, 10, if wb_code(m) is Some { Some(0u32) } else { None });
    lemma_opt_keeps(s12, "WBShootCond"@, 10, if wb_code(m) is Some { Some(0u32) } else { None });
    let wb = opt_step(wa, "WB"@, 11, wb_code(m));
    lemma_opt_keeps(wa, "WB"@, 11, wb_code(m));
    let s13 = opt_step(wb, "WBTemp"@, 14, if m.white_balance is Some { m.wb_temp } else { None });
    lemma_opt_keeps(wb, "WBTemp"@, 14, if m.white_balance is Some { m.wb_temp } else { None });
    lemma_wb_as_steps(s12, m);
    let t14 = opt_step(s13, "WB-R"@, 12, shift_code(m.wb_shift_r));
    lemma_opt_keeps(s13, "WB-R"@, 12, shift_code(m.wb_shift_r));
    let t15 = opt_step(t14, "WB-B"@, 13, shift_code(m.wb_shift_b));
    lemma_opt_keeps(t14, "WB-B"@, 13, shift_code(m.wb_shift_b));
    let u13 = wb_steps(s12, m.white_balance, m.wb_temp);
    assert(opt_step(u13, "WB-R"@, 12, shift_code(m.wb_shift_r)).0 == t14.0);
    assert(opt_step(opt_step(u13, "WB-R"@, 12, shift_code(m.wb_shift_r)), "WB-B"@, 13, shift_code(
        m.wb_shift_b,
    )).0 == t15.0);
    assert(apply_model(p, m).0 == t15.0);
}

/// A profile that holds every value of an application is left as it is.
#[verifier::rlimit(40)]
proof fn lemma_apply_fixed(q: Seq<u8>, m: SettingsModel, dr: u32)
    requires
        profile_dr(q) == dr,
        holds(q, 5, m.dynamic_range),
        holds(q, 4, ev_code(dr, m)),
        holds(q, 7, film_code(m.film_sim)),
        holds(q, 8, grain_code(m.grain, m.grain_size)),
        holds(q, 15, tone_code(m.highlight)),
        holds(q, 16, tone_code(m.shadow)),
        holds(q, 17, range_code(m.color)),
        holds(q, 18, range_code(m.sharpness)),
        holds(q, 19, nr_code(m.noise_reduction)),
        holds(q, 26, range_code(m.clarity)),
        holds(q, 23, chrome_code(m.chrome_effect)),
        holds(q, 24, chrome_code(m.chrome_blue)),
        holds(q, 10, if wb_code(m) is Some { Some(0u32) } else { None }),
        holds(q, 11, wb_code(m)),
        holds(q, 14, if m.white_balance is Some { m.wb_temp } else { None }),
        holds(q, 12, shift_code(m.wb_shift_r)),
        holds(q, 13, shift_code(m.wb_shift_b)),
    ensures
        apply_model(q, m).0 == q,
{
    let r0: ApplyState = (q, seq![]);
    lemma_opt_fixed(r0, "DynamicRange"@, 5, m.dynamic_range);
    let r1 = opt_step(r0, "DynamicRange"@, 5, m.dynamic_range);
    let r2 = match m.exposure_comp {
        Some(ev) => ev_step(r1, ev),
        None => r1,
    };
    lemma_opt_fixed(r1, "ExposureBias"@, 4, ev_code(dr, m));
    if let Some(ev) = m.exposure_comp {
        lemma_ev_as_step(r1, ev);
    }
    assert(r2.0 == q);
    lemma_opt_fixed(r2, "FilmSim"@, 7, film_code(m.film_sim));
    let r3 = opt_step(r2, "FilmSim"@, 7, film_code(m.film_sim));
    lemma_opt_fixed(r3, "Grain"@, 8, grain_code(m.grain, m.grain_size));
    let r4 = opt_step(r3, "Grain"@, 8, grain_code(m.grain, m.grain_size));
    lemma_opt_fixed(r4, "Highlight"@, 15, tone_code(m.highlight));
    let r5 = opt_step(r4, "Highlight"@, 15, tone_code(m.highlight));
    lemma_opt_fixed(r5, "Shadow"@, 16, tone_code(m.shadow));
    let r6 = opt_step(r5, "Shadow"@, 16, tone_code(m.shadow));
    lemma_opt_fixed(r6, "Color"@, 17, range_code(m.color));
    let r7 = opt_step(r6, "Color"@, 17, range_code(m.color));
    lemma_opt_fixed(r7, "Sharpness"@, 18, range_code(m.sharpness));
    let r8 = opt_step(r7, "Sharpness"@, 18, range_code(m.sharpness));
    lemma_opt_fixed(r8, "NR"@, 19, nr_code(m.noise_reduction));
    let r9 = opt_step(r8, "NR"@, 19, nr_code(m.noise_reduction));
    lemma_opt_fixed(r9, "Clarity"@, 26, range_code(m.clarity));
    let r10 = opt_step(r9, "Clarity"@, 26, range_code(m.clarity));
    assert(apply_first(q, m).0 == q);
    let a = apply_first(q, m);
    lemma_opt_fixed(a, "ChromeEffect"@, 23, chrome_code(m.chrome_effect));
    let r11 = opt_step(a, "ChromeEffect"@, 23, chrome_code(m.chrome_effect));
    lemma_opt_fixed(r11, "ChromeFXBlue"@, 24, chrome_code(m.chrome_blue));
    let r12 = opt_step(r11, "ChromeFXBlue"@, 24, chrome_code(m.chrome_blue));
    lemma_opt_fixed(r12, "WBShootCond"@, 10, if wb_code(m) is Some { Some(0u32) } else { None });
    let ra = opt_step(r12, "WBShootCond"@, 10, if wb_code(m) is Some { Some(0u32) } else { None });
    lemma_opt_fixed(ra, "WB"@, 11, wb_code(m));
    let rb = opt_step(ra, "WB"@, 11, wb_code(m));
    lemma_opt_fixed(rb, "WBTemp"@, 14, if m.white_balance is Some { m.wb_temp } else { None });
    lemma_wb_as_steps(r12, m);
    let u13 = wb_steps(r12, m.white_balance, m.wb_temp);
    assert(u13.0 == q);
    lemma_opt_fixed(u13, "WB-R"@, 12, shift_code(m.wb_shift_r));
    let r14 = opt_step(u13, "WB-R"@, 12, shift_code(m.wb_shift_r));
    lemma_opt_fixed(r14, "WB-B"@, 13, shift_code(m.wb_shift_b));
}

/// Whether byte `i` lies in the four bytes of property `index`.
pub open spec fn in_slot(i: int, index: int) -> bool {
    prop_offset(index) <= i < prop_offset(index) + 4
}

proof fn lemma_opt_keeps_byte(st: ApplyState, name: Seq<char>, index: int, o: Option<u32>, i: int)
    requires
        0 <= index,
        0 <= i < st.0.len(),
        o is Some ==> !in_slot(i, index),
    ensures
        opt_step(st, name, index, o).0.len() == st.0.len(),
        opt_step(st, name, index, o).0[i] == st.0[i],
{
    if let Some(v) = o {
        lemma_with_prop(st.0, index, v, index);
    }
}

/// Applying settings changes no byte outside the properties it writes: the
/// header, the properties no setting names, and any bytes after the last
/// whole property stay as they were.
#[verifier::rlimit(40)]
pub proof fn law_apply_frame(p: Seq<u8>, m: SettingsModel, i: int)
    requires
        0 <= i < p.len(),
        i < PROPS_OFFSET || !writes_prop(m, (i - PROPS_OFFSET) / 4),
    ensures
        applied_profile(p, m).len() == p.len(),
        applied_profile(p, m)[i] == p[i],
{
    if profile_too_short(p) {
        return;
    }
    assert(forall|k: int| 0 <= k && in_slot(i, k) ==> writes_prop(m, k) == writes_prop(m, (i - PROPS_OFFSET) / 4));
    let s0: ApplyState = (p, seq![]);
    lemma_opt_keeps_byte(s0, "DynamicRange"@, 5, m.dynamic_range, i);
    let s1 = opt_step(s0, "DynamicRange"@, 5, m.dynamic_range);
    let dr = profile_dr(s1.0);
    let s2 = match m.exposure_comp {
        Some(ev) => ev_step(s1, ev),
        None => s1,
    };
    lemma_opt_keeps_byte(s1, "ExposureBias"@, 4, ev_code(dr, m), i);
    if let Some(ev) = m.exposure_comp {
        lemma_ev_as_step(s1, ev);
    }
    assert(s2.0[i] == p[i] && s2.0.len() == p.len());
    lemma_opt_keeps_byte(s2, "FilmSim"@, 7, film_code(m.film_sim), i);
    let s3 = opt_step(s2, "FilmSim"@, 7, film_code(m.film_sim));
    lemma_opt_keeps_byte(s3, "Grain"@, 8, grain_code(m.grain, m.grain_size), i);
    let s4 = opt_step(s3, "Grain"@, 8, grain_code(m.grain, m.grain_size));
    lemma_opt_keeps_byte(s4, "Highlight"@, 15, tone_code(m.highlight), i);
    let s5 = opt_step(s4, "Highlight"@, 15, tone_code(m.highlight));
    lemma_opt_keeps_byte(s5, "Shadow"@, 16, tone_code(m.shadow), i);
    let s6 = opt_step(s5, "Shadow"@, 16, tone_code(m.shadow));
    lemma_opt_keeps_byte(s6, "Color"@, 17, range_code(m.color), i);
    let s7 = opt_step(s6, "Color"@, 17, range_code(m.color));
    lemma_opt_keeps_byte(s7, "Sharpness"@, 18, range_code(m.sharpness), i);
    let s8 = opt_step(s7, "Sharpness"@, 18, range_code(m.sharpness));
    lemma_opt_keeps_byte(s8, "NR"@, 19, nr_code(m.noise_reduction), i);
    let s9 = opt_step(s8, "NR"@, 19, nr_code(m.noise_reduction));
    lemma_opt_keeps_byte(s9, "Clarity"@, 26, range_code(m.clarity), i);
    let s10 = opt_step(s9, "Clarity"@, 26, range_code(m.clarity));
    assert(apply_first(p, m) == s10);
    lemma_opt_keeps_byte(s10, "ChromeEffect"@, 23, chrome_code(m.chrome_effect), i);
    let s11 = opt_step(s10, "ChromeEffect"@, 23, chrome_code(m.chrome_effect));
    lemma_opt_keeps_byte(s11, "ChromeFXBlue"@, 24, chrome_code(m.chrome_blue), i);
    let s12 = opt_step(s11, "ChromeFXBlue"@, 24, chrome_code(m.chrome_blue));
    lemma_opt_keeps_byte(s12, "WBShootCond"@, 10, if wb_code(m) is Some { Some(0u32) } else { None }, i);
    let wa = opt_step(s12, "WBShootCond"@, 10, if wb_code(m) is Some { Some(0u32) } else { None });
    lemma_opt_keeps_byte(wa, "WB"@, 11, wb_code(m), i);
    let wb = opt_step(wa, "WB"@, 11, wb_code(m));
    lemma_opt_keeps_byte(wb, "WBTemp"@, 14, if m.white_balance is Some { m.wb_temp } else { None }, i);
    let s13 = opt_step(wb, "WBTemp"@, 14, if m.white_balance is Some { m.wb_temp } else { None });
    lemma_wb_as_steps(s12, m);
    let u13 = wb_steps(s12, m.white_balance, m.wb_temp);
    lemma_opt_keeps_byte(u13, "WB-R"@, 12, shift_code(m.wb_shift_r), i);
    let s14 = opt_step(u13, "WB-R"@, 12, shift_code(m.wb_shift_r));
    lemma_opt_keeps_byte(s14, "WB-B"@, 13, shift_code(m.wb_shift_b), i);
}

/// Applying the same settings twice leaves the profile as one application
/// does.
pub proof fn law_apply_idempotent(p: Seq<u8>, m: SettingsModel)
    ensures
        applied_profile(applied_profile(p, m), m) == applied_profile(p, m),
{
    if !profile_too_short(p) {
        lemma_apply_holds(p, m);
        let q = apply_model(p, m).0;
        lemma_apply_fixed(q, m, applied_dr(p, m));
    }
}

/// Applying settings never changes the profile's length nor its header (the
/// bytes before the first property), and leaves every property that no
/// setting names as it was.
pub proof fn law_apply_keeps_rest(p: Seq<u8>, m: SettingsModel, other: int)
    ensures
        keeps_frame(p, applied_profile(p, m)),
        !writes_prop(m, other) ==> prop_value(applied_profile(p, m), other)
            == prop_value(p, other),
{
    if !profile_too_short(p) {
        lemma_apply_first(p, m, other);
        lemma_apply_second(apply_first(p, m), m, other);
    }
}

/// After applying settings with a film simulation to a profile that holds the
/// property, the profile carries the simulation's code, and
/// `current_film_sim` names the simulation by its label.
pub proof fn law_apply_sets_film_sim(p: Seq<u8>, m: SettingsModel, f: FilmSimulation)
    requires
        m.film_sim == Some(f),
        prop_offset(7) + 4 <= p.len(),
    ensures
        prop_value(applied_profile(p, m), 7) == Some(f.d185_code()),
        film_sim_text(applied_profile(p, m)) == f.label_text() + " (0x"@ + hex(
            f.d185_code() as nat,
        ) + ")"@,
{
    lemma_apply_first(p, m, 7);
    lemma_apply_second(apply_first(p, m), m, 7);
}

/// Settings that name nothing leave the profile as it was and report
/// `no changes` (or that the profile is too short).
pub proof fn law_apply_without_settings(p: Seq<u8>, m: SettingsModel)
    requires
        m.no_settings(),
    ensures
        applied_profile(p, m) == p,
        !profile_too_short(p) ==> apply_log(p, m) == "no changes"@,
{
}

/// Settings that name nothing are summarised as `camera defaults`.
pub proof fn law_summary_of_no_settings(m: SettingsModel)
    requires
        m.no_settings(),
    ensures
        summary_text(m) == "camera defaults"@,
{
    assert(summary_parts(m) =~= Seq::<Seq<char>>::empty());
}

/// Command-line flags take priority over the recipe: each flag given replaces
/// the recipe's value, each one left out keeps it, and no other setting changes.
pub proof fn law_cli_flags_take_priority(
    m: SettingsModel,
    film_sim: Option<FilmSimulation>,
    grain: Option<GrainEffect>,
    grain_size: Option<GrainSize>,
    exposure_comp: Option<i32>,
)
    ensures
        ({
            let r = m.merged(film_sim, grain, grain_size, exposure_comp);
            &&& (film_sim matches Some(f) ==> r.film_sim == Some(f))
            &&& (film_sim is None ==> r.film_sim == m.film_sim)
            &&& (grain matches Some(g) ==> r.grain == Some(g))
            &&& (grain is None ==> r.grain == m.grain)
            &&& (grain_size matches Some(s) ==> r.grain_size == Some(s))
            &&& (grain_size is None ==> r.grain_size == m.grain_size)
            &&& (exposure_comp matches Some(e) ==> r.exposure_comp == Some(e))
            &&& (exposure_comp is None ==> r.exposure_comp == m.exposure_comp)
            &&& r == (SettingsModel {
                film_sim: r.film_sim,
                grain: r.grain,
                grain_size: r.grain_size,
                exposure_comp: r.exposure_comp,
                ..m
            })
        }),
{
}


// ---------------------------------------------------------------------------
// Diagnostic dump
// ---------------------------------------------------------------------------

/// Name of property slot `i` in the dump.
pub open spec fn prop_label(i: int) -> Seq<char> {
    if i == 0 {
        "ShootingCondition"@
    } else if i == 1 {
        "FileType"@
    } else if i == 2 {
        "ImageSize"@
    } else if i == 3 {
        "ImageQuality"@
    } else if i == 4 {
        "ExposureBias"@
    } else if i == 5 {
        "DynamicRange"@
    } else if i == 6 {
        "WideDRange"@
    } else if i == 7 {
        "FilmSimulation"@
    } else if i == 8 {
        "GrainEffect"@
    } else if i == 9 {
        "SmoothSkinEffect"@
    } else if i == 10 {
        "WBShootCond"@
    } else if i == 11 {
        "WhiteBalance"@
    } else if i == 12 {
        "WBShiftR"@
    } else if i == 13 {
        "WBShiftB"@
    } else if i == 14 {
        "WBColorTemp"@
    } else if i == 15 {
        "HighlightTone"@
    } else if i == 16 {
        "ShadowTone"@
    } else if i == 17 {
        "Color"@
    } else if i == 18 {
        "Sharpness"@
    } else if i == 19 {
        "NoiseReduction"@
    } else if i == 20 {
        "(legacy)"@
    } else if i == 21 {
        "ColorSpace"@
    } else if i == 22 {
        "GrainEffectSize"@
    } else if i == 23 {
        "ColorChromeEffect"@
    } else if i == 24 {
        "ColorChromeFXBlue"@
    } else if i == 26 {
        "Clarity"@
    } else {
        "?"@
    }
}

/// Dump line of slot `i` holding `v`: small negative values (as `i32`, above
/// -10000) are shown signed, others unsigned, both with their hex pattern.
pub open spec fn dump_line(i: int, v: u32) -> Seq<char> {
    let shown = if v > 0x1_0000_0000 - 10000 {
        dec_int(v - 0x1_0000_0000)
    } else {
        dec(v as nat)
    };
    "  ["@ + pad_left(dec(i as nat), 2) + "] "@ + pad_right(prop_label(i), 20) + " = "@ + shown
        + " (0x"@ + pad_zero(hex(v as nat), 8) + ")"@
}

/// Number of slots the dump shows: the declared count (u16 LE at offset 0),
/// at most as many as the length holds.
pub open spec fn dump_count(p: Seq<u8>) -> int {
    let n = p[0] + 0x100 * p[1];
    let max = (p.len() - PROPS_OFFSET) / 4;
    if n < max {
        n
    } else {
        max
    }
}

/// The lines of the diagnostic dump of a profile.
pub open spec fn dump_lines(p: Seq<u8>) -> Seq<Seq<char>> {
    if profile_too_short(p) {
        seq!["  Profile too short ("@ + dec(p.len()) + " bytes)"@]
    } else {
        let n = p[0] + 0x100 * p[1];
        let max = (p.len() - PROPS_OFFSET) / 4;
        seq!["  n_props="@ + dec(n as nat) + " (max from size: "@ + dec(max as nat) + ")"@] + Seq::new(
            dump_count(p) as nat,
            |i: int|
                dump_line(
                    i,
                    match prop_value(p, i) {
                        Some(v) => v,
                        None => 0u32,
                    },
                ),
        )
    }
}

fn prop_label_str(i: usize) -> (r: &'static str)
    ensures
        r@ == prop_label(i as int),
{
    match i {
        0 => "ShootingCondition",
        1 => "FileType",
        2 => "ImageSize",
        3 => "ImageQuality",
        4 => "ExposureBias",
        5 => "DynamicRange",
        6 => "WideDRange",
        7 => "FilmSimulation",
        8 => "GrainEffect",
        9 => "SmoothSkinEffect",
        10 => "WBShootCond",
        11 => "WhiteBalance",
        12 => "WBShiftR",
        13 => "WBShiftB",
        14 => "WBColorTemp",
        15 => "HighlightTone",
        16 => "ShadowTone",
        17 => "Color",
        18 => "Sharpness",
        19 => "NoiseReduction",
        20 => "(legacy)",
        21 => "ColorSpace",
        22 => "GrainEffectSize",
        23 => "ColorChromeEffect",
        24 => "ColorChromeFXBlue",
        26 => "Clarity",
        _ => "?",
    }
}

fn dump_line_chars(i: usize, v: u32) -> (r: Vec<char>)
    ensures
        r@ == dump_line(i as int, v),
{
    let mut line = chars_of("  [");
    let idx = dec_chars(i as u64);
    push_pad_left(&mut line, &idx, 2);
    push_str(&mut line, "] ");
    let label = chars_of(prop_label_str(i));
    push_pad_right(&mut line, &label, 20);
    push_str(&mut line, " = ");
    if v > 0xFFFF_FFFF - 9999 {
        push_dec_i64(&mut line, v as i64 - 0x1_0000_0000i64);
    } else {
        push_dec(&mut line, v as u64);
    }
    push_str(&mut line, " (0x");
    let h = hex_chars(v as u64);
    push_pad_zero(&mut line, &h, 8);
    push_str(&mut line, ")");
    line
}

/// The lines of the diagnostic dump of every property slot of a profile.
pub fn dump_profile(profile: &[u8]) -> (r: Vec<String>)
    requires
        profile@.len() <= 0x4000_0000,
    ensures
        string_views(r@) == dump_lines(profile@),
{
    let mut lines: Vec<String> = Vec::new();
    if profile.len() < PROPS_OFFSET + 4 {
        let mut l = chars_of("  Profile too short (");
        push_dec(&mut l, profile.len() as u64);
        push_str(&mut l, " bytes)");
        lines.push(string_of(&l));
        assert(string_views(lines@) =~= dump_lines(profile@));
        return lines;
    }
    let n = profile[0] as usize + profile[1] as usize * 0x100;
    let max = (profile.len() - PROPS_OFFSET) / 4;
    let count = if n < max {
        n
    } else {
        max
    };
    let mut head = chars_of("  n_props=");
    push_dec(&mut head, n as u64);
    push_str(&mut head, " (max from size: ");
    push_dec(&mut head, max as u64);
    push_str(&mut head, ")");
    lines.push(string_of(&head));
    let ghost p = profile@;
    let ghost first = "  n_props="@ + dec(n as nat) + " (max from size: "@ + dec(max as nat) + ")"@;
    let mut i: usize = 0;
    while i < count
        invariant
            p == profile@,
            !profile_too_short(p),
            count as int == dump_count(p),
            count <= max,
            max == (p.len() - PROPS_OFFSET) / 4,
            p.len() <= 0x4000_0000,
            i <= count,
            string_views(lines@) == seq![first] + Seq::new(
                i as nat,
                |k: int|
                    dump_line(
                        k,
                        match prop_value(p, k) {
                            Some(v) => v,
                            None => 0u32,
                        },
                    ),
            ),
        decreases count - i,
    {
        let v = match read_prop(profile, i) {
            Some(x) => x,
            None => 0,
        };
        let l = dump_line_chars(i, v);
        let ghost before = string_views(lines@);
        lines.push(string_of(&l));
        assert(string_views(lines@) =~= before.push(l@));
        i += 1;
        assert(string_views(lines@) =~= seq![first] + Seq::new(
            i as nat,
            |k: int|
                dump_line(
                    k,
                    match prop_value(p, k) {
                        Some(v) => v,
                        None => 0u32,
                    },
                ),
        ));
    }
    lines
}

} // verus!
