//! Reading a file's recipe back from its EXIF data (as exiftool prints it):
//! the settings shown, and how closely each recipe matches.
//!
//! Numeric EXIF values are read in tenths, from decimal notation with at most
//! one significant fractional digit. Match scores count half points.
use vstd::prelude::*;

use crate::fuji::{dr_word, dr_word_value};
use crate::profile::{
    law_white_balance_code_names_mode, opt_chars, push_tenths_plus, tenths_plus, white_balance_code,
    white_balance_mode_of, FilmSimulation,
};
use crate::recipes::{
    film_of_slug, film_slug, law_slug_names_film, recipe_views, row, whole_of_tenths, Recipe,
    RecipeModel,
};
use crate::text::{
    all_digits, chars_eq, chars_eq_str, chars_of, dec, dec_plus, digits_value,
    eq_ignore_ascii_case, eq_ignore_ascii_case_chars, first_index, find_char, lemma_first_index,
    lines_of, lowercase_chars, parse_i32_chars, parse_i32_spec, parse_u32_chars, parse_u32_spec,
    push_chars, push_dec, push_dec_plus, push_pad_right, push_str, split_char, split_lines,
    split_on, split_whitespace, starts_with_str, string_of, string_views, sub_chars, trim,
    trim_chars, unicode_lowercase, views, words, is_digit,
};

verus! {

// ---------------------------------------------------------------------------
// EXIF fields
// ---------------------------------------------------------------------------

/// EXIF tags and values in the order exiftool printed them.
pub struct ExifData {
    pub fields: Vec<(String, String)>,
}

/// Models of tag/value pairs.
pub open spec fn field_views(v: Seq<(String, String)>) -> Seq<(Seq<char>, Seq<char>)> {
    v.map_values(|p: (String, String)| (p.0@, p.1@))
}

/// The tag/value pairs of exiftool's `-s` output: each line with a `:`, split
/// at the first one, both sides trimmed.
pub open spec fn exif_pairs(lines: Seq<Seq<char>>) -> Seq<(Seq<char>, Seq<char>)>
    decreases lines.len(),
{
    if lines.len() == 0 {
        seq![]
    } else {
        let rest = exif_pairs(lines.drop_last());
        let l = lines.last();
        match first_index(l, ':') {
            Some(i) => rest.push((trim(l.take(i)), trim(l.skip(i + 1)))),
            None => rest,
        }
    }
}

/// The value a tag has: the last one printed for it (a later line replaces an
/// earlier one).
pub open spec fn last_value(fields: Seq<(Seq<char>, Seq<char>)>, key: Seq<char>) -> Option<Seq<char>>
    decreases fields.len(),
{
    if fields.len() == 0 {
        None
    } else if fields.last().0 == key {
        Some(fields.last().1)
    } else {
        last_value(fields.drop_last(), key)
    }
}

/// The value of a tag, where exiftool printed one other than `-` (missing).
pub open spec fn exif_get(fields: Seq<(Seq<char>, Seq<char>)>, key: Seq<char>) -> Option<Seq<char>> {
    match last_value(fields, key) {
        Some(v) => if v == "-"@ {
            None
        } else {
            Some(v)
        },
        None => None,
    }
}

/// Reads exiftool's `-s -f` output.
pub fn parse_exif_output(stdout: &str) -> (r: ExifData)
    ensures
        field_views(r.fields@) == exif_pairs(lines_of(stdout@)),
{
    let text = chars_of(stdout);
    let lines = split_lines(&text);
    let mut fields: Vec<(String, String)> = Vec::new();
    let mut i: usize = 0;
    assert(field_views(fields@) =~= exif_pairs(views(lines@).take(0)));
    while i < lines.len()
        invariant
            i <= lines.len(),
            views(lines@) == lines_of(stdout@),
            field_views(fields@) == exif_pairs(views(lines@).take(i as int)),
        decreases lines.len() - i,
    {
        let l = &lines[i];
        assert(views(lines@).take(i + 1).drop_last() =~= views(lines@).take(i as int));
        assert(views(lines@).take(i + 1).last() == l@);
        proof {
            lemma_first_index(l@, ':');
        }
        if let Some(c) = find_char(l, ':') {
            let k = sub_chars(l, 0, c);
            let v = sub_chars(l, c + 1, l.len());
            assert(k@ =~= l@.take(c as int));
            assert(v@ =~= l@.skip(c + 1));
            let key = string_of(&trim_chars(&k));
            let val = string_of(&trim_chars(&v));
            let ghost before = field_views(fields@);
            fields.push((key, val));
            assert(field_views(fields@) =~= before.push((key@, val@)));
        }
        i += 1;
    }
    assert(views(lines@).take(lines.len() as int) =~= views(lines@));
    ExifData { fields }
}

impl ExifData {
    /// The value of a tag, unless it is missing or printed as `-`.
    pub fn get(&self, key: &str) -> (r: Option<String>)
        ensures
            opt_chars(r) == exif_get(field_views(self.fields@), key@),
    {
        let ghost fs = field_views(self.fields@);
        let k = chars_of(key);
        let mut i = self.fields.len();
        assert(fs.take(i as int) =~= fs);
        while i > 0
            invariant
                i <= self.fields.len(),
                fs == field_views(self.fields@),
                k@ == key@,
                last_value(fs, key@) == last_value(fs.take(i as int), key@),
            decreases i,
        {
            assert(fs.take(i as int).last() == (self.fields@[i - 1].0@, self.fields@[i - 1].1@));
            assert(fs.take(i as int).drop_last() =~= fs.take(i - 1));
            if chars_eq(&chars_of(self.fields[i - 1].0.as_str()), &k) {
                let v = chars_of(self.fields[i - 1].1.as_str());
                if chars_eq_str(&v, "-") {
                    return None;
                }
                return Some(string_of(&v));
            }
            i -= 1;
        }
        None
    }

    /// A numeric tag in tenths: the first word of its value read as a decimal
    /// (`0 (normal)`, `+2 (high)`, `-1.5`).
    pub fn get_num(&self, key: &str) -> (r: Option<i32>)
        ensures
            r == exif_num(field_views(self.fields@), key@),
    {
        match self.get(key) {
            Some(s) => {
                let v = chars_of(s.as_str());
                let ws = split_whitespace(&v);
                if ws.len() > 0 {
                    assert(views(ws@)[0] == ws@[0]@);
                    decimal_tenths_of(&ws[0])
                } else {
                    decimal_tenths_of(&v)
                }
            },
            None => None,
        }
    }
}

// ---------------------------------------------------------------------------
// Decimals in tenths
// ---------------------------------------------------------------------------

/// A decimal (`5`, `-1.5`, `+.5`, `2.0`) in tenths, when it has no
/// significant digit below the tenths and fits an `i32`.
pub open spec fn decimal_tenths(s: Seq<char>) -> Option<i32> {
    let neg = s.len() > 0 && s[0] == '-';
    let body = if s.len() > 0 && (s[0] == '-' || s[0] == '+') {
        s.drop_first()
    } else {
        s
    };
    let dot = first_index(body, '.');
    let ip = match dot {
        Some(d) => body.take(d),
        None => body,
    };
    let fp = match dot {
        Some(d) => body.skip(d + 1),
        None => seq![],
    };
    if ip.len() == 0 && fp.len() == 0 {
        None
    } else if !all_digits(ip) || !all_digits(fp) {
        None
    } else if !zeros_after_first(fp) {
        None
    } else {
        let t = digits_value(ip) * 10 + if fp.len() > 0 {
            fp[0] as int - 48
        } else {
            0
        };
        if t > i32::MAX {
            None
        } else if neg {
            Some((-t) as i32)
        } else {
            Some(t as i32)
        }
    }
}

/// Every digit after the first is `0`.
pub open spec fn zeros_after_first(fp: Seq<char>) -> bool {
    forall|k: int| 1 <= k < fp.len() ==> #[trigger] fp[k] == '0'
}

/// A numeric tag's value in tenths.
pub open spec fn exif_num(fields: Seq<(Seq<char>, Seq<char>)>, key: Seq<char>) -> Option<i32> {
    match exif_get(fields, key) {
        Some(v) => {
            let ws = words(v);
            decimal_tenths(
                if ws.len() > 0 {
                    ws[0]
                } else {
                    v
                },
            )
        },
        None => None,
    }
}

fn all_digit_chars(v: &Vec<char>, lo: usize, hi: usize) -> (r: bool)
    requires
        lo <= hi <= v.len(),
    ensures
        r == all_digits(v@.subrange(lo as int, hi as int)),
{
    let mut i = lo;
    while i < hi
        invariant
            lo <= i <= hi <= v.len(),
            forall|k: int| lo <= k < i ==> is_digit(#[trigger] v@[k]),
        decreases hi - i,
    {
        if !('0' <= v[i] && v[i] <= '9') {
            assert(v@.subrange(lo as int, hi as int)[i - lo] == v@[i as int]);
            return false;
        }
        i += 1;
    }
    assert forall|k: int| 0 <= k < hi - lo implies is_digit(#[trigger] v@.subrange(lo as int, hi as int)[k]) by {
        assert(v@.subrange(lo as int, hi as int)[k] == v@[lo + k]);
    }
    true
}

/// Reads a decimal in tenths (see `decimal_tenths`).
#[verifier::loop_isolation(false)]
pub fn decimal_tenths_of(s: &Vec<char>) -> (r: Option<i32>)
    ensures
        r == decimal_tenths(s@),
{
    let neg = s.len() > 0 && s[0] == '-';
    let start: usize = if s.len() > 0 && (s[0] == '-' || s[0] == '+') {
        1
    } else {
        0
    };
    let body = sub_chars(s, start, s.len());
    assert(body@ =~= (if s@.len() > 0 && (s@[0] == '-' || s@[0] == '+') {
        s@.drop_first()
    } else {
        s@
    }));
    proof {
        lemma_first_index(body@, '.');
    }
    let (ip_end, fp_start) = match find_char(&body, '.') {
        Some(d) => (d, d + 1),
        None => (body.len(), body.len()),
    };
    let ip = sub_chars(&body, 0, ip_end);
    let fp = sub_chars(&body, fp_start, body.len());
    proof {
        match first_index(body@, '.') {
            Some(d) => {
                assert(ip@ =~= body@.take(d));
                assert(fp@ =~= body@.skip(d + 1));
            },
            None => {
                assert(ip@ =~= body@);
                assert(fp@ =~= Seq::<char>::empty());
            },
        }
    }
    if ip.len() == 0 && fp.len() == 0 {
        return None;
    }
    if !all_digit_chars(&ip, 0, ip.len()) || !all_digit_chars(&fp, 0, fp.len()) {
        assert(ip@.subrange(0, ip@.len() as int) =~= ip@);
        assert(fp@.subrange(0, fp@.len() as int) =~= fp@);
        return None;
    }
    assert(ip@.subrange(0, ip@.len() as int) =~= ip@);
    assert(fp@.subrange(0, fp@.len() as int) =~= fp@);
    let ghost pre = decimal_tenths(s@);
    let mut k: usize = 1;
    while k < fp.len()
        invariant
            1 <= k,
            forall|q: int| 1 <= q < k && q < fp@.len() ==> fp@[q] == '0',
        decreases fp.len() - k,
    {
        if fp[k] != '0' {
            assert(fp@[k as int] != '0');
            assert(!zeros_after_first(fp@));
            return None;
        }
        k += 1;
    }
    assert(forall|q: int| 1 <= q < fp@.len() ==> #[trigger] fp@[q] == '0');
    let w: u64 = if ip.len() == 0 {
        0
    } else {
        match parse_u32_chars(&ip) {
            Some(x) => {
                proof {
                    assert(ip@[0] != '+');
                    crate::text::lemma_digits_value_nonneg(ip@);
                }
                x as u64
            },
            None => {
                proof {
                    assert(ip@[0] != '+');
                    crate::text::lemma_digits_value_nonneg(ip@);
                }
                return None;
            },
        }
    };
    proof {
        if ip@.len() > 0 {
            assert(ip@[0] != '+');
        }
    }
    let f: u64 = if fp.len() > 0 {
        (fp[0] as u32 - 48) as u64
    } else {
        0
    };
    let t = w * 10 + f;
    assert(w as int == digits_value(ip@));
    assert(f as int == (if fp@.len() > 0 {
        fp@[0] as int - 48
    } else {
        0
    }));
    if t > 0x7FFF_FFFF {
        return None;
    }
    if neg {
        Some((0i64 - t as i64) as i32)
    } else {
        Some(t as i32)
    }
}


// ---------------------------------------------------------------------------
// EXIF names to recipe slugs
// ---------------------------------------------------------------------------

/// Recipe slug of an EXIF film mode name; unknown names stay as they are.
pub open spec fn film_mode_slug(s: Seq<char>) -> Seq<char> {
    if s == "Provia"@ {
        "provia"@
    } else if s == "Velvia"@ {
        "velvia"@
    } else if s == "Astia"@ {
        "astia"@
    } else if s == "Classic Chrome"@ {
        "classic-chrome"@
    } else if s == "Classic Negative"@ {
        "classic-neg"@
    } else if s == "Pro Neg. Hi"@ {
        "pro-neg-hi"@
    } else if s == "Pro Neg. Std"@ {
        "pro-neg-std"@
    } else if s == "Eterna"@ {
        "eterna"@
    } else if s == "Eterna Bleach Bypass"@ {
        "eterna-bleach-bypass"@
    } else if s == "Acros"@ {
        "acros"@
    } else if s == "Acros+Ye Filter"@ {
        "acros-ye"@
    } else if s == "Acros+R Filter"@ {
        "acros-r"@
    } else if s == "Acros+G Filter"@ {
        "acros-g"@
    } else if s == "B&W"@ {
        "monochrome"@
    } else if s == "B&W+Ye Filter"@ {
        "monochrome-ye"@
    } else if s == "B&W+R Filter"@ {
        "monochrome-r"@
    } else if s == "B&W+G Filter"@ {
        "monochrome-g"@
    } else if s == "Sepia"@ {
        "sepia"@
    } else if s == "Nostalgic Neg"@ {
        "nostalgic-neg"@
    } else if s == "Reala Ace"@ {
        "reala-ace"@
    } else {
        s
    }
}

/// Recipe slug of an EXIF film mode name.
pub fn film_mode_to_slug(exif_name: &str) -> (r: &str)
    ensures
        r@ == film_mode_slug(exif_name@),
{
    let v = chars_of(exif_name);
    if chars_eq_str(&v, "Provia") {
        "provia"
    } else if chars_eq_str(&v, "Velvia") {
        "velvia"
    } else if chars_eq_str(&v, "Astia") {
        "astia"
    } else if chars_eq_str(&v, "Classic Chrome") {
        "classic-chrome"
    } else if chars_eq_str(&v, "Classic Negative") {
        "classic-neg"
    } else if chars_eq_str(&v, "Pro Neg. Hi") {
        "pro-neg-hi"
    } else if chars_eq_str(&v, "Pro Neg. Std") {
        "pro-neg-std"
    } else if chars_eq_str(&v, "Eterna") {
        "eterna"
    } else if chars_eq_str(&v, "Eterna Bleach Bypass") {
        "eterna-bleach-bypass"
    } else if chars_eq_str(&v, "Acros") {
        "acros"
    } else if chars_eq_str(&v, "Acros+Ye Filter") {
        "acros-ye"
    } else if chars_eq_str(&v, "Acros+R Filter") {
        "acros-r"
    } else if chars_eq_str(&v, "Acros+G Filter") {
        "acros-g"
    } else if chars_eq_str(&v, "B&W") {
        "monochrome"
    } else if chars_eq_str(&v, "B&W+Ye Filter") {
        "monochrome-ye"
    } else if chars_eq_str(&v, "B&W+R Filter") {
        "monochrome-r"
    } else if chars_eq_str(&v, "B&W+G Filter") {
        "monochrome-g"
    } else if chars_eq_str(&v, "Sepia") {
        "sepia"
    } else if chars_eq_str(&v, "Nostalgic Neg") {
        "nostalgic-neg"
    } else if chars_eq_str(&v, "Reala Ace") {
        "reala-ace"
    } else {
        exif_name
    }
}

/// The name exiftool prints for a film simulation's EXIF film mode.
pub open spec fn exif_film_name(f: FilmSimulation) -> Seq<char> {
    match f {
        FilmSimulation::Provia => "Provia"@,
        FilmSimulation::Velvia => "Velvia"@,
        FilmSimulation::Astia => "Astia"@,
        FilmSimulation::ClassicChrome => "Classic Chrome"@,
        FilmSimulation::ClassicNeg => "Classic Negative"@,
        FilmSimulation::ProNegHi => "Pro Neg. Hi"@,
        FilmSimulation::ProNegStd => "Pro Neg. Std"@,
        FilmSimulation::Eterna => "Eterna"@,
        FilmSimulation::EternaBleachBypass => "Eterna Bleach Bypass"@,
        FilmSimulation::Acros => "Acros"@,
        FilmSimulation::AcrosYe => "Acros+Ye Filter"@,
        FilmSimulation::AcrosR => "Acros+R Filter"@,
        FilmSimulation::AcrosG => "Acros+G Filter"@,
        FilmSimulation::Monochrome => "B&W"@,
        FilmSimulation::MonochromeYe => "B&W+Ye Filter"@,
        FilmSimulation::MonochromeR => "B&W+R Filter"@,
        FilmSimulation::MonochromeG => "B&W+G Filter"@,
        FilmSimulation::Sepia => "Sepia"@,
        FilmSimulation::NostalgicNeg => "Nostalgic Neg"@,
        FilmSimulation::RealaAce => "Reala Ace"@,
    }
}

/// An EXIF film mode names the same film simulation as the recipe slug it is
/// turned into: the slug of `f`'s EXIF name is `f`'s recipe slug, which reads
/// back as `f`. So distinct film modes give distinct slugs.
pub proof fn law_film_mode_slug_names_film(f: FilmSimulation)
    ensures
        film_mode_slug(exif_film_name(f)) == film_slug(f),
        film_of_slug(film_mode_slug(exif_film_name(f))) == Some(f),
{
    reveal_strlit("Provia");
    assert("Provia"@.len() == 6 && "Provia"@[0] == 'P');
    reveal_strlit("Velvia");
    assert("Velvia"@.len() == 6 && "Velvia"@[0] == 'V');
    reveal_strlit("Astia");
    assert("Astia"@.len() == 5 && "Astia"@[0] == 'A' && "Astia"@[1] == 's');
    reveal_strlit("Classic Chrome");
    assert("Classic Chrome"@.len() == 14 && "Classic Chrome"@[0] == 'C');
    reveal_strlit("Classic Negative");
    assert("Classic Negative"@.len() == 16 && "Classic Negative"@[0] == 'C');
    reveal_strlit("Pro Neg. Hi");
    assert("Pro Neg. Hi"@.len() == 11 && "Pro Neg. Hi"@[0] == 'P');
    reveal_strlit("Pro Neg. Std");
    assert("Pro Neg. Std"@.len() == 12 && "Pro Neg. Std"@[0] == 'P');
    reveal_strlit("Eterna");
    assert("Eterna"@.len() == 6 && "Eterna"@[0] == 'E');
    reveal_strlit("Eterna Bleach Bypass");
    assert("Eterna Bleach Bypass"@.len() == 20 && "Eterna Bleach Bypass"@[0] == 'E');
    reveal_strlit("Acros");
    assert("Acros"@.len() == 5 && "Acros"@[0] == 'A' && "Acros"@[1] == 'c');
    reveal_strlit("Acros+Ye Filter");
    assert("Acros+Ye Filter"@.len() == 15 && "Acros+Ye Filter"@[0] == 'A');
    reveal_strlit("Acros+R Filter");
    assert("Acros+R Filter"@.len() == 14 && "Acros+R Filter"@[0] == 'A' && "Acros+R Filter"@[6] == 'R');
    reveal_strlit("Acros+G Filter");
    assert("Acros+G Filter"@.len() == 14 && "Acros+G Filter"@[0] == 'A' && "Acros+G Filter"@[6] == 'G');
    reveal_strlit("B&W");
    assert("B&W"@.len() == 3 && "B&W"@[0] == 'B');
    reveal_strlit("B&W+Ye Filter");
    assert("B&W+Ye Filter"@.len() == 13 && "B&W+Ye Filter"@[0] == 'B');
    reveal_strlit("B&W+R Filter");
    assert("B&W+R Filter"@.len() == 12 && "B&W+R Filter"@[0] == 'B' && "B&W+R Filter"@[4] == 'R');
    reveal_strlit("B&W+G Filter");
    assert("B&W+G Filter"@.len() == 12 && "B&W+G Filter"@[0] == 'B' && "B&W+G Filter"@[4] == 'G');
    reveal_strlit("Sepia");
    assert("Sepia"@.len() == 5 && "Sepia"@[0] == 'S');
    reveal_strlit("Nostalgic Neg");
    assert("Nostalgic Neg"@.len() == 13 && "Nostalgic Neg"@[0] == 'N');
    reveal_strlit("Reala Ace");
    assert("Reala Ace"@.len() == 9 && "Reala Ace"@[0] == 'R');
    law_slug_names_film(film_slug(f), f);
}

/// Recipe slug of an EXIF white balance name; unknown names stay as they are.
pub open spec fn wb_slug(s: Seq<char>) -> Seq<char> {
    if s == "Auto"@ || s == "Auto (white priority)"@ || s == "Auto (ambiance priority)"@ {
        "auto"@
    } else if s == "Daylight"@ {
        "daylight"@
    } else if s == "Shade"@ {
        "shade"@
    } else if s == "Incandescent"@ {
        "incandescent"@
    } else if s == "Daylight Fluorescent"@ {
        "fluorescent-1"@
    } else if s == "Day White Fluorescent"@ {
        "fluorescent-2"@
    } else if s == "White Fluorescent"@ {
        "fluorescent-3"@
    } else if s == "Kelvin"@ {
        "temperature"@
    } else if s == "Underwater"@ {
        "underwater"@
    } else {
        s
    }
}

/// Recipe slug of an EXIF white balance name.
pub fn wb_exif_to_slug(exif_name: &str) -> (r: &str)
    ensures
        r@ == wb_slug(exif_name@),
{
    let v = chars_of(exif_name);
    if chars_eq_str(&v, "Auto") || chars_eq_str(&v, "Auto (white priority)") || chars_eq_str(
        &v,
        "Auto (ambiance priority)",
    ) {
        "auto"
    } else if chars_eq_str(&v, "Daylight") {
        "daylight"
    } else if chars_eq_str(&v, "Shade") {
        "shade"
    } else if chars_eq_str(&v, "Incandescent") {
        "incandescent"
    } else if chars_eq_str(&v, "Daylight Fluorescent") {
        "fluorescent-1"
    } else if chars_eq_str(&v, "Day White Fluorescent") {
        "fluorescent-2"
    } else if chars_eq_str(&v, "White Fluorescent") {
        "fluorescent-3"
    } else if chars_eq_str(&v, "Kelvin") {
        "temperature"
    } else if chars_eq_str(&v, "Underwater") {
        "underwater"
    } else {
        exif_name
    }
}

/// Camera white-balance code of an EXIF white balance name, where the camera
/// has one.
pub open spec fn exif_wb_code(s: Seq<char>) -> Option<u32> {
    if s == "Auto"@ || s == "Auto (white priority)"@ || s == "Auto (ambiance priority)"@ {
        Some(0x0002)
    } else if s == "Daylight"@ {
        Some(0x0004)
    } else if s == "Shade"@ {
        Some(0x8006)
    } else if s == "Incandescent"@ {
        Some(0x0006)
    } else if s == "Daylight Fluorescent"@ {
        Some(0x8001)
    } else if s == "Day White Fluorescent"@ {
        Some(0x8002)
    } else if s == "White Fluorescent"@ {
        Some(0x8003)
    } else if s == "Kelvin"@ {
        Some(0x8007)
    } else {
        None
    }
}

/// An EXIF white balance reads as the recipe white-balance mode that the
/// camera develops with the same code.
pub proof fn law_wb_slug_keeps_mode(s: Seq<char>, c: u32)
    requires
        exif_wb_code(s) == Some(c),
    ensures
        white_balance_mode_of(c) == Some(wb_slug(s)),
        white_balance_code(wb_slug(s)) == Some(c),
{
    reveal_strlit("Auto");
    assert("Auto"@.len() == 4 && "Auto"@[0] == 'A');
    reveal_strlit("Auto (white priority)");
    assert("Auto (white priority)"@.len() == 21 && "Auto (white priority)"@[0] == 'A');
    reveal_strlit("Auto (ambiance priority)");
    assert("Auto (ambiance priority)"@.len() == 24 && "Auto (ambiance priority)"@[0] == 'A');
    reveal_strlit("Daylight");
    assert("Daylight"@.len() == 8 && "Daylight"@[0] == 'D');
    reveal_strlit("Shade");
    assert("Shade"@.len() == 5 && "Shade"@[0] == 'S');
    reveal_strlit("Incandescent");
    assert("Incandescent"@.len() == 12 && "Incandescent"@[0] == 'I');
    reveal_strlit("Daylight Fluorescent");
    assert("Daylight Fluorescent"@.len() == 20 && "Daylight Fluorescent"@[0] == 'D');
    reveal_strlit("Day White Fluorescent");
    assert("Day White Fluorescent"@.len() == 21 && "Day White Fluorescent"@[0] == 'D');
    reveal_strlit("White Fluorescent");
    assert("White Fluorescent"@.len() == 17 && "White Fluorescent"@[0] == 'W');
    reveal_strlit("Kelvin");
    assert("Kelvin"@.len() == 6 && "Kelvin"@[0] == 'K');
    reveal_strlit("Underwater");
    assert("Underwater"@.len() == 10 && "Underwater"@[0] == 'U');
    law_white_balance_code_names_mode(wb_slug(s), c);
}

/// Recipe slug of an EXIF chrome level: `off`, `weak`, `strong` in any case;
/// other values stay as they are.
pub open spec fn chrome_slug(s: Seq<char>) -> Seq<char> {
    let l = unicode_lowercase(s);
    if l == "off"@ {
        "off"@
    } else if l == "weak"@ {
        "weak"@
    } else if l == "strong"@ {
        "strong"@
    } else {
        s
    }
}

/// Recipe slug of an EXIF chrome level.
pub fn chrome_exif_to_slug(exif_val: &str) -> (r: &str)
    ensures
        r@ == chrome_slug(exif_val@),
{
    let l = lowercase_chars(&chars_of(exif_val));
    if chars_eq_str(&l, "off") {
        "off"
    } else if chars_eq_str(&l, "weak") {
        "weak"
    } else if chars_eq_str(&l, "strong") {
        "strong"
    } else {
        exif_val
    }
}

/// Dynamic range of an EXIF value (`Standard`, `Wide1`, `Wide 2`, `200%`).
pub fn dr_exif_to_value(s: &str) -> (r: Option<u32>)
    ensures
        r == dr_word_value(s@),
{
    dr_word(&chars_of(s))
}

/// An `i32` divided by 20, truncating toward zero.
pub open spec fn div20(v: int) -> int {
    if v >= 0 {
        v / 20
    } else {
        -((-v) / 20)
    }
}

/// Reads the pieces of a white-balance fine tune in order: `Red {n}` sets
/// the red shift, `Blue {n}` the blue one, each `n / 20` (recipe units).
pub open spec fn wb_fine_scan(parts: Seq<Seq<char>>, r: int, b: int) -> (int, int)
    decreases parts.len(),
{
    if parts.len() == 0 {
        (r, b)
    } else {
        let p = trim(parts[0]);
        let rest = parts.drop_first();
        if p.len() >= 4 && p.take(4) == "Red "@ {
            match parse_i32_spec(trim(p.skip(4))) {
                Some(v) => wb_fine_scan(rest, div20(v as int), b),
                None => wb_fine_scan(rest, r, b),
            }
        } else if p.len() >= 5 && p.take(5) == "Blue "@ {
            match parse_i32_spec(trim(p.skip(5))) {
                Some(v) => wb_fine_scan(rest, r, div20(v as int)),
                None => wb_fine_scan(rest, r, b),
            }
        } else {
            wb_fine_scan(rest, r, b)
        }
    }
}

/// The recipe's red and blue shifts in a fine tune such as `Red +20, Blue -120`.
pub open spec fn wb_fine(s: Seq<char>) -> (int, int) {
    wb_fine_scan(split_on(s, ','), 0, 0)
}

fn div20_exec(v: i32) -> (r: i32)
    ensures
        r as int == div20(v as int),
{
    if v >= 0 {
        v / 20
    } else {
        let a = (0i64 - v as i64) / 20;
        (0i64 - a) as i32
    }
}

/// Reads a white-balance fine tune (`Red +20, Blue -120` is `(1, -6)`).
pub fn parse_wb_fine(s: &str) -> (r: (i32, i32))
    ensures
        (r.0 as int, r.1 as int) == wb_fine(s@),
{
    let parts = split_char(&chars_of(s), ',');
    let mut r: i32 = 0;
    let mut b: i32 = 0;
    let mut i: usize = 0;
    assert(views(parts@).skip(0) =~= views(parts@));
    while i < parts.len()
        invariant
            i <= parts.len(),
            views(parts@) == split_on(s@, ','),
            wb_fine(s@) == wb_fine_scan(views(parts@).skip(i as int), r as int, b as int),
        decreases parts.len() - i,
    {
        let ghost rest = views(parts@).skip(i as int);
        assert(rest[0] == parts@[i as int]@);
        assert(rest.drop_first() =~= views(parts@).skip(i + 1));
        let p = trim_chars(&parts[i]);
        proof {
            reveal_strlit("Red ");
            reveal_strlit("Blue ");
        }
        if starts_with_str(&p, "Red ") {
            let num = trim_chars(&sub_chars(&p, 4, p.len()));
            assert(p@.skip(4) =~= p@.subrange(4, p@.len() as int));
            if let Some(v) = parse_i32_chars(&num) {
                r = div20_exec(v);
            }
        } else if starts_with_str(&p, "Blue ") {
            let num = trim_chars(&sub_chars(&p, 5, p.len()));
            assert(p@.skip(5) =~= p@.subrange(5, p@.len() as int));
            if let Some(v) = parse_i32_chars(&num) {
                b = div20_exec(v);
            }
        }
        i += 1;
    }
    assert(views(parts@).skip(i as int) =~= Seq::<Seq<char>>::empty());
    (r, b)
}


// ---------------------------------------------------------------------------
// What the file was shot with
// ---------------------------------------------------------------------------

/// A tag's value, or a default.
pub open spec fn get_or(f: Seq<(Seq<char>, Seq<char>)>, key: Seq<char>, d: Seq<char>) -> Seq<char> {
    match exif_get(f, key) {
        Some(v) => v,
        None => d,
    }
}

/// The dynamic range as shown: `DR200`, or `auto`.
pub open spec fn exif_dr(f: Seq<(Seq<char>, Seq<char>)>) -> Option<u32> {
    match exif_get(f, "DynamicRange"@) {
        Some(v) => dr_word_value(v),
        None => None,
    }
}

/// The white-balance shifts of the file, `(0, 0)` without a fine tune.
pub open spec fn exif_shifts(f: Seq<(Seq<char>, Seq<char>)>) -> (int, int) {
    match exif_get(f, "WhiteBalanceFineTune"@) {
        Some(s) => wb_fine(s),
        None => (0, 0),
    }
}

/// A shift as shown: `0`, or signed.
pub open spec fn shift_shown(v: int) -> Seq<char> {
    if v == 0 {
        "0"@
    } else {
        dec_plus(v)
    }
}

/// The lines that show what a file was shot with.
pub open spec fn display_lines(f: Seq<(Seq<char>, Seq<char>)>) -> Seq<Seq<char>> {
    let grain = get_or(f, "GrainEffectRoughness"@, "Off"@);
    let size = get_or(f, "GrainEffectSize"@, "Small"@);
    let slug = wb_slug(get_or(f, "WhiteBalance"@, "Auto"@));
    let wb = if slug == "temperature"@ {
        get_or(f, "ColorTemperature"@, "?"@) + "K"@
    } else {
        slug
    };
    let shifts = exif_shifts(f);
    seq![
        row("Film Simulation"@, film_mode_slug(get_or(f, "FilmMode"@, "unknown"@))),
        row(
            "Dynamic Range"@,
            match exif_dr(f) {
                Some(d) => "DR"@ + dec(d as nat),
                None => "auto"@,
            },
        ),
        row(
            "Grain"@,
            if eq_ignore_ascii_case(grain, "off"@) {
                "off"@
            } else {
                unicode_lowercase(grain) + " / "@ + unicode_lowercase(size)
            },
        ),
        row(
            "Color Effect"@,
            "chrome:"@ + unicode_lowercase(get_or(f, "ColorChromeEffect"@, "Off"@)) + "  blue:"@
                + unicode_lowercase(get_or(f, "ColorChromeFXBlue"@, "Off"@)),
        ),
        row(
            "White Balance"@,
            wb + "  R:"@ + shift_shown(shifts.0) + " B:"@ + shift_shown(shifts.1),
        ),
        row(
            "Tone"@,
            "highlight:"@ + crate::recipes::tone_text(exif_num(f, "HighlightTone"@)) + "  shadow:"@
                + crate::recipes::tone_text(exif_num(f, "ShadowTone"@)),
        ),
        row("Color"@, crate::recipes::whole_text(exif_num(f, "Saturation"@))),
        row("Sharpness"@, crate::recipes::whole_text(exif_num(f, "Sharpness"@))),
        row("NR"@, crate::recipes::whole_text(exif_num(f, "NoiseReduction"@))),
        row("Clarity"@, crate::recipes::whole_text(exif_num(f, "Clarity"@))),
        row("ISO"@, get_or(f, "ISO"@, "?"@)),
        row("Exposure"@, get_or(f, "ExposureCompensation"@, "0"@)),
    ]
}

impl ExifData {
    fn get_or(&self, key: &str, d: &str) -> (r: Vec<char>)
        ensures
            r@ == get_or(field_views(self.fields@), key@, d@),
    {
        match self.get(key) {
            Some(v) => chars_of(v.as_str()),
            None => chars_of(d),
        }
    }

    fn dr(&self) -> (r: Option<u32>)
        ensures
            r == exif_dr(field_views(self.fields@)),
    {
        match self.get("DynamicRange") {
            Some(v) => dr_exif_to_value(v.as_str()),
            None => None,
        }
    }

    fn shifts(&self) -> (r: (i32, i32))
        ensures
            (r.0 as int, r.1 as int) == exif_shifts(field_views(self.fields@)),
    {
        match self.get("WhiteBalanceFineTune") {
            Some(s) => parse_wb_fine(s.as_str()),
            None => (0, 0),
        }
    }
}

fn shift_shown_chars(v: i32) -> (r: Vec<char>)
    ensures
        r@ == shift_shown(v as int),
{
    if v == 0 {
        chars_of("0")
    } else {
        let mut c: Vec<char> = Vec::new();
        push_dec_plus(&mut c, v as i64);
        c
    }
}

fn tone_chars(o: Option<i32>) -> (r: Vec<char>)
    ensures
        r@ == crate::recipes::tone_text(o),
{
    match o {
        Some(t) => if t == 0 {
            chars_of("0")
        } else {
            let mut v: Vec<char> = Vec::new();
            push_tenths_plus(&mut v, t);
            v
        },
        None => chars_of("0"),
    }
}

fn whole_chars(o: Option<i32>) -> (r: Vec<char>)
    ensures
        r@ == crate::recipes::whole_text(o),
{
    match o {
        Some(t) => if t == 0 {
            chars_of("0")
        } else {
            let w: i64 = if t >= 0 {
                (t / 10) as i64
            } else {
                0i64 - (0i64 - t as i64) / 10
            };
            let mut v: Vec<char> = Vec::new();
            push_dec_plus(&mut v, w);
            v
        },
        None => chars_of("0"),
    }
}

fn row_line(label: &str, value: Vec<char>) -> (r: String)
    ensures
        r@ == row(label@, value@),
{
    let mut v = chars_of("  ");
    push_pad_right(&mut v, &chars_of(label), 18);
    push_str(&mut v, " ");
    push_chars(&mut v, &value);
    string_of(&v)
}

/// The lines that show what a file was shot with (see `display_lines`).
pub fn display_settings_lines(exif: &ExifData) -> (r: Vec<String>)
    ensures
        string_views(r@) == display_lines(field_views(exif.fields@)),
{
    let film = exif.get_or("FilmMode", "unknown");
    let film_slug = chars_of(film_mode_to_slug(string_of(&film).as_str()));
    let dr = match exif.dr() {
        Some(d) => {
            let mut v = chars_of("DR");
            push_dec(&mut v, d as u64);
            v
        },
        None => chars_of("auto"),
    };
    let grain = exif.get_or("GrainEffectRoughness", "Off");
    let size = exif.get_or("GrainEffectSize", "Small");
    let grain_text = if eq_ignore_ascii_case_chars(&grain, &chars_of("off")) {
        chars_of("off")
    } else {
        let mut v = lowercase_chars(&grain);
        push_str(&mut v, " / ");
        push_chars(&mut v, &lowercase_chars(&size));
        v
    };
    let mut chrome = chars_of("chrome:");
    push_chars(&mut chrome, &lowercase_chars(&exif.get_or("ColorChromeEffect", "Off")));
    push_str(&mut chrome, "  blue:");
    push_chars(&mut chrome, &lowercase_chars(&exif.get_or("ColorChromeFXBlue", "Off")));
    let wb_name = exif.get_or("WhiteBalance", "Auto");
    let slug = chars_of(wb_exif_to_slug(string_of(&wb_name).as_str()));
    let mut wb = if chars_eq_str(&slug, "temperature") {
        let mut v = exif.get_or("ColorTemperature", "?");
        push_str(&mut v, "K");
        v
    } else {
        slug
    };
    let (sr, sb) = exif.shifts();
    push_str(&mut wb, "  R:");
    push_chars(&mut wb, &shift_shown_chars(sr));
    push_str(&mut wb, " B:");
    push_chars(&mut wb, &shift_shown_chars(sb));
    let mut tone = chars_of("highlight:");
    push_chars(&mut tone, &tone_chars(exif.get_num("HighlightTone")));
    push_str(&mut tone, "  shadow:");
    push_chars(&mut tone, &tone_chars(exif.get_num("ShadowTone")));
    let lines = vec![
        row_line("Film Simulation", film_slug),
        row_line("Dynamic Range", dr),
        row_line("Grain", grain_text),
        row_line("Color Effect", chrome),
        row_line("White Balance", wb),
        row_line("Tone", tone),
        row_line("Color", whole_chars(exif.get_num("Saturation"))),
        row_line("Sharpness", whole_chars(exif.get_num("Sharpness"))),
        row_line("NR", whole_chars(exif.get_num("NoiseReduction"))),
        row_line("Clarity", whole_chars(exif.get_num("Clarity"))),
        row_line("ISO", exif.get_or("ISO", "?")),
        row_line("Exposure", exif.get_or("ExposureCompensation", "0")),
    ];
    assert(string_views(lines@) =~= display_lines(field_views(exif.fields@)));
    lines
}


// ---------------------------------------------------------------------------
// How closely a recipe matches
// ---------------------------------------------------------------------------

/// Score and maximum, in half points.
pub struct MatchScore {
    pub score: u32,
    pub max_score: u32,
}

/// Score and maximum (half points) of one criterion.
pub type Points = (int, int);

/// A criterion worth `w` half points, met or not.
pub open spec fn points(w: int, met: bool) -> Points {
    (if met {
        w
    } else {
        0
    }, w)
}

/// Film simulation: 5 points.
pub open spec fn film_points(f: Seq<(Seq<char>, Seq<char>)>, r: RecipeModel) -> Points {
    let film = match exif_get(f, "FilmMode"@) {
        Some(v) => film_mode_slug(v),
        None => ""@,
    };
    points(10, film == r.film_sim)
}

/// A file whose EXIF film mode is film simulation `g` earns the film points
/// against a recipe of film simulation `h` exactly when they are the same.
pub proof fn law_film_points_match_film(
    f: Seq<(Seq<char>, Seq<char>)>,
    r: RecipeModel,
    g: FilmSimulation,
    h: FilmSimulation,
)
    requires
        exif_get(f, "FilmMode"@) == Some(exif_film_name(g)),
        r.film_sim == film_slug(h),
    ensures
        film_points(f, r) == points(10, g == h),
{
    law_film_mode_slug_names_film(g);
    law_slug_names_film(film_slug(g), g);
    law_slug_names_film(film_slug(h), h);
}

/// Dynamic range, when both have one: 2 points.
pub open spec fn dr_points(f: Seq<(Seq<char>, Seq<char>)>, r: RecipeModel) -> Points {
    match (exif_dr(f), r.dynamic_range) {
        (Some(a), Some(b)) => points(4, a == b),
        _ => (0, 0),
    }
}

/// A numeric setting, when both have it: 1 point when equal, half a point
/// when at most 1 apart.
pub open spec fn num_points(f: Seq<(Seq<char>, Seq<char>)>, tag: Seq<char>, rec: Option<i32>) -> Points {
    match (exif_num(f, tag), rec) {
        (Some(e), Some(t)) => {
            let d = if e >= t {
                e - t
            } else {
                t - e
            };
            (if d == 0 {
                2
            } else if d <= 10 {
                1
            } else {
                0
            }, 2)
        },
        _ => (0, 0),
    }
}

/// Grain roughness as compared: lower case, `off` when absent.
pub open spec fn exif_grain(f: Seq<(Seq<char>, Seq<char>)>) -> Seq<char> {
    unicode_lowercase(get_or(f, "GrainEffectRoughness"@, "Off"@))
}

/// Recipe grain as compared.
pub open spec fn recipe_grain(r: RecipeModel) -> Seq<char> {
    unicode_lowercase(crate::recipes::or_text(r.grain, "off"@))
}

/// Grain: 1 point; and when both have grain, its size: half a point.
pub open spec fn grain_points(f: Seq<(Seq<char>, Seq<char>)>, r: RecipeModel) -> Points {
    let eg = exif_grain(f);
    let rg = recipe_grain(r);
    let p = points(2, eg == rg);
    if eg != "off"@ && rg != "off"@ {
        let es = unicode_lowercase(get_or(f, "GrainEffectSize"@, "Small"@));
        let rs = unicode_lowercase(crate::recipes::or_text(r.grain_size, "small"@));
        (p.0 + if es == rs {
            1int
        } else {
            0
        }, p.1 + 1)
    } else {
        p
    }
}

/// A chrome effect: 1 point.
pub open spec fn chrome_points(f: Seq<(Seq<char>, Seq<char>)>, tag: Seq<char>, rec: Option<Seq<char>>) -> Points {
    points(
        2,
        eq_ignore_ascii_case(
            chrome_slug(get_or(f, tag, "Off"@)),
            crate::recipes::or_text(rec, "off"@),
        ),
    )
}

/// White balance mode of the file as compared.
pub open spec fn exif_wb(f: Seq<(Seq<char>, Seq<char>)>) -> Seq<char> {
    match exif_get(f, "WhiteBalance"@) {
        Some(v) => wb_slug(v),
        None => "auto"@,
    }
}

/// A `u32` read as the `i32` with the same bits.
pub open spec fn wrap_i32(x: u32) -> int {
    if x > i32::MAX {
        x - 0x1_0000_0000
    } else {
        x as int
    }
}

/// The two colour temperatures compared, when both white balances are
/// Kelvin and both temperatures are known.
pub open spec fn temps(f: Seq<(Seq<char>, Seq<char>)>, r: RecipeModel) -> Option<(u32, u32)> {
    if exif_wb(f) == "temperature"@ && crate::recipes::or_text(r.white_balance, "auto"@)
        == "temperature"@ {
        match (
            match exif_get(f, "ColorTemperature"@) {
                Some(v) => parse_u32_spec(v),
                None => None,
            },
            r.wb_temp,
        ) {
            (Some(a), Some(b)) => Some((a, b)),
            _ => None,
        }
    } else {
        None
    }
}

/// White balance: 2 points; with both in Kelvin, the temperature: 1 point
/// within 100 K, half a point within 500 K.
pub open spec fn wb_points(f: Seq<(Seq<char>, Seq<char>)>, r: RecipeModel) -> Points {
    let p = points(4, exif_wb(f) == crate::recipes::or_text(r.white_balance, "auto"@));
    match temps(f, r) {
        Some((a, b)) => {
            let d = wrap_i32(a) - wrap_i32(b);
            let ad = if d >= 0 {
                d
            } else {
                -d
            };
            (p.0 + if ad <= 100 {
                2int
            } else if ad <= 500 {
                1
            } else {
                0
            }, p.1 + 2)
        },
        None => p,
    }
}

/// White-balance shifts the recipe sets: half a point each.
pub open spec fn shift_points(f: Seq<(Seq<char>, Seq<char>)>, r: RecipeModel) -> Points {
    let s = exif_shifts(f);
    let pr: Points = match r.wb_shift_r {
        Some(t) => points(1, s.0 == whole_of_tenths(t as int)),
        None => (0, 0),
    };
    let pb: Points = match r.wb_shift_b {
        Some(t) => points(1, s.1 == whole_of_tenths(t as int)),
        None => (0, 0),
    };
    (pr.0 + pb.0, pr.1 + pb.1)
}

/// Sum of points.
pub open spec fn add_points(a: Points, b: Points) -> Points {
    (a.0 + b.0, a.1 + b.1)
}

/// How closely a recipe matches the file, in half points: film simulation,
/// dynamic range, the six numeric settings, grain, the chrome effects, white
/// balance and its shifts.
pub open spec fn match_points(f: Seq<(Seq<char>, Seq<char>)>, r: RecipeModel) -> Points {
    let a = add_points(film_points(f, r), dr_points(f, r));
    let b = add_points(
        add_points(
            add_points(num_points(f, "HighlightTone"@, r.highlight), num_points(f, "ShadowTone"@, r.shadow)),
            add_points(num_points(f, "Saturation"@, r.color), num_points(f, "Sharpness"@, r.sharpness)),
        ),
        add_points(num_points(f, "NoiseReduction"@, r.noise_reduction), num_points(f, "Clarity"@, r.clarity)),
    );
    let c = add_points(
        add_points(grain_points(f, r), chrome_points(f, "ColorChromeEffect"@, r.chrome_effect)),
        chrome_points(f, "ColorChromeFXBlue"@, r.chrome_blue),
    );
    add_points(add_points(a, b), add_points(c, add_points(wb_points(f, r), shift_points(f, r))))
}

/// Whether comparing the temperatures stays within `i32` (the difference of
/// the two, each read as an `i32`, overflows otherwise and the comparison
/// panics).
pub open spec fn temps_comparable(f: Seq<(Seq<char>, Seq<char>)>, r: RecipeModel) -> bool {
    temps(f, r) matches Some((a, b)) ==> i32::MIN <= wrap_i32(a) - wrap_i32(b) <= i32::MAX
}

fn num_points_exec(exif: &ExifData, tag: &str, rec: Option<i32>) -> (r: (u32, u32))
    ensures
        (r.0 as int, r.1 as int) == num_points(field_views(exif.fields@), tag@, rec),
{
    match (exif.get_num(tag), rec) {
        (Some(e), Some(t)) => {
            let d: i64 = if e >= t {
                e as i64 - t as i64
            } else {
                t as i64 - e as i64
            };
            (if d == 0 {
                2
            } else if d <= 10 {
                1
            } else {
                0
            }, 2)
        },
        _ => (0, 0),
    }
}

fn or_chars(o: &Option<String>, d: &str) -> (r: Vec<char>)
    ensures
        r@ == crate::recipes::or_text(opt_chars(*o), d@),
{
    match o {
        Some(s) => chars_of(s.as_str()),
        None => chars_of(d),
    }
}

fn grain_points_exec(exif: &ExifData, r: &Recipe) -> (p: (u32, u32))
    ensures
        (p.0 as int, p.1 as int) == grain_points(field_views(exif.fields@), r@),
{
    let eg = lowercase_chars(&exif.get_or("GrainEffectRoughness", "Off"));
    let rg = lowercase_chars(&or_chars(&r.grain, "off"));
    let mut score: u32 = if chars_eq(&eg, &rg) {
        2
    } else {
        0
    };
    let mut max: u32 = 2;
    if !chars_eq_str(&eg, "off") && !chars_eq_str(&rg, "off") {
        let es = lowercase_chars(&exif.get_or("GrainEffectSize", "Small"));
        let rs = lowercase_chars(&or_chars(&r.grain_size, "small"));
        if chars_eq(&es, &rs) {
            score = score + 1;
        }
        max = max + 1;
    }
    (score, max)
}

fn chrome_points_exec(exif: &ExifData, tag: &str, rec: &Option<String>) -> (p: (u32, u32))
    ensures
        (p.0 as int, p.1 as int) == chrome_points(field_views(exif.fields@), tag@, opt_chars(*rec)),
{
    let e = exif.get_or(tag, "Off");
    let slug = chars_of(chrome_exif_to_slug(string_of(&e).as_str()));
    (if eq_ignore_ascii_case_chars(&slug, &or_chars(rec, "off")) {
        2
    } else {
        0
    }, 2)
}

/// Whether a recipe's colour temperature can be compared with the file's
/// (see `temps_comparable`); scoring a recipe needs it.
pub fn temperatures_comparable(exif: &ExifData, r: &Recipe) -> (b: bool)
    ensures
        b == temps_comparable(field_views(exif.fields@), r@),
{
    let ew = match exif.get("WhiteBalance") {
        Some(v) => chars_of(wb_exif_to_slug(v.as_str())),
        None => chars_of("auto"),
    };
    let rw = or_chars(&r.white_balance, "auto");
    if !(chars_eq_str(&ew, "temperature") && chars_eq_str(&rw, "temperature")) {
        return true;
    }
    let et = match exif.get("ColorTemperature") {
        Some(v) => parse_u32_chars(&chars_of(v.as_str())),
        None => None,
    };
    match (et, r.wb_temp) {
        (Some(a), Some(b)) => {
            let wa: i64 = if a > 0x7FFF_FFFF {
                a as i64 - 0x1_0000_0000
            } else {
                a as i64
            };
            let wb: i64 = if b > 0x7FFF_FFFF {
                b as i64 - 0x1_0000_0000
            } else {
                b as i64
            };
            let d = wa - wb;
            -0x8000_0000 <= d && d <= 0x7FFF_FFFF
        },
        _ => true,
    }
}

fn wb_points_exec(exif: &ExifData, r: &Recipe) -> (p: (u32, u32))
    requires
        temps_comparable(field_views(exif.fields@), r@),
    ensures
        (p.0 as int, p.1 as int) == wb_points(field_views(exif.fields@), r@),
{
    let ew = match exif.get("WhiteBalance") {
        Some(v) => chars_of(wb_exif_to_slug(v.as_str())),
        None => chars_of("auto"),
    };
    let rw = or_chars(&r.white_balance, "auto");
    let mut score: u32 = if chars_eq(&ew, &rw) {
        4
    } else {
        0
    };
    let mut max: u32 = 4;
    if chars_eq_str(&ew, "temperature") && chars_eq_str(&rw, "temperature") {
        let et = match exif.get("ColorTemperature") {
            Some(v) => parse_u32_chars(&chars_of(v.as_str())),
            None => None,
        };
        if let (Some(a), Some(b)) = (et, r.wb_temp) {
            let wa: i64 = if a > 0x7FFF_FFFF {
                a as i64 - 0x1_0000_0000
            } else {
                a as i64
            };
            let wb: i64 = if b > 0x7FFF_FFFF {
                b as i64 - 0x1_0000_0000
            } else {
                b as i64
            };
            let d = wa - wb;
            let ad = if d >= 0 {
                d
            } else {
                0 - d
            };
            if ad <= 100 {
                score = score + 2;
            } else if ad <= 500 {
                score = score + 1;
            }
            max = max + 2;
        }
    }
    (score, max)
}

fn shift_points_exec(exif: &ExifData, r: &Recipe) -> (p: (u32, u32))
    ensures
        (p.0 as int, p.1 as int) == shift_points(field_views(exif.fields@), r@),
{
    let (er, eb) = exif.shifts();
    let mut score: u32 = 0;
    let mut max: u32 = 0;
    if let Some(t) = r.wb_shift_r {
        let w: i64 = if t >= 0 {
            (t / 10) as i64
        } else {
            0i64 - (0i64 - t as i64) / 10
        };
        if er as i64 == w {
            score = score + 1;
        }
        max = max + 1;
    }
    if let Some(t) = r.wb_shift_b {
        let w: i64 = if t >= 0 {
            (t / 10) as i64
        } else {
            0i64 - (0i64 - t as i64) / 10
        };
        if eb as i64 == w {
            score = score + 1;
        }
        max = max + 1;
    }
    (score, max)
}

fn film_points_exec(exif: &ExifData, r: &Recipe) -> (p: (u32, u32))
    ensures
        (p.0 as int, p.1 as int) == film_points(field_views(exif.fields@), r@),
{
    let film = match exif.get("FilmMode") {
        Some(v) => chars_of(film_mode_to_slug(v.as_str())),
        None => Vec::new(),
    };
    proof {
        assert(Seq::<char>::empty() == ""@) by {
            reveal_strlit("");
        }
    }
    (if chars_eq(&film, &chars_of(r.film_sim.as_str())) {
        10
    } else {
        0
    }, 10)
}

fn dr_points_exec(exif: &ExifData, r: &Recipe) -> (p: (u32, u32))
    ensures
        (p.0 as int, p.1 as int) == dr_points(field_views(exif.fields@), r@),
{
    match (exif.dr(), r.dynamic_range) {
        (Some(a), Some(b)) => (if a == b {
            4
        } else {
            0
        }, 4),
        _ => (0, 0),
    }
}

/// How closely a recipe matches a file's EXIF settings (see `match_points`).
#[verifier::rlimit(30)]
pub fn score_recipe(exif: &ExifData, r: &Recipe) -> (m: MatchScore)
    requires
        temps_comparable(field_views(exif.fields@), r@),
    ensures
        (m.score as int, m.max_score as int) == match_points(field_views(exif.fields@), r@),
        m.score <= m.max_score,
{
    let ghost f = field_views(exif.fields@);
    let pf = film_points_exec(exif, r);
    let pd = dr_points_exec(exif, r);
    let n1 = num_points_exec(exif, "HighlightTone", r.highlight);
    let n2 = num_points_exec(exif, "ShadowTone", r.shadow);
    let n3 = num_points_exec(exif, "Saturation", r.color);
    let n4 = num_points_exec(exif, "Sharpness", r.sharpness);
    let n5 = num_points_exec(exif, "NoiseReduction", r.noise_reduction);
    let n6 = num_points_exec(exif, "Clarity", r.clarity);
    let pg = grain_points_exec(exif, r);
    let c1 = chrome_points_exec(exif, "ColorChromeEffect", &r.chrome_effect);
    let c2 = chrome_points_exec(exif, "ColorChromeFXBlue", &r.chrome_blue);
    let pw = wb_points_exec(exif, r);
    let ps = shift_points_exec(exif, r);
    assert(pf.0 <= pf.1 <= 10 && pd.0 <= pd.1 <= 4 && n1.0 <= n1.1 <= 2 && n2.0 <= n2.1 <= 2);
    assert(n3.0 <= n3.1 <= 2 && n4.0 <= n4.1 <= 2 && n5.0 <= n5.1 <= 2 && n6.0 <= n6.1 <= 2);
    assert(pg.0 <= pg.1 <= 3 && c1.0 <= c1.1 <= 2 && c2.0 <= c2.1 <= 2 && pw.0 <= pw.1 <= 6 && ps.0 <= ps.1 <= 2);
    let score = pf.0 + pd.0 + n1.0 + n2.0 + n3.0 + n4.0 + n5.0 + n6.0 + pg.0 + c1.0 + c2.0 + pw.0
        + ps.0;
    let max = pf.1 + pd.1 + n1.1 + n2.1 + n3.1 + n4.1 + n5.1 + n6.1 + pg.1 + c1.1 + c2.1 + pw.1
        + ps.1;
    MatchScore { score, max_score: max }
}

// ---------------------------------------------------------------------------
// Ranking recipes
// ---------------------------------------------------------------------------

/// Order of the ranking: higher score first, and among equal scores the
/// recipe listed first.
pub open spec fn ranked_before(a: (usize, u32, u32), b: (usize, u32, u32)) -> bool {
    a.1 > b.1 || (a.1 == b.1 && a.0 < b.0)
}

/// Whether some entry of the ranking is recipe `idx`.
pub open spec fn ranks(r: Seq<(usize, u32, u32)>, idx: int) -> bool {
    exists|k: int| 0 <= k < r.len() && #[trigger] r[k].0 == idx
}

/// Ranks all recipes by how closely they match: each recipe's index with its
/// score and maximum, best first, ties in catalogue order.
#[verifier::rlimit(30)]
pub fn rank_recipes(exif: &ExifData, recipes: &[Recipe]) -> (r: Vec<(usize, u32, u32)>)
    requires
        forall|i: int| 0 <= i < recipes@.len() ==> temps_comparable(field_views(exif.fields@), #[trigger] recipes@[i]@),
    ensures
        r@.len() == recipes@.len(),
        forall|k: int|
            0 <= k < r@.len() ==> (#[trigger] r@[k]).0 < recipes@.len() && (r@[k].1 as int, r@[k].2 as int)
                == match_points(field_views(exif.fields@), recipes@[r@[k].0 as int]@),
        forall|i: int, j: int| 0 <= i < j < r@.len() ==> ranked_before(#[trigger] r@[i], #[trigger] r@[j]),
        forall|idx: int| 0 <= idx < recipes@.len() ==> #[trigger] ranks(r@, idx),
{
    let ghost f = field_views(exif.fields@);
    let mut v: Vec<(usize, u32, u32)> = Vec::new();
    let mut i: usize = 0;
    while i < recipes.len()
        invariant
            i <= recipes.len(),
            v@.len() == i,
            forall|q: int| 0 <= q < recipes@.len() ==> temps_comparable(f, #[trigger] recipes@[q]@),
            f == field_views(exif.fields@),
            forall|k: int|
                0 <= k < v@.len() ==> (#[trigger] v@[k]).0 < i && (v@[k].1 as int, v@[k].2 as int)
                    == match_points(f, recipes@[v@[k].0 as int]@),
            forall|a: int, b: int| 0 <= a < b < v@.len() ==> ranked_before(#[trigger] v@[a], #[trigger] v@[b]),
            forall|idx: int| 0 <= idx < i ==> #[trigger] ranks(v@, idx),
        decreases recipes.len() - i,
    {
        let m = score_recipe(exif, &recipes[i]);
        let x = (i, m.score, m.max_score);
        let mut p: usize = 0;
        while p < v.len() && v[p].1 >= m.score
            invariant
                p <= v@.len(),
                forall|k: int| 0 <= k < p ==> (#[trigger] v@[k]).1 >= m.score,
            decreases v.len() - p,
        {
            p += 1;
        }
        let ghost old_v = v@;
        proof {
            assert forall|k: int| p <= k < old_v.len() implies (#[trigger] old_v[k]).1 < m.score by {
                if k > p {
                    assert(ranked_before(old_v[p as int], old_v[k]));
                }
            }
        }
        v.insert(p, x);
        assert(v@ == old_v.insert(p as int, x));
        assert forall|a: int, b: int| 0 <= a < b < v@.len() implies ranked_before(#[trigger] v@[a], #[trigger] v@[b]) by {
            if a < p && b < p {
                assert(v@[a] == old_v[a] && v@[b] == old_v[b]);
            } else if a < p && b == p {
                assert(v@[a] == old_v[a]);
            } else if a < p && b > p {
                assert(v@[a] == old_v[a] && v@[b] == old_v[b - 1]);
            } else if a == p {
                assert(v@[b] == old_v[b - 1]);
            } else {
                assert(v@[a] == old_v[a - 1] && v@[b] == old_v[b - 1]);
            }
        }
        assert forall|k: int|
            0 <= k < v@.len() implies (#[trigger] v@[k]).0 < i + 1 && (v@[k].1 as int, v@[k].2 as int)
                == match_points(f, recipes@[v@[k].0 as int]@) by {
            if k < p {
                assert(v@[k] == old_v[k]);
            } else if k > p {
                assert(v@[k] == old_v[k - 1]);
            }
        }
        assert forall|idx: int| 0 <= idx < i + 1 implies #[trigger] ranks(v@, idx) by {
            if idx == i {
                assert(v@[p as int].0 == idx);
            } else {
                assert(ranks(old_v, idx));
                let k0 = choose|k: int| 0 <= k < old_v.len() && #[trigger] old_v[k].0 == idx;
                if k0 < p {
                    assert(v@[k0].0 == idx);
                } else {
                    assert(v@[k0 + 1].0 == idx);
                }
            }
        }
        i += 1;
    }
    v
}

} // verus!
