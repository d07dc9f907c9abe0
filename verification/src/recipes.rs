//! Film simulation recipes: the recipe record, its conversion to profile
//! settings, lookup by slug or name, and the lines that list and show recipes.
//!
//! Decimal recipe values (tones, colour, sharpness, noise reduction, clarity
//! and white-balance shifts) are held in tenths.
use vstd::prelude::*;

use crate::profile::{
    push_tenths_plus, tenths_plus, ChromeLevel, FilmSimulation, GrainEffect, GrainSize,
    RecipeSettings, SettingsModel, opt_chars, clone_opt_string,
};
use crate::text::{
    chars_eq, chars_eq_str, chars_of, contains_chars, contains_seq, dec, dec_plus, lowercase_chars,
    pad_right, push_chars, push_dec, push_dec_plus, push_pad_right, push_repeat, push_str, repeat,
    string_of, string_views, unicode_lowercase, utf8_len, all_ascii, ascii_lowercase,
};

verus! {

/// A film simulation recipe.
pub struct Recipe {
    pub name: String,
    pub slug: String,
    pub film_sim: String,
    /// Highlight tone in tenths.
    pub highlight: Option<i32>,
    /// Shadow tone in tenths.
    pub shadow: Option<i32>,
    /// Colour in tenths.
    pub color: Option<i32>,
    /// Noise reduction in tenths.
    pub noise_reduction: Option<i32>,
    /// Sharpness in tenths.
    pub sharpness: Option<i32>,
    /// Clarity in tenths.
    pub clarity: Option<i32>,
    pub grain: Option<String>,
    pub grain_size: Option<String>,
    pub chrome_effect: Option<String>,
    pub chrome_blue: Option<String>,
    pub dynamic_range: Option<u32>,
    pub white_balance: Option<String>,
    pub wb_temp: Option<u32>,
    /// Red white-balance shift in tenths.
    pub wb_shift_r: Option<i32>,
    /// Blue white-balance shift in tenths.
    pub wb_shift_b: Option<i32>,
    pub iso: Option<String>,
    pub exposure_comp: Option<String>,
}

/// Model of a recipe: strings as characters.
pub struct RecipeModel {
    pub name: Seq<char>,
    pub slug: Seq<char>,
    pub film_sim: Seq<char>,
    pub highlight: Option<i32>,
    pub shadow: Option<i32>,
    pub color: Option<i32>,
    pub noise_reduction: Option<i32>,
    pub sharpness: Option<i32>,
    pub clarity: Option<i32>,
    pub grain: Option<Seq<char>>,
    pub grain_size: Option<Seq<char>>,
    pub chrome_effect: Option<Seq<char>>,
    pub chrome_blue: Option<Seq<char>>,
    pub dynamic_range: Option<u32>,
    pub white_balance: Option<Seq<char>>,
    pub wb_temp: Option<u32>,
    pub wb_shift_r: Option<i32>,
    pub wb_shift_b: Option<i32>,
    pub iso: Option<Seq<char>>,
    pub exposure_comp: Option<Seq<char>>,
}

impl View for Recipe {
    type V = RecipeModel;

    open spec fn view(&self) -> RecipeModel {
        RecipeModel {
            name: self.name@,
            slug: self.slug@,
            film_sim: self.film_sim@,
            highlight: self.highlight,
            shadow: self.shadow,
            color: self.color,
            noise_reduction: self.noise_reduction,
            sharpness: self.sharpness,
            clarity: self.clarity,
            grain: opt_chars(self.grain),
            grain_size: opt_chars(self.grain_size),
            chrome_effect: opt_chars(self.chrome_effect),
            chrome_blue: opt_chars(self.chrome_blue),
            dynamic_range: self.dynamic_range,
            white_balance: opt_chars(self.white_balance),
            wb_temp: self.wb_temp,
            wb_shift_r: self.wb_shift_r,
            wb_shift_b: self.wb_shift_b,
            iso: opt_chars(self.iso),
            exposure_comp: opt_chars(self.exposure_comp),
        }
    }
}

/// The models of a list of recipes.
pub open spec fn recipe_views(rs: Seq<Recipe>) -> Seq<RecipeModel> {
    rs.map_values(|r: Recipe| r@)
}

// ---------------------------------------------------------------------------
// Slugs
// ---------------------------------------------------------------------------

/// Film simulation named by a slug (`classic-chrome`, `acros-ye`, ...).
pub open spec fn film_of_slug(s: Seq<char>) -> Option<FilmSimulation> {
    if s == "provia"@ {
        Some(FilmSimulation::Provia)
    } else if s == "velvia"@ {
        Some(FilmSimulation::Velvia)
    } else if s == "astia"@ {
        Some(FilmSimulation::Astia)
    } else if s == "classic-chrome"@ {
        Some(FilmSimulation::ClassicChrome)
    } else if s == "classic-neg"@ {
        Some(FilmSimulation::ClassicNeg)
    } else if s == "pro-neg-hi"@ {
        Some(FilmSimulation::ProNegHi)
    } else if s == "pro-neg-std"@ {
        Some(FilmSimulation::ProNegStd)
    } else if s == "eterna"@ {
        Some(FilmSimulation::Eterna)
    } else if s == "eterna-bleach-bypass"@ {
        Some(FilmSimulation::EternaBleachBypass)
    } else if s == "acros"@ {
        Some(FilmSimulation::Acros)
    } else if s == "acros-ye"@ {
        Some(FilmSimulation::AcrosYe)
    } else if s == "acros-r"@ {
        Some(FilmSimulation::AcrosR)
    } else if s == "acros-g"@ {
        Some(FilmSimulation::AcrosG)
    } else if s == "monochrome"@ {
        Some(FilmSimulation::Monochrome)
    } else if s == "monochrome-ye"@ {
        Some(FilmSimulation::MonochromeYe)
    } else if s == "monochrome-r"@ {
        Some(FilmSimulation::MonochromeR)
    } else if s == "monochrome-g"@ {
        Some(FilmSimulation::MonochromeG)
    } else if s == "sepia"@ {
        Some(FilmSimulation::Sepia)
    } else if s == "nostalgic-neg"@ {
        Some(FilmSimulation::NostalgicNeg)
    } else if s == "reala-ace"@ {
        Some(FilmSimulation::RealaAce)
    } else {
        None
    }
}

/// Film simulation named by a slug.
pub fn film_from_slug(s: &Vec<char>) -> (r: Option<FilmSimulation>)
    ensures
        r == film_of_slug(s@),
{
    if chars_eq_str(s, "provia") {
        Some(FilmSimulation::Provia)
    } else if chars_eq_str(s, "velvia") {
        Some(FilmSimulation::Velvia)
    } else if chars_eq_str(s, "astia") {
        Some(FilmSimulation::Astia)
    } else if chars_eq_str(s, "classic-chrome") {
        Some(FilmSimulation::ClassicChrome)
    } else if chars_eq_str(s, "classic-neg") {
        Some(FilmSimulation::ClassicNeg)
    } else if chars_eq_str(s, "pro-neg-hi") {
        Some(FilmSimulation::ProNegHi)
    } else if chars_eq_str(s, "pro-neg-std") {
        Some(FilmSimulation::ProNegStd)
    } else if chars_eq_str(s, "eterna") {
        Some(FilmSimulation::Eterna)
    } else if chars_eq_str(s, "eterna-bleach-bypass") {
        Some(FilmSimulation::EternaBleachBypass)
    } else if chars_eq_str(s, "acros") {
        Some(FilmSimulation::Acros)
    } else if chars_eq_str(s, "acros-ye") {
        Some(FilmSimulation::AcrosYe)
    } else if chars_eq_str(s, "acros-r") {
        Some(FilmSimulation::AcrosR)
    } else if chars_eq_str(s, "acros-g") {
        Some(FilmSimulation::AcrosG)
    } else if chars_eq_str(s, "monochrome") {
        Some(FilmSimulation::Monochrome)
    } else if chars_eq_str(s, "monochrome-ye") {
        Some(FilmSimulation::MonochromeYe)
    } else if chars_eq_str(s, "monochrome-r") {
        Some(FilmSimulation::MonochromeR)
    } else if chars_eq_str(s, "monochrome-g") {
        Some(FilmSimulation::MonochromeG)
    } else if chars_eq_str(s, "sepia") {
        Some(FilmSimulation::Sepia)
    } else if chars_eq_str(s, "nostalgic-neg") {
        Some(FilmSimulation::NostalgicNeg)
    } else if chars_eq_str(s, "reala-ace") {
        Some(FilmSimulation::RealaAce)
    } else {
        None
    }
}

/// The kebab-case name of a film simulation, as recipes write it.
pub open spec fn film_slug(f: FilmSimulation) -> Seq<char> {
    match f {
        FilmSimulation::Provia => "provia"@,
        FilmSimulation::Velvia => "velvia"@,
        FilmSimulation::Astia => "astia"@,
        FilmSimulation::ClassicChrome => "classic-chrome"@,
        FilmSimulation::ClassicNeg => "classic-neg"@,
        FilmSimulation::ProNegHi => "pro-neg-hi"@,
        FilmSimulation::ProNegStd => "pro-neg-std"@,
        FilmSimulation::Eterna => "eterna"@,
        FilmSimulation::EternaBleachBypass => "eterna-bleach-bypass"@,
        FilmSimulation::Acros => "acros"@,
        FilmSimulation::AcrosYe => "acros-ye"@,
        FilmSimulation::AcrosR => "acros-r"@,
        FilmSimulation::AcrosG => "acros-g"@,
        FilmSimulation::Monochrome => "monochrome"@,
        FilmSimulation::MonochromeYe => "monochrome-ye"@,
        FilmSimulation::MonochromeR => "monochrome-r"@,
        FilmSimulation::MonochromeG => "monochrome-g"@,
        FilmSimulation::Sepia => "sepia"@,
        FilmSimulation::NostalgicNeg => "nostalgic-neg"@,
        FilmSimulation::RealaAce => "reala-ace"@,
    }
}

/// Reading a slug is the inverse of naming a film simulation: a slug names
/// `f` exactly when it is `f`'s kebab-case name, so every film simulation is
/// read back from its own name and no two share one.
pub proof fn law_slug_names_film(s: Seq<char>, f: FilmSimulation)
    ensures
        film_of_slug(film_slug(f)) == Some(f),
        film_of_slug(s) == Some(f) <==> s == film_slug(f),
{
    reveal_strlit("provia");
    assert("provia"@.len() == 6 && "provia"@[0] == 'p');
    reveal_strlit("velvia");
    assert("velvia"@.len() == 6 && "velvia"@[0] == 'v');
    reveal_strlit("astia");
    assert("astia"@.len() == 5 && "astia"@[0] == 'a' && "astia"@[1] == 's');
    reveal_strlit("classic-chrome");
    assert("classic-chrome"@.len() == 14 && "classic-chrome"@[0] == 'c');
    reveal_strlit("classic-neg");
    assert("classic-neg"@.len() == 11 && "classic-neg"@[0] == 'c');
    reveal_strlit("pro-neg-hi");
    assert("pro-neg-hi"@.len() == 10 && "pro-neg-hi"@[0] == 'p');
    reveal_strlit("pro-neg-std");
    assert("pro-neg-std"@.len() == 11 && "pro-neg-std"@[0] == 'p');
    reveal_strlit("eterna");
    assert("eterna"@.len() == 6 && "eterna"@[0] == 'e');
    reveal_strlit("eterna-bleach-bypass");
    assert("eterna-bleach-bypass"@.len() == 20 && "eterna-bleach-bypass"@[0] == 'e');
    reveal_strlit("acros");
    assert("acros"@.len() == 5 && "acros"@[0] == 'a' && "acros"@[1] == 'c');
    reveal_strlit("acros-ye");
    assert("acros-ye"@.len() == 8 && "acros-ye"@[0] == 'a');
    reveal_strlit("acros-r");
    assert("acros-r"@.len() == 7 && "acros-r"@[0] == 'a' && "acros-r"@[6] == 'r');
    reveal_strlit("acros-g");
    assert("acros-g"@.len() == 7 && "acros-g"@[0] == 'a' && "acros-g"@[6] == 'g');
    reveal_strlit("monochrome");
    assert("monochrome"@.len() == 10 && "monochrome"@[0] == 'm');
    reveal_strlit("monochrome-ye");
    assert("monochrome-ye"@.len() == 13 && "monochrome-ye"@[0] == 'm');
    reveal_strlit("monochrome-r");
    assert("monochrome-r"@.len() == 12 && "monochrome-r"@[0] == 'm' && "monochrome-r"@[11] == 'r');
    reveal_strlit("monochrome-g");
    assert("monochrome-g"@.len() == 12 && "monochrome-g"@[0] == 'm' && "monochrome-g"@[11] == 'g');
    reveal_strlit("sepia");
    assert("sepia"@.len() == 5 && "sepia"@[0] == 's');
    reveal_strlit("nostalgic-neg");
    assert("nostalgic-neg"@.len() == 13 && "nostalgic-neg"@[0] == 'n');
    reveal_strlit("reala-ace");
    assert("reala-ace"@.len() == 9 && "reala-ace"@[0] == 'r');
}

/// A recipe that names a film simulation by its slug develops with that film
/// simulation.
pub proof fn law_recipe_film_sim(r: RecipeModel, f: FilmSimulation)
    requires
        r.film_sim == film_slug(f),
    ensures
        recipe_settings(r).film_sim == Some(f),
{
    law_slug_names_film(r.film_sim, f);
}

/// Grain level named in a recipe (`weak` or `strong`).
pub open spec fn grain_of_slug(s: Option<Seq<char>>) -> Option<GrainEffect> {
    if s == Some("weak"@) {
        Some(GrainEffect::Weak)
    } else if s == Some("strong"@) {
        Some(GrainEffect::Strong)
    } else {
        None
    }
}

/// Grain size named in a recipe (`small` or `large`).
pub open spec fn grain_size_of_slug(s: Option<Seq<char>>) -> Option<GrainSize> {
    if s == Some("small"@) {
        Some(GrainSize::Small)
    } else if s == Some("large"@) {
        Some(GrainSize::Large)
    } else {
        None
    }
}

/// Chrome level named in a recipe (`off`, `weak` or `strong`).
pub open spec fn chrome_of_slug(s: Option<Seq<char>>) -> Option<ChromeLevel> {
    if s == Some("off"@) {
        Some(ChromeLevel::Off)
    } else if s == Some("weak"@) {
        Some(ChromeLevel::Weak)
    } else if s == Some("strong"@) {
        Some(ChromeLevel::Strong)
    } else {
        None
    }
}

/// The word a recipe writes for a chrome level.
pub open spec fn chrome_level_slug(c: ChromeLevel) -> Seq<char> {
    match c {
        ChromeLevel::Off => "off"@,
        ChromeLevel::Weak => "weak"@,
        ChromeLevel::Strong => "strong"@,
    }
}

/// The word a recipe writes for a grain size.
pub open spec fn grain_size_slug(z: GrainSize) -> Seq<char> {
    match z {
        GrainSize::Small => "small"@,
        GrainSize::Large => "large"@,
    }
}

/// Recipe words for grain and chrome read back as what they name: a chrome
/// level and a grain size from their own words, weak and strong grain from
/// `weak` and `strong`, and a missing word as nothing.
pub proof fn law_level_words(c: ChromeLevel, z: GrainSize)
    ensures
        chrome_of_slug(Some(chrome_level_slug(c))) == Some(c),
        grain_size_of_slug(Some(grain_size_slug(z))) == Some(z),
        grain_of_slug(Some("weak"@)) == Some(GrainEffect::Weak),
        grain_of_slug(Some("strong"@)) == Some(GrainEffect::Strong),
        chrome_of_slug(None) == None::<ChromeLevel>,
        grain_of_slug(None) == None::<GrainEffect>,
        grain_size_of_slug(None) == None::<GrainSize>,
{
    reveal_strlit("off");
    reveal_strlit("weak");
    reveal_strlit("strong");
    reveal_strlit("small");
    reveal_strlit("large");
    assert("off"@.len() == 3 && "weak"@.len() == 4 && "strong"@.len() == 6);
    assert("small"@[0] == 's' && "large"@[0] == 'l');
}

fn opt_eq(o: &Option<String>, s: &str) -> (r: bool)
    ensures
        r == (opt_chars(*o) == Some(s@)),
{
    match o {
        Some(v) => chars_eq_str(&chars_of(v.as_str()), s),
        None => false,
    }
}

fn grain_from(o: &Option<String>) -> (r: Option<GrainEffect>)
    ensures
        r == grain_of_slug(opt_chars(*o)),
{
    if opt_eq(o, "weak") {
        Some(GrainEffect::Weak)
    } else if opt_eq(o, "strong") {
        Some(GrainEffect::Strong)
    } else {
        None
    }
}

fn grain_size_from(o: &Option<String>) -> (r: Option<GrainSize>)
    ensures
        r == grain_size_of_slug(opt_chars(*o)),
{
    if opt_eq(o, "small") {
        Some(GrainSize::Small)
    } else if opt_eq(o, "large") {
        Some(GrainSize::Large)
    } else {
        None
    }
}

fn chrome_from(o: &Option<String>) -> (r: Option<ChromeLevel>)
    ensures
        r == chrome_of_slug(opt_chars(*o)),
{
    if opt_eq(o, "off") {
        Some(ChromeLevel::Off)
    } else if opt_eq(o, "weak") {
        Some(ChromeLevel::Weak)
    } else if opt_eq(o, "strong") {
        Some(ChromeLevel::Strong)
    } else {
        None
    }
}

// ---------------------------------------------------------------------------
// Settings
// ---------------------------------------------------------------------------

/// A value in tenths, truncated toward zero to a whole number (`f64 as i32`).
pub open spec fn whole_of_tenths(t: int) -> int {
    if t >= 0 {
        t / 10
    } else {
        -((-t) / 10)
    }
}

/// An optional value in tenths as a whole number.
pub open spec fn opt_whole(o: Option<i32>) -> Option<i32> {
    match o {
        Some(t) => Some(whole_of_tenths(t as int) as i32),
        None => None,
    }
}

fn whole(o: Option<i32>) -> (r: Option<i32>)
    ensures
        r == opt_whole(o),
{
    match o {
        Some(t) => {
            let w: i32 = if t >= 0 {
                t / 10
            } else {
                let a = (0i64 - t as i64) / 10;
                (0i64 - a) as i32
            };
            Some(w)
        },
        None => None,
    }
}

/// The settings a recipe applies; decimal values become whole numbers by
/// truncation, tones stay in tenths, and a recipe sets no exposure.
pub open spec fn recipe_settings(r: RecipeModel) -> SettingsModel {
    SettingsModel {
        film_sim: film_of_slug(r.film_sim),
        grain: grain_of_slug(r.grain),
        grain_size: grain_size_of_slug(r.grain_size),
        highlight: r.highlight,
        shadow: r.shadow,
        color: opt_whole(r.color),
        sharpness: opt_whole(r.sharpness),
        noise_reduction: opt_whole(r.noise_reduction),
        clarity: opt_whole(r.clarity),
        white_balance: r.white_balance,
        wb_temp: r.wb_temp,
        wb_shift_r: opt_whole(r.wb_shift_r),
        wb_shift_b: opt_whole(r.wb_shift_b),
        chrome_effect: chrome_of_slug(r.chrome_effect),
        chrome_blue: chrome_of_slug(r.chrome_blue),
        dynamic_range: r.dynamic_range,
        exposure_comp: None,
    }
}

impl Recipe {
    /// The profile settings of the recipe.
    pub fn to_settings(&self) -> (r: RecipeSettings)
        ensures
            r@ == recipe_settings(self@),
    {
        RecipeSettings {
            film_sim: film_from_slug(&chars_of(self.film_sim.as_str())),
            grain: grain_from(&self.grain),
            grain_size: grain_size_from(&self.grain_size),
            highlight: self.highlight,
            shadow: self.shadow,
            color: whole(self.color),
            sharpness: whole(self.sharpness),
            noise_reduction: whole(self.noise_reduction),
            clarity: whole(self.clarity),
            white_balance: clone_opt_string(&self.white_balance),
            wb_temp: self.wb_temp,
            wb_shift_r: whole(self.wb_shift_r),
            wb_shift_b: whole(self.wb_shift_b),
            chrome_effect: chrome_from(&self.chrome_effect),
            chrome_blue: chrome_from(&self.chrome_blue),
            dynamic_range: self.dynamic_range,
            exposure_comp: None,
        }
    }
}

/// Every recipe's settings can be written into a profile without overflow:
/// whole numbers taken from tenths are a tenth of an `i32`, and a recipe
/// sets no exposure.
pub proof fn law_recipe_settings_encodable(r: RecipeModel)
    ensures
        recipe_settings(r).encodable(),
{
}

// ---------------------------------------------------------------------------
// Lookup
// ---------------------------------------------------------------------------

/// First recipe whose slug is exactly `q`.
pub open spec fn slug_index(rs: Seq<RecipeModel>, q: Seq<char>) -> Option<int>
    decreases rs.len(),
{
    if rs.len() == 0 {
        None
    } else if rs[0].slug == q {
        Some(0)
    } else {
        match slug_index(rs.drop_first(), q) {
            Some(i) => Some(i + 1),
            None => None,
        }
    }
}

/// Whether a recipe's slug, or its lower-cased name, contains `q`.
pub open spec fn partly_matches(r: RecipeModel, q: Seq<char>) -> bool {
    contains_seq(r.slug, q) || contains_seq(unicode_lowercase(r.name), q)
}

/// First recipe that partly matches `q`.
pub open spec fn partial_index(rs: Seq<RecipeModel>, q: Seq<char>) -> Option<int>
    decreases rs.len(),
{
    if rs.len() == 0 {
        None
    } else if partly_matches(rs[0], q) {
        Some(0)
    } else {
        match partial_index(rs.drop_first(), q) {
            Some(i) => Some(i + 1),
            None => None,
        }
    }
}

/// The recipe a query finds: the first whose slug equals the lower-cased
/// query, else the first whose slug or lower-cased name contains it.
pub open spec fn find_index(rs: Seq<RecipeModel>, query: Seq<char>) -> Option<int> {
    find_lowered(rs, unicode_lowercase(query))
}

/// The recipe the lower-cased query `q` finds (see `find_index`).
pub open spec fn find_lowered(rs: Seq<RecipeModel>, q: Seq<char>) -> Option<int> {
    match slug_index(rs, q) {
        Some(i) => Some(i),
        None => partial_index(rs, q),
    }
}

proof fn lemma_slug_index(rs: Seq<RecipeModel>, q: Seq<char>)
    ensures
        match slug_index(rs, q) {
            Some(i) => 0 <= i < rs.len() && rs[i].slug == q && forall|k: int| 0 <= k < i ==> rs[k].slug != q,
            None => forall|k: int| 0 <= k < rs.len() ==> rs[k].slug != q,
        },
    decreases rs.len(),
{
    if rs.len() > 0 && rs[0].slug != q {
        let t = rs.drop_first();
        lemma_slug_index(t, q);
        match slug_index(t, q) {
            Some(j) => {
                assert(rs[j + 1] == t[j]);
                assert forall|k: int| 0 <= k < j + 1 implies rs[k].slug != q by {
                    if k > 0 {
                        assert(rs[k] == t[k - 1]);
                    }
                }
            },
            None => {
                assert forall|k: int| 0 <= k < rs.len() implies rs[k].slug != q by {
                    if k > 0 {
                        assert(rs[k] == t[k - 1]);
                    }
                }
            },
        }
    }
}

proof fn lemma_partial_index(rs: Seq<RecipeModel>, q: Seq<char>)
    ensures
        match partial_index(rs, q) {
            Some(i) => 0 <= i < rs.len() && partly_matches(rs[i], q) && forall|k: int|
                0 <= k < i ==> !partly_matches(#[trigger] rs[k], q),
            None => forall|k: int| 0 <= k < rs.len() ==> !partly_matches(#[trigger] rs[k], q),
        },
    decreases rs.len(),
{
    if rs.len() > 0 && !partly_matches(rs[0], q) {
        let t = rs.drop_first();
        lemma_partial_index(t, q);
        match partial_index(t, q) {
            Some(j) => {
                assert(rs[j + 1] == t[j]);
                assert forall|k: int| 0 <= k < j + 1 implies !partly_matches(#[trigger] rs[k], q) by {
                    if k > 0 {
                        assert(rs[k] == t[k - 1]);
                    }
                }
            },
            None => {
                assert forall|k: int| 0 <= k < rs.len() implies !partly_matches(#[trigger] rs[k], q) by {
                    if k > 0 {
                        assert(rs[k] == t[k - 1]);
                    }
                }
            },
        }
    }
}

/// Lookup prefers an exact slug: when a recipe's slug equals the lower-cased
/// query, the first such recipe is found; otherwise the first recipe whose
/// slug or lower-cased name contains it; and nothing is found only when no
/// recipe matches at all.
pub proof fn law_find_prefers_exact_slug(rs: Seq<RecipeModel>, query: Seq<char>)
    ensures
        ({
            let q = unicode_lowercase(query);
            &&& (exists|i: int| 0 <= i < rs.len() && rs[i].slug == q) ==> (find_index(rs, query) matches Some(j)
                && 0 <= j < rs.len() && rs[j].slug == q && forall|k: int| 0 <= k < j ==> rs[k].slug != q)
            &&& (forall|i: int| 0 <= i < rs.len() ==> rs[i].slug != q) ==> match find_index(rs, query) {
                Some(j) => 0 <= j < rs.len() && partly_matches(rs[j], q) && forall|k: int|
                    0 <= k < j ==> !partly_matches(#[trigger] rs[k], q),
                None => forall|k: int| 0 <= k < rs.len() ==> !partly_matches(#[trigger] rs[k], q),
            }
        }),
{
    let q = unicode_lowercase(query);
    lemma_slug_index(rs, q);
    lemma_partial_index(rs, q);
}

proof fn lemma_slug_index_step(rs: Seq<RecipeModel>, q: Seq<char>, i: int)
    requires
        0 <= i < rs.len(),
        forall|k: int| 0 <= k < i ==> rs[k].slug != q,
    ensures
        rs[i].slug == q ==> slug_index(rs, q) == Some(i),
        slug_index(rs, q) == (if rs[i].slug == q {
            Some(i)
        } else {
            match slug_index(rs.skip(i + 1), q) {
                Some(j) => Some(j + i + 1),
                None => None,
            }
        }),
    decreases i,
{
    if i > 0 {
        assert forall|k: int| 0 <= k < i - 1 implies rs.drop_first()[k].slug != q by {
            assert(rs.drop_first()[k] == rs[k + 1]);
        }
        lemma_slug_index_step(rs.drop_first(), q, i - 1);
        assert(rs.drop_first().skip(i) =~= rs.skip(i + 1));
    } else {
        assert(rs.drop_first() =~= rs.skip(1));
    }
}

proof fn lemma_partial_index_step(rs: Seq<RecipeModel>, q: Seq<char>, i: int)
    requires
        0 <= i < rs.len(),
        forall|k: int| 0 <= k < i ==> !partly_matches(rs[k], q),
    ensures
        partial_index(rs, q) == (if partly_matches(rs[i], q) {
            Some(i)
        } else {
            match partial_index(rs.skip(i + 1), q) {
                Some(j) => Some(j + i + 1),
                None => None,
            }
        }),
    decreases i,
{
    if i > 0 {
        assert forall|k: int| 0 <= k < i - 1 implies !partly_matches(rs.drop_first()[k], q) by {
            assert(rs.drop_first()[k] == rs[k + 1]);
        }
        lemma_partial_index_step(rs.drop_first(), q, i - 1);
        assert(rs.drop_first().skip(i) =~= rs.skip(i + 1));
    } else {
        assert(rs.drop_first() =~= rs.skip(1));
    }
}

/// Finds a recipe by slug (exact, after lower-casing the query) or, failing
/// that, by part of its slug or lower-cased name.
pub fn find<'a>(recipes: &'a [Recipe], query: &str) -> (r: Option<&'a Recipe>)
    ensures
        match find_index(recipe_views(recipes@), query@) {
            Some(i) => r matches Some(x) && 0 <= i < recipes@.len() && x == &recipes@[i],
            None => r is None,
        },
        all_ascii(query@) ==> find_index(recipe_views(recipes@), query@) == find_lowered(
            recipe_views(recipes@),
            ascii_lowercase(query@),
        ),
{
    let ghost rs = recipe_views(recipes@);
    let q = lowercase_chars(&chars_of(query));
    let mut i: usize = 0;
    assert(all_ascii(query@) ==> q@ == ascii_lowercase(query@));
    while i < recipes.len()
        invariant
            i <= recipes.len(),
            rs == recipe_views(recipes@),
            q@ == unicode_lowercase(query@),
            all_ascii(query@) ==> q@ == ascii_lowercase(query@),
            forall|k: int| 0 <= k < i ==> (#[trigger] rs[k]).slug != q@,
        decreases recipes.len() - i,
    {
        assert(rs[i as int] == recipes@[i as int]@);
        if chars_eq(&chars_of(recipes[i].slug.as_str()), &q) {
            proof {
                lemma_slug_index_step(rs, q@, i as int);
            }
            return Some(&recipes[i]);
        }
        i += 1;
    }
    proof {
        if rs.len() > 0 {
            lemma_slug_index_step(rs, q@, rs.len() - 1);
            assert(rs.skip(rs.len() as int) =~= Seq::<RecipeModel>::empty());
        }
    }
    let mut j: usize = 0;
    while j < recipes.len()
        invariant
            j <= recipes.len(),
            rs == recipe_views(recipes@),
            q@ == unicode_lowercase(query@),
            all_ascii(query@) ==> q@ == ascii_lowercase(query@),
            slug_index(rs, q@) is None,
            forall|k: int| 0 <= k < j ==> !partly_matches(#[trigger] rs[k], q@),
        decreases recipes.len() - j,
    {
        assert(rs[j as int] == recipes@[j as int]@);
        let slug = chars_of(recipes[j].slug.as_str());
        let name = lowercase_chars(&chars_of(recipes[j].name.as_str()));
        if contains_chars(&slug, &q) || contains_chars(&name, &q) {
            proof {
                lemma_partial_index_step(rs, q@, j as int);
            }
            return Some(&recipes[j]);
        }
        j += 1;
    }
    proof {
        if rs.len() > 0 {
            lemma_partial_index_step(rs, q@, rs.len() - 1);
            assert(rs.skip(rs.len() as int) =~= Seq::<RecipeModel>::empty());
        }
    }
    None
}

// ---------------------------------------------------------------------------
// Listing and showing
// ---------------------------------------------------------------------------

/// Dynamic range as listed: `DR200`, or `auto`.
pub open spec fn dr_text(d: Option<u32>) -> Seq<char> {
    match d {
        Some(v) => "DR"@ + dec(v as nat),
        None => "auto"@,
    }
}

/// White balance as listed: `5500K` for a temperature, else the mode, or `auto`.
pub open spec fn wb_text(wb: Option<Seq<char>>, temp: Option<u32>) -> Seq<char> {
    match wb {
        Some(w) => if w == "temperature"@ && temp is Some {
            dec(temp->0 as nat) + "K"@
        } else {
            w
        },
        None => "auto"@,
    }
}

/// One line of the recipe list.
pub open spec fn list_line(r: RecipeModel) -> Seq<char> {
    "  "@ + pad_right(r.slug, 35) + " "@ + pad_right(r.film_sim, 22) + " "@ + pad_right(
        dr_text(r.dynamic_range),
        6,
    ) + " "@ + wb_text(r.white_balance, r.wb_temp)
}

/// The lines of the recipe list: a heading (ending in an empty line) and one
/// line per recipe.
pub open spec fn list_lines(rs: Seq<RecipeModel>) -> Seq<Seq<char>> {
    seq![dec(rs.len()) + " built-in recipes (X100VI compatible):\n"@] + rs.map_values(
        |r: RecipeModel| list_line(r),
    )
}

fn push_dr_text(v: &mut Vec<char>, d: Option<u32>)
    ensures
        final(v)@ == old(v)@ + dr_text(d),
{
    match d {
        Some(x) => {
            push_str(v, "DR");
            push_dec(v, x as u64);
        },
        None => push_str(v, "auto"),
    }
}

fn wb_chars(wb: &Option<String>, temp: Option<u32>) -> (r: Vec<char>)
    ensures
        r@ == wb_text(opt_chars(*wb), temp),
{
    match wb {
        Some(w) => {
            let c = chars_of(w.as_str());
            if chars_eq_str(&c, "temperature") && temp.is_some() {
                let mut v: Vec<char> = Vec::new();
                push_dec(&mut v, temp.unwrap() as u64);
                push_str(&mut v, "K");
                v
            } else {
                c
            }
        },
        None => chars_of("auto"),
    }
}

fn list_line_chars(r: &Recipe) -> (v: Vec<char>)
    ensures
        v@ == list_line(r@),
{
    let mut v = chars_of("  ");
    push_pad_right(&mut v, &chars_of(r.slug.as_str()), 35);
    push_str(&mut v, " ");
    push_pad_right(&mut v, &chars_of(r.film_sim.as_str()), 22);
    push_str(&mut v, " ");
    let mut d: Vec<char> = Vec::new();
    push_dr_text(&mut d, r.dynamic_range);
    push_pad_right(&mut v, &d, 6);
    push_str(&mut v, " ");
    push_chars(&mut v, &wb_chars(&r.white_balance, r.wb_temp));
    v
}

/// The lines `fjx recipes` prints.
pub fn list_recipes(recipes: &[Recipe]) -> (r: Vec<String>)
    ensures
        string_views(r@) == list_lines(recipe_views(recipes@)),
{
    let mut lines: Vec<String> = Vec::new();
    let mut head: Vec<char> = Vec::new();
    push_dec(&mut head, recipes.len() as u64);
    push_str(&mut head, " built-in recipes (X100VI compatible):\n");
    lines.push(string_of(&head));
    let ghost first = head@;
    let mut i: usize = 0;
    while i < recipes.len()
        invariant
            i <= recipes.len(),
            string_views(lines@) == seq![first] + recipe_views(recipes@).take(i as int).map_values(
                |r: RecipeModel| list_line(r),
            ),
        decreases recipes.len() - i,
    {
        let l = list_line_chars(&recipes[i]);
        let ghost before = string_views(lines@);
        lines.push(string_of(&l));
        assert(string_views(lines@) =~= before.push(l@));
        assert(recipe_views(recipes@).take(i + 1) =~= recipe_views(recipes@).take(i as int).push(
            recipes@[i as int]@,
        ));
        assert(recipe_views(recipes@).take(i + 1).map_values(|r: RecipeModel| list_line(r))
            =~= recipe_views(recipes@).take(i as int).map_values(|r: RecipeModel| list_line(r)).push(
            list_line(recipes@[i as int]@),
        ));
        i += 1;
    }
    assert(recipe_views(recipes@).take(recipes@.len() as int) =~= recipe_views(recipes@));
    lines
}

/// A detail row: `  {label:<18} {value}`.
pub open spec fn row(label: Seq<char>, value: Seq<char>) -> Seq<char> {
    "  "@ + pad_right(label, 18) + " "@ + value
}

/// A tone in tenths as shown: `0`, or signed (`+1.5`, `-2`).
pub open spec fn tone_text(o: Option<i32>) -> Seq<char> {
    match o {
        Some(t) => if t == 0 {
            "0"@
        } else {
            tenths_plus(t as int)
        },
        None => "0"@,
    }
}

/// A value in tenths as shown: `0`, or its whole part signed (`+2`, `-1`).
pub open spec fn whole_text(o: Option<i32>) -> Seq<char> {
    match o {
        Some(t) => if t == 0 {
            "0"@
        } else {
            dec_plus(whole_of_tenths(t as int))
        },
        None => "0"@,
    }
}

/// A white-balance shift in tenths as shown: signed (`+1`, `-0.5`), or `0`.
pub open spec fn shift_text(o: Option<i32>) -> Seq<char> {
    match o {
        Some(t) => tenths_plus(t as int),
        None => "0"@,
    }
}

/// An optional text, or a default.
pub open spec fn or_text(o: Option<Seq<char>>, d: Seq<char>) -> Seq<char> {
    match o {
        Some(s) => s,
        None => d,
    }
}

/// The lines `fjx recipes <slug>` prints for a recipe.
pub open spec fn show_lines(r: RecipeModel) -> Seq<Seq<char>> {
    seq![
        r.name,
        repeat('─', utf8_len(r.name) as nat),
        row("Slug"@, r.slug),
        row("Film Simulation"@, r.film_sim),
        row("Dynamic Range"@, dr_text(r.dynamic_range)),
        row(
            "Grain"@,
            match r.grain {
                Some(g) => g + " / "@ + or_text(r.grain_size, "small"@),
                None => "off"@,
            },
        ),
        row(
            "Color Effect"@,
            "chrome:"@ + or_text(r.chrome_effect, "off"@) + "  blue:"@ + or_text(r.chrome_blue, "off"@),
        ),
        row(
            "White Balance"@,
            wb_text(r.white_balance, r.wb_temp) + "  R:"@ + shift_text(r.wb_shift_r) + " B:"@
                + shift_text(r.wb_shift_b),
        ),
        row("Tone"@, "highlight:"@ + tone_text(r.highlight) + "  shadow:"@ + tone_text(r.shadow)),
        row("Color"@, whole_text(r.color)),
        row("Sharpness"@, whole_text(r.sharpness)),
        row("NR"@, whole_text(r.noise_reduction)),
        row("Clarity"@, whole_text(r.clarity)),
        row("ISO"@, or_text(r.iso, "auto"@)),
        row("Exposure"@, or_text(r.exposure_comp, "0"@)),
    ]
}

fn row_chars(label: &str, value: Vec<char>) -> (r: String)
    ensures
        r@ == row(label@, value@),
{
    let mut v = chars_of("  ");
    push_pad_right(&mut v, &chars_of(label), 18);
    push_str(&mut v, " ");
    push_chars(&mut v, &value);
    string_of(&v)
}

fn or_chars(o: &Option<String>, d: &str) -> (r: Vec<char>)
    ensures
        r@ == or_text(opt_chars(*o), d@),
{
    match o {
        Some(s) => chars_of(s.as_str()),
        None => chars_of(d),
    }
}

fn tone_chars(o: Option<i32>) -> (r: Vec<char>)
    ensures
        r@ == tone_text(o),
{
    match o {
        Some(t) => if t == 0 {
            chars_of("0")
        } else {
            let mut v: Vec<char> = Vec::new();
            push_tenths_plus(&mut v, t);
            v
        },
        None => chars_of("0"),
    }
}

fn whole_chars(o: Option<i32>) -> (r: Vec<char>)
    ensures
        r@ == whole_text(o),
{
    match o {
        Some(t) => if t == 0 {
            chars_of("0")
        } else {
            let w = whole(Some(t));
            let mut v: Vec<char> = Vec::new();
            push_dec_plus(&mut v, w.unwrap() as i64);
            v
        },
        None => chars_of("0"),
    }
}

fn shift_chars(o: Option<i32>) -> (r: Vec<char>)
    ensures
        r@ == shift_text(o),
{
    match o {
        Some(t) => {
            let mut v: Vec<char> = Vec::new();
            push_tenths_plus(&mut v, t);
            v
        },
        None => chars_of("0"),
    }
}

/// The lines that show one recipe.
pub fn show_recipe(r: &Recipe) -> (lines: Vec<String>)
    ensures
        string_views(lines@) == show_lines(r@),
{
    let name = chars_of(r.name.as_str());
    let mut rule: Vec<char> = Vec::new();
    push_repeat(&mut rule, '─', r.name.as_str().len());
    let mut dr: Vec<char> = Vec::new();
    push_dr_text(&mut dr, r.dynamic_range);
    let grain = match &r.grain {
        Some(g) => {
            let mut v = chars_of(g.as_str());
            push_str(&mut v, " / ");
            push_chars(&mut v, &or_chars(&r.grain_size, "small"));
            v
        },
        None => chars_of("off"),
    };
    let mut chrome = chars_of("chrome:");
    push_chars(&mut chrome, &or_chars(&r.chrome_effect, "off"));
    push_str(&mut chrome, "  blue:");
    push_chars(&mut chrome, &or_chars(&r.chrome_blue, "off"));
    let mut wb = wb_chars(&r.white_balance, r.wb_temp);
    push_str(&mut wb, "  R:");
    push_chars(&mut wb, &shift_chars(r.wb_shift_r));
    push_str(&mut wb, " B:");
    push_chars(&mut wb, &shift_chars(r.wb_shift_b));
    let mut tone = chars_of("highlight:");
    push_chars(&mut tone, &tone_chars(r.highlight));
    push_str(&mut tone, "  shadow:");
    push_chars(&mut tone, &tone_chars(r.shadow));
    let lines = vec![
        string_of(&name),
        string_of(&rule),
        row_chars("Slug", chars_of(r.slug.as_str())),
        row_chars("Film Simulation", chars_of(r.film_sim.as_str())),
        row_chars("Dynamic Range", dr),
        row_chars("Grain", grain),
        row_chars("Color Effect", chrome),
        row_chars("White Balance", wb),
        row_chars("Tone", tone),
        row_chars("Color", whole_chars(r.color)),
        row_chars("Sharpness", whole_chars(r.sharpness)),
        row_chars("NR", whole_chars(r.noise_reduction)),
        row_chars("Clarity", whole_chars(r.clarity)),
        row_chars("ISO", or_chars(&r.iso, "auto")),
        row_chars("Exposure", or_chars(&r.exposure_comp, "0")),
    ];
    assert(string_views(lines@) =~= show_lines(r@));
    lines
}

} // verus!
