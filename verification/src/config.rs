//! Project configuration: a RAW directory, outputs (each a recipe with
//! optional overlays and per-file overrides) and global per-file overrides;
//! parsing of the overlay values, validation, and expansion into conversion
//! batches.
//!
//! The global overrides are held as a list of (pattern, override) pairs in the
//! order the configuration's map yields them; patterns occur once each.
use vstd::prelude::*;

use crate::glob_match::{compile_glob, glob_is_match, glob_matches, glob_syntax_error};
use crate::profile::{
    exposure_comp_overflows, exposure_comp_value, ev_overflows, opt_chars, parse_exposure_comp,
    RecipeSettings, SettingsModel,
};
use crate::recipes::{film_from_slug, film_of_slug, find, find_index, recipe_settings, recipe_views, Recipe};
use crate::text::{
    chars_eq, chars_eq_str, chars_of, strings_eq, contains_char, dec, lowercase_chars, parse_u32_chars,
    parse_u32_spec, push_chars, push_dec, push_str, string_of, string_views, sub_chars, trim,
    trim_chars, trim_str, unicode_lowercase, utf8_len, all_ascii, ascii_lowercase, lemma_trim_ascii,
};
use crate::profile::{FilmSimulation, GrainEffect, GrainSize};

verus! {

/// Name of the project configuration file.
pub const CONFIG_FILENAME: &'static str = "fxraw.toml";
/// Directory that gathers links to every output.
pub const ALL_OUTPUTS_DIR: &'static str = "_ALL_OUTPUTS";

// ---------------------------------------------------------------------------
// Configuration records
// ---------------------------------------------------------------------------

/// An override inside one output, for the files its pattern matches.
pub struct OutputPerImageOverride {
    pub match_pattern: String,
    pub film_sim: Option<String>,
    pub grain: Option<String>,
    pub grain_size: Option<String>,
    pub exposure_comp: Option<String>,
    pub wb_mode: Option<String>,
}

/// A global override for the files its key matches, possibly excluding outputs.
pub struct PerImageOverride {
    pub exclude_outputs: Vec<String>,
    pub film_sim: Option<String>,
    pub grain: Option<String>,
    pub grain_size: Option<String>,
    pub exposure_comp: Option<String>,
    pub wb_mode: Option<String>,
}

/// One output: a recipe, its directory suffix, overlays and overrides.
pub struct OutputEntry {
    pub recipe: String,
    pub suffix: Option<String>,
    pub film_sim: Option<String>,
    pub grain: Option<String>,
    pub grain_size: Option<String>,
    pub exposure_comp: Option<String>,
    pub wb_mode: Option<String>,
    pub overrides: Vec<OutputPerImageOverride>,
}

/// The project configuration.
pub struct ProjectConfig {
    pub raw_dir: String,
    pub outputs: Vec<OutputEntry>,
    pub overrides: Vec<(String, PerImageOverride)>,
}

/// The overlay values of an override or an output, as written.
pub struct OverlayModel {
    pub film_sim: Option<Seq<char>>,
    pub grain: Option<Seq<char>>,
    pub grain_size: Option<Seq<char>>,
    pub exposure_comp: Option<Seq<char>>,
    pub wb_mode: Option<Seq<char>>,
}

/// Model of an output override.
pub struct OutputOverrideModel {
    pub match_pattern: Seq<char>,
    pub overlay: OverlayModel,
}

/// Model of a global override.
pub struct GlobalOverrideModel {
    pub exclude_outputs: Seq<Seq<char>>,
    pub overlay: OverlayModel,
}

/// Model of an output.
pub struct OutputEntryModel {
    pub recipe: Seq<char>,
    pub suffix: Option<Seq<char>>,
    pub overlay: OverlayModel,
    pub overrides: Seq<OutputOverrideModel>,
}

/// Model of the configuration.
pub struct ProjectConfigModel {
    pub raw_dir: Seq<char>,
    pub outputs: Seq<OutputEntryModel>,
    pub overrides: Seq<(Seq<char>, GlobalOverrideModel)>,
}

impl View for OutputPerImageOverride {
    type V = OutputOverrideModel;

    open spec fn view(&self) -> OutputOverrideModel {
        OutputOverrideModel {
            match_pattern: self.match_pattern@,
            overlay: OverlayModel {
                film_sim: opt_chars(self.film_sim),
                grain: opt_chars(self.grain),
                grain_size: opt_chars(self.grain_size),
                exposure_comp: opt_chars(self.exposure_comp),
                wb_mode: opt_chars(self.wb_mode),
            },
        }
    }
}

impl View for PerImageOverride {
    type V = GlobalOverrideModel;

    open spec fn view(&self) -> GlobalOverrideModel {
        GlobalOverrideModel {
            exclude_outputs: string_views(self.exclude_outputs@),
            overlay: OverlayModel {
                film_sim: opt_chars(self.film_sim),
                grain: opt_chars(self.grain),
                grain_size: opt_chars(self.grain_size),
                exposure_comp: opt_chars(self.exposure_comp),
                wb_mode: opt_chars(self.wb_mode),
            },
        }
    }
}

impl View for OutputEntry {
    type V = OutputEntryModel;

    open spec fn view(&self) -> OutputEntryModel {
        OutputEntryModel {
            recipe: self.recipe@,
            suffix: opt_chars(self.suffix),
            overlay: OverlayModel {
                film_sim: opt_chars(self.film_sim),
                grain: opt_chars(self.grain),
                grain_size: opt_chars(self.grain_size),
                exposure_comp: opt_chars(self.exposure_comp),
                wb_mode: opt_chars(self.wb_mode),
            },
            overrides: self.overrides@.map_values(|o: OutputPerImageOverride| o@),
        }
    }
}

impl View for ProjectConfig {
    type V = ProjectConfigModel;

    open spec fn view(&self) -> ProjectConfigModel {
        ProjectConfigModel {
            raw_dir: self.raw_dir@,
            outputs: self.outputs@.map_values(|e: OutputEntry| e@),
            overrides: self.overrides@.map_values(|p: (String, PerImageOverride)| (p.0@, p.1@)),
        }
    }
}

/// Default RAW directory.
pub fn default_raw_dir() -> (r: String)
    ensures
        r@ == "./_RAF"@,
{
    string_of(&chars_of("./_RAF"))
}

impl OutputPerImageOverride {
    /// The file name or glob the override applies to.
    pub fn pattern_key(&self) -> (r: &str)
        ensures
            r@ == self.match_pattern@,
    {
        self.match_pattern.as_str()
    }
}

/// Name of an output's directory: its suffix, or else its recipe slug.
pub open spec fn dir_name_of(e: OutputEntryModel) -> Seq<char> {
    match e.suffix {
        Some(s) => s,
        None => e.recipe,
    }
}

/// Output directory name of an entry (its suffix, or its recipe slug).
pub fn output_dir_name(entry: &OutputEntry) -> (r: &str)
    ensures
        r@ == dir_name_of(entry@),
{
    match &entry.suffix {
        Some(s) => s.as_str(),
        None => entry.recipe.as_str(),
    }
}

/// File-name suffix of an entry's outputs (the same as its directory name).
pub fn output_suffix(entry: &OutputEntry) -> (r: &str)
    ensures
        r@ == dir_name_of(entry@),
{
    match &entry.suffix {
        Some(s) => s.as_str(),
        None => entry.recipe.as_str(),
    }
}

/// Whether a global override excludes an output, by output name or recipe slug.
pub open spec fn excludes(o: GlobalOverrideModel, out_name: Seq<char>, recipe_slug: Seq<char>) -> bool {
    exists|i: int|
        0 <= i < o.exclude_outputs.len() && (#[trigger] o.exclude_outputs[i] == out_name
            || o.exclude_outputs[i] == recipe_slug)
}

/// Whether a global override excludes an output (by output name or recipe slug).
pub fn is_excluded_by_override(override_entry: &PerImageOverride, output_dir_name: &str, recipe_slug: &str) -> (r: bool)
    ensures
        r == excludes(override_entry@, output_dir_name@, recipe_slug@),
{
    let ex = &override_entry.exclude_outputs;
    let mut i: usize = 0;
    while i < ex.len()
        invariant
            i <= ex.len(),
            string_views(ex@) == override_entry@.exclude_outputs,
            forall|k: int|
                0 <= k < i ==> !(#[trigger] string_views(ex@)[k] == output_dir_name@
                    || string_views(ex@)[k] == recipe_slug@),
        decreases ex.len() - i,
    {
        let c = chars_of(ex[i].as_str());
        assert(string_views(ex@)[i as int] == ex@[i as int]@);
        if chars_eq_str(&c, output_dir_name) || chars_eq_str(&c, recipe_slug) {
            return true;
        }
        i += 1;
    }
    false
}

// ---------------------------------------------------------------------------
// Overlay values
// ---------------------------------------------------------------------------

/// Film simulation named by a value (case-insensitive slug).
pub open spec fn film_value(s: Seq<char>) -> Option<FilmSimulation> {
    film_of_slug(unicode_lowercase(s))
}

/// Grain level named by a value: `weak` or `strong`, in any case.
pub open spec fn grain_value(s: Seq<char>) -> Option<GrainEffect> {
    let l = unicode_lowercase(s);
    if l == "weak"@ {
        Some(GrainEffect::Weak)
    } else if l == "strong"@ {
        Some(GrainEffect::Strong)
    } else {
        None
    }
}

/// Grain size named by a value: `small` or `large`, in any case.
pub open spec fn grain_size_value(s: Seq<char>) -> Option<GrainSize> {
    let l = unicode_lowercase(s);
    if l == "small"@ {
        Some(GrainSize::Small)
    } else if l == "large"@ {
        Some(GrainSize::Large)
    } else {
        None
    }
}

/// Parses a film simulation slug, in any case.
pub fn parse_film_sim(s: &str) -> (r: Option<FilmSimulation>)
    ensures
        r == film_value(s@),
        all_ascii(s@) ==> r == film_of_slug(ascii_lowercase(s@)),
{
    let l = lowercase_chars(&chars_of(s));
    film_from_slug(&l)
}

/// Parses a grain level: `weak` or `strong`.
pub fn parse_grain(s: &str) -> (r: Option<GrainEffect>)
    ensures
        r == grain_value(s@),
        all_ascii(s@) ==> r == (if ascii_lowercase(s@) == "weak"@ {
            Some(GrainEffect::Weak)
        } else if ascii_lowercase(s@) == "strong"@ {
            Some(GrainEffect::Strong)
        } else {
            None
        }),
{
    let l = lowercase_chars(&chars_of(s));
    if chars_eq_str(&l, "weak") {
        Some(GrainEffect::Weak)
    } else if chars_eq_str(&l, "strong") {
        Some(GrainEffect::Strong)
    } else {
        None
    }
}

/// Parses a grain size: `small` or `large`.
pub fn parse_grain_size(s: &str) -> (r: Option<GrainSize>)
    ensures
        r == grain_size_value(s@),
        all_ascii(s@) ==> r == (if ascii_lowercase(s@) == "small"@ {
            Some(GrainSize::Small)
        } else if ascii_lowercase(s@) == "large"@ {
            Some(GrainSize::Large)
        } else {
            None
        }),
{
    let l = lowercase_chars(&chars_of(s));
    if chars_eq_str(&l, "small") {
        Some(GrainSize::Small)
    } else if chars_eq_str(&l, "large") {
        Some(GrainSize::Large)
    } else {
        None
    }
}

/// The number part of a Kelvin value: the lower-cased text without its last
/// byte's worth of characters (its length in bytes, less one, counted in
/// characters), trimmed.
pub open spec fn kelvin_digits(lower: Seq<char>) -> Seq<char> {
    let n = utf8_len(lower) as int - 1;
    trim(
        lower.take(
            if n < 0 {
                0
            } else if n < lower.len() {
                n
            } else {
                lower.len() as int
            },
        ),
    )
}

/// Normalised white-balance mode a value names, and its temperature; or the
/// message that rejects it. `t` is the trimmed value.
pub open spec fn wb_mode_of_trimmed(t: Seq<char>) -> Result<(Seq<char>, Option<u32>), Seq<char>> {
    wb_mode_of_lower(t, unicode_lowercase(t))
}

/// Mode and temperature of the trimmed value `t` whose lower-case form is
/// `lower`: a Kelvin value ending in `k` with a number from 2000 to 10000,
/// `auto` (also `auto-white`, `auto-ambience`), `daylight`, `shade`,
/// `incandescent`, `fluorescent-1/2/3`; any other value is rejected.
pub open spec fn wb_mode_of_lower(t: Seq<char>, lower: Seq<char>) -> Result<(Seq<char>, Option<u32>), Seq<char>> {
    if lower.len() > 0 && lower.last() == 'k' {
        let num = kelvin_digits(lower);
        if num.len() == 0 {
            Err("invalid wb_mode \""@ + t + "\": expected e.g. 5500K"@)
        } else {
            match parse_u32_spec(num) {
                None => Err("invalid wb_mode \""@ + t + "\": Kelvin must be a number"@),
                Some(k) => if 2000 <= k <= 10000 {
                    Ok(("temperature"@, Some(k)))
                } else {
                    Err("invalid wb_mode \""@ + t + "\": Kelvin typically 2000–10000"@)
                },
            }
        }
    } else if lower == "auto"@ || lower == "auto-white"@ || lower == "auto-ambience"@ {
        Ok(("auto"@, None))
    } else if lower == "daylight"@ || lower == "shade"@ || lower == "incandescent"@ || lower
        == "fluorescent-1"@ || lower == "fluorescent-2"@ || lower == "fluorescent-3"@ {
        Ok((lower, None))
    } else {
        Err(
            "unknown wb_mode \""@ + t
                + "\"; use auto, auto-ambience, daylight, shade, incandescent, fluorescent-1/2/3, or e.g. 5500K"@,
        )
    }
}

/// `wb_mode_value` for ASCII text, where lower-casing is ASCII lower-casing.
pub open spec fn wb_mode_value_ascii(s: Seq<char>) -> Result<(Seq<char>, Option<u32>), Seq<char>> {
    let t = trim(s);
    if t.len() == 0 {
        Err("empty wb_mode"@)
    } else {
        wb_mode_of_lower(t, ascii_lowercase(t))
    }
}

/// White-balance mode and temperature a `wb_mode` value names, or the message
/// that rejects it.
pub open spec fn wb_mode_value(s: Seq<char>) -> Result<(Seq<char>, Option<u32>), Seq<char>> {
    let t = trim(s);
    if t.len() == 0 {
        Err("empty wb_mode"@)
    } else {
        wb_mode_of_trimmed(t)
    }
}

fn wb_error(prefix: &str, t: &Vec<char>, rest: &str) -> (r: String)
    ensures
        r@ == prefix@ + t@ + rest@,
{
    let mut m = chars_of(prefix);
    push_chars(&mut m, t);
    push_str(&mut m, rest);
    string_of(&m)
}

/// Parses a `wb_mode` value into the white-balance mode and temperature of a
/// profile: `auto` (also `auto-white`, `auto-ambience`), `daylight`, `shade`,
/// `incandescent`, `fluorescent-1/2/3`, or a Kelvin value such as `5500K`
/// (2000 to 10000).
pub fn parse_wb_mode(s: &str) -> (r: Result<(String, Option<u32>), String>)
    ensures
        match r {
            Ok((mode, temp)) => wb_mode_value(s@) == Ok::<(Seq<char>, Option<u32>), Seq<char>>(
                (mode@, temp),
            ),
            Err(m) => wb_mode_value(s@) == Err::<(Seq<char>, Option<u32>), Seq<char>>(m@),
        },
        all_ascii(s@) ==> wb_mode_value(s@) == wb_mode_value_ascii(s@),
{
    let t = trim_str(s);
    proof {
        if all_ascii(s@) {
            lemma_trim_ascii(s@);
        }
    }
    if t.len() == 0 {
        return Err(string_of(&chars_of("empty wb_mode")));
    }
    let lower_string = crate::text::std_to_lowercase(string_of(&t).as_str());
    let lower = chars_of(lower_string.as_str());
    if lower.len() > 0 && lower[lower.len() - 1] == 'k' {
        let nbytes = lower_string.as_str().len();
        let n = if nbytes == 0 {
            0
        } else if nbytes - 1 < lower.len() {
            nbytes - 1
        } else {
            lower.len()
        };
        let head = sub_chars(&lower, 0, n);
        let num = trim_chars(&head);
        assert(head@ =~= lower@.take(n as int));
        if num.len() == 0 {
            return Err(wb_error("invalid wb_mode \"", &t, "\": expected e.g. 5500K"));
        }
        let k = match parse_u32_chars(&num) {
            Some(k) => k,
            None => {
                return Err(wb_error("invalid wb_mode \"", &t, "\": Kelvin must be a number"));
            },
        };
        if k < 2000 || k > 10000 {
            return Err(wb_error("invalid wb_mode \"", &t, "\": Kelvin typically 2000–10000"));
        }
        return Ok((string_of(&chars_of("temperature")), Some(k)));
    }
    if chars_eq_str(&lower, "auto") || chars_eq_str(&lower, "auto-white") || chars_eq_str(
        &lower,
        "auto-ambience",
    ) {
        return Ok((string_of(&chars_of("auto")), None));
    }
    if chars_eq_str(&lower, "daylight") || chars_eq_str(&lower, "shade") || chars_eq_str(
        &lower,
        "incandescent",
    ) || chars_eq_str(&lower, "fluorescent-1") || chars_eq_str(&lower, "fluorescent-2")
        || chars_eq_str(&lower, "fluorescent-3") {
        return Ok((string_of(&lower), None));
    }
    Err(
        wb_error(
            "unknown wb_mode \"",
            &t,
            "\"; use auto, auto-ambience, daylight, shade, incandescent, fluorescent-1/2/3, or e.g. 5500K",
        ),
    )
}


// ---------------------------------------------------------------------------
// Applying overlays
// ---------------------------------------------------------------------------

/// Whether reading the overlay's exposure value is free of the `i32`
/// overflow that makes the parser panic.
pub open spec fn overlay_readable(o: OverlayModel) -> bool {
    o.exposure_comp matches Some(s) ==> !ev_overflows(s)
}

/// The settings with a `wb_mode` value laid over them: a valid mode replaces
/// the white balance and its temperature and clears the shifts; an invalid
/// one changes nothing.
pub open spec fn with_wb_mode(m: SettingsModel, wb: Seq<char>) -> SettingsModel {
    match wb_mode_value(wb) {
        Ok((mode, temp)) => SettingsModel {
            white_balance: Some(mode),
            wb_temp: temp,
            wb_shift_r: None,
            wb_shift_b: None,
            ..m
        },
        Err(_) => m,
    }
}

/// The settings with an overlay laid over them: each value that parses
/// replaces the setting; values that do not parse are ignored.
pub open spec fn with_overlay(m: SettingsModel, o: OverlayModel) -> SettingsModel {
    let m1 = match o.film_sim {
        Some(s) => match film_value(s) {
            Some(f) => SettingsModel { film_sim: Some(f), ..m },
            None => m,
        },
        None => m,
    };
    let m2 = match o.grain {
        Some(s) => match grain_value(s) {
            Some(g) => SettingsModel { grain: Some(g), ..m1 },
            None => m1,
        },
        None => m1,
    };
    let m3 = match o.grain_size {
        Some(s) => match grain_size_value(s) {
            Some(g) => SettingsModel { grain_size: Some(g), ..m2 },
            None => m2,
        },
        None => m2,
    };
    let m4 = match o.exposure_comp {
        Some(s) => match exposure_comp_value(s) {
            Ok(v) => SettingsModel { exposure_comp: Some(v as i32), ..m3 },
            Err(_) => m3,
        },
        None => m3,
    };
    match o.wb_mode {
        Some(w) => with_wb_mode(m4, w),
        None => m4,
    }
}

/// Lays a `wb_mode` value over the settings.
pub fn apply_wb_mode_to_settings(base: &mut RecipeSettings, wb_mode: &str)
    ensures
        final(base)@ == with_wb_mode(old(base)@, wb_mode@),
{
    if let Ok((mode, temp)) = parse_wb_mode(wb_mode) {
        base.white_balance = Some(mode);
        base.wb_temp = temp;
        base.wb_shift_r = None;
        base.wb_shift_b = None;
    }
}

fn apply_overlay_values(
    base: &mut RecipeSettings,
    film_sim: &Option<String>,
    grain: &Option<String>,
    grain_size: &Option<String>,
    exposure_comp: &Option<String>,
    wb_mode: &Option<String>,
)
    requires
        opt_chars(*exposure_comp) matches Some(s) ==> !ev_overflows(s),
    ensures
        final(base)@ == with_overlay(
            old(base)@,
            OverlayModel {
                film_sim: opt_chars(*film_sim),
                grain: opt_chars(*grain),
                grain_size: opt_chars(*grain_size),
                exposure_comp: opt_chars(*exposure_comp),
                wb_mode: opt_chars(*wb_mode),
            },
        ),
{
    if let Some(s) = film_sim {
        if let Some(fs) = parse_film_sim(s.as_str()) {
            base.film_sim = Some(fs);
        }
    }
    if let Some(s) = grain {
        if let Some(g) = parse_grain(s.as_str()) {
            base.grain = Some(g);
        }
    }
    if let Some(s) = grain_size {
        if let Some(gs) = parse_grain_size(s.as_str()) {
            base.grain_size = Some(gs);
        }
    }
    if let Some(s) = exposure_comp {
        if let Ok(millis) = parse_exposure_comp(s.as_str()) {
            base.exposure_comp = Some(millis);
        }
    }
    if let Some(s) = wb_mode {
        apply_wb_mode_to_settings(base, s.as_str());
    }
}

/// Lays a global override's values over the settings.
pub fn apply_overlay_to_settings(base: &mut RecipeSettings, overlay: &PerImageOverride)
    requires
        overlay_readable(overlay@.overlay),
    ensures
        final(base)@ == with_overlay(old(base)@, overlay@.overlay),
{
    apply_overlay_values(
        base,
        &overlay.film_sim,
        &overlay.grain,
        &overlay.grain_size,
        &overlay.exposure_comp,
        &overlay.wb_mode,
    );
}

/// Lays an output override's values over the settings.
pub fn apply_output_overlay_to_settings(base: &mut RecipeSettings, overlay: &OutputPerImageOverride)
    requires
        overlay_readable(overlay@.overlay),
    ensures
        final(base)@ == with_overlay(old(base)@, overlay@.overlay),
{
    apply_overlay_values(
        base,
        &overlay.film_sim,
        &overlay.grain,
        &overlay.grain_size,
        &overlay.exposure_comp,
        &overlay.wb_mode,
    );
}

/// Lays an output entry's own values over the settings.
pub fn apply_output_entry_overlay_to_settings(base: &mut RecipeSettings, entry: &OutputEntry)
    requires
        overlay_readable(entry@.overlay),
    ensures
        final(base)@ == with_overlay(old(base)@, entry@.overlay),
{
    apply_overlay_values(
        base,
        &entry.film_sim,
        &entry.grain,
        &entry.grain_size,
        &entry.exposure_comp,
        &entry.wb_mode,
    );
}

// ---------------------------------------------------------------------------
// File name patterns
// ---------------------------------------------------------------------------

/// Whether an override key matches a RAF file name: as a glob when it holds
/// `*` (a pattern that does not compile matches nothing), else literally.
pub open spec fn key_matches(pattern: Seq<char>, name: Seq<char>) -> bool {
    if pattern.contains('*') {
        glob_syntax_error(pattern) is None && glob_matches(pattern, name)
    } else {
        pattern == name
    }
}

/// Whether an override key matches a RAF file name.
pub fn pattern_matches(pattern: &str, raf_filename: &str) -> (r: bool)
    ensures
        r == key_matches(pattern@, raf_filename@),
{
    let p = chars_of(pattern);
    if contains_char(&p, '*') {
        match compile_glob(pattern) {
            Ok(g) => glob_is_match(&g, raf_filename),
            Err(_) => false,
        }
    } else {
        chars_eq(&p, &chars_of(raf_filename))
    }
}

/// Message of a key with `*` that does not compile.
pub open spec fn glob_error_text(pattern: Seq<char>) -> Option<Seq<char>> {
    if pattern.contains('*') {
        match glob_syntax_error(pattern) {
            Some((pos, msg)) => Some(
                "invalid glob pattern \""@ + pattern + "\": Pattern syntax error near position "@
                    + dec(pos as nat) + ": "@ + msg,
            ),
            None => None,
        }
    } else {
        None
    }
}

/// Checks an override key: a key with `*` must compile as a glob.
pub fn validate_glob_pattern(pattern: &str) -> (r: Option<String>)
    ensures
        match r {
            Some(m) => glob_error_text(pattern@) == Some(m@),
            None => glob_error_text(pattern@) is None,
        },
{
    let p = chars_of(pattern);
    if !contains_char(&p, '*') {
        return None;
    }
    match compile_glob(pattern) {
        Ok(_) => None,
        Err(e) => {
            let mut m = chars_of("invalid glob pattern \"");
            push_chars(&mut m, &p);
            push_str(&mut m, "\": Pattern syntax error near position ");
            push_dec(&mut m, e.pos as u64);
            push_str(&mut m, ": ");
            push_str(&mut m, e.msg.as_str());
            Some(string_of(&m))
        },
    }
}

/// Whether the key matches any of the names.
pub open spec fn matches_any(pattern: Seq<char>, names: Seq<Seq<char>>) -> bool {
    exists|i: int| 0 <= i < names.len() && key_matches(pattern, #[trigger] names[i])
}

fn any_matches(pattern: &str, names: &[String]) -> (r: bool)
    ensures
        r == matches_any(pattern@, string_views(names@)),
{
    let mut i: usize = 0;
    while i < names.len()
        invariant
            i <= names.len(),
            forall|k: int| 0 <= k < i ==> !key_matches(pattern@, #[trigger] string_views(names@)[k]),
        decreases names.len() - i,
    {
        assert(string_views(names@)[i as int] == names@[i as int]@);
        if pattern_matches(pattern, names[i].as_str()) {
            return true;
        }
        i += 1;
    }
    false
}

// ---------------------------------------------------------------------------
// Checking and describing overlays
// ---------------------------------------------------------------------------

/// The errors of an overlay's values, each prefixed with `context`.
pub open spec fn overlay_errors(context: Seq<char>, o: OverlayModel) -> Seq<Seq<char>> {
    let e1: Seq<Seq<char>> = match o.film_sim {
        Some(s) => if film_value(s) is None {
            seq![context + ": unknown film_sim \""@ + s + "\""@]
        } else {
            seq![]
        },
        None => seq![],
    };
    let e2: Seq<Seq<char>> = match o.grain {
        Some(s) => if grain_value(s) is None {
            seq![context + ": unknown grain \""@ + s + "\" (use weak or strong)"@]
        } else {
            seq![]
        },
        None => seq![],
    };
    let e3: Seq<Seq<char>> = match o.grain_size {
        Some(s) => if grain_size_value(s) is None {
            seq![context + ": unknown grain_size \""@ + s + "\" (use small or large)"@]
        } else {
            seq![]
        },
        None => seq![],
    };
    let e4: Seq<Seq<char>> = match o.exposure_comp {
        Some(s) => match exposure_comp_value(s) {
            Err(e) => seq![context + ": invalid exposure_comp \""@ + s + "\": "@ + e],
            Ok(_) => seq![],
        },
        None => seq![],
    };
    let e5: Seq<Seq<char>> = match o.wb_mode {
        Some(s) => match wb_mode_value(s) {
            Err(e) => seq![context + ": "@ + e],
            Ok(_) => seq![],
        },
        None => seq![],
    };
    e1 + e2 + e3 + e4 + e5
}

/// Model of an optional borrowed string.
pub open spec fn opt_ref_chars(o: Option<&String>) -> Option<Seq<char>> {
    match o {
        Some(s) => Some(s@),
        None => None,
    }
}

fn push_error(errors: &mut Vec<String>, m: Vec<char>)
    ensures
        string_views(final(errors)@) == string_views(old(errors)@).push(m@),
{
    let ghost before = errors@;
    errors.push(string_of(&m));
    assert(string_views(errors@) =~= string_views(before).push(m@));
}

fn labelled(context: &str, label: &str, s: &String, tail: &str) -> (r: Vec<char>)
    ensures
        r@ == context@ + label@ + s@ + tail@,
{
    let mut m = chars_of(context);
    push_str(&mut m, label);
    push_str(&mut m, s.as_str());
    push_str(&mut m, tail);
    m
}

/// Collects the errors of overlay values (film simulation, grain, grain size,
/// exposure, white balance), each prefixed with `context`.
pub fn validate_overlay_settings(
    context: &str,
    film_sim: Option<&String>,
    grain: Option<&String>,
    grain_size: Option<&String>,
    exposure_comp: Option<&String>,
    wb_mode: Option<&String>,
) -> (r: Vec<String>)
    requires
        opt_ref_chars(exposure_comp) matches Some(s) ==> !ev_overflows(s),
    ensures
        string_views(r@) == overlay_errors(
            context@,
            OverlayModel {
                film_sim: opt_ref_chars(film_sim),
                grain: opt_ref_chars(grain),
                grain_size: opt_ref_chars(grain_size),
                exposure_comp: opt_ref_chars(exposure_comp),
                wb_mode: opt_ref_chars(wb_mode),
            },
        ),
{
    let mut errors: Vec<String> = Vec::new();
    if let Some(s) = film_sim {
        if parse_film_sim(s.as_str()).is_none() {
            push_error(&mut errors, labelled(context, ": unknown film_sim \"", s, "\""));
        }
    }
    if let Some(s) = grain {
        if parse_grain(s.as_str()).is_none() {
            push_error(
                &mut errors,
                labelled(context, ": unknown grain \"", s, "\" (use weak or strong)"),
            );
        }
    }
    if let Some(s) = grain_size {
        if parse_grain_size(s.as_str()).is_none() {
            push_error(
                &mut errors,
                labelled(context, ": unknown grain_size \"", s, "\" (use small or large)"),
            );
        }
    }
    if let Some(s) = exposure_comp {
        if let Err(e) = parse_exposure_comp(s.as_str()) {
            let mut m = labelled(context, ": invalid exposure_comp \"", s, "\": ");
            push_str(&mut m, e.as_str());
            push_error(&mut errors, m);
        }
    }
    if let Some(s) = wb_mode {
        if let Err(e) = parse_wb_mode(s.as_str()) {
            let mut m = chars_of(context);
            push_str(&mut m, ": ");
            push_str(&mut m, e.as_str());
            push_error(&mut errors, m);
        }
    }
    let ghost o = OverlayModel {
        film_sim: opt_ref_chars(film_sim),
        grain: opt_ref_chars(grain),
        grain_size: opt_ref_chars(grain_size),
        exposure_comp: opt_ref_chars(exposure_comp),
        wb_mode: opt_ref_chars(wb_mode),
    };
    assert(string_views(errors@) =~= overlay_errors(context@, o));
    errors
}

/// The `key=value` description of an overlay's values.
pub open spec fn overlay_parts(o: OverlayModel) -> Seq<Seq<char>> {
    let p1: Seq<Seq<char>> = match o.film_sim {
        Some(s) => seq!["film_sim="@ + s],
        None => seq![],
    };
    let p2: Seq<Seq<char>> = match o.grain {
        Some(s) => seq!["grain="@ + s],
        None => seq![],
    };
    let p3: Seq<Seq<char>> = match o.grain_size {
        Some(s) => seq!["grain_size="@ + s],
        None => seq![],
    };
    let p4: Seq<Seq<char>> = match o.exposure_comp {
        Some(s) => seq!["exposure_comp="@ + s],
        None => seq![],
    };
    let p5: Seq<Seq<char>> = match o.wb_mode {
        Some(s) => seq!["wb_mode="@ + s],
        None => seq![],
    };
    p1 + p2 + p3 + p4 + p5
}

fn push_part_if(parts: &mut Vec<String>, label: &str, o: Option<&String>)
    ensures
        string_views(final(parts)@) == string_views(old(parts)@) + match opt_ref_chars(o) {
            Some(s) => seq![label@ + s],
            None => Seq::<Seq<char>>::empty(),
        },
{
    let ghost before = string_views(parts@);
    if let Some(s) = o {
        let mut m = chars_of(label);
        push_str(&mut m, s.as_str());
        push_error(parts, m);
    }
    assert(string_views(parts@) =~= before + match opt_ref_chars(o) {
        Some(s) => seq![label@ + s],
        None => Seq::<Seq<char>>::empty(),
    });
}

/// Human-readable description of overlay values (`film_sim=velvia`, ...).
pub fn overlay_description(
    film_sim: Option<&String>,
    grain: Option<&String>,
    grain_size: Option<&String>,
    exposure_comp: Option<&String>,
    wb_mode: Option<&String>,
) -> (r: Vec<String>)
    ensures
        string_views(r@) == overlay_parts(
            OverlayModel {
                film_sim: opt_ref_chars(film_sim),
                grain: opt_ref_chars(grain),
                grain_size: opt_ref_chars(grain_size),
                exposure_comp: opt_ref_chars(exposure_comp),
                wb_mode: opt_ref_chars(wb_mode),
            },
        ),
{
    let mut parts: Vec<String> = Vec::new();
    assert(string_views(parts@) =~= Seq::<Seq<char>>::empty());
    push_part_if(&mut parts, "film_sim=", film_sim);
    push_part_if(&mut parts, "grain=", grain);
    push_part_if(&mut parts, "grain_size=", grain_size);
    push_part_if(&mut parts, "exposure_comp=", exposure_comp);
    push_part_if(&mut parts, "wb_mode=", wb_mode);
    let ghost o = OverlayModel {
        film_sim: opt_ref_chars(film_sim),
        grain: opt_ref_chars(grain),
        grain_size: opt_ref_chars(grain_size),
        exposure_comp: opt_ref_chars(exposure_comp),
        wb_mode: opt_ref_chars(wb_mode),
    };
    assert(string_views(parts@) =~= overlay_parts(o));
    parts
}

/// Describes a global override for the validation summary: its key and the
/// values it sets.
pub fn describe_global_override(key: &str, ov: &PerImageOverride) -> (r: (String, Vec<String>))
    ensures
        r.0@ == key@,
        string_views(r.1@) == overlay_parts(ov@.overlay),
{
    let adjustments = overlay_description(
        ov.film_sim.as_ref(),
        ov.grain.as_ref(),
        ov.grain_size.as_ref(),
        ov.exposure_comp.as_ref(),
        ov.wb_mode.as_ref(),
    );
    (string_of(&chars_of(key)), adjustments)
}

/// Describes an output override for the validation summary: its pattern and
/// the values it sets.
pub fn describe_output_override(ov: &OutputPerImageOverride) -> (r: (String, Vec<String>))
    ensures
        r.0@ == ov@.match_pattern,
        string_views(r.1@) == overlay_parts(ov@.overlay),
{
    let key = string_of(&chars_of(ov.pattern_key()));
    let adjustments = overlay_description(
        ov.film_sim.as_ref(),
        ov.grain.as_ref(),
        ov.grain_size.as_ref(),
        ov.exposure_comp.as_ref(),
        ov.wb_mode.as_ref(),
    );
    (key, adjustments)
}


// ---------------------------------------------------------------------------
// Validation
// ---------------------------------------------------------------------------

/// What the RAW directory is on disk.
#[derive(Clone, Copy, PartialEq, Eq, Structural)]
pub enum RawDirStatus {
    Directory,
    NotADirectory,
    Missing,
}

/// Whether every exposure value in the configuration can be read without
/// the `i32` overflow that makes the parser panic.
pub open spec fn config_readable(c: ProjectConfigModel) -> bool {
    &&& forall|k: int| 0 <= k < c.overrides.len() ==> overlay_readable(#[trigger] c.overrides[k].1.overlay)
    &&& forall|i: int| 0 <= i < c.outputs.len() ==> overlay_readable(#[trigger] c.outputs[i].overlay)
    &&& forall|i: int, j: int|
        0 <= i < c.outputs.len() && 0 <= j < c.outputs[i].overrides.len() ==> overlay_readable(
            #[trigger] c.outputs[i].overrides[j].overlay,
        )
}

/// Errors about the RAW directory.
pub open spec fn raw_dir_errors(raw: RawDirStatus, dir: Seq<char>) -> Seq<Seq<char>> {
    match raw {
        RawDirStatus::Missing => seq!["raw_dir '"@ + dir + "' does not exist"@],
        RawDirStatus::NotADirectory => seq!["raw_dir '"@ + dir + "' is not a directory"@],
        RawDirStatus::Directory => seq![],
    }
}

/// Errors of one global override.
pub open spec fn global_override_errors(key: Seq<char>, ov: GlobalOverrideModel, names: Seq<Seq<char>>) -> Seq<Seq<char>> {
    let e1: Seq<Seq<char>> = match glob_error_text(key) {
        Some(e) => seq!["Global override key: "@ + e],
        None => seq![],
    };
    let e2: Seq<Seq<char>> = if !matches_any(key, names) {
        seq!["Global override \""@ + key + "\" matches no RAF file in raw_dir"@]
    } else {
        seq![]
    };
    e1 + e2 + overlay_errors("Global override \""@ + key + "\""@, ov.overlay)
}

/// Errors of the first `n` global overrides.
pub open spec fn global_errors_upto(ovs: Seq<(Seq<char>, GlobalOverrideModel)>, names: Seq<Seq<char>>, n: int) -> Seq<Seq<char>>
    decreases n,
{
    if n <= 0 {
        seq![]
    } else {
        global_errors_upto(ovs, names, n - 1) + global_override_errors(ovs[n - 1].0, ovs[n - 1].1, names)
    }
}

/// `Output {i+1} override {j+1}: `.
pub open spec fn override_prefix(i: int, j: int) -> Seq<char> {
    "Output "@ + dec((i + 1) as nat) + " override "@ + dec((j + 1) as nat) + ": "@
}

/// Errors of override `j` of output `i`.
pub open spec fn output_override_errors(i: int, j: int, ov: OutputOverrideModel, names: Seq<Seq<char>>) -> Seq<Seq<char>> {
    let pat = ov.match_pattern;
    let e1: Seq<Seq<char>> = match glob_error_text(pat) {
        Some(e) => seq![override_prefix(i, j) + e],
        None => seq![],
    };
    let e2: Seq<Seq<char>> = if !matches_any(pat, names) {
        seq![override_prefix(i, j) + "match \""@ + pat + "\" matches no RAF in raw_dir"@]
    } else {
        seq![]
    };
    e1 + e2 + overlay_errors(
        "Output "@ + dec((i + 1) as nat) + " override \""@ + pat + "\""@,
        ov.overlay,
    )
}

/// Errors of the first `n` overrides of output `i`.
pub open spec fn output_overrides_errors_upto(i: int, ovs: Seq<OutputOverrideModel>, names: Seq<Seq<char>>, n: int) -> Seq<Seq<char>>
    decreases n,
{
    if n <= 0 {
        seq![]
    } else {
        output_overrides_errors_upto(i, ovs, names, n - 1) + output_override_errors(i, n - 1, ovs[n - 1], names)
    }
}

/// `Output {i+1} (recipe {slug})`.
pub open spec fn output_context(i: int, recipe: Seq<char>) -> Seq<char> {
    "Output "@ + dec((i + 1) as nat) + " (recipe "@ + recipe + ")"@
}

/// Errors of output `i`.
pub open spec fn output_errors(i: int, e: OutputEntryModel, names: Seq<Seq<char>>, recipes: Seq<crate::recipes::RecipeModel>) -> Seq<Seq<char>> {
    let ctx = output_context(i, e.recipe);
    let e1: Seq<Seq<char>> = if find_index(recipes, e.recipe) is None {
        seq![ctx + ": recipe '"@ + e.recipe + "' not found"@]
    } else {
        seq![]
    };
    e1 + overlay_errors(ctx + " (entry-level)"@, e.overlay) + output_overrides_errors_upto(
        i,
        e.overrides,
        names,
        e.overrides.len() as int,
    )
}

/// Errors of the first `n` outputs.
pub open spec fn outputs_errors_upto(outs: Seq<OutputEntryModel>, names: Seq<Seq<char>>, recipes: Seq<crate::recipes::RecipeModel>, n: int) -> Seq<Seq<char>>
    decreases n,
{
    if n <= 0 {
        seq![]
    } else {
        outputs_errors_upto(outs, names, recipes, n - 1) + output_errors(n - 1, outs[n - 1], names, recipes)
    }
}

/// Every error of a configuration, in order: the RAW directory, the global
/// overrides, then each output with its overrides.
pub open spec fn config_errors(
    raw: RawDirStatus,
    names: Seq<Seq<char>>,
    c: ProjectConfigModel,
    recipes: Seq<crate::recipes::RecipeModel>,
) -> Seq<Seq<char>> {
    raw_dir_errors(raw, c.raw_dir) + global_errors_upto(c.overrides, names, c.overrides.len() as int)
        + outputs_errors_upto(c.outputs, names, recipes, c.outputs.len() as int)
}

/// Every value an overlay gives can be read.
pub open spec fn overlay_ok(o: OverlayModel) -> bool {
    &&& (o.film_sim matches Some(v) ==> film_value(v) is Some)
    &&& (o.grain matches Some(v) ==> grain_value(v) is Some)
    &&& (o.grain_size matches Some(v) ==> grain_size_value(v) is Some)
    &&& (o.exposure_comp matches Some(v) ==> exposure_comp_value(v) is Ok)
    &&& (o.wb_mode matches Some(v) ==> wb_mode_value(v) is Ok)
}

/// An override key is a usable pattern (a key with `*` compiles) that
/// matches some RAF file name.
pub open spec fn key_ok(key: Seq<char>, names: Seq<Seq<char>>) -> bool {
    glob_error_text(key) is None && matches_any(key, names)
}

/// What a valid configuration is: the RAW directory exists as a directory;
/// every global override and every per-output override has a usable key
/// that matches a RAF and readable values; every output's recipe is in the
/// catalogue and its own values are readable.
pub open spec fn config_valid(
    raw: RawDirStatus,
    names: Seq<Seq<char>>,
    c: ProjectConfigModel,
    recipes: Seq<crate::recipes::RecipeModel>,
) -> bool {
    &&& raw == RawDirStatus::Directory
    &&& forall|k: int| 0 <= k < c.overrides.len() ==> key_ok(#[trigger] c.overrides[k].0, names)
        && overlay_ok(c.overrides[k].1.overlay)
    &&& forall|i: int| 0 <= i < c.outputs.len() ==> find_index(recipes, (#[trigger] c.outputs[i]).recipe) is Some
        && overlay_ok(c.outputs[i].overlay)
    &&& forall|i: int, j: int| 0 <= i < c.outputs.len() && 0 <= j < c.outputs[i].overrides.len() ==> key_ok(
        (#[trigger] c.outputs[i].overrides[j]).match_pattern,
        names,
    ) && overlay_ok(c.outputs[i].overrides[j].overlay)
}

proof fn lemma_overlay_ok(ctx: Seq<char>, o: OverlayModel)
    ensures
        overlay_errors(ctx, o).len() == 0 <==> overlay_ok(o),
{
}

proof fn lemma_globals_ok(ovs: Seq<(Seq<char>, GlobalOverrideModel)>, names: Seq<Seq<char>>, n: int)
    requires
        0 <= n <= ovs.len(),
    ensures
        global_errors_upto(ovs, names, n).len() == 0 <==> forall|k: int|
            0 <= k < n ==> key_ok(#[trigger] ovs[k].0, names) && overlay_ok(ovs[k].1.overlay),
    decreases n,
{
    if n > 0 {
        lemma_globals_ok(ovs, names, n - 1);
        lemma_overlay_ok("Global override \""@ + ovs[n - 1].0 + "\""@, ovs[n - 1].1.overlay);
    }
}

proof fn lemma_output_overrides_ok(i: int, ovs: Seq<OutputOverrideModel>, names: Seq<Seq<char>>, n: int)
    requires
        0 <= n <= ovs.len(),
    ensures
        output_overrides_errors_upto(i, ovs, names, n).len() == 0 <==> forall|j: int|
            0 <= j < n ==> key_ok((#[trigger] ovs[j]).match_pattern, names) && overlay_ok(ovs[j].overlay),
    decreases n,
{
    if n > 0 {
        lemma_output_overrides_ok(i, ovs, names, n - 1);
        lemma_overlay_ok(
            "Output "@ + dec((i + 1) as nat) + " override \""@ + ovs[n - 1].match_pattern + "\""@,
            ovs[n - 1].overlay,
        );
    }
}

proof fn lemma_outputs_ok(outs: Seq<OutputEntryModel>, names: Seq<Seq<char>>, recipes: Seq<crate::recipes::RecipeModel>, n: int)
    requires
        0 <= n <= outs.len(),
    ensures
        outputs_errors_upto(outs, names, recipes, n).len() == 0 <==> (forall|i: int|
            0 <= i < n ==> find_index(recipes, (#[trigger] outs[i]).recipe) is Some && overlay_ok(
                outs[i].overlay,
            ) && forall|j: int| 0 <= j < outs[i].overrides.len() ==> key_ok(
                (#[trigger] outs[i].overrides[j]).match_pattern,
                names,
            ) && overlay_ok(outs[i].overrides[j].overlay)),
    decreases n,
{
    if n > 0 {
        lemma_outputs_ok(outs, names, recipes, n - 1);
        let e = outs[n - 1];
        lemma_overlay_ok(output_context(n - 1, e.recipe) + " (entry-level)"@, e.overlay);
        lemma_output_overrides_ok(n - 1, e.overrides, names, e.overrides.len() as int);
    }
}

/// `validate_config` accepts a configuration exactly when it is valid (see
/// `config_valid`); otherwise it lists each failed check.
pub proof fn law_validate_ok_iff_valid(
    raw: RawDirStatus,
    names: Seq<Seq<char>>,
    c: ProjectConfigModel,
    recipes: Seq<crate::recipes::RecipeModel>,
)
    ensures
        config_errors(raw, names, c, recipes).len() == 0 <==> config_valid(raw, names, c, recipes),
{
    lemma_globals_ok(c.overrides, names, c.overrides.len() as int);
    lemma_outputs_ok(c.outputs, names, recipes, c.outputs.len() as int);
}

fn push_errors(errors: &mut Vec<String>, more: Vec<String>)
    ensures
        string_views(final(errors)@) == string_views(old(errors)@) + string_views(more@),
{
    let ghost before = string_views(errors@);
    let mut i: usize = 0;
    while i < more.len()
        invariant
            i <= more.len(),
            string_views(errors@) == before + string_views(more@).take(i as int),
        decreases more.len() - i,
    {
        let ghost b = errors@;
        errors.push(string_of(&chars_of(more[i].as_str())));
        assert(string_views(errors@) =~= string_views(b).push(more@[i as int]@));
        assert(string_views(more@).take(i + 1) =~= string_views(more@).take(i as int).push(
            more@[i as int]@,
        ));
        i += 1;
    }
    assert(string_views(more@).take(more.len() as int) =~= string_views(more@));
}

fn global_override_check(key: &String, ov: &PerImageOverride, raf_names: &[String]) -> (r: Vec<String>)
    requires
        overlay_readable(ov@.overlay),
    ensures
        string_views(r@) == global_override_errors(key@, ov@, string_views(raf_names@)),
{
    let mut errors: Vec<String> = Vec::new();
    if let Some(e) = validate_glob_pattern(key.as_str()) {
        let mut m = chars_of("Global override key: ");
        push_str(&mut m, e.as_str());
        push_error(&mut errors, m);
    }
    if !any_matches(key.as_str(), raf_names) {
        let mut m = chars_of("Global override \"");
        push_str(&mut m, key.as_str());
        push_str(&mut m, "\" matches no RAF file in raw_dir");
        push_error(&mut errors, m);
    }
    let mut ctx = chars_of("Global override \"");
    push_str(&mut ctx, key.as_str());
    push_str(&mut ctx, "\"");
    let ctx = string_of(&ctx);
    let more = validate_overlay_settings(
        ctx.as_str(),
        ov.film_sim.as_ref(),
        ov.grain.as_ref(),
        ov.grain_size.as_ref(),
        ov.exposure_comp.as_ref(),
        ov.wb_mode.as_ref(),
    );
    let ghost e12 = string_views(errors@);
    push_errors(&mut errors, more);
    assert(string_views(errors@) =~= global_override_errors(key@, ov@, string_views(raf_names@)));
    errors
}

fn override_prefix_chars(i: usize, j: usize) -> (r: Vec<char>)
    requires
        i < usize::MAX,
        j < usize::MAX,
    ensures
        r@ == override_prefix(i as int, j as int),
{
    let mut m = chars_of("Output ");
    push_dec(&mut m, (i + 1) as u64);
    push_str(&mut m, " override ");
    push_dec(&mut m, (j + 1) as u64);
    push_str(&mut m, ": ");
    m
}

fn output_override_check(i: usize, j: usize, ov: &OutputPerImageOverride, raf_names: &[String]) -> (r: Vec<String>)
    requires
        i < usize::MAX,
        j < usize::MAX,
        overlay_readable(ov@.overlay),
    ensures
        string_views(r@) == output_override_errors(i as int, j as int, ov@, string_views(raf_names@)),
{
    let mut errors: Vec<String> = Vec::new();
    let pat = ov.pattern_key();
    if let Some(e) = validate_glob_pattern(pat) {
        let mut m = override_prefix_chars(i, j);
        push_str(&mut m, e.as_str());
        push_error(&mut errors, m);
    }
    if !any_matches(pat, raf_names) {
        let mut m = override_prefix_chars(i, j);
        push_str(&mut m, "match \"");
        push_str(&mut m, pat);
        push_str(&mut m, "\" matches no RAF in raw_dir");
        push_error(&mut errors, m);
    }
    let mut ctx = chars_of("Output ");
    push_dec(&mut ctx, (i + 1) as u64);
    push_str(&mut ctx, " override \"");
    push_str(&mut ctx, pat);
    push_str(&mut ctx, "\"");
    let ctx = string_of(&ctx);
    let more = validate_overlay_settings(
        ctx.as_str(),
        ov.film_sim.as_ref(),
        ov.grain.as_ref(),
        ov.grain_size.as_ref(),
        ov.exposure_comp.as_ref(),
        ov.wb_mode.as_ref(),
    );
    push_errors(&mut errors, more);
    assert(string_views(errors@) =~= output_override_errors(i as int, j as int, ov@, string_views(raf_names@)));
    errors
}

fn output_check(i: usize, entry: &OutputEntry, raf_names: &[String], recipes: &[Recipe]) -> (r: Vec<String>)
    requires
        i < usize::MAX,
        overlay_readable(entry@.overlay),
        forall|j: int| 0 <= j < entry@.overrides.len() ==> overlay_readable(#[trigger] entry@.overrides[j].overlay),
    ensures
        string_views(r@) == output_errors(i as int, entry@, string_views(raf_names@), recipe_views(recipes@)),
{
    let mut errors: Vec<String> = Vec::new();
    let mut ctx = chars_of("Output ");
    push_dec(&mut ctx, (i + 1) as u64);
    push_str(&mut ctx, " (recipe ");
    push_str(&mut ctx, entry.recipe.as_str());
    push_str(&mut ctx, ")");
    if find(recipes, entry.recipe.as_str()).is_none() {
        let mut m = ctx.clone();
        push_str(&mut m, ": recipe '");
        push_str(&mut m, entry.recipe.as_str());
        push_str(&mut m, "' not found");
        push_error(&mut errors, m);
    }
    let mut ectx = ctx.clone();
    push_str(&mut ectx, " (entry-level)");
    let ectx = string_of(&ectx);
    let more = validate_overlay_settings(
        ectx.as_str(),
        entry.film_sim.as_ref(),
        entry.grain.as_ref(),
        entry.grain_size.as_ref(),
        entry.exposure_comp.as_ref(),
        entry.wb_mode.as_ref(),
    );
    push_errors(&mut errors, more);
    let ghost head = string_views(errors@);
    let ghost ovs = entry@.overrides;
    let mut j: usize = 0;
    while j < entry.overrides.len()
        invariant
            i < usize::MAX,
            j <= entry.overrides.len(),
            ovs == entry@.overrides,
            ovs.len() == entry.overrides@.len(),
            forall|k: int| 0 <= k < ovs.len() ==> overlay_readable(#[trigger] ovs[k].overlay),
            string_views(errors@) == head + output_overrides_errors_upto(i as int, ovs, string_views(raf_names@), j as int),
        decreases entry.overrides.len() - j,
    {
        assert(ovs[j as int] == entry.overrides@[j as int]@);
        let more = output_override_check(i, j, &entry.overrides[j], raf_names);
        push_errors(&mut errors, more);
        j += 1;
    }
    errors
}

fn global_checks(overrides: &Vec<(String, PerImageOverride)>, raf_names: &[String]) -> (r: Vec<String>)
    requires
        forall|k: int| 0 <= k < overrides@.len() ==> overlay_readable(#[trigger] overrides@[k].1@.overlay),
    ensures
        string_views(r@) == global_errors_upto(
            overrides@.map_values(|p: (String, PerImageOverride)| (p.0@, p.1@)),
            string_views(raf_names@),
            overrides@.len() as int,
        ),
{
    let ghost ovs = overrides@.map_values(|p: (String, PerImageOverride)| (p.0@, p.1@));
    let ghost names = string_views(raf_names@);
    let mut errors: Vec<String> = Vec::new();
    assert(string_views(errors@) =~= Seq::<Seq<char>>::empty());
    let mut k: usize = 0;
    while k < overrides.len()
        invariant
            k <= overrides.len(),
            ovs == overrides@.map_values(|p: (String, PerImageOverride)| (p.0@, p.1@)),
            forall|q: int| 0 <= q < overrides@.len() ==> overlay_readable(#[trigger] overrides@[q].1@.overlay),
            names == string_views(raf_names@),
            string_views(errors@) == global_errors_upto(ovs, names, k as int),
        decreases overrides.len() - k,
    {
        assert(ovs[k as int] == (overrides@[k as int].0@, overrides@[k as int].1@));
        assert(overlay_readable(overrides@[k as int].1@.overlay));
        let more = global_override_check(&overrides[k].0, &overrides[k].1, raf_names);
        push_errors(&mut errors, more);
        k += 1;
    }
    errors
}

fn outputs_checks(outputs: &Vec<OutputEntry>, raf_names: &[String], recipes: &[Recipe]) -> (r: Vec<String>)
    requires
        forall|i: int| 0 <= i < outputs@.len() ==> overlay_readable(#[trigger] outputs@[i]@.overlay),
        forall|i: int, j: int|
            0 <= i < outputs@.len() && 0 <= j < outputs@[i]@.overrides.len() ==> overlay_readable(
                #[trigger] outputs@[i]@.overrides[j].overlay,
            ),
    ensures
        string_views(r@) == outputs_errors_upto(
            outputs@.map_values(|e: OutputEntry| e@),
            string_views(raf_names@),
            recipe_views(recipes@),
            outputs@.len() as int,
        ),
{
    let ghost outs = outputs@.map_values(|e: OutputEntry| e@);
    let ghost names = string_views(raf_names@);
    let mut errors: Vec<String> = Vec::new();
    assert(string_views(errors@) =~= Seq::<Seq<char>>::empty());
    let mut i: usize = 0;
    while i < outputs.len()
        invariant
            i <= outputs.len(),
            outs == outputs@.map_values(|e: OutputEntry| e@),
            forall|q: int| 0 <= q < outputs@.len() ==> overlay_readable(#[trigger] outputs@[q]@.overlay),
            forall|q: int, j: int|
                0 <= q < outputs@.len() && 0 <= j < outputs@[q]@.overrides.len() ==> overlay_readable(
                    #[trigger] outputs@[q]@.overrides[j].overlay,
                ),
            names == string_views(raf_names@),
            string_views(errors@) == outputs_errors_upto(outs, names, recipe_views(recipes@), i as int),
        decreases outputs.len() - i,
    {
        assert(outs[i as int] == outputs@[i as int]@);
        assert(overlay_readable(outputs@[i as int]@.overlay));
        let more = output_check(i, &outputs[i], raf_names, recipes);
        push_errors(&mut errors, more);
        i += 1;
    }
    errors
}

/// Validates a configuration against the RAW directory (its status and the
/// RAF file names in it) and the recipe catalogue: the directory must exist
/// and be a directory, every override key must be a valid pattern matching
/// some RAF, every output's recipe must exist, and every overlay value must
/// parse. Returns all errors, in order, when there is any.
pub fn validate_config(
    raw_dir: RawDirStatus,
    raf_names: &[String],
    config: &ProjectConfig,
    recipes: &[Recipe],
) -> (r: Result<(), Vec<String>>)
    requires
        config_readable(config@),
    ensures
        match r {
            Ok(()) => config_errors(raw_dir, string_views(raf_names@), config@, recipe_views(recipes@)).len() == 0,
            Err(es) => string_views(es@) == config_errors(raw_dir, string_views(raf_names@), config@, recipe_views(recipes@))
                && es@.len() > 0,
        },
{
    let ghost c = config@;
    let mut errors: Vec<String> = Vec::new();
    match raw_dir {
        RawDirStatus::Missing => {
            let mut m = chars_of("raw_dir '");
            push_str(&mut m, config.raw_dir.as_str());
            push_str(&mut m, "' does not exist");
            push_error(&mut errors, m);
        },
        RawDirStatus::NotADirectory => {
            let mut m = chars_of("raw_dir '");
            push_str(&mut m, config.raw_dir.as_str());
            push_str(&mut m, "' is not a directory");
            push_error(&mut errors, m);
        },
        RawDirStatus::Directory => {},
    }
    assert(string_views(errors@) =~= raw_dir_errors(raw_dir, c.raw_dir));
    assert forall|k: int| 0 <= k < config.overrides@.len() implies overlay_readable(#[trigger] config.overrides@[k].1@.overlay) by {
        assert(c.overrides[k] == (config.overrides@[k].0@, config.overrides@[k].1@));
        assert(overlay_readable(c.overrides[k].1.overlay));
    }
    assert forall|q: int| 0 <= q < config.outputs@.len() implies overlay_readable(#[trigger] config.outputs@[q]@.overlay) by {
        assert(c.outputs[q] == config.outputs@[q]@);
    }
    assert forall|q: int, j: int|
        0 <= q < config.outputs@.len() && 0 <= j < config.outputs@[q]@.overrides.len() implies overlay_readable(
            #[trigger] config.outputs@[q]@.overrides[j].overlay,
        ) by {
        assert(c.outputs[q] == config.outputs@[q]@);
    }
    let g = global_checks(&config.overrides, raf_names);
    push_errors(&mut errors, g);
    let o = outputs_checks(&config.outputs, raf_names, recipes);
    push_errors(&mut errors, o);
    assert(string_views(errors@) =~= config_errors(raw_dir, string_views(raf_names@), c, recipe_views(recipes@)));
    if errors.len() == 0 {
        Ok(())
    } else {
        Err(errors)
    }
}


// ---------------------------------------------------------------------------
// Expansion into conversion batches
// ---------------------------------------------------------------------------

/// Settings of an output: its recipe's settings with the output's own
/// overlay laid over them, or the message naming a recipe that is missing.
pub open spec fn entry_settings(e: OutputEntryModel, recipes: Seq<crate::recipes::RecipeModel>) -> Result<SettingsModel, Seq<char>> {
    match find_index(recipes, e.recipe) {
        Some(i) => Ok(with_overlay(recipe_settings(recipes[i]), e.overlay)),
        None => Err("Recipe '"@ + e.recipe + "' not found"@),
    }
}

/// Resolves the settings of an output: its recipe, then its own overlay.
pub fn resolve_output_entry_settings(entry: &OutputEntry, recipes: &[Recipe]) -> (r: Result<RecipeSettings, String>)
    requires
        overlay_readable(entry@.overlay),
    ensures
        match r {
            Ok(s) => entry_settings(entry@, recipe_views(recipes@)) == Ok::<SettingsModel, Seq<char>>(s@),
            Err(m) => entry_settings(entry@, recipe_views(recipes@)) == Err::<SettingsModel, Seq<char>>(m@),
        },
{
    match find(recipes, entry.recipe.as_str()) {
        Some(recipe) => {
            let mut settings = recipe.to_settings();
            apply_output_entry_overlay_to_settings(&mut settings, entry);
            Ok(settings)
        },
        None => {
            let mut m = chars_of("Recipe '");
            push_str(&mut m, entry.recipe.as_str());
            push_str(&mut m, "' not found");
            Err(string_of(&m))
        },
    }
}

/// Whether two settings are the same.
pub fn settings_eq(a: &RecipeSettings, b: &RecipeSettings) -> (r: bool)
    ensures
        r == (a@ == b@),
{
    let wb = match (&a.white_balance, &b.white_balance) {
        (Some(x), Some(y)) => strings_eq(x, y),
        (None, None) => true,
        _ => false,
    };
    wb && a.film_sim == b.film_sim && a.grain == b.grain && a.grain_size == b.grain_size
        && a.highlight == b.highlight && a.shadow == b.shadow && a.color == b.color && a.sharpness
        == b.sharpness && a.noise_reduction == b.noise_reduction && a.clarity == b.clarity
        && a.wb_temp == b.wb_temp && a.wb_shift_r == b.wb_shift_r && a.wb_shift_b == b.wb_shift_b
        && a.chrome_effect == b.chrome_effect && a.chrome_blue == b.chrome_blue && a.dynamic_range
        == b.dynamic_range && a.exposure_comp == b.exposure_comp
}

/// `base` joined with `part` as a Unix `Path::join` does: an absolute part
/// replaces the base; otherwise a separator goes between them unless the
/// base is empty or already ends with one.
pub open spec fn path_join(base: Seq<char>, part: Seq<char>) -> Seq<char> {
    if part.len() > 0 && part[0] == '/' {
        part
    } else if base.len() == 0 {
        part
    } else if base.last() == '/' {
        base + part
    } else {
        base + seq!['/'] + part
    }
}

/// Joins two path strings (Unix `Path::join`).
pub fn join_path(base: &str, part: &str) -> (r: String)
    ensures
        r@ == path_join(base@, part@),
{
    let b = chars_of(base);
    let p = chars_of(part);
    if p.len() > 0 && p[0] == '/' {
        return string_of(&p);
    }
    if b.len() == 0 {
        return string_of(&p);
    }
    let mut r: Vec<char> = Vec::new();
    push_chars(&mut r, &b);
    if b[b.len() - 1] != '/' {
        r.push('/');
    }
    push_chars(&mut r, &p);
    proof {
        if b@.last() != '/' {
            assert(r@ =~= b@ + seq!['/'] + p@);
        }
    }
    string_of(&r)
}

/// Position of the last `c` in `s`.
pub open spec fn last_index(s: Seq<char>, c: char) -> Option<int>
    decreases s.len(),
{
    if s.len() == 0 {
        None
    } else if s.last() == c {
        Some(s.len() - 1)
    } else {
        last_index(s.drop_last(), c)
    }
}

/// The stem of a file name (`Path::file_stem`): the part before the last `.`;
/// the whole name when it has no `.` or only a leading one; empty for ``, `.`
/// and `..`.
pub open spec fn file_stem_of(name: Seq<char>) -> Seq<char> {
    if name.len() == 0 || name == "."@ || name == ".."@ {
        seq![]
    } else {
        match last_index(name, '.') {
            Some(i) => if i == 0 {
                name
            } else {
                name.take(i)
            },
            None => name,
        }
    }
}

/// The stem of a file name.
pub fn file_stem(name: &str) -> (r: Vec<char>)
    ensures
        r@ == file_stem_of(name@),
{
    let v = chars_of(name);
    if v.len() == 0 || chars_eq_str(&v, ".") || chars_eq_str(&v, "..") {
        return Vec::new();
    }
    let mut j = v.len();
    assert(v@.take(j as int) =~= v@);
    while j > 0 && v[j - 1] != '.'
        invariant
            j <= v.len(),
            last_index(v@, '.') == last_index(v@.take(j as int), '.'),
        decreases j,
    {
        assert(v@.take(j as int).drop_last() =~= v@.take(j - 1));
        j -= 1;
    }
    assert(v@.take(v@.len() as int) =~= v@);
    if j == 0 {
        assert(v@.take(0) =~= Seq::<char>::empty());
        return v;
    }
    if j == 1 {
        return v;
    }
    sub_chars(&v, 0, j - 1)
}

/// A conversion job: input RAF path, output JPEG path.
pub type JobModel = (Seq<char>, Seq<char>);

/// A job with the settings it is converted with.
pub type SettledJob = (Seq<char>, Seq<char>, SettingsModel);

/// First global override whose key matches the file name.
pub open spec fn global_match(ovs: Seq<(Seq<char>, GlobalOverrideModel)>, name: Seq<char>) -> Option<int>
    decreases ovs.len(),
{
    if ovs.len() == 0 {
        None
    } else if key_matches(ovs[0].0, name) {
        Some(0)
    } else {
        match global_match(ovs.drop_first(), name) {
            Some(i) => Some(i + 1),
            None => None,
        }
    }
}

/// First output override whose pattern matches the file name.
pub open spec fn output_match(ovs: Seq<OutputOverrideModel>, name: Seq<char>) -> Option<int>
    decreases ovs.len(),
{
    if ovs.len() == 0 {
        None
    } else if key_matches(ovs[0].match_pattern, name) {
        Some(0)
    } else {
        match output_match(ovs.drop_first(), name) {
            Some(i) => Some(i + 1),
            None => None,
        }
    }
}

/// The job of one RAF for an output, or none when the first global override
/// matching the file excludes the output. The settings are the output's,
/// then that global override's, then the first matching output override's;
/// the output is `{dir}/{stem}.{suffix}.jpg`.
pub open spec fn raf_job(
    path: Seq<char>,
    name: Seq<char>,
    e: OutputEntryModel,
    base: SettingsModel,
    globals: Seq<(Seq<char>, GlobalOverrideModel)>,
    out_dir: Seq<char>,
) -> Option<SettledJob> {
    let g = global_match(globals, name);
    if g is Some && excludes(globals[g->0].1, dir_name_of(e), e.recipe) {
        None
    } else {
        let s1 = match g {
            Some(k) => with_overlay(base, globals[k].1.overlay),
            None => base,
        };
        let s2 = match output_match(e.overrides, name) {
            Some(j) => with_overlay(s1, e.overrides[j].overlay),
            None => s1,
        };
        Some(
            (
                path,
                path_join(out_dir, file_stem_of(name) + "."@ + dir_name_of(e) + ".jpg"@),
                s2,
            ),
        )
    }
}

/// The jobs of the first `n` RAFs for an output, in order.
pub open spec fn raf_jobs_upto(
    paths: Seq<Seq<char>>,
    names: Seq<Seq<char>>,
    e: OutputEntryModel,
    base: SettingsModel,
    globals: Seq<(Seq<char>, GlobalOverrideModel)>,
    out_dir: Seq<char>,
    n: int,
) -> Seq<SettledJob>
    decreases n,
{
    if n <= 0 {
        seq![]
    } else {
        let before = raf_jobs_upto(paths, names, e, base, globals, out_dir, n - 1);
        match raf_job(paths[n - 1], names[n - 1], e, base, globals, out_dir) {
            Some(j) => before.push(j),
            None => before,
        }
    }
}

/// A batch: settings and the jobs converted with them.
pub type BatchModel = (SettingsModel, Seq<JobModel>);

/// Consecutive jobs with the same settings grouped into batches.
pub open spec fn group_jobs(jobs: Seq<SettledJob>) -> Seq<BatchModel>
    decreases jobs.len(),
{
    if jobs.len() == 0 {
        seq![]
    } else {
        let g = group_jobs(jobs.drop_last());
        let j = jobs.last();
        if g.len() > 0 && g.last().0 == j.2 {
            g.update(g.len() - 1, (j.2, g.last().1.push((j.0, j.1))))
        } else {
            g.push((j.2, seq![(j.0, j.1)]))
        }
    }
}

/// The jobs of all batches, in order, each with its batch's settings.
pub open spec fn batch_settled(bs: Seq<BatchModel>) -> Seq<SettledJob>
    decreases bs.len(),
{
    if bs.len() == 0 {
        seq![]
    } else {
        batch_settled(bs.drop_last()) + bs.last().1.map_values(
            |jb: JobModel| (jb.0, jb.1, bs.last().0),
        )
    }
}

/// Grouping jobs into batches keeps every job, in order, with the settings
/// it was given; no batch is empty, and neighbouring batches have different
/// settings (so a run of files with the same settings is one batch).
pub proof fn law_group_jobs(jobs: Seq<SettledJob>)
    ensures
        batch_settled(group_jobs(jobs)) == jobs,
        forall|i: int| 0 <= i < group_jobs(jobs).len() ==> #[trigger] group_jobs(jobs)[i].1.len() > 0,
        forall|i: int|
            0 <= i < group_jobs(jobs).len() - 1 ==> #[trigger] group_jobs(jobs)[i].0 != group_jobs(
                jobs,
            )[i + 1].0,
    decreases jobs.len(),
{
    if jobs.len() > 0 {
        let rest = jobs.drop_last();
        law_group_jobs(rest);
        let g = group_jobs(rest);
        let j = jobs.last();
        if g.len() > 0 && g.last().0 == j.2 {
            let l = g.last().1;
            let g2 = g.update(g.len() - 1, (j.2, l.push((j.0, j.1))));
            assert(group_jobs(jobs) == g2);
            assert(g2.drop_last() =~= g.drop_last());
            assert(l.push((j.0, j.1)).map_values(|jb: JobModel| (jb.0, jb.1, j.2)) =~= l.map_values(
                |jb: JobModel| (jb.0, jb.1, j.2),
            ).push(j));
            assert(batch_settled(g2) =~= batch_settled(g.drop_last()) + l.map_values(
                |jb: JobModel| (jb.0, jb.1, j.2),
            ).push(j));
            assert(jobs =~= rest.push(j));
        } else {
            let g2 = g.push((j.2, seq![(j.0, j.1)]));
            assert(group_jobs(jobs) == g2);
            assert(g2.drop_last() =~= g);
            assert(seq![(j.0, j.1)].map_values(|jb: JobModel| (jb.0, jb.1, j.2)) =~= seq![j]);
            assert(jobs =~= rest.push(j));
        }
    }
}

/// Models of jobs with settings.
pub open spec fn settled_views(v: Seq<(String, String, RecipeSettings)>) -> Seq<SettledJob> {
    v.map_values(|j: (String, String, RecipeSettings)| (j.0@, j.1@, j.2@))
}

/// Models of jobs.
pub open spec fn job_views(v: Seq<(String, String)>) -> Seq<JobModel> {
    v.map_values(|j: (String, String)| (j.0@, j.1@))
}

/// Models of batches.
pub open spec fn batch_views(v: Seq<(RecipeSettings, Vec<(String, String)>)>) -> Seq<BatchModel> {
    v.map_values(|b: (RecipeSettings, Vec<(String, String)>)| (b.0@, job_views(b.1@)))
}

proof fn lemma_global_match_step(ovs: Seq<(Seq<char>, GlobalOverrideModel)>, name: Seq<char>, i: int)
    requires
        0 <= i <= ovs.len(),
        forall|k: int| 0 <= k < i ==> !key_matches(#[trigger] ovs[k].0, name),
    ensures
        i < ovs.len() && key_matches(ovs[i].0, name) ==> global_match(ovs, name) == Some(i),
        i == ovs.len() ==> global_match(ovs, name) is None,
    decreases i,
{
    if i > 0 {
        assert forall|k: int| 0 <= k < i - 1 implies !key_matches(#[trigger] ovs.drop_first()[k].0, name) by {
            assert(ovs.drop_first()[k] == ovs[k + 1]);
        }
        lemma_global_match_step(ovs.drop_first(), name, i - 1);
        if i < ovs.len() {
            assert(ovs.drop_first()[i - 1] == ovs[i]);
        }
    }
}

proof fn lemma_output_match_step(ovs: Seq<OutputOverrideModel>, name: Seq<char>, i: int)
    requires
        0 <= i <= ovs.len(),
        forall|k: int| 0 <= k < i ==> !key_matches(#[trigger] ovs[k].match_pattern, name),
    ensures
        i < ovs.len() && key_matches(ovs[i].match_pattern, name) ==> output_match(ovs, name) == Some(i),
        i == ovs.len() ==> output_match(ovs, name) is None,
    decreases i,
{
    if i > 0 {
        assert forall|k: int| 0 <= k < i - 1 implies !key_matches(#[trigger] ovs.drop_first()[k].match_pattern, name) by {
            assert(ovs.drop_first()[k] == ovs[k + 1]);
        }
        lemma_output_match_step(ovs.drop_first(), name, i - 1);
        if i < ovs.len() {
            assert(ovs.drop_first()[i - 1] == ovs[i]);
        }
    }
}

fn first_global_match(globals: &Vec<(String, PerImageOverride)>, name: &str) -> (r: Option<usize>)
    ensures
        match r {
            Some(k) => k < globals@.len() && global_match(
                globals@.map_values(|p: (String, PerImageOverride)| (p.0@, p.1@)),
                name@,
            ) == Some(k as int),
            None => global_match(
                globals@.map_values(|p: (String, PerImageOverride)| (p.0@, p.1@)),
                name@,
            ) is None,
        },
{
    let ghost ovs = globals@.map_values(|p: (String, PerImageOverride)| (p.0@, p.1@));
    let mut k: usize = 0;
    while k < globals.len()
        invariant
            k <= globals.len(),
            ovs == globals@.map_values(|p: (String, PerImageOverride)| (p.0@, p.1@)),
            forall|q: int| 0 <= q < k ==> !key_matches(#[trigger] ovs[q].0, name@),
        decreases globals.len() - k,
    {
        assert(ovs[k as int].0 == globals@[k as int].0@);
        if pattern_matches(globals[k].0.as_str(), name) {
            proof {
                lemma_global_match_step(ovs, name@, k as int);
            }
            return Some(k);
        }
        k += 1;
    }
    proof {
        lemma_global_match_step(ovs, name@, k as int);
    }
    None
}

fn first_output_match(ovs_v: &Vec<OutputPerImageOverride>, name: &str) -> (r: Option<usize>)
    ensures
        match r {
            Some(k) => k < ovs_v@.len() && output_match(
                ovs_v@.map_values(|o: OutputPerImageOverride| o@),
                name@,
            ) == Some(k as int),
            None => output_match(ovs_v@.map_values(|o: OutputPerImageOverride| o@), name@) is None,
        },
{
    let ghost ovs = ovs_v@.map_values(|o: OutputPerImageOverride| o@);
    let mut k: usize = 0;
    while k < ovs_v.len()
        invariant
            k <= ovs_v.len(),
            ovs == ovs_v@.map_values(|o: OutputPerImageOverride| o@),
            forall|q: int| 0 <= q < k ==> !key_matches(#[trigger] ovs[q].match_pattern, name@),
        decreases ovs_v.len() - k,
    {
        assert(ovs[k as int].match_pattern == ovs_v@[k as int].match_pattern@);
        if pattern_matches(ovs_v[k].pattern_key(), name) {
            proof {
                lemma_output_match_step(ovs, name@, k as int);
            }
            return Some(k);
        }
        k += 1;
    }
    proof {
        lemma_output_match_step(ovs, name@, k as int);
    }
    None
}

/// Whether the global overrides' exposure values are all readable.
pub open spec fn globals_readable(globals: Seq<(String, PerImageOverride)>) -> bool {
    forall|k: int| 0 <= k < globals.len() ==> overlay_readable(#[trigger] globals[k].1@.overlay)
}

/// Whether an output's overrides' exposure values are all readable.
pub open spec fn overrides_readable(ovs: Seq<OutputPerImageOverride>) -> bool {
    forall|k: int| 0 <= k < ovs.len() ==> overlay_readable(#[trigger] ovs[k]@.overlay)
}

fn job_for_raf(
    path: &String,
    name: &String,
    entry: &OutputEntry,
    base: &RecipeSettings,
    globals: &Vec<(String, PerImageOverride)>,
    out_dir: &str,
) -> (r: Option<(String, String, RecipeSettings)>)
    requires
        globals_readable(globals@),
        overrides_readable(entry.overrides@),
    ensures
        match r {
            Some(j) => raf_job(
                path@,
                name@,
                entry@,
                base@,
                globals@.map_values(|p: (String, PerImageOverride)| (p.0@, p.1@)),
                out_dir@,
            ) == Some::<SettledJob>((j.0@, j.1@, j.2@)),
            None => raf_job(
                path@,
                name@,
                entry@,
                base@,
                globals@.map_values(|p: (String, PerImageOverride)| (p.0@, p.1@)),
                out_dir@,
            ) is None,
        },
{
    let ghost ovs = globals@.map_values(|p: (String, PerImageOverride)| (p.0@, p.1@));
    let g = first_global_match(globals, name.as_str());
    if let Some(k) = g {
        assert(ovs[k as int].1 == globals@[k as int].1@);
        if is_excluded_by_override(&globals[k].1, output_dir_name(entry), entry.recipe.as_str()) {
            return None;
        }
    }
    let mut settings = base.clone();
    if let Some(k) = g {
        assert(overlay_readable(globals@[k as int].1@.overlay));
        apply_overlay_to_settings(&mut settings, &globals[k].1);
    }
    let o = first_output_match(&entry.overrides, name.as_str());
    if let Some(j) = o {
        assert(entry@.overrides[j as int] == entry.overrides@[j as int]@);
        assert(overlay_readable(entry.overrides@[j as int]@.overlay));
        apply_output_overlay_to_settings(&mut settings, &entry.overrides[j]);
    }
    let mut file = file_stem(name.as_str());
    push_str(&mut file, ".");
    push_str(&mut file, output_suffix(entry));
    push_str(&mut file, ".jpg");
    let out = join_path(out_dir, string_of(&file).as_str());
    Some((string_of(&chars_of(path.as_str())), out, settings))
}

fn entry_jobs(
    raf_paths: &[String],
    raf_names: &[String],
    entry: &OutputEntry,
    base: &RecipeSettings,
    globals: &Vec<(String, PerImageOverride)>,
    out_dir: &str,
) -> (r: Vec<(String, String, RecipeSettings)>)
    requires
        globals_readable(globals@),
        overrides_readable(entry.overrides@),
    ensures
        settled_views(r@) == raf_jobs_upto(
            string_views(raf_paths@),
            string_views(raf_names@),
            entry@,
            base@,
            globals@.map_values(|p: (String, PerImageOverride)| (p.0@, p.1@)),
            out_dir@,
            if raf_paths@.len() < raf_names@.len() {
                raf_paths@.len() as int
            } else {
                raf_names@.len() as int
            },
        ),
{
    let ghost ovs = globals@.map_values(|p: (String, PerImageOverride)| (p.0@, p.1@));
    let n = if raf_paths.len() < raf_names.len() {
        raf_paths.len()
    } else {
        raf_names.len()
    };
    let mut jobs: Vec<(String, String, RecipeSettings)> = Vec::new();
    assert(settled_views(jobs@) =~= Seq::<SettledJob>::empty());
    let mut i: usize = 0;
    while i < n
        invariant
            i <= n <= raf_paths.len(),
            n <= raf_names.len(),
            ovs == globals@.map_values(|p: (String, PerImageOverride)| (p.0@, p.1@)),
            globals_readable(globals@),
            overrides_readable(entry.overrides@),
            settled_views(jobs@) == raf_jobs_upto(
                string_views(raf_paths@),
                string_views(raf_names@),
                entry@,
                base@,
                ovs,
                out_dir@,
                i as int,
            ),
        decreases n - i,
    {
        assert(string_views(raf_paths@)[i as int] == raf_paths@[i as int]@);
        assert(string_views(raf_names@)[i as int] == raf_names@[i as int]@);
        let ghost before = jobs@;
        if let Some(j) = job_for_raf(&raf_paths[i], &raf_names[i], entry, base, globals, out_dir) {
            jobs.push(j);
            assert(settled_views(jobs@) =~= settled_views(before).push((j.0@, j.1@, j.2@)));
        }
        i += 1;
    }
    jobs
}

fn group_settled(jobs: Vec<(String, String, RecipeSettings)>) -> (r: Vec<(RecipeSettings, Vec<(String, String)>)>)
    ensures
        batch_views(r@) == group_jobs(settled_views(jobs@)),
{
    let ghost js = settled_views(jobs@);
    let mut batches: Vec<(RecipeSettings, Vec<(String, String)>)> = Vec::new();
    assert(batch_views(batches@) =~= group_jobs(js.take(0)));
    let mut i: usize = 0;
    while i < jobs.len()
        invariant
            i <= jobs.len(),
            js == settled_views(jobs@),
            batch_views(batches@) == group_jobs(js.take(i as int)),
        decreases jobs.len() - i,
    {
        assert(js.take(i + 1).drop_last() =~= js.take(i as int));
        assert(js.take(i + 1).last() == js[i as int]);
        let path = string_of(&chars_of(jobs[i].0.as_str()));
        let out = string_of(&chars_of(jobs[i].1.as_str()));
        let settings = jobs[i].2.clone();
        let same = batches.len() > 0 && settings_eq(&batches[batches.len() - 1].0, &settings);
        let ghost g = batch_views(batches@);
        if same {
            let mut last = batches.pop().unwrap();
            let ghost l0 = job_views(last.1@);
            last.1.push((path, out));
            assert(job_views(last.1@) =~= l0.push((jobs@[i as int].0@, jobs@[i as int].1@)));
            batches.push(last);
            assert(batch_views(batches@) =~= g.update(
                g.len() - 1,
                (js[i as int].2, g.last().1.push((js[i as int].0, js[i as int].1))),
            ));
        } else {
            let mut one: Vec<(String, String)> = Vec::new();
            one.push((path, out));
            assert(job_views(one@) =~= seq![(js[i as int].0, js[i as int].1)]);
            batches.push((settings, one));
            assert(batch_views(batches@) =~= g.push((js[i as int].2, seq![(js[i as int].0, js[i as int].1)])));
        }
        i += 1;
    }
    assert(js.take(jobs.len() as int) =~= js);
    batches
}

/// The conversions of one output: its directory, its file suffix, and its
/// jobs grouped into batches of equal settings.
pub struct OutputBatch {
    pub output_dir: String,
    pub suffix: String,
    pub batches: Vec<(RecipeSettings, Vec<(String, String)>)>,
}

/// Model of an output's conversions.
pub type OutputBatchModel = (Seq<char>, Seq<char>, Seq<BatchModel>);

/// The conversions of one output, or the message naming its missing recipe.
pub open spec fn expand_entry(
    root: Seq<char>,
    paths: Seq<Seq<char>>,
    names: Seq<Seq<char>>,
    e: OutputEntryModel,
    globals: Seq<(Seq<char>, GlobalOverrideModel)>,
    recipes: Seq<crate::recipes::RecipeModel>,
) -> Result<OutputBatchModel, Seq<char>> {
    match entry_settings(e, recipes) {
        Err(m) => Err(m),
        Ok(base) => {
            let out_dir = path_join(root, dir_name_of(e));
            let n = if paths.len() < names.len() {
                paths.len() as int
            } else {
                names.len() as int
            };
            Ok(
                (
                    out_dir,
                    dir_name_of(e),
                    group_jobs(raf_jobs_upto(paths, names, e, base, globals, out_dir, n)),
                ),
            )
        },
    }
}

/// The conversions of the first `n` outputs, or the first missing recipe.
pub open spec fn expand_upto(
    root: Seq<char>,
    paths: Seq<Seq<char>>,
    names: Seq<Seq<char>>,
    c: ProjectConfigModel,
    recipes: Seq<crate::recipes::RecipeModel>,
    n: int,
) -> Result<Seq<OutputBatchModel>, Seq<char>>
    decreases n,
{
    if n <= 0 {
        Ok(seq![])
    } else {
        match expand_upto(root, paths, names, c, recipes, n - 1) {
            Err(m) => Err(m),
            Ok(v) => match expand_entry(root, paths, names, c.outputs[n - 1], c.overrides, recipes) {
                Err(m) => Err(m),
                Ok(b) => Ok(v.push(b)),
            },
        }
    }
}

proof fn lemma_expand_error_sticks(
    root: Seq<char>,
    paths: Seq<Seq<char>>,
    names: Seq<Seq<char>>,
    c: ProjectConfigModel,
    recipes: Seq<crate::recipes::RecipeModel>,
    k: int,
    n: int,
)
    requires
        0 <= k <= n,
        expand_upto(root, paths, names, c, recipes, k) is Err,
    ensures
        expand_upto(root, paths, names, c, recipes, n) == expand_upto(root, paths, names, c, recipes, k),
    decreases n - k,
{
    if n > k {
        lemma_expand_error_sticks(root, paths, names, c, recipes, k, n - 1);
    }
}

/// Expansion succeeds exactly when every output's recipe is found. It then
/// gives one result per output, in order: the output's directory under the
/// project root and its suffix, and batches holding exactly that output's
/// jobs (the RAFs, in order, that no global override excludes from it, each
/// with its settings and its `{dir}/{stem}.{suffix}.jpg`), no batch empty and
/// neighbouring batches with different settings.
pub proof fn law_expand_outputs(
    root: Seq<char>,
    paths: Seq<Seq<char>>,
    names: Seq<Seq<char>>,
    c: ProjectConfigModel,
    recipes: Seq<crate::recipes::RecipeModel>,
    n: int,
)
    requires
        0 <= n <= c.outputs.len(),
    ensures
        (forall|i: int| 0 <= i < n ==> (#[trigger] entry_settings(c.outputs[i], recipes)) is Ok)
            <==> expand_upto(root, paths, names, c, recipes, n) is Ok,
        expand_upto(root, paths, names, c, recipes, n) matches Ok(v) ==> {
            &&& v.len() == n
            &&& forall|i: int| 0 <= i < n ==> {
                let e = #[trigger] c.outputs[i];
                let out_dir = path_join(root, dir_name_of(e));
                let m = if paths.len() < names.len() {
                    paths.len() as int
                } else {
                    names.len() as int
                };
                &&& v[i].0 == out_dir
                &&& v[i].1 == dir_name_of(e)
                &&& batch_settled(v[i].2) == raf_jobs_upto(
                    paths,
                    names,
                    e,
                    entry_settings(e, recipes)->Ok_0,
                    c.overrides,
                    out_dir,
                    m,
                )
                &&& forall|k: int| 0 <= k < v[i].2.len() ==> (#[trigger] v[i].2[k]).1.len() > 0
                &&& forall|k: int| 0 <= k < v[i].2.len() - 1 ==> (#[trigger] v[i].2[k]).0 != v[i].2[k + 1].0
            }
        },
    decreases n,
{
    if n > 0 {
        law_expand_outputs(root, paths, names, c, recipes, n - 1);
        let e = c.outputs[n - 1];
        match expand_upto(root, paths, names, c, recipes, n - 1) {
            Ok(v) => {
                match entry_settings(e, recipes) {
                    Ok(base) => {
                        let out_dir = path_join(root, dir_name_of(e));
                        let m = if paths.len() < names.len() {
                            paths.len() as int
                        } else {
                            names.len() as int
                        };
                        law_group_jobs(raf_jobs_upto(paths, names, e, base, c.overrides, out_dir, m));
                        let w = expand_upto(root, paths, names, c, recipes, n)->Ok_0;
                        assert(w == v.push(expand_entry(root, paths, names, e, c.overrides, recipes)->Ok_0));
                        assert forall|i: int| 0 <= i < n - 1 implies w[i] == v[i] by {}
                    },
                    Err(_) => {},
                }
            },
            Err(_) => {
                assert(!(entry_settings(c.outputs[n - 1], recipes) is Ok) || !(forall|i: int|
                    0 <= i < n - 1 ==> (#[trigger] entry_settings(c.outputs[i], recipes)) is Ok));
            },
        }
    }
}

/// Models of output batches.
pub open spec fn output_batch_views(v: Seq<OutputBatch>) -> Seq<OutputBatchModel> {
    v.map_values(|b: OutputBatch| (b.output_dir@, b.suffix@, batch_views(b.batches@)))
}

/// Expands a configuration into conversions: for each output, the jobs of
/// the RAFs (paths and file names, in order) it applies to, with their
/// settings, grouped into batches of consecutive equal settings. A missing
/// recipe is an error.
pub fn expand_config(
    project_root: &str,
    raf_paths: &[String],
    raf_names: &[String],
    config: &ProjectConfig,
    recipes: &[Recipe],
) -> (r: Result<Vec<OutputBatch>, String>)
    requires
        config_readable(config@),
    ensures
        match r {
            Ok(v) => expand_upto(
                project_root@,
                string_views(raf_paths@),
                string_views(raf_names@),
                config@,
                recipe_views(recipes@),
                config@.outputs.len() as int,
            ) == Ok::<Seq<OutputBatchModel>, Seq<char>>(output_batch_views(v@)),
            Err(m) => expand_upto(
                project_root@,
                string_views(raf_paths@),
                string_views(raf_names@),
                config@,
                recipe_views(recipes@),
                config@.outputs.len() as int,
            ) == Err::<Seq<OutputBatchModel>, Seq<char>>(m@),
        },
{
    let ghost c = config@;
    let ghost paths = string_views(raf_paths@);
    let ghost names = string_views(raf_names@);
    proof {
        assert forall|k: int| 0 <= k < config.overrides@.len() implies overlay_readable(#[trigger] config.overrides@[k].1@.overlay) by {
            assert(c.overrides[k] == (config.overrides@[k].0@, config.overrides@[k].1@));
            assert(overlay_readable(c.overrides[k].1.overlay));
        }
    }
    let mut result: Vec<OutputBatch> = Vec::new();
    assert(output_batch_views(result@) =~= Seq::<OutputBatchModel>::empty());
    let mut i: usize = 0;
    while i < config.outputs.len()
        invariant
            i <= config.outputs.len(),
            c == config@,
            c.outputs.len() == config.outputs@.len(),
            config_readable(c),
            globals_readable(config.overrides@),
            c.overrides == config.overrides@.map_values(|p: (String, PerImageOverride)| (p.0@, p.1@)),
            paths == string_views(raf_paths@),
            names == string_views(raf_names@),
            expand_upto(project_root@, paths, names, c, recipe_views(recipes@), i as int) == Ok::<Seq<OutputBatchModel>, Seq<char>>(output_batch_views(result@)),
        decreases config.outputs.len() - i,
    {
        let entry = &config.outputs[i];
        assert(c.outputs[i as int] == entry@);
        assert(overlay_readable(c.outputs[i as int].overlay));
        assert forall|k: int| 0 <= k < entry.overrides@.len() implies overlay_readable(#[trigger] entry.overrides@[k]@.overlay) by {
            assert(entry@.overrides[k] == entry.overrides@[k]@);
            assert(overlay_readable(c.outputs[i as int].overrides[k].overlay));
        }
        let base = match resolve_output_entry_settings(entry, recipes) {
            Ok(s) => s,
            Err(m) => {
                proof {
                    lemma_expand_error_sticks(
                        project_root@,
                        paths,
                        names,
                        c,
                        recipe_views(recipes@),
                        i + 1,
                        c.outputs.len() as int,
                    );
                }
                return Err(m);
            },
        };
        let out_dir = join_path(project_root, output_dir_name(entry));
        let suffix = string_of(&chars_of(output_suffix(entry)));
        let jobs = entry_jobs(raf_paths, raf_names, entry, &base, &config.overrides, out_dir.as_str());
        let batches = group_settled(jobs);
        let ghost before = output_batch_views(result@);
        let ob = OutputBatch { output_dir: out_dir, suffix, batches };
        result.push(ob);
        assert(output_batch_views(result@) =~= before.push((ob.output_dir@, ob.suffix@, batch_views(ob.batches@))));
        i += 1;
    }
    Ok(result)
}

} // verus!
