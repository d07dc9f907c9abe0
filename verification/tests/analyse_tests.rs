use fjx::analyse::{
    chrome_exif_to_slug, decimal_tenths_of, display_settings_lines, dr_exif_to_value,
    film_mode_to_slug, parse_exif_output, parse_wb_fine, rank_recipes, score_recipe,
    temperatures_comparable, wb_exif_to_slug,
};
use fjx::recipes::Recipe;

const SAMPLE: &str = "FilmMode                        : Classic Chrome
GrainEffectRoughness            : Weak
GrainEffectSize                 : Large
HighlightTone                   : -1.5 (medium soft)
ShadowTone                      : +2 (hard)
Saturation                      : +1 (medium high)
Sharpness                       : -
NoiseReduction                  : -4 (weakest)
Clarity                         : 0
WhiteBalance                    : Kelvin
WhiteBalanceFineTune            : Red +40, Blue -100
ColorChromeEffect               : Strong
ColorChromeFXBlue               : Off
DynamicRange                    : Wide1
ExposureCompensation            : +2/3
ISO                             : 640
ColorTemperature                : 5200
";

fn recipe(slug: &str, film: &str) -> Recipe {
    Recipe {
        name: slug.to_string(),
        slug: slug.to_string(),
        film_sim: film.to_string(),
        highlight: None,
        shadow: None,
        color: None,
        noise_reduction: None,
        sharpness: None,
        clarity: None,
        grain: None,
        grain_size: None,
        chrome_effect: None,
        chrome_blue: None,
        dynamic_range: None,
        white_balance: None,
        wb_temp: None,
        wb_shift_r: None,
        wb_shift_b: None,
        iso: None,
        exposure_comp: None,
    }
}

fn matching_recipe() -> Recipe {
    let mut r = recipe("match", "classic-chrome");
    r.dynamic_range = Some(200);
    r.highlight = Some(-15);
    r.shadow = Some(20);
    r.color = Some(10);
    r.noise_reduction = Some(-40);
    r.clarity = Some(0);
    r.grain = Some("weak".to_string());
    r.grain_size = Some("large".to_string());
    r.chrome_effect = Some("strong".to_string());
    r.chrome_blue = Some("off".to_string());
    r.white_balance = Some("temperature".to_string());
    r.wb_temp = Some(5250);
    r.wb_shift_r = Some(20);
    r.wb_shift_b = Some(-50);
    r
}

#[test]
fn exif_fields_and_lookups() {
    let e = parse_exif_output(SAMPLE);
    assert_eq!(e.fields.len(), 17);
    assert_eq!(e.get("FilmMode"), Some("Classic Chrome".to_string()));
    assert_eq!(e.get("Sharpness"), None);
    assert_eq!(e.get("Missing"), None);
    assert_eq!(e.get_num("HighlightTone"), Some(-15));
    assert_eq!(e.get_num("ShadowTone"), Some(20));
    assert_eq!(e.get_num("Clarity"), Some(0));
    assert_eq!(e.get_num("Sharpness"), None);
    assert_eq!(e.get_num("FilmMode"), None);
}

#[test]
fn exif_lines_without_colon_are_skipped() {
    let e = parse_exif_output("no colon here\nKey: a: b\n");
    assert_eq!(e.fields, vec![("Key".to_string(), "a: b".to_string())]);
}

#[test]
fn decimals_in_tenths() {
    let t = |s: &str| decimal_tenths_of(&s.chars().collect());
    assert_eq!(t("5"), Some(50));
    assert_eq!(t("-1.5"), Some(-15));
    assert_eq!(t("+.5"), Some(5));
    assert_eq!(t("2.0"), Some(20));
    assert_eq!(t(""), None);
    assert_eq!(t("x"), None);
}

#[test]
fn exif_names_to_slugs() {
    assert_eq!(film_mode_to_slug("Classic Negative"), "classic-neg");
    assert_eq!(film_mode_to_slug("B&W+R Filter"), "monochrome-r");
    assert_eq!(film_mode_to_slug("Something New"), "Something New");
    assert_eq!(wb_exif_to_slug("Auto (white priority)"), "auto");
    assert_eq!(wb_exif_to_slug("Kelvin"), "temperature");
    assert_eq!(wb_exif_to_slug("Day White Fluorescent"), "fluorescent-2");
    assert_eq!(wb_exif_to_slug("Custom"), "Custom");
    assert_eq!(chrome_exif_to_slug("Strong"), "strong");
    assert_eq!(chrome_exif_to_slug("OFF"), "off");
    assert_eq!(chrome_exif_to_slug("Medium"), "Medium");
}

#[test]
fn dynamic_range_values() {
    assert_eq!(dr_exif_to_value("Standard"), Some(100));
    assert_eq!(dr_exif_to_value("Wide 1"), Some(200));
    assert_eq!(dr_exif_to_value("Wide2"), Some(400));
    assert_eq!(dr_exif_to_value("400%"), Some(400));
    assert_eq!(dr_exif_to_value("Auto"), None);
}

#[test]
fn wb_fine_tune_in_recipe_units() {
    assert_eq!(parse_wb_fine("Red +20, Blue -120"), (1, -6));
    assert_eq!(parse_wb_fine("Blue 60"), (0, 3));
    assert_eq!(parse_wb_fine("Red -30"), (-1, 0));
    assert_eq!(parse_wb_fine("garbage"), (0, 0));
}

#[test]
fn display_lines_of_sample() {
    let e = parse_exif_output(SAMPLE);
    let row = |l: &str, v: &str| format!("  {:<18} {}", l, v);
    assert_eq!(
        display_settings_lines(&e),
        vec![
            row("Film Simulation", "classic-chrome"),
            row("Dynamic Range", "DR200"),
            row("Grain", "weak / large"),
            row("Color Effect", "chrome:strong  blue:off"),
            row("White Balance", "5200K  R:+2 B:-5"),
            row("Tone", "highlight:-1.5  shadow:+2"),
            row("Color", "+1"),
            row("Sharpness", "0"),
            row("NR", "-4"),
            row("Clarity", "0"),
            row("ISO", "640"),
            row("Exposure", "+2/3"),
        ]
    );
}

#[test]
fn display_lines_with_missing_tags() {
    let e = parse_exif_output("");
    let row = |l: &str, v: &str| format!("  {:<18} {}", l, v);
    let lines = display_settings_lines(&e);
    assert_eq!(lines[0], row("Film Simulation", "unknown"));
    assert_eq!(lines[1], row("Dynamic Range", "auto"));
    assert_eq!(lines[2], row("Grain", "off"));
    assert_eq!(lines[4], row("White Balance", "auto  R:0 B:0"));
    assert_eq!(lines[10], row("ISO", "?"));
    assert_eq!(lines[11], row("Exposure", "0"));
}

#[test]
fn full_match_scores_every_point() {
    let e = parse_exif_output(SAMPLE);
    let m = score_recipe(&e, &matching_recipe());
    // film 5 + dr 2 + five numbers 1 each + grain 1 + size 0.5 + chrome 2 + wb 2 + temp 1 + shifts 1
    assert_eq!(m.max_score, 39);
    assert_eq!(m.score, m.max_score);
}

#[test]
fn partial_match_scores() {
    let e = parse_exif_output(SAMPLE);
    let mut r = recipe("other", "provia");
    r.highlight = Some(-10);
    r.wb_temp = Some(5600);
    r.white_balance = Some("temperature".to_string());
    let m = score_recipe(&e, &r);
    // film 0/5, highlight 0.5/1, grain 0/1, chrome 0/1 + 1/1, wb 2/2, temp 0.5/1
    assert_eq!(m.max_score, 2 * 12);
    assert_eq!(m.score, 1 + 2 + 4 + 1);
}

#[test]
fn ranking_puts_best_first_and_keeps_ties_in_order() {
    let e = parse_exif_output(SAMPLE);
    let rs = vec![recipe("a", "provia"), matching_recipe(), recipe("b", "provia")];
    let ranked = rank_recipes(&e, &rs);
    assert_eq!(ranked.len(), 3);
    assert_eq!(ranked[0].0, 1);
    assert_eq!(ranked[1].0, 0);
    assert_eq!(ranked[2].0, 2);
    assert_eq!(ranked[1].1, ranked[2].1);
}


#[test]
fn temperatures_compare_within_i32() {
    let e = parse_exif_output("WhiteBalance: Kelvin\nColorTemperature: 2147483647\n");
    let mut r = recipe("k", "provia");
    r.white_balance = Some("temperature".to_string());
    r.wb_temp = Some(5000);
    assert!(temperatures_comparable(&e, &r));
    r.wb_temp = Some(2147483648);
    assert!(!temperatures_comparable(&e, &r));
    r.white_balance = Some("auto".to_string());
    assert!(temperatures_comparable(&e, &r));
}
