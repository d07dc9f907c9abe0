use fjx::config::{
    apply_overlay_to_settings, default_raw_dir, describe_global_override,
    describe_output_override, expand_config, is_excluded_by_override, output_dir_name,
    output_suffix, parse_film_sim, parse_grain, parse_grain_size, parse_wb_mode,
    pattern_matches, resolve_output_entry_settings, validate_config, validate_glob_pattern,
    validate_overlay_settings, OutputEntry, OutputPerImageOverride, PerImageOverride,
    ProjectConfig, RawDirStatus,
};
use fjx::profile::{FilmSimulation, GrainEffect, GrainSize, RecipeSettings};
use fjx::recipes::Recipe;

fn recipe(name: &str, slug: &str, film: &str) -> Recipe {
    Recipe {
        name: name.to_string(),
        slug: slug.to_string(),
        film_sim: film.to_string(),
        highlight: None,
        shadow: None,
        color: None,
        noise_reduction: None,
        sharpness: None,
        clarity: None,
        grain: None,
        grain_size: None,
        chrome_effect: None,
        chrome_blue: None,
        dynamic_range: None,
        white_balance: None,
        wb_temp: None,
        wb_shift_r: None,
        wb_shift_b: None,
        iso: None,
        exposure_comp: None,
    }
}

fn catalogue() -> Vec<Recipe> {
    vec![recipe("Classic Chrome", "classic-chrome", "classic-chrome"), recipe("Kodak Portra 400", "portra-400", "classic-neg")]
}

fn entry(recipe: &str) -> OutputEntry {
    OutputEntry {
        recipe: recipe.into(),
        suffix: None,
        film_sim: None,
        grain: None,
        grain_size: None,
        exposure_comp: None,
        wb_mode: None,
        overrides: vec![],
    }
}

fn no_overlay_override(exclude: Vec<String>) -> PerImageOverride {
    PerImageOverride {
        exclude_outputs: exclude,
        film_sim: None,
        grain: None,
        grain_size: None,
        exposure_comp: None,
        wb_mode: None,
    }
}

#[test]
fn parse_wb_mode_valid() {
    assert!(parse_wb_mode("auto").is_ok());
    assert!(parse_wb_mode("auto-ambience").is_ok());
    assert!(parse_wb_mode("daylight").is_ok());
    assert!(parse_wb_mode("5500K").is_ok());
    let (mode, temp) = parse_wb_mode("5500K").unwrap();
    assert_eq!(mode, "temperature");
    assert_eq!(temp, Some(5500));
}

#[test]
fn parse_wb_mode_invalid() {
    assert!(parse_wb_mode("invalid-wb").is_err());
    assert!(parse_wb_mode("").is_err());
}

#[test]
fn parse_wb_mode_messages() {
    assert_eq!(parse_wb_mode("  ").unwrap_err(), "empty wb_mode");
    assert_eq!(parse_wb_mode("k").unwrap_err(), "invalid wb_mode \"k\": expected e.g. 5500K");
    assert_eq!(parse_wb_mode("abcK").unwrap_err(), "invalid wb_mode \"abcK\": Kelvin must be a number");
    assert_eq!(parse_wb_mode("1500k").unwrap_err(), "invalid wb_mode \"1500k\": Kelvin typically 2000–10000");
    assert_eq!(
        parse_wb_mode("sunny").unwrap_err(),
        "unknown wb_mode \"sunny\"; use auto, auto-ambience, daylight, shade, incandescent, fluorescent-1/2/3, or e.g. 5500K"
    );
    assert_eq!(parse_wb_mode(" Auto-White ").unwrap(), ("auto".to_string(), None));
    assert_eq!(parse_wb_mode("Fluorescent-2").unwrap(), ("fluorescent-2".to_string(), None));
    assert_eq!(parse_wb_mode("10000 K").unwrap(), ("temperature".to_string(), Some(10000)));
}

#[test]
fn overlay_values_parse_in_any_case() {
    assert_eq!(parse_film_sim("Classic-Chrome"), Some(FilmSimulation::ClassicChrome));
    assert_eq!(parse_film_sim("PROVIA"), Some(FilmSimulation::Provia));
    assert_eq!(parse_film_sim("kodachrome"), None);
    assert_eq!(parse_grain("Strong"), Some(GrainEffect::Strong));
    assert_eq!(parse_grain("off"), None);
    assert_eq!(parse_grain_size("LARGE"), Some(GrainSize::Large));
}

#[test]
fn patterns() {
    assert!(pattern_matches("DSCF*.RAF", "DSCF0001.RAF"));
    assert!(!pattern_matches("DSCF*.RAF", "IMG_0001.RAF"));
    assert!(pattern_matches("one.raf", "one.raf"));
    assert!(!pattern_matches("one.raf", "ONE.raf"));
    assert!(!pattern_matches("a***b", "a***b"));
    assert_eq!(validate_glob_pattern("plain.raf"), None);
    assert_eq!(validate_glob_pattern("DSCF*.RAF"), None);
    assert_eq!(
        validate_glob_pattern("a***b").unwrap(),
        "invalid glob pattern \"a***b\": Pattern syntax error near position 3: wildcards are either regular `*` or recursive `**`"
    );
}

#[test]
fn validate_config_raw_dir_missing() {
    let config = ProjectConfig { raw_dir: "./_MISSING".into(), outputs: vec![], overrides: vec![] };
    let r = validate_config(RawDirStatus::Missing, &[], &config, &catalogue());
    assert!(r.is_err());
    assert_eq!(r.unwrap_err(), vec!["raw_dir './_MISSING' does not exist".to_string()]);
}

#[test]
fn validate_config_rejects_bad_wb_mode() {
    let mut e = entry("classic-chrome");
    e.wb_mode = Some("not-a-wb-mode".into());
    let config = ProjectConfig { raw_dir: "./_RAF".into(), outputs: vec![e], overrides: vec![] };
    let names = vec!["one.raf".to_string()];
    let errs = validate_config(RawDirStatus::Directory, &names, &config, &catalogue()).unwrap_err();
    assert!(errs.iter().any(|e| e.contains("wb_mode") && e.contains("not-a-wb-mode")));
}

#[test]
fn validate_config_rejects_bad_settings() {
    let mut e = entry("classic-chrome");
    e.film_sim = Some("not-a-film-sim".into());
    let config = ProjectConfig { raw_dir: "./_RAF".into(), outputs: vec![e], overrides: vec![] };
    let names = vec!["one.raf".to_string()];
    let errs = validate_config(RawDirStatus::Directory, &names, &config, &catalogue()).unwrap_err();
    assert!(!errs.is_empty());
    assert!(errs.iter().any(|e| e.contains("unknown film_sim") && e.contains("not-a-film-sim")));
    assert_eq!(errs, vec!["Output 1 (recipe classic-chrome) (entry-level): unknown film_sim \"not-a-film-sim\"".to_string()]);
}

#[test]
fn validate_config_reports_every_error_in_order() {
    let mut e = entry("no-such-recipe");
    e.exposure_comp = Some("+5".into());
    e.overrides.push(OutputPerImageOverride {
        match_pattern: "missing.raf".into(),
        film_sim: None,
        grain: Some("huge".into()),
        grain_size: None,
        exposure_comp: None,
        wb_mode: None,
    });
    let config = ProjectConfig {
        raw_dir: "raws".into(),
        outputs: vec![e],
        overrides: vec![("a***b".to_string(), no_overlay_override(vec![]))],
    };
    let names = vec!["one.raf".to_string()];
    let errs = validate_config(RawDirStatus::NotADirectory, &names, &config, &catalogue()).unwrap_err();
    assert_eq!(
        errs,
        vec![
            "raw_dir 'raws' is not a directory".to_string(),
            "Global override key: invalid glob pattern \"a***b\": Pattern syntax error near position 3: wildcards are either regular `*` or recursive `**`".to_string(),
            "Global override \"a***b\" matches no RAF file in raw_dir".to_string(),
            "Output 1 (recipe no-such-recipe): recipe 'no-such-recipe' not found".to_string(),
            "Output 1 (recipe no-such-recipe) (entry-level): invalid exposure_comp \"+5\": out of range: ±3 EV max".to_string(),
            "Output 1 override 1: match \"missing.raf\" matches no RAF in raw_dir".to_string(),
            "Output 1 override \"missing.raf\": unknown grain \"huge\" (use weak or strong)".to_string(),
        ]
    );
}

#[test]
fn validate_config_accepts_a_good_config() {
    let config = ProjectConfig { raw_dir: "./_RAF".into(), outputs: vec![entry("classic-chrome")], overrides: vec![] };
    let names = vec!["one.raf".to_string()];
    assert_eq!(validate_config(RawDirStatus::Directory, &names, &config, &catalogue()), Ok(()));
}

#[test]
fn expand_config_one_raf_one_output() {
    let config = ProjectConfig { raw_dir: "./_RAF".into(), outputs: vec![entry("classic-chrome")], overrides: vec![] };
    let paths = vec!["/proj/_RAF/one.raf".to_string()];
    let names = vec!["one.raf".to_string()];
    let batches = expand_config("/proj", &paths, &names, &config, &catalogue()).unwrap();
    assert_eq!(batches.len(), 1);
    assert_eq!(batches[0].batches.len(), 1);
    let (_, jobs) = &batches[0].batches[0];
    assert_eq!(jobs.len(), 1);
    assert!(jobs[0].0.ends_with("one.raf"));
    assert!(jobs[0].1.ends_with("one.classic-chrome.jpg"));
    assert_eq!(batches[0].output_dir, "/proj/classic-chrome");
    assert_eq!(jobs[0].1, "/proj/classic-chrome/one.classic-chrome.jpg");
}

#[test]
fn expand_config_groups_overrides_and_exclusions() {
    let mut e = entry("portra-400");
    e.suffix = Some("portra".into());
    e.overrides.push(OutputPerImageOverride {
        match_pattern: "c.raf".into(),
        film_sim: Some("acros".into()),
        grain: None,
        grain_size: None,
        exposure_comp: None,
        wb_mode: None,
    });
    let config = ProjectConfig {
        raw_dir: "_RAF".into(),
        outputs: vec![e],
        overrides: vec![("d*".to_string(), no_overlay_override(vec!["portra".to_string()]))],
    };
    let names: Vec<String> = ["a.raf", "b.raf", "c.raf", "d.raf"].iter().map(|s| s.to_string()).collect();
    let paths: Vec<String> = names.iter().map(|n| format!("raw/{n}")).collect();
    let out = expand_config("proj/", &paths, &names, &config, &catalogue()).unwrap();
    assert_eq!(out[0].output_dir, "proj/portra");
    assert_eq!(out[0].suffix, "portra");
    let b = &out[0].batches;
    assert_eq!(b.len(), 2);
    assert_eq!(b[0].1, vec![
        ("raw/a.raf".to_string(), "proj/portra/a.portra.jpg".to_string()),
        ("raw/b.raf".to_string(), "proj/portra/b.portra.jpg".to_string()),
    ]);
    assert_eq!(b[0].0.film_sim, Some(FilmSimulation::ClassicNeg));
    assert_eq!(b[1].1, vec![("raw/c.raf".to_string(), "proj/portra/c.portra.jpg".to_string())]);
    assert_eq!(b[1].0.film_sim, Some(FilmSimulation::Acros));
}

#[test]
fn expand_config_missing_recipe() {
    let config = ProjectConfig { raw_dir: "_RAF".into(), outputs: vec![entry("nope")], overrides: vec![] };
    let r = expand_config("/p", &[], &[], &config, &catalogue());
    assert_eq!(r.err(), Some("Recipe 'nope' not found".to_string()));
}

#[test]
fn resolving_and_overlays() {
    let mut e = entry("classic-chrome");
    e.grain = Some("weak".into());
    e.exposure_comp = Some("-0.7".into());
    e.wb_mode = Some("6000K".into());
    let s = resolve_output_entry_settings(&e, &catalogue()).unwrap();
    assert_eq!(s.film_sim, Some(FilmSimulation::ClassicChrome));
    assert_eq!(s.grain, Some(GrainEffect::Weak));
    assert_eq!(s.exposure_comp, Some(-667));
    assert_eq!(s.white_balance.as_deref(), Some("temperature"));
    assert_eq!(s.wb_temp, Some(6000));
    let mut base = RecipeSettings::default();
    base.wb_shift_r = Some(3);
    let ov = PerImageOverride {
        exclude_outputs: vec![],
        film_sim: Some("nonsense".into()),
        grain: None,
        grain_size: Some("small".into()),
        exposure_comp: Some("bad".into()),
        wb_mode: Some("shade".into()),
    };
    apply_overlay_to_settings(&mut base, &ov);
    assert_eq!(base.film_sim, None);
    assert_eq!(base.grain_size, Some(GrainSize::Small));
    assert_eq!(base.exposure_comp, None);
    assert_eq!(base.white_balance.as_deref(), Some("shade"));
    assert_eq!(base.wb_shift_r, None);
}

#[test]
fn names_and_descriptions() {
    assert_eq!(default_raw_dir(), "./_RAF");
    let mut e = entry("classic-chrome");
    assert_eq!(output_dir_name(&e), "classic-chrome");
    e.suffix = Some("cc".into());
    assert_eq!(output_dir_name(&e), "cc");
    assert_eq!(output_suffix(&e), "cc");
    let ov = PerImageOverride {
        exclude_outputs: vec!["cc".into()],
        film_sim: Some("velvia".into()),
        grain: None,
        grain_size: None,
        exposure_comp: Some("+1".into()),
        wb_mode: None,
    };
    assert!(is_excluded_by_override(&ov, "cc", "classic-chrome"));
    assert!(is_excluded_by_override(&ov, "x", "cc"));
    assert!(!is_excluded_by_override(&ov, "x", "y"));
    let (k, adj) = describe_global_override("DSCF0001.RAF", &ov);
    assert_eq!(k, "DSCF0001.RAF");
    assert_eq!(adj, vec!["film_sim=velvia".to_string(), "exposure_comp=+1".to_string()]);
    let oo = OutputPerImageOverride {
        match_pattern: "*.RAF".into(),
        film_sim: None,
        grain: Some("strong".into()),
        grain_size: Some("large".into()),
        exposure_comp: None,
        wb_mode: Some("auto".into()),
    };
    assert_eq!(oo.pattern_key(), "*.RAF");
    let (k2, adj2) = describe_output_override(&oo);
    assert_eq!(k2, "*.RAF");
    assert_eq!(adj2, vec!["grain=strong".to_string(), "grain_size=large".to_string(), "wb_mode=auto".to_string()]);
    let fs = "x".to_string();
    let errs = validate_overlay_settings("ctx", Some(&fs), None, Some(&fs), None, None);
    assert_eq!(errs, vec![
        "ctx: unknown film_sim \"x\"".to_string(),
        "ctx: unknown grain_size \"x\" (use small or large)".to_string(),
    ]);
}
