use fjx::profile::{ChromeLevel, FilmSimulation, GrainEffect, GrainSize};
use fjx::recipes::{film_from_slug, find, list_recipes, show_recipe, Recipe};

fn recipe(name: &str, slug: &str, film: &str) -> Recipe {
    Recipe {
        name: name.to_string(),
        slug: slug.to_string(),
        film_sim: film.to_string(),
        highlight: None,
        shadow: None,
        color: None,
        noise_reduction: None,
        sharpness: None,
        clarity: None,
        grain: None,
        grain_size: None,
        chrome_effect: None,
        chrome_blue: None,
        dynamic_range: None,
        white_balance: None,
        wb_temp: None,
        wb_shift_r: None,
        wb_shift_b: None,
        iso: None,
        exposure_comp: None,
    }
}

fn catalogue() -> Vec<Recipe> {
    vec![
        recipe("Kodak Portra 400", "kodak-portra-400", "classic-neg"),
        recipe("Classic Chrome", "classic-chrome", "classic-chrome"),
        recipe("Classic Chrome Warm", "classic-chrome-warm", "classic-chrome"),
    ]
}

#[test]
fn find_prefers_exact_slug() {
    let rs = catalogue();
    assert_eq!(find(&rs, "classic-chrome").unwrap().slug, "classic-chrome");
    assert_eq!(find(&rs, "CLASSIC-CHROME").unwrap().slug, "classic-chrome");
}

#[test]
fn find_falls_back_to_substring_of_slug_or_name() {
    let rs = catalogue();
    assert_eq!(find(&rs, "portra").unwrap().slug, "kodak-portra-400");
    assert_eq!(find(&rs, "Chrome Warm").unwrap().slug, "classic-chrome-warm");
    assert!(find(&rs, "velvia").is_none());
}

#[test]
fn film_slugs() {
    assert_eq!(film_from_slug(&"classic-chrome".chars().collect()), Some(FilmSimulation::ClassicChrome));
    assert_eq!(film_from_slug(&"reala-ace".chars().collect()), Some(FilmSimulation::RealaAce));
    assert_eq!(film_from_slug(&"kodachrome".chars().collect()), None);
}

#[test]
fn settings_of_recipe() {
    let mut r = recipe("Test", "test", "acros-r");
    r.highlight = Some(-15);
    r.color = Some(29);
    r.sharpness = Some(-21);
    r.grain = Some("strong".to_string());
    r.grain_size = Some("large".to_string());
    r.chrome_effect = Some("weak".to_string());
    r.chrome_blue = Some("bogus".to_string());
    r.wb_shift_r = Some(20);
    r.dynamic_range = Some(400);
    r.exposure_comp = Some("+1/3".to_string());
    let s = r.to_settings();
    assert_eq!(s.film_sim, Some(FilmSimulation::AcrosR));
    assert_eq!(s.highlight, Some(-15));
    assert_eq!(s.color, Some(2));
    assert_eq!(s.sharpness, Some(-2));
    assert_eq!(s.grain, Some(GrainEffect::Strong));
    assert_eq!(s.grain_size, Some(GrainSize::Large));
    assert_eq!(s.chrome_effect, Some(ChromeLevel::Weak));
    assert_eq!(s.chrome_blue, None);
    assert_eq!(s.wb_shift_r, Some(2));
    assert_eq!(s.dynamic_range, Some(400));
    assert_eq!(s.exposure_comp, None);
}

#[test]
fn list_lines_layout() {
    let mut rs = catalogue();
    rs[0].dynamic_range = Some(200);
    rs[0].white_balance = Some("temperature".to_string());
    rs[0].wb_temp = Some(5200);
    rs[1].white_balance = Some("daylight".to_string());
    let lines = list_recipes(&rs);
    assert_eq!(lines.len(), 4);
    assert_eq!(lines[0], "3 built-in recipes (X100VI compatible):\n");
    assert_eq!(
        lines[1],
        format!("  {:<35} {:<22} {:<6} {}", "kodak-portra-400", "classic-neg", "DR200", "5200K")
    );
    assert_eq!(
        lines[2],
        format!("  {:<35} {:<22} {:<6} {}", "classic-chrome", "classic-chrome", "auto", "daylight")
    );
    assert_eq!(
        lines[3],
        format!("  {:<35} {:<22} {:<6} {}", "classic-chrome-warm", "classic-chrome", "auto", "auto")
    );
}

#[test]
fn show_lines_layout() {
    let mut r = recipe("Café Film", "cafe-film", "classic-neg");
    r.grain = Some("weak".to_string());
    r.highlight = Some(-15);
    r.shadow = Some(0);
    r.color = Some(-20);
    r.wb_shift_r = Some(20);
    r.wb_shift_b = Some(-40);
    r.white_balance = Some("auto".to_string());
    r.iso = Some("up to 6400".to_string());
    let lines = show_recipe(&r);
    let row = |l: &str, v: &str| format!("  {:<18} {}", l, v);
    assert_eq!(
        lines,
        vec![
            "Café Film".to_string(),
            "─".repeat("Café Film".len()),
            row("Slug", "cafe-film"),
            row("Film Simulation", "classic-neg"),
            row("Dynamic Range", "auto"),
            row("Grain", "weak / small"),
            row("Color Effect", "chrome:off  blue:off"),
            row("White Balance", "auto  R:+2 B:-4"),
            row("Tone", "highlight:-1.5  shadow:0"),
            row("Color", "-2"),
            row("Sharpness", "0"),
            row("NR", "0"),
            row("Clarity", "0"),
            row("ISO", "up to 6400"),
            row("Exposure", "0"),
        ]
    );
}
