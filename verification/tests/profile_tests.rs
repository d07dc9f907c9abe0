use fjx::profile::{
    apply_recipe, current_film_sim, encode_exposure_comp, encode_noise_reduction, encode_range,
    encode_white_balance, format_ev, parse_exposure_comp, dump_profile, read_prop,
    write_prop, ChromeLevel, FilmSimulation, GrainEffect, GrainSize, RecipeSettings,
};

#[test]
fn test_parse_exposure_comp_fractions() {
    assert_eq!(parse_exposure_comp("0").unwrap(), 0);
    assert_eq!(parse_exposure_comp("+1/3").unwrap(), 333);
    assert_eq!(parse_exposure_comp("-1/3").unwrap(), -333);
    assert_eq!(parse_exposure_comp("+2/3").unwrap(), 667);
    assert_eq!(parse_exposure_comp("-2/3").unwrap(), -667);
    assert_eq!(parse_exposure_comp("+1").unwrap(), 1000);
    assert_eq!(parse_exposure_comp("-1").unwrap(), -1000);
    assert_eq!(parse_exposure_comp("+1 1/3").unwrap(), 1333);
    assert_eq!(parse_exposure_comp("-1 2/3").unwrap(), -1667);
    assert_eq!(parse_exposure_comp("+2").unwrap(), 2000);
    assert_eq!(parse_exposure_comp("-3").unwrap(), -3000);
    assert_eq!(parse_exposure_comp("+2 2/3").unwrap(), 2667);
    assert_eq!(parse_exposure_comp("1/3").unwrap(), 333);
    assert_eq!(parse_exposure_comp("2").unwrap(), 2000);
}

#[test]
fn test_parse_exposure_comp_decimal_shorthand() {
    assert_eq!(parse_exposure_comp("+0.3").unwrap(), 333);
    assert_eq!(parse_exposure_comp("-0.3").unwrap(), -333);
    assert_eq!(parse_exposure_comp("+0.7").unwrap(), 667);
    assert_eq!(parse_exposure_comp("-0.7").unwrap(), -667);
    assert_eq!(parse_exposure_comp("+1.3").unwrap(), 1333);
    assert_eq!(parse_exposure_comp("-1.7").unwrap(), -1667);
    assert_eq!(parse_exposure_comp("+2.3").unwrap(), 2333);
    assert_eq!(parse_exposure_comp("-2.7").unwrap(), -2667);
    assert_eq!(parse_exposure_comp("1.0").unwrap(), 1000);
    assert_eq!(parse_exposure_comp(".3").unwrap(), 333);
    assert_eq!(parse_exposure_comp("-.7").unwrap(), -667);
}

#[test]
fn test_parse_exposure_comp_errors() {
    assert!(parse_exposure_comp("+4").is_err());
    assert!(parse_exposure_comp("abc").is_err());
    assert!(parse_exposure_comp("+1 3/4").is_err());
    assert!(parse_exposure_comp("+1.5").is_err());
    assert!(parse_exposure_comp("").is_err());
}

#[test]
fn test_format_ev() {
    assert_eq!(format_ev(0), "0");
    assert_eq!(format_ev(333), "+1/3");
    assert_eq!(format_ev(-333), "-1/3");
    assert_eq!(format_ev(667), "+2/3");
    assert_eq!(format_ev(-667), "-2/3");
    assert_eq!(format_ev(1000), "+1");
    assert_eq!(format_ev(-1000), "-1");
    assert_eq!(format_ev(1333), "+1 1/3");
    assert_eq!(format_ev(-2667), "-2 2/3");
    assert_eq!(format_ev(3000), "+3");
}

#[test]
fn test_encode_exposure_comp_twos_complement() {
    assert_eq!(encode_exposure_comp(0), 0);
    assert_eq!(encode_exposure_comp(333), 333);
    assert_eq!(encode_exposure_comp(-333), 0xfffffeb3);
    assert_eq!(encode_exposure_comp(-1000), 0xfffffc18);
    assert_eq!(encode_exposure_comp(3000), 3000);
}

#[test]
fn parse_exposure_comp_error_messages() {
    assert_eq!(parse_exposure_comp("").unwrap_err(), "empty string");
    assert_eq!(parse_exposure_comp("+4").unwrap_err(), "out of range: ±3 EV max");
    assert_eq!(parse_exposure_comp("abc").unwrap_err(), "invalid number: abc");
    assert_eq!(parse_exposure_comp("+1.5").unwrap_err(), "use .3 for 1/3 or .7 for 2/3 (got .5)");
    assert_eq!(parse_exposure_comp("+1 3/4").unwrap_err(), "unsupported fraction: 3/4 (use 1/3 or 2/3)");
    assert_eq!(parse_exposure_comp("1 2 1/3").unwrap_err(), "cannot parse '1 2 1/3'");
    assert_eq!(parse_exposure_comp("  - 2  ").unwrap(), -2000);
}

#[test]
fn format_ev_then_parse_gives_back_the_value() {
    for m in [-3000, -2667, -2333, -2000, -1667, -1333, -1000, -667, -333, 0, 333, 667, 1000, 1333, 1667, 2000, 2333, 2667, 3000] {
        assert_eq!(parse_exposure_comp(&format_ev(m)).unwrap(), m);
    }
    assert_eq!(format_ev(1250), "+1.250");
    assert_eq!(format_ev(-5), "-0.005");
}

#[test]
fn encodings() {
    assert_eq!(encode_range(-2), 0xFFFF_FFEC);
    assert_eq!(encode_range(3), 30);
    assert_eq!(encode_noise_reduction(-4), 0x8000);
    assert_eq!(encode_noise_reduction(2), 0);
    assert_eq!(encode_noise_reduction(9), 0x2000);
    assert_eq!(FilmSimulation::ClassicChrome.to_d185(), 0x0B);
    assert_eq!(FilmSimulation::RealaAce.label(), "REALA ACE");
    assert_eq!(GrainEffect::Weak.to_d185(Some(GrainSize::Large)), 4);
    assert_eq!(GrainEffect::Strong.to_d185(None), 3);
    assert_eq!(GrainEffect::Off.to_d185(Some(GrainSize::Large)), 1);
    assert_eq!(GrainSize::Large.to_d185(), 0x20);
    assert_eq!(ChromeLevel::Strong.to_d185(), 3);
}

#[test]
fn white_balance_is_matched_after_trimming_and_lowercasing() {
    assert_eq!(encode_white_balance(" Auto ", None), Some(0x0002));
    assert_eq!(encode_white_balance("AUTO-AMBIENCE", None), Some(0x0002));
    assert_eq!(encode_white_balance("Shade", None), Some(0x8006));
    assert_eq!(encode_white_balance("Temperature", Some(5500)), Some(0x8007));
    assert_eq!(encode_white_balance("underwater", None), None);
}

fn blank_profile(n_props: usize) -> Vec<u8> {
    let mut p = vec![0u8; 0x201 + 4 * n_props];
    p[0] = n_props as u8;
    p
}

#[test]
fn read_after_write_prop() {
    let mut p = blank_profile(29);
    write_prop(&mut p, 7, 0x0B);
    write_prop(&mut p, 4, 0xFFFF_FEB3);
    assert_eq!(read_prop(&p, 7), Some(0x0B));
    assert_eq!(read_prop(&p, 4), Some(0xFFFF_FEB3));
    assert_eq!(read_prop(&p, 5), Some(0));
    assert_eq!(read_prop(&p, 29), None);
    let len = p.len();
    write_prop(&mut p, 40, 1);
    assert_eq!(p.len(), len);
    assert_eq!(&p[0x201 + 16..0x201 + 20], &[0xB3, 0xFE, 0xFF, 0xFF]);
}

#[test]
fn apply_recipe_sets_properties_and_logs() {
    let mut p = blank_profile(29);
    let mut s = RecipeSettings::default();
    s.film_sim = Some(FilmSimulation::ClassicChrome);
    s.grain = Some(GrainEffect::Strong);
    s.grain_size = Some(GrainSize::Large);
    s.highlight = Some(-15);
    s.color = Some(-2);
    s.white_balance = Some("Auto".to_string());
    s.wb_shift_r = Some(2);
    let log = apply_recipe(&mut p, &s);
    assert_eq!(
        log,
        "  FilmSim 0x0 -> 0xB\n  Grain 0x0 -> 0x5\n  Highlight 0x0 -> 0xFFFFFFF1\n  Color 0x0 -> 0xFFFFFFEC\n  WBShootCond 0x0 -> 0x0\n  WB 0x0 -> 0x2\n  WB-R 0x0 -> 0x2"
    );
    assert_eq!(read_prop(&p, 7), Some(0x0B));
    assert_eq!(read_prop(&p, 8), Some(5));
    assert_eq!(read_prop(&p, 15), Some(0xFFFF_FFF1));
    assert_eq!(read_prop(&p, 11), Some(2));
    assert_eq!(current_film_sim(&p), "Classic Chrome (0xB)");
}

#[test]
fn apply_recipe_clamps_exposure_at_dr400() {
    let mut p = blank_profile(29);
    let mut s = RecipeSettings::default();
    s.dynamic_range = Some(400);
    s.exposure_comp = Some(-3000);
    let log = apply_recipe(&mut p, &s);
    assert_eq!(
        log,
        "  DynamicRange 0x0 -> 0x190\n  ExposureBias clamped -3 -> -2 (DR400 limits negative EV to -2)\n  ExposureBias 0x0 -> 0xFFFFF830"
    );
    assert_eq!(read_prop(&p, 4), Some((-2000i32) as u32));
}

#[test]
fn apply_recipe_edge_cases() {
    let mut short = vec![0u8; 0x204];
    let mut s = RecipeSettings::default();
    s.film_sim = Some(FilmSimulation::Velvia);
    assert_eq!(apply_recipe(&mut short, &s), "profile too short to modify");
    assert_eq!(short, vec![0u8; 0x204]);
    let mut p = blank_profile(29);
    let before = p.clone();
    assert_eq!(apply_recipe(&mut p, &RecipeSettings::default()), "no changes");
    assert_eq!(p, before);
    // A profile that only holds the first property: the change is logged, but
    // the film simulation slot is not there to write.
    let mut small = vec![0u8; 0x205];
    assert_eq!(apply_recipe(&mut small, &s), "  FilmSim 0x0 -> 0x2");
    assert_eq!(small, vec![0u8; 0x205]);
}

#[test]
fn current_film_sim_reads_the_code() {
    let mut p = blank_profile(29);
    write_prop(&mut p, 7, 0x14);
    assert_eq!(current_film_sim(&p), "REALA ACE (0x14)");
    write_prop(&mut p, 7, 0x99);
    assert_eq!(current_film_sim(&p), "Unknown (0x99)");
    assert_eq!(current_film_sim(&[0u8; 16]), "unreadable");
}

#[test]
fn summary_and_merge() {
    let mut s = RecipeSettings::default();
    assert!(s.is_empty());
    assert_eq!(s.summary(), "camera defaults");
    s.wb_temp = Some(5500);
    assert!(s.is_empty());
    s.film_sim = Some(FilmSimulation::Acros);
    s.grain = Some(GrainEffect::Weak);
    s.grain_size = Some(GrainSize::Small);
    s.highlight = Some(-15);
    s.shadow = Some(20);
    s.sharpness = Some(0);
    s.white_balance = Some("temperature".to_string());
    s.chrome_effect = Some(ChromeLevel::Weak);
    s.dynamic_range = Some(200);
    s.exposure_comp = Some(-667);
    assert!(!s.is_empty());
    assert_eq!(
        s.summary(),
        "Film: Acros, Grain: Weak/small, Highlight: -1.5, Shadow: +2, Sharp: +0, WB: 5500K, Chrome: Weak, DR200, EV: -2/3"
    );
    s.merge_cli(Some(FilmSimulation::Provia), None, Some(GrainSize::Large), Some(333));
    assert_eq!(s.film_sim, Some(FilmSimulation::Provia));
    assert_eq!(s.grain, Some(GrainEffect::Weak));
    assert_eq!(s.grain_size, Some(GrainSize::Large));
    assert_eq!(s.exposure_comp, Some(333));
}

#[test]
fn dump_lines() {
    let mut p = blank_profile(3);
    write_prop(&mut p, 1, 0xFFFF_FFEC);
    write_prop(&mut p, 2, 7);
    let lines = dump_profile(&p);
    assert_eq!(lines[0], "  n_props=3 (max from size: 3)");
    assert_eq!(lines[1], "  [ 0] ShootingCondition    = 0 (0x00000000)");
    assert_eq!(lines[2], "  [ 1] FileType             = -20 (0xFFFFFFEC)");
    assert_eq!(lines[3], "  [ 2] ImageSize            = 7 (0x00000007)");
    assert_eq!(lines.len(), 4);
    assert_eq!(dump_profile(&[0u8; 10]), vec!["  Profile too short (10 bytes)".to_string()]);
}

#[test]
fn far_indices_read_nothing_and_write_nothing() {
    let mut p = blank_profile(3);
    let before = p.clone();
    assert_eq!(read_prop(&p, usize::MAX), None);
    assert_eq!(read_prop(&p, 0x4000_0000), None);
    write_prop(&mut p, usize::MAX, 7);
    assert_eq!(p, before);
}

#[test]
fn short_profile_is_reported_whatever_the_settings() {
    let mut p = vec![0u8; 0x204];
    let s = RecipeSettings { color: Some(300_000_000), ..RecipeSettings::default() };
    assert_eq!(apply_recipe(&mut p, &s), "profile too short to modify");
    assert_eq!(p, vec![0u8; 0x204]);
}

#[test]
fn applying_twice_is_applying_once() {
    let mut s = RecipeSettings::default();
    s.film_sim = Some(FilmSimulation::ClassicNeg);
    s.dynamic_range = Some(400);
    s.exposure_comp = Some(-3000);
    s.white_balance = Some("Daylight".to_string());
    s.wb_temp = Some(5200);
    s.wb_shift_r = Some(2);
    let mut p = blank_profile(29);
    apply_recipe(&mut p, &s);
    let once = p.clone();
    apply_recipe(&mut p, &s);
    assert_eq!(p, once);
    assert_eq!(read_prop(&p, 10), Some(0));
    assert_eq!(read_prop(&p, 11), Some(0x0004));
    assert_eq!(read_prop(&p, 14), Some(5200));
    assert_eq!(read_prop(&p, 4), Some((-2000i32) as u32));
    assert_eq!(read_prop(&p, 20), Some(0));
    assert_eq!(&p[..0x201], &once[..0x201]);
}

#[test]
fn sign_only_negates_an_exposure() {
    for b in ["1/3", "2 2/3", "1.7", "3", "0", "4", "x"] {
        let plain = parse_exposure_comp(b).ok();
        assert_eq!(parse_exposure_comp(&format!("-{b}")).ok(), plain.map(|m| -m));
        assert_eq!(parse_exposure_comp(&format!("+{b}")).ok(), plain);
    }
}
