use fjx::cli::{
    device_info_lines, file_name, hex_dump, is_raf_name, is_x100vi, path_display_relative_to,
    pending_jobs, plan_convert, project_template, prop_line, raw_dir_path, sudo_owner,
    validate_report_lines, vendor_props,
};
use fjx::config::{OutputBatch, OutputEntry, OutputPerImageOverride, PerImageOverride, ProjectConfig};
use fjx::profile::RecipeSettings;
use fjx::ptp::DeviceInfo;

fn entry(recipe: &str) -> OutputEntry {
    OutputEntry {
        recipe: recipe.into(),
        suffix: None,
        film_sim: None,
        grain: None,
        grain_size: None,
        exposure_comp: None,
        wb_mode: None,
        overrides: vec![],
    }
}

#[test]
fn x100vi_detection() {
    assert!(is_x100vi(0x0305, ""));
    assert!(is_x100vi(0x0999, "Fujifilm x100vi"));
    assert!(!is_x100vi(0x0999, "X-T5"));
}

#[test]
fn raf_names() {
    assert!(is_raf_name("DSCF0001.RAF"));
    assert!(is_raf_name("a.raf"));
    assert!(is_raf_name(".Raf"));
    assert!(!is_raf_name("raf"));
    assert!(!is_raf_name("photo.jpg"));
}

#[test]
fn raw_dir_is_trimmed() {
    assert_eq!(raw_dir_path("  ./_RAF/ "), "./_RAF");
    assert_eq!(raw_dir_path("_RAF"), "_RAF");
}

#[test]
fn sudo_owner_needs_both_ids() {
    assert_eq!(sudo_owner(Some("501"), Some("20")), Some((501, 20)));
    assert_eq!(sudo_owner(Some("501"), None), None);
    assert_eq!(sudo_owner(Some("x"), Some("20")), None);
}

#[test]
fn file_names_of_paths() {
    let f = |p: &str| file_name(p).map(|v| v.into_iter().collect::<String>());
    assert_eq!(f("dir/one.raf"), Some("one.raf".to_string()));
    assert_eq!(f("dir/one.raf/"), Some("one.raf".to_string()));
    assert_eq!(f("./x"), Some("x".to_string()));
    assert_eq!(f("a/.."), None);
    assert_eq!(f("/"), None);
}

#[test]
fn relative_display() {
    assert_eq!(path_display_relative_to("/p/out/classic", "/p"), "out/classic");
    assert_eq!(path_display_relative_to("/p/out", "/p/"), "out");
    assert_eq!(path_display_relative_to("/p", "/p"), "");
    assert_eq!(path_display_relative_to("/pq/out", "/p"), "/pq/out");
    assert_eq!(path_display_relative_to("/other/out", "/p"), "/other/out");
}

#[test]
fn convert_plan_without_output() {
    let inputs = vec!["shots/DSCF1.RAF".to_string()];
    let plan = plan_convert(&inputs, None, false, "converted");
    assert!(plan.out_dir.is_none());
    assert_eq!(plan.jobs, vec![("shots/DSCF1.RAF".to_string(), "DSCF1-converted.jpg".to_string())]);
}

#[test]
fn convert_plan_with_output_file_and_dirs() {
    let one = vec!["a/x.RAF".to_string()];
    let plan = plan_convert(&one, Some("out.jpg"), false, "classic");
    assert!(plan.out_dir.is_none());
    assert_eq!(plan.jobs[0].1, "out.jpg");
    let plan = plan_convert(&one, Some("outdir/"), false, "classic");
    assert_eq!(plan.out_dir, Some("outdir/".to_string()));
    assert_eq!(plan.jobs[0].1, "outdir/x-classic.jpg");
    let two = vec!["x.RAF".to_string(), "y.RAF".to_string()];
    let plan = plan_convert(&two, Some("outdir"), false, "classic");
    assert_eq!(plan.out_dir, Some("outdir".to_string()));
    assert_eq!(plan.jobs[1].1, "outdir/y-classic.jpg");
    let plan = plan_convert(&one, Some("existing"), true, "classic");
    assert_eq!(plan.jobs[0].1, "existing/x-classic.jpg");
}

#[test]
fn pending_skips_existing_unless_forced() {
    let jobs = vec![
        ("a".to_string(), "a.jpg".to_string()),
        ("b".to_string(), "b.jpg".to_string()),
    ];
    assert_eq!(pending_jobs(&jobs, &[true, false], false), vec![jobs[1].clone()]);
    assert_eq!(pending_jobs(&jobs, &[true, false], true), jobs);
}

#[test]
fn template_names_recipe() {
    let t = project_template("kodachrome-64");
    assert!(t.starts_with("# Fujifilm X100VI project config — use with: fjx project convert\n"));
    assert!(t.contains("[[output]]\nrecipe = \"kodachrome-64\"\n"));
    assert!(t.ends_with("exclude_outputs = [\"portra-400\"] }\n"));
}

#[test]
fn validate_report_layout() {
    let mut e = entry("classic-chrome");
    e.overrides.push(OutputPerImageOverride {
        match_pattern: "DSCF*.RAF".to_string(),
        film_sim: Some("velvia".to_string()),
        grain: None,
        grain_size: None,
        exposure_comp: Some("-0.3".to_string()),
        wb_mode: None,
    });
    let cfg = ProjectConfig {
        raw_dir: "./_RAF".to_string(),
        outputs: vec![e],
        overrides: vec![(
            "DSCF0001.RAF".to_string(),
            PerImageOverride {
                exclude_outputs: vec!["portra".to_string()],
                film_sim: None,
                grain: Some("strong".to_string()),
                grain_size: None,
                exposure_comp: None,
                wb_mode: None,
            },
        )],
    };
    let batches = vec![OutputBatch {
        output_dir: "/p/classic-chrome".to_string(),
        suffix: "classic-chrome".to_string(),
        batches: vec![(
            RecipeSettings::default(),
            vec![
                ("a".to_string(), "a.jpg".to_string()),
                ("b".to_string(), "b.jpg".to_string()),
            ],
        )],
    }];
    let lines = validate_report_lines(&cfg, 2, &batches, "/p");
    assert_eq!(
        lines,
        vec![
            "Config is valid.\n".to_string(),
            "Operations:".to_string(),
            "  raw_dir \"./_RAF\": 2 RAF(s)".to_string(),
            "  output \"classic-chrome\" (recipe classic-chrome): ./_RAF → 2 file(s)".to_string(),
            "\nOverrides / adjustments:".to_string(),
            "  global \"DSCF0001.RAF\": grain=strong".to_string(),
            "    exclude_outputs: [portra]".to_string(),
            "  output \"classic-chrome\" match \"DSCF*.RAF\": film_sim=velvia, exposure_comp=-0.3"
                .to_string(),
        ]
    );
}

#[test]
fn validate_report_without_overrides() {
    let cfg = ProjectConfig { raw_dir: "r".to_string(), outputs: vec![entry("x")], overrides: vec![] };
    let lines = validate_report_lines(&cfg, 0, &[], "/p");
    assert_eq!(lines.len(), 3);
}

#[test]
fn vendor_properties_only() {
    assert_eq!(vendor_props(&vec![0x5001, 0xD185, 0x5005, 0xD16E]), vec![0xD185, 0xD16E]);
}

#[test]
fn property_lines() {
    let head = |p: u16, n: &str| format!("  0x{p:04X} {n:<30} ");
    assert_eq!(prop_line(0xD16E, Some(&[6, 0])), format!("{}6 (0x0006)", head(0xD16E, "Fuji USBMode")));
    assert_eq!(
        prop_line(0xD171, Some(&[0xFD, 0xFF])),
        format!("{}-3 (0xFFFD)", head(0xD171, "Fuji ExposureCompensation"))
    );
    assert_eq!(
        prop_line(0xD183, Some(&[1, 0, 0, 0x80])),
        format!("{}2147483649 (0x80000001)", head(0xD183, "Fuji StartRawConversion"))
    );
    assert_eq!(prop_line(0xD100, Some(&[1, 2, 0xAB])), format!("{}01 02 AB ", head(0xD100, "Fuji FilmSimulation")));
    assert_eq!(prop_line(0xD185, Some(&[0u8; 9])), format!("{}9 bytes", head(0xD185, "Fuji RawConvProfile")));
    assert_eq!(
        prop_line(0xD999, None),
        format!("  0x{:04X} {:<30} (read error)", 0xD999, "Fuji Vendor Property")
    );
}

#[test]
fn device_info_report() {
    let info = DeviceInfo {
        standard_version: 110,
        vendor_extension_id: 0xE,
        vendor_extension_version: 100,
        vendor_extension_desc: String::new(),
        functional_mode: 0,
        operations_supported: vec![0x1001, 0x900C],
        events_supported: vec![0x4002],
        device_properties_supported: vec![0xD185],
        capture_formats: vec![],
        image_formats: vec![0xB103],
        manufacturer: "FUJIFILM".to_string(),
        model: "X100VI".to_string(),
        device_version: "1.10".to_string(),
        serial_number: "123".to_string(),
    };
    assert_eq!(
        device_info_lines(&info),
        vec![
            "=== Device Info ===",
            "Manufacturer:       FUJIFILM",
            "Model:              X100VI",
            "Device Version:     1.10",
            "Serial Number:      123",
            "PTP Version:        1.10",
            "Vendor Ext ID:      0x0000000E",
            "Vendor Ext Version: 100",
            "Functional Mode:    0",
            "\n--- Operations Supported (2) ---",
            "  0x1001  GetDeviceInfo",
            "  0x900C  Fuji SendObjectInfo",
            "\n--- Events Supported (1) ---",
            "  0x4002",
            "\n--- Device Properties (1) ---",
            "  0xD185  Fuji RawConvProfile",
            "\n--- Capture Formats (0) ---",
            "\n--- Image Formats (1) ---",
            "  0xB103  Fuji RAF",
        ]
    );
}

#[test]
fn hex_dump_rows() {
    let data: Vec<u8> = (0x41u8..0x41 + 18).collect();
    let lines = hex_dump(&data, 17);
    assert_eq!(lines.len(), 3);
    assert_eq!(
        lines[0],
        "  0000  41 42 43 44 45 46 47 48 49 4A 4B 4C 4D 4E 4F 50  ABCDEFGHIJKLMNOP"
    );
    assert_eq!(lines[1], format!("  0010  51 {} Q", " ".repeat(45)));
    assert_eq!(lines[2], "  ... (1 more bytes)");
    let lines = hex_dump(&[0x00, 0x20, 0x7F], 256);
    assert_eq!(lines, vec![format!("  0000  00 20 7F {} . .", " ".repeat(39))]);
}
