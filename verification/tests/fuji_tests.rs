use fjx::fuji::{
    can_apply, clamp_dr, dr_word, is_jpeg_data, is_raf_data, max_dr_for_iso, min_iso_for_dr,
    parse_raf_meta, plan_file, stub_jpeg, usb_mode_of, CameraAction, CameraEvent, Conversion,
    FujiCamera, Note, RafMeta, Stage, StubCamera, MAX_POLLS,
};
use fjx::profile::{FilmSimulation, RecipeSettings};
use fjx::ptp::PtpResponse;

const MINIMAL_RAF: &[u8] = b"FUJIFILMCCD-RAW\x00";

struct Outcome {
    notes: Vec<Note>,
    result: Result<usize, String>,
    saved: Option<Vec<u8>>,
    deleted: Vec<u32>,
}

fn drive<C: FujiCamera>(cam: &mut C, recipe: RecipeSettings, raf: &[u8]) -> Outcome {
    let (mut conv, mut notes, mut action) = Conversion::start(recipe, raf.len());
    let mut saved = None;
    let mut deleted = Vec::new();
    loop {
        let ev = match action {
            CameraAction::VendorSend { op, params, data } => {
                let d = data.unwrap_or_else(|| raf.to_vec());
                CameraEvent::Sent(cam.vendor_send(op, &params, &d))
            }
            CameraAction::GetProp { prop } => CameraEvent::Prop(cam.get_device_prop_value(prop)),
            CameraAction::SetProp { prop, data } => {
                CameraEvent::PropSet(cam.set_device_prop_value(prop, &data))
            }
            CameraAction::ListObjects { .. } => {
                CameraEvent::Handles(cam.get_object_handles(0xFFFF_FFFF, 0, 0))
            }
            CameraAction::GetObject { handle } => CameraEvent::Object(cam.get_object(handle)),
            CameraAction::Save { data } => {
                saved = Some(data);
                CameraEvent::Saved
            }
            CameraAction::DeleteObject { handle } => {
                deleted.push(handle);
                CameraEvent::Deleted(cam.delete_object(handle))
            }
            CameraAction::Finish { result } => {
                return Outcome { notes, result, saved, deleted };
            }
        };
        let (n, a) = conv.on_event(ev);
        notes.extend(n);
        action = a;
    }
}

fn classic_chrome() -> RecipeSettings {
    RecipeSettings { film_sim: Some(FilmSimulation::ClassicChrome), ..RecipeSettings::default() }
}

fn details(notes: &[Note]) -> Vec<String> {
    notes
        .iter()
        .filter_map(|n| match n {
            Note::Detail(m) => Some(m.clone()),
            Note::Step(_, m) => Some(m.clone()),
            Note::PollResult(m) => Some(m.clone()),
            _ => None,
        })
        .collect()
}

#[test]
fn stub_camera_conversion_produces_jpeg() {
    let mut cam = StubCamera;
    let out = drive(&mut cam, classic_chrome(), MINIMAL_RAF);
    let jpeg = stub_jpeg();
    assert_eq!(out.result, Ok(jpeg.len()));
    let saved = out.saved.unwrap();
    assert!(saved.len() >= 2 && saved[0] == 0xFF && saved[1] == 0xD8);
    assert_eq!(saved, jpeg);
    assert_eq!(out.deleted, vec![1]);
    let lines = details(&out.notes);
    assert!(lines.contains(&"skipping profile (no data)…".to_string()));
    assert!(lines.contains(&"JPEG signature verified!".to_string()));
    assert!(lines.contains(&"Object deleted.".to_string()));
    assert!(matches!(out.notes[0], Note::Step(1, _)));
    assert!(out.notes.iter().any(|n| matches!(n, Note::Uploading(16))));
}

#[test]
fn refused_object_info_ends_conversion() {
    let (mut conv, _, _) = Conversion::start(classic_chrome(), 16);
    let (notes, action) =
        conv.on_event(CameraEvent::Sent(Ok(PtpResponse { code: 0x2005, params: vec![] })));
    assert_eq!(details(&notes), vec!["-> 0x2005 (Operation Not Supported)".to_string()]);
    match action {
        CameraAction::Finish { result } => {
            assert_eq!(result, Err("0x900C failed. Is the camera in USB RAW CONV mode?".to_string()))
        }
        _ => panic!("expected finish"),
    }
    assert!(conv.stage == Stage::Finished);
}

#[test]
fn polling_gives_up_after_last_attempt() {
    let mut conv = Conversion { recipe: classic_chrome(), raf_len: 16, stage: Stage::Polling { attempt: 1 } };
    let mut polls = 1;
    loop {
        let (_, action) = conv.on_event(CameraEvent::Handles(Ok(vec![])));
        match action {
            CameraAction::ListObjects { attempt } => {
                polls += 1;
                assert_eq!(attempt, polls);
            }
            CameraAction::Finish { result } => {
                assert_eq!(
                    result,
                    Err("Timed out waiting for the camera to produce the converted image.".to_string())
                );
                break;
            }
            _ => panic!("unexpected action"),
        }
    }
    assert_eq!(polls, MAX_POLLS);
}

#[test]
fn trigger_falls_back_to_u16() {
    let mut conv = Conversion { recipe: classic_chrome(), raf_len: 16, stage: Stage::TriggeringU32 };
    let (notes, action) = conv.on_event(CameraEvent::PropSet(Err("busy".to_string())));
    assert_eq!(details(&notes), vec!["u32 failed (busy), trying u16...".to_string()]);
    match action {
        CameraAction::SetProp { prop, data } => {
            assert_eq!(prop, 0xD183);
            assert_eq!(data, vec![0, 0]);
        }
        _ => panic!("expected set prop"),
    }
    let (_, action) = conv.on_event(CameraEvent::PropSet(Err("busy".to_string())));
    match action {
        CameraAction::Finish { result } => {
            assert_eq!(result, Err("Failed to trigger conversion: busy".to_string()))
        }
        _ => panic!("expected finish"),
    }
}

#[test]
fn profile_is_written_with_recipe() {
    let mut conv = Conversion { recipe: classic_chrome(), raf_len: 16, stage: Stage::ReadingProfile };
    let mut profile = vec![0u8; 0x201 + 4 * 30];
    profile[0x201 + 4 * 7] = 1;
    let (notes, action) = conv.on_event(CameraEvent::Prop(Ok(profile)));
    let lines = details(&notes);
    assert_eq!(lines[0], "Got 633 bytes of profile data");
    assert_eq!(lines[1], "Current film sim: Provia/Standard (0x1)");
    assert_eq!(lines[2], "Applying recipe: Film: Classic Chrome");
    assert_eq!(lines[3], "  FilmSim 0x1 -> 0xB");
    match action {
        CameraAction::SetProp { prop, data } => {
            assert_eq!(prop, 0xD185);
            assert_eq!(data[0x201 + 4 * 7], 0x0B);
        }
        _ => panic!("expected set prop"),
    }
}

#[test]
fn dr_limits() {
    assert_eq!(min_iso_for_dr(400), 800);
    assert_eq!(min_iso_for_dr(200), 400);
    assert_eq!(min_iso_for_dr(100), 0);
    assert_eq!(max_dr_for_iso(160), 100);
    assert_eq!(max_dr_for_iso(400), 200);
    assert_eq!(max_dr_for_iso(799), 200);
    assert_eq!(max_dr_for_iso(800), 400);
}

#[test]
fn clamp_by_iso() {
    let r = clamp_dr(400, Some(200), None);
    assert_eq!(r.dr, 100);
    assert_eq!(
        r.warnings,
        vec!["DR: Recipe requests DR400 but ISO 200 supports up to DR100 (DR400 needs ISO 800). Clamping."
            .to_string()]
    );
}

#[test]
fn clamp_by_shot() {
    let r = clamp_dr(400, Some(1000), Some(100));
    assert_eq!(r.dr, 200);
    assert_eq!(
        r.warnings,
        vec!["DR: Recipe requests DR400 but this RAF was shot at DR100 (max 1-stop increase → DR200). Clamping."
            .to_string()]
    );
}

#[test]
fn clamp_unchanged_has_no_warning() {
    let r = clamp_dr(200, Some(640), Some(200));
    assert_eq!(r.dr, 200);
    assert!(r.warnings.is_empty());
    let r = clamp_dr(400, None, None);
    assert_eq!(r.dr, 400);
    assert!(r.warnings.is_empty());
}

#[test]
fn raf_meta_from_exiftool_output() {
    let m = parse_raf_meta("640\nWide1\n");
    assert_eq!(m.iso, Some(640));
    assert_eq!(m.dynamic_range, Some(200));
    let m = parse_raf_meta("  3200 \n400%\n");
    assert_eq!(m.iso, Some(3200));
    assert_eq!(m.dynamic_range, Some(400));
    let m = parse_raf_meta("Standard\n");
    assert_eq!(m.iso, None);
    assert_eq!(m.dynamic_range, Some(100));
    let m = parse_raf_meta("");
    assert_eq!(m.iso, None);
    assert_eq!(m.dynamic_range, None);
    assert_eq!(dr_word(&"Wide 2".chars().collect()), Some(400));
    assert_eq!(dr_word(&"Auto".chars().collect()), None);
}

#[test]
fn raf_and_jpeg_signatures() {
    assert!(is_raf_data(MINIMAL_RAF));
    assert!(!is_raf_data(b"FUJIFILMCCD-RAW"));
    assert!(!is_raf_data(b"FUJIFILMCCD-RAX\x00"));
    assert!(is_jpeg_data(&[0xFF, 0xD8, 0x00]));
    assert!(!is_jpeg_data(&[0xFF]));
}

#[test]
fn usb_mode_value() {
    assert_eq!(usb_mode_of(&[6, 0, 9]), Some(6));
    assert_eq!(usb_mode_of(&[1]), None);
}

#[test]
fn file_plan_clamps_recipe() {
    let recipe = RecipeSettings { dynamic_range: Some(400), ..classic_chrome() };
    let plan = plan_file(&recipe, &RafMeta { iso: Some(400), dynamic_range: None });
    assert_eq!(plan.recipe.dynamic_range, Some(200));
    assert_eq!(plan.warnings.len(), 1);
    let plan = plan_file(&classic_chrome(), &RafMeta { iso: Some(100), dynamic_range: Some(100) });
    assert_eq!(plan.recipe.dynamic_range, None);
    assert!(plan.warnings.is_empty());
}

#[test]
fn settings_that_cannot_be_encoded_still_convert_without_a_profile() {
    let recipe = RecipeSettings { color: Some(300_000_000), ..classic_chrome() };
    assert!(can_apply(&[], &recipe));
    assert!(can_apply(&[0u8; 0x204], &recipe));
    assert!(!can_apply(&vec![0u8; 0x201 + 4 * 30], &recipe));
    assert!(can_apply(&vec![0u8; 0x201 + 4 * 30], &classic_chrome()));
    let mut cam = StubCamera;
    let out = drive(&mut cam, recipe, MINIMAL_RAF);
    assert_eq!(out.result, Ok(stub_jpeg().len()));
}

#[test]
fn shot_range_is_only_read_when_the_recipe_sets_one() {
    let plan = plan_file(&classic_chrome(), &RafMeta { iso: None, dynamic_range: Some(u32::MAX) });
    assert_eq!(plan.recipe.dynamic_range, None);
    assert!(plan.warnings.is_empty());
}
