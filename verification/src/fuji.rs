//! Camera-side rules of a RAW conversion: which dynamic range a RAF can be
//! developed at, the RAF metadata read from exiftool, the RAF signature, and
//! the step machine that drives one conversion over PTP.
use vstd::prelude::*;

use crate::profile::{
    apply_log, applied_profile, apply_recipe, current_film_sim, film_sim_text, join, join_chars,
    summary_text, RecipeSettings, SettingsModel,
};
use crate::ptp::{
    build_object_info, object_info_bytes, response_name, response_text, DeviceInfo, PtpResponse,
    RC_OK,
};
use crate::text::{
    chars_of, dec, hex, hex_chars, lines_of, pad_zero, parse_u32_chars, parse_u32_spec, push_dec,
    push_pad_zero, push_str, split_lines, string_of, string_views, trim, trim_chars, trim_end_char,
    trim_end_char_chars, chars_eq_str, views,
};

verus! {

// ---------------------------------------------------------------------------
// Dynamic range and ISO
// ---------------------------------------------------------------------------

/// Minimum ISO a dynamic range needs on X-Trans 5: DR200 underexposes one
/// stop (ISO 400), DR400 two stops (ISO 800); anything else needs none.
pub open spec fn min_iso_spec(dr: u32) -> u32 {
    if dr == 400 {
        800
    } else if dr == 200 {
        400
    } else {
        0
    }
}

/// Highest dynamic range the camera can apply at an ISO.
pub open spec fn max_dr_spec(iso: u32) -> u32 {
    if iso >= 800 {
        400
    } else if iso >= 400 {
        200
    } else {
        100
    }
}

/// Minimum ISO required for a dynamic range.
pub fn min_iso_for_dr(dr: u32) -> (r: u32)
    ensures
        r == min_iso_spec(dr),
{
    match dr {
        400 => 800,
        200 => 400,
        _ => 0,
    }
}

/// Highest dynamic range (100, 200 or 400) whose minimum ISO the shooting ISO
/// reaches.
pub fn max_dr_for_iso(iso: u32) -> (r: u32)
    ensures
        r == max_dr_spec(iso),
        r == 100 || r == 200 || r == 400,
        min_iso_spec(r) <= iso,
        forall|d: u32| (d == 100 || d == 200 || d == 400) && min_iso_spec(d) <= iso ==> d <= r,
{
    if iso >= 800 {
        400
    } else if iso >= 400 {
        200
    } else {
        100
    }
}

/// The final dynamic range of a conversion and the warnings that explain a clamp.
pub struct DrClampResult {
    pub dr: u32,
    pub warnings: Vec<String>,
}

/// Warning when the ISO cannot carry the requested dynamic range.
pub open spec fn iso_warning(dr: u32, iso: u32) -> Seq<char> {
    "DR: Recipe requests DR"@ + dec(dr as nat) + " but ISO "@ + dec(iso as nat)
        + " supports up to DR"@ + dec(max_dr_spec(iso) as nat) + " (DR"@ + dec(dr as nat)
        + " needs ISO "@ + dec(min_iso_spec(dr) as nat) + "). Clamping."@
}

/// Highest dynamic range a RAF shot at `shot` can be developed at: one stop more.
pub open spec fn shot_ceiling(shot: u32) -> u32 {
    if shot * 2 < 400 {
        (shot * 2) as u32
    } else {
        400
    }
}

/// Warning when the shot's dynamic range cannot be raised that far.
pub open spec fn shot_warning(dr: u32, shot: u32) -> Seq<char> {
    "DR: Recipe requests DR"@ + dec(dr as nat) + " but this RAF was shot at DR"@ + dec(shot as nat)
        + " (max 1-stop increase → DR"@ + dec(shot_ceiling(shot) as nat) + "). Clamping."@
}

/// Dynamic range after the ISO floor.
pub open spec fn dr_after_iso(dr: u32, iso: Option<u32>) -> u32 {
    match iso {
        Some(i) => if dr > max_dr_spec(i) {
            max_dr_spec(i)
        } else {
            dr
        },
        None => dr,
    }
}

/// Dynamic range after both constraints.
pub open spec fn clamped_dr(dr: u32, iso: Option<u32>, shot: Option<u32>) -> u32 {
    let d = dr_after_iso(dr, iso);
    match shot {
        Some(s) => if d > shot_ceiling(s) {
            shot_ceiling(s)
        } else {
            d
        },
        None => d,
    }
}

/// The warnings of a clamp, in order.
pub open spec fn clamp_warnings(dr: u32, iso: Option<u32>, shot: Option<u32>) -> Seq<Seq<char>> {
    let w1: Seq<Seq<char>> = match iso {
        Some(i) => if dr > max_dr_spec(i) {
            seq![iso_warning(dr, i)]
        } else {
            seq![]
        },
        None => seq![],
    };
    let d = dr_after_iso(dr, iso);
    let w2: Seq<Seq<char>> = match shot {
        Some(s) => if d > shot_ceiling(s) {
            seq![shot_warning(d, s)]
        } else {
            seq![]
        },
        None => seq![],
    };
    w1 + w2
}

fn push_warning(ws: &mut Vec<String>, w: Vec<char>)
    ensures
        string_views(final(ws)@) == string_views(old(ws)@).push(w@),
{
    let ghost before = ws@;
    ws.push(string_of(&w));
    assert(string_views(ws@) =~= string_views(before).push(w@));
}

/// Clamps a recipe's dynamic range to what the RAF supports: the ISO must
/// reach the range's minimum (DR200 needs ISO 400, DR400 ISO 800), and the
/// range can rise at most one stop above the one shot (DR100 shots reach
/// DR200, DR200 shots DR400). Each clamp adds a warning.
pub fn clamp_dr(recipe_dr: u32, iso: Option<u32>, shot_dr: Option<u32>) -> (r: DrClampResult)
    requires
        shot_dr matches Some(s) ==> s <= 0x7FFF_FFFF,
    ensures
        r.dr == clamped_dr(recipe_dr, iso, shot_dr),
        string_views(r.warnings@) == clamp_warnings(recipe_dr, iso, shot_dr),
        r.dr <= recipe_dr,
        iso matches Some(i) ==> r.dr <= max_dr_spec(i),
        shot_dr matches Some(s) ==> r.dr <= s * 2 && r.dr <= 400,
        r.warnings@.len() == 0 <==> r.dr == recipe_dr,
{
    let mut dr = recipe_dr;
    let mut warnings: Vec<String> = Vec::new();
    if let Some(i) = iso {
        let iso_max = max_dr_for_iso(i);
        if dr > iso_max {
            let mut w = chars_of("DR: Recipe requests DR");
            push_dec(&mut w, dr as u64);
            push_str(&mut w, " but ISO ");
            push_dec(&mut w, i as u64);
            push_str(&mut w, " supports up to DR");
            push_dec(&mut w, iso_max as u64);
            push_str(&mut w, " (DR");
            push_dec(&mut w, dr as u64);
            push_str(&mut w, " needs ISO ");
            push_dec(&mut w, min_iso_for_dr(dr) as u64);
            push_str(&mut w, "). Clamping.");
            push_warning(&mut warnings, w);
            dr = iso_max;
        }
    }
    let ghost w1 = string_views(warnings@);
    if let Some(shot) = shot_dr {
        let ceiling = if shot * 2 < 400 {
            shot * 2
        } else {
            400
        };
        if dr > ceiling {
            let mut w = chars_of("DR: Recipe requests DR");
            push_dec(&mut w, dr as u64);
            push_str(&mut w, " but this RAF was shot at DR");
            push_dec(&mut w, shot as u64);
            push_str(&mut w, " (max 1-stop increase → DR");
            push_dec(&mut w, ceiling as u64);
            push_str(&mut w, "). Clamping.");
            push_warning(&mut warnings, w);
            dr = ceiling;
        }
    }
    assert(string_views(warnings@) =~= clamp_warnings(recipe_dr, iso, shot_dr));
    DrClampResult { dr, warnings }
}

// ---------------------------------------------------------------------------
// RAF metadata from exiftool
// ---------------------------------------------------------------------------

/// Shooting ISO and dynamic range of a RAF, where exiftool reported them.
pub struct RafMeta {
    pub iso: Option<u32>,
    pub dynamic_range: Option<u32>,
}

/// Dynamic range named by an exiftool value: `Standard` 100, `Wide1` 200,
/// `Wide2` 400, or a percentage such as `200%`.
pub open spec fn dr_word_value(t: Seq<char>) -> Option<u32> {
    if t == "Standard"@ {
        Some(100)
    } else if t == "Wide1"@ || t == "Wide 1"@ {
        Some(200)
    } else if t == "Wide2"@ || t == "Wide 2"@ {
        Some(400)
    } else {
        parse_u32_spec(trim_end_char(t, '%'))
    }
}

/// Reads the lines in order: the first that is a number gives the ISO, the
/// first after that (or any other) that names a dynamic range gives it.
pub open spec fn meta_scan(lines: Seq<Seq<char>>, iso: Option<u32>, dr: Option<u32>) -> (
    Option<u32>,
    Option<u32>,
)
    decreases lines.len(),
{
    if lines.len() == 0 {
        (iso, dr)
    } else {
        let l = trim(lines[0]);
        let rest = lines.drop_first();
        if iso is None && parse_u32_spec(l) is Some {
            meta_scan(rest, parse_u32_spec(l), dr)
        } else if dr is None && dr_word_value(l) is Some {
            meta_scan(rest, iso, dr_word_value(l))
        } else {
            meta_scan(rest, iso, dr)
        }
    }
}

/// ISO and dynamic range in exiftool's `-s -s -s -ISO -FujiFilm:DynamicRange` output.
pub open spec fn raf_meta_of(stdout: Seq<char>) -> (Option<u32>, Option<u32>) {
    meta_scan(lines_of(stdout), None, None)
}

/// The first line that, trimmed, reads as a number.
pub open spec fn first_number(lines: Seq<Seq<char>>) -> Option<u32>
    decreases lines.len(),
{
    if lines.len() == 0 {
        None
    } else if parse_u32_spec(trim(lines[0])) is Some {
        parse_u32_spec(trim(lines[0]))
    } else {
        first_number(lines.drop_first())
    }
}

/// The ISO read from exiftool's output is its first line that is a number;
/// the dynamic range, when there is one, is named by one of its lines, and
/// there is none when no line names one.
pub proof fn law_raf_meta(lines: Seq<Seq<char>>, iso: Option<u32>, dr: Option<u32>)
    ensures
        meta_scan(lines, iso, dr).0 == (if iso is Some {
            iso
        } else {
            first_number(lines)
        }),
        meta_scan(lines, iso, dr).1 is Some ==> meta_scan(lines, iso, dr).1 == dr || exists|k: int|
            0 <= k < lines.len() && dr_word_value(trim(#[trigger] lines[k])) == meta_scan(lines, iso, dr).1,
    decreases lines.len(),
{
    if lines.len() > 0 {
        let l = trim(lines[0]);
        let rest = lines.drop_first();
        let (i2, d2) = if iso is None && parse_u32_spec(l) is Some {
            (parse_u32_spec(l), dr)
        } else if dr is None && dr_word_value(l) is Some {
            (iso, dr_word_value(l))
        } else {
            (iso, dr)
        };
        law_raf_meta(rest, i2, d2);
        let r = meta_scan(lines, iso, dr).1;
        if r is Some && r != dr {
            if r == d2 {
                assert(dr_word_value(trim(lines[0])) == r);
            } else {
                let k = choose|k: int| 0 <= k < rest.len() && dr_word_value(trim(#[trigger] rest[k])) == r;
                assert(rest[k] == lines[k + 1]);
            }
        }
    }
}

/// Dynamic range named by an exiftool value.
pub fn dr_word(t: &Vec<char>) -> (r: Option<u32>)
    ensures
        r == dr_word_value(t@),
{
    if chars_eq_str(t, "Standard") {
        Some(100)
    } else if chars_eq_str(t, "Wide1") || chars_eq_str(t, "Wide 1") {
        Some(200)
    } else if chars_eq_str(t, "Wide2") || chars_eq_str(t, "Wide 2") {
        Some(400)
    } else {
        let n = trim_end_char_chars(t, '%');
        parse_u32_chars(&n)
    }
}

/// Reads ISO and dynamic range from exiftool's terse output.
pub fn parse_raf_meta(stdout: &str) -> (r: RafMeta)
    ensures
        (r.iso, r.dynamic_range) == raf_meta_of(stdout@),
{
    let text = chars_of(stdout);
    let lines = split_lines(&text);
    let mut iso: Option<u32> = None;
    let mut dr: Option<u32> = None;
    let mut i: usize = 0;
    assert(views(lines@).skip(0) =~= views(lines@));
    while i < lines.len()
        invariant
            i <= lines.len(),
            views(lines@) == lines_of(text@),
            text@ == stdout@,
            meta_scan(views(lines@), None, None) == meta_scan(views(lines@).skip(i as int), iso, dr),
        decreases lines.len() - i,
    {
        let ghost rest = views(lines@).skip(i as int);
        assert(rest[0] == lines@[i as int]@);
        assert(rest.drop_first() =~= views(lines@).skip(i + 1));
        let l = trim_chars(&lines[i]);
        if iso.is_none() {
            if let Some(v) = parse_u32_chars(&l) {
                iso = Some(v);
                i += 1;
                continue;
            }
        }
        if dr.is_none() {
            if let Some(v) = dr_word(&l) {
                dr = Some(v);
            }
        }
        i += 1;
    }
    assert(views(lines@).skip(i as int) =~= Seq::<Seq<char>>::empty());
    RafMeta { iso, dynamic_range: dr }
}

// ---------------------------------------------------------------------------
// RAF signature
// ---------------------------------------------------------------------------

/// The first bytes of every Fujifilm RAF.
pub open spec fn raf_magic() -> Seq<u8> {
    seq![
        0x46u8, 0x55, 0x4A, 0x49, 0x46, 0x49, 0x4C, 0x4D, 0x43, 0x43, 0x44, 0x2D, 0x52, 0x41, 0x57,
    ]
}

/// Whether the data looks like a Fujifilm RAF: at least 16 bytes, starting
/// with `FUJIFILMCCD-RAW`.
pub fn is_raf_data(data: &[u8]) -> (r: bool)
    ensures
        r == (data@.len() >= 16 && data@.take(15) == raf_magic()),
{
    if data.len() < 16 {
        return false;
    }
    let magic: [u8; 15] = [
        0x46, 0x55, 0x4A, 0x49, 0x46, 0x49, 0x4C, 0x4D, 0x43, 0x43, 0x44, 0x2D, 0x52, 0x41, 0x57,
    ];
    assert(magic@ == raf_magic());
    let mut i: usize = 0;
    while i < 15
        invariant
            i <= 15,
            data@.len() >= 16,
            magic@ == raf_magic(),
            forall|k: int| 0 <= k < i ==> data@[k] == raf_magic()[k],
        decreases 15 - i,
    {
        if data[i] != magic[i] {
            assert(data@.take(15)[i as int] != raf_magic()[i as int]);
            return false;
        }
        i += 1;
    }
    assert(data@.take(15) =~= raf_magic());
    true
}

/// Whether the data starts with the JPEG start-of-image marker `FF D8`.
pub fn is_jpeg_data(data: &[u8]) -> (r: bool)
    ensures
        r == (data@.len() >= 2 && data@[0] == 0xFF && data@[1] == 0xD8),
{
    data.len() >= 2 && data[0] == 0xFF && data[1] == 0xD8
}


// ---------------------------------------------------------------------------
// The camera
// ---------------------------------------------------------------------------

/// Fujifilm's USB vendor id.
pub const FUJIFILM_VENDOR_ID: u16 = 0x04CB;
/// Product id of the X100VI in PTP mode.
pub const X100VI_PRODUCT_ID: u16 = 0x0305;
/// Vendor SendObjectInfo: announces the RAF upload.
pub const FUJI_OC_SEND_OBJECT_INFO: u16 = 0x900C;
/// Vendor SendObject: the RAF bytes.
pub const FUJI_OC_SEND_OBJECT: u16 = 0x900D;
/// Connection mode property read before converting; 6 is USB RAW CONV.
pub const FUJI_PROP_CONNECTION_MODE: u16 = 0xD16E;
/// Development profile property (read for defaults, written before conversion).
pub const FUJI_PROP_RAW_CONV_PROFILE: u16 = 0xD185;
/// Writing 0 here starts the conversion.
pub const FUJI_PROP_START_RAW_CONV: u16 = 0xD183;
/// Object format of a RAF upload.
pub const PTP_OFC_FUJI_RAW_UPLOAD: u16 = 0xF802;
/// Seconds between polls for the converted image.
pub const POLL_INTERVAL_SECS: u64 = 2;
/// Number of polls before giving up.
pub const MAX_POLLS: u32 = 45;

/// Operations of a Fujifilm camera over PTP, as the conversion uses them.
pub trait FujiCamera {
    fn open_session(&mut self) -> Result<(), String>;

    fn close_session(&mut self) -> Result<(), String>;

    fn get_device_info(&mut self) -> Result<DeviceInfo, String>;

    fn get_device_prop_value(&mut self, prop: u16) -> Result<Vec<u8>, String>;

    fn set_device_prop_value(&mut self, prop: u16, data: &[u8]) -> Result<(), String>;

    fn vendor_send(&mut self, op: u16, params: &[u32], data: &[u8]) -> Result<PtpResponse, String>;

    fn get_object_handles(&mut self, storage_id: u32, format: u32, parent: u32) -> Result<
        Vec<u32>,
        String,
    >;

    fn get_object(&mut self, handle: u32) -> Result<Vec<u8>, String>;

    fn delete_object(&mut self, handle: u32) -> Result<PtpResponse, String>;

    fn vendor_receive(&mut self, op: u16, params: &[u32]) -> Result<(Vec<u8>, PtpResponse), String>;
}

/// The smallest JPEG the stub camera hands out: SOI, a quantisation table, a
/// 1×1 frame, a Huffman table, a scan and EOI.
pub open spec fn stub_jpeg_bytes() -> Seq<u8> {
    seq![
        0xFFu8, 0xD8, 0xFF, 0xDB, 0x00, 0x43, 0x00, 0x08, 0x06, 0x06, 0x07, 0x06, 0x05, 0x08, 0x07,
        0x07, 0x07, 0x09, 0x09, 0x08, 0x0A, 0x0C, 0x14, 0x0D, 0x0C, 0x0B, 0x0B, 0x0C, 0x19, 0x12,
        0x13, 0x0F, 0x14, 0x1D, 0x1A, 0x1F, 0x1E, 0x1D, 0x1A, 0x1C, 0x1C, 0x20, 0x24, 0x2E, 0x27,
        0x20, 0x22, 0x2C, 0x23, 0x1C, 0x1C, 0x28, 0x37, 0x29, 0x2C, 0x30, 0x31, 0x34, 0x34, 0x34,
        0x1F, 0x27, 0x39, 0x3D, 0x38, 0x32, 0x3C, 0x2E, 0x33, 0x34, 0x32, 0xFF, 0xC0, 0x00, 0x0B,
        0x08, 0x00, 0x01, 0x00, 0x01, 0x01, 0x01, 0x11, 0x00, 0xFF, 0xC4, 0x00, 0x1F, 0x00, 0x00,
        0x01, 0x05, 0x01, 0x01, 0x01, 0x01, 0x01, 0x01, 0x00, 0x00, 0x00, 0x00, 0x00, 0x00, 0x00,
        0x00, 0x01, 0x02, 0x03, 0x04, 0x05, 0x06, 0x07, 0x08, 0x09, 0x0A, 0x0B, 0xFF, 0xDA, 0x00,
        0x08, 0x01, 0x01, 0x00, 0x00, 0x3F, 0x00, 0x7B, 0x94, 0x32, 0x2B, 0xFF, 0xD9,
    ]
}

/// The stub camera's JPEG.
pub fn stub_jpeg() -> (r: Vec<u8>)
    ensures
        r@ == stub_jpeg_bytes(),
{
    let r = vec![
        0xFFu8, 0xD8, 0xFF, 0xDB, 0x00, 0x43, 0x00, 0x08, 0x06, 0x06, 0x07, 0x06, 0x05, 0x08, 0x07,
        0x07, 0x07, 0x09, 0x09, 0x08, 0x0A, 0x0C, 0x14, 0x0D, 0x0C, 0x0B, 0x0B, 0x0C, 0x19, 0x12,
        0x13, 0x0F, 0x14, 0x1D, 0x1A, 0x1F, 0x1E, 0x1D, 0x1A, 0x1C, 0x1C, 0x20, 0x24, 0x2E, 0x27,
        0x20, 0x22, 0x2C, 0x23, 0x1C, 0x1C, 0x28, 0x37, 0x29, 0x2C, 0x30, 0x31, 0x34, 0x34, 0x34,
        0x1F, 0x27, 0x39, 0x3D, 0x38, 0x32, 0x3C, 0x2E, 0x33, 0x34, 0x32, 0xFF, 0xC0, 0x00, 0x0B,
        0x08, 0x00, 0x01, 0x00, 0x01, 0x01, 0x01, 0x11, 0x00, 0xFF, 0xC4, 0x00, 0x1F, 0x00, 0x00,
        0x01, 0x05, 0x01, 0x01, 0x01, 0x01, 0x01, 0x01, 0x00, 0x00, 0x00, 0x00, 0x00, 0x00, 0x00,
        0x00, 0x01, 0x02, 0x03, 0x04, 0x05, 0x06, 0x07, 0x08, 0x09, 0x0A, 0x0B, 0xFF, 0xDA, 0x00,
        0x08, 0x01, 0x01, 0x00, 0x00, 0x3F, 0x00, 0x7B, 0x94, 0x32, 0x2B, 0xFF, 0xD9,
    ];
    assert(r@ =~= stub_jpeg_bytes());
    r
}

/// A camera without a device, for tests: every operation succeeds, one
/// object (handle 1) is ready, and it is the stub JPEG.
pub struct StubCamera;

impl FujiCamera for StubCamera {
    fn open_session(&mut self) -> (r: Result<(), String>)
        ensures
            r is Ok,
    {
        Ok(())
    }

    fn close_session(&mut self) -> (r: Result<(), String>)
        ensures
            r is Ok,
    {
        Ok(())
    }

    fn get_device_info(&mut self) -> (r: Result<DeviceInfo, String>)
        ensures
            r matches Ok(info) && info.manufacturer@ == "FXRAW Stub"@ && info.model@ == "Test"@
                && info.device_version@ == "0"@ && info.standard_version == 100,
    {
        Ok(
            DeviceInfo {
                standard_version: 100,
                vendor_extension_id: 0,
                vendor_extension_version: 0,
                vendor_extension_desc: String::new(),
                functional_mode: 0,
                operations_supported: Vec::new(),
                events_supported: Vec::new(),
                device_properties_supported: Vec::new(),
                capture_formats: Vec::new(),
                image_formats: Vec::new(),
                manufacturer: string_of(&chars_of("FXRAW Stub")),
                model: string_of(&chars_of("Test")),
                device_version: string_of(&chars_of("0")),
                serial_number: String::new(),
            },
        )
    }

    fn get_device_prop_value(&mut self, prop: u16) -> (r: Result<Vec<u8>, String>)
        ensures
            r matches Ok(d) && d@.len() == 0,
    {
        Ok(Vec::new())
    }

    fn set_device_prop_value(&mut self, prop: u16, data: &[u8]) -> (r: Result<(), String>)
        ensures
            r is Ok,
    {
        Ok(())
    }

    fn vendor_send(&mut self, op: u16, params: &[u32], data: &[u8]) -> (r: Result<PtpResponse, String>)
        ensures
            r matches Ok(resp) && resp.code == RC_OK && resp.params@.len() == 0,
    {
        Ok(PtpResponse { code: RC_OK, params: Vec::new() })
    }

    fn get_object_handles(&mut self, storage_id: u32, format: u32, parent: u32) -> (r: Result<
        Vec<u32>,
        String,
    >)
        ensures
            r matches Ok(h) && h@ == seq![1u32],
    {
        Ok(vec![1])
    }

    fn get_object(&mut self, handle: u32) -> (r: Result<Vec<u8>, String>)
        ensures
            r matches Ok(d) && d@ == (if handle == 1 {
                stub_jpeg_bytes()
            } else {
                Seq::<u8>::empty()
            }),
    {
        if handle == 1 {
            Ok(stub_jpeg())
        } else {
            Ok(Vec::new())
        }
    }

    fn delete_object(&mut self, handle: u32) -> (r: Result<PtpResponse, String>)
        ensures
            r matches Ok(resp) && resp.code == RC_OK,
    {
        Ok(PtpResponse { code: RC_OK, params: Vec::new() })
    }

    fn vendor_receive(&mut self, op: u16, params: &[u32]) -> (r: Result<(Vec<u8>, PtpResponse), String>)
        ensures
            r matches Ok((d, resp)) && d@.len() == 0 && resp.code == RC_OK,
    {
        Ok((Vec::new(), PtpResponse { code: RC_OK, params: Vec::new() }))
    }
}

/// The connection mode in a property value: its first two bytes, little-endian.
pub fn usb_mode_of(data: &[u8]) -> (r: Option<u16>)
    ensures
        r == (if data@.len() >= 2 {
            Some((data@[0] + 0x100 * data@[1]) as u16)
        } else {
            None::<u16>
        }),
{
    if data.len() >= 2 {
        Some(data[0] as u16 + data[1] as u16 * 0x100)
    } else {
        None
    }
}

/// The settings one RAF is converted with, and the warnings of its clamp.
pub struct FilePlan {
    pub recipe: RecipeSettings,
    pub warnings: Vec<String>,
}

/// The settings for one RAF: the recipe, with its dynamic range clamped to
/// what the RAF's ISO and shot dynamic range allow.
pub fn plan_file(recipe: &RecipeSettings, meta: &RafMeta) -> (r: FilePlan)
    requires
        recipe@.dynamic_range is Some ==> (meta.dynamic_range matches Some(s) ==> s <= 0x7FFF_FFFF),
    ensures
        r.recipe@ == (match recipe@.dynamic_range {
            Some(d) => SettingsModel {
                dynamic_range: Some(clamped_dr(d, meta.iso, meta.dynamic_range)),
                ..recipe@
            },
            None => recipe@,
        }),
        string_views(r.warnings@) == (match recipe@.dynamic_range {
            Some(d) => clamp_warnings(d, meta.iso, meta.dynamic_range),
            None => Seq::<Seq<char>>::empty(),
        }),
{
    let mut file_recipe = recipe.clone();
    match recipe.dynamic_range {
        Some(d) => {
            let result = clamp_dr(d, meta.iso, meta.dynamic_range);
            if result.dr != d {
                file_recipe.dynamic_range = Some(result.dr);
            }
            FilePlan { recipe: file_recipe, warnings: result.warnings }
        },
        None => {
            let w: Vec<String> = Vec::new();
            assert(string_views(w@) =~= Seq::<Seq<char>>::empty());
            FilePlan { recipe: file_recipe, warnings: w }
        },
    }
}


// ---------------------------------------------------------------------------
// One conversion, step by step
// ---------------------------------------------------------------------------

/// Where a conversion stands: which camera operation it waits for.
#[derive(Clone, Copy, PartialEq, Eq, Structural)]
pub enum Stage {
    SendingInfo,
    SendingRaf,
    ReadingProfile,
    SettingProfile,
    TriggeringU32,
    TriggeringU16,
    Polling { attempt: u32 },
    Downloading { attempt: u32, handle: u32 },
    Saving { handle: u32, size: usize },
    Deleting { size: usize },
    Finished,
}

/// What to show the user. Sizes are byte counts; the driver shows them in MB.
pub enum Note {
    /// Step `n` of 6 begins.
    Step(u8, String),
    /// A detail of the current step.
    Detail(String),
    /// Step 2 begins: uploading a RAF of this many bytes.
    Uploading(usize),
    /// The converted image arrived, this many bytes.
    Received(usize),
    /// Waiting for the camera begins.
    PollStart,
    /// Result of one poll.
    PollResult(String),
    /// Waiting ends.
    PollDone,
}

/// Model of a note.
pub enum NoteModel {
    Step(u8, Seq<char>),
    Detail(Seq<char>),
    Uploading(usize),
    Received(usize),
    PollStart,
    PollResult(Seq<char>),
    PollDone,
}

impl View for Note {
    type V = NoteModel;

    open spec fn view(&self) -> NoteModel {
        match self {
            Note::Step(n, m) => NoteModel::Step(*n, m@),
            Note::Detail(m) => NoteModel::Detail(m@),
            Note::Uploading(b) => NoteModel::Uploading(*b),
            Note::Received(b) => NoteModel::Received(*b),
            Note::PollStart => NoteModel::PollStart,
            Note::PollResult(m) => NoteModel::PollResult(m@),
            Note::PollDone => NoteModel::PollDone,
        }
    }
}

/// The models of a sequence of notes.
pub open spec fn note_views(v: Seq<Note>) -> Seq<NoteModel> {
    v.map_values(|n: Note| n@)
}

/// What the driver does next on the camera.
pub enum CameraAction {
    /// A vendor operation with data out; `None` is the RAF itself.
    VendorSend { op: u16, params: Vec<u32>, data: Option<Vec<u8>> },
    /// Read a device property.
    GetProp { prop: u16 },
    /// Write a device property.
    SetProp { prop: u16, data: Vec<u8> },
    /// Wait `POLL_INTERVAL_SECS`, then list all objects (storage 0xFFFFFFFF,
    /// any format, any parent); this is poll number `attempt` of `MAX_POLLS`.
    ListObjects { attempt: u32 },
    /// Download an object.
    GetObject { handle: u32 },
    /// Write the converted image to the output path.
    Save { data: Vec<u8> },
    /// Delete an object from the camera.
    DeleteObject { handle: u32 },
    /// The conversion is over: the image size in bytes, or why it failed.
    Finish { result: Result<usize, String> },
}

/// Model of an action.
pub enum ActionModel {
    VendorSend { op: u16, params: Seq<u32>, data: Option<Seq<u8>> },
    GetProp { prop: u16 },
    SetProp { prop: u16, data: Seq<u8> },
    ListObjects { attempt: u32 },
    GetObject { handle: u32 },
    Save { data: Seq<u8> },
    DeleteObject { handle: u32 },
    Finish { result: Result<usize, Seq<char>> },
}

impl View for CameraAction {
    type V = ActionModel;

    open spec fn view(&self) -> ActionModel {
        match self {
            CameraAction::VendorSend { op, params, data } => ActionModel::VendorSend {
                op: *op,
                params: params@,
                data: match data {
                    Some(d) => Some(d@),
                    None => None,
                },
            },
            CameraAction::GetProp { prop } => ActionModel::GetProp { prop: *prop },
            CameraAction::SetProp { prop, data } => ActionModel::SetProp { prop: *prop, data: data@ },
            CameraAction::ListObjects { attempt } => ActionModel::ListObjects { attempt: *attempt },
            CameraAction::GetObject { handle } => ActionModel::GetObject { handle: *handle },
            CameraAction::Save { data } => ActionModel::Save { data: data@ },
            CameraAction::DeleteObject { handle } => ActionModel::DeleteObject { handle: *handle },
            CameraAction::Finish { result } => ActionModel::Finish {
                result: match result {
                    Ok(n) => Ok(*n),
                    Err(m) => Err(m@),
                },
            },
        }
    }
}

/// What the camera (or the driver) answered to the last action.
pub enum CameraEvent {
    Sent(Result<PtpResponse, String>),
    Prop(Result<Vec<u8>, String>),
    PropSet(Result<(), String>),
    Handles(Result<Vec<u32>, String>),
    Object(Result<Vec<u8>, String>),
    Saved,
    Deleted(Result<PtpResponse, String>),
}

/// Model of an event: responses by their code and parameters.
pub enum EventModel {
    Sent(Result<(u16, Seq<u32>), Seq<char>>),
    Prop(Result<Seq<u8>, Seq<char>>),
    PropSet(Result<(), Seq<char>>),
    Handles(Result<Seq<u32>, Seq<char>>),
    Object(Result<Seq<u8>, Seq<char>>),
    Saved,
    Deleted(Result<(u16, Seq<u32>), Seq<char>>),
}

/// Model of a response or an error.
pub open spec fn response_model(r: Result<PtpResponse, String>) -> Result<(u16, Seq<u32>), Seq<char>> {
    match r {
        Ok(resp) => Ok((resp.code, resp.params@)),
        Err(m) => Err(m@),
    }
}

impl View for CameraEvent {
    type V = EventModel;

    open spec fn view(&self) -> EventModel {
        match self {
            CameraEvent::Sent(r) => EventModel::Sent(response_model(*r)),
            CameraEvent::Prop(r) => EventModel::Prop(
                match r {
                    Ok(d) => Ok(d@),
                    Err(m) => Err(m@),
                },
            ),
            CameraEvent::PropSet(r) => EventModel::PropSet(
                match r {
                    Ok(()) => Ok(()),
                    Err(m) => Err(m@),
                },
            ),
            CameraEvent::Handles(r) => EventModel::Handles(
                match r {
                    Ok(h) => Ok(h@),
                    Err(m) => Err(m@),
                },
            ),
            CameraEvent::Object(r) => EventModel::Object(
                match r {
                    Ok(d) => Ok(d@),
                    Err(m) => Err(m@),
                },
            ),
            CameraEvent::Saved => EventModel::Saved,
            CameraEvent::Deleted(r) => EventModel::Deleted(response_model(*r)),
        }
    }
}

/// Whether `ev` answers the operation that `stage` waits for.
pub open spec fn answers(stage: Stage, ev: EventModel) -> bool {
    match stage {
        Stage::SendingInfo | Stage::SendingRaf => ev is Sent,
        Stage::ReadingProfile => ev is Prop,
        Stage::SettingProfile | Stage::TriggeringU32 | Stage::TriggeringU16 => ev is PropSet,
        Stage::Polling { .. } => ev is Handles,
        Stage::Downloading { .. } => ev is Object,
        Stage::Saving { .. } => ev is Saved,
        Stage::Deleting { .. } => ev is Deleted,
        Stage::Finished => false,
    }
}

/// A transition: next stage, notes, action.
pub type Transition = (Stage, Seq<NoteModel>, ActionModel);

/// Detail line of a response: `-> 0x{code:04X} ({name})`.
pub open spec fn response_line(code: u16) -> Seq<char> {
    "-> 0x"@ + pad_zero(hex(code as nat), 4) + " ("@ + response_text(code) + ")"@
}

/// Message when the vendor SendObjectInfo is refused.
pub open spec fn send_info_failed() -> Seq<char> {
    "0x900C failed. Is the camera in USB RAW CONV mode?"@
}

/// Message when the RAF upload is refused.
pub open spec fn send_raf_failed() -> Seq<char> {
    "0x900D (SendObject) failed."@
}

/// Message when no converted image appeared.
pub open spec fn timed_out() -> Seq<char> {
    "Timed out waiting for the camera to produce the converted image."@
}

/// The trigger value: 0 as a u32.
pub open spec fn trigger_u32() -> Seq<u8> {
    seq![0u8, 0u8, 0u8, 0u8]
}

/// The trigger value: 0 as a u16.
pub open spec fn trigger_u16() -> Seq<u8> {
    seq![0u8, 0u8]
}

/// The first transition: step 1 sends the ObjectInfo of the upload (format
/// 0xF802, the RAF's size, file name `FUP_FILE.dat`).
pub open spec fn start_transition(raf_len: usize) -> Transition {
    (
        Stage::SendingInfo,
        seq![NoteModel::Step(1, "sending object info…"@)],
        ActionModel::VendorSend {
            op: FUJI_OC_SEND_OBJECT_INFO,
            params: seq![0u32, 0u32, 0u32],
            data: Some(
                object_info_bytes(
                    PTP_OFC_FUJI_RAW_UPLOAD,
                    (raf_len as int % 0x1_0000_0000) as u32,
                    "FUP_FILE.dat"@,
                ),
            ),
        },
    )
}

/// Ends the conversion.
pub open spec fn finish(notes: Seq<NoteModel>, result: Result<usize, Seq<char>>) -> Transition {
    (Stage::Finished, notes, ActionModel::Finish { result })
}

/// After a poll that found nothing usable: poll again, or give up after the last.
pub open spec fn poll_again(attempt: u32, notes: Seq<NoteModel>) -> Transition {
    if attempt < MAX_POLLS {
        (
            Stage::Polling { attempt: (attempt + 1) as u32 },
            notes,
            ActionModel::ListObjects { attempt: (attempt + 1) as u32 },
        )
    } else {
        finish(notes.push(NoteModel::PollDone), Err(timed_out()))
    }
}

/// Steps 5 and 6 once the trigger was accepted: start polling.
pub open spec fn start_polling(notes: Seq<NoteModel>) -> Transition {
    (
        Stage::Polling { attempt: 1 },
        notes + seq![NoteModel::Step(6, "waiting for camera…"@), NoteModel::PollStart],
        ActionModel::ListObjects { attempt: 1 },
    )
}

/// Step 5: trigger the conversion with a u32 zero.
pub open spec fn trigger(notes: Seq<NoteModel>) -> Transition {
    (
        Stage::TriggeringU32,
        notes.push(NoteModel::Step(5, "triggering RAW conversion…"@)),
        ActionModel::SetProp { prop: FUJI_PROP_START_RAW_CONV, data: trigger_u32() },
    )
}

/// Step 4 with the profile read (possibly empty): apply the recipe and write
/// it back, or skip to the trigger when there is no profile.
pub open spec fn profile_transition(notes: Seq<NoteModel>, profile: Seq<u8>, m: SettingsModel) -> Transition {
    if profile.len() > 0 {
        let applied = if m.no_settings() {
            notes
        } else {
            notes + seq![
                NoteModel::Detail("Applying recipe: "@ + summary_text(m)),
                NoteModel::Detail(apply_log(profile, m)),
            ]
        };
        let data = if m.no_settings() {
            profile
        } else {
            applied_profile(profile, m)
        };
        (
            Stage::SettingProfile,
            applied.push(NoteModel::Step(4, "setting development profile…"@)),
            ActionModel::SetProp { prop: FUJI_PROP_RAW_CONV_PROFILE, data },
        )
    } else {
        trigger(notes.push(NoteModel::Step(4, "skipping profile (no data)…"@)))
    }
}

/// Debug rendering of object handles in hex: `[0000000A, 00000001]`.
pub open spec fn handles_text(hs: Seq<u32>) -> Seq<char> {
    "["@ + join(hs.map_values(|h: u32| pad_zero(hex(h as nat), 8)), ", "@) + "]"@
}

/// The transition of the conversion on an answer to the operation it waits for.
pub open spec fn transition(stage: Stage, ev: EventModel, m: SettingsModel, raf_len: usize) -> Transition {
    match (stage, ev) {
        (Stage::SendingInfo, EventModel::Sent(r)) => match r {
            Err(e) => finish(seq![], Err(e)),
            Ok((code, _)) => if code != RC_OK {
                finish(seq![NoteModel::Detail(response_line(code))], Err(send_info_failed()))
            } else {
                (
                    Stage::SendingRaf,
                    seq![NoteModel::Detail(response_line(code)), NoteModel::Uploading(raf_len)],
                    ActionModel::VendorSend { op: FUJI_OC_SEND_OBJECT, params: seq![], data: None },
                )
            },
        },
        (Stage::SendingRaf, EventModel::Sent(r)) => match r {
            Err(e) => finish(seq![], Err(e)),
            Ok((code, _)) => if code != RC_OK {
                finish(seq![NoteModel::Detail(response_line(code))], Err(send_raf_failed()))
            } else {
                (
                    Stage::ReadingProfile,
                    seq![
                        NoteModel::Detail(response_line(code)),
                        NoteModel::Step(3, "reading development profile…"@),
                    ],
                    ActionModel::GetProp { prop: FUJI_PROP_RAW_CONV_PROFILE },
                )
            },
        },
        (Stage::ReadingProfile, EventModel::Prop(r)) => match r {
            Ok(data) => profile_transition(
                seq![
                    NoteModel::Detail("Got "@ + dec(data.len()) + " bytes of profile data"@),
                    NoteModel::Detail("Current film sim: "@ + film_sim_text(data)),
                ],
                data,
                m,
            ),
            Err(e) => profile_transition(
                seq![
                    NoteModel::Detail("Warning: could not read profile: "@ + e),
                    NoteModel::Detail("Proceeding without profile (camera will use defaults)"@),
                ],
                seq![],
                m,
            ),
        },
        (Stage::SettingProfile, EventModel::PropSet(r)) => match r {
            Ok(()) => trigger(seq![NoteModel::Detail("-> OK"@)]),
            Err(e) => trigger(seq![NoteModel::Detail("Warning: could not set profile: "@ + e)]),
        },
        (Stage::TriggeringU32, EventModel::PropSet(r)) => match r {
            Ok(()) => start_polling(seq![NoteModel::Detail("-> OK"@)]),
            Err(e) => (
                Stage::TriggeringU16,
                seq![NoteModel::Detail("u32 failed ("@ + e + "), trying u16..."@)],
                ActionModel::SetProp { prop: FUJI_PROP_START_RAW_CONV, data: trigger_u16() },
            ),
        },
        (Stage::TriggeringU16, EventModel::PropSet(r)) => match r {
            Ok(()) => start_polling(seq![NoteModel::Detail("-> OK (u16)"@)]),
            Err(e) => finish(seq![], Err("Failed to trigger conversion: "@ + e)),
        },
        (Stage::Polling { attempt }, EventModel::Handles(r)) => match r {
            Ok(hs) => if hs.len() > 0 {
                (
                    Stage::Downloading { attempt, handle: hs[0] },
                    seq![
                        NoteModel::PollResult(
                            "found "@ + dec(hs.len()) + " object(s): "@ + handles_text(hs),
                        ),
                        NoteModel::PollDone,
                        NoteModel::Detail(
                            "Downloading object 0x"@ + pad_zero(hex(hs[0] as nat), 8) + "..."@,
                        ),
                    ],
                    ActionModel::GetObject { handle: hs[0] },
                )
            } else {
                poll_again(attempt, seq![NoteModel::PollResult("no objects yet"@)])
            },
            Err(e) => poll_again(attempt, seq![NoteModel::PollResult("error: "@ + e)]),
        },
        (Stage::Downloading { attempt, handle }, EventModel::Object(r)) => match r {
            Ok(data) => (
                Stage::Saving { handle, size: data.len() as usize },
                seq![
                    NoteModel::Received(data.len() as usize),
                    NoteModel::Detail(
                        if data.len() >= 2 && data[0] == 0xFF && data[1] == 0xD8 {
                            "JPEG signature verified!"@
                        } else {
                            "Warning: data doesn't start with JPEG magic (FF D8)"@
                        },
                    ),
                ],
                ActionModel::Save { data },
            ),
            Err(e) => poll_again(attempt, seq![NoteModel::PollResult("GetObject failed: "@ + e)]),
        },
        (Stage::Saving { handle, size }, EventModel::Saved) => (
            Stage::Deleting { size },
            seq![NoteModel::Detail("Cleaning up (DeleteObject)..."@)],
            ActionModel::DeleteObject { handle },
        ),
        (Stage::Deleting { size }, EventModel::Deleted(r)) => match r {
            Ok(_) => finish(seq![NoteModel::Detail("Object deleted."@)], Ok(size)),
            Err(e) => finish(seq![NoteModel::Detail("Could not delete object: "@ + e)], Ok(size)),
        },
        _ => finish(seq![], Err(seq![])),
    }
}

/// One RAF being converted by the camera.
pub struct Conversion {
    pub recipe: RecipeSettings,
    pub raf_len: usize,
    pub stage: Stage,
}

fn note(v: &mut Vec<Note>, n: Note)
    ensures
        note_views(final(v)@) == note_views(old(v)@).push(n@),
{
    let ghost before = v@;
    v.push(n);
    assert(note_views(v@) =~= note_views(before).push(n@));
}

fn detail(v: &mut Vec<Note>, m: Vec<char>)
    ensures
        note_views(final(v)@) == note_views(old(v)@).push(NoteModel::Detail(m@)),
{
    note(v, Note::Detail(string_of(&m)));
}

fn text(s: &str) -> (r: String)
    ensures
        r@ == s@,
{
    string_of(&chars_of(s))
}

fn response_detail(code: u16) -> (r: Vec<char>)
    ensures
        r@ == response_line(code),
{
    let mut m = chars_of("-> 0x");
    let h = hex_chars(code as u64);
    push_pad_zero(&mut m, &h, 4);
    push_str(&mut m, " (");
    push_str(&mut m, response_name(code));
    push_str(&mut m, ")");
    m
}

fn handles_chars(hs: &Vec<u32>) -> (r: Vec<char>)
    ensures
        r@ == handles_text(hs@),
{
    let mut parts: Vec<Vec<char>> = Vec::new();
    let mut i: usize = 0;
    while i < hs.len()
        invariant
            i <= hs.len(),
            views(parts@) == hs@.take(i as int).map_values(|h: u32| pad_zero(hex(h as nat), 8)),
        decreases hs.len() - i,
    {
        let mut p: Vec<char> = Vec::new();
        let h = hex_chars(hs[i] as u64);
        push_pad_zero(&mut p, &h, 8);
        let ghost before = parts@;
        parts.push(p);
        assert(views(parts@) =~= views(before).push(p@));
        assert(hs@.take(i + 1).map_values(|h: u32| pad_zero(hex(h as nat), 8)) =~= hs@.take(
            i as int,
        ).map_values(|h: u32| pad_zero(hex(h as nat), 8)).push(pad_zero(hex(hs@[i as int] as nat), 8)));
        i += 1;
    }
    assert(hs@.take(hs.len() as int) =~= hs@);
    let mut r = chars_of("[");
    let j = join_chars(&parts, ", ");
    crate::text::push_chars(&mut r, &j);
    push_str(&mut r, "]");
    r
}

fn finish_with(notes: Vec<Note>, result: Result<usize, String>) -> (r: (Stage, Vec<Note>, CameraAction))
    ensures
        (r.0, note_views(r.1@), r.2@) == finish(
            note_views(notes@),
            match result {
                Ok(n) => Ok(n),
                Err(m) => Err(m@),
            },
        ),
{
    (Stage::Finished, notes, CameraAction::Finish { result })
}

fn poll_again_exec(attempt: u32, notes: Vec<Note>) -> (r: (Stage, Vec<Note>, CameraAction))
    ensures
        (r.0, note_views(r.1@), r.2@) == poll_again(attempt, note_views(notes@)),
{
    if attempt < MAX_POLLS {
        (Stage::Polling { attempt: attempt + 1 }, notes, CameraAction::ListObjects { attempt: attempt + 1 })
    } else {
        let mut notes = notes;
        note(&mut notes, Note::PollDone);
        finish_with(notes, Err(text("Timed out waiting for the camera to produce the converted image.")))
    }
}

fn trigger_exec(notes: Vec<Note>) -> (r: (Stage, Vec<Note>, CameraAction))
    ensures
        (r.0, note_views(r.1@), r.2@) == trigger(note_views(notes@)),
{
    let mut notes = notes;
    note(&mut notes, Note::Step(5, text("triggering RAW conversion…")));
    let data = vec![0u8, 0u8, 0u8, 0u8];
    assert(data@ =~= trigger_u32());
    (Stage::TriggeringU32, notes, CameraAction::SetProp { prop: FUJI_PROP_START_RAW_CONV, data })
}

fn start_polling_exec(notes: Vec<Note>) -> (r: (Stage, Vec<Note>, CameraAction))
    ensures
        (r.0, note_views(r.1@), r.2@) == start_polling(note_views(notes@)),
{
    let mut notes = notes;
    let ghost n0 = note_views(notes@);
    note(&mut notes, Note::Step(6, text("waiting for camera…")));
    note(&mut notes, Note::PollStart);
    assert(note_views(notes@) =~= n0 + seq![
        NoteModel::Step(6, "waiting for camera…"@),
        NoteModel::PollStart,
    ]);
    (Stage::Polling { attempt: 1 }, notes, CameraAction::ListObjects { attempt: 1 })
}

fn profile_exec(notes: Vec<Note>, profile: Vec<u8>, recipe: &RecipeSettings) -> (r: (
    Stage,
    Vec<Note>,
    CameraAction,
))
    requires
        profile_writable(profile@, recipe@),
    ensures
        (r.0, note_views(r.1@), r.2@) == profile_transition(note_views(notes@), profile@, recipe@),
{
    let mut notes = notes;
    let ghost n0 = note_views(notes@);
    if profile.len() > 0 {
        let mut profile = profile;
        let ghost p0 = profile@;
        if !recipe.is_empty() {
            let mut m = chars_of("Applying recipe: ");
            push_str(&mut m, recipe.summary().as_str());
            detail(&mut notes, m);
            let changes = apply_recipe(&mut profile, recipe);
            detail(&mut notes, chars_of(changes.as_str()));
            assert(note_views(notes@) =~= n0 + seq![
                NoteModel::Detail("Applying recipe: "@ + summary_text(recipe@)),
                NoteModel::Detail(apply_log(p0, recipe@)),
            ]);
        }
        note(&mut notes, Note::Step(4, text("setting development profile…")));
        (Stage::SettingProfile, notes, CameraAction::SetProp { prop: FUJI_PROP_RAW_CONV_PROFILE, data: profile })
    } else {
        note(&mut notes, Note::Step(4, text("skipping profile (no data)…")));
        trigger_exec(notes)
    }
}

/// Whether the recipe can be applied to a profile the camera handed back:
/// there is nothing to apply (an empty profile or empty settings), or the
/// settings can be summarised and, when the profile holds properties, encoded
/// (otherwise the arithmetic overflows).
pub open spec fn profile_writable(p: Seq<u8>, m: SettingsModel) -> bool {
    p.len() > 0 && !m.no_settings() ==> m.exposure_comp != Some(i32::MIN) && (p.len()
        >= crate::profile::PROPS_OFFSET + 4 ==> m.encodable())
}

/// Whether an answer can be taken: a profile read back must be one the
/// recipe can be applied to.
pub open spec fn takes(stage: Stage, ev: EventModel, m: SettingsModel) -> bool {
    match (stage, ev) {
        (Stage::ReadingProfile, EventModel::Prop(Ok(d))) => profile_writable(d, m),
        _ => true,
    }
}

/// Whether `recipe` can be applied to `profile` (see `profile_writable`).
pub fn can_apply(profile: &[u8], recipe: &RecipeSettings) -> (b: bool)
    ensures
        b == profile_writable(profile@, recipe@),
{
    if profile.len() == 0 || recipe.is_empty() {
        return true;
    }
    if recipe.exposure_comp == Some(i32::MIN) {
        return false;
    }
    profile.len() < crate::profile::PROPS_OFFSET + 4 || recipe.is_encodable()
}

impl Conversion {
    /// Starts converting a RAF of `raf_len` bytes with `recipe`: step 1.
    pub fn start(recipe: RecipeSettings, raf_len: usize) -> (r: (Conversion, Vec<Note>, CameraAction))
        ensures
            r.0.recipe@ == recipe@,
            r.0.raf_len == raf_len,
            (r.0.stage, note_views(r.1@), r.2@) == start_transition(raf_len),
    {
        let mut notes: Vec<Note> = Vec::new();
        note(&mut notes, Note::Step(1, text("sending object info…")));
        let info = build_object_info(
            PTP_OFC_FUJI_RAW_UPLOAD,
            (raf_len as u64 % 0x1_0000_0000) as u32,
            "FUP_FILE.dat",
        );
        let params = vec![0u32, 0u32, 0u32];
        assert(params@ =~= seq![0u32, 0u32, 0u32]);
        (
            Conversion { recipe, raf_len, stage: Stage::SendingInfo },
            notes,
            CameraAction::VendorSend { op: FUJI_OC_SEND_OBJECT_INFO, params, data: Some(info) },
        )
    }

    fn on_sent(stage: Stage, r: Result<PtpResponse, String>, raf_len: usize) -> (t: (Stage, Vec<Note>, CameraAction))
        requires
            stage == Stage::SendingInfo || stage == Stage::SendingRaf,
        ensures
            (t.0, note_views(t.1@), t.2@) == transition(stage, EventModel::Sent(response_model(r)), SettingsModel::empty(), raf_len),
    {
        let mut notes: Vec<Note> = Vec::new();
        let code = match r {
            Err(e) => {
                return finish_with(notes, Err(e));
            },
            Ok(resp) => resp.code,
        };
        detail(&mut notes, response_detail(code));
        if stage == Stage::SendingInfo {
            if code != RC_OK {
                return finish_with(notes, Err(text("0x900C failed. Is the camera in USB RAW CONV mode?")));
            }
            note(&mut notes, Note::Uploading(raf_len));
            (Stage::SendingRaf, notes, CameraAction::VendorSend { op: FUJI_OC_SEND_OBJECT, params: Vec::new(), data: None })
        } else {
            if code != RC_OK {
                return finish_with(notes, Err(text("0x900D (SendObject) failed.")));
            }
            note(&mut notes, Note::Step(3, text("reading development profile…")));
            (Stage::ReadingProfile, notes, CameraAction::GetProp { prop: FUJI_PROP_RAW_CONV_PROFILE })
        }
    }

    fn on_prop(r: Result<Vec<u8>, String>, recipe: &RecipeSettings, raf_len: usize) -> (t: (Stage, Vec<Note>, CameraAction))
        requires
            r matches Ok(d) ==> profile_writable(d@, recipe@),
        ensures
            (t.0, note_views(t.1@), t.2@) == transition(
                Stage::ReadingProfile,
                EventModel::Prop(
                    match r {
                        Ok(d) => Ok(d@),
                        Err(m) => Err(m@),
                    },
                ),
                recipe@,
                raf_len,
            ),
    {
        let mut notes: Vec<Note> = Vec::new();
        match r {
            Ok(data) => {
                let mut m = chars_of("Got ");
                push_dec(&mut m, data.len() as u64);
                push_str(&mut m, " bytes of profile data");
                detail(&mut notes, m);
                let mut f = chars_of("Current film sim: ");
                push_str(&mut f, current_film_sim(data.as_slice()).as_str());
                detail(&mut notes, f);
                profile_exec(notes, data, recipe)
            },
            Err(e) => {
                let mut m = chars_of("Warning: could not read profile: ");
                push_str(&mut m, e.as_str());
                detail(&mut notes, m);
                detail(&mut notes, chars_of("Proceeding without profile (camera will use defaults)"));
                let empty: Vec<u8> = Vec::new();
                assert(empty@ =~= Seq::<u8>::empty());
                profile_exec(notes, empty, recipe)
            },
        }
    }

    fn on_prop_set(stage: Stage, r: Result<(), String>, raf_len: usize) -> (t: (Stage, Vec<Note>, CameraAction))
        requires
            stage == Stage::SettingProfile || stage == Stage::TriggeringU32 || stage
                == Stage::TriggeringU16,
        ensures
            (t.0, note_views(t.1@), t.2@) == transition(
                stage,
                EventModel::PropSet(
                    match r {
                        Ok(()) => Ok(()),
                        Err(m) => Err(m@),
                    },
                ),
                SettingsModel::empty(),
                raf_len,
            ),
    {
        let mut notes: Vec<Note> = Vec::new();
        match stage {
            Stage::SettingProfile => {
                match r {
                    Ok(()) => detail(&mut notes, chars_of("-> OK")),
                    Err(e) => {
                        let mut m = chars_of("Warning: could not set profile: ");
                        push_str(&mut m, e.as_str());
                        detail(&mut notes, m);
                    },
                }
                trigger_exec(notes)
            },
            Stage::TriggeringU32 => {
                match r {
                    Ok(()) => {
                        detail(&mut notes, chars_of("-> OK"));
                        start_polling_exec(notes)
                    },
                    Err(e) => {
                        let mut m = chars_of("u32 failed (");
                        push_str(&mut m, e.as_str());
                        push_str(&mut m, "), trying u16...");
                        detail(&mut notes, m);
                        let data = vec![0u8, 0u8];
                        assert(data@ =~= trigger_u16());
                        (Stage::TriggeringU16, notes, CameraAction::SetProp { prop: FUJI_PROP_START_RAW_CONV, data })
                    },
                }
            },
            _ => {
                match r {
                    Ok(()) => {
                        detail(&mut notes, chars_of("-> OK (u16)"));
                        start_polling_exec(notes)
                    },
                    Err(e) => {
                        let mut m = chars_of("Failed to trigger conversion: ");
                        push_str(&mut m, e.as_str());
                        finish_with(notes, Err(string_of(&m)))
                    },
                }
            },
        }
    }

    fn on_handles(attempt: u32, r: Result<Vec<u32>, String>, raf_len: usize) -> (t: (Stage, Vec<Note>, CameraAction))
        ensures
            (t.0, note_views(t.1@), t.2@) == transition(
                Stage::Polling { attempt },
                EventModel::Handles(
                    match r {
                        Ok(h) => Ok(h@),
                        Err(m) => Err(m@),
                    },
                ),
                SettingsModel::empty(),
                raf_len,
            ),
    {
        let mut notes: Vec<Note> = Vec::new();
        match r {
            Ok(hs) => {
                if hs.len() > 0 {
                    let mut m = chars_of("found ");
                    push_dec(&mut m, hs.len() as u64);
                    push_str(&mut m, " object(s): ");
                    let ht = handles_chars(&hs);
                    crate::text::push_chars(&mut m, &ht);
                    note(&mut notes, Note::PollResult(string_of(&m)));
                    note(&mut notes, Note::PollDone);
                    let handle = hs[0];
                    let mut d = chars_of("Downloading object 0x");
                    let h = hex_chars(handle as u64);
                    push_pad_zero(&mut d, &h, 8);
                    push_str(&mut d, "...");
                    detail(&mut notes, d);
                    (Stage::Downloading { attempt, handle }, notes, CameraAction::GetObject { handle })
                } else {
                    note(&mut notes, Note::PollResult(text("no objects yet")));
                    poll_again_exec(attempt, notes)
                }
            },
            Err(e) => {
                let mut m = chars_of("error: ");
                push_str(&mut m, e.as_str());
                note(&mut notes, Note::PollResult(string_of(&m)));
                poll_again_exec(attempt, notes)
            },
        }
    }

    fn on_object(attempt: u32, handle: u32, r: Result<Vec<u8>, String>, raf_len: usize) -> (t: (Stage, Vec<Note>, CameraAction))
        ensures
            (t.0, note_views(t.1@), t.2@) == transition(
                Stage::Downloading { attempt, handle },
                EventModel::Object(
                    match r {
                        Ok(d) => Ok(d@),
                        Err(m) => Err(m@),
                    },
                ),
                SettingsModel::empty(),
                raf_len,
            ),
    {
        let mut notes: Vec<Note> = Vec::new();
        match r {
            Ok(data) => {
                let size = data.len();
                note(&mut notes, Note::Received(size));
                if data.len() >= 2 && data[0] == 0xFF && data[1] == 0xD8 {
                    detail(&mut notes, chars_of("JPEG signature verified!"));
                } else {
                    detail(&mut notes, chars_of("Warning: data doesn't start with JPEG magic (FF D8)"));
                }
                (Stage::Saving { handle, size }, notes, CameraAction::Save { data })
            },
            Err(e) => {
                let mut m = chars_of("GetObject failed: ");
                push_str(&mut m, e.as_str());
                note(&mut notes, Note::PollResult(string_of(&m)));
                poll_again_exec(attempt, notes)
            },
        }
    }

    fn on_deleted(size: usize, r: Result<PtpResponse, String>, raf_len: usize) -> (t: (Stage, Vec<Note>, CameraAction))
        ensures
            (t.0, note_views(t.1@), t.2@) == transition(
                Stage::Deleting { size },
                EventModel::Deleted(response_model(r)),
                SettingsModel::empty(),
                raf_len,
            ),
    {
        let mut notes: Vec<Note> = Vec::new();
        match r {
            Ok(_) => detail(&mut notes, chars_of("Object deleted.")),
            Err(e) => {
                let mut m = chars_of("Could not delete object: ");
                push_str(&mut m, e.as_str());
                detail(&mut notes, m);
            },
        }
        finish_with(notes, Ok(size))
    }

    /// Advances the conversion on the answer to its last action.
    pub fn on_event(&mut self, ev: CameraEvent) -> (r: (Vec<Note>, CameraAction))
        requires
            answers(old(self).stage, ev@),
            takes(old(self).stage, ev@, old(self).recipe@),
        ensures
            final(self).recipe@ == old(self).recipe@,
            final(self).raf_len == old(self).raf_len,
            (final(self).stage, note_views(r.0@), r.1@) == transition(
                old(self).stage,
                ev@,
                old(self).recipe@,
                old(self).raf_len,
            ),
    {
        let t = match ev {
            CameraEvent::Sent(r) => Self::on_sent(self.stage, r, self.raf_len),
            CameraEvent::Prop(r) => Self::on_prop(r, &self.recipe, self.raf_len),
            CameraEvent::PropSet(r) => Self::on_prop_set(self.stage, r, self.raf_len),
            CameraEvent::Handles(r) => {
                let attempt = match self.stage {
                    Stage::Polling { attempt } => attempt,
                    _ => 0,
                };
                Self::on_handles(attempt, r, self.raf_len)
            },
            CameraEvent::Object(r) => {
                let (attempt, handle) = match self.stage {
                    Stage::Downloading { attempt, handle } => (attempt, handle),
                    _ => (0, 0),
                };
                Self::on_object(attempt, handle, r, self.raf_len)
            },
            CameraEvent::Saved => {
                let (handle, size) = match self.stage {
                    Stage::Saving { handle, size } => (handle, size),
                    _ => (0, 0),
                };
                let mut notes: Vec<Note> = Vec::new();
                detail(&mut notes, chars_of("Cleaning up (DeleteObject)..."));
                (Stage::Deleting { size }, notes, CameraAction::DeleteObject { handle })
            },
            CameraEvent::Deleted(r) => {
                let size = match self.stage {
                    Stage::Deleting { size } => size,
                    _ => 0,
                };
                Self::on_deleted(size, r, self.raf_len)
            },
        };
        self.stage = t.0;
        (t.1, t.2)
    }
}


/// A stage the conversion can be in: polls are numbered 1 to `MAX_POLLS`.
pub open spec fn valid_stage(stage: Stage) -> bool {
    match stage {
        Stage::Polling { attempt } => 1 <= attempt <= MAX_POLLS,
        Stage::Downloading { attempt, .. } => 1 <= attempt <= MAX_POLLS,
        _ => true,
    }
}

/// Upper bound on the answers a conversion still needs before it finishes.
pub open spec fn remaining_steps(stage: Stage) -> int {
    match stage {
        Stage::SendingInfo => 186,
        Stage::SendingRaf => 185,
        Stage::ReadingProfile => 184,
        Stage::SettingProfile => 183,
        Stage::TriggeringU32 => 182,
        Stage::TriggeringU16 => 181,
        Stage::Polling { attempt } => 4 * (MAX_POLLS - attempt) + 4,
        Stage::Downloading { attempt, .. } => 4 * (MAX_POLLS - attempt) + 3,
        Stage::Saving { .. } => 2,
        Stage::Deleting { .. } => 1,
        Stage::Finished => 0,
    }
}

/// Every answer moves a conversion strictly closer to its end: it starts with
/// at most 186 answers to go, each answer to the operation it waits for leaves
/// it in a valid stage with fewer to go, and at 0 it has finished. So a
/// conversion always finishes, at the latest after the last of its 45 polls.
pub proof fn law_conversion_finishes(stage: Stage, ev: EventModel, m: SettingsModel, raf_len: usize)
    requires
        valid_stage(stage),
        answers(stage, ev),
    ensures
        valid_stage(transition(stage, ev, m, raf_len).0),
        0 <= remaining_steps(transition(stage, ev, m, raf_len).0) < remaining_steps(stage),
        remaining_steps(start_transition(raf_len).0) == 186,
        remaining_steps(transition(stage, ev, m, raf_len).0) == 0 ==> transition(
            stage,
            ev,
            m,
            raf_len,
        ).0 == Stage::Finished && transition(stage, ev, m, raf_len).2 is Finish,
{
}

/// A conversion that downloads an image saves exactly that image, deletes the
/// object it came from, and reports the image's size when it finishes.
pub proof fn law_reports_saved_size(
    attempt: u32,
    handle: u32,
    data: Seq<u8>,
    deleted: Result<(u16, Seq<u32>), Seq<char>>,
    m: SettingsModel,
    raf_len: usize,
)
    requires
        data.len() <= usize::MAX,
    ensures
        ({
            let t1 = transition(
                Stage::Downloading { attempt, handle },
                EventModel::Object(Ok(data)),
                m,
                raf_len,
            );
            let t2 = transition(t1.0, EventModel::Saved, m, raf_len);
            let t3 = transition(t2.0, EventModel::Deleted(deleted), m, raf_len);
            &&& t1.2 == ActionModel::Save { data }
            &&& t2.2 == ActionModel::DeleteObject { handle }
            &&& t3.0 == Stage::Finished
            &&& t3.2 == ActionModel::Finish { result: Ok(data.len() as usize) }
        }),
{
}

/// The actions a conversion takes on a run of answers, from `stage`.
pub open spec fn run_actions(stage: Stage, evs: Seq<EventModel>, m: SettingsModel, raf_len: usize) -> Seq<ActionModel>
    decreases evs.len(),
{
    if evs.len() == 0 {
        seq![]
    } else {
        let t = transition(stage, evs[0], m, raf_len);
        seq![t.2] + run_actions(t.0, evs.drop_first(), m, raf_len)
    }
}

/// A poll that finds no image: an empty list of objects, or an error.
pub open spec fn finds_nothing(ev: EventModel) -> bool {
    match ev {
        EventModel::Handles(Ok(h)) => h.len() == 0,
        EventModel::Handles(Err(_)) => true,
        _ => false,
    }
}

/// While polls find nothing, poll `attempt` is followed by the next poll,
/// up to the last of the `MAX_POLLS` polls, after which the conversion gives
/// up with the timeout message: nothing is downloaded, saved or deleted.
pub proof fn law_polls_then_gives_up(attempt: u32, evs: Seq<EventModel>, m: SettingsModel, raf_len: usize)
    requires
        1 <= attempt <= MAX_POLLS,
        evs.len() == MAX_POLLS - attempt + 1,
        forall|i: int| 0 <= i < evs.len() ==> finds_nothing(#[trigger] evs[i]),
    ensures
        (run_actions(Stage::Polling { attempt }, evs, m, raf_len) == Seq::new(
            (MAX_POLLS - attempt) as nat,
            |i: int| ActionModel::ListObjects { attempt: (attempt + 1 + i) as u32 },
        ).push(ActionModel::Finish { result: Err(timed_out()) })),
    decreases MAX_POLLS - attempt,
{
    let t = transition(Stage::Polling { attempt }, evs[0], m, raf_len);
    assert(finds_nothing(evs[0]));
    let rest = evs.drop_first();
    if attempt < MAX_POLLS {
        assert(t.0 == Stage::Polling { attempt: (attempt + 1) as u32 });
        assert(t.2 == ActionModel::ListObjects { attempt: (attempt + 1) as u32 });
        assert forall|i: int| 0 <= i < rest.len() implies finds_nothing(#[trigger] rest[i]) by {
            assert(rest[i] == evs[i + 1]);
        }
        law_polls_then_gives_up((attempt + 1) as u32, rest, m, raf_len);
        let tail = run_actions(Stage::Polling { attempt: (attempt + 1) as u32 }, rest, m, raf_len);
        assert(run_actions(Stage::Polling { attempt }, evs, m, raf_len) == seq![t.2] + tail);
        let want = Seq::new(
            (MAX_POLLS - attempt) as nat,
            |i: int| ActionModel::ListObjects { attempt: (attempt + 1 + i) as u32 },
        ).push(ActionModel::Finish { result: Err(timed_out()) });
        let got = seq![t.2] + tail;
        assert(got.len() == want.len());
        assert forall|i: int| 0 <= i < got.len() implies got[i] == want[i] by {
            if i > 0 {
                assert(got[i] == tail[i - 1]);
            }
        }
        assert(got =~= want);
        assert(run_actions(Stage::Polling { attempt }, evs, m, raf_len) =~= Seq::new(
            (MAX_POLLS - attempt) as nat,
            |i: int| ActionModel::ListObjects { attempt: (attempt + 1 + i) as u32 },
        ).push(ActionModel::Finish { result: Err(timed_out()) }));
    } else {
        assert(t.2 == ActionModel::Finish { result: Err(timed_out()) });
        assert(rest.len() == 0);
        assert(run_actions(t.0, rest, m, raf_len) =~= Seq::<ActionModel>::empty());
        assert(run_actions(Stage::Polling { attempt }, evs, m, raf_len) == seq![t.2] + run_actions(
            t.0,
            rest,
            m,
            raf_len,
        ));
        assert(Seq::new(
            (MAX_POLLS - attempt) as nat,
            |i: int| ActionModel::ListObjects { attempt: (attempt + 1 + i) as u32 },
        ) =~= Seq::<ActionModel>::empty());
        assert(run_actions(Stage::Polling { attempt }, evs, m, raf_len) =~= Seq::new(
            (MAX_POLLS - attempt) as nat,
            |i: int| ActionModel::ListObjects { attempt: (attempt + 1 + i) as u32 },
        ).push(ActionModel::Finish { result: Err(timed_out()) }));
    }
}

/// The development profile is written before the conversion is triggered:
/// a non-empty profile read back is written once (with the recipe applied,
/// unless the recipe sets nothing), then the trigger is set to a u32 zero,
/// then, if refused, to a u16 zero; if both are refused the conversion fails
/// without polling. An empty profile goes straight to the trigger.
pub proof fn law_profile_before_trigger(
    p: Seq<u8>,
    m: SettingsModel,
    raf_len: usize,
    written: Result<(), Seq<char>>,
    e32: Seq<char>,
    e16: Seq<char>,
)
    ensures
        p.len() > 0 ==> ({
            let t = transition(Stage::ReadingProfile, EventModel::Prop(Ok(p)), m, raf_len);
            &&& t.0 == Stage::SettingProfile
            &&& t.2 == ActionModel::SetProp {
                prop: FUJI_PROP_RAW_CONV_PROFILE,
                data: if m.no_settings() {
                    p
                } else {
                    applied_profile(p, m)
                },
            }
        }),
        p.len() == 0 ==> ({
            let t = transition(Stage::ReadingProfile, EventModel::Prop(Ok(p)), m, raf_len);
            &&& t.0 == Stage::TriggeringU32
            &&& t.2 == ActionModel::SetProp { prop: FUJI_PROP_START_RAW_CONV, data: trigger_u32() }
        }),
        ({
            let t = transition(Stage::SettingProfile, EventModel::PropSet(written), m, raf_len);
            &&& t.0 == Stage::TriggeringU32
            &&& t.2 == ActionModel::SetProp { prop: FUJI_PROP_START_RAW_CONV, data: trigger_u32() }
        }),
        (transition(Stage::TriggeringU32, EventModel::PropSet(Ok(())), m, raf_len).2
            == ActionModel::ListObjects { attempt: 1 }),
        ({
            let t = transition(Stage::TriggeringU32, EventModel::PropSet(Err(e32)), m, raf_len);
            &&& t.0 == Stage::TriggeringU16
            &&& t.2 == ActionModel::SetProp { prop: FUJI_PROP_START_RAW_CONV, data: trigger_u16() }
        }),
        (transition(Stage::TriggeringU16, EventModel::PropSet(Ok(())), m, raf_len).2
            == ActionModel::ListObjects { attempt: 1 }),
        (transition(Stage::TriggeringU16, EventModel::PropSet(Err(e16)), m, raf_len).2
            == ActionModel::Finish { result: Err("Failed to trigger conversion: "@ + e16) }),
{
}

} // verus!
