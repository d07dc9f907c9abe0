//! Decisions and texts of the command-line front end: which USB device is an
//! X100VI, which files are RAFs, where converted images go, the project file
//! template, and the reports of `validate`, `probe` and `detect`.
use vstd::prelude::*;

use crate::config::{
    batch_views, file_stem, file_stem_of, join_path, output_dir_name, overlay_parts,
    path_join, OutputBatch, OutputBatchModel, ProjectConfig, ProjectConfigModel, dir_name_of,
    describe_global_override, describe_output_override, job_views, JobModel,
};
use crate::fuji::X100VI_PRODUCT_ID;
use crate::profile::join;
use crate::ptp::{
    format_name, format_text, operation_name, operation_text, property_name, property_text,
    DeviceInfo, DeviceInfoModel,
};
use crate::text::{
    ascii_lower, chars_eq_str, chars_of, contains_chars, contains_seq, dec, dec_int,
    eq_ignore_ascii_case, eq_ignore_ascii_case_chars, hex, hex_chars, pad_right, pad_zero,
    parse_u32_spec, parse_u32_str, push_chars, push_dec, push_dec_i64, push_hex, push_pad_right,
    push_pad_zero, push_str, split_char, split_on, string_of, string_views, sub_chars, trim,
    trim_end_char, trim_end_char_chars, trim_str, unicode_uppercase, views, all_ascii,
    ascii_uppercase,
};

verus! {

// ---------------------------------------------------------------------------
// Devices and files
// ---------------------------------------------------------------------------

/// What `str::to_uppercase` gives, through std.
fn uppercase_chars(s: &str) -> (r: Vec<char>)
    ensures
        r@ == unicode_uppercase(s@),
        all_ascii(s@) ==> r@ == ascii_uppercase(s@),
{
    chars_of(crate::text::std_to_uppercase(s).as_str())
}

/// Whether a Fujifilm device is an X100VI: its product id is the X100VI's,
/// or its product name, upper-cased, contains `X100VI`.
pub fn is_x100vi(product_id: u16, product_name: &str) -> (r: bool)
    ensures
        r == (product_id == X100VI_PRODUCT_ID || contains_seq(
            unicode_uppercase(product_name@),
            "X100VI"@,
        )),
        all_ascii(product_name@) ==> r == (product_id == X100VI_PRODUCT_ID || contains_seq(
            ascii_uppercase(product_name@),
            "X100VI"@,
        )),
{
    product_id == X100VI_PRODUCT_ID || contains_chars(
        &uppercase_chars(product_name),
        &chars_of("X100VI"),
    )
}

/// Whether a file name ends in `.raf`, in any ASCII case.
pub open spec fn raf_name(n: Seq<char>) -> bool {
    n.len() >= 4 && eq_ignore_ascii_case(n.skip(n.len() - 4), ".raf"@)
}

/// Whether a file name ends in `.raf`, in any ASCII case.
pub fn is_raf_name(name: &str) -> (r: bool)
    ensures
        r == raf_name(name@),
{
    let v = chars_of(name);
    if v.len() < 4 {
        return false;
    }
    let tail = sub_chars(&v, v.len() - 4, v.len());
    assert(tail@ =~= v@.skip(v@.len() - 4));
    eq_ignore_ascii_case_chars(&tail, &chars_of(".raf"))
}

/// The RAW directory as given, trimmed and without trailing separators.
pub fn raw_dir_path(raw_dir: &str) -> (r: String)
    ensures
        r@ == trim_end_char(trim(raw_dir@), '/'),
{
    let t = trim_str(raw_dir);
    string_of(&trim_end_char_chars(&t, '/'))
}

/// Owner ids of a `sudo` invocation: both `SUDO_UID` and `SUDO_GID` must
/// read as numbers.
pub fn sudo_owner(uid: Option<&str>, gid: Option<&str>) -> (r: Option<(u32, u32)>)
    ensures
        r == (match (uid, gid) {
            (Some(u), Some(g)) => match (parse_u32_spec(u@), parse_u32_spec(g@)) {
                (Some(a), Some(b)) => Some((a, b)),
                _ => None,
            },
            _ => None::<(u32, u32)>,
        }),
{
    match (uid, gid) {
        (Some(u), Some(g)) => match (parse_u32_str(u), parse_u32_str(g)) {
            (Some(a), Some(b)) => Some((a, b)),
            _ => None,
        },
        _ => None,
    }
}

// ---------------------------------------------------------------------------
// Paths
// ---------------------------------------------------------------------------

/// The normal components of a path: its pieces between separators, without
/// empty pieces and `.`.
pub open spec fn path_parts(p: Seq<char>) -> Seq<Seq<char>> {
    split_on(p, '/').filter(|c: Seq<char>| c.len() > 0 && c != "."@)
}

/// The file name of a path (`Path::file_name`): its last component, unless
/// that is `..` or there is none.
pub open spec fn file_name_of(p: Seq<char>) -> Option<Seq<char>> {
    let parts = path_parts(p);
    if parts.len() == 0 || parts.last() == ".."@ {
        None
    } else {
        Some(parts.last())
    }
}

/// The file name of a path.
pub fn file_name(p: &str) -> (r: Option<Vec<char>>)
    ensures
        match r {
            Some(n) => file_name_of(p@) == Some(n@),
            None => file_name_of(p@) is None,
        },
{
    let pieces = split_char(&chars_of(p), '/');
    let ghost all = views(pieces@);
    let mut kept: Vec<Vec<char>> = Vec::new();
    let mut i: usize = 0;
    while i < pieces.len()
        invariant
            i <= pieces.len(),
            all == views(pieces@),
            all == split_on(p@, '/'),
            views(kept@) == all.take(i as int).filter(|c: Seq<char>| c.len() > 0 && c != "."@),
        decreases pieces.len() - i,
    {
        let c = &pieces[i];
        assert(all.take(i + 1).drop_last() =~= all.take(i as int));
        assert(all.take(i + 1).last() == c@);
        reveal(Seq::filter);
        if c.len() > 0 && !chars_eq_str(c, ".") {
            let ghost before = kept@;
            kept.push(sub_chars(c, 0, c.len()));
            assert(c@.subrange(0, c@.len() as int) =~= c@);
            assert(views(kept@) =~= views(before).push(c@));
        }
        i += 1;
    }
    assert(all.take(pieces.len() as int) =~= all);
    if kept.len() == 0 {
        return None;
    }
    assert(views(kept@).last() == kept@[kept.len() - 1]@);
    let last = sub_chars(&kept[kept.len() - 1], 0, kept[kept.len() - 1].len());
    assert(last@ =~= kept@[kept.len() - 1]@);
    if chars_eq_str(&last, "..") {
        return None;
    }
    Some(last)
}

/// A path for display: relative to `root` when it lies under it (it is
/// `root` followed by a separator), the path itself otherwise.
pub open spec fn relative_text(path: Seq<char>, root: Seq<char>) -> Seq<char> {
    if path == root {
        seq![]
    } else if root.len() > 0 && root.last() == '/' && root.len() <= path.len() && path.take(
        root.len() as int,
    ) == root {
        path.skip(root.len() as int)
    } else if root.len() + 1 <= path.len() && path.take(root.len() as int) == root && path[root.len() as int]
        == '/' {
        path.skip(root.len() as int + 1)
    } else {
        path
    }
}

/// A path for display, relative to `root` when it lies under it.
pub fn path_display_relative_to(path: &str, root: &str) -> (r: String)
    ensures
        r@ == relative_text(path@, root@),
{
    let p = chars_of(path);
    let rt = chars_of(root);
    if crate::text::chars_eq(&p, &rt) {
        return String::new();
    }
    if rt.len() <= p.len() {
        let head = sub_chars(&p, 0, rt.len());
        assert(head@ =~= p@.take(rt@.len() as int));
        if crate::text::chars_eq(&head, &rt) {
            if rt.len() > 0 && rt[rt.len() - 1] == '/' {
                let rest = sub_chars(&p, rt.len(), p.len());
                assert(rest@ =~= p@.skip(rt@.len() as int));
                return string_of(&rest);
            }
            if rt.len() < p.len() && p[rt.len()] == '/' {
                let rest = sub_chars(&p, rt.len() + 1, p.len());
                assert(rest@ =~= p@.skip(rt@.len() as int + 1));
                return string_of(&rest);
            }
        }
    }
    string_of(&p)
}

// ---------------------------------------------------------------------------
// Converting files given on the command line
// ---------------------------------------------------------------------------

/// Whether `--output` names a directory: it is one already, it ends with a
/// separator, or there are several inputs.
pub open spec fn output_is_dir(output: Seq<char>, exists_as_dir: bool, n_inputs: int) -> bool {
    exists_as_dir || (output.len() > 0 && output.last() == '/') || n_inputs > 1
}

/// The output of one input: the given file, or `{stem}-{suffix}.jpg` in the
/// output directory (or the current one).
pub open spec fn output_for(input: Seq<char>, out_file: Option<Seq<char>>, out_dir: Option<Seq<char>>, suffix: Seq<char>) -> Seq<char> {
    match out_file {
        Some(f) => f,
        None => {
            let stem = match file_name_of(input) {
                Some(n) => file_stem_of(n),
                None => seq![],
            };
            let name = stem + "-"@ + suffix + ".jpg"@;
            match out_dir {
                Some(d) => path_join(d, name),
                None => name,
            }
        },
    }
}

/// Where the images of a `convert` go.
pub struct ConvertPlan {
    /// The output directory, when `--output` names one.
    pub out_dir: Option<String>,
    /// Input and output path of each file.
    pub jobs: Vec<(String, String)>,
}

/// Plans a `convert` of `inputs`: with `--output` naming a directory (see
/// `output_is_dir`) each image goes there as `{stem}-{suffix}.jpg`; naming a
/// file, the single image goes there; without it, `{stem}-{suffix}.jpg` in
/// the current directory.
pub fn plan_convert(inputs: &[String], output: Option<&str>, output_exists_as_dir: bool, suffix: &str) -> (r: ConvertPlan)
    ensures
        match output {
            Some(o) => if output_is_dir(o@, output_exists_as_dir, inputs@.len() as int) {
                r.out_dir matches Some(d) && d@ == o@
            } else {
                r.out_dir is None
            },
            None => r.out_dir is None,
        },
        job_views(r.jobs@) == inputs@.map_values(
            |i: String|
                (
                    i@,
                    output_for(
                        i@,
                        match output {
                            Some(o) => if output_is_dir(o@, output_exists_as_dir, inputs@.len() as int) {
                                None
                            } else {
                                Some(o@)
                            },
                            None => None,
                        },
                        match output {
                            Some(o) => if output_is_dir(o@, output_exists_as_dir, inputs@.len() as int) {
                                Some(o@)
                            } else {
                                None
                            },
                            None => None,
                        },
                        suffix@,
                    ),
                ),
        ),
{
    let (out_file, out_dir): (Option<&str>, Option<&str>) = match output {
        Some(o) => {
            let v = chars_of(o);
            if output_exists_as_dir || (v.len() > 0 && v[v.len() - 1] == '/') || inputs.len() > 1 {
                (None, Some(o))
            } else {
                (Some(o), None)
            }
        },
        None => (None, None),
    };
    let ghost of = match out_file {
        Some(f) => Some(f@),
        None => None::<Seq<char>>,
    };
    let ghost od = match out_dir {
        Some(d) => Some(d@),
        None => None::<Seq<char>>,
    };
    let mut jobs: Vec<(String, String)> = Vec::new();
    let mut i: usize = 0;
    while i < inputs.len()
        invariant
            i <= inputs.len(),
            of == match out_file {
                Some(f) => Some(f@),
                None => None::<Seq<char>>,
            },
            od == match out_dir {
                Some(d) => Some(d@),
                None => None::<Seq<char>>,
            },
            job_views(jobs@) == inputs@.take(i as int).map_values(
                |x: String| (x@, output_for(x@, of, od, suffix@)),
            ),
        decreases inputs.len() - i,
    {
        let input = &inputs[i];
        let out = match out_file {
            Some(f) => string_of(&chars_of(f)),
            None => {
                let stem = match file_name(input.as_str()) {
                    Some(n) => file_stem(string_of(&n).as_str()),
                    None => Vec::new(),
                };
                let mut name = stem;
                push_str(&mut name, "-");
                push_str(&mut name, suffix);
                push_str(&mut name, ".jpg");
                match out_dir {
                    Some(d) => join_path(d, string_of(&name).as_str()),
                    None => string_of(&name),
                }
            },
        };
        let ghost before = job_views(jobs@);
        jobs.push((string_of(&chars_of(input.as_str())), out));
        assert(job_views(jobs@) =~= before.push((input@, output_for(input@, of, od, suffix@))));
        assert(inputs@.take(i + 1) =~= inputs@.take(i as int).push(inputs@[i as int]));
        assert(inputs@.take(i + 1).map_values(|x: String| (x@, output_for(x@, of, od, suffix@)))
            =~= inputs@.take(i as int).map_values(|x: String| (x@, output_for(x@, of, od, suffix@))).push(
            (input@, output_for(input@, of, od, suffix@)),
        ));
        i += 1;
    }
    assert(inputs@.take(inputs@.len() as int) =~= inputs@);
    ConvertPlan {
        out_dir: match out_dir {
            Some(d) => Some(string_of(&chars_of(d))),
            None => None,
        },
        jobs,
    }
}

/// The jobs still to run: all of them with `force`, else those whose output
/// does not exist yet (`exists[k]` for job `k`).
pub open spec fn pending(jobs: Seq<JobModel>, exists: Seq<bool>, force: bool) -> Seq<JobModel>
    decreases jobs.len(),
{
    if jobs.len() == 0 {
        seq![]
    } else {
        let rest = pending(jobs.drop_last(), exists, force);
        let k = jobs.len() - 1;
        if force || !(k < exists.len() && exists[k]) {
            rest.push(jobs.last())
        } else {
            rest
        }
    }
}

/// Selects the jobs still to run.
pub fn pending_jobs(jobs: &[(String, String)], exists: &[bool], force: bool) -> (r: Vec<(String, String)>)
    ensures
        job_views(r@) == pending(job_views(jobs@), exists@, force),
{
    let ghost js = job_views(jobs@);
    let mut r: Vec<(String, String)> = Vec::new();
    let mut i: usize = 0;
    while i < jobs.len()
        invariant
            i <= jobs.len(),
            js == job_views(jobs@),
            job_views(r@) == pending(js.take(i as int), exists@, force),
        decreases jobs.len() - i,
    {
        assert(js.take(i + 1).drop_last() =~= js.take(i as int));
        assert(js.take(i + 1).last() == (jobs@[i as int].0@, jobs@[i as int].1@));
        if force || !(i < exists.len() && exists[i]) {
            let ghost before = job_views(r@);
            r.push((string_of(&chars_of(jobs[i].0.as_str())), string_of(&chars_of(jobs[i].1.as_str()))));
            assert(job_views(r@) =~= before.push((jobs@[i as int].0@, jobs@[i as int].1@)));
        }
        i += 1;
    }
    assert(js.take(jobs.len() as int) =~= js);
    r
}

// ---------------------------------------------------------------------------
// Project file template
// ---------------------------------------------------------------------------

/// The text of a new project file before its first output's recipe slug.
pub open spec fn template_head() -> Seq<char> {
    "# Fujifilm X100VI project config — use with: fjx project convert\n\n# Directory containing RAF files (default: ./_RAF)\nraw_dir = \"./_RAF\"\n\n# Recipe slug for each [[output]].recipe. Examples: reggies-portra, kodachrome-64-2. Run `fjx recipes` to list all.\n\n# Conversion outputs: each [[output]] gets its own directory.\n[[output]]\nrecipe = \""@
}

/// The text of a new project file after its first output's recipe slug.
pub open spec fn template_tail() -> Seq<char> {
    "\"\n# suffix = \"classic\"                 # output dir and filename suffix (default: recipe)\n# film_sim = \"provia\"                # override: provia, velvia, classic-chrome, etc.\n# grain = \"weak\"                     # weak | strong\n# grain_size = \"small\"               # small | large\n# exposure_comp = \"+0.3\"             # EV, e.g. +1, -0.7, +1/3\n# wb_mode = \"auto\"                   # override WB (default: recipe's white balance)\n# [[output.overrides]]               # per-RAF overrides within this output\n#   match = \"DSCF*.RAF\"             # filename or glob\n#   film_sim = \"classic-chrome\"\n#   grain = \"strong\"\n#   exposure_comp = \"-0.3\"\n\n# Add more [[output]] blocks for additional recipes.\n\n# Global overrides (key = filename or glob; apply to matching RAFs in all outputs):\n# [overrides]\n# \"DSCF0001.RAF\" = { film_sim = \"velvia\", exclude_outputs = [\"portra-400\"] }\n"@
}

/// The text of a new project file whose first output uses `recipe`.
pub fn project_template(recipe: &str) -> (r: String)
    ensures
        r@ == template_head() + recipe@ + template_tail(),
{
    let mut v = chars_of("# Fujifilm X100VI project config — use with: fjx project convert\n\n# Directory containing RAF files (default: ./_RAF)\nraw_dir = \"./_RAF\"\n\n# Recipe slug for each [[output]].recipe. Examples: reggies-portra, kodachrome-64-2. Run `fjx recipes` to list all.\n\n# Conversion outputs: each [[output]] gets its own directory.\n[[output]]\nrecipe = \"");
    push_str(&mut v, recipe);
    push_str(&mut v, "\"\n# suffix = \"classic\"                 # output dir and filename suffix (default: recipe)\n# film_sim = \"provia\"                # override: provia, velvia, classic-chrome, etc.\n# grain = \"weak\"                     # weak | strong\n# grain_size = \"small\"               # small | large\n# exposure_comp = \"+0.3\"             # EV, e.g. +1, -0.7, +1/3\n# wb_mode = \"auto\"                   # override WB (default: recipe's white balance)\n# [[output.overrides]]               # per-RAF overrides within this output\n#   match = \"DSCF*.RAF\"             # filename or glob\n#   film_sim = \"classic-chrome\"\n#   grain = \"strong\"\n#   exposure_comp = \"-0.3\"\n\n# Add more [[output]] blocks for additional recipes.\n\n# Global overrides (key = filename or glob; apply to matching RAFs in all outputs):\n# [overrides]\n# \"DSCF0001.RAF\" = { film_sim = \"velvia\", exclude_outputs = [\"portra-400\"] }\n");
    string_of(&v)
}

// ---------------------------------------------------------------------------
// Validation report
// ---------------------------------------------------------------------------

/// Number of jobs in a list of batches.
pub open spec fn jobs_total(bs: Seq<crate::config::BatchModel>) -> int
    decreases bs.len(),
{
    if bs.len() == 0 {
        0
    } else {
        jobs_total(bs.drop_last()) + bs.last().1.len()
    }
}

/// The line describing one output's conversions.
pub open spec fn output_line(ob: OutputBatchModel, recipe: Seq<char>, raw_dir: Seq<char>, root: Seq<char>) -> Seq<char> {
    "  output \""@ + relative_text(ob.0, root) + "\" (recipe "@ + recipe + "): "@ + raw_dir + " → "@
        + dec(jobs_total(ob.2) as nat) + " file(s)"@
}

/// The lines of one global override in the report.
pub open spec fn global_lines(key: Seq<char>, ov: crate::config::GlobalOverrideModel) -> Seq<Seq<char>> {
    let adj = overlay_parts(ov.overlay);
    (if adj.len() > 0 {
        seq!["  global \""@ + key + "\": "@ + join(adj, ", "@)]
    } else {
        seq![]
    }) + (if ov.exclude_outputs.len() > 0 {
        seq!["    exclude_outputs: ["@ + join(ov.exclude_outputs, ", "@) + "]"@]
    } else {
        seq![]
    })
}

/// Whether an output override sets anything.
pub open spec fn sets_something(o: crate::config::OutputOverrideModel) -> bool {
    overlay_parts(o.overlay).len() > 0
}

/// The report line of an output override.
pub open spec fn override_line(e: crate::config::OutputEntryModel, o: crate::config::OutputOverrideModel) -> Seq<char> {
    "  output \""@ + dir_name_of(e) + "\" match \""@ + o.match_pattern + "\": "@ + join(
        overlay_parts(o.overlay),
        ", "@,
    )
}

/// The lines of an output's overrides in the report: one for each override
/// that sets something.
pub open spec fn output_override_lines(e: crate::config::OutputEntryModel) -> Seq<Seq<char>> {
    e.overrides.filter(|o: crate::config::OutputOverrideModel| sets_something(o)).map_values(
        |o: crate::config::OutputOverrideModel| override_line(e, o),
    )
}

/// Concatenation of line groups.
pub open spec fn flat(groups: Seq<Seq<Seq<char>>>) -> Seq<Seq<char>>
    decreases groups.len(),
{
    if groups.len() == 0 {
        seq![]
    } else {
        flat(groups.drop_last()) + groups.last()
    }
}

/// The report `project validate` prints once the configuration is valid:
/// the operations (RAW directory, each output with its number of files) and,
/// when there are overrides, what they adjust.
pub open spec fn validate_report(c: ProjectConfigModel, raf_count: nat, obs: Seq<OutputBatchModel>, root: Seq<char>) -> Seq<Seq<char>> {
    let head = seq![
        "Config is valid.\n"@,
        "Operations:"@,
        "  raw_dir \""@ + c.raw_dir + "\": "@ + dec(raf_count) + " RAF(s)"@,
    ];
    let ops = Seq::new(
        obs.len(),
        |i: int| output_line(obs[i], c.outputs[i].recipe, c.raw_dir, root),
    );
    let any = c.overrides.len() > 0 || exists|i: int| 0 <= i < c.outputs.len() && #[trigger] c.outputs[i].overrides.len() > 0;
    let tail = if any {
        seq!["\nOverrides / adjustments:"@] + flat(
            c.overrides.map_values(|p: (Seq<char>, crate::config::GlobalOverrideModel)| global_lines(p.0, p.1)),
        ) + flat(c.outputs.map_values(|e: crate::config::OutputEntryModel| output_override_lines(e)))
    } else {
        seq![]
    };
    head + ops + tail
}

fn total_jobs(bs: &Vec<(crate::profile::RecipeSettings, Vec<(String, String)>)>) -> (r: usize)
    requires
        jobs_total(batch_views(bs@)) <= usize::MAX,
    ensures
        r == jobs_total(batch_views(bs@)),
{
    let ghost b = batch_views(bs@);
    let mut n: usize = 0;
    let mut i: usize = 0;
    while i < bs.len()
        invariant
            i <= bs.len(),
            b == batch_views(bs@),
            jobs_total(b) <= usize::MAX,
            n == jobs_total(b.take(i as int)),
        decreases bs.len() - i,
    {
        assert(b.take(i + 1).drop_last() =~= b.take(i as int));
        assert(b.take(i + 1).last().1.len() == bs@[i as int].1@.len());
        proof {
            lemma_jobs_total_prefix(b, i + 1);
        }
        n = n + bs[i].1.len();
        i += 1;
    }
    assert(b.take(bs.len() as int) =~= b);
    n
}

proof fn lemma_jobs_total_prefix(b: Seq<crate::config::BatchModel>, k: int)
    requires
        0 <= k <= b.len(),
    ensures
        jobs_total(b.take(k)) <= jobs_total(b),
    decreases b.len(),
{
    if k < b.len() {
        assert(b.drop_last().take(k) =~= b.take(k));
        lemma_jobs_total_prefix(b.drop_last(), k);
    } else {
        assert(b.take(k) =~= b);
    }
}

fn joined(parts: &Vec<String>, sep: &str) -> (r: Vec<char>)
    ensures
        r@ == join(string_views(parts@), sep@),
{
    let mut cs: Vec<Vec<char>> = Vec::new();
    let mut i: usize = 0;
    while i < parts.len()
        invariant
            i <= parts.len(),
            views(cs@) == string_views(parts@).take(i as int),
        decreases parts.len() - i,
    {
        let ghost before = cs@;
        cs.push(chars_of(parts[i].as_str()));
        assert(views(cs@) =~= views(before).push(parts@[i as int]@));
        assert(string_views(parts@).take(i + 1) =~= string_views(parts@).take(i as int).push(
            parts@[i as int]@,
        ));
        i += 1;
    }
    assert(string_views(parts@).take(parts.len() as int) =~= string_views(parts@));
    crate::profile::join_chars(&cs, sep)
}

fn push_line(lines: &mut Vec<String>, l: Vec<char>)
    ensures
        string_views(final(lines)@) == string_views(old(lines)@).push(l@),
{
    let ghost before = lines@;
    lines.push(string_of(&l));
    assert(string_views(lines@) =~= string_views(before).push(l@));
}

fn global_report(key: &String, ov: &crate::config::PerImageOverride) -> (r: Vec<String>)
    ensures
        string_views(r@) == global_lines(key@, ov@),
{
    let mut lines: Vec<String> = Vec::new();
    let (_, adj) = describe_global_override(key.as_str(), ov);
    if adj.len() > 0 {
        let mut l = chars_of("  global \"");
        push_str(&mut l, key.as_str());
        push_str(&mut l, "\": ");
        push_chars(&mut l, &joined(&adj, ", "));
        push_line(&mut lines, l);
    }
    if ov.exclude_outputs.len() > 0 {
        let mut l = chars_of("    exclude_outputs: [");
        push_chars(&mut l, &joined(&ov.exclude_outputs, ", "));
        push_str(&mut l, "]");
        push_line(&mut lines, l);
    }
    assert(string_views(lines@) =~= global_lines(key@, ov@));
    lines
}

fn output_override_report(e: &crate::config::OutputEntry) -> (r: Vec<String>)
    ensures
        string_views(r@) == output_override_lines(e@),
{
    let ghost ovs = e@.overrides;
    let out_name = output_dir_name(e);
    let mut lines: Vec<String> = Vec::new();
    let mut j: usize = 0;
    while j < e.overrides.len()
        invariant
            j <= e.overrides.len(),
            ovs == e@.overrides,
            ovs.len() == e.overrides@.len(),
            out_name@ == dir_name_of(e@),
            string_views(lines@) == ovs.take(j as int).filter(
                |o: crate::config::OutputOverrideModel| sets_something(o),
            ).map_values(|o: crate::config::OutputOverrideModel| override_line(e@, o)),
        decreases e.overrides.len() - j,
    {
        assert(ovs[j as int] == e.overrides@[j as int]@);
        reveal(Seq::filter);
        assert(ovs.take(j + 1).drop_last() =~= ovs.take(j as int));
        assert(ovs.take(j + 1).last() == ovs[j as int]);
        let (k, adj) = describe_output_override(&e.overrides[j]);
        if adj.len() > 0 {
            let mut l = chars_of("  output \"");
            push_str(&mut l, out_name);
            push_str(&mut l, "\" match \"");
            push_str(&mut l, k.as_str());
            push_str(&mut l, "\": ");
            push_chars(&mut l, &joined(&adj, ", "));
            let ghost before = string_views(lines@);
            push_line(&mut lines, l);
            assert(sets_something(ovs[j as int]));
            assert(ovs.take(j + 1).filter(|o: crate::config::OutputOverrideModel| sets_something(o))
                =~= ovs.take(j as int).filter(|o: crate::config::OutputOverrideModel| sets_something(o)).push(
                ovs[j as int],
            ));
        } else {
            assert(!sets_something(ovs[j as int]));
            assert(ovs.take(j + 1).filter(|o: crate::config::OutputOverrideModel| sets_something(o))
                =~= ovs.take(j as int).filter(|o: crate::config::OutputOverrideModel| sets_something(o)));
        }
        j += 1;
    }
    assert(ovs.take(e.overrides.len() as int) =~= ovs);
    lines
}

fn push_lines(lines: &mut Vec<String>, more: Vec<String>)
    ensures
        string_views(final(lines)@) == string_views(old(lines)@) + string_views(more@),
{
    let ghost before = string_views(lines@);
    let mut i: usize = 0;
    while i < more.len()
        invariant
            i <= more.len(),
            string_views(lines@) == before + string_views(more@).take(i as int),
        decreases more.len() - i,
    {
        push_line(lines, chars_of(more[i].as_str()));
        assert(string_views(more@).take(i + 1) =~= string_views(more@).take(i as int).push(
            more@[i as int]@,
        ));
        i += 1;
    }
    assert(string_views(more@).take(more.len() as int) =~= string_views(more@));
}

/// The report `project validate` prints (see `validate_report`).
pub fn validate_report_lines(
    config: &ProjectConfig,
    raf_count: usize,
    batches: &[OutputBatch],
    project_root: &str,
) -> (r: Vec<String>)
    requires
        batches@.len() <= config@.outputs.len(),
        forall|i: int| 0 <= i < batches@.len() ==> jobs_total(batch_views(#[trigger] batches@[i].batches@)) <= usize::MAX,
    ensures
        string_views(r@) == validate_report(
            config@,
            raf_count as nat,
            crate::config::output_batch_views(batches@),
            project_root@,
        ),
{
    let ghost c = config@;
    let ghost obs = crate::config::output_batch_views(batches@);
    let mut lines: Vec<String> = Vec::new();
    push_line(&mut lines, chars_of("Config is valid.\n"));
    push_line(&mut lines, chars_of("Operations:"));
    let mut l = chars_of("  raw_dir \"");
    push_str(&mut l, config.raw_dir.as_str());
    push_str(&mut l, "\": ");
    push_dec(&mut l, raf_count as u64);
    push_str(&mut l, " RAF(s)");
    push_line(&mut lines, l);
    let ghost head = string_views(lines@);
    let mut i: usize = 0;
    while i < batches.len()
        invariant
            i <= batches.len(),
            batches@.len() <= config@.outputs.len(),
            c == config@,
            obs == crate::config::output_batch_views(batches@),
            forall|q: int| 0 <= q < batches@.len() ==> jobs_total(batch_views(#[trigger] batches@[q].batches@)) <= usize::MAX,
            string_views(lines@) == head + Seq::new(
                i as nat,
                |k: int| output_line(obs[k], c.outputs[k].recipe, c.raw_dir, project_root@),
            ),
        decreases batches.len() - i,
    {
        let ob = &batches[i];
        assert(obs[i as int] == (ob.output_dir@, ob.suffix@, batch_views(ob.batches@)));
        assert(c.outputs[i as int] == config.outputs@[i as int]@);
        let total = total_jobs(&ob.batches);
        let mut l = chars_of("  output \"");
        let rel = path_display_relative_to(ob.output_dir.as_str(), project_root);
        push_str(&mut l, rel.as_str());
        push_str(&mut l, "\" (recipe ");
        push_str(&mut l, config.outputs[i].recipe.as_str());
        push_str(&mut l, "): ");
        push_str(&mut l, config.raw_dir.as_str());
        push_str(&mut l, " → ");
        push_dec(&mut l, total as u64);
        push_str(&mut l, " file(s)");
        let ghost before = string_views(lines@);
        push_line(&mut lines, l);
        i += 1;
        assert(string_views(lines@) =~= head + Seq::new(
            i as nat,
            |k: int| output_line(obs[k], c.outputs[k].recipe, c.raw_dir, project_root@),
        ));
    }
    let mut any = config.overrides.len() > 0;
    let mut j: usize = 0;
    while j < config.outputs.len()
        invariant
            j <= config.outputs.len(),
            c == config@,
            any == (c.overrides.len() > 0 || exists|q: int| 0 <= q < j && #[trigger] c.outputs[q].overrides.len() > 0),
        decreases config.outputs.len() - j,
    {
        assert(c.outputs[j as int].overrides.len() == config.outputs@[j as int].overrides@.len());
        if config.outputs[j].overrides.len() > 0 {
            any = true;
        }
        j += 1;
    }
    let ghost mid = string_views(lines@);
    if any {
        push_line(&mut lines, chars_of("\nOverrides / adjustments:"));
        let ghost g = c.overrides.map_values(
            |p: (Seq<char>, crate::config::GlobalOverrideModel)| global_lines(p.0, p.1),
        );
        let ghost start = string_views(lines@);
        let mut k: usize = 0;
        while k < config.overrides.len()
            invariant
                k <= config.overrides.len(),
                c == config@,
                g == c.overrides.map_values(
                    |p: (Seq<char>, crate::config::GlobalOverrideModel)| global_lines(p.0, p.1),
                ),
                string_views(lines@) == start + flat(g.take(k as int)),
            decreases config.overrides.len() - k,
        {
            assert(c.overrides[k as int] == (config.overrides@[k as int].0@, config.overrides@[k as int].1@));
            assert(g.take(k + 1).drop_last() =~= g.take(k as int));
            let more = global_report(&config.overrides[k].0, &config.overrides[k].1);
            push_lines(&mut lines, more);
            k += 1;
        }
        assert(g.take(config.overrides.len() as int) =~= g);
        let ghost h = c.outputs.map_values(|e: crate::config::OutputEntryModel| output_override_lines(e));
        let ghost start2 = string_views(lines@);
        let mut q: usize = 0;
        while q < config.outputs.len()
            invariant
                q <= config.outputs.len(),
                c == config@,
                h == c.outputs.map_values(|e: crate::config::OutputEntryModel| output_override_lines(e)),
                string_views(lines@) == start2 + flat(h.take(q as int)),
            decreases config.outputs.len() - q,
        {
            assert(c.outputs[q as int] == config.outputs@[q as int]@);
            assert(h.take(q + 1).drop_last() =~= h.take(q as int));
            let more = output_override_report(&config.outputs[q]);
            push_lines(&mut lines, more);
            q += 1;
        }
        assert(h.take(config.outputs.len() as int) =~= h);
    }
    assert(string_views(lines@) =~= validate_report(c, raf_count as nat, obs, project_root@));
    lines
}

// ---------------------------------------------------------------------------
// Probe report
// ---------------------------------------------------------------------------

/// The vendor properties among the supported ones (codes from 0xD000), in order.
pub open spec fn vendor_props_of(props: Seq<u16>) -> Seq<u16> {
    props.filter(|c: u16| c >= 0xD000)
}

/// The vendor properties among the supported ones.
pub fn vendor_props(props: &Vec<u16>) -> (r: Vec<u16>)
    ensures
        r@ == vendor_props_of(props@),
{
    let mut r: Vec<u16> = Vec::new();
    let mut i: usize = 0;
    while i < props.len()
        invariant
            i <= props.len(),
            r@ == props@.take(i as int).filter(|c: u16| c >= 0xD000),
        decreases props.len() - i,
    {
        reveal(Seq::filter);
        assert(props@.take(i + 1).drop_last() =~= props@.take(i as int));
        assert(props@.take(i + 1).last() == props@[i as int]);
        if props[i] >= 0xD000 {
            r.push(props[i]);
        }
        i += 1;
    }
    assert(props@.take(props.len() as int) =~= props@);
    r
}

/// Start of a property line: `  0x{prop:04X} {name:<30} `.
pub open spec fn prop_head(prop: u16) -> Seq<char> {
    "  0x"@ + pad_zero(hex(prop as nat), 4) + " "@ + pad_right(property_text(prop), 30) + " "@
}

/// Two hex digits and a space for each byte.
pub open spec fn hex_bytes(d: Seq<u8>) -> Seq<char>
    decreases d.len(),
{
    if d.len() == 0 {
        seq![]
    } else {
        hex_bytes(d.drop_last()) + pad_zero(hex(d.last() as nat), 2) + " "@
    }
}

/// A property value as the probe shows it: a u16 (signed when negative as
/// an `i16`) or a u32 with their hex patterns, the bytes of other values up
/// to 8 bytes, else the size.
pub open spec fn prop_value_text(d: Seq<u8>) -> Seq<char> {
    if d.len() == 2 {
        let v = d[0] + 0x100 * d[1];
        if v >= 0x8000 {
            dec_int(v - 0x1_0000) + " (0x"@ + pad_zero(hex(v as nat), 4) + ")"@
        } else {
            dec(v as nat) + " (0x"@ + pad_zero(hex(v as nat), 4) + ")"@
        }
    } else if d.len() == 4 {
        let v = d[0] + 0x100 * d[1] + 0x1_0000 * d[2] + 0x100_0000 * d[3];
        dec(v as nat) + " (0x"@ + pad_zero(hex(v as nat), 8) + ")"@
    } else if d.len() <= 8 {
        hex_bytes(d)
    } else {
        dec(d.len()) + " bytes"@
    }
}

/// The probe line of a property: its value, or `(read error)`.
pub open spec fn prop_line_text(prop: u16, value: Option<Seq<u8>>) -> Seq<char> {
    match value {
        Some(d) => prop_head(prop) + prop_value_text(d),
        None => "  0x"@ + pad_zero(hex(prop as nat), 4) + " "@ + pad_right(property_text(prop), 30)
            + " (read error)"@,
    }
}

fn push_hex2(v: &mut Vec<char>, b: u8)
    ensures
        final(v)@ == old(v)@ + pad_zero(hex(b as nat), 2),
{
    let h = hex_chars(b as u64);
    push_pad_zero(v, &h, 2);
}

/// The probe line of a property (see `prop_line_text`); `None` is a read error.
pub fn prop_line(prop: u16, value: Option<&[u8]>) -> (r: String)
    ensures
        r@ == prop_line_text(
            prop,
            match value {
                Some(d) => Some(d@),
                None => None,
            },
        ),
{
    let mut l = chars_of("  0x");
    let h = hex_chars(prop as u64);
    push_pad_zero(&mut l, &h, 4);
    push_str(&mut l, " ");
    push_pad_right(&mut l, &chars_of(property_name(prop)), 30);
    match value {
        None => {
            push_str(&mut l, " (read error)");
        },
        Some(d) => {
            push_str(&mut l, " ");
            if d.len() == 2 {
                let v = d[0] as u32 + d[1] as u32 * 0x100;
                if v >= 0x8000 {
                    push_dec_i64(&mut l, v as i64 - 0x1_0000);
                } else {
                    push_dec(&mut l, v as u64);
                }
                push_str(&mut l, " (0x");
                let hv = hex_chars(v as u64);
                push_pad_zero(&mut l, &hv, 4);
                push_str(&mut l, ")");
            } else if d.len() == 4 {
                let v = d[0] as u64 + d[1] as u64 * 0x100 + d[2] as u64 * 0x1_0000 + d[3] as u64
                    * 0x100_0000;
                push_dec(&mut l, v);
                push_str(&mut l, " (0x");
                let hv = hex_chars(v);
                push_pad_zero(&mut l, &hv, 8);
                push_str(&mut l, ")");
            } else if d.len() <= 8 {
                let ghost before = l@;
                let mut i: usize = 0;
                while i < d.len()
                    invariant
                        i <= d.len(),
                        l@ == before + hex_bytes(d@.take(i as int)),
                    decreases d.len() - i,
                {
                    assert(d@.take(i + 1).drop_last() =~= d@.take(i as int));
                    push_hex2(&mut l, d[i]);
                    push_str(&mut l, " ");
                    i += 1;
                }
                assert(d@.take(d.len() as int) =~= d@);
            } else {
                push_dec(&mut l, d.len() as u64);
                push_str(&mut l, " bytes");
            }
        },
    }
    string_of(&l)
}

/// One line per code: `  0x{code:04X}`, followed by two spaces and its name
/// when a naming is given.
pub open spec fn code_lines(codes: Seq<u16>, kind: int) -> Seq<Seq<char>> {
    codes.map_values(
        |c: u16|
            "  0x"@ + pad_zero(hex(c as nat), 4) + if kind == 1 {
                "  "@ + operation_text(c)
            } else if kind == 2 {
                "  "@ + property_text(c)
            } else if kind == 3 {
                "  "@ + format_text(c)
            } else {
                ""@
            },
    )
}

/// The probe's report of a DeviceInfo dataset.
pub open spec fn device_info_report(i: DeviceInfoModel) -> Seq<Seq<char>> {
    seq![
        "=== Device Info ==="@,
        "Manufacturer:       "@ + i.manufacturer,
        "Model:              "@ + i.model,
        "Device Version:     "@ + i.device_version,
        "Serial Number:      "@ + i.serial_number,
        "PTP Version:        "@ + dec((i.standard_version / 100) as nat) + "."@ + dec(
            (i.standard_version % 100) as nat,
        ),
        "Vendor Ext ID:      0x"@ + pad_zero(hex(i.vendor_extension_id as nat), 8),
        "Vendor Ext Version: "@ + dec(i.vendor_extension_version as nat),
    ] + (if i.vendor_extension_desc.len() > 0 {
        seq!["Vendor Ext Desc:    "@ + i.vendor_extension_desc]
    } else {
        seq![]
    }) + seq!["Functional Mode:    "@ + dec(i.functional_mode as nat)] + seq![
        "\n--- Operations Supported ("@ + dec(i.operations_supported.len()) + ") ---"@,
    ] + code_lines(i.operations_supported, 1) + seq![
        "\n--- Events Supported ("@ + dec(i.events_supported.len()) + ") ---"@,
    ] + code_lines(i.events_supported, 0) + seq![
        "\n--- Device Properties ("@ + dec(i.device_properties_supported.len()) + ") ---"@,
    ] + code_lines(i.device_properties_supported, 2) + seq![
        "\n--- Capture Formats ("@ + dec(i.capture_formats.len()) + ") ---"@,
    ] + code_lines(i.capture_formats, 3) + seq![
        "\n--- Image Formats ("@ + dec(i.image_formats.len()) + ") ---"@,
    ] + code_lines(i.image_formats, 3)
}

fn push_code_lines(lines: &mut Vec<String>, codes: &Vec<u16>, kind: u8)
    requires
        kind <= 3,
    ensures
        string_views(final(lines)@) == string_views(old(lines)@) + code_lines(codes@, kind as int),
{
    let ghost before = string_views(lines@);
    let mut i: usize = 0;
    while i < codes.len()
        invariant
            i <= codes.len(),
            kind <= 3,
            string_views(lines@) == before + code_lines(codes@.take(i as int), kind as int),
        decreases codes.len() - i,
    {
        let c = codes[i];
        let mut l = chars_of("  0x");
        let h = hex_chars(c as u64);
        push_pad_zero(&mut l, &h, 4);
        if kind == 1 {
            push_str(&mut l, "  ");
            push_str(&mut l, operation_name(c));
        } else if kind == 2 {
            push_str(&mut l, "  ");
            push_str(&mut l, property_name(c));
        } else if kind == 3 {
            push_str(&mut l, "  ");
            push_str(&mut l, format_name(c));
        } else {
            push_str(&mut l, "");
        }
        assert(l@ == code_lines(codes@, kind as int)[i as int]);
        push_line(lines, l);
        assert(code_lines(codes@.take(i + 1), kind as int) =~= code_lines(codes@.take(i as int), kind as int).push(
            code_lines(codes@, kind as int)[i as int],
        ));
        i += 1;
    }
    assert(codes@.take(codes.len() as int) =~= codes@);
}

fn section_line(lines: &mut Vec<String>, head: &str, n: usize)
    ensures
        string_views(final(lines)@) == string_views(old(lines)@).push(
            head@ + dec(n as nat) + ") ---"@,
        ),
{
    let mut l = chars_of(head);
    push_dec(&mut l, n as u64);
    push_str(&mut l, ") ---");
    push_line(lines, l);
}

fn labelled_line(lines: &mut Vec<String>, label: &str, value: &str)
    ensures
        string_views(final(lines)@) == string_views(old(lines)@).push(label@ + value@),
{
    let mut l = chars_of(label);
    push_str(&mut l, value);
    push_line(lines, l);
}

/// The probe's report of a DeviceInfo dataset (see `device_info_report`).
pub fn device_info_lines(info: &DeviceInfo) -> (r: Vec<String>)
    ensures
        string_views(r@) == device_info_report(info@),
{
    let mut lines: Vec<String> = Vec::new();
    push_line(&mut lines, chars_of("=== Device Info ==="));
    labelled_line(&mut lines, "Manufacturer:       ", info.manufacturer.as_str());
    labelled_line(&mut lines, "Model:              ", info.model.as_str());
    labelled_line(&mut lines, "Device Version:     ", info.device_version.as_str());
    labelled_line(&mut lines, "Serial Number:      ", info.serial_number.as_str());
    let mut v = chars_of("PTP Version:        ");
    push_dec(&mut v, (info.standard_version / 100) as u64);
    push_str(&mut v, ".");
    push_dec(&mut v, (info.standard_version % 100) as u64);
    push_line(&mut lines, v);
    let mut id = chars_of("Vendor Ext ID:      0x");
    let h = hex_chars(info.vendor_extension_id as u64);
    push_pad_zero(&mut id, &h, 8);
    push_line(&mut lines, id);
    let mut ver = chars_of("Vendor Ext Version: ");
    push_dec(&mut ver, info.vendor_extension_version as u64);
    push_line(&mut lines, ver);
    let ghost a = string_views(lines@);
    if chars_of(info.vendor_extension_desc.as_str()).len() > 0 {
        labelled_line(&mut lines, "Vendor Ext Desc:    ", info.vendor_extension_desc.as_str());
    }
    let mut fm = chars_of("Functional Mode:    ");
    push_dec(&mut fm, info.functional_mode as u64);
    push_line(&mut lines, fm);
    section_line(&mut lines, "\n--- Operations Supported (", info.operations_supported.len());
    push_code_lines(&mut lines, &info.operations_supported, 1);
    section_line(&mut lines, "\n--- Events Supported (", info.events_supported.len());
    push_code_lines(&mut lines, &info.events_supported, 0);
    section_line(&mut lines, "\n--- Device Properties (", info.device_properties_supported.len());
    push_code_lines(&mut lines, &info.device_properties_supported, 2);
    section_line(&mut lines, "\n--- Capture Formats (", info.capture_formats.len());
    push_code_lines(&mut lines, &info.capture_formats, 3);
    section_line(&mut lines, "\n--- Image Formats (", info.image_formats.len());
    push_code_lines(&mut lines, &info.image_formats, 3);
    assert(string_views(lines@) =~= device_info_report(info@));
    lines
}

/// A byte as the dump shows it: itself when printable ASCII or a space, `.`
/// otherwise.
pub open spec fn shown_byte(b: u8) -> char {
    if 0x20 <= b <= 0x7E {
        b as char
    } else {
        '.'
    }
}

/// One line of the hex dump: offset, 16 hex bytes (padded), and the bytes as text.
pub open spec fn dump_row(offset: int, chunk: Seq<u8>) -> Seq<char> {
    "  "@ + pad_zero(hex(offset as nat), 4) + "  "@ + hex_bytes(chunk) + crate::text::repeat(
        ' ',
        (3 * (16 - chunk.len())) as nat,
    ) + " "@ + chunk.map_values(|b: u8| shown_byte(b))
}

/// The hex dump of at most `max` bytes of `data`, 16 per line, and how many
/// more there are.
pub open spec fn hex_dump_lines(data: Seq<u8>, max: nat) -> Seq<Seq<char>> {
    let len = if data.len() < max {
        data.len()
    } else {
        max
    };
    let rows = ((len + 15) / 16) as nat;
    Seq::new(
        rows,
        |i: int|
            dump_row(
                16 * i,
                data.subrange(
                    16 * i,
                    if 16 * i + 16 < len {
                        16 * i + 16
                    } else {
                        len as int
                    },
                ),
            ),
    ) + if data.len() > max {
        seq!["  ... ("@ + dec((data.len() - max) as nat) + " more bytes)"@]
    } else {
        seq![]
    }
}

fn dump_row_chars(offset: usize, chunk: &[u8]) -> (r: Vec<char>)
    requires
        chunk@.len() <= 16,
    ensures
        r@ == dump_row(offset as int, chunk@),
{
    let mut l = chars_of("  ");
    let h = hex_chars(offset as u64);
    push_pad_zero(&mut l, &h, 4);
    push_str(&mut l, "  ");
    let ghost b0 = l@;
    let mut i: usize = 0;
    while i < chunk.len()
        invariant
            i <= chunk.len(),
            l@ == b0 + hex_bytes(chunk@.take(i as int)),
        decreases chunk.len() - i,
    {
        assert(chunk@.take(i + 1).drop_last() =~= chunk@.take(i as int));
        push_hex2(&mut l, chunk[i]);
        push_str(&mut l, " ");
        i += 1;
    }
    assert(chunk@.take(chunk.len() as int) =~= chunk@);
    crate::text::push_repeat(&mut l, ' ', 3 * (16 - chunk.len()));
    push_str(&mut l, " ");
    let ghost b1 = l@;
    let mut k: usize = 0;
    while k < chunk.len()
        invariant
            k <= chunk.len(),
            l@ == b1 + chunk@.take(k as int).map_values(|b: u8| shown_byte(b)),
        decreases chunk.len() - k,
    {
        let b = chunk[k];
        let c: char = if 0x20 <= b && b <= 0x7E {
            b as char
        } else {
            '.'
        };
        l.push(c);
        assert(chunk@.take(k + 1).map_values(|b: u8| shown_byte(b)) =~= chunk@.take(k as int).map_values(
            |b: u8| shown_byte(b),
        ).push(shown_byte(chunk@[k as int])));
        k += 1;
    }
    assert(chunk@.take(chunk.len() as int) =~= chunk@);
    l
}

/// The hex dump of at most `max_bytes` bytes of `data` (see `hex_dump_lines`).
pub fn hex_dump(data: &[u8], max_bytes: usize) -> (r: Vec<String>)
    ensures
        string_views(r@) == hex_dump_lines(data@, max_bytes as nat),
{
    let len = if data.len() < max_bytes {
        data.len()
    } else {
        max_bytes
    };
    let rows = len / 16 + if len % 16 == 0 {
        0
    } else {
        1
    };
    assert(rows == (len + 15) / 16);
    let mut lines: Vec<String> = Vec::new();
    let mut i: usize = 0;
    while i < rows
        invariant
            i <= rows,
            rows == (len + 15) / 16,
            len <= data@.len(),
            len == if data@.len() < max_bytes {
                data@.len()
            } else {
                max_bytes as nat
            },
            string_views(lines@) == Seq::new(
                i as nat,
                |q: int|
                    dump_row(
                        16 * q,
                        data@.subrange(
                            16 * q,
                            if 16 * q + 16 < len {
                                16 * q + 16
                            } else {
                                len as int
                            },
                        ),
                    ),
            ),
        decreases rows - i,
    {
        assert(16 * i < len);
        let start = 16 * i;
        let end = if len - start > 16 {
            start + 16
        } else {
            len
        };
        let mut chunk: Vec<u8> = Vec::new();
        let mut k = start;
        while k < end
            invariant
                start <= k <= end <= data@.len(),
                chunk@ == data@.subrange(start as int, k as int),
            decreases end - k,
        {
            chunk.push(data[k]);
            assert(data@.subrange(start as int, k + 1) =~= data@.subrange(start as int, k as int).push(
                data@[k as int],
            ));
            k += 1;
        }
        let row = dump_row_chars(start, chunk.as_slice());
        push_line(&mut lines, row);
        i += 1;
        assert(string_views(lines@) =~= Seq::new(
            i as nat,
            |q: int|
                dump_row(
                    16 * q,
                    data@.subrange(
                        16 * q,
                        if 16 * q + 16 < len {
                            16 * q + 16
                        } else {
                            len as int
                        },
                    ),
                ),
        ));
    }
    if data.len() > max_bytes {
        let mut l = chars_of("  ... (");
        push_dec(&mut l, (data.len() - max_bytes) as u64);
        push_str(&mut l, " more bytes)");
        push_line(&mut lines, l);
    }
    assert(string_views(lines@) =~= hex_dump_lines(data@, max_bytes as nat));
    lines
}

} // verus!
