//! Launch options, screenshot and Blender export file names, and the frame at which
//! an automated capture or export fires.
use vstd::prelude::*;
use crate::text::{
    decimal, digits_value, is_listed, lemma_taken_names_bound, path_listed, push_char, push_decimal, push_str,
    push_zero_padded, str_equal, zero_padded,
};

verus! {

/// Whether `c` is an ASCII decimal digit.
pub open spec fn is_decimal_digit(c: char) -> bool {
    '0' <= c <= '9'
}

/// `text` without a leading `+`.
pub open spec fn without_plus(text: Seq<char>) -> Seq<char> {
    if text.len() > 0 && text[0] == '+' { text.drop_first() } else { text }
}

/// Whether every character of `text` is a decimal digit.
pub open spec fn all_decimal_digits(text: Seq<char>) -> bool {
    forall|i: int| 0 <= i < text.len() ==> is_decimal_digit(#[trigger] text[i])
}

/// The number `text` spells as a frame count: optional `+`, then one or more decimal
/// digits, at most `u32::MAX`.
pub open spec fn parsed_u32(text: Seq<char>) -> Option<u32> {
    let digits = without_plus(text);
    if digits.len() > 0 && all_decimal_digits(digits) && digits_value(digits) <= u32::MAX {
        Some(digits_value(digits) as u32)
    } else {
        None
    }
}

/// Reads a frame count: optional `+`, then decimal digits, at most `u32::MAX`.
pub fn parse_u32(text: &str) -> (value: Option<u32>)
    ensures
        value == parsed_u32(text@),
{
    let len = text.unicode_len();
    let mut start: usize = 0;
    if len > 0 && text.get_char(0) == '+' {
        start = 1;
    }
    let ghost digits = without_plus(text@);
    assert(digits =~= text@.subrange(start as int, len as int));
    if start == len {
        return None;
    }
    let mut value: u64 = 0;
    let mut i: usize = start;
    while i < len
        invariant
            start <= i <= len,
            len == text@.len(),
            digits == text@.subrange(start as int, len as int),
            digits == without_plus(text@),
            digits.len() > 0,
            forall|j: int| start <= j < i ==> is_decimal_digit(#[trigger] text@[j]),
            value == digits_value(text@.subrange(start as int, i as int)),
            value <= u32::MAX,
        decreases len - i,
    {
        let c = text.get_char(i);
        if !('0' <= c && c <= '9') {
            proof {
                assert(digits[i - start] == c);
                assert(!is_decimal_digit(digits[i - start]));
            }
            return None;
        }
        let digit: u64 = (c as u32 - 48) as u64;
        assert(text@.subrange(start as int, i + 1).drop_last() == text@.subrange(start as int, i as int));
        assert(text@.subrange(start as int, i + 1).last() == c);
        let next: u64 = value * 10 + digit;
        if next > 4294967295 {
            proof {
                assert(digits_value(text@.subrange(start as int, i + 1)) > u32::MAX);
                if all_decimal_digits(digits) {
                    lemma_digits_value_grows(digits, i + 1 - start);
                    assert(digits.subrange(0, i + 1 - start) == text@.subrange(start as int, i + 1));
                }
            }
            return None;
        }
        value = next;
        i += 1;
    }
    assert(digits == text@.subrange(start as int, i as int));
    Some(value as u32)
}

/// A longer digit string spells a number at least as large as its prefix.
proof fn lemma_digits_value_grows(digits: Seq<char>, count: int)
    requires
        0 <= count <= digits.len(),
        forall|i: int| 0 <= i < digits.len() ==> is_decimal_digit(#[trigger] digits[i]),
    ensures
        digits_value(digits.subrange(0, count)) <= digits_value(digits),
    decreases digits.len() - count,
{
    if count < digits.len() {
        lemma_digits_value_grows(digits, count + 1);
        assert(digits.subrange(0, count + 1).drop_last() == digits.subrange(0, count));
        assert(digits.subrange(0, count + 1).last() == digits[count]);
        assert(is_decimal_digit(digits[count]));
    } else {
        assert(digits.subrange(0, count) == digits);
    }
}

/// Options given on the command line.
#[derive(Debug)]
pub struct LaunchConfig {
    pub capture_path: Option<String>,
    pub capture_delay_frames: u32,
    pub blend_export_path: Option<String>,
    pub blend_export_delay_frames: u32,
}

/// The launch options as text and numbers.
pub struct LaunchSettings {
    pub capture_path: Option<Seq<char>>,
    pub capture_delay_frames: u32,
    pub blend_export_path: Option<Seq<char>>,
    pub blend_export_delay_frames: u32,
}

/// The view of an optional string.
pub open spec fn optional_text(text: Option<String>) -> Option<Seq<char>> {
    match text {
        Some(t) => Some(t@),
        None => None,
    }
}

/// The launch options of `config` as text and numbers.
pub open spec fn launch_settings(config: LaunchConfig) -> LaunchSettings {
    LaunchSettings {
        capture_path: optional_text(config.capture_path),
        capture_delay_frames: config.capture_delay_frames,
        blend_export_path: optional_text(config.blend_export_path),
        blend_export_delay_frames: config.blend_export_delay_frames,
    }
}

/// The usage text, reported for `--help` and `-h`.
pub open spec fn usage_text() -> Seq<char> {
    "Usage: cargo run -- [--capture <output.png>] [--capture-delay-frames <n>] [--export-blend <output.blend>] [--export-blend-delay-frames <n>]\nF12 saves a screenshot during normal interactive runs. F4 exports a Blender .blend during normal interactive runs."@
}

/// The options after reading `args` on top of `settings`, or the error reported for
/// the first argument that cannot be read.
pub open spec fn parse_args(args: Seq<Seq<char>>, settings: LaunchSettings) -> Result<LaunchSettings, Seq<char>>
    decreases args.len(),
{
    if args.len() == 0 {
        Ok(settings)
    } else {
        let arg = args[0];
        let rest = args.drop_first();
        if arg == "--capture"@ {
            if rest.len() == 0 {
                Err("Missing path after --capture"@)
            } else {
                parse_args(rest.drop_first(), LaunchSettings { capture_path: Some(rest[0]), ..settings })
            }
        } else if arg == "--capture-delay-frames"@ {
            if rest.len() == 0 {
                Err("Missing frame count after --capture-delay-frames"@)
            } else {
                match parsed_u32(rest[0]) {
                    Some(frames) => parse_args(rest.drop_first(), LaunchSettings { capture_delay_frames: frames, ..settings }),
                    None => Err("Invalid frame count for --capture-delay-frames: "@ + rest[0]),
                }
            }
        } else if arg == "--export-blend"@ {
            if rest.len() == 0 {
                Err("Missing path after --export-blend"@)
            } else {
                parse_args(rest.drop_first(), LaunchSettings { blend_export_path: Some(rest[0]), ..settings })
            }
        } else if arg == "--export-blend-delay-frames"@ {
            if rest.len() == 0 {
                Err("Missing frame count after --export-blend-delay-frames"@)
            } else {
                match parsed_u32(rest[0]) {
                    Some(frames) => parse_args(rest.drop_first(), LaunchSettings { blend_export_delay_frames: frames, ..settings }),
                    None => Err("Invalid frame count for --export-blend-delay-frames: "@ + rest[0]),
                }
            }
        } else if arg == "--help"@ || arg == "-h"@ {
            Err(usage_text())
        } else {
            Err("Unknown argument: "@ + arg)
        }
    }
}

/// Each option changes only its own setting: a setting whose option does not occur
/// among `args` keeps the value it had before the arguments were read.
pub proof fn options_change_only_their_own_setting(args: Seq<Seq<char>>, settings: LaunchSettings)
    ensures
        parse_args(args, settings) matches Ok(result) ==> {
            &&& !args.contains("--capture"@) ==> result.capture_path == settings.capture_path
            &&& !args.contains("--capture-delay-frames"@) ==> result.capture_delay_frames == settings.capture_delay_frames
            &&& !args.contains("--export-blend"@) ==> result.blend_export_path == settings.blend_export_path
            &&& !args.contains("--export-blend-delay-frames"@) ==> result.blend_export_delay_frames == settings.blend_export_delay_frames
        },
    decreases args.len(),
{
    if args.len() > 0 {
        let arg = args[0];
        let rest = args.drop_first();
        if rest.len() > 0 {
            let tail = rest.drop_first();
            assert forall|x: Seq<char>| tail.contains(x) implies args.contains(x) by {
                let i = choose|i: int| 0 <= i < tail.len() && tail[i] == x;
                assert(args[i + 2] == x);
            }
            assert(args[0] == arg);
            assert(args[1] == rest[0]);
            if arg == "--capture"@ {
                options_change_only_their_own_setting(tail, LaunchSettings { capture_path: Some(rest[0]), ..settings });
            } else if arg == "--capture-delay-frames"@ {
                if let Some(frames) = parsed_u32(rest[0]) {
                    options_change_only_their_own_setting(tail, LaunchSettings { capture_delay_frames: frames, ..settings });
                }
            } else if arg == "--export-blend"@ {
                options_change_only_their_own_setting(tail, LaunchSettings { blend_export_path: Some(rest[0]), ..settings });
            } else if arg == "--export-blend-delay-frames"@ {
                if let Some(frames) = parsed_u32(rest[0]) {
                    options_change_only_their_own_setting(tail, LaunchSettings { blend_export_delay_frames: frames, ..settings });
                }
            }
        }
    }
}

/// Read from the defaults, a setting whose option is absent keeps its default: no
/// path, and both delays at the default delay.
pub proof fn absent_options_keep_their_defaults(args: Seq<Seq<char>>, default_capture_delay_frames: u32)
    ensures
        parse_args(args, default_settings(default_capture_delay_frames)) matches Ok(result) ==> {
            &&& !args.contains("--capture"@) ==> result.capture_path is None
            &&& !args.contains("--capture-delay-frames"@) ==> result.capture_delay_frames == default_capture_delay_frames
            &&& !args.contains("--export-blend"@) ==> result.blend_export_path is None
            &&& !args.contains("--export-blend-delay-frames"@) ==> result.blend_export_delay_frames == default_capture_delay_frames
        },
{
    options_change_only_their_own_setting(args, default_settings(default_capture_delay_frames));
}

/// The text of each argument.
pub open spec fn argument_texts(args: Seq<String>) -> Seq<Seq<char>> {
    args.map_values(|arg: String| arg@)
}

/// The options before any argument is read.
pub open spec fn default_settings(default_capture_delay_frames: u32) -> LaunchSettings {
    LaunchSettings {
        capture_path: None,
        capture_delay_frames: default_capture_delay_frames,
        blend_export_path: None,
        blend_export_delay_frames: default_capture_delay_frames,
    }
}

/// A copy of `text`.
fn copy_text(text: &str) -> (copy: String)
    ensures
        copy@ == text@,
{
    let mut copy = String::new();
    push_str(&mut copy, text);
    copy
}

/// An error message: `prefix` followed by `argument`.
fn message_with(prefix: &str, argument: &str) -> (message: String)
    ensures
        message@ == prefix@ + argument@,
{
    let mut message = String::new();
    push_str(&mut message, prefix);
    push_str(&mut message, argument);
    message
}

/// Reads the command-line arguments (without the program name). Unknown arguments,
/// missing values and invalid frame counts are reported as errors, and so is a
/// request for the usage text.
pub fn parse_launch_config(args: &Vec<String>, default_capture_delay_frames: u32) -> (config: Result<LaunchConfig, String>)
    ensures
        match config {
            Ok(c) => parse_args(argument_texts(args@), default_settings(default_capture_delay_frames)) == Ok::<LaunchSettings, Seq<char>>(launch_settings(c)),
            Err(e) => parse_args(argument_texts(args@), default_settings(default_capture_delay_frames)) == Err::<LaunchSettings, Seq<char>>(e@),
        },
{
    let ghost texts = argument_texts(args@);
    let mut capture_path: Option<String> = None;
    let mut capture_delay_frames = default_capture_delay_frames;
    let mut blend_export_path: Option<String> = None;
    let mut blend_export_delay_frames = default_capture_delay_frames;
    let mut i: usize = 0;
    assert(texts.subrange(0, texts.len() as int) == texts);
    while i < args.len()
        invariant
            i <= args@.len(),
            texts == argument_texts(args@),
            parse_args(texts, default_settings(default_capture_delay_frames)) == parse_args(
                texts.subrange(i as int, texts.len() as int),
                LaunchSettings {
                    capture_path: optional_text(capture_path),
                    capture_delay_frames,
                    blend_export_path: optional_text(blend_export_path),
                    blend_export_delay_frames,
                },
            ),
        decreases args@.len() - i,
    {
        let ghost rest = texts.subrange(i as int, texts.len() as int);
        assert(rest[0] == args@[i as int]@);
        assert(rest.drop_first() =~= texts.subrange(i + 1, texts.len() as int));
        let arg = args[i].as_str();
        let has_value = i + 1 < args.len();
        proof {
            if has_value {
                assert(rest.drop_first()[0] == args@[i + 1]@);
                assert(rest.drop_first().drop_first() =~= texts.subrange(i + 2, texts.len() as int));
            }
        }
        if str_equal(arg, "--capture") {
            if !has_value {
                return Err(copy_text("Missing path after --capture"));
            }
            capture_path = Some(copy_text(args[i + 1].as_str()));
            i += 2;
        } else if str_equal(arg, "--capture-delay-frames") {
            if !has_value {
                return Err(copy_text("Missing frame count after --capture-delay-frames"));
            }
            match parse_u32(args[i + 1].as_str()) {
                Some(frames) => capture_delay_frames = frames,
                None => return Err(message_with("Invalid frame count for --capture-delay-frames: ", args[i + 1].as_str())),
            }
            i += 2;
        } else if str_equal(arg, "--export-blend") {
            if !has_value {
                return Err(copy_text("Missing path after --export-blend"));
            }
            blend_export_path = Some(copy_text(args[i + 1].as_str()));
            i += 2;
        } else if str_equal(arg, "--export-blend-delay-frames") {
            if !has_value {
                return Err(copy_text("Missing frame count after --export-blend-delay-frames"));
            }
            match parse_u32(args[i + 1].as_str()) {
                Some(frames) => blend_export_delay_frames = frames,
                None => return Err(message_with("Invalid frame count for --export-blend-delay-frames: ", args[i + 1].as_str())),
            }
            i += 2;
        } else if str_equal(arg, "--help") || str_equal(arg, "-h") {
            return Err(copy_text("Usage: cargo run -- [--capture <output.png>] [--capture-delay-frames <n>] [--export-blend <output.blend>] [--export-blend-delay-frames <n>]\nF12 saves a screenshot during normal interactive runs. F4 exports a Blender .blend during normal interactive runs."));
        } else {
            return Err(message_with("Unknown argument: ", arg));
        }
    }
    assert(texts.subrange(i as int, texts.len() as int) =~= Seq::<Seq<char>>::empty());
    Ok(LaunchConfig { capture_path, capture_delay_frames, blend_export_path, blend_export_delay_frames })
}

/// The name of a screenshot taken with F12: seconds since the epoch, milliseconds
/// and the screenshot's number in this run.
pub open spec fn screenshot_file_name(unix_seconds: u64, millis: u32, sequence: u32) -> Seq<char> {
    "intergen-"@ + decimal(unix_seconds as nat) + seq!['-'] + zero_padded(millis as nat, 3) + seq!['-']
        + zero_padded(sequence as nat, 4) + ".png"@
}

/// The name of a screenshot taken with F12.
pub fn manual_screenshot_filename(unix_seconds: u64, subsec_millis: u32, sequence: u32) -> (name: String)
    ensures
        name@ == screenshot_file_name(unix_seconds, subsec_millis, sequence),
{
    let mut name = String::new();
    push_str(&mut name, "intergen-");
    push_decimal(&mut name, unix_seconds);
    push_char(&mut name, '-');
    push_zero_padded(&mut name, subsec_millis as u64, 3);
    push_char(&mut name, '-');
    push_zero_padded(&mut name, sequence as u64, 4);
    push_str(&mut name, ".png");
    assert(name@ =~= screenshot_file_name(unix_seconds, subsec_millis, sequence));
    name
}

/// Numbers the screenshots of one run.
#[derive(Clone, Copy, Debug, Default, PartialEq, Eq, Structural)]
pub struct ScreenshotCounter {
    pub next_index: u32,
}

impl ScreenshotCounter {
    /// The name of the next screenshot; the counter moves on.
    pub fn next_filename(&mut self, unix_seconds: u64, subsec_millis: u32) -> (name: String)
        requires
            old(self).next_index < u32::MAX,
        ensures
            name@ == screenshot_file_name(unix_seconds, subsec_millis, old(self).next_index),
            final(self).next_index == old(self).next_index + 1,
    {
        let name = manual_screenshot_filename(unix_seconds, subsec_millis, self.next_index);
        self.next_index = self.next_index + 1;
        name
    }
}

/// A capture or export requested on the command line: it fires once, at the first
/// frame numbered `trigger_frame` or later.
#[derive(Debug)]
pub struct AutomatedCapture {
    pub path: String,
    pub requested: bool,
    pub trigger_frame: u32,
}

impl AutomatedCapture {
    /// A request for `path` at frame `trigger_frame`.
    pub fn new(path: String, trigger_frame: u32) -> (capture: AutomatedCapture)
        ensures
            capture.path == path,
            !capture.requested,
            capture.trigger_frame == trigger_frame,
    {
        AutomatedCapture { path, requested: false, trigger_frame }
    }

    /// Whether the capture fires at frame `frame`; once it fired it never fires again.
    pub fn fires_at(&mut self, frame: u32) -> (fire: bool)
        ensures
            fire == (!old(self).requested && old(self).trigger_frame <= frame),
            final(self).requested == (old(self).requested || fire),
            final(self).path == old(self).path,
            final(self).trigger_frame == old(self).trigger_frame,
    {
        if self.requested || frame < self.trigger_frame {
            return false;
        }
        self.requested = true;
        true
    }
}

/// The four solids that shapes are grown from.
#[derive(Clone, Copy, Debug, PartialEq, Eq, Structural, Hash)]
pub enum PolyhedronKind {
    Cube,
    Tetrahedron,
    Octahedron,
    Dodecahedron,
}

/// The name of a solid in file names.
pub open spec fn kind_slug_text(kind: PolyhedronKind) -> Seq<char> {
    match kind {
        PolyhedronKind::Cube => "cube"@,
        PolyhedronKind::Tetrahedron => "tetrahedron"@,
        PolyhedronKind::Octahedron => "octahedron"@,
        PolyhedronKind::Dodecahedron => "dodecahedron"@,
    }
}

/// The name of a solid in file names.
pub fn kind_slug(kind: PolyhedronKind) -> (slug: &'static str)
    ensures
        slug@ == kind_slug_text(kind),
{
    match kind {
        PolyhedronKind::Cube => "cube",
        PolyhedronKind::Tetrahedron => "tetrahedron",
        PolyhedronKind::Octahedron => "octahedron",
        PolyhedronKind::Dodecahedron => "dodecahedron",
    }
}

/// The name of a Blender export: the export time in milliseconds, the root solid,
/// and, from the second file of the same millisecond on, a number.
pub open spec fn blend_file_name(root_kind: PolyhedronKind, timestamp_ms: u64, suffix: nat) -> Seq<char> {
    if suffix == 0 {
        "intergen-"@ + decimal(timestamp_ms as nat) + seq!['-'] + kind_slug_text(root_kind) + ".blend"@
    } else {
        "intergen-"@ + decimal(timestamp_ms as nat) + seq!['-'] + kind_slug_text(root_kind) + seq!['-']
            + decimal(suffix) + ".blend"@
    }
}

/// The name of a Blender export.
pub fn blend_export_filename(root_kind: PolyhedronKind, timestamp_ms: u64, suffix: u32) -> (name: String)
    ensures
        name@ == blend_file_name(root_kind, timestamp_ms, suffix as nat),
{
    let mut name = String::new();
    push_str(&mut name, "intergen-");
    push_decimal(&mut name, timestamp_ms);
    push_char(&mut name, '-');
    push_str(&mut name, kind_slug(root_kind));
    if suffix != 0 {
        push_char(&mut name, '-');
        push_decimal(&mut name, suffix as u64);
    }
    push_str(&mut name, ".blend");
    assert(name@ =~= blend_file_name(root_kind, timestamp_ms, suffix as nat));
    name
}

/// Different numbers give different Blender export names.
proof fn lemma_blend_name_injective(root_kind: PolyhedronKind, timestamp_ms: u64, a: nat, b: nat)
    requires
        blend_file_name(root_kind, timestamp_ms, a) == blend_file_name(root_kind, timestamp_ms, b),
    ensures
        a == b,
{
    let stem = "intergen-"@ + decimal(timestamp_ms as nat) + seq!['-'] + kind_slug_text(root_kind);
    let head = stem + seq!['-'];
    let tail = ".blend"@;
    if a != 0 && b != 0 {
        let na = blend_file_name(root_kind, timestamp_ms, a);
        let nb = blend_file_name(root_kind, timestamp_ms, b);
        assert(na =~= head + decimal(a) + tail);
        assert(nb =~= head + decimal(b) + tail);
        assert(decimal(a).len() == decimal(b).len());
        let n = decimal(a).len() as int;
        assert(na.subrange(head.len() as int, head.len() + n) =~= decimal(a));
        assert(nb.subrange(head.len() as int, head.len() + n) =~= decimal(b));
        assert(decimal(a) == decimal(b));
        crate::text::zero_padded_value(a, 0);
        crate::text::zero_padded_value(b, 0);
        assert(zero_padded(a, 0) == decimal(a));
        assert(zero_padded(b, 0) == decimal(b));
        assert(a == b);
    } else if a != 0 || b != 0 {
        let nonzero = if a != 0 { a } else { b };
        assert(blend_file_name(root_kind, timestamp_ms, 0) =~= stem + tail);
        assert(blend_file_name(root_kind, timestamp_ms, nonzero) =~= stem + seq!['-'] + decimal(nonzero) + tail);
        assert((stem + tail).len() < (stem + seq!['-'] + decimal(nonzero) + tail).len());
    }
}

/// The path for a new Blender export in `export_dir`: the name with the lowest number
/// that is not among `existing`.
pub fn unique_blend_export_path(
    export_dir: &str,
    root_kind: PolyhedronKind,
    timestamp_ms: u64,
    existing: &Vec<String>,
) -> (path: String)
    requires
        existing@.len() < u32::MAX,
    ensures
        exists|suffix: nat|
            path@ == export_dir@ + seq!['/'] + blend_file_name(root_kind, timestamp_ms, suffix)
            && !path_listed(existing@, path@)
            && forall|k: nat| k < suffix ==> path_listed(
                existing@,
                #[trigger] (export_dir@ + seq!['/'] + blend_file_name(root_kind, timestamp_ms, k)),
            ),
{
    let ghost name = |k: nat| export_dir@ + seq!['/'] + blend_file_name(root_kind, timestamp_ms, k);
    let mut suffix: u32 = 0;
    let mut candidate = blend_export_path_text(export_dir, root_kind, timestamp_ms, suffix);
    while is_listed(existing, &candidate)
        invariant
            existing@.len() < u32::MAX,
            suffix <= existing@.len(),
            forall|k: nat| #[trigger] name(k) == export_dir@ + seq!['/'] + blend_file_name(root_kind, timestamp_ms, k),
            candidate@ == name(suffix as nat),
            forall|k: nat| k < suffix ==> path_listed(existing@, #[trigger] name(k)),
        decreases existing@.len() - suffix,
    {
        proof {
            assert forall|a: nat, b: nat| #[trigger] name(a) == #[trigger] name(b) implies a == b by {
                let prefix = export_dir@ + seq!['/'];
                let pa = prefix + blend_file_name(root_kind, timestamp_ms, a);
                let pb = prefix + blend_file_name(root_kind, timestamp_ms, b);
                assert(name(a) == pa && name(b) == pb);
                assert(pa.subrange(prefix.len() as int, pa.len() as int) =~= blend_file_name(root_kind, timestamp_ms, a));
                assert(pb.subrange(prefix.len() as int, pb.len() as int) =~= blend_file_name(root_kind, timestamp_ms, b));
                lemma_blend_name_injective(root_kind, timestamp_ms, a, b);
            }
            assert forall|k: nat| k <= suffix implies path_listed(existing@, #[trigger] name(k)) by {
                if k == suffix {
                    assert(path_listed(existing@, candidate@));
                }
            }
            lemma_taken_names_bound(existing@, name, suffix as nat);
        }
        suffix = suffix + 1;
        candidate = blend_export_path_text(export_dir, root_kind, timestamp_ms, suffix);
    }
    proof {
        assert forall|k: nat| k < suffix implies path_listed(
            existing@,
            #[trigger] (export_dir@ + seq!['/'] + blend_file_name(root_kind, timestamp_ms, k)),
        ) by {
            assert(path_listed(existing@, name(k)));
        }
    }
    candidate
}

/// The path of the Blender export numbered `suffix` in `export_dir`.
fn blend_export_path_text(export_dir: &str, root_kind: PolyhedronKind, timestamp_ms: u64, suffix: u32) -> (path: String)
    ensures
        path@ == export_dir@ + seq!['/'] + blend_file_name(root_kind, timestamp_ms, suffix as nat),
{
    let mut path = String::new();
    push_str(&mut path, export_dir);
    push_char(&mut path, '/');
    let name = blend_export_filename(root_kind, timestamp_ms, suffix);
    push_str(&mut path, name.as_str());
    path
}

} // verus!
