//! Help texts: the startup summaries and the full help overlay listing.
use vstd::prelude::*;
use crate::text::{has_no_line_break, joined, join_lines, lemma_joined_append, lemma_lines_of_joined, lines_of, push_str};

verus! {

/// One command in the help listings.
#[derive(Clone, Copy, Debug, PartialEq, Eq)]
pub struct HelpEntry {
    /// Fragment of the startup summary line.
    pub startup: &'static str,
    /// Line of the help overlay.
    pub overlay: &'static str,
    /// Key binding column.
    pub binding: &'static str,
    /// Explanation column.
    pub explanation: &'static str,
}

/// The startup fragments of `entries`.
pub open spec fn startup_fragments(entries: Seq<HelpEntry>) -> Seq<Seq<char>> {
    entries.map_values(|entry: HelpEntry| entry.startup@)
}

/// The overlay lines of `entries`.
pub open spec fn overlay_lines(entries: Seq<HelpEntry>) -> Seq<Seq<char>> {
    entries.map_values(|entry: HelpEntry| entry.overlay@)
}

/// A startup message: `prefix`, a colon, then the startup fragments of `entries`
/// separated by commas.
pub open spec fn startup_text(prefix: Seq<char>, entries: Seq<HelpEntry>) -> Seq<char> {
    prefix + ": "@ + joined(startup_fragments(entries), ", "@)
}

/// The top-level function-key commands.
pub open spec fn spec_top_level_help() -> Seq<HelpEntry> {
    seq![
        HelpEntry {
            startup: "F1 cycles help views",
            overlay: "F1: Cycle help views",
            binding: "F1",
            explanation: "Cycle help views.",
        },
        HelpEntry {
            startup: "F2 cycles compact/list/close for the live control page",
            overlay: "F2: Open compact controls, second press opens the list, third press closes",
            binding: "F2",
            explanation: "Open compact controls, second press opens the list, third press closes.",
        },
        HelpEntry {
            startup: "F3 scene preset page",
            overlay: "F3: Toggle the scene preset page",
            binding: "F3",
            explanation: "Toggle the scene preset page.",
        },
        HelpEntry {
            startup: "Esc closes the current F-page",
            overlay: "Esc: Close the current F-page",
            binding: "Esc",
            explanation: "Close the current F-page.",
        },
        HelpEntry {
            startup: "F4 export Blender .blend",
            overlay: "F4: Export the current scene as a Blender .blend",
            binding: "F4",
            explanation: "Export the current scene as a Blender .blend.",
        },
    ]
}

/// The top-level function-key commands.
pub fn top_level_help() -> (entries: Vec<HelpEntry>)
    ensures
        entries@ == spec_top_level_help(),
{
    vec![
        HelpEntry {
            startup: "F1 cycles help views",
            overlay: "F1: Cycle help views",
            binding: "F1",
            explanation: "Cycle help views.",
        },
        HelpEntry {
            startup: "F2 cycles compact/list/close for the live control page",
            overlay: "F2: Open compact controls, second press opens the list, third press closes",
            binding: "F2",
            explanation: "Open compact controls, second press opens the list, third press closes.",
        },
        HelpEntry {
            startup: "F3 scene preset page",
            overlay: "F3: Toggle the scene preset page",
            binding: "F3",
            explanation: "Toggle the scene preset page.",
        },
        HelpEntry {
            startup: "Esc closes the current F-page",
            overlay: "Esc: Close the current F-page",
            binding: "Esc",
            explanation: "Close the current F-page.",
        },
        HelpEntry {
            startup: "F4 export Blender .blend",
            overlay: "F4: Export the current scene as a Blender .blend",
            binding: "F4",
            explanation: "Export the current scene as a Blender .blend.",
        },
    ]
}

/// The commands of the live control page.
pub open spec fn spec_fx_help() -> Seq<HelpEntry> {
    seq![
        HelpEntry {
            startup: "Ctrl+Up/Down selects a control",
            overlay: "In F2 page: Ctrl + Up / Down select control",
            binding: "Ctrl + Up / Down",
            explanation: "In the F2 page, select a control.",
        },
        HelpEntry {
            startup: "second F2 press opens the scrolling parameter list",
            overlay: "In F2 page: Second F2 press opens the scrolling parameter list",
            binding: "F2",
            explanation: "In the F2 page, a second press opens the scrolling parameter list.",
        },
        HelpEntry {
            startup: "Left/Right or Tab/Shift+Tab switch the active field",
            overlay: "In F2 page: Left / Right or Tab / Shift+Tab switch the active field",
            binding: "Left / Right or Tab / Shift+Tab",
            explanation: "In the F2 page, switch the active field.",
        },
        HelpEntry {
            startup: "Up/Down adjust the active field",
            overlay: "In F2 page: Up / Down adjust the active field",
            binding: "Up / Down",
            explanation: "In the F2 page, adjust the active field.",
        },
        HelpEntry {
            startup: "Space toggles the selected shader effect",
            overlay: "In F2 page: Space toggles the selected shader effect",
            binding: "Space",
            explanation: "In the F2 page, toggle the selected shader effect.",
        },
        HelpEntry {
            startup: "L toggles the selected parameter LFO when supported",
            overlay: "In F2 page: L toggles the selected parameter LFO when supported",
            binding: "L",
            explanation: "In the F2 page, toggle the selected parameter LFO when supported.",
        },
        HelpEntry {
            startup: "typing a number sets the active numeric field",
            overlay: "In F2 page: Type digits / . / , / - / + (for example 0.157) to set the active numeric field",
            binding: "Digits / . / , / - / +",
            explanation: "In the F2 page, set the active numeric field directly.",
        },
        HelpEntry {
            startup: "Backspace erases typed F2 input",
            overlay: "In F2 page: Backspace erases the typed numeric input",
            binding: "Backspace",
            explanation: "In the F2 page, erase the typed numeric input.",
        },
        HelpEntry {
            startup: "Shift is coarse",
            overlay: "Shift: Coarse F2 adjustment",
            binding: "Shift",
            explanation: "In the F2 page, use coarse adjustment.",
        },
        HelpEntry {
            startup: "Alt is fine",
            overlay: "Alt: Fine F2 adjustment",
            binding: "Alt",
            explanation: "In the F2 page, use fine adjustment.",
        },
        HelpEntry {
            startup: "Enter resets the field",
            overlay: "Enter: Reset the selected F2 field",
            binding: "Enter",
            explanation: "In the F2 page, reset the selected field.",
        },
        HelpEntry {
            startup: "Shift+Enter resets all F2 controls",
            overlay: "Shift + Enter: Reset all F2 controls",
            binding: "Shift + Enter",
            explanation: "In the F2 page, reset all F2 controls.",
        },
    ]
}

/// The commands of the live control page.
pub fn fx_help() -> (entries: Vec<HelpEntry>)
    ensures
        entries@ == spec_fx_help(),
{
    vec![
        HelpEntry {
            startup: "Ctrl+Up/Down selects a control",
            overlay: "In F2 page: Ctrl + Up / Down select control",
            binding: "Ctrl + Up / Down",
            explanation: "In the F2 page, select a control.",
        },
        HelpEntry {
            startup: "second F2 press opens the scrolling parameter list",
            overlay: "In F2 page: Second F2 press opens the scrolling parameter list",
            binding: "F2",
            explanation: "In the F2 page, a second press opens the scrolling parameter list.",
        },
        HelpEntry {
            startup: "Left/Right or Tab/Shift+Tab switch the active field",
            overlay: "In F2 page: Left / Right or Tab / Shift+Tab switch the active field",
            binding: "Left / Right or Tab / Shift+Tab",
            explanation: "In the F2 page, switch the active field.",
        },
        HelpEntry {
            startup: "Up/Down adjust the active field",
            overlay: "In F2 page: Up / Down adjust the active field",
            binding: "Up / Down",
            explanation: "In the F2 page, adjust the active field.",
        },
        HelpEntry {
            startup: "Space toggles the selected shader effect",
            overlay: "In F2 page: Space toggles the selected shader effect",
            binding: "Space",
            explanation: "In the F2 page, toggle the selected shader effect.",
        },
        HelpEntry {
            startup: "L toggles the selected parameter LFO when supported",
            overlay: "In F2 page: L toggles the selected parameter LFO when supported",
            binding: "L",
            explanation: "In the F2 page, toggle the selected parameter LFO when supported.",
        },
        HelpEntry {
            startup: "typing a number sets the active numeric field",
            overlay: "In F2 page: Type digits / . / , / - / + (for example 0.157) to set the active numeric field",
            binding: "Digits / . / , / - / +",
            explanation: "In the F2 page, set the active numeric field directly.",
        },
        HelpEntry {
            startup: "Backspace erases typed F2 input",
            overlay: "In F2 page: Backspace erases the typed numeric input",
            binding: "Backspace",
            explanation: "In the F2 page, erase the typed numeric input.",
        },
        HelpEntry {
            startup: "Shift is coarse",
            overlay: "Shift: Coarse F2 adjustment",
            binding: "Shift",
            explanation: "In the F2 page, use coarse adjustment.",
        },
        HelpEntry {
            startup: "Alt is fine",
            overlay: "Alt: Fine F2 adjustment",
            binding: "Alt",
            explanation: "In the F2 page, use fine adjustment.",
        },
        HelpEntry {
            startup: "Enter resets the field",
            overlay: "Enter: Reset the selected F2 field",
            binding: "Enter",
            explanation: "In the F2 page, reset the selected field.",
        },
        HelpEntry {
            startup: "Shift+Enter resets all F2 controls",
            overlay: "Shift + Enter: Reset all F2 controls",
            binding: "Shift + Enter",
            explanation: "In the F2 page, reset all F2 controls.",
        },
    ]
}

/// The commands of the scene preset page.
pub open spec fn spec_preset_help() -> Seq<HelpEntry> {
    seq![
        HelpEntry {
            startup: "scene preset page supports save/free/load/collision resolution",
            overlay: "In preset page: S save, Del free slot, 00-99 load, Up/Down + Enter resolve collisions",
            binding: "S / Del / 00-99 / Up / Down + Enter",
            explanation: "In the preset page, save, free slots, load presets, and resolve collisions.",
        },
    ]
}

/// The commands of the scene preset page.
pub fn preset_help() -> (entries: Vec<HelpEntry>)
    ensures
        entries@ == spec_preset_help(),
{
    vec![
        HelpEntry {
            startup: "scene preset page supports save/free/load/collision resolution",
            overlay: "In preset page: S save, Del free slot, 00-99 load, Up/Down + Enter resolve collisions",
            binding: "S / Del / 00-99 / Up / Down + Enter",
            explanation: "In the preset page, save, free slots, load presets, and resolve collisions.",
        },
    ]
}

/// The scene navigation and editing commands.
pub open spec fn spec_scene_help() -> Seq<HelpEntry> {
    seq![
        HelpEntry {
            startup: "Arrow Up/Down pitch camera",
            overlay: "Arrow Up / Down: Pitch camera",
            binding: "Arrow Up / Down",
            explanation: "Pitch camera.",
        },
        HelpEntry {
            startup: "Arrow Left/Right yaw camera",
            overlay: "Arrow Left / Right: Yaw camera",
            binding: "Arrow Left / Right",
            explanation: "Yaw camera.",
        },
        HelpEntry {
            startup: "Q/E roll camera",
            overlay: "Q / E: Roll camera",
            binding: "Q / E",
            explanation: "Roll camera.",
        },
        HelpEntry {
            startup: "W/S zoom",
            overlay: "W / S: Zoom in / out",
            binding: "W / S",
            explanation: "Zoom in or out.",
        },
        HelpEntry {
            startup: "Backspace stops camera rotation",
            overlay: "Backspace: Stop camera rotation momentum",
            binding: "Backspace",
            explanation: "Stop camera rotation momentum.",
        },
        HelpEntry {
            startup: "hold Space to add objects",
            overlay: "Space: Add shapes using the current add mode (hold to repeat)",
            binding: "Space",
            explanation: "Add shapes using the current add mode, and hold to repeat.",
        },
        HelpEntry {
            startup: "Ctrl+Space cycles add mode",
            overlay: "Ctrl + Space: Cycle add mode (single / fill current level)",
            binding: "Ctrl + Space",
            explanation: "Cycle add mode between single object and fill current level.",
        },
        HelpEntry {
            startup: "G cycles spawn placement mode",
            overlay: "G: Cycle spawn placement mode (vertex / edge / face)",
            binding: "G",
            explanation: "Cycle spawn placement mode between vertex, edge, and face.",
        },
        HelpEntry {
            startup: "R reset scene",
            overlay: "R: Reset to the selected shape as root",
            binding: "R",
            explanation: "Reset to the selected shape as root.",
        },
        HelpEntry {
            startup: "1 selects cube",
            overlay: "1: Select cube",
            binding: "1",
            explanation: "Select cube.",
        },
        HelpEntry {
            startup: "2 selects tetrahedron",
            overlay: "2: Select tetrahedron",
            binding: "2",
            explanation: "Select tetrahedron.",
        },
        HelpEntry {
            startup: "3 selects octahedron",
            overlay: "3: Select octahedron",
            binding: "3",
            explanation: "Select octahedron.",
        },
        HelpEntry {
            startup: "4 selects dodecahedron",
            overlay: "4: Select dodecahedron",
            binding: "4",
            explanation: "Select dodecahedron.",
        },
        HelpEntry {
            startup: "F12 screenshot",
            overlay: "F12: Save a screenshot",
            binding: "F12",
            explanation: "Save a screenshot.",
        },
        HelpEntry {
            startup: "-/+ adjust child scale ratio",
            overlay: "- / +: Adjust child scale ratio",
            binding: "- / +",
            explanation: "Adjust child scale ratio.",
        },
        HelpEntry {
            startup: "O/P adjust opacity",
            overlay: "O / P: Adjust global opacity",
            binding: "O / P",
            explanation: "Adjust global opacity.",
        },
        HelpEntry {
            startup: "I reset opacity",
            overlay: "I: Reset global opacity",
            binding: "I",
            explanation: "Reset global opacity.",
        },
        HelpEntry {
            startup: "hold [/] to adjust child twist",
            overlay: "[ / ]: Adjust child twist angle (hold to repeat)",
            binding: "[ / ]",
            explanation: "Adjust child twist angle, and hold to repeat.",
        },
        HelpEntry {
            startup: "hold Z/X to adjust child offset",
            overlay: "Z / X: Adjust child outward offset (hold to repeat)",
            binding: "Z / X",
            explanation: "Adjust child outward offset, and hold to repeat.",
        },
        HelpEntry {
            startup: "hold V/B to adjust spawn exclusion probability",
            overlay: "V / B: Adjust spawn exclusion probability (hold to repeat)",
            binding: "V / B",
            explanation: "Adjust spawn exclusion probability, and hold to repeat.",
        },
        HelpEntry {
            startup: "C resets child outward offset",
            overlay: "C: Reset child outward offset",
            binding: "C",
            explanation: "Reset child outward offset.",
        },
        HelpEntry {
            startup: "N resets spawn exclusion probability",
            overlay: "N: Reset spawn exclusion probability",
            binding: "N",
            explanation: "Reset spawn exclusion probability.",
        },
        HelpEntry {
            startup: "T resets child twist angle",
            overlay: "T: Reset child twist angle",
            binding: "T",
            explanation: "Reset child twist angle.",
        },
    ]
}

/// The scene navigation and editing commands.
pub fn scene_help() -> (entries: Vec<HelpEntry>)
    ensures
        entries@ == spec_scene_help(),
{
    vec![
        HelpEntry {
            startup: "Arrow Up/Down pitch camera",
            overlay: "Arrow Up / Down: Pitch camera",
            binding: "Arrow Up / Down",
            explanation: "Pitch camera.",
        },
        HelpEntry {
            startup: "Arrow Left/Right yaw camera",
            overlay: "Arrow Left / Right: Yaw camera",
            binding: "Arrow Left / Right",
            explanation: "Yaw camera.",
        },
        HelpEntry {
            startup: "Q/E roll camera",
            overlay: "Q / E: Roll camera",
            binding: "Q / E",
            explanation: "Roll camera.",
        },
        HelpEntry {
            startup: "W/S zoom",
            overlay: "W / S: Zoom in / out",
            binding: "W / S",
            explanation: "Zoom in or out.",
        },
        HelpEntry {
            startup: "Backspace stops camera rotation",
            overlay: "Backspace: Stop camera rotation momentum",
            binding: "Backspace",
            explanation: "Stop camera rotation momentum.",
        },
        HelpEntry {
            startup: "hold Space to add objects",
            overlay: "Space: Add shapes using the current add mode (hold to repeat)",
            binding: "Space",
            explanation: "Add shapes using the current add mode, and hold to repeat.",
        },
        HelpEntry {
            startup: "Ctrl+Space cycles add mode",
            overlay: "Ctrl + Space: Cycle add mode (single / fill current level)",
            binding: "Ctrl + Space",
            explanation: "Cycle add mode between single object and fill current level.",
        },
        HelpEntry {
            startup: "G cycles spawn placement mode",
            overlay: "G: Cycle spawn placement mode (vertex / edge / face)",
            binding: "G",
            explanation: "Cycle spawn placement mode between vertex, edge, and face.",
        },
        HelpEntry {
            startup: "R reset scene",
            overlay: "R: Reset to the selected shape as root",
            binding: "R",
            explanation: "Reset to the selected shape as root.",
        },
        HelpEntry {
            startup: "1 selects cube",
            overlay: "1: Select cube",
            binding: "1",
            explanation: "Select cube.",
        },
        HelpEntry {
            startup: "2 selects tetrahedron",
            overlay: "2: Select tetrahedron",
            binding: "2",
            explanation: "Select tetrahedron.",
        },
        HelpEntry {
            startup: "3 selects octahedron",
            overlay: "3: Select octahedron",
            binding: "3",
            explanation: "Select octahedron.",
        },
        HelpEntry {
            startup: "4 selects dodecahedron",
            overlay: "4: Select dodecahedron",
            binding: "4",
            explanation: "Select dodecahedron.",
        },
        HelpEntry {
            startup: "F12 screenshot",
            overlay: "F12: Save a screenshot",
            binding: "F12",
            explanation: "Save a screenshot.",
        },
        HelpEntry {
            startup: "-/+ adjust child scale ratio",
            overlay: "- / +: Adjust child scale ratio",
            binding: "- / +",
            explanation: "Adjust child scale ratio.",
        },
        HelpEntry {
            startup: "O/P adjust opacity",
            overlay: "O / P: Adjust global opacity",
            binding: "O / P",
            explanation: "Adjust global opacity.",
        },
        HelpEntry {
            startup: "I reset opacity",
            overlay: "I: Reset global opacity",
            binding: "I",
            explanation: "Reset global opacity.",
        },
        HelpEntry {
            startup: "hold [/] to adjust child twist",
            overlay: "[ / ]: Adjust child twist angle (hold to repeat)",
            binding: "[ / ]",
            explanation: "Adjust child twist angle, and hold to repeat.",
        },
        HelpEntry {
            startup: "hold Z/X to adjust child offset",
            overlay: "Z / X: Adjust child outward offset (hold to repeat)",
            binding: "Z / X",
            explanation: "Adjust child outward offset, and hold to repeat.",
        },
        HelpEntry {
            startup: "hold V/B to adjust spawn exclusion probability",
            overlay: "V / B: Adjust spawn exclusion probability (hold to repeat)",
            binding: "V / B",
            explanation: "Adjust spawn exclusion probability, and hold to repeat.",
        },
        HelpEntry {
            startup: "C resets child outward offset",
            overlay: "C: Reset child outward offset",
            binding: "C",
            explanation: "Reset child outward offset.",
        },
        HelpEntry {
            startup: "N resets spawn exclusion probability",
            overlay: "N: Reset spawn exclusion probability",
            binding: "N",
            explanation: "Reset spawn exclusion probability.",
        },
        HelpEntry {
            startup: "T resets child twist angle",
            overlay: "T: Reset child twist angle",
            binding: "T",
            explanation: "Reset child twist angle.",
        },
    ]
}

/// Appends the startup fragments of `entries` to `text`, each after a comma
/// separator except the very first fragment written.
fn push_startup_fragments(text: &mut String, entries: &[HelpEntry], first: bool)
    ensures
        final(text)@ == old(text)@ + if first {
            joined(startup_fragments(entries@), ", "@)
        } else if entries@.len() == 0 {
            Seq::<char>::empty()
        } else {
            ", "@ + joined(startup_fragments(entries@), ", "@)
        },
{
    let ghost start = text@;
    let mut i: usize = 0;
    while i < entries.len()
        invariant
            i <= entries@.len(),
            text@ == start + if i == 0 {
                Seq::<char>::empty()
            } else if first {
                joined(startup_fragments(entries@.subrange(0, i as int)), ", "@)
            } else {
                ", "@ + joined(startup_fragments(entries@.subrange(0, i as int)), ", "@)
            },
        decreases entries@.len() - i,
    {
        if i > 0 || !first {
            push_str(text, ", ");
        }
        push_str(text, entries[i].startup);
        proof {
            let prefix = entries@.subrange(0, i as int);
            let next = entries@.subrange(0, i + 1);
            assert(next.drop_last() == prefix);
            assert(startup_fragments(next).drop_last() == startup_fragments(prefix));
            assert(startup_fragments(next).last() == entries@[i as int].startup@);
            if i == 0 {
                assert(startup_fragments(next).len() == 1);
                assert(joined(startup_fragments(next), ", "@) == entries@[0].startup@);
            }
        }
        i += 1;
    }
    assert(entries@.subrange(0, entries@.len() as int) == entries@);
}

/// A startup message: `prefix`, a colon, then the startup fragments of every entry of
/// every group, separated by commas.
pub fn startup_message(prefix: &str, groups: &[&[HelpEntry]]) -> (message: String)
    ensures
        message@ == startup_text(prefix@, groups@.map_values(|group: &[HelpEntry]| group@).flatten()),
{
    let mut message = String::new();
    push_str(&mut message, prefix);
    push_str(&mut message, ": ");
    let ghost start = message@;
    let mut first = true;
    let mut g: usize = 0;
    while g < groups.len()
        invariant
            g <= groups@.len(),
            first == (groups@.subrange(0, g as int).map_values(|group: &[HelpEntry]| group@).flatten().len() == 0),
            message@ == start + joined(startup_fragments(
                groups@.subrange(0, g as int).map_values(|group: &[HelpEntry]| group@).flatten()), ", "@),
        decreases groups@.len() - g,
    {
        let group = groups[g];
        push_startup_fragments(&mut message, group, first);
        proof {
            let before = groups@.subrange(0, g as int).map_values(|group: &[HelpEntry]| group@).flatten();
            let after = groups@.subrange(0, g + 1).map_values(|group: &[HelpEntry]| group@).flatten();
            assert(groups@.subrange(0, g + 1).map_values(|group: &[HelpEntry]| group@)
                == groups@.subrange(0, g as int).map_values(|group: &[HelpEntry]| group@).push(group@));
            lemma_flatten_push(groups@.subrange(0, g as int).map_values(|group: &[HelpEntry]| group@), group@);
            lemma_joined_append(startup_fragments(before), startup_fragments(group@), ", "@);
            assert(startup_fragments(after) == startup_fragments(before) + startup_fragments(group@));
        }
        if group.len() > 0 {
            first = false;
        }
        g += 1;
    }
    assert(groups@.subrange(0, groups@.len() as int) == groups@);
    message
}

proof fn lemma_flatten_push(groups: Seq<Seq<HelpEntry>>, last: Seq<HelpEntry>)
    ensures
        groups.push(last).flatten() == groups.flatten() + last,
{
    vstd::seq_lib::lemma_flatten_concat(groups, seq![last]);
    let single = seq![last];
    assert(single.drop_first() == Seq::<Seq<HelpEntry>>::empty());
    assert(single.drop_first().flatten() == Seq::<HelpEntry>::empty());
    assert(single.flatten() == last + Seq::<HelpEntry>::empty());
    assert(last + Seq::<HelpEntry>::empty() == last);
    assert(groups + seq![last] == groups.push(last));
}


/// The startup summary of the controls.
pub fn startup_controls_message() -> (message: String)
    ensures
        message@ == startup_text("Controls"@, spec_top_level_help() + spec_scene_help()),
{
    let top = top_level_help();
    let scene = scene_help();
    let groups: [&[HelpEntry]; 2] = [top.as_slice(), scene.as_slice()];
    let message = startup_message("Controls", &groups);
    proof {
        let views = groups@.map_values(|group: &[HelpEntry]| group@);
        assert(views == seq![spec_top_level_help(), spec_scene_help()]);
        lemma_flatten_push(seq![spec_top_level_help()], spec_scene_help());
        lemma_flatten_push(Seq::<Seq<HelpEntry>>::empty(), spec_top_level_help());
        assert(seq![spec_top_level_help()] == Seq::<Seq<HelpEntry>>::empty().push(spec_top_level_help()));
        assert(views == seq![spec_top_level_help()].push(spec_scene_help()));
    }
    message
}

/// The startup summary of the live control page.
pub fn startup_fx_message() -> (message: String)
    ensures
        message@ == startup_text("F2 page"@, spec_fx_help()),
{
    let fx = fx_help();
    let groups: [&[HelpEntry]; 1] = [fx.as_slice()];
    let message = startup_message("F2 page", &groups);
    proof {
        let views = groups@.map_values(|group: &[HelpEntry]| group@);
        assert(views == Seq::<Seq<HelpEntry>>::empty().push(spec_fx_help()));
        lemma_flatten_push(Seq::<Seq<HelpEntry>>::empty(), spec_fx_help());
    }
    message
}

/// Every help entry in overlay order: top-level, control page, preset page, scene.
pub open spec fn spec_overlay_help_entries() -> Seq<HelpEntry> {
    spec_top_level_help() + spec_fx_help() + spec_preset_help() + spec_scene_help()
}

/// Every help entry in overlay order: top-level, control page, preset page, scene.
pub fn overlay_help_entries() -> (entries: Vec<HelpEntry>)
    ensures
        entries@ == spec_overlay_help_entries(),
{
    let mut entries = top_level_help();
    let mut fx = fx_help();
    let mut preset = preset_help();
    let mut scene = scene_help();
    entries.append(&mut fx);
    entries.append(&mut preset);
    entries.append(&mut scene);
    entries
}

/// Appends the overlay line of every entry to `lines`.
pub fn append_overlay_lines(lines: &mut Vec<String>, entries: &[HelpEntry])
    ensures
        final(lines).deep_view() == old(lines).deep_view() + overlay_lines(entries@),
{
    let ghost start = lines.deep_view();
    let mut i: usize = 0;
    while i < entries.len()
        invariant
            i <= entries@.len(),
            lines.deep_view() == start + overlay_lines(entries@.subrange(0, i as int)),
        decreases entries@.len() - i,
    {
        let mut line = String::new();
        push_str(&mut line, entries[i].overlay);
        let ghost before = lines.deep_view();
        let ghost line_view = line@;
        lines.push(line);
        proof {
            assert(lines.deep_view() =~= before.push(line_view));
            assert(entries@.subrange(0, i + 1) == entries@.subrange(0, i as int).push(entries@[i as int]));
            assert(overlay_lines(entries@.subrange(0, i + 1)) == overlay_lines(entries@.subrange(0, i as int)).push(entries@[i as int].overlay@));
        }
        i += 1;
    }
    assert(entries@.subrange(0, entries@.len() as int) == entries@);
}

/// The text of the help overlay: every overlay line, then an empty line and
/// `font_status_line`, separated by line breaks.
pub fn overlay_controls_text(font_status_line: &str) -> (text: String)
    ensures
        text@ == joined(overlay_lines(spec_overlay_help_entries()).push(Seq::empty()).push(font_status_line@), "\n"@),
{
    let entries = overlay_help_entries();
    let mut lines: Vec<String> = Vec::new();
    append_overlay_lines(&mut lines, entries.as_slice());
    assert(lines.deep_view() =~= overlay_lines(spec_overlay_help_entries()));
    let ghost listed = lines.deep_view();
    lines.push(String::new());
    assert(lines.deep_view() =~= listed.push(Seq::empty()));
    let mut status = String::new();
    push_str(&mut status, font_status_line);
    let ghost with_blank = lines.deep_view();
    let ghost status_view = status@;
    lines.push(status);
    assert(lines.deep_view() =~= with_blank.push(status_view));
    join_lines(&lines)
}

/// No overlay line of the top level commands holds a line break.
proof fn lemma_top_level_overlay_unbroken()
    ensures
        forall|k: int| 0 <= k < spec_top_level_help().len() ==> has_no_line_break(#[trigger] spec_top_level_help()[k].overlay@),
{
    broadcast use vstd::string::group_string_axioms;
    reveal_strlit("F1: Cycle help views");
    reveal_strlit("F2: Open compact controls, second press opens the list, third press closes");
    reveal_strlit("F3: Toggle the scene preset page");
    reveal_strlit("Esc: Close the current F-page");
    reveal_strlit("F4: Export the current scene as a Blender .blend");
    assert forall|k: int| 0 <= k < spec_top_level_help().len() implies has_no_line_break(#[trigger] spec_top_level_help()[k].overlay@) by {
        assert(0 <= k < 5);
    }
}

/// No overlay line of the fx commands holds a line break.
proof fn lemma_fx_overlay_unbroken()
    ensures
        forall|k: int| 0 <= k < spec_fx_help().len() ==> has_no_line_break(#[trigger] spec_fx_help()[k].overlay@),
{
    broadcast use vstd::string::group_string_axioms;
    reveal_strlit("In F2 page: Ctrl + Up / Down select control");
    reveal_strlit("In F2 page: Second F2 press opens the scrolling parameter list");
    reveal_strlit("In F2 page: Left / Right or Tab / Shift+Tab switch the active field");
    reveal_strlit("In F2 page: Up / Down adjust the active field");
    reveal_strlit("In F2 page: Space toggles the selected shader effect");
    reveal_strlit("In F2 page: L toggles the selected parameter LFO when supported");
    reveal_strlit("In F2 page: Type digits / . / , / - / + (for example 0.157) to set the active numeric field");
    reveal_strlit("In F2 page: Backspace erases the typed numeric input");
    reveal_strlit("Shift: Coarse F2 adjustment");
    reveal_strlit("Alt: Fine F2 adjustment");
    reveal_strlit("Enter: Reset the selected F2 field");
    reveal_strlit("Shift + Enter: Reset all F2 controls");
    assert forall|k: int| 0 <= k < spec_fx_help().len() implies has_no_line_break(#[trigger] spec_fx_help()[k].overlay@) by {
        assert(0 <= k < 12);
    }
}

/// No overlay line of the preset commands holds a line break.
proof fn lemma_preset_overlay_unbroken()
    ensures
        forall|k: int| 0 <= k < spec_preset_help().len() ==> has_no_line_break(#[trigger] spec_preset_help()[k].overlay@),
{
    broadcast use vstd::string::group_string_axioms;
    reveal_strlit("In preset page: S save, Del free slot, 00-99 load, Up/Down + Enter resolve collisions");
    assert forall|k: int| 0 <= k < spec_preset_help().len() implies has_no_line_break(#[trigger] spec_preset_help()[k].overlay@) by {
        assert(0 <= k < 1);
    }
}

/// No overlay line of the scene commands holds a line break.
proof fn lemma_scene_overlay_unbroken()
    ensures
        forall|k: int| 0 <= k < spec_scene_help().len() ==> has_no_line_break(#[trigger] spec_scene_help()[k].overlay@),
{
    broadcast use vstd::string::group_string_axioms;
    reveal_strlit("Arrow Up / Down: Pitch camera");
    reveal_strlit("Arrow Left / Right: Yaw camera");
    reveal_strlit("Q / E: Roll camera");
    reveal_strlit("W / S: Zoom in / out");
    reveal_strlit("Backspace: Stop camera rotation momentum");
    reveal_strlit("Space: Add shapes using the current add mode (hold to repeat)");
    reveal_strlit("Ctrl + Space: Cycle add mode (single / fill current level)");
    reveal_strlit("G: Cycle spawn placement mode (vertex / edge / face)");
    reveal_strlit("R: Reset to the selected shape as root");
    reveal_strlit("1: Select cube");
    reveal_strlit("2: Select tetrahedron");
    reveal_strlit("3: Select octahedron");
    reveal_strlit("4: Select dodecahedron");
    reveal_strlit("F12: Save a screenshot");
    reveal_strlit("- / +: Adjust child scale ratio");
    reveal_strlit("O / P: Adjust global opacity");
    reveal_strlit("I: Reset global opacity");
    reveal_strlit("[ / ]: Adjust child twist angle (hold to repeat)");
    reveal_strlit("Z / X: Adjust child outward offset (hold to repeat)");
    reveal_strlit("V / B: Adjust spawn exclusion probability (hold to repeat)");
    reveal_strlit("C: Reset child outward offset");
    reveal_strlit("N: Reset spawn exclusion probability");
    reveal_strlit("T: Reset child twist angle");
    assert forall|k: int| 0 <= k < spec_scene_help().len() implies has_no_line_break(#[trigger] spec_scene_help()[k].overlay@) by {
        assert(0 <= k < 23);
    }
}

/// Every overlay line holds no line break.
proof fn lemma_overlay_lines_unbroken()
    ensures
        forall|k: int| 0 <= k < overlay_lines(spec_overlay_help_entries()).len()
            ==> has_no_line_break(#[trigger] overlay_lines(spec_overlay_help_entries())[k]),
{
    lemma_top_level_overlay_unbroken();
    lemma_fx_overlay_unbroken();
    lemma_preset_overlay_unbroken();
    lemma_scene_overlay_unbroken();
    let all = spec_overlay_help_entries();
    let a = spec_top_level_help();
    let b = spec_fx_help();
    let c = spec_preset_help();
    let d = spec_scene_help();
    assert forall|k: int| 0 <= k < overlay_lines(all).len()
        implies has_no_line_break(#[trigger] overlay_lines(all)[k]) by {
        assert(overlay_lines(all)[k] == all[k].overlay@);
        if k < a.len() {
            assert(all[k] == a[k]);
        } else if k < a.len() + b.len() {
            assert(all[k] == b[k - a.len()]);
        } else if k < a.len() + b.len() + c.len() {
            assert(all[k] == c[k - a.len() - b.len()]);
        } else {
            assert(all[k] == d[k - a.len() - b.len() - c.len()]);
        }
    }
}

/// The help overlay text splits into exactly its lines: the forty-one overlay lines of
/// the top-level, control-page, preset-page and scene commands in order, from
/// "F1: Cycle help views" to "T: Reset child twist angle", then an empty line, then the
/// font status line, provided that line holds no line break.
pub proof fn overlay_text_has_fixed_lines(font_status_line: Seq<char>)
    requires
        has_no_line_break(font_status_line),
    ensures
        ({
            let overlay = overlay_lines(spec_overlay_help_entries());
            let lines = lines_of(joined(overlay.push(Seq::empty()).push(font_status_line), "\n"@));
            &&& overlay.len() == 41
            &&& lines.len() == 43
            &&& lines.subrange(0, 41) == overlay
            &&& lines[0] == "F1: Cycle help views"@
            &&& lines[40] == "T: Reset child twist angle"@
            &&& lines[41] == Seq::<char>::empty()
            &&& lines[42] == font_status_line
        }),
{
    lemma_overlay_lines_unbroken();
    let overlay = overlay_lines(spec_overlay_help_entries());
    let parts = overlay.push(Seq::empty()).push(font_status_line);
    assert forall|k: int| 0 <= k < parts.len() implies has_no_line_break(#[trigger] parts[k]) by {
        if k < overlay.len() {
            assert(parts[k] == overlay[k]);
        }
    }
    lemma_lines_of_joined(parts);
    assert(parts.subrange(0, 41) =~= overlay);
    assert(overlay[0] == spec_overlay_help_entries()[0].overlay@);
    assert(overlay[40] == spec_overlay_help_entries()[40].overlay@);
}

} // verus!
