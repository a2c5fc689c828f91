//! Status messages of the generation controls, and the single-spawn attachment
//! capacity that the `[` and `]` style keys step.
use vstd::prelude::*;
use crate::choices::{ShapeKind, SpawnAddMode, SpawnPlacementMode};
use crate::text::{decimal, push_decimal, push_str};

verus! {

/// The description of an add mode.
pub open spec fn add_mode_label(mode: SpawnAddMode) -> Seq<char> {
    match mode {
        SpawnAddMode::Single => "single object"@,
        SpawnAddMode::FillLevel => "fill current level"@,
    }
}

/// The plural noun of the attachment points of a placement mode.
pub open spec fn placement_plural(mode: SpawnPlacementMode) -> Seq<char> {
    match mode {
        SpawnPlacementMode::Vertex => "vertices"@,
        SpawnPlacementMode::Edge => "edges"@,
        SpawnPlacementMode::Face => "faces"@,
    }
}

/// The name of a shape kind as the status messages print it.
pub open spec fn shape_kind_name(kind: ShapeKind) -> Seq<char> {
    match kind {
        ShapeKind::Cube => "Cube"@,
        ShapeKind::Tetrahedron => "Tetrahedron"@,
        ShapeKind::Octahedron => "Octahedron"@,
        ShapeKind::Dodecahedron => "Dodecahedron"@,
    }
}

/// The name of a shape kind as the status messages print it.
pub fn shape_kind_name_text(kind: ShapeKind) -> (name: &'static str)
    ensures
        name@ == shape_kind_name(kind),
{
    match kind {
        ShapeKind::Cube => "Cube",
        ShapeKind::Tetrahedron => "Tetrahedron",
        ShapeKind::Octahedron => "Octahedron",
        ShapeKind::Dodecahedron => "Dodecahedron",
    }
}

/// Status after switching the add mode.
pub fn spawn_add_mode_status_message(mode: SpawnAddMode) -> (message: String)
    ensures
        message@ == "Ctrl+Space add mode: "@ + add_mode_label(mode),
{
    let mut message = String::new();
    push_str(&mut message, "Ctrl+Space add mode: ");
    push_str(&mut message, mode.label());
    message
}

/// Status after switching the placement mode.
pub fn spawn_placement_mode_status_message(mode: SpawnPlacementMode) -> (message: String)
    ensures
        message@ == "Spawn placement mode: "@ + placement_plural(mode),
{
    let mut message = String::new();
    push_str(&mut message, "Spawn placement mode: ");
    push_str(&mut message, mode.plural_label());
    message
}

/// Status after selecting the child shape.
pub fn selected_child_shape_status_message(kind: ShapeKind) -> (message: String)
    ensures
        message@ == "Selected child shape: "@ + shape_kind_name(kind),
{
    let mut message = String::new();
    push_str(&mut message, "Selected child shape: ");
    push_str(&mut message, shape_kind_name_text(kind));
    message
}

/// Status after rewinding the single-spawn frontier.
pub fn spawn_frontier_rewind_status_message() -> (message: &'static str)
    ensures
        message@ == "Single-spawn frontier rewound to the root"@,
{
    "Single-spawn frontier rewound to the root"
}

/// Status for the single-spawn attachment capacity `repeat_count`; zero means no limit.
pub open spec fn repeat_count_message(repeat_count: nat) -> Seq<char> {
    if repeat_count == 0 {
        "Single-spawn attachment capacity: unlimited (never advance automatically)"@
    } else if repeat_count == 1 {
        "Single-spawn attachment capacity: 1 child"@
    } else {
        "Single-spawn attachment capacity: "@ + decimal(repeat_count) + " children"@
    }
}

/// Status for the single-spawn attachment capacity `repeat_count`; zero means no limit.
pub fn single_attachment_repeat_count_status_message(repeat_count: usize) -> (message: String)
    ensures
        message@ == repeat_count_message(repeat_count as nat),
{
    let mut message = String::new();
    if repeat_count == 0 {
        push_str(&mut message, "Single-spawn attachment capacity: unlimited (never advance automatically)");
    } else if repeat_count == 1 {
        push_str(&mut message, "Single-spawn attachment capacity: 1 child");
    } else {
        push_str(&mut message, "Single-spawn attachment capacity: ");
        push_decimal(&mut message, repeat_count as u64);
        push_str(&mut message, " children");
    }
    message
}

/// The capacity after the decrease and increase keys fired this frame, or `None`
/// when it does not change: a decrease stops at zero, an increase at the largest
/// count, and an increase wins over a decrease in the same frame.
pub fn next_repeat_count(current: usize, decrease: bool, increase: bool) -> (next: Option<usize>)
    ensures
        next == {
            let wanted: Option<int> = if increase {
                Some(if current == usize::MAX { current as int } else { current + 1 })
            } else if decrease {
                Some(if current == 0 { 0 } else { current - 1 })
            } else {
                None
            };
            match wanted {
                Some(value) if value != current => Some(value as usize),
                _ => None,
            }
        },
{
    let mut wanted: Option<usize> = None;
    if decrease {
        wanted = Some(current.saturating_sub(1));
    }
    if increase {
        wanted = Some(current.saturating_add(1));
    }
    match wanted {
        Some(value) => if value == current { None } else { Some(value) },
        None => None,
    }
}

/// Status after a spawn: one shape, or several when the add mode filled a level.
pub open spec fn spawn_summary_message(count: nat, kind: ShapeKind, level: nat, parent_level: nat, add_mode: SpawnAddMode) -> Seq<char> {
    if count == 1 {
        "Spawned "@ + shape_kind_name(kind) + " at level "@ + decimal(level) + " from parent level "@ + decimal(parent_level)
    } else {
        "Spawned "@ + decimal(count) + seq![' '] + shape_kind_name(kind) + " objects at level "@ + decimal(level)
            + " from parent level "@ + decimal(parent_level) + " ("@ + add_mode_label(add_mode) + seq![')']
    }
}

/// Status after a spawn of `count` shapes of kind `kind`, the first at `level` from a
/// parent at `parent_level`.
pub fn spawn_summary_status_message(
    count: usize,
    kind: ShapeKind,
    level: usize,
    parent_level: usize,
    add_mode: SpawnAddMode,
) -> (message: String)
    requires
        count >= 1,
    ensures
        message@ == spawn_summary_message(count as nat, kind, level as nat, parent_level as nat, add_mode),
{
    let mut message = String::new();
    push_str(&mut message, "Spawned ");
    if count == 1 {
        push_str(&mut message, shape_kind_name_text(kind));
        push_str(&mut message, " at level ");
        push_decimal(&mut message, level as u64);
        push_str(&mut message, " from parent level ");
        push_decimal(&mut message, parent_level as u64);
    } else {
        push_decimal(&mut message, count as u64);
        push_str(&mut message, " ");
        push_str(&mut message, shape_kind_name_text(kind));
        push_str(&mut message, " objects at level ");
        push_decimal(&mut message, level as u64);
        push_str(&mut message, " from parent level ");
        push_decimal(&mut message, parent_level as u64);
        push_str(&mut message, " (");
        push_str(&mut message, add_mode.label());
        push_str(&mut message, ")");
    }
    proof {
        broadcast use vstd::string::group_string_axioms;
        reveal_strlit(" ");
        reveal_strlit(")");
    }
    message
}

} // verus!
