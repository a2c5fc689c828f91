//! Enumerated scene settings, their display text, and cycling through a fixed
//! list of choices.
use vstd::prelude::*;

verus! {

/// A value that can be compared for equality in executable code.
pub trait ChoiceValue: Copy {
    /// Whether `self` and `other` are the same value.
    fn same_as(&self, other: &Self) -> (same: bool)
        ensures
            same == (*self == *other);
}

impl ChoiceValue for bool {
    fn same_as(&self, other: &Self) -> (same: bool) {
        *self == *other
    }
}

/// The index at which cycling starts: the first position of `current` in `all`, or 0 when
/// `current` is not listed.
pub open spec fn start_index<T>(all: Seq<T>, current: T) -> int {
    if exists|i: int| 0 <= i < all.len() && all[i] == current {
        choose|i: int| 0 <= i < all.len() && all[i] == current && forall|j: int| 0 <= j < i ==> all[j] != current
    } else {
        0
    }
}

/// The choice `direction` steps away from `current`, wrapping around the list.
pub open spec fn cycled<T>(all: Seq<T>, current: T, direction: int) -> T {
    all[(start_index(all, current) + direction) % (all.len() as int)]
}

/// `value` reduced modulo `len` into `0 .. len`.
pub fn wrap_index(value: i128, len: usize) -> (index: usize)
    requires
        0 < len <= isize::MAX,
    ensures
        index as int == value as int % len as int,
        index < len,
{
    let rem = value.checked_rem_euclid(len as i128);
    match rem {
        Some(r) => r as usize,
        None => 0,
    }
}

/// `a % n == a` for `0 <= a < n`, and `n % n == 0`.
pub proof fn lemma_mod_in_range(a: int, n: int)
    requires
        0 <= a <= n,
        n > 0,
    ensures
        a % n == (if a == n { 0 } else { a }),
{
    if a == n {
        assert(a % n == 0) by (nonlinear_arith)
            requires a == n, n > 0;
    } else {
        assert(a % n == a) by (nonlinear_arith)
            requires 0 <= a < n;
    }
}

/// The start index of a listed value is its first position.
pub proof fn lemma_start_index<T>(all: Seq<T>, current: T, i: int)
    requires
        0 <= i < all.len(),
        all[i] == current,
        forall|j: int| 0 <= j < i ==> all[j] != current,
    ensures
        start_index(all, current) == i,
{
    let c = choose|c: int| 0 <= c < all.len() && all[c] == current && forall|j: int| 0 <= j < c ==> all[j] != current;
    assert(c == i) by {
        if c < i {
            assert(all[c] != current);
        } else if i < c {
            assert(all[i] != current);
        }
    }
}

/// The start index of a list that lists nothing twice is the position of the value.
proof fn lemma_start_index_of_distinct<T>(all: Seq<T>, i: int)
    requires
        all.no_duplicates(),
        0 <= i < all.len(),
    ensures
        start_index(all, all[i]) == i,
{
    assert forall|j: int| 0 <= j < i implies all[j] != all[i] by {}
    lemma_start_index(all, all[i], i);
}

/// The start index always lies in the list of a non-empty list.
proof fn lemma_start_index_in_range<T>(all: Seq<T>, current: T)
    requires
        all.len() > 0,
    ensures
        0 <= start_index(all, current) < all.len(),
{
    if exists|i: int| 0 <= i < all.len() && all[i] == current {
        let w = choose|w: int| 0 <= w < all.len() && all[w] == current;
        let f = first_index_at_most(all, current, w);
        lemma_start_index(all, current, f);
    }
}

/// The first position at or before `w` that holds `current`, given that `w` holds it.
proof fn first_index_at_most<T>(all: Seq<T>, current: T, w: int) -> (f: int)
    requires
        0 <= w < all.len(),
        all[w] == current,
    ensures
        0 <= f <= w,
        all[f] == current,
        forall|j: int| 0 <= j < f ==> all[j] != current,
    decreases w,
{
    if exists|j: int| 0 <= j < w && all[j] == current {
        let j = choose|j: int| 0 <= j < w && all[j] == current;
        first_index_at_most(all, current, j)
    } else {
        w
    }
}

/// Cycling through a non-empty list that lists nothing twice: the result is always
/// listed; cycling by any step and then by the opposite step returns the listed start;
/// and a full turn of the list's length returns it too.
pub proof fn cycling_back_undoes_cycling_forward<T>(all: Seq<T>, current: T, direction: int)
    requires
        all.len() > 0,
        all.no_duplicates(),
    ensures
        all.contains(cycled(all, current, direction)),
        all.contains(current) ==> cycled(all, cycled(all, current, direction), -direction) == current,
        all.contains(current) ==> cycled(all, current, all.len() as int) == current,
{
    broadcast use vstd::arithmetic::div_mod::lemma_mod_bound;
    let n = all.len() as int;
    lemma_start_index_in_range(all, current);
    let i = start_index(all, current);
    let k = (i + direction) % n;
    assert(0 <= k < n);
    assert(all[k] == cycled(all, current, direction));
    if all.contains(current) {
        let w = choose|w: int| 0 <= w < n && all[w] == current;
        lemma_start_index_of_distinct(all, w);
        assert(i == w);
        lemma_start_index_of_distinct(all, k);
        vstd::arithmetic::div_mod::lemma_fundamental_div_mod(i + direction, n);
        let q = (i + direction) / n;
        assert(k - direction == n * (-q) + i) by (nonlinear_arith)
            requires
                i + direction == n * q + k;
        vstd::arithmetic::div_mod::lemma_mod_multiples_vanish(-q, i, n);
        lemma_mod_in_range(i, n);
        vstd::arithmetic::div_mod::lemma_mod_multiples_vanish(1, i, n);
        assert(n * 1 + i == i + n);
    }
}

/// First position of `target` in `items`.
pub fn first_position<T: ChoiceValue>(items: &[T], target: T) -> (found: Option<usize>)
    ensures
        match found {
            Some(i) => i < items@.len() && items@[i as int] == target
                && forall|j: int| 0 <= j < i ==> items@[j] != target,
            None => forall|j: int| 0 <= j < items@.len() ==> items@[j] != target,
        },
{
    let mut i: usize = 0;
    while i < items.len()
        invariant
            i <= items@.len(),
            forall|j: int| 0 <= j < i ==> items@[j] != target,
        decreases items@.len() - i,
    {
        if items[i].same_as(&target) {
            return Some(i);
        }
        i += 1;
    }
    None
}

/// Steps `direction` places from `current` through `all`, wrapping around; a value
/// missing from `all` counts as its first entry.
pub fn cycle_from_all<T: ChoiceValue>(all: &[T], current: T, direction: isize) -> (next: T)
    requires
        0 < all@.len() <= isize::MAX,
    ensures
        next == cycled(all@, current, direction as int),
{
    let current_index: usize = match first_position(all, current) {
        Some(i) => {
            proof {
                lemma_start_index(all@, current, i as int);
            }
            i
        },
        None => 0,
    };
    let next_index = wrap_index(current_index as i128 + direction as i128, all.len());
    all[next_index]
}

/// Flips a switch when `direction` is odd; an even direction keeps it.
pub fn cycle_bool(current: bool, direction: isize) -> (next: bool)
    ensures
        next == cycled(seq![false, true], current, direction as int),
{
    let all: [bool; 2] = [false, true];
    cycle_from_all(&all, current, direction)
}

/// Text shown for a switch value.
pub fn boolean_value_text(enabled: bool) -> (text: &'static str)
    ensures
        text == (if enabled { "on" } else { "off" }),
{
    if enabled { "on" } else { "off" }
}

/// The solid used for new shapes.
#[derive(Clone, Copy, Debug, PartialEq, Eq, Structural)]
pub enum ShapeKind {
    Cube,
    Tetrahedron,
    Octahedron,
    Dodecahedron,
}

/// Where children attach on their parent.
#[derive(Clone, Copy, Debug, PartialEq, Eq, Structural)]
pub enum SpawnPlacementMode {
    Vertex,
    Edge,
    Face,
}

/// How many shapes one add command creates.
#[derive(Clone, Copy, Debug, PartialEq, Eq, Structural)]
pub enum SpawnAddMode {
    Single,
    FillLevel,
}

/// Whether materials use the legacy look or procedural surfaces.
#[derive(Clone, Copy, Debug, PartialEq, Eq, Structural)]
pub enum MaterialSurfaceMode {
    Legacy,
    Procedural,
}

/// A procedural surface family.
#[derive(Clone, Copy, Debug, PartialEq, Eq, Structural)]
pub enum MaterialSurfaceFamily {
    Legacy,
    Matte,
    Satin,
    Glossy,
    Metal,
    Frosted,
}

/// The surface family of shapes at `level`: the legacy look in legacy mode; in
/// procedural mode the root family at level 0 when it is procedural, the accent family
/// on every `accent_every_n_levels`-th level above the root when it is procedural, and
/// the base family otherwise.
pub open spec fn spec_surface_family(
    mode: MaterialSurfaceMode,
    root: MaterialSurfaceFamily,
    base: MaterialSurfaceFamily,
    accent: MaterialSurfaceFamily,
    accent_every_n_levels: nat,
    level: nat,
) -> MaterialSurfaceFamily {
    match mode {
        MaterialSurfaceMode::Legacy => MaterialSurfaceFamily::Legacy,
        MaterialSurfaceMode::Procedural => {
            if level == 0 && root != MaterialSurfaceFamily::Legacy {
                root
            } else if accent_every_n_levels > 0 && level > 0 && level % accent_every_n_levels == 0
                && accent != MaterialSurfaceFamily::Legacy {
                accent
            } else {
                base
            }
        },
    }
}

/// The surface family of shapes at `level` under the given material surface settings.
pub fn surface_family(
    mode: MaterialSurfaceMode,
    root: MaterialSurfaceFamily,
    base: MaterialSurfaceFamily,
    accent: MaterialSurfaceFamily,
    accent_every_n_levels: usize,
    level: usize,
) -> (family: MaterialSurfaceFamily)
    ensures
        family == spec_surface_family(mode, root, base, accent, accent_every_n_levels as nat, level as nat),
{
    match mode {
        MaterialSurfaceMode::Legacy => MaterialSurfaceFamily::Legacy,
        MaterialSurfaceMode::Procedural => {
            if level == 0 && root != MaterialSurfaceFamily::Legacy {
                return root;
            }
            if accent_every_n_levels > 0 && level > 0 && level % accent_every_n_levels == 0
                && accent != MaterialSurfaceFamily::Legacy {
                return accent;
            }
            base
        },
    }
}

impl ChoiceValue for ShapeKind {
    fn same_as(&self, other: &Self) -> (same: bool) {
        *self == *other
    }
}

impl ChoiceValue for SpawnPlacementMode {
    fn same_as(&self, other: &Self) -> (same: bool) {
        *self == *other
    }
}

impl ChoiceValue for SpawnAddMode {
    fn same_as(&self, other: &Self) -> (same: bool) {
        *self == *other
    }
}

impl ChoiceValue for MaterialSurfaceMode {
    fn same_as(&self, other: &Self) -> (same: bool) {
        *self == *other
    }
}

impl ChoiceValue for MaterialSurfaceFamily {
    fn same_as(&self, other: &Self) -> (same: bool) {
        *self == *other
    }
}

/// Every shape kind, in cycling order.
pub open spec fn shape_kinds() -> Seq<ShapeKind> {
    seq![ShapeKind::Cube, ShapeKind::Tetrahedron, ShapeKind::Octahedron, ShapeKind::Dodecahedron]
}

/// Every placement mode, in cycling order.
pub open spec fn placement_modes() -> Seq<SpawnPlacementMode> {
    seq![SpawnPlacementMode::Vertex, SpawnPlacementMode::Edge, SpawnPlacementMode::Face]
}

/// Every add mode, in cycling order.
pub open spec fn add_modes() -> Seq<SpawnAddMode> {
    seq![SpawnAddMode::Single, SpawnAddMode::FillLevel]
}

/// Every surface mode, in cycling order.
pub open spec fn surface_modes() -> Seq<MaterialSurfaceMode> {
    seq![MaterialSurfaceMode::Legacy, MaterialSurfaceMode::Procedural]
}

/// Every surface family, in cycling order.
pub open spec fn surface_families() -> Seq<MaterialSurfaceFamily> {
    seq![
        MaterialSurfaceFamily::Legacy,
        MaterialSurfaceFamily::Matte,
        MaterialSurfaceFamily::Satin,
        MaterialSurfaceFamily::Glossy,
        MaterialSurfaceFamily::Metal,
        MaterialSurfaceFamily::Frosted,
    ]
}

/// The shape kind `direction` steps away from `current`.
pub fn cycle_shape_kind(current: ShapeKind, direction: isize) -> (next: ShapeKind)
    ensures
        next == cycled(shape_kinds(), current, direction as int),
{
    let all: [ShapeKind; 4] = [ShapeKind::Cube, ShapeKind::Tetrahedron, ShapeKind::Octahedron, ShapeKind::Dodecahedron];
    cycle_from_all(&all, current, direction)
}

/// The placement mode `direction` steps away from `current`.
pub fn cycle_spawn_placement_mode(current: SpawnPlacementMode, direction: isize) -> (next: SpawnPlacementMode)
    ensures
        next == cycled(placement_modes(), current, direction as int),
{
    let all: [SpawnPlacementMode; 3] = [SpawnPlacementMode::Vertex, SpawnPlacementMode::Edge, SpawnPlacementMode::Face];
    cycle_from_all(&all, current, direction)
}

/// The add mode `direction` steps away from `current`.
pub fn cycle_spawn_add_mode(current: SpawnAddMode, direction: isize) -> (next: SpawnAddMode)
    ensures
        next == cycled(add_modes(), current, direction as int),
{
    let all: [SpawnAddMode; 2] = [SpawnAddMode::Single, SpawnAddMode::FillLevel];
    cycle_from_all(&all, current, direction)
}

/// The surface mode `direction` steps away from `current`.
pub fn cycle_material_surface_mode(current: MaterialSurfaceMode, direction: isize) -> (next: MaterialSurfaceMode)
    ensures
        next == cycled(surface_modes(), current, direction as int),
{
    let all: [MaterialSurfaceMode; 2] = [MaterialSurfaceMode::Legacy, MaterialSurfaceMode::Procedural];
    cycle_from_all(&all, current, direction)
}

/// The surface family `direction` steps away from `current`.
pub fn cycle_material_surface_family(current: MaterialSurfaceFamily, direction: isize) -> (next: MaterialSurfaceFamily)
    ensures
        next == cycled(surface_families(), current, direction as int),
{
    let all: [MaterialSurfaceFamily; 6] = [
        MaterialSurfaceFamily::Legacy,
        MaterialSurfaceFamily::Matte,
        MaterialSurfaceFamily::Satin,
        MaterialSurfaceFamily::Glossy,
        MaterialSurfaceFamily::Metal,
        MaterialSurfaceFamily::Frosted,
    ];
    cycle_from_all(&all, current, direction)
}

/// Name of a shape kind.
pub open spec fn spec_shape_kind_value_text(kind: ShapeKind) -> &'static str {
    match kind {
        ShapeKind::Cube => "cube",
        ShapeKind::Tetrahedron => "tetrahedron",
        ShapeKind::Octahedron => "octahedron",
        ShapeKind::Dodecahedron => "dodecahedron",
    }
}

/// Name of a shape kind.
pub fn shape_kind_value_text(kind: ShapeKind) -> (text: &'static str)
    ensures
        text == spec_shape_kind_value_text(kind),
{
    match kind {
        ShapeKind::Cube => "cube",
        ShapeKind::Tetrahedron => "tetrahedron",
        ShapeKind::Octahedron => "octahedron",
        ShapeKind::Dodecahedron => "dodecahedron",
    }
}

/// Name of a surface mode.
pub fn material_surface_mode_value_text(mode: MaterialSurfaceMode) -> (text: &'static str)
    ensures
        text == (match mode {
            MaterialSurfaceMode::Legacy => "legacy",
            MaterialSurfaceMode::Procedural => "procedural",
        }),
{
    match mode {
        MaterialSurfaceMode::Legacy => "legacy",
        MaterialSurfaceMode::Procedural => "procedural",
    }
}

/// Name of a surface family.
pub fn material_surface_family_value_text(family: MaterialSurfaceFamily) -> (text: &'static str)
    ensures
        text == (match family {
            MaterialSurfaceFamily::Legacy => "legacy",
            MaterialSurfaceFamily::Matte => "matte",
            MaterialSurfaceFamily::Satin => "satin",
            MaterialSurfaceFamily::Glossy => "glossy",
            MaterialSurfaceFamily::Metal => "metal",
            MaterialSurfaceFamily::Frosted => "frosted",
        }),
{
    match family {
        MaterialSurfaceFamily::Legacy => "legacy",
        MaterialSurfaceFamily::Matte => "matte",
        MaterialSurfaceFamily::Satin => "satin",
        MaterialSurfaceFamily::Glossy => "glossy",
        MaterialSurfaceFamily::Metal => "metal",
        MaterialSurfaceFamily::Frosted => "frosted",
    }
}

impl SpawnPlacementMode {
    /// The next placement mode: vertex, edge, face, then vertex again.
    pub fn next(self) -> (next: SpawnPlacementMode)
        ensures
            next == cycled(placement_modes(), self, 1),
    {
        proof {
            match self {
                SpawnPlacementMode::Vertex => {
                    lemma_start_index(placement_modes(), self, 0);
                    lemma_mod_in_range(0int + 1, 3);
                    assert(cycled(placement_modes(), self, 1) == placement_modes()[1]);
                },
                SpawnPlacementMode::Edge => {
                    lemma_start_index(placement_modes(), self, 1);
                    lemma_mod_in_range(1int + 1, 3);
                    assert(cycled(placement_modes(), self, 1) == placement_modes()[2]);
                },
                SpawnPlacementMode::Face => {
                    lemma_start_index(placement_modes(), self, 2);
                    lemma_mod_in_range(2int + 1, 3);
                    assert(cycled(placement_modes(), self, 1) == placement_modes()[0]);
                },
            }
        }
        match self {
            SpawnPlacementMode::Vertex => SpawnPlacementMode::Edge,
            SpawnPlacementMode::Edge => SpawnPlacementMode::Face,
            SpawnPlacementMode::Face => SpawnPlacementMode::Vertex,
        }
    }

    /// Plural noun for the attachment points of this mode.
    pub fn plural_label(self) -> (text: &'static str)
        ensures
            text == (match self {
                SpawnPlacementMode::Vertex => "vertices",
                SpawnPlacementMode::Edge => "edges",
                SpawnPlacementMode::Face => "faces",
            }),
    {
        match self {
            SpawnPlacementMode::Vertex => "vertices",
            SpawnPlacementMode::Edge => "edges",
            SpawnPlacementMode::Face => "faces",
        }
    }
}

impl SpawnAddMode {
    /// The other add mode.
    pub fn next(self) -> (next: SpawnAddMode)
        ensures
            next == cycled(add_modes(), self, 1),
    {
        proof {
            match self {
                SpawnAddMode::Single => {
                    lemma_start_index(add_modes(), self, 0);
                    lemma_mod_in_range(0int + 1, 2);
                    assert(cycled(add_modes(), self, 1) == add_modes()[1]);
                },
                SpawnAddMode::FillLevel => {
                    lemma_start_index(add_modes(), self, 1);
                    lemma_mod_in_range(1int + 1, 2);
                    assert(cycled(add_modes(), self, 1) == add_modes()[0]);
                },
            }
        }
        match self {
            SpawnAddMode::Single => SpawnAddMode::FillLevel,
            SpawnAddMode::FillLevel => SpawnAddMode::Single,
        }
    }

    /// Description of the add mode.
    pub fn label(self) -> (text: &'static str)
        ensures
            text == (match self {
                SpawnAddMode::Single => "single object",
                SpawnAddMode::FillLevel => "fill current level",
            }),
    {
        match self {
            SpawnAddMode::Single => "single object",
            SpawnAddMode::FillLevel => "fill current level",
        }
    }
}

} // verus!
