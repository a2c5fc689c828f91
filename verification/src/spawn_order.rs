//! Which attachment points of the shape tree are free, and the order in which a new
//! child tries them: level by level from the root, parents in creation order,
//! attachment points in index order.
use vstd::prelude::*;
use crate::choices::SpawnPlacementMode;

verus! {

/// An attachment point of a shape: a vertex, edge or face, by index.
#[derive(Clone, Copy, Debug, PartialEq, Eq, Structural)]
pub struct SpawnAttachment {
    pub mode: SpawnPlacementMode,
    pub index: usize,
}

/// Which attachment points of one shape already carry a child.
#[derive(Debug)]
pub struct AttachmentOccupancy {
    pub vertices: Vec<bool>,
    pub edges: Vec<bool>,
    pub faces: Vec<bool>,
}

/// The occupancy flags of the attachment points of `mode`.
pub open spec fn attachment_slots(occupancy: AttachmentOccupancy, mode: SpawnPlacementMode) -> Seq<bool> {
    match mode {
        SpawnPlacementMode::Vertex => occupancy.vertices@,
        SpawnPlacementMode::Edge => occupancy.edges@,
        SpawnPlacementMode::Face => occupancy.faces@,
    }
}

/// `count` free attachment points.
fn free_slots(count: usize) -> (slots: Vec<bool>)
    ensures
        slots@.len() == count,
        forall|i: int| 0 <= i < count ==> !#[trigger] slots@[i],
{
    let mut slots: Vec<bool> = Vec::new();
    let mut i: usize = 0;
    while i < count
        invariant
            i <= count,
            slots@.len() == i,
            forall|j: int| 0 <= j < i ==> !#[trigger] slots@[j],
        decreases count - i,
    {
        slots.push(false);
        i += 1;
    }
    slots
}

impl AttachmentOccupancy {
    /// A shape with the given numbers of vertices, edges and faces, none occupied.
    pub fn new(vertex_count: usize, edge_count: usize, face_count: usize) -> (occupancy: AttachmentOccupancy)
        ensures
            occupancy.vertices@.len() == vertex_count,
            occupancy.edges@.len() == edge_count,
            occupancy.faces@.len() == face_count,
            forall|mode: SpawnPlacementMode, i: int|
                0 <= i < attachment_slots(occupancy, mode).len() ==> !#[trigger] attachment_slots(occupancy, mode)[i],
    {
        AttachmentOccupancy {
            vertices: free_slots(vertex_count),
            edges: free_slots(edge_count),
            faces: free_slots(face_count),
        }
    }

    /// How many attachment points of `mode` the shape has.
    pub fn attachment_count(&self, mode: SpawnPlacementMode) -> (count: usize)
        ensures
            count == attachment_slots(*self, mode).len(),
    {
        match mode {
            SpawnPlacementMode::Vertex => self.vertices.len(),
            SpawnPlacementMode::Edge => self.edges.len(),
            SpawnPlacementMode::Face => self.faces.len(),
        }
    }

    /// Whether the attachment point carries a child.
    pub fn is_occupied(&self, attachment: SpawnAttachment) -> (occupied: bool)
        requires
            attachment.index < attachment_slots(*self, attachment.mode).len(),
        ensures
            occupied == attachment_slots(*self, attachment.mode)[attachment.index as int],
    {
        match attachment.mode {
            SpawnPlacementMode::Vertex => self.vertices[attachment.index],
            SpawnPlacementMode::Edge => self.edges[attachment.index],
            SpawnPlacementMode::Face => self.faces[attachment.index],
        }
    }

    /// Marks the attachment point as carrying a child.
    pub fn mark_occupied(&mut self, attachment: SpawnAttachment)
        requires
            attachment.index < attachment_slots(*old(self), attachment.mode).len(),
        ensures
            attachment_slots(*final(self), attachment.mode)
                == attachment_slots(*old(self), attachment.mode).update(attachment.index as int, true),
            forall|mode: SpawnPlacementMode| mode != attachment.mode
                ==> #[trigger] attachment_slots(*final(self), mode) == attachment_slots(*old(self), mode),
    {
        match attachment.mode {
            SpawnPlacementMode::Vertex => self.vertices.set(attachment.index, true),
            SpawnPlacementMode::Edge => self.edges.set(attachment.index, true),
            SpawnPlacementMode::Face => self.faces.set(attachment.index, true),
        }
    }
}

/// Which levels a spawn may attach to.
#[derive(Clone, Copy, Debug, PartialEq, Eq, Structural)]
pub enum SpawnLevelConstraint {
    /// Any level, lowest first.
    Any,
    /// Only children at this level, that is parents one level up.
    Exact(usize),
}

/// The highest level among `levels`, zero when there is none.
pub open spec fn highest_level(levels: Seq<usize>) -> int
    decreases levels.len(),
{
    if levels.len() == 0 {
        0
    } else {
        let rest = highest_level(levels.drop_last());
        if levels.last() > rest { levels.last() as int } else { rest }
    }
}

/// The lowest and highest parent level a spawn may use, or `None` when no parent
/// level qualifies.
pub open spec fn parent_level_range(levels: Seq<usize>, constraint: SpawnLevelConstraint) -> Option<(int, int)> {
    match constraint {
        SpawnLevelConstraint::Any => Some((0, highest_level(levels))),
        SpawnLevelConstraint::Exact(target) => if target == 0 || target - 1 > highest_level(levels) {
            None
        } else {
            Some((target - 1, target - 1))
        },
    }
}

/// Attachment point `attachment` of shape `parent` is free and its parent's level lies
/// in `lowest ..= highest`.
pub open spec fn is_spawn_candidate(
    levels: Seq<usize>,
    occupancy: Seq<AttachmentOccupancy>,
    mode: SpawnPlacementMode,
    lowest: int,
    highest: int,
    parent: int,
    attachment: int,
) -> bool {
    &&& 0 <= parent < levels.len()
    &&& lowest <= levels[parent] <= highest
    &&& 0 <= attachment < attachment_slots(occupancy[parent], mode).len()
    &&& !attachment_slots(occupancy[parent], mode)[attachment]
}

/// `(level, parent, attachment)` comes before `(other_level, other_parent,
/// other_attachment)`: lower level first, then lower parent index, then lower
/// attachment index.
pub open spec fn tried_before(level: int, parent: int, attachment: int, other_level: int, other_parent: int, other_attachment: int) -> bool {
    level < other_level || (level == other_level && (parent < other_parent || (parent == other_parent
        && attachment < other_attachment)))
}

/// `order` lists exactly the candidates, each once, lower level first, then lower
/// parent index, then lower attachment index.
pub open spec fn searched_in_order(
    levels: Seq<usize>,
    occupancy: Seq<AttachmentOccupancy>,
    mode: SpawnPlacementMode,
    lowest: int,
    highest: int,
    order: Seq<(usize, usize)>,
) -> bool {
    &&& forall|i: int| 0 <= i < order.len()
        ==> is_spawn_candidate(levels, occupancy, mode, lowest, highest, #[trigger] order[i].0 as int, order[i].1 as int)
    &&& forall|i: int, j: int| 0 <= i < j < order.len() ==> tried_before(
        levels[order[i].0 as int] as int,
        #[trigger] order[i].0 as int,
        order[i].1 as int,
        levels[order[j].0 as int] as int,
        #[trigger] order[j].0 as int,
        order[j].1 as int,
    )
    &&& forall|parent: int, attachment: int|
        #[trigger] is_spawn_candidate(levels, occupancy, mode, lowest, highest, parent, attachment)
        ==> order.contains((parent as usize, attachment as usize))
}

/// The highest level among `levels`, zero when there is none.
fn highest_of(levels: &Vec<usize>) -> (highest: usize)
    ensures
        highest == highest_level(levels@),
        forall|i: int| 0 <= i < levels@.len() ==> levels@[i] <= highest,
{
    let mut highest: usize = 0;
    let mut i: usize = 0;
    while i < levels.len()
        invariant
            i <= levels@.len(),
            highest == highest_level(levels@.subrange(0, i as int)),
            forall|j: int| 0 <= j < i ==> levels@[j] <= highest,
        decreases levels@.len() - i,
    {
        assert(levels@.subrange(0, i + 1).drop_last() == levels@.subrange(0, i as int));
        if levels[i] > highest {
            highest = levels[i];
        }
        i += 1;
    }
    assert(levels@.subrange(0, i as int) == levels@);
    highest
}

/// The free attachment points that a new child of `mode` may use, in the order in
/// which they are tried: lower parent level first, then lower parent index, then
/// lower attachment index. `levels[p]` is the level of shape `p`, `occupancy[p]` its
/// attachment points.
pub fn spawn_candidates(
    levels: &Vec<usize>,
    occupancy: &Vec<AttachmentOccupancy>,
    mode: SpawnPlacementMode,
    constraint: SpawnLevelConstraint,
) -> (order: Vec<(usize, usize)>)
    requires
        levels@.len() == occupancy@.len(),
    ensures
        match parent_level_range(levels@, constraint) {
            None => order@.len() == 0,
            Some((lowest, highest)) => searched_in_order(levels@, occupancy@, mode, lowest, highest, order@),
        },
{
    let highest = highest_of(levels);
    let (lowest, top): (usize, usize) = match constraint {
        SpawnLevelConstraint::Any => (0, highest),
        SpawnLevelConstraint::Exact(target) => {
            if target == 0 || target - 1 > highest {
                return Vec::new();
            }
            (target - 1, target - 1)
        },
    };
    let mut order: Vec<(usize, usize)> = Vec::new();
    let mut level: usize = lowest;
    loop
        invariant_except_break
            lowest <= level <= top,
            top <= highest,
            highest == highest_level(levels@),
            forall|i: int| 0 <= i < levels@.len() ==> levels@[i] <= highest,
            levels@.len() == occupancy@.len(),
            searched_before(levels@, occupancy@, mode, lowest as int, top as int, order@, level as int, 0, 0),
        ensures
            searched_in_order(levels@, occupancy@, mode, lowest as int, top as int, order@),
        decreases top - level,
    {
        let mut parent: usize = 0;
        while parent < levels.len()
            invariant
                lowest <= level <= top,
                parent <= levels@.len(),
                levels@.len() == occupancy@.len(),
                searched_before(levels@, occupancy@, mode, lowest as int, top as int, order@, level as int, parent as int, 0),
            decreases levels@.len() - parent,
        {
            if levels[parent] == level {
                let count = occupancy[parent].attachment_count(mode);
                let mut attachment: usize = 0;
                while attachment < count
                    invariant
                        lowest <= level <= top,
                        parent < levels@.len(),
                        levels@.len() == occupancy@.len(),
                        levels@[parent as int] == level,
                        count == attachment_slots(occupancy@[parent as int], mode).len(),
                        attachment <= count,
                        searched_before(levels@, occupancy@, mode, lowest as int, top as int, order@, level as int, parent as int, attachment as int),
                    decreases count - attachment,
                {
                    let taken = occupancy[parent].is_occupied(SpawnAttachment { mode, index: attachment });
                    if !taken {
                        proof {
                            lemma_push_candidate(levels@, occupancy@, mode, lowest as int, top as int, order@, level as int, parent as int, attachment as int);
                        }
                        order.push((parent, attachment));
                    }
                    proof {
                        lemma_step_attachment(levels@, occupancy@, mode, lowest as int, top as int, order@, level as int, parent as int, attachment as int);
                    }
                    attachment += 1;
                }
                proof {
                    lemma_next_parent(levels@, occupancy@, mode, lowest as int, top as int, order@, level as int, parent as int, attachment as int);
                }
            } else {
                proof {
                    lemma_next_parent(levels@, occupancy@, mode, lowest as int, top as int, order@, level as int, parent as int, 0);
                }
            }
            parent += 1;
        }
        proof {
            lemma_next_level(levels@, occupancy@, mode, lowest as int, top as int, order@, level as int);
        }
        if level == top {
            proof {
                lemma_search_complete(levels@, occupancy@, mode, lowest as int, top as int, order@);
            }
            break;
        }
        level += 1;
    }
    order
}

/// `order` lists exactly the candidates tried before `(level, parent, attachment)`,
/// each once, in the order they are tried.
pub open spec fn searched_before(
    levels: Seq<usize>,
    occupancy: Seq<AttachmentOccupancy>,
    mode: SpawnPlacementMode,
    lowest: int,
    highest: int,
    order: Seq<(usize, usize)>,
    level: int,
    parent: int,
    attachment: int,
) -> bool {
    &&& forall|i: int| 0 <= i < order.len() ==> {
        &&& is_spawn_candidate(levels, occupancy, mode, lowest, highest, #[trigger] order[i].0 as int, order[i].1 as int)
        &&& tried_before(levels[order[i].0 as int] as int, order[i].0 as int, order[i].1 as int, level, parent, attachment)
    }
    &&& forall|i: int, j: int| 0 <= i < j < order.len() ==> tried_before(
        levels[order[i].0 as int] as int,
        #[trigger] order[i].0 as int,
        order[i].1 as int,
        levels[order[j].0 as int] as int,
        #[trigger] order[j].0 as int,
        order[j].1 as int,
    )
    &&& forall|p: int, a: int|
        #[trigger] is_spawn_candidate(levels, occupancy, mode, lowest, highest, p, a)
            && tried_before(levels[p] as int, p, a, level, parent, attachment)
        ==> order.contains((p as usize, a as usize))
}

proof fn lemma_push_candidate(
    levels: Seq<usize>,
    occupancy: Seq<AttachmentOccupancy>,
    mode: SpawnPlacementMode,
    lowest: int,
    highest: int,
    order: Seq<(usize, usize)>,
    level: int,
    parent: int,
    attachment: int,
)
    requires
        searched_before(levels, occupancy, mode, lowest, highest, order, level, parent, attachment),
        is_spawn_candidate(levels, occupancy, mode, lowest, highest, parent, attachment),
        levels[parent] == level,
        0 <= parent <= usize::MAX,
        0 <= attachment <= usize::MAX,
    ensures
        searched_before(levels, occupancy, mode, lowest, highest, order.push((parent as usize, attachment as usize)), level, parent, attachment + 1),
{
    let next = order.push((parent as usize, attachment as usize));
    assert(next[order.len() as int] == (parent as usize, attachment as usize));
    assert forall|i: int, j: int| 0 <= i < j < next.len() implies tried_before(
        levels[next[i].0 as int] as int,
        #[trigger] next[i].0 as int,
        next[i].1 as int,
        levels[next[j].0 as int] as int,
        #[trigger] next[j].0 as int,
        next[j].1 as int,
    ) by {
        assert(next[i] == order[i]);
        if j < order.len() {
            assert(next[j] == order[j]);
        }
    }
    assert forall|p: int, a: int|
        #[trigger] is_spawn_candidate(levels, occupancy, mode, lowest, highest, p, a)
            && tried_before(levels[p] as int, p, a, level, parent, attachment + 1)
        implies next.contains((p as usize, a as usize)) by {
        if p == parent && a == attachment {
            assert(next[order.len() as int] == (p as usize, a as usize));
        } else {
            assert(order.contains((p as usize, a as usize)));
            let k = choose|k: int| 0 <= k < order.len() && order[k] == (p as usize, a as usize);
            assert(next[k] == order[k]);
        }
    }
    assert forall|i: int| 0 <= i < next.len() implies {
        &&& is_spawn_candidate(levels, occupancy, mode, lowest, highest, #[trigger] next[i].0 as int, next[i].1 as int)
        &&& tried_before(levels[next[i].0 as int] as int, next[i].0 as int, next[i].1 as int, level, parent, attachment + 1)
    } by {
        if i < order.len() {
            assert(next[i] == order[i]);
        }
    }
}

proof fn lemma_step_attachment(
    levels: Seq<usize>,
    occupancy: Seq<AttachmentOccupancy>,
    mode: SpawnPlacementMode,
    lowest: int,
    highest: int,
    order: Seq<(usize, usize)>,
    level: int,
    parent: int,
    attachment: int,
)
    requires
        searched_before(levels, occupancy, mode, lowest, highest, order, level, parent, attachment)
            || searched_before(levels, occupancy, mode, lowest, highest, order, level, parent, attachment + 1),
        0 <= parent < levels.len(),
        levels[parent] == level,
        0 <= attachment < attachment_slots(occupancy[parent], mode).len(),
        order.len() > 0 && order.last() == (parent as usize, attachment as usize)
            || attachment_slots(occupancy[parent], mode)[attachment]
            || !is_spawn_candidate(levels, occupancy, mode, lowest, highest, parent, attachment)
            || searched_before(levels, occupancy, mode, lowest, highest, order, level, parent, attachment + 1),
    ensures
        searched_before(levels, occupancy, mode, lowest, highest, order, level, parent, attachment + 1),
{
    if !searched_before(levels, occupancy, mode, lowest, highest, order, level, parent, attachment + 1) {
        assert forall|p: int, a: int|
            #[trigger] is_spawn_candidate(levels, occupancy, mode, lowest, highest, p, a)
                && tried_before(levels[p] as int, p, a, level, parent, attachment + 1)
            implies order.contains((p as usize, a as usize)) by {
            if !(p == parent && a == attachment) {
                assert(tried_before(levels[p] as int, p, a, level, parent, attachment));
            } else {
                if order.len() > 0 && order.last() == (parent as usize, attachment as usize) {
                    assert(order[order.len() - 1] == (p as usize, a as usize));
                }
            }
        }
    }
}

proof fn lemma_next_parent(
    levels: Seq<usize>,
    occupancy: Seq<AttachmentOccupancy>,
    mode: SpawnPlacementMode,
    lowest: int,
    highest: int,
    order: Seq<(usize, usize)>,
    level: int,
    parent: int,
    attachment: int,
)
    requires
        searched_before(levels, occupancy, mode, lowest, highest, order, level, parent, attachment),
        0 <= parent < levels.len(),
        levels[parent] == level ==> attachment == attachment_slots(occupancy[parent], mode).len(),
        levels[parent] != level ==> attachment == 0,
    ensures
        searched_before(levels, occupancy, mode, lowest, highest, order, level, parent + 1, 0),
{
    assert forall|p: int, a: int|
        #[trigger] is_spawn_candidate(levels, occupancy, mode, lowest, highest, p, a)
            && tried_before(levels[p] as int, p, a, level, parent + 1, 0)
        implies order.contains((p as usize, a as usize)) by {
        assert(tried_before(levels[p] as int, p, a, level, parent, attachment));
    }
}

proof fn lemma_next_level(
    levels: Seq<usize>,
    occupancy: Seq<AttachmentOccupancy>,
    mode: SpawnPlacementMode,
    lowest: int,
    highest: int,
    order: Seq<(usize, usize)>,
    level: int,
)
    requires
        searched_before(levels, occupancy, mode, lowest, highest, order, level, levels.len() as int, 0),
    ensures
        searched_before(levels, occupancy, mode, lowest, highest, order, level + 1, 0, 0),
{
    assert forall|p: int, a: int|
        #[trigger] is_spawn_candidate(levels, occupancy, mode, lowest, highest, p, a)
            && tried_before(levels[p] as int, p, a, level + 1, 0, 0)
        implies order.contains((p as usize, a as usize)) by {
        assert(tried_before(levels[p] as int, p, a, level, levels.len() as int, 0));
    }
}

proof fn lemma_search_complete(
    levels: Seq<usize>,
    occupancy: Seq<AttachmentOccupancy>,
    mode: SpawnPlacementMode,
    lowest: int,
    highest: int,
    order: Seq<(usize, usize)>,
)
    requires
        searched_before(levels, occupancy, mode, lowest, highest, order, highest + 1, 0, 0),
    ensures
        searched_in_order(levels, occupancy, mode, lowest, highest, order),
{
    assert forall|p: int, a: int|
        #[trigger] is_spawn_candidate(levels, occupancy, mode, lowest, highest, p, a)
        implies order.contains((p as usize, a as usize)) by {
        assert(tried_before(levels[p] as int, p, a, highest + 1, 0, 0));
    }
}

/// Lower levels are tried first: in the search order a parent's level never
/// decreases, so every free point of the root level is tried before any point of
/// level one.
pub proof fn lower_levels_are_tried_first(
    levels: Seq<usize>,
    occupancy: Seq<AttachmentOccupancy>,
    mode: SpawnPlacementMode,
    lowest: int,
    highest: int,
    order: Seq<(usize, usize)>,
    i: int,
    j: int,
)
    requires
        searched_in_order(levels, occupancy, mode, lowest, highest, order),
        0 <= i < j < order.len(),
    ensures
        levels[order[i].0 as int] <= levels[order[j].0 as int],
{
    assert(tried_before(
        levels[order[i].0 as int] as int,
        order[i].0 as int,
        order[i].1 as int,
        levels[order[j].0 as int] as int,
        order[j].0 as int,
        order[j].1 as int,
    ));
}

} // verus!
