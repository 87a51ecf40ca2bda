use vstd::prelude::*;
use crate::grid::Coords;

verus! {

/// The body after the head moves to `head`: the new head goes in front and the
/// last segment is dropped, so the length stays the same.
pub open spec fn moved(body: Seq<Coords>, head: Coords) -> Seq<Coords> {
    seq![head] + body.drop_last()
}

/// The body after growing by a tail segment at `at`.
pub open spec fn grown(body: Seq<Coords>, at: Coords) -> Seq<Coords> {
    body.push(at)
}

/// The head shares its cell with some other segment.
pub open spec fn bites_itself(body: Seq<Coords>) -> bool {
    exists|i: int| 1 <= i < body.len() && #[trigger] body[i] == body[0]
}

/// Moves the snake so that its head is at `head`.
pub fn move_head(body: &mut Vec<Coords>, head: Coords)
    requires
        old(body)@.len() >= 1,
    ensures
        final(body)@ == moved(old(body)@, head),
{
    body.pop();
    body.insert(0, head);
    assert(final(body)@ =~= moved(old(body)@, head));
}

/// Appends a tail segment at `at`.
pub fn grow(body: &mut Vec<Coords>, at: Coords)
    ensures
        final(body)@ == grown(old(body)@, at),
{
    body.push(at);
}

/// Whether the head lies on one of the other segments.
pub fn hits_tail(body: &Vec<Coords>) -> (r: bool)
    requires
        body@.len() >= 1,
    ensures
        r == bites_itself(body@),
{
    let head = body[0];
    let mut i: usize = 1;
    while i < body.len()
        invariant
            1 <= i <= body@.len(),
            head == body@[0],
            forall|j: int| 1 <= j < i ==> body@[j] != head,
        decreases body@.len() - i,
    {
        if body[i] == head {
            return true;
        }
        i = i + 1;
    }
    false
}

/// A long straight snake for trying things out: segments at columns 1 to 34
/// of row 5, the head at column 1.
pub fn generate_debug_snake() -> (r: Vec<Coords>)
    ensures
        r@.len() == 34,
        forall|i: int| 0 <= i < 34 ==> #[trigger] r@[i] == (Coords { x: (i + 1) as usize, y: 5 }),
{
    let mut debug_snake: Vec<Coords> = Vec::new();
    let mut z: usize = 1;
    while z < 35
        invariant
            1 <= z <= 35,
            debug_snake@.len() == z - 1,
            forall|i: int| 0 <= i < z - 1 ==> #[trigger] debug_snake@[i] == (Coords { x: (i + 1) as usize, y: 5 }),
        decreases 35 - z,
    {
        debug_snake.push(Coords { x: z, y: 5 });
        z = z + 1;
    }
    debug_snake
}

/// Moving keeps the length of any snake of at least one segment.
pub proof fn lemma_move_keeps_length(body: Seq<Coords>, head: Coords)
    requires
        body.len() >= 1,
    ensures
        moved(body, head).len() == body.len(),
        moved(body, head)[0] == head,
{
}

/// Growing adds exactly one segment and leaves every existing one where it was.
pub proof fn lemma_grow_keeps_segments(body: Seq<Coords>, at: Coords)
    ensures
        grown(body, at).len() == body.len() + 1,
        forall|i: int| 0 <= i < body.len() ==> #[trigger] grown(body, at)[i] == body[i],
        grown(body, at)[body.len() as int] == at,
{
}

} // verus!
