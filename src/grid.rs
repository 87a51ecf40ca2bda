use vstd::prelude::*;

verus! {

/// A cell of the grid: column `x`, row `y`.
#[derive(Clone, Copy, Debug, PartialEq, Eq, Structural)]
pub struct Coords {
    pub x: usize,
    pub y: usize,
}

/// Where the snake heads; `Stop` pauses it in place.
#[derive(Clone, Copy, Debug, PartialEq, Eq, Structural)]
pub enum Direction {
    Up,
    Down,
    Left,
    Right,
    Stop,
}

/// The playing field: `width` columns and `height` rows, of which row 0 is
/// kept for the status line. Play happens on `[0, width) x [1, height)`, and
/// a step past an edge comes back in at the opposite edge.
#[derive(Clone, Copy, Debug, PartialEq, Eq, Structural)]
pub struct Arena {
    pub width: usize,
    pub height: usize,
}

/// True when `requested` would turn the snake straight back on itself.
pub open spec fn is_reversal(current: Direction, requested: Direction) -> bool {
    match (current, requested) {
        (Direction::Up, Direction::Down) => true,
        (Direction::Down, Direction::Up) => true,
        (Direction::Left, Direction::Right) => true,
        (Direction::Right, Direction::Left) => true,
        _ => false,
    }
}

/// The direction after asking for `requested` while heading `current`:
/// every request is honoured but a reversal, which leaves `current`.
pub open spec fn turned(current: Direction, requested: Direction) -> Direction {
    if is_reversal(current, requested) {
        current
    } else {
        requested
    }
}

/// Executable form of [`turned`].
pub fn turn(current: Direction, requested: Direction) -> (r: Direction)
    ensures
        r == turned(current, requested),
{
    match (current, requested) {
        (Direction::Up, Direction::Down) => current,
        (Direction::Down, Direction::Up) => current,
        (Direction::Left, Direction::Right) => current,
        (Direction::Right, Direction::Left) => current,
        _ => requested,
    }
}

impl Arena {
    /// Big enough to hold its centre cell inside the playing rows.
    pub open spec fn wf(self) -> bool {
        self.width >= 2 && self.height >= 4
    }

    /// `c` lies on the playing field.
    pub open spec fn contains(self, c: Coords) -> bool {
        c.x < self.width && 1 <= c.y && c.y < self.height
    }

    /// The cell where a new snake starts.
    pub open spec fn center_spec(self) -> Coords {
        Coords { x: (self.width / 2 - 1) as usize, y: (self.height / 2 - 1) as usize }
    }

    /// One step from `c` towards `d`, wrapping at the edges; `Stop` stays.
    pub open spec fn step_spec(self, c: Coords, d: Direction) -> Coords {
        match d {
            Direction::Up => if c.y <= 1 {
                Coords { x: c.x, y: (self.height - 1) as usize }
            } else {
                Coords { x: c.x, y: (c.y - 1) as usize }
            },
            Direction::Down => if c.y + 1 >= self.height {
                Coords { x: c.x, y: 1 }
            } else {
                Coords { x: c.x, y: (c.y + 1) as usize }
            },
            Direction::Left => if c.x == 0 {
                Coords { x: (self.width - 1) as usize, y: c.y }
            } else {
                Coords { x: (c.x - 1) as usize, y: c.y }
            },
            Direction::Right => if c.x + 1 >= self.width {
                Coords { x: 0, y: c.y }
            } else {
                Coords { x: (c.x + 1) as usize, y: c.y }
            },
            Direction::Stop => c,
        }
    }

    /// An arena of the given size, if it is large enough to play on.
    pub fn new(width: usize, height: usize) -> (r: Option<Arena>)
        ensures
            r == (if width >= 2 && height >= 4 {
                Some(Arena { width, height })
            } else {
                None
            }),
            r matches Some(a) ==> a.wf(),
    {
        if width >= 2 && height >= 4 {
            Some(Arena { width, height })
        } else {
            None
        }
    }

    pub fn center(&self) -> (r: Coords)
        requires
            self.wf(),
        ensures
            r == self.center_spec(),
            self.contains(r),
    {
        Coords { x: self.width / 2 - 1, y: self.height / 2 - 1 }
    }

    /// One step from `c` towards `d`, wrapping at the edges.
    pub fn step(&self, c: Coords, d: Direction) -> (r: Coords)
        requires
            self.contains(c),
        ensures
            r == self.step_spec(c, d),
            self.contains(r),
    {
        match d {
            Direction::Up => if c.y <= 1 {
                Coords { x: c.x, y: self.height - 1 }
            } else {
                Coords { x: c.x, y: c.y - 1 }
            },
            Direction::Down => if c.y + 1 >= self.height {
                Coords { x: c.x, y: 1 }
            } else {
                Coords { x: c.x, y: c.y + 1 }
            },
            Direction::Left => if c.x == 0 {
                Coords { x: self.width - 1, y: c.y }
            } else {
                Coords { x: c.x - 1, y: c.y }
            },
            Direction::Right => if c.x + 1 >= self.width {
                Coords { x: 0, y: c.y }
            } else {
                Coords { x: c.x + 1, y: c.y }
            },
            Direction::Stop => c,
        }
    }
}

/// Stepping off the left edge comes back in at the right edge, and stepping
/// off the bottom row comes back in at the first playing row.
pub proof fn lemma_edge_wrap(arena: Arena, x: usize, y: usize)
    requires
        arena.wf(),
        x < arena.width,
        1 <= y < arena.height,
    ensures
        arena.step_spec(Coords { x: 0, y }, Direction::Left) == (Coords { x: (arena.width - 1) as usize, y }),
        arena.step_spec(Coords { x, y: (arena.height - 1) as usize }, Direction::Down) == (Coords { x, y: 1 }),
{
}

} // verus!
