//! The snake's heading and the rule that decides whether a key may turn it.

use vstd::prelude::*;

verus! {

/// One of the four headings on the grid.
#[derive(Clone, Copy, Debug, PartialEq, Eq, Structural)]
pub enum Direction {
    Left,
    Right,
    Down,
    Up,
}

/// A key as the turn rule sees it: the four steering keys, and everything
/// else on the keyboard (or off it) folded into `Other`.
#[derive(Clone, Copy, Debug, PartialEq, Eq, Structural)]
pub enum Key {
    W,
    A,
    S,
    D,
    Other,
}

impl Direction {
    /// The heading that points the other way on the same axis.
    pub open spec fn spec_opposite(self) -> Direction {
        match self {
            Direction::Left => Direction::Right,
            Direction::Right => Direction::Left,
            Direction::Down => Direction::Up,
            Direction::Up => Direction::Down,
        }
    }

    /// Returns the heading that points the other way on the same axis.
    #[verifier::when_used_as_spec(spec_opposite)]
    pub fn opposite(self) -> (r: Direction)
        ensures
            r == self.spec_opposite(),
    {
        match self {
            Direction::Left => Direction::Right,
            Direction::Right => Direction::Left,
            Direction::Down => Direction::Up,
            Direction::Up => Direction::Down,
        }
    }
}

impl Key {
    /// The heading a key asks for: `W` up, `S` down, `D` right, `A` left,
    /// and none for any other key.
    pub open spec fn spec_candidate(self) -> Option<Direction> {
        match self {
            Key::W => Some(Direction::Up),
            Key::S => Some(Direction::Down),
            Key::D => Some(Direction::Right),
            Key::A => Some(Direction::Left),
            Key::Other => None,
        }
    }

    /// Returns the heading this key asks for, if it is a steering key.
    #[verifier::when_used_as_spec(spec_candidate)]
    pub fn candidate(self) -> (r: Option<Direction>)
        ensures
            r == self.spec_candidate(),
    {
        match self {
            Key::W => Some(Direction::Up),
            Key::S => Some(Direction::Down),
            Key::D => Some(Direction::Right),
            Key::A => Some(Direction::Left),
            Key::Other => None,
        }
    }
}

/// The heading after `key` was pressed while heading `current`: the key's
/// candidate, unless there is none or it would reverse the snake on the spot.
pub open spec fn turned(current: Direction, key: Key) -> Direction {
    match key.spec_candidate() {
        Some(wanted) => if wanted == current.spec_opposite() {
            current
        } else {
            wanted
        },
        None => current,
    }
}

/// Applies a key press to the heading.
///
/// The result is the key's candidate heading when that is not the exact
/// opposite of `current`, and `current` otherwise. It is therefore never the
/// opposite of `current`, and a key without a candidate changes nothing.
pub fn request_turn(current: Direction, key: Key) -> (next: Direction)
    ensures
        next == turned(current, key),
        next != current.spec_opposite(),
        key.spec_candidate() is None ==> next == current,
        next == current || key.spec_candidate() == Some(next),
{
    match key.candidate() {
        Some(wanted) => {
            if wanted == current.opposite() {
                current
            } else {
                wanted
            }
        },
        None => current,
    }
}

/// No key can make the snake reverse: whatever is pressed, the heading that
/// results is not the opposite of the heading before.
pub proof fn lemma_turn_never_reverses(current: Direction, key: Key)
    ensures
        turned(current, key) != current.spec_opposite(),
{
}

/// A key that maps to no heading leaves the heading as it was.
pub proof fn lemma_unmapped_key_keeps_heading(current: Direction, key: Key)
    requires
        key.spec_candidate() is None,
    ensures
        turned(current, key) == current,
{
}

/// Pressing the same key twice in a row has the effect of pressing it once.
pub proof fn lemma_turn_idempotent(current: Direction, key: Key)
    ensures
        turned(turned(current, key), key) == turned(current, key),
{
}

} // verus!
