//! Scramble generation: random move sequences over the six cube faces,
//! constrained so that no two consecutive moves come from the same axis
//! group ({F, R, U} versus {B, L, D}).

use vstd::prelude::*;

verus! {

/// Number of move tokens in every generated scramble.
pub const SCRAMBLE_LEN: usize = 25;

/// One of the six faces of the cube.
#[derive(Clone, Copy, PartialEq, Eq, Structural, Debug)]
pub enum Face {
    Up,
    Down,
    LeftFace,
    RightFace,
    Front,
    Back,
}

/// How a face turn is modified: a plain quarter turn, a counterclockwise
/// (prime) turn, or a half (double) turn.
#[derive(Clone, Copy, PartialEq, Eq, Structural, Debug)]
pub enum Modifier {
    Plain,
    Prime,
    Double,
}

/// A single move token: a face together with its modifier.
#[derive(Clone, Copy, PartialEq, Eq, Structural, Debug)]
pub struct MoveToken {
    pub face: Face,
    pub modifier: Modifier,
}

/// The six faces are partitioned into two axis groups of three mutually
/// adjacent faces each: {Front, RightFace, Up} and {Back, LeftFace, Down}.
pub open spec fn in_first_group(f: Face) -> bool {
    f == Face::Front || f == Face::RightFace || f == Face::Up
}

/// Two consecutive tokens are acceptable when their faces come from
/// different axis groups.
pub open spec fn adjacent_ok(a: MoveToken, b: MoveToken) -> bool {
    in_first_group(a.face) != in_first_group(b.face)
}

/// An ordered sequence of move tokens, immutable once generated.
pub struct ScrambleSequence {
    pub moves: Vec<MoveToken>,
}

impl View for ScrambleSequence {
    type V = Seq<MoveToken>;

    open spec fn view(&self) -> Seq<MoveToken> {
        self.moves@
    }
}

impl ScrambleSequence {
    /// A generated scramble is well formed: exactly `SCRAMBLE_LEN` tokens,
    /// and no two consecutive tokens share an axis group.
    pub open spec fn wf(self) -> bool {
        &&& self@.len() == SCRAMBLE_LEN
        &&& forall|i: int| 1 <= i < self@.len() ==> adjacent_ok(self@[i - 1], #[trigger] self@[i])
    }

    /// Builds a sequence from explicit tokens.
    pub fn from_moves(moves: Vec<MoveToken>) -> (s: ScrambleSequence)
        ensures
            s@ == moves@,
    {
        ScrambleSequence { moves }
    }

    /// Number of tokens.
    pub fn len(&self) -> (n: usize)
        ensures
            n == self@.len(),
    {
        self.moves.len()
    }

    /// The token at a position.
    pub fn get(&self, i: usize) -> (m: MoveToken)
        requires
            i < self@.len(),
        ensures
            m == self@[i as int],
    {
        self.moves[i]
    }

    /// An exact copy of this sequence.
    pub fn duplicate(&self) -> (s: ScrambleSequence)
        ensures
            s@ == self@,
    {
        let mut moves: Vec<MoveToken> = Vec::new();
        let mut i: usize = 0;
        while i < self.moves.len()
            invariant
                i <= self.moves@.len(),
                moves@ == self.moves@.subrange(0, i as int),
            decreases self.moves@.len() - i,
        {
            moves.push(self.moves[i]);
            i = i + 1;
        }
        proof {
            assert(moves@ =~= self.moves@);
        }
        ScrambleSequence { moves }
    }

    /// Token-for-token equality with another sequence.
    pub fn same_as(&self, other: &ScrambleSequence) -> (r: bool)
        ensures
            r == (self@ == other@),
    {
        if self.moves.len() != other.moves.len() {
            return false;
        }
        let mut i: usize = 0;
        while i < self.moves.len()
            invariant
                i <= self.moves@.len(),
                self.moves@.len() == other.moves@.len(),
                forall|j: int| #![auto] 0 <= j < i ==> self.moves@[j] == other.moves@[j],
            decreases self.moves@.len() - i,
        {
            if self.moves[i] != other.moves[i] {
                return false;
            }
            i = i + 1;
        }
        proof {
            assert(self.moves@ =~= other.moves@);
        }
        true
    }
}

/// Relies on `rand::Rng::gen_range` on `rand::thread_rng()`: a draw from a
/// non-empty half-open range lies below its upper bound.
#[verifier::external_body]
fn rand_below(n: u64) -> (r: u64)
    requires
        1 <= n,
    ensures
        r < n,
{
    rand::Rng::gen_range(&mut rand::thread_rng(), 0..n)
}

/// Whether a face belongs to the {Front, RightFace, Up} axis group.
pub fn is_first_group(f: Face) -> (r: bool)
    ensures
        r == in_first_group(f),
{
    match f {
        Face::Front => true,
        Face::RightFace => true,
        Face::Up => true,
        _ => false,
    }
}

/// The face selected by a draw in 0..3 within one axis group.
fn pick_face(first_group: bool, draw: u64) -> (f: Face)
    requires
        draw < 3,
    ensures
        in_first_group(f) == first_group,
{
    if first_group {
        if draw == 0 {
            Face::Front
        } else if draw == 1 {
            Face::RightFace
        } else {
            Face::Up
        }
    } else {
        if draw == 0 {
            Face::Back
        } else if draw == 1 {
            Face::LeftFace
        } else {
            Face::Down
        }
    }
}

/// The modifier selected by a draw in 0..3, each outcome equally likely.
fn pick_modifier(draw: u64) -> (m: Modifier)
    requires
        draw < 3,
{
    if draw == 0 {
        Modifier::Plain
    } else if draw == 1 {
        Modifier::Prime
    } else {
        Modifier::Double
    }
}

/// Generates a fresh scramble of `SCRAMBLE_LEN` moves. For each position an
/// axis group is drawn uniformly, rejecting a draw that repeats the previous
/// position's group; with two groups the redraw always settles on the other
/// group, so the rejection is resolved directly. The face within the group
/// and the modifier are then drawn uniformly.
pub fn get_scramble() -> (s: ScrambleSequence)
    ensures
        s.wf(),
{
    let mut moves: Vec<MoveToken> = Vec::new();
    while moves.len() < SCRAMBLE_LEN
        invariant
            moves@.len() <= SCRAMBLE_LEN,
            forall|i: int| 1 <= i < moves@.len() ==> adjacent_ok(moves@[i - 1], #[trigger] moves@[i]),
        decreases SCRAMBLE_LEN - moves.len(),
    {
        let mut first_group: bool = rand_below(2) == 0;
        if moves.len() > 0 {
            let prev_first = is_first_group(moves[moves.len() - 1].face);
            if first_group == prev_first {
                first_group = !first_group;
            }
        }
        let face = pick_face(first_group, rand_below(3));
        let modifier = pick_modifier(rand_below(3));
        moves.push(MoveToken { face, modifier });
    }
    ScrambleSequence { moves }
}

} // verus!
