//! The faces rolled since the last bust or bank.

use vstd::prelude::*;

verus! {

/// The lowest face that joins a hand. A roll below it busts the hand.
pub const LOWEST_SCORING_FACE: u8 = 2;

/// The highest face of the die.
pub const HIGHEST_FACE: u8 = 6;

/// The sum of a sequence of faces.
pub open spec fn face_sum(faces: Seq<u8>) -> nat
    decreases faces.len(),
{
    if faces.len() == 0 {
        0
    } else {
        face_sum(faces.drop_last()) + faces.last() as nat
    }
}

/// Every face is one that can join a hand: two to six.
pub open spec fn scoring_faces(faces: Seq<u8>) -> bool {
    forall|i: int| 0 <= i < faces.len() ==> LOWEST_SCORING_FACE <= #[trigger] faces[i] <= HIGHEST_FACE
}

/// A sequence with one more face sums to that much more.
pub proof fn lemma_face_sum_push(faces: Seq<u8>, face: u8)
    ensures
        face_sum(faces.push(face)) == face_sum(faces) + face,
{
    assert(faces.push(face).drop_last() =~= faces);
}

/// A prefix sums to no more than the whole.
pub proof fn lemma_face_sum_prefix(faces: Seq<u8>, n: int)
    requires
        0 <= n <= faces.len(),
    ensures
        face_sum(faces.take(n)) <= face_sum(faces),
    decreases faces.len(),
{
    if n == faces.len() {
        assert(faces.take(n) =~= faces);
    } else {
        lemma_face_sum_prefix(faces.drop_last(), n);
        assert(faces.drop_last().take(n) =~= faces.take(n));
    }
}

/// The current hand: the faces rolled this turn, oldest first.
#[derive(Debug)]
pub struct Hand {
    faces: Vec<u8>,
}

impl View for Hand {
    type V = Seq<u8>;

    closed spec fn view(&self) -> Seq<u8> {
        self.faces@
    }
}

impl Hand {
    /// Only scoring faces are held, and their sum fits the total's type.
    pub open spec fn wf(&self) -> bool {
        scoring_faces(self@) && face_sum(self@) <= u64::MAX
    }

    /// An empty hand.
    pub fn new() -> (hand: Self)
        ensures
            hand.wf(),
            hand@ == Seq::<u8>::empty(),
    {
        Self { faces: Vec::new() }
    }

    /// Appends a scoring face to the hand.
    pub fn accumulate(&mut self, face: u8)
        requires
            old(self).wf(),
            LOWEST_SCORING_FACE <= face <= HIGHEST_FACE,
            face_sum(old(self)@) + face <= u64::MAX,
        ensures
            final(self).wf(),
            final(self)@ == old(self)@.push(face),
    {
        proof {
            lemma_face_sum_push(self.faces@, face);
        }
        self.faces.push(face);
    }

    /// The sum of the faces held; zero for an empty hand.
    pub fn total(&self) -> (total: u64)
        requires
            self.wf(),
        ensures
            total == face_sum(self@),
    {
        let mut total: u64 = 0;
        let mut i: usize = 0;
        while i < self.faces.len()
            invariant
                i <= self.faces.len(),
                total == face_sum(self.faces@.take(i as int)),
                face_sum(self.faces@) <= u64::MAX,
            decreases self.faces.len() - i,
        {
            proof {
                lemma_face_sum_prefix(self.faces@, i + 1);
                assert(self.faces@.take(i + 1).drop_last() =~= self.faces@.take(i as int));
            }
            total = total + self.faces[i] as u64;
            i = i + 1;
        }
        assert(self.faces@.take(i as int) =~= self.faces@);
        total
    }

    /// Empties the hand.
    pub fn clear(&mut self)
        ensures
            final(self).wf(),
            final(self)@ == Seq::<u8>::empty(),
    {
        self.faces.clear();
    }

    /// How many faces are held.
    pub fn len(&self) -> (len: usize)
        ensures
            len == self@.len(),
    {
        self.faces.len()
    }

    /// Whether no face is held.
    pub fn is_empty(&self) -> (empty: bool)
        ensures
            empty == (self@.len() == 0),
    {
        self.faces.len() == 0
    }

    /// The faces held, oldest first.
    pub fn faces(&self) -> (faces: &Vec<u8>)
        ensures
            faces@ == self@,
    {
        &self.faces
    }
}

impl Default for Hand {
    fn default() -> (hand: Self)
        ensures
            hand.wf(),
            hand@ == Seq::<u8>::empty(),
    {
        Hand::new()
    }
}

} // verus!
