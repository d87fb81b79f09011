//! The list of scores reached so far, best first.
use vstd::prelude::*;

verus! {

/// Whether a list of scores runs from the best to the worst.
pub open spec fn best_first(scores: Seq<u32>) -> bool {
    forall|i: int, j: int| 0 <= i <= j < scores.len() ==> scores[i] >= scores[j]
}

/// The scores reached so far, best first, and the key under which they are
/// kept.
#[derive(Debug)]
pub struct LocalScores {
    pub scores: Vec<u32>,
    pub lookup: String,
}

/// A score was put on the list, at the place `score_index`.
#[derive(Clone, Copy, Debug, PartialEq, Eq, Structural)]
pub struct ScoreSaved {
    pub score: u32,
    pub score_index: usize,
}

/// The place of a new score in a list that runs best first: before all
/// scores that are not better than it.
pub open spec fn place_of(scores: Seq<u32>, score: u32, place: int) -> bool {
    &&& 0 <= place <= scores.len()
    &&& forall|i: int| 0 <= i < place ==> scores[i] > score
    &&& forall|i: int| place <= i < scores.len() ==> scores[i] <= score
}

/// A list that runs best first has one place for a new score.
pub proof fn lemma_place_is_unique(scores: Seq<u32>, score: u32, p: int, q: int)
    requires
        place_of(scores, score, p),
        place_of(scores, score, q),
    ensures
        p == q,
{
    if p < q {
        assert(scores[p] <= score);
        assert(scores[p] > score);
    }
    if q < p {
        assert(scores[q] <= score);
        assert(scores[q] > score);
    }
}

fn insert_score(scores: &mut Vec<u32>, score: u32) -> (place: usize)
    requires
        best_first(old(scores)@),
    ensures
        place_of(old(scores)@, score, place as int),
        final(scores)@ == old(scores)@.insert(place as int, score),
        best_first(final(scores)@),
        final(scores)@.to_multiset() == old(scores)@.to_multiset().insert(score),
{
    let mut place: usize = 0;
    while place < scores.len() && scores[place] > score
        invariant
            place <= scores.len(),
            *scores == *old(scores),
            forall|i: int| 0 <= i < place ==> scores@[i] > score,
        decreases scores.len() - place,
    {
        place = place + 1;
    }
    proof {
        assert forall|i: int| place <= i < scores.len() implies scores@[i] <= score by {
            assert(scores@[place as int] >= scores@[i]);
        }
        vstd::seq_lib::to_multiset_insert(scores@, place as int, score);
    }
    scores.insert(place, score);
    proof {
        let before = old(scores)@;
        let after = scores@;
        assert forall|i: int, j: int| 0 <= i <= j < after.len() implies after[i] >= after[j] by {
            if j < place {
                assert(after[i] == before[i] && after[j] == before[j]);
            } else if j == place {
                if i < place {
                    assert(after[i] == before[i]);
                }
            } else {
                assert(after[j] == before[j - 1]);
                if i < place {
                    assert(after[i] == before[i]);
                } else if i == place {
                } else {
                    assert(after[i] == before[i - 1]);
                }
            }
        }
    }
    place
}

impl LocalScores {
    /// Whether the list runs best first.
    pub open spec fn wf(&self) -> bool {
        best_first(self.scores@)
    }

    /// Whether the list runs best first.
    pub fn is_valid(&self) -> (ok: bool)
        ensures
            ok == self.wf(),
    {
        let mut i: usize = 1;
        while i < self.scores.len()
            invariant
                1 <= i,
                forall|a: int, b: int| 0 <= a <= b < i && b < self.scores@.len()
                    ==> self.scores@[a] >= self.scores@[b],
            decreases self.scores.len() - i,
        {
            if self.scores[i - 1] < self.scores[i] {
                return false;
            }
            assert forall|a: int, b: int| 0 <= a <= b < i + 1 && b < self.scores@.len()
                implies self.scores@[a] >= self.scores@[b] by {
                if b == i && a < i {
                    assert(self.scores@[a] >= self.scores@[i - 1]);
                }
            }
            i = i + 1;
        }
        true
    }

    /// An empty list kept under `lookup`.
    pub fn new(lookup: String) -> (board: LocalScores)
        ensures
            board.scores@ == Seq::<u32>::empty(),
            board.lookup == lookup,
            board.wf(),
    {
        LocalScores { scores: Vec::new(), lookup }
    }

    /// The list of the scores in `existing`, whatever their order, kept
    /// under `lookup`.
    pub fn load_scores(existing: Vec<u32>, lookup: String) -> (board: LocalScores)
        ensures
            board.wf(),
            board.scores@.to_multiset() == existing@.to_multiset(),
            board.lookup == lookup,
    {
        let mut scores: Vec<u32> = Vec::new();
        let mut i: usize = 0;
        assert(existing@.take(0) =~= Seq::<u32>::empty());
        while i < existing.len()
            invariant
                i <= existing.len(),
                best_first(scores@),
                scores@.to_multiset() == existing@.take(i as int).to_multiset(),
            decreases existing.len() - i,
        {
            proof {
                assert(existing@.take(i + 1) =~= existing@.take(i as int).push(existing@[i as int]));
                vstd::seq_lib::to_multiset_build(existing@.take(i as int), existing@[i as int]);
            }
            insert_score(&mut scores, existing[i]);
            i = i + 1;
        }
        assert(existing@.take(existing.len() as int) =~= existing@);
        LocalScores { scores, lookup }
    }

    /// The best score, if there is any score.
    pub fn high_score(&self) -> (best: Option<u32>)
        ensures
            best == if self.scores@.len() == 0 {
                None
            } else {
                Some(self.scores@[0])
            },
            self.wf() ==> forall|i: int|
                0 <= i < self.scores@.len() ==> best.unwrap() >= self.scores@[i],
    {
        if self.scores.len() == 0 {
            None
        } else {
            Some(self.scores[0])
        }
    }

    /// Puts a new score on the list, before all scores that are not better,
    /// and tells where it went.
    pub fn add_new_score(&mut self, score: u32) -> (saved: ScoreSaved)
        requires
            old(self).wf(),
        ensures
            saved.score == score,
            place_of(old(self).scores@, score, saved.score_index as int),
            final(self).scores@ == old(self).scores@.insert(saved.score_index as int, score),
            final(self).scores@.to_multiset() == old(self).scores@.to_multiset().insert(score),
            final(self).lookup == old(self).lookup,
            final(self).wf(),
    {
        let place: usize = insert_score(&mut self.scores, score);
        ScoreSaved { score, score_index: place }
    }

    /// Whether `score` would be the best score on the list, alone at the
    /// top.
    pub fn is_new_high_score(&self, score: u32) -> (best: bool)
        ensures
            best == (self.scores@.len() == 0 || score > self.scores@[0]),
    {
        self.scores.len() == 0 || score > self.scores[0]
    }
}

/// Puts the final score of a game that has just ended on the list. A tick
/// that does not end a game leaves the list as it is.
pub fn update_local_scores_system(final_score: Option<u32>, local_scores: &mut LocalScores) -> (saved:
    Option<ScoreSaved>)
    requires
        old(local_scores).wf(),
    ensures
        final(local_scores).wf(),
        final(local_scores).lookup == old(local_scores).lookup,
        match final_score {
            Some(score) => {
                &&& saved.is_some()
                &&& saved.unwrap().score == score
                &&& place_of(old(local_scores).scores@, score, saved.unwrap().score_index as int)
                &&& final(local_scores).scores@ == old(local_scores).scores@.insert(
                    saved.unwrap().score_index as int,
                    score,
                )
            },
            None => saved.is_none() && final(local_scores).scores@ == old(local_scores).scores@,
        },
{
    match final_score {
        Some(score) => Some(local_scores.add_new_score(score)),
        None => None,
    }
}

} // verus!
