//! The rules of a draw, as mathematics: which branches a draw chooses between, which
//! students stand behind each, and what a ten-roll owes.
use crate::gacha::{reserved, Gacha, GachaView, Rarity};
use crate::i18n::Language;
use crate::student::StudentView;
use vstd::prelude::*;

verus! {

/// The rarity that stands behind one of the first three branches of a draw.
pub open spec fn tier_of(branch: int) -> Rarity {
    if branch == 0 {
        Rarity::One
    } else if branch == 1 {
        Rarity::Two
    } else {
        Rarity::Three
    }
}

/// The branch that stands for the ordinary students of a rarity.
pub open spec fn branch_of(rarity: Rarity) -> int {
    match rarity {
        Rarity::One => 0,
        Rarity::Two => 1,
        Rarity::Three => 2,
    }
}

/// A draw first picks a branch, then a student behind it. The first three branches stand
/// for the rarities: behind each are the pool's students of that rarity, but for those who
/// are priority students. Each further branch stands for one priority student. A priority
/// student is thus drawn through its own branch alone, at its own rate, even where the pool
/// holds it too.
impl GachaView {
    /// The weight of every branch: for a rarity what its priority students leave of its
    /// rate, for a priority student its own rate.
    pub open spec fn weights(self) -> Seq<int> {
        seq![
            self.tier_weight(Rarity::One),
            self.tier_weight(Rarity::Two),
            self.tier_weight(Rarity::Three),
        ] + Seq::new(self.boosted().len(), |k: int| self.boosted()[k].rate as int)
    }

    /// Whether a priority student goes by this name.
    pub open spec fn is_boosted(self, name: Map<Language, Seq<char>>) -> bool {
        exists|k: int| 0 <= k < self.boosted().len() && self.boosted()[k].student.name == name
    }

    /// The test that picks the students of one rarity: all of them, or only the ordinary
    /// ones, who are no priority students.
    pub open spec fn picks(self, rarity: Rarity, ordinary: bool) -> spec_fn(StudentView) -> bool {
        |student: StudentView|
            student.rarity == rarity && (ordinary ==> !self.is_boosted(student.name))
    }

    /// The students behind a rarity's branch, in the order of the pool.
    pub open spec fn candidates(self, rarity: Rarity) -> Seq<StudentView> {
        self.pool.filter(self.picks(rarity, true))
    }

    /// All the pool's students of a rarity, in the order of the pool.
    pub open spec fn of_rarity(self, rarity: Rarity) -> Seq<StudentView> {
        self.pool.filter(self.picks(rarity, false))
    }

    /// Whether there is a student in place `slot` behind the branch. A priority student's
    /// branch holds that student in every place.
    pub open spec fn holds(self, branch: int, slot: int) -> bool {
        if 0 <= branch < 3 {
            0 <= slot < self.candidates(tier_of(branch)).len()
        } else {
            3 <= branch < 3 + self.boosted().len()
        }
    }

    /// The student in place `slot` behind the branch.
    pub open spec fn student_at(self, branch: int, slot: int) -> StudentView {
        if branch < 3 {
            self.candidates(tier_of(branch))[slot]
        } else {
            self.boosted()[branch - 3].student
        }
    }

    /// Whether a draw can come out as this branch and place: the branch has a weight above
    /// zero and holds a student there.
    pub open spec fn admits(self, branch: int, slot: int) -> bool {
        self.holds(branch, slot) && self.weights()[branch] > 0
    }

    /// Whether a draw can come out as this student.
    pub open spec fn can_yield(self, student: StudentView) -> bool {
        exists|branch: int, slot: int| #[trigger]
            self.admits(branch, slot) && self.student_at(branch, slot) == student
    }

    /// Whether a single draw can be made: the table is well formed, and behind every
    /// rarity's branch that has a weight above zero there is a student.
    pub open spec fn ready(self) -> bool {
        &&& self.well_formed()
        &&& self.tier_weight(Rarity::One) > 0 ==> self.candidates(Rarity::One).len() > 0
        &&& self.tier_weight(Rarity::Two) > 0 ==> self.candidates(Rarity::Two).len() > 0
        &&& self.tier_weight(Rarity::Three) > 0 ==> self.candidates(Rarity::Three).len() > 0
    }

    /// Whether a draw can come out as a student of this rarity.
    pub open spec fn can_yield_rarity(self, rarity: Rarity) -> bool {
        exists|student: StudentView| #[trigger]
            self.can_yield(student) && student.rarity == rarity
    }

    /// Whether the student is in the pool or among the priority students.
    pub open spec fn offers(self, student: StudentView) -> bool {
        self.pool.contains(student) || exists|k: int|
            0 <= k < self.boosted().len() && self.boosted()[k].student == student
    }

    /// Whether ten draws can be made at once: a single one can, and where a draw can come
    /// out as a one-star student the pool has a two-star student to make up for ten of them.
    pub open spec fn ready10(self) -> bool {
        &&& self.ready()
        &&& self.can_yield_rarity(Rarity::One) ==> self.of_rarity(Rarity::Two).len() > 0
    }
}

/// There is a branch for each rarity and one for each priority student. The branch of a
/// rarity weighs what the rarity's rate is, less the rates of its priority students; the
/// branch of a priority student weighs that student's rate.
pub proof fn lemma_branch_weights(gacha: GachaView)
    ensures
        gacha.weights().len() == 3 + gacha.boosted().len(),
        forall|rarity: Rarity|
            tier_of(branch_of(rarity)) == rarity && #[trigger] gacha.weights()[branch_of(rarity)]
                == gacha.rate(rarity) - reserved(gacha.boosted(), rarity),
        forall|k: int|
            0 <= k < gacha.boosted().len() ==> #[trigger] gacha.weights()[3 + k]
                == gacha.boosted()[k].rate,
{
}

/// Behind a branch stands a student of the pool or a priority student, never anyone else.
/// Behind a rarity's branch stand students of that rarity who are no priority students.
pub proof fn lemma_yield_is_offered(gacha: GachaView, branch: int, slot: int)
    requires
        gacha.holds(branch, slot),
    ensures
        gacha.offers(gacha.student_at(branch, slot)),
        branch < 3 ==> gacha.student_at(branch, slot).rarity == tier_of(branch)
            && !gacha.is_boosted(gacha.student_at(branch, slot).name),
{
    if branch < 3 {
        let test = gacha.picks(tier_of(branch), true);
        gacha.pool.lemma_filter_pred(test, slot);
        let student = gacha.pool.filter(test)[slot];
        assert(gacha.pool.filter(test).contains(student));
        gacha.pool.lemma_filter_contains_rev(test, student);
    } else {
        assert(gacha.boosted()[branch - 3].student == gacha.student_at(branch, slot));
    }
}

/// A draw comes out as a student of the pool or as a priority student, never as anyone
/// else.
pub proof fn lemma_drawn_is_offered(gacha: GachaView, student: StudentView)
    requires
        gacha.can_yield(student),
    ensures
        gacha.offers(student),
{
    let (branch, slot) = choose|branch: int, slot: int| #[trigger]
        gacha.admits(branch, slot) && gacha.student_at(branch, slot) == student;
    lemma_yield_is_offered(gacha, branch, slot);
}

/// A priority student with a rate above zero can be drawn: it has a branch of its own, with
/// its rate for a weight, whatever the pool holds.
pub proof fn lemma_priority_reachable(gacha: GachaView, k: int)
    requires
        0 <= k < gacha.boosted().len(),
        gacha.boosted()[k].rate > 0,
    ensures
        gacha.weights()[3 + k] == gacha.boosted()[k].rate,
        gacha.can_yield(gacha.boosted()[k].student),
{
    assert(gacha.admits(3 + k, 0));
    assert(gacha.student_at(3 + k, 0) == gacha.boosted()[k].student);
}

/// Where the branch of a rarity has a weight above zero, every student behind it can be
/// drawn, and each of them has that rarity.
pub proof fn lemma_candidate_reachable(gacha: GachaView, rarity: Rarity, slot: int)
    requires
        gacha.tier_weight(rarity) > 0,
        0 <= slot < gacha.candidates(rarity).len(),
    ensures
        gacha.can_yield(gacha.candidates(rarity)[slot]),
        gacha.candidates(rarity)[slot].rarity == rarity,
{
    let branch = branch_of(rarity);
    assert(tier_of(branch) == rarity);
    assert(gacha.admits(branch, slot));
    assert(gacha.student_at(branch, slot) == gacha.candidates(rarity)[slot]);
    lemma_yield_is_offered(gacha, branch, slot);
}

/// Two tables that were given the same rates, the same pool and the same priority
/// students weigh their branches alike, hold the same students behind them, and allow
/// the same draws.
pub proof fn lemma_same_table_same_draws(first: Gacha, second: Gacha)
    requires
        first@ == second@,
    ensures
        first@.weights() == second@.weights(),
        forall|rarity: Rarity| first@.candidates(rarity) == second@.candidates(rarity),
        forall|student: StudentView| first@.can_yield(student) == second@.can_yield(student),
        first@.ready() == second@.ready(),
        first@.ready10() == second@.ready10(),
{
}

/// Filtering one more item of a list keeps what was picked so far and adds the item if it
/// is picked.
pub proof fn lemma_filter_step<A>(items: Seq<A>, test: spec_fn(A) -> bool, n: int)
    requires
        0 <= n < items.len(),
    ensures
        items.take(n + 1).filter(test) == if test(items[n]) {
            items.take(n).filter(test).push(items[n])
        } else {
            items.take(n).filter(test)
        },
{
    reveal(Seq::filter);
    assert(items.take(n + 1).drop_last() =~= items.take(n));
}

/// What is picked from the front part of a list is picked from the whole list, and stands
/// in the same place.
pub proof fn lemma_filter_prefix<A>(items: Seq<A>, test: spec_fn(A) -> bool, n: int)
    requires
        0 <= n <= items.len(),
    ensures
        items.take(n).filter(test).len() <= items.filter(test).len(),
        forall|k: int|
            0 <= k < items.take(n).filter(test).len() ==> items.filter(test)[k] == items.take(
                n,
            ).filter(test)[k],
{
    Seq::filter_distributes_over_add(items.take(n), items.skip(n), test);
    assert(items.take(n) + items.skip(n) =~= items);
}

/// Whether ten students fall short of what a ten-roll owes: none of them has two stars, and
/// the last has not three.
pub open spec fn falls_short(students: Seq<StudentView>) -> bool {
    &&& forall|i: int| 0 <= i < students.len() ==> students[i].rarity != Rarity::Two
    &&& students.last().rarity != Rarity::Three
}

/// What a ten-roll hands out for ten draws: the draws, with `spare` in the last place where
/// they fall short.
pub open spec fn settled(draws: Seq<StudentView>, spare: StudentView) -> Seq<StudentView> {
    if falls_short(draws) {
        draws.update(draws.len() - 1, spare)
    } else {
        draws
    }
}

/// A ten-roll hands out ten students and keeps the first nine draws. Where none of the
/// ten draws has two stars and the last has not three, a two-star spare takes the last
/// place, so that the last student has two stars. Where none has two stars and the last
/// has three, the last draw stays: a three-star student is never given up. Where a draw
/// has two stars, all ten stay. Either way the ten that are handed out do not fall short.
pub proof fn lemma_ten_roll_guarantee(draws: Seq<StudentView>, spare: StudentView)
    requires
        draws.len() == 10,
        spare.rarity == Rarity::Two,
    ensures
        settled(draws, spare).len() == 10,
        forall|i: int| 0 <= i < 9 ==> settled(draws, spare)[i] == draws[i],
        (forall|i: int| 0 <= i < 10 ==> draws[i].rarity != Rarity::Two) && draws[9].rarity
            != Rarity::Three ==> settled(draws, spare)[9] == spare && settled(
            draws,
            spare,
        )[9].rarity == Rarity::Two,
        (forall|i: int| 0 <= i < 10 ==> draws[i].rarity != Rarity::Two) && draws[9].rarity
            == Rarity::Three ==> settled(draws, spare) == draws,
        (exists|i: int| 0 <= i < 10 && draws[i].rarity == Rarity::Two) ==> settled(draws, spare)
            == draws,
        !falls_short(settled(draws, spare)),
{
    if falls_short(draws) {
        assert(settled(draws, spare)[9].rarity == Rarity::Two);
    }
}

} // verus!
