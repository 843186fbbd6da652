//! Banners: a rate table under a name, and the draws made from it.
use crate::draw::{
    falls_short, lemma_candidate_reachable, lemma_filter_prefix, lemma_filter_step,
    lemma_priority_reachable, lemma_yield_is_offered, settled,
};
use crate::gacha::{
    lemma_reserved_grows, lemma_reserved_step, reserved, Gacha, GachaView, Rarity, Recruitment,
};
use crate::i18n::{I18nString, Language};
use crate::random::{lemma_total_push, total, RandomSource, ThreadSource};
use crate::student::{PriorityStudent, Student, StudentView};
use std::convert::TryFrom;
use vstd::prelude::*;
use vstd::std_specs::convert::{FromSpecImpl, TryFromSpecImpl};

verus! {

/// What a banner builder has been given so far.
pub struct BannerBuilderView {
    pub name: Map<Language, Seq<char>>,
    pub gacha: Option<GachaView>,
    pub sparkable: Option<Seq<StudentView>>,
}

/// Collects what a [`Banner`] is made of.
#[derive(Debug)]
pub struct BannerBuilder {
    name: I18nString,
    gacha: Option<Gacha>,
    sparkable: Option<Vec<Student>>,
}

impl View for BannerBuilder {
    type V = BannerBuilderView;

    closed spec fn view(&self) -> BannerBuilderView {
        BannerBuilderView {
            name: self.name@,
            gacha: match self.gacha {
                Some(gacha) => Some(gacha@),
                None => None,
            },
            sparkable: match self.sparkable {
                Some(list) => Some(list.deep_view()),
                None => None,
            },
        }
    }
}

impl Default for BannerBuilder {
    /// The builder of a banner with an empty Japanese name.
    fn default() -> (builder: Self)
        ensures
            builder@ == (BannerBuilderView {
                name: map![Language::Japanese => Seq::<char>::empty()],
                gacha: None,
                sparkable: None,
            }),
    {
        Self { name: I18nString::default(), gacha: None, sparkable: None }
    }
}

impl BannerBuilder {
    /// The builder of a banner with the given Japanese name.
    pub fn new(jpn_name: &str) -> (builder: Self)
        ensures
            builder@ == (BannerBuilderView {
                name: map![Language::Japanese => jpn_name@],
                gacha: None,
                sparkable: None,
            }),
    {
        Self { name: I18nString::new(jpn_name), gacha: None, sparkable: None }
    }

    /// Gives the banner a name in `language`, replacing the one it had there.
    pub fn with_name_translation(self, language: Language, name: &str) -> (builder: Self)
        ensures
            builder@ == (BannerBuilderView { name: self@.name.insert(language, name@), ..self@ }),
    {
        let mut builder = self;
        builder.name.update(language, name);
        builder
    }

    /// Sets the rate table: the banner gets a copy of it.
    pub fn with_gacha(self, gacha: &Gacha) -> (builder: Self)
        ensures
            builder@ == (BannerBuilderView { gacha: Some(gacha@), ..self@ }),
    {
        Self { gacha: Some(gacha.clone()), ..self }
    }

    /// Sets the students that can be had by sparking: the banner gets copies of them.
    pub fn with_sparkable_students(self, students: &[Student]) -> (builder: Self)
        ensures
            builder@ == (BannerBuilderView { sparkable: Some(students.deep_view()), ..self@ }),
    {
        let mut copies: Vec<Student> = Vec::new();
        let mut i: usize = 0;
        while i < students.len()
            invariant
                i <= students.len(),
                copies@ == students@.take(i as int),
            decreases students.len() - i,
        {
            copies.push(students[i].clone());
            assert(copies@ =~= students@.take(i + 1));
            i += 1;
        }
        assert(copies.deep_view() =~= students.deep_view());
        Self { sparkable: Some(copies), ..self }
    }

    /// The banner that was built, unless the rate table was never set.
    pub fn finish(self) -> (built: Option<Banner>)
        ensures
            match built {
                Some(banner) => {
                    &&& self@.gacha is Some
                    &&& banner@ == (BannerView {
                        name: self@.name,
                        gacha: self@.gacha->0,
                        sparkable: self@.sparkable,
                    })
                },
                None => self@.gacha is None,
            },
    {
        Some(Banner { name: self.name, gacha: self.gacha?, sparkable: self.sparkable })
    }
}

/// What a branch of a draw stands for: the ordinary students of one rarity, or one priority
/// student.
#[derive(Debug, Clone, Copy)]
pub enum StudentType<'a> {
    /// One star
    One,
    /// Two stars
    Two,
    /// Three stars
    Three,
    Priority(&'a PriorityStudent),
}

impl<'a> From<Rarity> for StudentType<'a> {
    /// The branch of the rarity's ordinary students.
    fn from(rarity: Rarity) -> (branch: Self) {
        match rarity {
            Rarity::One => Self::One,
            Rarity::Two => Self::Two,
            Rarity::Three => Self::Three,
        }
    }
}

impl<'a> FromSpecImpl<Rarity> for StudentType<'a> {
    open spec fn obeys_from_spec() -> bool {
        true
    }

    open spec fn from_spec(rarity: Rarity) -> Self {
        match rarity {
            Rarity::One => Self::One,
            Rarity::Two => Self::Two,
            Rarity::Three => Self::Three,
        }
    }
}

impl<'a> TryFrom<StudentType<'a>> for Rarity {
    type Error = &'static str;

    fn try_from(value: StudentType<'a>) -> (rarity: Result<Self, Self::Error>) {
        Rarity::try_from(&value)
    }
}

impl<'a> TryFromSpecImpl<StudentType<'a>> for Rarity {
    open spec fn obeys_try_from_spec() -> bool {
        true
    }

    open spec fn try_from_spec(value: StudentType<'a>) -> Result<Self, Self::Error> {
        match value {
            StudentType::One => Ok(Self::One),
            StudentType::Two => Ok(Self::Two),
            StudentType::Three => Ok(Self::Three),
            StudentType::Priority(_) => Err("Can not convert from Priority to Rarity"),
        }
    }
}

impl<'a> TryFrom<&StudentType<'a>> for Rarity {
    type Error = &'static str;

    /// The rarity whose ordinary students the branch stands for; a priority student's
    /// branch stands for no rarity.
    fn try_from(value: &StudentType<'a>) -> (rarity: Result<Self, Self::Error>) {
        Ok(
            match value {
                StudentType::One => Self::One,
                StudentType::Two => Self::Two,
                StudentType::Three => Self::Three,
                StudentType::Priority(_) => return Err("Can not convert from Priority to Rarity"),
            },
        )
    }
}

impl<'a> TryFromSpecImpl<&StudentType<'a>> for Rarity {
    open spec fn obeys_try_from_spec() -> bool {
        true
    }

    open spec fn try_from_spec(value: &StudentType<'a>) -> Result<Self, Self::Error> {
        match value {
            StudentType::One => Ok(Self::One),
            StudentType::Two => Ok(Self::Two),
            StudentType::Three => Ok(Self::Three),
            StudentType::Priority(_) => Err("Can not convert from Priority to Rarity"),
        }
    }
}

/// What a banner is to the draw rules.
pub struct BannerView {
    pub name: Map<Language, Seq<char>>,
    pub gacha: GachaView,
    pub sparkable: Option<Seq<StudentView>>,
}

/// A rate table under a name, with the students that can be had by sparking. Nothing in it
/// changes once it is built.
#[derive(Debug)]
pub struct Banner {
    pub name: I18nString,
    gacha: Gacha,
    sparkable: Option<Vec<Student>>,
}

impl View for Banner {
    type V = BannerView;

    closed spec fn view(&self) -> BannerView {
        BannerView {
            name: self.name@,
            gacha: self.gacha@,
            sparkable: match self.sparkable {
                Some(list) => Some(list.deep_view()),
                None => None,
            },
        }
    }
}

impl Banner {
    /// The weight of every branch of a draw: three for the rarities, then one for each
    /// priority student. A priority student's rate comes out of the rate of its rarity, so
    /// the weights add up to what the three rates add up to.
    pub fn weights(&self) -> (weights: Vec<usize>)
        requires
            self@.gacha.priorities_fit(),
        ensures
            weights@.len() == self@.gacha.weights().len(),
            forall|i: int| 0 <= i < weights@.len() ==> weights@[i] == self@.gacha.weights()[i],
            total(weights@) == self@.gacha.rates.0 + self@.gacha.rates.1 + self@.gacha.rates.2,
    {
        let mut weights: Vec<usize> = Vec::new();
        let left = self.gacha.tier_weights();
        let rates = left.unwrap();
        proof {
            lemma_total_push(seq![], rates.0);
            lemma_total_push(seq![].push(rates.0), rates.1);
            lemma_total_push(seq![].push(rates.0).push(rates.1), rates.2);
        }
        weights.push(rates.0);
        weights.push(rates.1);
        weights.push(rates.2);
        if let Some(list) = &self.gacha.priority {
            let ghost boosted = self@.gacha.boosted();
            assert(boosted.take(0) =~= Seq::empty());
            let mut i: usize = 0;
            while i < list.len()
                invariant
                    i <= list.len(),
                    boosted == list.deep_view(),
                    boosted == self@.gacha.boosted(),
                    self@.gacha.priorities_fit(),
                    weights@.len() == 3 + i,
                    forall|j: int|
                        0 <= j < weights@.len() ==> weights@[j] == self@.gacha.weights()[j],
                    total(weights@) == rates.0 + rates.1 + rates.2 + reserved(
                        boosted.take(i as int),
                        Rarity::One,
                    ) + reserved(boosted.take(i as int), Rarity::Two) + reserved(
                        boosted.take(i as int),
                        Rarity::Three,
                    ),
                    rates.0 == self@.gacha.tier_weight(Rarity::One),
                    rates.1 == self@.gacha.tier_weight(Rarity::Two),
                    rates.2 == self@.gacha.tier_weight(Rarity::Three),
                decreases list.len() - i,
            {
                proof {
                    lemma_reserved_step(boosted, i as int, Rarity::One);
                    lemma_reserved_step(boosted, i as int, Rarity::Two);
                    lemma_reserved_step(boosted, i as int, Rarity::Three);
                    lemma_reserved_grows(boosted, i + 1, Rarity::One);
                    lemma_reserved_grows(boosted, i + 1, Rarity::Two);
                    lemma_reserved_grows(boosted, i + 1, Rarity::Three);
                    lemma_total_push(weights@, list[i as int].rate);
                }
                weights.push(list[i].rate);
                i += 1;
            }
            assert(boosted.take(i as int) =~= boosted);
        }
        weights
    }

    /// What the branch in place `index` stands for: the first three stand for the
    /// rarities, each further one for a priority student.
    pub fn branch(&self, index: usize) -> (branch: StudentType<'_>)
        requires
            index < 3 + self@.gacha.boosted().len(),
        ensures
            index == 0 <==> branch is One,
            index == 1 <==> branch is Two,
            index == 2 <==> branch is Three,
            index >= 3 <==> branch is Priority,
            index >= 3 ==> branch->Priority_0@ == self@.gacha.boosted()[index - 3],
    {
        if index == 0 {
            StudentType::One
        } else if index == 1 {
            StudentType::Two
        } else if index == 2 {
            StudentType::Three
        } else {
            let list = self.gacha.priority.as_ref().unwrap();
            StudentType::Priority(&list[index - 3])
        }
    }

    /// Whether a priority student goes by this name.
    pub fn is_boosted(&self, name: &I18nString) -> (found: bool)
        ensures
            found == self@.gacha.is_boosted(name@),
    {
        if let Some(list) = &self.gacha.priority {
            let mut k: usize = 0;
            while k < list.len()
                invariant
                    k <= list.len(),
                    list.deep_view() == self@.gacha.boosted(),
                    forall|j: int| 0 <= j < k ==> self@.gacha.boosted()[j].student.name != name@,
                decreases list.len() - k,
            {
                if list[k].student().name == *name {
                    assert(self@.gacha.boosted()[k as int].student.name == name@);
                    return true;
                }
                k += 1;
            }
        }
        false
    }

    /// Whether the student is of the given rarity and, where only ordinary students are
    /// asked for, no priority student.
    fn matches(&self, student: &Student, rarity: Rarity, ordinary: bool) -> (picked: bool)
        ensures
            picked == (self@.gacha.picks(rarity, ordinary))(student@),
    {
        student.rarity == rarity && !(ordinary && self.is_boosted(&student.name))
    }

    /// How many students of the pool are picked.
    fn count_matching(&self, rarity: Rarity, ordinary: bool) -> (count: usize)
        ensures
            count == self@.gacha.pool.filter(self@.gacha.picks(rarity, ordinary)).len(),
    {
        let pool = &self.gacha.pool;
        let ghost students = self@.gacha.pool;
        let ghost test = self@.gacha.picks(rarity, ordinary);
        let mut count: usize = 0;
        let mut i: usize = 0;
        assert(students.take(0).filter(test).len() == 0) by {
            students.take(0).lemma_filter_len(test);
        }
        while i < pool.len()
            invariant
                i <= pool.len(),
                count <= i,
                students == pool.deep_view(),
                students == self@.gacha.pool,
                test == self@.gacha.picks(rarity, ordinary),
                count == students.take(i as int).filter(test).len(),
            decreases pool.len() - i,
        {
            proof {
                lemma_filter_step(students, test, i as int);
            }
            if self.matches(&pool[i], rarity, ordinary) {
                count += 1;
            }
            i += 1;
        }
        assert(students.take(i as int) =~= students);
        count
    }

    /// The student in place `slot` among those of the pool that are picked.
    fn nth_matching(&self, rarity: Rarity, ordinary: bool, slot: usize) -> (student: &Student)
        requires
            slot < self@.gacha.pool.filter(self@.gacha.picks(rarity, ordinary)).len(),
        ensures
            student@ == self@.gacha.pool.filter(self@.gacha.picks(rarity, ordinary))[slot as int],
    {
        let pool = &self.gacha.pool;
        let ghost students = self@.gacha.pool;
        let ghost test = self@.gacha.picks(rarity, ordinary);
        let mut seen: usize = 0;
        let mut i: usize = 0;
        assert(students.take(0).filter(test).len() == 0) by {
            students.take(0).lemma_filter_len(test);
        }
        assert(i < pool.len()) by {
            students.lemma_filter_len(test);
        }
        loop
            invariant
                i < pool.len(),
                seen <= slot,
                seen <= i,
                students == pool.deep_view(),
                students == self@.gacha.pool,
                test == self@.gacha.picks(rarity, ordinary),
                slot < students.filter(test).len(),
                seen == students.take(i as int).filter(test).len(),
            decreases pool.len() - i,
        {
            proof {
                lemma_filter_step(students, test, i as int);
                lemma_filter_prefix(students, test, i + 1);
            }
            if self.matches(&pool[i], rarity, ordinary) {
                if seen == slot {
                    return &pool[i];
                }
                seen += 1;
            }
            i += 1;
            assert(i < pool.len()) by {
                if i == pool.len() {
                    assert(students.take(i as int) =~= students);
                }
            }
        }
    }

    /// How many students stand behind a rarity's branch.
    pub fn count_candidates(&self, rarity: Rarity) -> (count: usize)
        ensures
            count == self@.gacha.candidates(rarity).len(),
    {
        self.count_matching(rarity, true)
    }

    /// How many students of a rarity the pool has.
    pub fn count_of_rarity(&self, rarity: Rarity) -> (count: usize)
        ensures
            count == self@.gacha.of_rarity(rarity).len(),
    {
        self.count_matching(rarity, false)
    }

    /// The student that a draw comes out as when it picks this branch and this place
    /// behind it.
    pub fn student_at(&self, branch: usize, slot: usize) -> (student: Student)
        requires
            self@.gacha.holds(branch as int, slot as int),
        ensures
            student@ == self@.gacha.student_at(branch as int, slot as int),
    {
        match self.branch(branch) {
            StudentType::One => self.nth_matching(Rarity::One, true, slot).clone(),
            StudentType::Two => self.nth_matching(Rarity::Two, true, slot).clone(),
            StudentType::Three => self.nth_matching(Rarity::Three, true, slot).clone(),
            StudentType::Priority(student) => student.student().clone(),
        }
    }

    /// The student in place `slot` among the pool's students of a rarity, priority
    /// students among them.
    pub fn student_of_rarity_at(&self, rarity: Rarity, slot: usize) -> (student: Student)
        requires
            slot < self@.gacha.of_rarity(rarity).len(),
        ensures
            student@ == self@.gacha.of_rarity(rarity)[slot as int],
    {
        self.nth_matching(rarity, false, slot).clone()
    }

    /// Whether a single draw can be made from this banner.
    pub fn is_ready(&self) -> (ok: bool)
        ensures
            ok == self@.gacha.ready(),
    {
        if !self.gacha.is_well_formed() {
            return false;
        }
        let left = self.gacha.tier_weights().unwrap();
        (left.0 == 0 || self.count_candidates(Rarity::One) > 0) && (left.1 == 0
            || self.count_candidates(Rarity::Two) > 0) && (left.2 == 0 || self.count_candidates(
            Rarity::Three,
        ) > 0)
    }

    /// Whether a draw from this banner can come out as a student of the given rarity: as
    /// an ordinary student, where the rarity's branch has a weight and a student behind it,
    /// or as a priority student with a rate above zero.
    pub fn yields_rarity(&self, rarity: Rarity) -> (possible: bool)
        requires
            self@.gacha.priorities_fit(),
        ensures
            possible == self@.gacha.can_yield_rarity(rarity),
    {
        let ghost gacha = self@.gacha;
        let left = self.gacha.tier_weights().unwrap();
        let weight = match rarity {
            Rarity::One => left.0,
            Rarity::Two => left.1,
            Rarity::Three => left.2,
        };
        if weight > 0 && self.count_candidates(rarity) > 0 {
            proof {
                lemma_candidate_reachable(gacha, rarity, 0);
            }
            return true;
        }
        if let Some(list) = &self.gacha.priority {
            let mut k: usize = 0;
            while k < list.len()
                invariant
                    k <= list.len(),
                    gacha == self@.gacha,
                    list.deep_view() == gacha.boosted(),
                    forall|j: int|
                        0 <= j < k ==> !(gacha.boosted()[j].rate > 0
                            && gacha.boosted()[j].student.rarity == rarity),
                decreases list.len() - k,
            {
                if list[k].rate > 0 && list[k].student().rarity == rarity {
                    proof {
                        lemma_priority_reachable(gacha, k as int);
                    }
                    return true;
                }
                k += 1;
            }
        }
        proof {
            if gacha.can_yield_rarity(rarity) {
                let student = choose|student: StudentView| #[trigger]
                    gacha.can_yield(student) && student.rarity == rarity;
                let (at, slot) = choose|at: int, slot: int| #[trigger]
                    gacha.admits(at, slot) && gacha.student_at(at, slot) == student;
                lemma_yield_is_offered(gacha, at, slot);
                if at >= 3 {
                    assert(gacha.boosted()[at - 3].rate > 0);
                }
            }
        }
        false
    }

    /// Whether a ten-roll can be made from this banner.
    pub fn is_ready10(&self) -> (ok: bool)
        ensures
            ok == self@.gacha.ready10(),
    {
        self.is_ready() && (!self.yields_rarity(Rarity::One) || self.count_of_rarity(Rarity::Two)
            > 0)
    }

    /// Draws one student by the banner's rates: a branch by its weight, then, behind a
    /// rarity's branch, one of its students, each with the same chance.
    pub fn get_random_student<R: RandomSource>(&self, rng: &mut R) -> (student: Student)
        requires
            self@.gacha.ready(),
        ensures
            self@.gacha.can_yield(student@),
            self@.gacha.offers(student@),
    {
        let weights = self.weights();
        let index = rng.weighted_index(&weights);
        let slot = match Rarity::try_from(&self.branch(index)) {
            Ok(rarity) => rng.index_below(self.count_candidates(rarity)),
            Err(_) => 0,
        };
        proof {
            assert(self@.gacha.admits(index as int, slot as int));
            lemma_yield_is_offered(self@.gacha, index as int, slot as int);
        }
        self.student_at(index, slot)
    }

    /// Draws one of the pool's students of a rarity, each with the same chance. The rates
    /// and the priority students play no part in it.
    pub fn get_random_student_of_rarity<R: RandomSource>(
        &self,
        rarity: Rarity,
        rng: &mut R,
    ) -> (student: Student)
        requires
            self@.gacha.of_rarity(rarity).len() > 0,
        ensures
            self@.gacha.of_rarity(rarity).contains(student@),
            self@.gacha.pool.contains(student@),
            student@.rarity == rarity,
    {
        let slot = rng.index_below(self.count_of_rarity(rarity));
        proof {
            let test = self@.gacha.picks(rarity, false);
            let found = self@.gacha.of_rarity(rarity)[slot as int];
            assert(self@.gacha.of_rarity(rarity).contains(found));
            self@.gacha.pool.lemma_filter_pred(test, slot as int);
            self@.gacha.pool.lemma_filter_contains_rev(test, found);
        }
        self.student_of_rarity_at(rarity, slot)
    }

    /// Whether the ten fall short of what a ten-roll owes: none of them has two stars, and
    /// the last has not three.
    pub fn lacks_guarantee(students: &[Student; 10]) -> (short: bool)
        ensures
            short == falls_short(students.deep_view()),
    {
        let mut i: usize = 0;
        while i < 10
            invariant
                i <= 10,
                forall|j: int| 0 <= j < i ==> students.deep_view()[j].rarity != Rarity::Two,
            decreases 10 - i,
        {
            if students[i].rarity == Rarity::Two {
                assert(students.deep_view()[i as int].rarity == Rarity::Two);
                return false;
            }
            i += 1;
        }
        students[9].rarity != Rarity::Three
    }

    /// Draws ten students, one after the other and each as a single draw. Where they fall
    /// short, the last of them gives way to a two-star student drawn from the pool.
    pub fn roll10_with<R: RandomSource>(&self, rng: &mut R) -> (students: [Student; 10])
        requires
            self@.gacha.ready10(),
        ensures
            exists|draws: Seq<StudentView>, spare: StudentView|
                {
                    &&& draws.len() == 10
                    &&& forall|i: int| 0 <= i < 10 ==> self@.gacha.can_yield(#[trigger] draws[i])
                    &&& falls_short(draws) ==> self@.gacha.of_rarity(Rarity::Two).contains(spare)
                    &&& students.deep_view() == settled(draws, spare)
                },
            forall|i: int| 0 <= i < 10 ==> self@.gacha.offers(#[trigger] students.deep_view()[i]),
            !falls_short(students.deep_view()),
    {
        let mut students: [Student; 10] = [
            self.get_random_student(rng),
            self.get_random_student(rng),
            self.get_random_student(rng),
            self.get_random_student(rng),
            self.get_random_student(rng),
            self.get_random_student(rng),
            self.get_random_student(rng),
            self.get_random_student(rng),
            self.get_random_student(rng),
            self.get_random_student(rng),
        ];
        let ghost draws = students.deep_view();
        let ghost spare = draws[9];
        if Self::lacks_guarantee(&students) {
            assert(self@.gacha.can_yield(draws[9]) && draws[9].rarity == Rarity::One);
            let substitute = self.get_random_student_of_rarity(Rarity::Two, rng);
            proof {
                spare = substitute@;
            }
            students[9] = substitute;
        }
        proof {
            assert(students.deep_view() =~= settled(draws, spare));
        }
        students
    }
}

impl Recruitment for Banner {
    open spec fn can_roll(&self) -> bool {
        self@.gacha.ready()
    }

    open spec fn can_roll10(&self) -> bool {
        self@.gacha.ready10()
    }

    open spec fn offers(&self, student: StudentView) -> bool {
        self@.gacha.offers(student)
    }

    /// Draws one student by the banner's rates, with the thread's generator.
    fn roll(&self) -> (student: Student)
        ensures
            self@.gacha.can_yield(student@),
    {
        let mut source = ThreadSource::new();
        self.get_random_student(&mut source)
    }

    /// Draws ten students with the thread's generator.
    fn roll10(&self) -> (students: [Student; 10])
        ensures
            exists|draws: Seq<StudentView>, spare: StudentView|
                {
                    &&& draws.len() == 10
                    &&& forall|i: int| 0 <= i < 10 ==> self@.gacha.can_yield(#[trigger] draws[i])
                    &&& falls_short(draws) ==> self@.gacha.of_rarity(Rarity::Two).contains(spare)
                    &&& students.deep_view() == settled(draws, spare)
                },
    {
        let mut source = ThreadSource::new();
        self.roll10_with(&mut source)
    }
}

} // verus!
