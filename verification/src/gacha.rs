//! Rarities and the rate table that a banner draws by.
use crate::draw::falls_short;
use crate::student::{PriorityStudent, PriorityView, Student, StudentView};
use std::cmp::Ordering;
use vstd::prelude::*;

verus! {

const THREE_STAR_RATE: usize = 25;

const TWO_STAR_RATE: usize = 185;

const ONE_STAR_RATE: usize = 790;

/// The rarities a student can have, from one star to three.
#[derive(Debug, Clone, Copy, PartialEq, Eq, Structural, Ord)]
pub enum Rarity {
    One,
    Two,
    Three,
}

impl Rarity {
    /// The number of stars: rarities are ordered by it.
    pub open spec fn stars(self) -> nat {
        match self {
            Rarity::One => 1,
            Rarity::Two => 2,
            Rarity::Three => 3,
        }
    }

    /// The rarity as it is shown to a player: the number of stars and a star.
    pub open spec fn text(self) -> Seq<char> {
        match self {
            Rarity::One => "1★"@,
            Rarity::Two => "2★"@,
            Rarity::Three => "3★"@,
        }
    }

    /// The rarity as it is shown to a player: the number of stars and a star.
    pub fn to_text(&self) -> (text: String)
        ensures
            text@ == self.text(),
    {
        match *self {
            Rarity::One => "1★".to_owned(),
            Rarity::Two => "2★".to_owned(),
            Rarity::Three => "3★".to_owned(),
        }
    }
}

impl Default for Rarity {
    fn default() -> (rarity: Self)
        ensures
            rarity == Rarity::One,
    {
        Self::One
    }
}

impl PartialOrd for Rarity {
    fn partial_cmp(&self, other: &Self) -> (order: Option<Ordering>) {
        Some(
            match (*self, *other) {
                (Rarity::One, Rarity::One) => Ordering::Equal,
                (Rarity::One, Rarity::Two) => Ordering::Less,
                (Rarity::One, Rarity::Three) => Ordering::Less,
                (Rarity::Two, Rarity::One) => Ordering::Greater,
                (Rarity::Two, Rarity::Two) => Ordering::Equal,
                (Rarity::Two, Rarity::Three) => Ordering::Less,
                (Rarity::Three, Rarity::One) => Ordering::Greater,
                (Rarity::Three, Rarity::Two) => Ordering::Greater,
                (Rarity::Three, Rarity::Three) => Ordering::Equal,
            },
        )
    }
}

impl vstd::std_specs::cmp::PartialOrdSpecImpl for Rarity {
    open spec fn obeys_partial_cmp_spec() -> bool {
        true
    }

    open spec fn partial_cmp_spec(&self, other: &Self) -> Option<Ordering> {
        if self.stars() < other.stars() {
            Some(Ordering::Less)
        } else if self.stars() == other.stars() {
            Some(Ordering::Equal)
        } else {
            Some(Ordering::Greater)
        }
    }
}

/// Single rolls and ten-rolls. Every banner is expected to offer both.
pub trait Recruitment {
    /// Whether a single roll can be made.
    spec fn can_roll(&self) -> bool;

    /// Whether a ten-roll can be made.
    spec fn can_roll10(&self) -> bool;

    /// Whether the student is among those that are on offer.
    spec fn offers(&self, student: StudentView) -> bool;

    /// One student, drawn from those on offer.
    fn roll(&self) -> (student: Student)
        requires
            self.can_roll(),
        ensures
            self.offers(student@),
    ;

    /// Ten students, each drawn from those on offer, that do not fall short: one of them
    /// has two stars, or the last has three.
    fn roll10(&self) -> (students: [Student; 10])
        requires
            self.can_roll10(),
        ensures
            forall|i: int| 0 <= i < 10 ==> self.offers(#[trigger] students.deep_view()[i]),
            !falls_short(students.deep_view()),
    ;
}

/// What a rate table is to the draw rules.
pub struct GachaView {
    /// The rates of one, two and three stars, each in a thousand.
    pub rates: (nat, nat, nat),
    pub pool: Seq<StudentView>,
    pub priority: Option<Seq<PriorityView>>,
}

/// The rates of the priority students of one rarity, added up.
pub open spec fn reserved(priority: Seq<PriorityView>, rarity: Rarity) -> nat
    decreases priority.len(),
{
    if priority.len() == 0 {
        0
    } else {
        let last = priority.last();
        reserved(priority.drop_last(), rarity) + if last.student.rarity == rarity {
            last.rate
        } else {
            0
        }
    }
}

/// A longer list of priority students reserves no less than a part of it from the front.
pub proof fn lemma_reserved_grows(priority: Seq<PriorityView>, n: int, rarity: Rarity)
    requires
        0 <= n <= priority.len(),
    ensures
        reserved(priority.take(n), rarity) <= reserved(priority, rarity),
    decreases priority.len(),
{
    if n == priority.len() {
        assert(priority.take(n) =~= priority);
    } else {
        lemma_reserved_grows(priority.drop_last(), n, rarity);
        assert(priority.drop_last().take(n) =~= priority.take(n));
    }
}

/// One more priority student adds its rate to what its own rarity reserves, and to no other.
pub proof fn lemma_reserved_step(priority: Seq<PriorityView>, n: int, rarity: Rarity)
    requires
        0 <= n < priority.len(),
    ensures
        reserved(priority.take(n + 1), rarity) == reserved(priority.take(n), rarity) + if priority[n]
            .student.rarity == rarity {
            priority[n].rate
        } else {
            0nat
        },
{
    assert(priority.take(n + 1).drop_last() =~= priority.take(n));
}

impl GachaView {
    /// The rate of a rarity, in a thousand.
    pub open spec fn rate(self, rarity: Rarity) -> nat {
        match rarity {
            Rarity::One => self.rates.0,
            Rarity::Two => self.rates.1,
            Rarity::Three => self.rates.2,
        }
    }

    /// The priority students; none where no list was given.
    pub open spec fn boosted(self) -> Seq<PriorityView> {
        match self.priority {
            Some(list) => list,
            None => Seq::empty(),
        }
    }

    /// What the priority students of a rarity take of its rate.
    pub open spec fn reserved(self, rarity: Rarity) -> nat {
        reserved(self.boosted(), rarity)
    }

    /// What is left of a rarity's rate for its ordinary students.
    pub open spec fn tier_weight(self, rarity: Rarity) -> int {
        self.rate(rarity) - self.reserved(rarity)
    }

    /// The priority students of each rarity take no more than the rarity's rate. Where
    /// they take more, nothing could be left for the rarity's ordinary students: such a table
    /// is turned down, and no draw is made from it.
    pub open spec fn priorities_fit(self) -> bool {
        &&& self.reserved(Rarity::One) <= self.rate(Rarity::One)
        &&& self.reserved(Rarity::Two) <= self.rate(Rarity::Two)
        &&& self.reserved(Rarity::Three) <= self.rate(Rarity::Three)
    }

    /// The three rates add up to a thousand, and the priority students fit into them.
    pub open spec fn well_formed(self) -> bool {
        &&& self.rates.0 + self.rates.1 + self.rates.2 == 1000
        &&& self.priorities_fit()
    }
}

/// What a builder has been given so far.
pub struct GachaBuilderView {
    pub rates: Option<(nat, nat, nat)>,
    pub pool: Option<Seq<StudentView>>,
    pub priority: Option<Seq<PriorityView>>,
}

/// Collects what a [`Gacha`] is made of.
///
/// Unless told otherwise, the rates are 79.0% for 1★, 18.5% for 2★ and 2.5% for 3★.
pub struct GachaBuilder {
    rates: Option<(usize, usize, usize)>,
    pool: Option<Vec<Student>>,
    priority: Option<Vec<PriorityStudent>>,
}

impl View for GachaBuilder {
    type V = GachaBuilderView;

    closed spec fn view(&self) -> GachaBuilderView {
        GachaBuilderView {
            rates: match self.rates {
                Some(rates) => Some((rates.0 as nat, rates.1 as nat, rates.2 as nat)),
                None => None,
            },
            pool: match self.pool {
                Some(list) => Some(list.deep_view()),
                None => None,
            },
            priority: match self.priority {
                Some(list) => Some(list.deep_view()),
                None => None,
            },
        }
    }
}

impl Default for GachaBuilder {
    /// The builder with the usual rates, 790, 185 and 25 in a thousand, and nothing else.
    fn default() -> (builder: Self)
        ensures
            builder@ == (GachaBuilderView {
                rates: Some((790, 185, 25)),
                pool: None,
                priority: None,
            }),
    {
        Self {
            rates: Some((ONE_STAR_RATE, TWO_STAR_RATE, THREE_STAR_RATE)),
            pool: None,
            priority: None,
        }
    }
}

impl GachaBuilder {
    /// Whatever rates a builder holds add up to a thousand.
    #[verifier::type_invariant]
    spec fn rates_add_up(self) -> bool {
        match self.rates {
            Some(rates) => rates.0 + rates.1 + rates.2 == 1000,
            None => true,
        }
    }

    /// A builder with the given rates for 1★, 2★ and 3★, each in a thousand (79.0% is 790).
    /// The three must add up to a thousand.
    pub fn new(one: usize, two: usize, three: usize) -> (builder: Self)
        requires
            one + two + three == 1000,
        ensures
            builder@ == (GachaBuilderView {
                rates: Some((one as nat, two as nat, three as nat)),
                pool: None,
                priority: None,
            }),
    {
        Self { rates: Some((one, two, three)), pool: None, priority: None }
    }

    /// Sets the pool: every student that can be drawn.
    pub fn with_pool(self, students: Vec<Student>) -> (builder: Self)
        ensures
            builder@ == (GachaBuilderView { pool: Some(students.deep_view()), ..self@ }),
    {
        proof {
            use_type_invariant(&self);
        }
        Self { pool: Some(students), ..self }
    }

    /// Sets the priority students: those that are drawn at a rate of their own.
    pub fn with_priority(self, students: Vec<PriorityStudent>) -> (builder: Self)
        ensures
            builder@ == (GachaBuilderView { priority: Some(students.deep_view()), ..self@ }),
    {
        proof {
            use_type_invariant(&self);
        }
        Self { priority: Some(students), ..self }
    }

    /// The table that was built, unless the rates or the pool were never set. The rates of
    /// every table that comes out add up to a thousand.
    pub fn finish(self) -> (built: Option<Gacha>)
        ensures
            match built {
                Some(gacha) => {
                    &&& self@.rates is Some
                    &&& self@.pool is Some
                    &&& gacha@ == (GachaView {
                        rates: self@.rates->0,
                        pool: self@.pool->0,
                        priority: self@.priority,
                    })
                    &&& gacha@.rates.0 + gacha@.rates.1 + gacha@.rates.2 == 1000
                },
                None => self@.rates is None || self@.pool is None,
            },
    {
        proof {
            use_type_invariant(&self);
        }
        Some(Gacha { rates: self.rates?, pool: self.pool?, priority: self.priority })
    }
}

/// The rates, the pool and the priority students that a draw goes by.
#[derive(Debug)]
pub struct Gacha {
    /// (1★, 2★, 3★), each in a thousand.
    pub rates: (usize, usize, usize),
    pub pool: Vec<Student>,
    pub priority: Option<Vec<PriorityStudent>>,
}

impl View for Gacha {
    type V = GachaView;

    open spec fn view(&self) -> GachaView {
        GachaView {
            rates: (self.rates.0 as nat, self.rates.1 as nat, self.rates.2 as nat),
            pool: self.pool.deep_view(),
            priority: match self.priority {
                Some(list) => Some(list.deep_view()),
                None => None,
            },
        }
    }
}

impl Default for Gacha {
    /// The table with every rate at zero, an empty pool and no priority students.
    fn default() -> (gacha: Self)
        ensures
            gacha@ == (GachaView { rates: (0, 0, 0), pool: Seq::empty(), priority: None }),
    {
        let gacha = Self { rates: (0, 0, 0), pool: Vec::new(), priority: None };
        assert(gacha@.pool =~= Seq::empty());
        gacha
    }
}

impl Clone for Gacha {
    fn clone(&self) -> (copy: Self)
        ensures
            copy@ == self@,
    {
        let pool = self.pool.clone();
        let priority = match &self.priority {
            Some(list) => Some(list.clone()),
            None => None,
        };
        let copy = Self { rates: self.rates, pool, priority };
        assert(copy.pool.deep_view() =~= self.pool.deep_view());
        assert(copy@.priority =~= self@.priority);
        copy
    }
}

impl Gacha {
    /// The chance of drawing a rarity, in a thousand.
    pub fn get_rate(&self, rarity: Rarity) -> (rate: usize)
        ensures
            rate == self@.rate(rarity),
    {
        match rarity {
            Rarity::One => self.rates.0,
            Rarity::Two => self.rates.1,
            Rarity::Three => self.rates.2,
        }
    }

    /// What is left of each rarity's rate once every priority student has taken its own
    /// rate from the rate of its rarity; nothing where some rarity's priority students take
    /// more than the rarity has.
    pub fn tier_weights(&self) -> (left: Option<(usize, usize, usize)>)
        ensures
            match left {
                Some(weights) => {
                    &&& self@.priorities_fit()
                    &&& weights.0 == self@.tier_weight(Rarity::One)
                    &&& weights.1 == self@.tier_weight(Rarity::Two)
                    &&& weights.2 == self@.tier_weight(Rarity::Three)
                },
                None => !self@.priorities_fit(),
            },
    {
        let mut rates = self.rates;
        if let Some(list) = &self.priority {
            let ghost boosted = list.deep_view();
            let mut i: usize = 0;
            while i < list.len()
                invariant
                    i <= list.len(),
                    boosted == list.deep_view(),
                    boosted == self@.boosted(),
                    rates.0 == self.rates.0 - reserved(boosted.take(i as int), Rarity::One),
                    rates.1 == self.rates.1 - reserved(boosted.take(i as int), Rarity::Two),
                    rates.2 == self.rates.2 - reserved(boosted.take(i as int), Rarity::Three),
                decreases list.len() - i,
            {
                let student = &list[i];
                proof {
                    lemma_reserved_step(boosted, i as int, Rarity::One);
                    lemma_reserved_step(boosted, i as int, Rarity::Two);
                    lemma_reserved_step(boosted, i as int, Rarity::Three);
                    lemma_reserved_grows(boosted, i + 1, Rarity::One);
                    lemma_reserved_grows(boosted, i + 1, Rarity::Two);
                    lemma_reserved_grows(boosted, i + 1, Rarity::Three);
                }
                match student.student().rarity {
                    Rarity::One => {
                        if student.rate > rates.0 {
                            return None;
                        }
                        rates.0 -= student.rate;
                    },
                    Rarity::Two => {
                        if student.rate > rates.1 {
                            return None;
                        }
                        rates.1 -= student.rate;
                    },
                    Rarity::Three => {
                        if student.rate > rates.2 {
                            return None;
                        }
                        rates.2 -= student.rate;
                    },
                }
                i += 1;
            }
            assert(boosted.take(i as int) =~= boosted);
        }
        Some(rates)
    }

    /// Whether the three rates add up to a thousand and the priority students fit into them.
    pub fn is_well_formed(&self) -> (ok: bool)
        ensures
            ok == self@.well_formed(),
    {
        let (one, two, three) = self.rates;
        one <= 1000 && two <= 1000 - one && three == 1000 - one - two
            && self.tier_weights().is_some()
    }
}

} // verus!
