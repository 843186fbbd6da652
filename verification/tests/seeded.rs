use blue_gacha::banner::{Banner, BannerBuilder};
use blue_gacha::gacha::{GachaBuilder, Rarity};
use blue_gacha::random::RandomSource;
use blue_gacha::student::Student;
use rand::distributions::{Distribution, WeightedIndex};
use rand::rngs::StdRng;
use rand::{Rng, SeedableRng};

/// A source of one's own: a generator that is started from a seed.
struct Seeded(StdRng);

impl Seeded {
    fn new(seed: u64) -> Self {
        Seeded(StdRng::seed_from_u64(seed))
    }
}

impl RandomSource for Seeded {
    fn weighted_index(&mut self, weights: &[usize]) -> usize {
        WeightedIndex::new(weights).unwrap().sample(&mut self.0)
    }

    fn index_below(&mut self, bound: usize) -> usize {
        self.0.gen_range(0..bound)
    }
}

fn abc_banner() -> Banner {
    let pool = vec![
        Student::new("A", Rarity::Three),
        Student::new("B", Rarity::Two),
        Student::new("C", Rarity::One),
    ];
    let gacha = GachaBuilder::new(790, 185, 25).with_pool(pool).finish().unwrap();
    BannerBuilder::new("ピックアップ募集").with_gacha(&gacha).finish().unwrap()
}

#[test]
fn seeded_draws_follow_the_rates() {
    let banner = abc_banner();
    let mut source = Seeded::new(20210211);
    let draws = 100_000;
    let mut seen = [0usize; 3];
    for _ in 0..draws {
        match banner.get_random_student(&mut source).rarity {
            Rarity::One => seen[0] += 1,
            Rarity::Two => seen[1] += 1,
            Rarity::Three => seen[2] += 1,
        }
    }
    assert_eq!(seen[0] + seen[1] + seen[2], draws);
    let rates = [0.790, 0.185, 0.025];
    for (count, rate) in seen.iter().zip(rates.iter()) {
        let share = *count as f64 / draws as f64;
        assert!((share - rate).abs() < 0.01);
    }
}

#[test]
fn the_same_seed_gives_the_same_ten_roll() {
    let banner = abc_banner();
    for seed in 0..50 {
        let first = banner.roll10_with(&mut Seeded::new(seed));
        let second = banner.roll10_with(&mut Seeded::new(seed));
        for (a, b) in first.iter().zip(second.iter()) {
            assert!(a.name == b.name);
            assert_eq!(a.rarity, b.rarity);
        }
        assert!(!Banner::lacks_guarantee(&first));
    }
}

#[test]
fn seeded_ten_rolls_are_made_up_for_only_where_they_fall_short() {
    let banner = abc_banner();
    let mut made_up = 0;
    for seed in 0..300 {
        // the ten single draws that the ten-roll starts from
        let mut source = Seeded::new(seed);
        let mut draws = Vec::new();
        for _ in 0..10 {
            draws.push(banner.get_random_student(&mut source));
        }
        let short = draws.iter().all(|student| student.rarity != Rarity::Two)
            && draws[9].rarity != Rarity::Three;
        let students = banner.roll10_with(&mut Seeded::new(seed));
        for (drawn, student) in draws.iter().zip(students.iter()).take(9) {
            assert!(drawn.name == student.name);
        }
        if short {
            made_up += 1;
            assert!(students[9].name.reads("B"));
        } else {
            assert!(students[9].name == draws[9].name);
        }
    }
    // about one ten-roll in eight falls short
    assert!(made_up > 0);
    assert!(made_up < 300);
}
