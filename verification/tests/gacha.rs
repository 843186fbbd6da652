use blue_gacha::gacha::{Gacha, GachaBuilder, Rarity};
use blue_gacha::student::Student;
use std::cmp::Ordering;

fn per_mille(percent: f32) -> usize {
    (percent * 10.0) as usize
}

fn small_pool() -> Vec<Student> {
    vec![
        Student::new("A", Rarity::Three),
        Student::new("B", Rarity::Two),
        Student::new("C", Rarity::One),
    ]
}

#[test]
fn rarities_are_ordered_by_stars() {
    assert!(Rarity::One < Rarity::Two);
    assert!(Rarity::Two < Rarity::Three);
    assert!(Rarity::One < Rarity::Three);
    assert!(Rarity::Three > Rarity::One);
    assert!(Rarity::Two >= Rarity::Two);
    assert_eq!(Rarity::One.partial_cmp(&Rarity::One), Some(Ordering::Equal));
    assert_eq!(Rarity::One.partial_cmp(&Rarity::Two), Some(Ordering::Less));
    assert_eq!(Rarity::One.partial_cmp(&Rarity::Three), Some(Ordering::Less));
    assert_eq!(Rarity::Two.partial_cmp(&Rarity::One), Some(Ordering::Greater));
    assert_eq!(Rarity::Two.partial_cmp(&Rarity::Two), Some(Ordering::Equal));
    assert_eq!(Rarity::Two.partial_cmp(&Rarity::Three), Some(Ordering::Less));
    assert_eq!(Rarity::Three.partial_cmp(&Rarity::One), Some(Ordering::Greater));
    assert_eq!(Rarity::Three.partial_cmp(&Rarity::Two), Some(Ordering::Greater));
    assert_eq!(Rarity::Three.partial_cmp(&Rarity::Three), Some(Ordering::Equal));
}

#[test]
fn total_order_agrees_with_partial_order() {
    let all = [Rarity::One, Rarity::Two, Rarity::Three];
    for a in all {
        for b in all {
            assert_eq!(Some(a.cmp(&b)), a.partial_cmp(&b));
        }
    }
    assert_eq!(Rarity::Two.max(Rarity::Three), Rarity::Three);
    assert_eq!(Rarity::Two.min(Rarity::One), Rarity::One);
}

#[test]
fn default_rarity_is_one_star() {
    assert_eq!(Rarity::default(), Rarity::One);
}

#[test]
fn rarity_text_is_stars() {
    assert_eq!(Rarity::One.to_text(), "1★");
    assert_eq!(Rarity::Two.to_text(), "2★");
    assert_eq!(Rarity::Three.to_text(), "3★");
}

#[test]
fn get_rate_returns_the_rate_in_a_thousand() {
    let gacha = GachaBuilder::new(per_mille(79.0), per_mille(18.5), per_mille(2.5))
        .with_pool(Vec::new())
        .finish()
        .unwrap();
    assert_eq!(gacha.get_rate(Rarity::One), 790);
    assert_eq!(gacha.get_rate(Rarity::Two), 185);
    assert_eq!(gacha.get_rate(Rarity::Three), 25);
}

#[test]
fn rates_of_a_built_table_add_up_to_a_thousand() {
    for (one, two, three) in [(790, 185, 25), (1000, 0, 0), (0, 0, 1000), (333, 333, 334)] {
        let gacha = GachaBuilder::new(one, two, three).with_pool(small_pool()).finish().unwrap();
        assert_eq!(gacha.rates, (one, two, three));
        assert_eq!(gacha.rates.0 + gacha.rates.1 + gacha.rates.2, 1000);
        assert!(gacha.is_well_formed());
    }
}

#[test]
fn default_builder_has_the_usual_rates() {
    let gacha = GachaBuilder::default().with_pool(Vec::new()).finish().unwrap();
    assert_eq!(gacha.rates, (790, 185, 25));
    assert!(gacha.pool.is_empty());
    assert!(gacha.priority.is_none());
}

#[test]
fn finish_without_a_pool_gives_nothing() {
    assert!(GachaBuilder::default().finish().is_none());
    assert!(GachaBuilder::new(790, 185, 25).finish().is_none());
    let karin = Student::new("カリン", Rarity::Three).into_priority_student(7);
    assert!(GachaBuilder::default().with_priority(vec![karin]).finish().is_none());
}

#[test]
fn finish_keeps_pool_and_priority() {
    let karin = Student::new("カリン", Rarity::Three);
    let mutsuki = Student::new("ムツキ", Rarity::Two);
    let pool = vec![karin.clone(), mutsuki.clone()];
    let priority = vec![karin.into_priority_student(7), mutsuki.into_priority_student(30)];
    let gacha = GachaBuilder::new(790, 185, 25)
        .with_pool(pool)
        .with_priority(priority)
        .finish()
        .unwrap();
    assert_eq!(gacha.pool.len(), 2);
    assert!(gacha.pool[0].name.reads("カリン"));
    assert!(gacha.pool[1].name.reads("ムツキ"));
    let priority = gacha.priority.as_ref().unwrap();
    assert_eq!(priority.len(), 2);
    assert_eq!(priority[0].rate, 7);
    assert!(priority[0].student().name.reads("カリン"));
    assert_eq!(priority[1].rate, 30);
    assert!(priority[1].student().name.reads("ムツキ"));
}

#[test]
fn a_later_pool_replaces_an_earlier_one() {
    let gacha = GachaBuilder::default()
        .with_pool(small_pool())
        .with_pool(vec![Student::new("D", Rarity::One)])
        .finish()
        .unwrap();
    assert_eq!(gacha.pool.len(), 1);
    assert!(gacha.pool[0].name.reads("D"));
}

#[test]
fn default_table_is_empty_and_not_well_formed() {
    let gacha = Gacha::default();
    assert_eq!(gacha.rates, (0, 0, 0));
    assert!(gacha.pool.is_empty());
    assert!(gacha.priority.is_none());
    assert!(!gacha.is_well_formed());
    assert_eq!(gacha.tier_weights(), Some((0, 0, 0)));
}

#[test]
fn tier_weights_without_priority_are_the_rates() {
    let gacha = GachaBuilder::default().with_pool(small_pool()).finish().unwrap();
    assert_eq!(gacha.tier_weights(), Some((790, 185, 25)));
    let gacha = GachaBuilder::default()
        .with_pool(small_pool())
        .with_priority(Vec::new())
        .finish()
        .unwrap();
    assert_eq!(gacha.tier_weights(), Some((790, 185, 25)));
}

#[test]
fn tier_weights_take_each_priority_rate_from_its_rarity() {
    let priority = vec![
        Student::new("カリン", Rarity::Three).into_priority_student(7),
        Student::new("ムツキ", Rarity::Two).into_priority_student(30),
        Student::new("アル", Rarity::Three).into_priority_student(10),
        Student::new("チナツ", Rarity::One).into_priority_student(90),
    ];
    let gacha = GachaBuilder::default()
        .with_pool(small_pool())
        .with_priority(priority)
        .finish()
        .unwrap();
    assert_eq!(gacha.tier_weights(), Some((700, 155, 8)));
    assert!(gacha.is_well_formed());
}

#[test]
fn tier_weights_may_go_down_to_zero() {
    let priority = vec![
        Student::new("カリン", Rarity::Three).into_priority_student(20),
        Student::new("アル", Rarity::Three).into_priority_student(5),
    ];
    let gacha = GachaBuilder::default()
        .with_pool(small_pool())
        .with_priority(priority)
        .finish()
        .unwrap();
    assert_eq!(gacha.tier_weights(), Some((790, 185, 0)));
    assert!(gacha.is_well_formed());
}

#[test]
fn priority_rates_above_the_rarity_rate_do_not_fit() {
    let priority = vec![
        Student::new("カリン", Rarity::Three).into_priority_student(20),
        Student::new("アル", Rarity::Three).into_priority_student(6),
    ];
    let gacha = GachaBuilder::default()
        .with_pool(small_pool())
        .with_priority(priority)
        .finish()
        .unwrap();
    assert_eq!(gacha.tier_weights(), None);
    assert!(!gacha.is_well_formed());
}

#[test]
fn a_table_whose_rates_miss_a_thousand_is_not_well_formed() {
    let mut gacha = GachaBuilder::default().with_pool(small_pool()).finish().unwrap();
    assert!(gacha.is_well_formed());
    gacha.rates = (790, 185, 24);
    assert!(!gacha.is_well_formed());
    gacha.rates = (790, 185, 26);
    assert!(!gacha.is_well_formed());
    gacha.rates = (usize::MAX, 1, 1000);
    assert!(!gacha.is_well_formed());
    gacha.rates = (0, 1001, 0);
    assert!(!gacha.is_well_formed());
}

#[test]
fn a_cloned_table_is_the_same_table() {
    let karin = Student::new("カリン", Rarity::Three);
    let gacha = GachaBuilder::default()
        .with_pool(vec![karin.clone()])
        .with_priority(vec![karin.into_priority_student(7)])
        .finish()
        .unwrap();
    let copy = gacha.clone();
    assert_eq!(copy.rates, gacha.rates);
    assert_eq!(copy.pool.len(), 1);
    assert!(copy.pool[0].name == gacha.pool[0].name);
    assert_eq!(copy.priority.as_ref().unwrap()[0].rate, 7);
    assert_eq!(copy.tier_weights(), Some((790, 185, 18)));
}
