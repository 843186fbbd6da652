use blue_gacha::catalog::{all_students, create_student, find_student, pickup_banner_2021_02_11};
use blue_gacha::gacha::Rarity;
use blue_gacha::i18n::Language;

#[test]
fn create_student_sets_both_names() {
    let hina = create_student("ヒナ", "Hina", Rarity::Three);
    assert_eq!(hina.name.get(Language::Japanese), Some("ヒナ".to_string()));
    assert_eq!(hina.name.get(Language::English), Some("Hina".to_string()));
    assert_eq!(hina.rarity, Rarity::Three);
}

#[test]
fn all_students_lists_every_student_by_rarity() {
    let students = all_students();
    assert_eq!(students.len(), 45);
    for (i, student) in students.iter().enumerate() {
        let rarity = if i < 17 {
            Rarity::Three
        } else if i < 34 {
            Rarity::Two
        } else {
            Rarity::One
        };
        assert_eq!(student.rarity, rarity);
        assert!(student.name.get(Language::English).is_some());
    }
    assert!(students[0].name.reads("ヒナ"));
    assert_eq!(students[0].name.get(Language::English), Some("Hina".to_string()));
    assert!(students[16].name.reads("ツルギ"));
    assert!(students[17].name.reads("アカリ"));
    assert!(students[33].name.reads("ノゾミ"));
    assert_eq!(students[33].name.get(Language::English), Some("Nozomi".to_string()));
    assert!(students[34].name.reads("チナツ"));
    assert!(students[40].name.reads("フィーナ"));
    assert_eq!(students[40].name.get(Language::English), Some("Pina".to_string()));
    assert!(students[44].name.reads("ヨシミ"));
}

#[test]
fn all_students_have_names_of_their_own() {
    let students = all_students();
    for (i, student) in students.iter().enumerate() {
        for other in &students[i + 1..] {
            assert!(student.name != other.name);
            assert_ne!(student.name.to_text(), other.name.to_text());
        }
    }
}

#[test]
fn the_pickup_pool_is_every_student_but_nozomi() {
    let mut expected = all_students();
    let nozomi = expected.remove(33);
    assert!(nozomi.name.reads("ノゾミ"));
    let pool = pickup_banner_2021_02_11();
    assert_eq!(pool.len(), 44);
    assert_eq!(pool.len(), expected.len());
    for (student, other) in pool.iter().zip(expected.iter()) {
        assert!(student.name == other.name);
        assert_eq!(student.rarity, other.rarity);
    }
    assert!(find_student(&pool, "ノゾミ").is_none());
}

#[test]
fn find_student_finds_by_japanese_name() {
    let students = all_students();
    let karin = find_student(&students, "カリン").unwrap();
    assert_eq!(karin.name.get(Language::English), Some("Karin".to_string()));
    assert_eq!(karin.rarity, Rarity::Three);
    let mutsuki = find_student(&students, "ムツキ").unwrap();
    assert_eq!(mutsuki.name.get(Language::English), Some("Mutsuki".to_string()));
    assert_eq!(mutsuki.rarity, Rarity::Two);
}

#[test]
fn find_student_finds_nothing_for_an_unknown_name() {
    let students = all_students();
    assert!(find_student(&students, "Karin").is_none());
    assert!(find_student(&students, "").is_none());
    assert!(find_student(&[], "カリン").is_none());
}

#[test]
fn find_student_takes_the_first_of_two() {
    let students = vec![
        create_student("ハル", "Haru", Rarity::Two),
        create_student("アル", "Aru", Rarity::Three),
        create_student("アル", "Other", Rarity::One),
    ];
    let found = find_student(&students, "アル").unwrap();
    assert_eq!(found.name.get(Language::English), Some("Aru".to_string()));
    assert_eq!(found.rarity, Rarity::Three);
}
