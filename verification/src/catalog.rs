//! The students of the game, and the pool of the pick-up banner of 11 February 2021.
use crate::gacha::Rarity;
use crate::i18n::Language;
use crate::student::{Student, StudentView};
use vstd::prelude::*;

verus! {

/// A student as the catalogue lists it: a Japanese name, an English name and a rarity.
pub open spec fn entry(jpn_name: Seq<char>, eng_name: Seq<char>, rarity: Rarity) -> StudentView {
    StudentView {
        name: map![Language::Japanese => jpn_name, Language::English => eng_name],
        rarity,
    }
}

/// Every student of the game: the three-star ones, then the two-star ones, then the
/// one-star ones.
pub open spec fn roster() -> Seq<StudentView> {
    seq![
        entry("ヒナ"@, "Hina"@, Rarity::Three),
        entry("イオリ"@, "Iori"@, Rarity::Three),
        entry("ハルナ"@, "Haruna"@, Rarity::Three),
        entry("イズミ"@, "Izumi"@, Rarity::Three),
        entry("アル"@, "Aru"@, Rarity::Three),
        entry("スミレ"@, "Sumire"@, Rarity::Three),
        entry("エイミ"@, "Iemi"@, Rarity::Three),
        entry("カリン"@, "Karin"@, Rarity::Three),
        entry("ネル"@, "Neru"@, Rarity::Three),
        entry("マキ"@, "Maki"@, Rarity::Three),
        entry("ヒビキ"@, "Hibiki"@, Rarity::Three),
        entry("サヤ"@, "Saya"@, Rarity::Three),
        entry("シュン"@, "Shun"@, Rarity::Three),
        entry("シロコ"@, "Shiroko"@, Rarity::Three),
        entry("ホシノ"@, "Hoshino"@, Rarity::Three),
        entry("ヒフミ"@, "Hifumi"@, Rarity::Three),
        entry("ツルギ"@, "Tsurugi"@, Rarity::Three),
        entry("アカリ"@, "Akari"@, Rarity::Two),
        entry("ジュンコ"@, "Junko"@, Rarity::Two),
        entry("ムツキ"@, "Mutsuki"@, Rarity::Two),
        entry("カヨコ"@, "Kayoko"@, Rarity::Two),
        entry("フウカ"@, "Fuuka"@, Rarity::Two),
        entry("ユウカ"@, "Yuuka"@, Rarity::Two),
        entry("アカネ"@, "Akane"@, Rarity::Two),
        entry("ハル"@, "Haru"@, Rarity::Two),
        entry("ウタハ"@, "Utaha"@, Rarity::Two),
        entry("チセ"@, "Chise"@, Rarity::Two),
        entry("ツバキ"@, "Tsubaki"@, Rarity::Two),
        entry("セリカ"@, "Serika"@, Rarity::Two),
        entry("アヤネ"@, "Ayane"@, Rarity::Two),
        entry("ハスミ"@, "Hasumi"@, Rarity::Two),
        entry("ハナエ"@, "Hanae"@, Rarity::Two),
        entry("アイリ"@, "Airi"@, Rarity::Two),
        entry("ノゾミ"@, "Nozomi"@, Rarity::Two),
        entry("チナツ"@, "Chinatsu"@, Rarity::One),
        entry("ハルカ"@, "Haruka"@, Rarity::One),
        entry("ジュリ"@, "Juri"@, Rarity::One),
        entry("コタマ"@, "Kotama"@, Rarity::One),
        entry("アスナ"@, "Asuna"@, Rarity::One),
        entry("コトリ"@, "Kotori"@, Rarity::One),
        entry("フィーナ"@, "Pina"@, Rarity::One),
        entry("スズミ"@, "Suzumi"@, Rarity::One),
        entry("シミコ"@, "Shimiko"@, Rarity::One),
        entry("セリナ"@, "Serina"@, Rarity::One),
        entry("ヨシミ"@, "Yoshimi"@, Rarity::One),
    ]
}

/// The place of ノゾミ in the roster: the one student that no banner offers.
pub open spec fn absent() -> int {
    33
}

/// The student with the given names and rarity.
pub fn create_student(jpn_name: &str, eng_name: &str, rarity: Rarity) -> (student: Student)
    ensures
        student@ == entry(jpn_name@, eng_name@, rarity),
{
    let mut student = Student::new(jpn_name, rarity);
    student.add_translation(Language::English, eng_name);
    assert(student@.name =~= entry(jpn_name@, eng_name@, rarity).name);
    student
}

/// The pool of the pick-up banner of 11 February 2021: every student but ノゾミ.
pub fn pickup_banner_2021_02_11() -> (students: Vec<Student>)
    ensures
        students.deep_view() == roster().remove(absent()),
{
    let mut students: Vec<Student> = Vec::new();
    // 3 Star
    students.push(create_student("ヒナ", "Hina", Rarity::Three));
    students.push(create_student("イオリ", "Iori", Rarity::Three));
    students.push(create_student("ハルナ", "Haruna", Rarity::Three));
    students.push(create_student("イズミ", "Izumi", Rarity::Three));
    students.push(create_student("アル", "Aru", Rarity::Three));
    students.push(create_student("スミレ", "Sumire", Rarity::Three));
    students.push(create_student("エイミ", "Iemi", Rarity::Three));
    students.push(create_student("カリン", "Karin", Rarity::Three));
    students.push(create_student("ネル", "Neru", Rarity::Three));
    students.push(create_student("マキ", "Maki", Rarity::Three));
    students.push(create_student("ヒビキ", "Hibiki", Rarity::Three));
    students.push(create_student("サヤ", "Saya", Rarity::Three));
    students.push(create_student("シュン", "Shun", Rarity::Three));
    students.push(create_student("シロコ", "Shiroko", Rarity::Three));
    students.push(create_student("ホシノ", "Hoshino", Rarity::Three));
    students.push(create_student("ヒフミ", "Hifumi", Rarity::Three));
    students.push(create_student("ツルギ", "Tsurugi", Rarity::Three));
    // 2 Star
    students.push(create_student("アカリ", "Akari", Rarity::Two));
    students.push(create_student("ジュンコ", "Junko", Rarity::Two));
    students.push(create_student("ムツキ", "Mutsuki", Rarity::Two));
    students.push(create_student("カヨコ", "Kayoko", Rarity::Two));
    students.push(create_student("フウカ", "Fuuka", Rarity::Two));
    students.push(create_student("ユウカ", "Yuuka", Rarity::Two));
    students.push(create_student("アカネ", "Akane", Rarity::Two));
    students.push(create_student("ハル", "Haru", Rarity::Two));
    students.push(create_student("ウタハ", "Utaha", Rarity::Two));
    students.push(create_student("チセ", "Chise", Rarity::Two));
    students.push(create_student("ツバキ", "Tsubaki", Rarity::Two));
    students.push(create_student("セリカ", "Serika", Rarity::Two));
    students.push(create_student("アヤネ", "Ayane", Rarity::Two));
    students.push(create_student("ハスミ", "Hasumi", Rarity::Two));
    students.push(create_student("ハナエ", "Hanae", Rarity::Two));
    students.push(create_student("アイリ", "Airi", Rarity::Two));
    // 1 Star
    students.push(create_student("チナツ", "Chinatsu", Rarity::One));
    students.push(create_student("ハルカ", "Haruka", Rarity::One));
    students.push(create_student("ジュリ", "Juri", Rarity::One));
    students.push(create_student("コタマ", "Kotama", Rarity::One));
    students.push(create_student("アスナ", "Asuna", Rarity::One));
    students.push(create_student("コトリ", "Kotori", Rarity::One));
    students.push(create_student("フィーナ", "Pina", Rarity::One));
    students.push(create_student("スズミ", "Suzumi", Rarity::One));
    students.push(create_student("シミコ", "Shimiko", Rarity::One));
    students.push(create_student("セリナ", "Serina", Rarity::One));
    students.push(create_student("ヨシミ", "Yoshimi", Rarity::One));
    assert(students.deep_view() =~= roster().remove(absent()));
    students
}

/// Every student of the game.
pub fn all_students() -> (students: Vec<Student>)
    ensures
        students.deep_view() == roster(),
{
    let mut students: Vec<Student> = Vec::with_capacity(45);
    // 3 Star
    students.push(create_student("ヒナ", "Hina", Rarity::Three));
    students.push(create_student("イオリ", "Iori", Rarity::Three));
    students.push(create_student("ハルナ", "Haruna", Rarity::Three));
    students.push(create_student("イズミ", "Izumi", Rarity::Three));
    students.push(create_student("アル", "Aru", Rarity::Three));
    students.push(create_student("スミレ", "Sumire", Rarity::Three));
    students.push(create_student("エイミ", "Iemi", Rarity::Three));
    students.push(create_student("カリン", "Karin", Rarity::Three));
    students.push(create_student("ネル", "Neru", Rarity::Three));
    students.push(create_student("マキ", "Maki", Rarity::Three));
    students.push(create_student("ヒビキ", "Hibiki", Rarity::Three));
    students.push(create_student("サヤ", "Saya", Rarity::Three));
    students.push(create_student("シュン", "Shun", Rarity::Three));
    students.push(create_student("シロコ", "Shiroko", Rarity::Three));
    students.push(create_student("ホシノ", "Hoshino", Rarity::Three));
    students.push(create_student("ヒフミ", "Hifumi", Rarity::Three));
    students.push(create_student("ツルギ", "Tsurugi", Rarity::Three));
    // 2 Star
    students.push(create_student("アカリ", "Akari", Rarity::Two));
    students.push(create_student("ジュンコ", "Junko", Rarity::Two));
    students.push(create_student("ムツキ", "Mutsuki", Rarity::Two));
    students.push(create_student("カヨコ", "Kayoko", Rarity::Two));
    students.push(create_student("フウカ", "Fuuka", Rarity::Two));
    students.push(create_student("ユウカ", "Yuuka", Rarity::Two));
    students.push(create_student("アカネ", "Akane", Rarity::Two));
    students.push(create_student("ハル", "Haru", Rarity::Two));
    students.push(create_student("ウタハ", "Utaha", Rarity::Two));
    students.push(create_student("チセ", "Chise", Rarity::Two));
    students.push(create_student("ツバキ", "Tsubaki", Rarity::Two));
    students.push(create_student("セリカ", "Serika", Rarity::Two));
    students.push(create_student("アヤネ", "Ayane", Rarity::Two));
    students.push(create_student("ハスミ", "Hasumi", Rarity::Two));
    students.push(create_student("ハナエ", "Hanae", Rarity::Two));
    students.push(create_student("アイリ", "Airi", Rarity::Two));
    students.push(create_student("ノゾミ", "Nozomi", Rarity::Two));  // no banner offers her
    // 1 Star
    students.push(create_student("チナツ", "Chinatsu", Rarity::One));
    students.push(create_student("ハルカ", "Haruka", Rarity::One));
    students.push(create_student("ジュリ", "Juri", Rarity::One));
    students.push(create_student("コタマ", "Kotama", Rarity::One));
    students.push(create_student("アスナ", "Asuna", Rarity::One));
    students.push(create_student("コトリ", "Kotori", Rarity::One));
    students.push(create_student("フィーナ", "Pina", Rarity::One));
    students.push(create_student("スズミ", "Suzumi", Rarity::One));
    students.push(create_student("シミコ", "Shimiko", Rarity::One));
    students.push(create_student("セリナ", "Serina", Rarity::One));
    students.push(create_student("ヨシミ", "Yoshimi", Rarity::One));
    assert(students.deep_view() =~= roster());
    students
}

/// The first of the students whose Japanese name is `jpn_name`, if there is one.
pub fn find_student(students: &[Student], jpn_name: &str) -> (found: Option<Student>)
    ensures
        match found {
            Some(student) => exists|i: int|
                {
                    &&& 0 <= i < students.len()
                    &&& student@ == students.deep_view()[i]
                    &&& student@.name[Language::Japanese] == jpn_name@
                    &&& forall|j: int|
                        0 <= j < i ==> students.deep_view()[j].name[Language::Japanese] != jpn_name@
                },
            None => forall|i: int|
                0 <= i < students.len() ==> students.deep_view()[i].name[Language::Japanese]
                    != jpn_name@,
        },
{
    let mut i: usize = 0;
    while i < students.len()
        invariant
            i <= students.len(),
            forall|j: int|
                0 <= j < i ==> students.deep_view()[j].name[Language::Japanese] != jpn_name@,
        decreases students.len() - i,
    {
        if students[i].name.reads(jpn_name) {
            let student = students[i].clone();
            assert(student@ == students.deep_view()[i as int]);
            return Some(student);
        }
        i += 1;
    }
    None
}

} // verus!
