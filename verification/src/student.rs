//! Students, and students with a draw rate of their own.
use crate::gacha::Rarity;
use crate::i18n::{I18nString, Language};
use vstd::prelude::*;
use vstd::string::StringExecFns;

verus! {

/// What a student is to the draw rules: a name in every language it has, and a rarity.
pub struct StudentView {
    pub name: Map<Language, Seq<char>>,
    pub rarity: Rarity,
}

/// A student, with just what a draw needs to know: the name and the rarity.
#[derive(Debug)]
pub struct Student {
    /// The Japanese name is always there.
    pub name: I18nString,
    pub rarity: Rarity,
}

impl View for Student {
    type V = StudentView;

    open spec fn view(&self) -> StudentView {
        StudentView { name: self.name@, rarity: self.rarity }
    }
}

impl DeepView for Student {
    type V = StudentView;

    open spec fn deep_view(&self) -> StudentView {
        self@
    }
}

impl Default for Student {
    /// The one-star student with an empty Japanese name.
    fn default() -> (student: Self)
        ensures
            student@ == (StudentView {
                name: map![Language::Japanese => Seq::<char>::empty()],
                rarity: Rarity::One,
            }),
    {
        Self { name: I18nString::default(), rarity: Rarity::default() }
    }
}

impl Clone for Student {
    fn clone(&self) -> (copy: Self)
        ensures
            copy == *self,
    {
        Self { name: self.name.clone(), rarity: self.rarity }
    }
}

impl Student {
    /// The student of the given rarity whose only name so far is the Japanese one.
    pub fn new(jpn_name: &str, rarity: Rarity) -> (student: Self)
        ensures
            student@ == (StudentView { name: map![Language::Japanese => jpn_name@], rarity }),
    {
        Self { name: I18nString::new(jpn_name), rarity }
    }

    /// Gives the student a name in `language`, replacing the one it had there.
    pub fn add_translation(&mut self, language: Language, name: &str)
        ensures
            final(self)@ == (StudentView {
                name: old(self)@.name.insert(language, name@),
                rarity: old(self)@.rarity,
            }),
    {
        self.name.update(language, name);
    }

    /// Turns the student into one that is drawn at a rate of its own, `rate` in a thousand.
    pub fn into_priority_student(self, rate: usize) -> (priority: PriorityStudent)
        ensures
            priority@ == (PriorityView { student: self@, rate: rate as nat }),
    {
        PriorityStudent { inner: self, rate }
    }

    /// The student as one line of text: the Japanese name, a tab, the rarity.
    pub fn to_text(&self) -> (text: String)
        ensures
            text@ == self@.name[Language::Japanese] + "\t"@ + self.rarity.text(),
    {
        let stars = self.rarity.to_text();
        self.name.to_text().concat("\t").concat(stars.as_str())
    }
}

/// What a priority student is to the draw rules: the student and its own rate.
pub struct PriorityView {
    pub student: StudentView,
    /// The chance of drawing this very student, in a thousand.
    pub rate: nat,
}

/// A student whose draw rate is set apart from that of the other students of its rarity.
#[derive(Debug)]
pub struct PriorityStudent {
    pub inner: Student,
    /// The chance of drawing this very student, in a thousand.
    pub rate: usize,
}

impl View for PriorityStudent {
    type V = PriorityView;

    open spec fn view(&self) -> PriorityView {
        PriorityView { student: self.inner@, rate: self.rate as nat }
    }
}

impl DeepView for PriorityStudent {
    type V = PriorityView;

    open spec fn deep_view(&self) -> PriorityView {
        self@
    }
}

impl Clone for PriorityStudent {
    fn clone(&self) -> (copy: Self)
        ensures
            copy == *self,
    {
        Self { inner: self.inner.clone(), rate: self.rate }
    }
}

impl PriorityStudent {
    /// The student `student`, drawn at a rate of its own, `rate` in a thousand.
    pub fn new(student: Student, rate: usize) -> (priority: Self)
        ensures
            priority@ == (PriorityView { student: student@, rate: rate as nat }),
    {
        Self { inner: student, rate }
    }

    /// The student behind the rate.
    pub fn student(&self) -> (student: &Student)
        ensures
            *student == self.inner,
    {
        &self.inner
    }
}

} // verus!
