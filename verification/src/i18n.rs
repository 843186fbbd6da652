//! Names that carry one text per supported language.
use vstd::prelude::*;

verus! {

/// The languages a name can be written in (ISO-639-2/T).
#[derive(Debug, PartialEq, Eq, Hash, Clone, Copy, Structural)]
pub enum Language {
    /// `eng`
    English,
    /// `jpn`
    Japanese,
}

/// A text with its translations. The Japanese text is always present.
#[derive(Debug)]
pub struct I18nString {
    japanese: String,
    english: Option<String>,
}

impl View for I18nString {
    type V = Map<Language, Seq<char>>;

    closed spec fn view(&self) -> Map<Language, Seq<char>> {
        match self.english {
            Some(text) => map![Language::Japanese => self.japanese@, Language::English => text@],
            None => map![Language::Japanese => self.japanese@],
        }
    }
}

impl I18nString {
    /// Every text has a Japanese reading, whatever else was added to it.
    pub proof fn lemma_japanese_present(&self)
        ensures
            self@.contains_key(Language::Japanese),
    {
    }

    /// A text that holds `jpn_message` as its Japanese reading and nothing else.
    pub fn new(jpn_message: &str) -> (text: Self)
        ensures
            text@ == map![Language::Japanese => jpn_message@],
    {
        Self { japanese: jpn_message.to_owned(), english: None }
    }

    /// Sets the reading for `language`, replacing the one that was there.
    pub fn update(&mut self, language: Language, message: &str)
        ensures
            final(self)@ == old(self)@.insert(language, message@),
    {
        match language {
            Language::Japanese => {
                self.japanese = message.to_owned();
            },
            Language::English => {
                self.english = Some(message.to_owned());
            },
        }
        assert(self@ =~= old(self)@.insert(language, message@));
    }

    /// The text as it is shown where no language is asked for: the Japanese reading.
    pub fn to_text(&self) -> (text: String)
        ensures
            text@ == self@[Language::Japanese],
    {
        self.japanese.clone()
    }

    /// Whether the Japanese reading is `jpn_message`.
    pub fn reads(&self, jpn_message: &str) -> (same: bool)
        ensures
            same == (self@[Language::Japanese] == jpn_message@),
    {
        self.japanese == jpn_message.to_owned()
    }

    /// The reading for `language`, if there is one.
    pub fn get(&self, language: Language) -> (found: Option<String>)
        ensures
            match found {
                Some(text) => self@.contains_key(language) && text@ == self@[language],
                None => !self@.contains_key(language),
            },
    {
        match language {
            Language::Japanese => Some(self.japanese.clone()),
            Language::English => match &self.english {
                Some(text) => Some(text.clone()),
                None => None,
            },
        }
    }
}

impl Default for I18nString {
    /// The text whose Japanese reading is empty.
    fn default() -> (text: Self)
        ensures
            text@ == map![Language::Japanese => Seq::<char>::empty()],
    {
        Self { japanese: String::new(), english: None }
    }
}

impl Clone for I18nString {
    fn clone(&self) -> (copy: Self)
        ensures
            copy == *self,
    {
        let english = match &self.english {
            Some(text) => Some(text.clone()),
            None => None,
        };
        Self { japanese: self.japanese.clone(), english }
    }
}

impl PartialEq for I18nString {
    /// Two texts are equal when they hold the same readings.
    fn eq(&self, other: &Self) -> (same: bool) {
        let english = match &self.english {
            Some(a) => match &other.english {
                Some(b) => *a == *b,
                None => false,
            },
            None => other.english.is_none(),
        };
        let same = self.japanese == other.japanese && english;
        proof {
            if same {
                assert(self@ =~= other@);
            } else if self.japanese@ != other.japanese@ {
                assert(self@[Language::Japanese] != other@[Language::Japanese]);
            } else {
                assert(self@.contains_key(Language::English) != other@.contains_key(
                    Language::English,
                ) || self@[Language::English] != other@[Language::English]);
            }
        }
        same
    }
}

impl vstd::std_specs::cmp::PartialEqSpecImpl for I18nString {
    open spec fn obeys_eq_spec() -> bool {
        true
    }

    open spec fn eq_spec(&self, other: &Self) -> bool {
        self@ == other@
    }
}

} // verus!
