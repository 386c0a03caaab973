//! Verbs, their classes, and the classifier that assigns a class to a stem.
use vstd::prelude::*;
use vstd::string::*;

use crate::conjugate::{ConjugationError, Conjugatable};
use crate::forms::ConjugationForm;

verus! {

/// The morphological class of a verb.
#[derive(Clone, Debug)]
pub enum VerbType {
    /// An irregular verb, by name; its conjugation is not built yet.
    Irregular(String),
    /// A "ru-verb": the stem never changes, only suffixes are appended.
    Ichidan,
    /// A "u-verb": the terminal kana shifts row with the form.
    Godan,
}

/// The stems the classifier recognises, with their classes.
pub open spec fn lexicon_class(stem: Seq<char>) -> Option<VerbType> {
    if stem == seq!['食', 'べ'] {
        Some(VerbType::Ichidan)
    } else {
        None
    }
}

impl VerbType {
    /// Looks up the class of `stem`; an unrecognised stem is `UnknownStem`.
    pub fn from_stem(stem: &str) -> (r: Result<VerbType, ConjugationError>)
        ensures
            match lexicon_class(stem@) {
                Some(t) => r == Ok::<VerbType, ConjugationError>(t),
                None => r == Err::<VerbType, ConjugationError>(ConjugationError::UnknownStem),
            },
    {
        if stem.unicode_len() == 2 && stem.get_char(0) == '食' && stem.get_char(1) == 'べ' {
            assert(stem@ =~= seq!['食', 'べ']);
            Ok(VerbType::Ichidan)
        } else {
            Err(ConjugationError::UnknownStem)
        }
    }
}

/// A verb with the form it is to be conjugated into. Its class is fixed when it
/// is made from its stem.
#[derive(Clone, Debug)]
pub struct Verb {
    pub _type: VerbType,
    pub conjugation_form: ConjugationForm,
    pub stem: String,
}

impl Verb {
    /// Classifies `stem` and makes the verb; fails with `UnknownStem` where the
    /// classifier does not know the stem.
    pub fn new(stem: String, conjugation_form: ConjugationForm) -> (r: Result<Verb, ConjugationError>)
        ensures
            match lexicon_class(stem@) {
                Some(t) => r is Ok && r->Ok_0._type == t && r->Ok_0.conjugation_form
                    == conjugation_form && r->Ok_0.stem@ == stem@,
                None => r == Err::<Verb, ConjugationError>(ConjugationError::UnknownStem),
            },
    {
        match VerbType::from_stem(stem.as_str()) {
            Ok(t) => Ok(Verb { _type: t, conjugation_form, stem }),
            Err(e) => Err(e),
        }
    }
}

impl Conjugatable for Verb {

}

/// The kinds of word the conjugator is asked about; only verbs are conjugated.
#[derive(Clone, Debug)]
pub enum WordType {
    Adjective(),
    Noun(),
    Verb(Verb),
}

} // verus!
