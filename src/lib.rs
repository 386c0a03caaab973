//! Japanese verb conjugation: from a dictionary stem, a verb class and a
//! requested form to the inflected surface string.
use vstd::prelude::*;
use vstd::string::*;

pub mod conjugate;
pub mod forms;
pub mod laws;
pub mod stems;
pub mod verbs;

use crate::conjugate::{outcome_is, verb_conjugation, ConjugationError, Conjugatable};
use crate::forms::ConjugationForm;
use crate::verbs::{lexicon_class, Verb, WordType};

verus! {

/// The outcome of `verb`: an unknown stem is an error, otherwise the stem is
/// conjugated by the rules of its class.
pub open spec fn verb_outcome(stem: Seq<char>, form: ConjugationForm) -> Result<
    Seq<char>,
    ConjugationError,
> {
    match lexicon_class(stem) {
        Some(t) => if form is Stem {
            Ok(stem)
        } else {
            verb_conjugation(stem, t, form)
        },
        None => Err(ConjugationError::UnknownStem),
    }
}

/// Classifies `stem` and conjugates it into `form`.
pub fn verb(stem: &str, form: ConjugationForm) -> (r: Result<String, ConjugationError>)
    ensures
        outcome_is(r, verb_outcome(stem@, form)),
{
    match Verb::new(String::from_str(stem), form) {
        Ok(v) => {
            let word = WordType::Verb(v);
            match &word {
                WordType::Verb(inner) => inner.conjugate(stem, form, &word),
                _ => Err(ConjugationError::UnimplementedCase),
            }
        },
        Err(e) => Err(e),
    }
}

} // verus!
