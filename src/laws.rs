//! What holds of the conjugation rules over all stems and forms.
use vstd::prelude::*;

use crate::conjugate::{
    conjugation_of, ichidan_suffix, plan_of, verb_conjugation, ConjugationError, MutationPlan,
};
use crate::forms::{ConditionalType, ConjugationForm, EbaPoliteness, NegativePoliteness};
use crate::stems::a_stem_of;
use crate::verbs::{VerbType, WordType};

verus! {

/// The stem form of any word, and of a verb of any class, is the stem itself.
pub proof fn lemma_stem_form_is_identity(stem: Seq<char>, word_type: WordType, class: VerbType)
    ensures
        conjugation_of(stem, ConjugationForm::Stem, word_type) == Ok::<
            Seq<char>,
            ConjugationError,
        >(stem),
        verb_conjugation(stem, class, ConjugationForm::Stem) == Ok::<
            Seq<char>,
            ConjugationError,
        >(stem),
{
    reveal_strlit("");
    assert(stem + ""@ =~= stem);
}

/// An Ichidan verb never changes its stem: every form of it is the whole
/// stem followed by the form's suffix.
pub proof fn lemma_ichidan_keeps_stem(stem: Seq<char>, form: ConjugationForm)
    ensures
        verb_conjugation(stem, VerbType::Ichidan, form) == Ok::<Seq<char>, ConjugationError>(
            stem + ichidan_suffix(form)@,
        ),
        verb_conjugation(stem, VerbType::Ichidan, form)->Ok_0.subrange(0, stem.len() as int)
            == stem,
{
    if form is Stem {
        reveal_strlit("");
    }
    assert((stem + ichidan_suffix(form)@).subrange(0, stem.len() as int) =~= stem);
}

/// A Godan verb has no polite eba-conditional: the rules mark it unsupported,
/// and for every stem the request fails with `UnsupportedCombination`.
pub proof fn lemma_godan_polite_eba_unsupported(stem: Seq<char>)
    ensures
        plan_of(
            VerbType::Godan,
            ConjugationForm::Conditional(ConditionalType::Eba(EbaPoliteness::Polite)),
        ) == MutationPlan::Unsupported,
        verb_conjugation(
            stem,
            VerbType::Godan,
            ConjugationForm::Conditional(ConditionalType::Eba(EbaPoliteness::Polite)),
        ) == Err::<Seq<char>, ConjugationError>(ConjugationError::UnsupportedCombination),
{
}

/// Conjugation loses information and has no inverse: two different Godan
/// stems can give the same string for the same form.
pub proof fn lemma_conjugation_is_lossy()
    ensures
        exists|s1: Seq<char>, s2: Seq<char>|
            s1 != s2 && verb_conjugation(
                s1,
                VerbType::Godan,
                ConjugationForm::Negative(NegativePoliteness::Plain),
            ) == verb_conjugation(
                s2,
                VerbType::Godan,
                ConjugationForm::Negative(NegativePoliteness::Plain),
            ),
{
    let s1 = seq!['か', 'く'];
    let s2 = seq!['か', 'か'];
    assert(s1[1] != s2[1]);
    assert(s1.drop_last() =~= s2.drop_last());
    assert(a_stem_of('く') == a_stem_of('か'));
    assert(verb_conjugation(s1, VerbType::Godan, ConjugationForm::Negative(NegativePoliteness::Plain))
        == verb_conjugation(s2, VerbType::Godan, ConjugationForm::Negative(NegativePoliteness::Plain)));
}

} // verus!
