//! The conjugation rules: which mutation and suffix each (class, form) pair
//! calls for, and how a plan is applied to a stem.
use vstd::prelude::*;
use vstd::string::*;

use crate::forms::{
    CausativePoliteness, ConditionalType, ConjugationForm, EbaPoliteness, ImperativePoliteness,
    NegativePastPoliteness, NegativePoliteness, PassivePoliteness, PastPoliteness,
    PlainPoliteness, PotentialPoliteness, TaraPoliteness, VolitionalPoliteness,
};
use crate::stems::{
    a_stem_of, e_stem_of, i_stem_of, map_last_stem_chr, map_last_stem_chr_to_str, o_stem_of,
    set_a_stem, set_e_stem, set_i_stem, set_o_stem, set_te_form, te_digraph_of,
};
use crate::verbs::{VerbType, WordType};

verus! {

/// Relies on `String::push`: the character is appended at the end.
pub assume_specification[ String::push ](s: &mut String, ch: char)
    ensures
        final(s)@ == old(s)@.push(ch),
;

/// Why a request has no surface string.
#[derive(Clone, Copy, PartialEq, Eq, Debug)]
pub enum ConjugationError {
    /// The classifier does not know the stem.
    UnknownStem,
    /// The language has no such form for this class.
    UnsupportedCombination,
    /// The class or word type has no rules yet.
    UnimplementedCase,
}

/// The vowel row a Godan terminal is shifted to.
#[derive(Clone, Copy, PartialEq, Eq, Debug)]
pub enum Row {
    A,
    I,
    E,
    O,
}

/// The row shift of `c` to `row`.
pub open spec fn shift_of(row: Row, c: char) -> char {
    match row {
        Row::A => a_stem_of(c),
        Row::I => i_stem_of(c),
        Row::E => e_stem_of(c),
        Row::O => o_stem_of(c),
    }
}

fn shift(row: Row, c: char) -> (r: char)
    ensures
        r == shift_of(row, c),
{
    match row {
        Row::A => set_a_stem(c),
        Row::I => set_i_stem(c),
        Row::E => set_e_stem(c),
        Row::O => set_o_stem(c),
    }
}

/// What to do to a stem to reach a form.
#[derive(Clone, Copy, PartialEq, Eq, Debug)]
pub enum MutationPlan {
    /// Keep the stem and append the suffix.
    Identity(&'static str),
    /// Shift the last character to the row, then append the suffix.
    RowShift(Row, &'static str),
    /// Replace the last character with the given one, then append the suffix.
    ReplaceLast(char, &'static str),
    /// Replace the last character with its te-form digraph.
    TeFormPlan,
    /// The language has no such form.
    Unsupported,
    /// No rules exist yet for this case.
    Unimplemented,
}

/// The suffix an Ichidan verb takes for each form.
pub open spec fn ichidan_suffix(form: ConjugationForm) -> &'static str {
    match form {
        ConjugationForm::Stem => "",
        ConjugationForm::Plain(PlainPoliteness::Plain) => "る",
        ConjugationForm::Plain(PlainPoliteness::Polite) => "ます",
        ConjugationForm::Past(PastPoliteness::Plain) => "た",
        ConjugationForm::Past(PastPoliteness::Polite) => "ました",
        ConjugationForm::Negative(NegativePoliteness::Plain) => "ない",
        ConjugationForm::Negative(NegativePoliteness::Polite) => "ません",
        ConjugationForm::NegativePast(NegativePastPoliteness::Plain) => "なかった",
        ConjugationForm::NegativePast(NegativePastPoliteness::Polite) => "ませんでした",
        ConjugationForm::Volitional(VolitionalPoliteness::Plain) => "よう",
        ConjugationForm::Volitional(VolitionalPoliteness::Polite) => "ましょう",
        ConjugationForm::Imperative(ImperativePoliteness::Plain) => "ろ",
        ConjugationForm::Imperative(ImperativePoliteness::Polite) => "なさい",
        ConjugationForm::Want => "たい",
        ConjugationForm::Conditional(ConditionalType::Eba(EbaPoliteness::Plain)) => "えば",
        ConjugationForm::Conditional(ConditionalType::Eba(EbaPoliteness::Polite)) => "ますれば",
        ConjugationForm::Conditional(ConditionalType::Tara(TaraPoliteness::Plain)) => "たら",
        ConjugationForm::Conditional(ConditionalType::Tara(TaraPoliteness::Polite)) => "ましたら",
        ConjugationForm::Potential(PotentialPoliteness::Plain) => "れる",
        ConjugationForm::Potential(PotentialPoliteness::Polite) => "れます",
        ConjugationForm::Passive(PassivePoliteness::Plain) => "られる",
        ConjugationForm::Passive(PassivePoliteness::Polite) => "られます",
        ConjugationForm::Causative(CausativePoliteness::Plain) => "させる",
        ConjugationForm::Causative(CausativePoliteness::Polite) => "させます",
        ConjugationForm::Prohibitive => "るな",
        ConjugationForm::TeForm => "て",
    }
}

/// The plan for each form of a Godan verb.
pub open spec fn godan_plan(form: ConjugationForm) -> MutationPlan {
    match form {
        ConjugationForm::Stem => MutationPlan::Identity(""),
        ConjugationForm::Plain(PlainPoliteness::Plain) => MutationPlan::Identity(""),
        ConjugationForm::Plain(PlainPoliteness::Polite) => MutationPlan::RowShift(Row::I, "ます"),
        ConjugationForm::Past(PastPoliteness::Plain) => MutationPlan::ReplaceLast('ん', "だ"),
        ConjugationForm::Past(PastPoliteness::Polite) => MutationPlan::RowShift(Row::I, "ました"),
        ConjugationForm::Negative(NegativePoliteness::Plain) => {
            MutationPlan::RowShift(Row::A, "ない")
        },
        ConjugationForm::Negative(NegativePoliteness::Polite) => {
            MutationPlan::RowShift(Row::I, "ません")
        },
        ConjugationForm::NegativePast(NegativePastPoliteness::Plain) => {
            MutationPlan::RowShift(Row::A, "なかった")
        },
        ConjugationForm::NegativePast(NegativePastPoliteness::Polite) => {
            MutationPlan::RowShift(Row::I, "ませんでした")
        },
        ConjugationForm::Volitional(VolitionalPoliteness::Plain) => {
            MutationPlan::RowShift(Row::O, "う")
        },
        ConjugationForm::Volitional(VolitionalPoliteness::Polite) => {
            MutationPlan::RowShift(Row::I, "ましょう")
        },
        ConjugationForm::Imperative(ImperativePoliteness::Plain) => {
            MutationPlan::RowShift(Row::E, "")
        },
        ConjugationForm::Imperative(ImperativePoliteness::Polite) => {
            MutationPlan::RowShift(Row::I, "なさい")
        },
        ConjugationForm::Want => MutationPlan::RowShift(Row::I, "たい"),
        ConjugationForm::Conditional(ConditionalType::Eba(EbaPoliteness::Plain)) => {
            MutationPlan::RowShift(Row::E, "ば")
        },
        ConjugationForm::Conditional(ConditionalType::Eba(EbaPoliteness::Polite)) => {
            MutationPlan::Unsupported
        },
        ConjugationForm::Conditional(ConditionalType::Tara(TaraPoliteness::Plain)) => {
            MutationPlan::ReplaceLast('ん', "たら")
        },
        ConjugationForm::Conditional(ConditionalType::Tara(TaraPoliteness::Polite)) => {
            MutationPlan::RowShift(Row::I, "ましたら")
        },
        ConjugationForm::Potential(PotentialPoliteness::Plain) => {
            MutationPlan::RowShift(Row::E, "る")
        },
        ConjugationForm::Potential(PotentialPoliteness::Polite) => {
            MutationPlan::RowShift(Row::E, "ます")
        },
        ConjugationForm::Passive(PassivePoliteness::Plain) => MutationPlan::RowShift(Row::A, "れる"),
        ConjugationForm::Passive(PassivePoliteness::Polite) => {
            MutationPlan::RowShift(Row::A, "れます")
        },
        ConjugationForm::Causative(CausativePoliteness::Plain) => {
            MutationPlan::RowShift(Row::A, "せる")
        },
        ConjugationForm::Causative(CausativePoliteness::Polite) => {
            MutationPlan::RowShift(Row::I, "せます")
        },
        ConjugationForm::Prohibitive => MutationPlan::Identity("な"),
        ConjugationForm::TeForm => MutationPlan::TeFormPlan,
    }
}

/// The rule table: the plan for a (class, form) pair.
pub open spec fn plan_of(class: VerbType, form: ConjugationForm) -> MutationPlan {
    if form is Stem {
        MutationPlan::Identity("")
    } else {
        match class {
            VerbType::Ichidan => MutationPlan::Identity(ichidan_suffix(form)),
            VerbType::Godan => godan_plan(form),
            VerbType::Irregular(_) => MutationPlan::Unimplemented,
        }
    }
}

fn ichidan_suffix_exec(form: ConjugationForm) -> (r: &'static str)
    ensures
        r == ichidan_suffix(form),
{
    match form {
        ConjugationForm::Stem => "",
        ConjugationForm::Plain(PlainPoliteness::Plain) => "る",
        ConjugationForm::Plain(PlainPoliteness::Polite) => "ます",
        ConjugationForm::Past(PastPoliteness::Plain) => "た",
        ConjugationForm::Past(PastPoliteness::Polite) => "ました",
        ConjugationForm::Negative(NegativePoliteness::Plain) => "ない",
        ConjugationForm::Negative(NegativePoliteness::Polite) => "ません",
        ConjugationForm::NegativePast(NegativePastPoliteness::Plain) => "なかった",
        ConjugationForm::NegativePast(NegativePastPoliteness::Polite) => "ませんでした",
        ConjugationForm::Volitional(VolitionalPoliteness::Plain) => "よう",
        ConjugationForm::Volitional(VolitionalPoliteness::Polite) => "ましょう",
        ConjugationForm::Imperative(ImperativePoliteness::Plain) => "ろ",
        ConjugationForm::Imperative(ImperativePoliteness::Polite) => "なさい",
        ConjugationForm::Want => "たい",
        ConjugationForm::Conditional(ConditionalType::Eba(EbaPoliteness::Plain)) => "えば",
        ConjugationForm::Conditional(ConditionalType::Eba(EbaPoliteness::Polite)) => "ますれば",
        ConjugationForm::Conditional(ConditionalType::Tara(TaraPoliteness::Plain)) => "たら",
        ConjugationForm::Conditional(ConditionalType::Tara(TaraPoliteness::Polite)) => "ましたら",
        ConjugationForm::Potential(PotentialPoliteness::Plain) => "れる",
        ConjugationForm::Potential(PotentialPoliteness::Polite) => "れます",
        ConjugationForm::Passive(PassivePoliteness::Plain) => "られる",
        ConjugationForm::Passive(PassivePoliteness::Polite) => "られます",
        ConjugationForm::Causative(CausativePoliteness::Plain) => "させる",
        ConjugationForm::Causative(CausativePoliteness::Polite) => "させます",
        ConjugationForm::Prohibitive => "るな",
        ConjugationForm::TeForm => "て",
    }
}

fn godan_plan_exec(form: ConjugationForm) -> (r: MutationPlan)
    ensures
        r == godan_plan(form),
{
    match form {
        ConjugationForm::Stem => MutationPlan::Identity(""),
        ConjugationForm::Plain(PlainPoliteness::Plain) => MutationPlan::Identity(""),
        ConjugationForm::Plain(PlainPoliteness::Polite) => MutationPlan::RowShift(Row::I, "ます"),
        ConjugationForm::Past(PastPoliteness::Plain) => MutationPlan::ReplaceLast('ん', "だ"),
        ConjugationForm::Past(PastPoliteness::Polite) => MutationPlan::RowShift(Row::I, "ました"),
        ConjugationForm::Negative(NegativePoliteness::Plain) => {
            MutationPlan::RowShift(Row::A, "ない")
        },
        ConjugationForm::Negative(NegativePoliteness::Polite) => {
            MutationPlan::RowShift(Row::I, "ません")
        },
        ConjugationForm::NegativePast(NegativePastPoliteness::Plain) => {
            MutationPlan::RowShift(Row::A, "なかった")
        },
        ConjugationForm::NegativePast(NegativePastPoliteness::Polite) => {
            MutationPlan::RowShift(Row::I, "ませんでした")
        },
        ConjugationForm::Volitional(VolitionalPoliteness::Plain) => {
            MutationPlan::RowShift(Row::O, "う")
        },
        ConjugationForm::Volitional(VolitionalPoliteness::Polite) => {
            MutationPlan::RowShift(Row::I, "ましょう")
        },
        ConjugationForm::Imperative(ImperativePoliteness::Plain) => {
            MutationPlan::RowShift(Row::E, "")
        },
        ConjugationForm::Imperative(ImperativePoliteness::Polite) => {
            MutationPlan::RowShift(Row::I, "なさい")
        },
        ConjugationForm::Want => MutationPlan::RowShift(Row::I, "たい"),
        ConjugationForm::Conditional(ConditionalType::Eba(EbaPoliteness::Plain)) => {
            MutationPlan::RowShift(Row::E, "ば")
        },
        ConjugationForm::Conditional(ConditionalType::Eba(EbaPoliteness::Polite)) => {
            MutationPlan::Unsupported
        },
        ConjugationForm::Conditional(ConditionalType::Tara(TaraPoliteness::Plain)) => {
            MutationPlan::ReplaceLast('ん', "たら")
        },
        ConjugationForm::Conditional(ConditionalType::Tara(TaraPoliteness::Polite)) => {
            MutationPlan::RowShift(Row::I, "ましたら")
        },
        ConjugationForm::Potential(PotentialPoliteness::Plain) => {
            MutationPlan::RowShift(Row::E, "る")
        },
        ConjugationForm::Potential(PotentialPoliteness::Polite) => {
            MutationPlan::RowShift(Row::E, "ます")
        },
        ConjugationForm::Passive(PassivePoliteness::Plain) => MutationPlan::RowShift(Row::A, "れる"),
        ConjugationForm::Passive(PassivePoliteness::Polite) => {
            MutationPlan::RowShift(Row::A, "れます")
        },
        ConjugationForm::Causative(CausativePoliteness::Plain) => {
            MutationPlan::RowShift(Row::A, "せる")
        },
        ConjugationForm::Causative(CausativePoliteness::Polite) => {
            MutationPlan::RowShift(Row::I, "せます")
        },
        ConjugationForm::Prohibitive => MutationPlan::Identity("な"),
        ConjugationForm::TeForm => MutationPlan::TeFormPlan,
    }
}

/// Decides how a verb of `class` reaches `form`.
pub fn resolve(class: &VerbType, form: ConjugationForm) -> (r: MutationPlan)
    ensures
        r == plan_of(*class, form),
{
    if let ConjugationForm::Stem = form {
        return MutationPlan::Identity("");
    }
    match class {
        VerbType::Ichidan => MutationPlan::Identity(ichidan_suffix_exec(form)),
        VerbType::Godan => godan_plan_exec(form),
        VerbType::Irregular(_) => MutationPlan::Unimplemented,
    }
}

/// The stem without its last character; an empty stem stays empty.
pub open spec fn without_last(stem: Seq<char>) -> Seq<char> {
    if stem.len() == 0 {
        stem
    } else {
        stem.drop_last()
    }
}

/// `f` applied to the last character of the stem; an empty stem gives `'\0'`.
pub open spec fn mapped_last(stem: Seq<char>, f: spec_fn(char) -> char) -> char {
    if stem.len() == 0 {
        '\0'
    } else {
        f(stem.last())
    }
}

/// The te-form digraph of the stem's last character; empty for an empty stem.
pub open spec fn te_digraph_of_last(stem: Seq<char>) -> Seq<char> {
    if stem.len() == 0 {
        Seq::empty()
    } else {
        te_digraph_of(stem.last())
    }
}

/// The surface string a plan makes of a stem, or the error it stands for.
pub open spec fn built(stem: Seq<char>, plan: MutationPlan) -> Result<Seq<char>, ConjugationError> {
    match plan {
        MutationPlan::Identity(suffix) => Ok(stem + suffix@),
        MutationPlan::RowShift(row, suffix) => Ok(
            without_last(stem).push(mapped_last(stem, |c: char| shift_of(row, c))) + suffix@,
        ),
        MutationPlan::ReplaceLast(k, suffix) => Ok(
            without_last(stem).push(mapped_last(stem, |c: char| k)) + suffix@,
        ),
        MutationPlan::TeFormPlan => Ok(without_last(stem) + te_digraph_of_last(stem)),
        MutationPlan::Unsupported => Err(ConjugationError::UnsupportedCombination),
        MutationPlan::Unimplemented => Err(ConjugationError::UnimplementedCase),
    }
}

/// Whether an executable result carries exactly the string or error of `s`.
pub open spec fn outcome_is(
    r: Result<String, ConjugationError>,
    s: Result<Seq<char>, ConjugationError>,
) -> bool {
    match s {
        Ok(t) => r is Ok && r->Ok_0@ == t,
        Err(e) => r == Err::<String, ConjugationError>(e),
    }
}

/// Applies `plan` to `stem`: mutates its last character as the plan says and
/// appends the suffix, or reports the plan's error.
pub fn build(stem: &str, plan: MutationPlan) -> (r: Result<String, ConjugationError>)
    ensures
        outcome_is(r, built(stem@, plan)),
{
    let n = stem.unicode_len();
    let end: usize = if n == 0 { 0 } else { n - 1 };
    let head = stem.substring_char(0, end);
    assert(head@ == without_last(stem@));
    match plan {
        MutationPlan::Identity(suffix) => {
            let mut res = String::from_str(stem);
            res.append(suffix);
            Ok(res)
        },
        MutationPlan::RowShift(row, suffix) => {
            let to_row = |c: char| -> (r: char)
                ensures
                    r == shift_of(row, c),
                { shift(row, c) };
            let last = map_last_stem_chr(stem, to_row);
            let mut res = String::from_str(head);
            res.push(last);
            res.append(suffix);
            Ok(res)
        },
        MutationPlan::ReplaceLast(k, suffix) => {
            let to_fixed = |c: char| -> (r: char)
                ensures
                    r == k,
                { k };
            let last = map_last_stem_chr(stem, to_fixed);
            let mut res = String::from_str(head);
            res.push(last);
            res.append(suffix);
            Ok(res)
        },
        MutationPlan::TeFormPlan => {
            let digraph = map_last_stem_chr_to_str(stem, set_te_form);
            let mut res = String::from_str(head);
            res.append(digraph);
            Ok(res)
        },
        MutationPlan::Unsupported => Err(ConjugationError::UnsupportedCombination),
        MutationPlan::Unimplemented => Err(ConjugationError::UnimplementedCase),
    }
}

/// The outcome of conjugating a verb of `class` with stem `stem` into `form`.
pub open spec fn verb_conjugation(
    stem: Seq<char>,
    class: VerbType,
    form: ConjugationForm,
) -> Result<Seq<char>, ConjugationError> {
    built(stem, plan_of(class, form))
}

/// The outcome of conjugating `stem` into `form` as a word of `word_type`:
/// the stem form is the stem itself for every word; only verbs have other forms.
pub open spec fn conjugation_of(
    stem: Seq<char>,
    form: ConjugationForm,
    word_type: WordType,
) -> Result<Seq<char>, ConjugationError> {
    if form is Stem {
        Ok(stem)
    } else {
        match word_type {
            WordType::Verb(v) => verb_conjugation(stem, v._type, form),
            _ => Err(ConjugationError::UnimplementedCase),
        }
    }
}

/// Words that can be conjugated.
pub trait Conjugatable {
    /// Conjugates `stem` into `conjugation_form` by the rules of `word_type`.
    fn conjugate(
        &self,
        stem: &str,
        conjugation_form: ConjugationForm,
        word_type: &WordType,
    ) -> (r: Result<String, ConjugationError>)
        ensures
            outcome_is(r, conjugation_of(stem@, conjugation_form, *word_type)),
    {
        if let ConjugationForm::Stem = conjugation_form {
            return Ok(String::from_str(stem));
        }
        match word_type {
            WordType::Verb(v) => build(stem, resolve(&v._type, conjugation_form)),
            _ => Err(ConjugationError::UnimplementedCase),
        }
    }
}

} // verus!
