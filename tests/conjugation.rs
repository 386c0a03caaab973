use japanese_conjugation::conjugate::{build, resolve, ConjugationError, Conjugatable, MutationPlan, Row};
use japanese_conjugation::forms::{
    CausativePoliteness, ConditionalType, ConjugationForm, EbaPoliteness, ImperativePoliteness,
    NegativePastPoliteness, NegativePoliteness, PassivePoliteness, PastPoliteness,
    PlainPoliteness, PotentialPoliteness, TaraPoliteness, VolitionalPoliteness,
};
use japanese_conjugation::verb;
use japanese_conjugation::forms::ConjugationForm as CF;
use japanese_conjugation::verbs::{Verb, VerbType, WordType};

fn with_class(stem: &str, class: VerbType, form: ConjugationForm) -> Result<String, ConjugationError> {
    let v = Verb { _type: class, conjugation_form: form, stem: stem.to_string() };
    v.conjugate(stem, form, &WordType::Verb(v.clone()))
}

fn godan(stem: &str, form: ConjugationForm) -> Result<String, ConjugationError> {
    with_class(stem, VerbType::Godan, form)
}

fn all_forms() -> Vec<ConjugationForm> {
    vec![
        CF::Stem,
        CF::Plain(PlainPoliteness::Plain),
        CF::Plain(PlainPoliteness::Polite),
        CF::Past(PastPoliteness::Plain),
        CF::Past(PastPoliteness::Polite),
        CF::Negative(NegativePoliteness::Plain),
        CF::Negative(NegativePoliteness::Polite),
        CF::NegativePast(NegativePastPoliteness::Plain),
        CF::NegativePast(NegativePastPoliteness::Polite),
        CF::Volitional(VolitionalPoliteness::Plain),
        CF::Volitional(VolitionalPoliteness::Polite),
        CF::Imperative(ImperativePoliteness::Plain),
        CF::Imperative(ImperativePoliteness::Polite),
        CF::Want,
        CF::Conditional(ConditionalType::Eba(EbaPoliteness::Plain)),
        CF::Conditional(ConditionalType::Eba(EbaPoliteness::Polite)),
        CF::Conditional(ConditionalType::Tara(TaraPoliteness::Plain)),
        CF::Conditional(ConditionalType::Tara(TaraPoliteness::Polite)),
        CF::Potential(PotentialPoliteness::Plain),
        CF::Potential(PotentialPoliteness::Polite),
        CF::Passive(PassivePoliteness::Plain),
        CF::Passive(PassivePoliteness::Polite),
        CF::Causative(CausativePoliteness::Plain),
        CF::Causative(CausativePoliteness::Polite),
        CF::Prohibitive,
        CF::TeForm,
    ]
}

#[test]
fn ichidan_plain_plain() {
    assert_eq!(verb("食べ", ConjugationForm::Plain(PlainPoliteness::Plain)), Ok("食べる".to_string()));
}

#[test]
fn ichidan_past_plain() {
    assert_eq!(verb("食べ", ConjugationForm::Past(PastPoliteness::Plain)), Ok("食べた".to_string()));
}

#[test]
fn ichidan_te_form() {
    assert_eq!(verb("食べ", ConjugationForm::TeForm), Ok("食べて".to_string()));
}

#[test]
fn ichidan_every_suffix() {
    let expected = [
        "食べ", "食べる", "食べます", "食べた", "食べました", "食べない", "食べません",
        "食べなかった", "食べませんでした", "食べよう", "食べましょう", "食べろ", "食べなさい",
        "食べたい", "食べえば", "食べますれば", "食べたら", "食べましたら", "食べれる",
        "食べれます", "食べられる", "食べられます", "食べさせる", "食べさせます", "食べるな",
        "食べて",
    ];
    let forms = all_forms();
    assert_eq!(forms.len(), expected.len());
    for (form, want) in forms.into_iter().zip(expected.iter()) {
        assert_eq!(verb("食べ", form), Ok(want.to_string()));
    }
}

#[test]
fn ichidan_keeps_whole_stem_in_every_form() {
    for stem in ["食べ", "見", "くる", ""] {
        for form in all_forms() {
            let out = with_class(stem, VerbType::Ichidan, form).unwrap();
            assert!(out.starts_with(stem));
        }
    }
}

#[test]
fn godan_negative_plain_shifts_to_a_row() {
    assert_eq!(godan("書く", ConjugationForm::Negative(NegativePoliteness::Plain)), Ok("書かない".to_string()));
}

#[test]
fn godan_te_form_of_su() {
    assert_eq!(godan("話す", ConjugationForm::TeForm), Ok("話して".to_string()));
}

#[test]
fn godan_past_plain_of_bu() {
    assert_eq!(godan("遊ぶ", ConjugationForm::Past(PastPoliteness::Plain)), Ok("遊んだ".to_string()));
}

#[test]
fn godan_polite_eba_is_unsupported() {
    let form = ConjugationForm::Conditional(ConditionalType::Eba(EbaPoliteness::Polite));
    for stem in ["書く", "話す", "", "x"] {
        assert_eq!(godan(stem, form), Err(ConjugationError::UnsupportedCombination));
    }
    assert_eq!(resolve(&VerbType::Godan, form), MutationPlan::Unsupported);
}

#[test]
fn godan_empty_stem_gives_sentinel() {
    assert_eq!(godan("", ConjugationForm::Negative(NegativePoliteness::Plain)), Ok("\0ない".to_string()));
    assert_eq!(godan("", ConjugationForm::Past(PastPoliteness::Plain)), Ok("\0だ".to_string()));
    assert_eq!(godan("", ConjugationForm::TeForm), Ok(String::new()));
}

#[test]
fn godan_every_form_of_kaku() {
    let expected = [
        Ok("書く"), Ok("書く"), Ok("書きます"), Ok("書んだ"), Ok("書きました"), Ok("書かない"),
        Ok("書きません"), Ok("書かなかった"), Ok("書きませんでした"), Ok("書こう"),
        Ok("書きましょう"), Ok("書け"), Ok("書きなさい"), Ok("書きたい"), Ok("書けば"),
        Err(ConjugationError::UnsupportedCombination), Ok("書んたら"), Ok("書きましたら"),
        Ok("書ける"), Ok("書けます"), Ok("書かれる"), Ok("書かれます"), Ok("書かせる"),
        Ok("書きせます"), Ok("書くな"), Ok("書いて"),
    ];
    let forms = all_forms();
    assert_eq!(forms.len(), expected.len());
    for (form, want) in forms.into_iter().zip(expected.iter()) {
        assert_eq!(godan("書く", form), want.map(|s| s.to_string()));
    }
}

#[test]
fn godan_te_forms_of_each_terminal() {
    let cases = [
        ("話す", "話して"), ("遊ぶ", "遊んで"), ("泳ぐ", "泳いで"), ("書く", "書いて"),
        ("読む", "読んで"), ("死ぬ", "死んで"), ("帰る", "帰って"), ("待つ", "待って"),
        ("買う", "買って"),
    ];
    for (stem, want) in cases {
        assert_eq!(godan(stem, ConjugationForm::TeForm), Ok(want.to_string()));
    }
}

#[test]
fn stem_form_is_identity_for_every_word() {
    for stem in ["食べ", "書く", "", "abc"] {
        assert_eq!(godan(stem, ConjugationForm::Stem), Ok(stem.to_string()));
        assert_eq!(with_class(stem, VerbType::Ichidan, ConjugationForm::Stem), Ok(stem.to_string()));
        assert_eq!(
            with_class(stem, VerbType::Irregular("する".to_string()), ConjugationForm::Stem),
            Ok(stem.to_string())
        );
        let v = Verb { _type: VerbType::Godan, conjugation_form: ConjugationForm::Stem, stem: String::new() };
        assert_eq!(v.conjugate(stem, ConjugationForm::Stem, &WordType::Noun()), Ok(stem.to_string()));
    }
    assert_eq!(verb("食べ", ConjugationForm::Stem), Ok("食べ".to_string()));
}

#[test]
fn irregular_verbs_are_unimplemented() {
    let class = VerbType::Irregular("する".to_string());
    assert_eq!(with_class("する", class.clone(), ConjugationForm::Want), Err(ConjugationError::UnimplementedCase));
    assert_eq!(resolve(&class, ConjugationForm::TeForm), MutationPlan::Unimplemented);
}

#[test]
fn non_verbs_are_unimplemented() {
    let v = Verb { _type: VerbType::Ichidan, conjugation_form: ConjugationForm::Want, stem: "食べ".to_string() };
    assert_eq!(v.conjugate("高", ConjugationForm::Want, &WordType::Adjective()), Err(ConjugationError::UnimplementedCase));
    assert_eq!(v.conjugate("本", ConjugationForm::TeForm, &WordType::Noun()), Err(ConjugationError::UnimplementedCase));
}

#[test]
fn unknown_stem_is_rejected() {
    assert_eq!(verb("書く", ConjugationForm::Past(PastPoliteness::Plain)), Err(ConjugationError::UnknownStem));
    assert_eq!(verb("書く", ConjugationForm::Stem), Err(ConjugationError::UnknownStem));
    assert_eq!(verb("", ConjugationForm::TeForm), Err(ConjugationError::UnknownStem));
    assert!(matches!(VerbType::from_stem("食"), Err(ConjugationError::UnknownStem)));
    assert!(matches!(Verb::new("見".to_string(), ConjugationForm::Want), Err(ConjugationError::UnknownStem)));
}

#[test]
fn classifier_knows_its_stem() {
    assert!(matches!(VerbType::from_stem("食べ"), Ok(VerbType::Ichidan)));
    let v = Verb::new("食べ".to_string(), ConjugationForm::Want).unwrap();
    assert!(matches!(v._type, VerbType::Ichidan));
    assert_eq!(v.stem, "食べ");
    assert_eq!(v.conjugation_form, ConjugationForm::Want);
}

#[test]
fn conjugation_is_lossy() {
    let form = ConjugationForm::Negative(NegativePoliteness::Plain);
    assert_eq!(godan("書く", form), godan("書か", form));
    assert_eq!(godan("かく", form), Ok("かかない".to_string()));
}

#[test]
fn resolve_gives_plans() {
    assert_eq!(resolve(&VerbType::Ichidan, ConjugationForm::Past(PastPoliteness::Plain)), MutationPlan::Identity("た"));
    assert_eq!(resolve(&VerbType::Godan, ConjugationForm::Stem), MutationPlan::Identity(""));
    assert_eq!(resolve(&VerbType::Irregular("来る".to_string()), ConjugationForm::Stem), MutationPlan::Identity(""));
    assert_eq!(
        resolve(&VerbType::Godan, ConjugationForm::Negative(NegativePoliteness::Plain)),
        MutationPlan::RowShift(Row::A, "ない")
    );
    assert_eq!(resolve(&VerbType::Godan, ConjugationForm::Past(PastPoliteness::Plain)), MutationPlan::ReplaceLast('ん', "だ"));
    assert_eq!(resolve(&VerbType::Godan, ConjugationForm::TeForm), MutationPlan::TeFormPlan);
}

#[test]
fn build_applies_each_plan() {
    assert_eq!(build("見", MutationPlan::Identity("る")), Ok("見る".to_string()));
    assert_eq!(build("読む", MutationPlan::RowShift(Row::O, "う")), Ok("読もう".to_string()));
    assert_eq!(build("読む", MutationPlan::RowShift(Row::E, "")), Ok("読め".to_string()));
    assert_eq!(build("読む", MutationPlan::RowShift(Row::I, "ます")), Ok("読みます".to_string()));
    assert_eq!(build("abc", MutationPlan::RowShift(Row::A, "!")), Ok("abc!".to_string()));
    assert_eq!(build("読む", MutationPlan::ReplaceLast('ん', "だ")), Ok("読んだ".to_string()));
    assert_eq!(build("泳ぐ", MutationPlan::TeFormPlan), Ok("泳いで".to_string()));
    assert_eq!(build("x", MutationPlan::TeFormPlan), Ok(String::new()));
    assert_eq!(build("読む", MutationPlan::Unsupported), Err(ConjugationError::UnsupportedCombination));
    assert_eq!(build("読む", MutationPlan::Unimplemented), Err(ConjugationError::UnimplementedCase));
}
