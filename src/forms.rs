//! The grammatical forms a verb can be conjugated into, each with its register.
use vstd::prelude::*;

verus! {

#[derive(Clone, Copy, PartialEq, Eq, Debug)]
pub enum PlainPoliteness {
    /// 〜る
    Plain,
    /// 〜ます
    Polite,
}

#[derive(Clone, Copy, PartialEq, Eq, Debug)]
pub enum PastPoliteness {
    /// Stem + -n + た
    Plain,
    /// Stem + -i + ました
    Polite,
}

#[derive(Clone, Copy, PartialEq, Eq, Debug)]
pub enum NegativePoliteness {
    /// 〜ない
    Plain,
    /// 〜ません
    Polite,
}

#[derive(Clone, Copy, PartialEq, Eq, Debug)]
pub enum NegativePastPoliteness {
    /// 〜なかった
    Plain,
    /// 〜ませんでした
    Polite,
}

#[derive(Clone, Copy, PartialEq, Eq, Debug)]
pub enum VolitionalPoliteness {
    /// 〜よう
    Plain,
    /// 〜ましょう
    Polite,
}

#[derive(Clone, Copy, PartialEq, Eq, Debug)]
pub enum ImperativePoliteness {
    /// Stem + -e
    Plain,
    /// Stem + -i + なさい
    Polite,
}

#[derive(Clone, Copy, PartialEq, Eq, Debug)]
pub enum EbaPoliteness {
    /// 〜えば
    Plain,
    /// 〜ますれば
    Polite,
}

#[derive(Clone, Copy, PartialEq, Eq, Debug)]
pub enum TaraPoliteness {
    /// 〜たら
    Plain,
    /// 〜ましたら
    Polite,
}

/// The two conditional constructions.
#[derive(Clone, Copy, PartialEq, Eq, Debug)]
pub enum ConditionalType {
    Eba(EbaPoliteness),
    Tara(TaraPoliteness),
}

#[derive(Clone, Copy, PartialEq, Eq, Debug)]
pub enum PotentialPoliteness {
    /// 〜れる
    Plain,
    /// 〜れます
    Polite,
}

#[derive(Clone, Copy, PartialEq, Eq, Debug)]
pub enum PassivePoliteness {
    /// 〜られる
    Plain,
    /// 〜られます
    Polite,
}

#[derive(Clone, Copy, PartialEq, Eq, Debug)]
pub enum CausativePoliteness {
    /// Stem + -a + せる
    Plain,
    /// Stem + -a + せます
    Polite,
}

/// A requested form; the closed set every verb class must answer for.
#[derive(Clone, Copy, PartialEq, Eq, Debug)]
pub enum ConjugationForm {
    /// Language shorthand: `〜`
    Stem,
    Plain(PlainPoliteness),
    Past(PastPoliteness),
    Negative(NegativePoliteness),
    NegativePast(NegativePastPoliteness),
    Volitional(VolitionalPoliteness),
    Imperative(ImperativePoliteness),
    /// 〜たい
    Want,
    Conditional(ConditionalType),
    Potential(PotentialPoliteness),
    /// 〜られる
    Passive(PassivePoliteness),
    /// Stem + -e + よ
    Causative(CausativePoliteness),
    /// Stem + -u + な
    Prohibitive,
    /// Stem + て
    TeForm,
}

} // verus!
