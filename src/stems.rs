//! Consonant-row tables for the terminal kana of Godan verbs.
use vstd::prelude::*;
use vstd::string::*;

verus! {

/// The nine kana that can end a Godan verb in its dictionary form.
pub open spec fn is_godan_terminal(c: char) -> bool {
    c == 'す' || c == 'ぶ' || c == 'ぐ' || c == 'く' || c == 'む' || c == 'ぬ' || c == 'る'
        || c == 'つ' || c == 'う'
}

/// The a-row kana of the same consonant as a Godan terminal; other characters are kept.
pub open spec fn a_stem_of(c: char) -> char {
    if c == 'す' { 'さ' }
    else if c == 'ぶ' { 'ば' }
    else if c == 'ぐ' { 'が' }
    else if c == 'く' { 'か' }
    else if c == 'む' { 'ま' }
    else if c == 'ぬ' { 'な' }
    else if c == 'る' { 'ら' }
    else if c == 'つ' { 'た' }
    else if c == 'う' { 'あ' }
    else { c }
}

/// Shifts a Godan terminal kana to the a-row (`く` to `か`).
pub fn set_a_stem(c: char) -> (r: char)
    ensures
        r == a_stem_of(c),
{
    match c {
        'す' => 'さ',
        'ぶ' => 'ば',
        'ぐ' => 'が',
        'く' => 'か',
        'む' => 'ま',
        'ぬ' => 'な',
        'る' => 'ら',
        'つ' => 'た',
        'う' => 'あ',
        _ => c,
    }
}


/// The i-row kana of the same consonant as a Godan terminal; other characters are kept.
pub open spec fn i_stem_of(c: char) -> char {
    if c == 'す' { 'し' }
    else if c == 'ぶ' { 'び' }
    else if c == 'ぐ' { 'ぎ' }
    else if c == 'く' { 'き' }
    else if c == 'む' { 'み' }
    else if c == 'ぬ' { 'に' }
    else if c == 'る' { 'り' }
    else if c == 'つ' { 'ち' }
    else if c == 'う' { 'い' }
    else { c }
}

/// Shifts a Godan terminal kana to the i-row (`く` to `き`).
pub fn set_i_stem(c: char) -> (r: char)
    ensures
        r == i_stem_of(c),
{
    match c {
        'す' => 'し',
        'ぶ' => 'び',
        'ぐ' => 'ぎ',
        'く' => 'き',
        'む' => 'み',
        'ぬ' => 'に',
        'る' => 'り',
        'つ' => 'ち',
        'う' => 'い',
        _ => c,
    }
}

/// The e-row kana of the same consonant as a Godan terminal; other characters are kept.
pub open spec fn e_stem_of(c: char) -> char {
    if c == 'す' { 'せ' }
    else if c == 'ぶ' { 'べ' }
    else if c == 'ぐ' { 'げ' }
    else if c == 'く' { 'け' }
    else if c == 'む' { 'め' }
    else if c == 'ぬ' { 'ね' }
    else if c == 'る' { 'れ' }
    else if c == 'つ' { 'て' }
    else if c == 'う' { 'え' }
    else { c }
}

/// Shifts a Godan terminal kana to the e-row (`く` to `け`).
pub fn set_e_stem(c: char) -> (r: char)
    ensures
        r == e_stem_of(c),
{
    match c {
        'す' => 'せ',
        'ぶ' => 'べ',
        'ぐ' => 'げ',
        'く' => 'け',
        'む' => 'め',
        'ぬ' => 'ね',
        'る' => 'れ',
        'つ' => 'て',
        'う' => 'え',
        _ => c,
    }
}

/// The o-row kana of the same consonant as a Godan terminal; other characters are kept.
pub open spec fn o_stem_of(c: char) -> char {
    if c == 'す' { 'そ' }
    else if c == 'ぶ' { 'ぼ' }
    else if c == 'ぐ' { 'ご' }
    else if c == 'く' { 'こ' }
    else if c == 'む' { 'も' }
    else if c == 'ぬ' { 'の' }
    else if c == 'る' { 'ろ' }
    else if c == 'つ' { 'と' }
    else if c == 'う' { 'お' }
    else { c }
}

/// Shifts a Godan terminal kana to the o-row (`く` to `こ`).
pub fn set_o_stem(c: char) -> (r: char)
    ensures
        r == o_stem_of(c),
{
    match c {
        'す' => 'そ',
        'ぶ' => 'ぼ',
        'ぐ' => 'ご',
        'く' => 'こ',
        'む' => 'も',
        'ぬ' => 'の',
        'る' => 'ろ',
        'つ' => 'と',
        'う' => 'お',
        _ => c,
    }
}
/// The kana that replace a Godan terminal in the te-form; empty for any other character.
pub open spec fn te_digraph_of(c: char) -> Seq<char> {
    if c == 'す' { "して"@ }
    else if c == 'ぶ' || c == 'む' || c == 'ぬ' { "んで"@ }
    else if c == 'ぐ' { "いで"@ }
    else if c == 'く' { "いて"@ }
    else if c == 'る' || c == 'つ' || c == 'う' { "って"@ }
    else { Seq::empty() }
}

/// The te-form digraph of a Godan terminal kana (`す` to `して`), or `""`.
pub fn set_te_form<'a>(c: char) -> (r: &'a str)
    ensures
        r@ == te_digraph_of(c),
{
    proof {
        reveal_strlit("");
    }
    match c {
        'す' => "して",
        'ぶ' => "んで",
        'ぐ' => "いで",
        'く' => "いて",
        'む' => "んで",
        'ぬ' => "んで",
        'る' => "って",
        'つ' => "って",
        'う' => "って",
        _ => "",
    }
}

/// Applies `map_last_chr` to the last character of `stem`; an empty stem gives `'\0'`.
pub fn map_last_stem_chr<F>(stem: &str, map_last_chr: F) -> (r: char)
    where
        F: FnOnce(char) -> char,
    requires
        stem@.len() > 0 ==> map_last_chr.requires((stem@.last(),)),
    ensures
        stem@.len() == 0 ==> r == '\0',
        stem@.len() > 0 ==> map_last_chr.ensures((stem@.last(),), r),
{
    let n = stem.unicode_len();
    if n == 0 {
        return '\0';
    }
    let last_chr = stem.get_char(n - 1);
    map_last_chr(last_chr)
}

/// Applies `map_last_chr` to the last character of `stem`; an empty stem gives `""`.
pub fn map_last_stem_chr_to_str<'a, F>(stem: &str, map_last_chr: F) -> (r: &'a str)
    where
        F: FnOnce(char) -> &'a str,
    requires
        stem@.len() > 0 ==> map_last_chr.requires((stem@.last(),)),
    ensures
        stem@.len() == 0 ==> r@ == Seq::<char>::empty(),
        stem@.len() > 0 ==> map_last_chr.ensures((stem@.last(),), r),
{
    proof {
        reveal_strlit("");
    }
    let n = stem.unicode_len();
    if n == 0 {
        return "";
    }
    let last_chr = stem.get_char(n - 1);
    map_last_chr(last_chr)
}


/// The rows of the kana chart that hold a Godan terminal, each in the vowel
/// order a, i, u, e, o: the s, b, g, k, m, n, r and t rows, and the bare vowels.
pub open spec fn kana_rows() -> Seq<Seq<char>> {
    seq![
        seq!['さ', 'し', 'す', 'せ', 'そ'],
        seq!['ば', 'び', 'ぶ', 'べ', 'ぼ'],
        seq!['が', 'ぎ', 'ぐ', 'げ', 'ご'],
        seq!['か', 'き', 'く', 'け', 'こ'],
        seq!['ま', 'み', 'む', 'め', 'も'],
        seq!['な', 'に', 'ぬ', 'ね', 'の'],
        seq!['ら', 'り', 'る', 'れ', 'ろ'],
        seq!['た', 'ち', 'つ', 'て', 'と'],
        seq!['あ', 'い', 'う', 'え', 'お'],
    ]
}

spec fn terminal_row(c: char) -> int {
    if c == 'す' { 0 }
    else if c == 'ぶ' { 1 }
    else if c == 'ぐ' { 2 }
    else if c == 'く' { 3 }
    else if c == 'む' { 4 }
    else if c == 'ぬ' { 5 }
    else if c == 'る' { 6 }
    else if c == 'つ' { 7 }
    else { 8 }
}

/// Every Godan terminal stands in the u column of a row of the kana chart, and
/// the a-, i-, e- and o-stem shifts move it along that row to the a, i, e and
/// o columns. Every other character passes through each shift unchanged.
pub proof fn lemma_row_shifts(c: char)
    ensures
        is_godan_terminal(c) ==> exists|row: int|
            0 <= row < kana_rows().len() && kana_rows()[row][2] == c
                && a_stem_of(c) == kana_rows()[row][0] && i_stem_of(c) == kana_rows()[row][1]
                && e_stem_of(c) == kana_rows()[row][3] && o_stem_of(c) == kana_rows()[row][4],
        !is_godan_terminal(c) ==> a_stem_of(c) == c && i_stem_of(c) == c && e_stem_of(c) == c
            && o_stem_of(c) == c,
{
    if is_godan_terminal(c) {
        let row = terminal_row(c);
        assert(0 <= row < kana_rows().len() && kana_rows()[row][2] == c
            && a_stem_of(c) == kana_rows()[row][0] && i_stem_of(c) == kana_rows()[row][1]
            && e_stem_of(c) == kana_rows()[row][3] && o_stem_of(c) == kana_rows()[row][4]);
    }
}

} // verus!
