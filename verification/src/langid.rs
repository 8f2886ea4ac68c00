//! Language disambiguation for the case where both directions listen at once.
//!
//! Given speech recognized as each of the two candidate languages, decide
//! which candidate the speaker used, by asking `whatlang`'s detector
//! restricted to exactly the two configured languages. Configuration stores
//! ISO 639-1 codes; `whatlang` works with ISO 639-3 codes, so a fixed table
//! maps the one to the other. An unrecognized code, or a result that does
//! not single out one candidate, yields no answer so that the caller falls
//! back to its other tiebreaks.

use vstd::prelude::*;
use whatlang::{Detector, Info, Lang};

use crate::text::{ascii_lowercase, is_lowercase_ascii_word, str_eq, to_ascii_lower};

verus! {

#[verifier::external_type_specification]
#[verifier::external_body]
pub struct ExLang(Lang);

#[verifier::external_type_specification]
#[verifier::external_body]
pub struct ExInfo(Info);

/// The ISO 639-3 code the table assigns to an ISO 639-1 code, compared
/// without regard to ASCII case.
pub open spec fn iso639_3_for(code: Seq<char>) -> Option<Seq<char>> {
    let lower = ascii_lowercase(code);
    if lower == seq!['e', 'n'] {
        Some(seq!['e', 'n', 'g'])
    } else if lower == seq!['e', 's'] {
        Some(seq!['s', 'p', 'a'])
    } else if lower == seq!['f', 'r'] {
        Some(seq!['f', 'r', 'a'])
    } else if lower == seq!['d', 'e'] {
        Some(seq!['d', 'e', 'u'])
    } else if lower == seq!['i', 't'] {
        Some(seq!['i', 't', 'a'])
    } else if lower == seq!['p', 't'] {
        Some(seq!['p', 'o', 'r'])
    } else if lower == seq!['n', 'l'] {
        Some(seq!['n', 'l', 'd'])
    } else if lower == seq!['r', 'u'] {
        Some(seq!['r', 'u', 's'])
    } else if lower == seq!['z', 'h'] {
        Some(seq!['c', 'm', 'n'])
    } else if lower == seq!['j', 'a'] {
        Some(seq!['j', 'p', 'n'])
    } else if lower == seq!['k', 'o'] {
        Some(seq!['k', 'o', 'r'])
    } else if lower == seq!['a', 'r'] {
        Some(seq!['a', 'r', 'b'])
    } else if lower == seq!['h', 'i'] {
        Some(seq!['h', 'i', 'n'])
    } else if lower == seq!['p', 'l'] {
        Some(seq!['p', 'o', 'l'])
    } else if lower == seq!['t', 'r'] {
        Some(seq!['t', 'u', 'r'])
    } else if lower == seq!['v', 'i'] {
        Some(seq!['v', 'i', 'e'])
    } else {
        None
    }
}

/// Maps an ISO 639-1 code (any ASCII case) to the ISO 639-3 code `whatlang`
/// uses, for the languages a deployment configures.
pub fn iso639_1_to_iso639_3(code: &str) -> (iso3: Option<&'static str>)
    ensures
        match iso3 {
            Some(c) => iso639_3_for(code@) == Some(c@),
            None => iso639_3_for(code@) is None,
        },
{
    if code.unicode_len() != 2 {
        proof {
            assert(ascii_lowercase(code@).len() != 2);
        }
        return None;
    }
    let c0 = to_ascii_lower(code.get_char(0));
    let c1 = to_ascii_lower(code.get_char(1));
    let ghost lower = ascii_lowercase(code@);
    assert(lower =~= seq![c0, c1]);
    match (c0, c1) {
        ('e', 'n') => {
            proof { reveal_strlit("eng"); }
            Some("eng")
        }
        ('e', 's') => {
            proof { reveal_strlit("spa"); }
            Some("spa")
        }
        ('f', 'r') => {
            proof { reveal_strlit("fra"); }
            Some("fra")
        }
        ('d', 'e') => {
            proof { reveal_strlit("deu"); }
            Some("deu")
        }
        ('i', 't') => {
            proof { reveal_strlit("ita"); }
            Some("ita")
        }
        ('p', 't') => {
            proof { reveal_strlit("por"); }
            Some("por")
        }
        ('n', 'l') => {
            proof { reveal_strlit("nld"); }
            Some("nld")
        }
        ('r', 'u') => {
            proof { reveal_strlit("rus"); }
            Some("rus")
        }
        ('z', 'h') => {
            proof { reveal_strlit("cmn"); }
            Some("cmn")
        }
        ('j', 'a') => {
            proof { reveal_strlit("jpn"); }
            Some("jpn")
        }
        ('k', 'o') => {
            proof { reveal_strlit("kor"); }
            Some("kor")
        }
        ('a', 'r') => {
            proof { reveal_strlit("arb"); }
            Some("arb")
        }
        ('h', 'i') => {
            proof { reveal_strlit("hin"); }
            Some("hin")
        }
        ('p', 'l') => {
            proof { reveal_strlit("pol"); }
            Some("pol")
        }
        ('t', 'r') => {
            proof { reveal_strlit("tur"); }
            Some("tur")
        }
        ('v', 'i') => {
            proof { reveal_strlit("vie"); }
            Some("vie")
        }
        _ => None,
    }
}

/// Whether `whatlang::Lang::from_code` recognizes an ISO 639-3 code.
pub uninterp spec fn whatlang_recognizes_code(code: Seq<char>) -> bool;

/// What `whatlang`'s detector, restricted to the two languages with the given
/// ISO 639-3 codes, reports for a text: the detected language's ISO 639-3
/// code and whether the detection is reliable, or nothing.
pub uninterp spec fn whatlang_detection(text: Seq<char>, first: Seq<char>, second: Seq<char>) -> Option<
    (Seq<char>, bool),
>;

/// A language `whatlang` knows, with its ISO 639-3 code. Only
/// `whatlang_lang_from_code` builds one, from a lowercase code that `whatlang`
/// recognized, so the code is the one `whatlang` itself gives that language.
pub struct KnownLang {
    lang: Lang,
    code: String,
}

impl View for KnownLang {
    /// The language's ISO 639-3 code.
    type V = Seq<char>;

    closed spec fn view(&self) -> Seq<char> {
        self.code@
    }
}

/// One detection outcome: the detected language's ISO 639-3 code, whether
/// `whatlang` considers it reliable, and the full `whatlang::Info` (which
/// carries the confidence score).
#[derive(Debug, PartialEq)]
pub struct Detection {
    pub code: &'static str,
    pub reliable: bool,
    pub info: Info,
}

/// The plain content of an optional detection.
pub open spec fn detection_view(d: Option<Detection>) -> Option<(Seq<char>, bool)> {
    match d {
        Some(d) => Some((d.code@, d.reliable)),
        None => None,
    }
}

/// The table's ISO 639-3 codes that `whatlang::Lang::from_code` lists (every
/// entry of the table except `"arb"`; `whatlang` calls Arabic `"ara"`).
pub open spec fn is_whatlang_listed_code(code: Seq<char>) -> bool {
    ||| code == seq!['e', 'n', 'g']
    ||| code == seq!['s', 'p', 'a']
    ||| code == seq!['f', 'r', 'a']
    ||| code == seq!['d', 'e', 'u']
    ||| code == seq!['i', 't', 'a']
    ||| code == seq!['p', 'o', 'r']
    ||| code == seq!['n', 'l', 'd']
    ||| code == seq!['r', 'u', 's']
    ||| code == seq!['c', 'm', 'n']
    ||| code == seq!['j', 'p', 'n']
    ||| code == seq!['k', 'o', 'r']
    ||| code == seq!['h', 'i', 'n']
    ||| code == seq!['p', 'o', 'l']
    ||| code == seq!['t', 'u', 'r']
    ||| code == seq!['v', 'i', 'e']
}

/// The Arabic code the table uses, which `whatlang` does not list.
pub open spec fn arb_code() -> Seq<char> {
    seq!['a', 'r', 'b']
}

/// Calls `whatlang::Lang::from_code` on a lowercase ASCII code and pairs the
/// language found with that code. Claims: a language comes back exactly when
/// `whatlang_recognizes_code` holds of the code. That the code is then the
/// language's own code rests on the source: `from_code` lowercases its
/// argument and matches it against the same generated table `Lang::code`
/// answers from. Also claims, from that table: each code
/// `is_whatlang_listed_code` names is recognized, and `"arb"` is not.
#[verifier::external_body]
fn whatlang_lang_from_code(code: &str) -> (lang: Option<KnownLang>)
    requires
        is_lowercase_ascii_word(code@),
    ensures
        lang is Some <==> whatlang_recognizes_code(code@),
        lang matches Some(k) ==> k@ == code@,
        is_whatlang_listed_code(code@) ==> lang is Some,
        code@ == arb_code() ==> lang is None,
{
    match Lang::from_code(code) {
        Some(lang) => Some(KnownLang { lang, code: code.to_string() }),
        None => None,
    }
}

/// Builds a `whatlang::Detector::with_allowlist` of the two languages, calls
/// its `detect` on the text, and converts the outcome (`Info::lang` to its
/// code by `Lang::code`, and `Info::is_reliable`). Claims: the outcome's code
/// and reliability are `whatlang_detection` of the text and the two codes.
/// Not claimed: that the detected language is one of the two; `whatlang`
/// assigns the language of a single-language script (Hangul, Greek, ...)
/// without consulting the allowlist.
#[verifier::external_body]
fn whatlang_detect(text: &str, first: &KnownLang, second: &KnownLang) -> (detection: Option<
    Detection,
>)
    ensures
        detection_view(detection) == whatlang_detection(text@, first@, second@),
{
    match Detector::with_allowlist(vec![first.lang, second.lang]).detect(text) {
        Some(info) => Some(Detection { code: info.lang().code(), reliable: info.is_reliable(), info }),
        None => None,
    }
}

/// Maps an ISO 639-1 code to a language `whatlang` knows, through the table
/// and `whatlang`'s own code lookup.
pub open spec fn spec_lang_for(code: Seq<char>) -> Option<Seq<char>> {
    match iso639_3_for(code) {
        Some(iso3) => if whatlang_recognizes_code(iso3) {
            Some(iso3)
        } else {
            None
        },
        None => None,
    }
}

/// The ISO 639-1 codes a deployment can configure.
pub open spec fn is_configurable_code(code: Seq<char>) -> bool {
    ||| code == seq!['e', 'n']
    ||| code == seq!['e', 's']
    ||| code == seq!['f', 'r']
    ||| code == seq!['d', 'e']
    ||| code == seq!['i', 't']
    ||| code == seq!['p', 't']
    ||| code == seq!['n', 'l']
    ||| code == seq!['r', 'u']
    ||| code == seq!['z', 'h']
    ||| code == seq!['j', 'a']
    ||| code == seq!['k', 'o']
    ||| code == seq!['a', 'r']
    ||| code == seq!['h', 'i']
    ||| code == seq!['p', 'l']
    ||| code == seq!['t', 'r']
    ||| code == seq!['v', 'i']
}

/// The code table: each configurable ISO 639-1 code, in lowercase, maps to
/// its ISO 639-3 code (en to eng, es to spa, ..., ko to kor, ..., vi to
/// vie).
pub proof fn lemma_language_table()
    ensures
        iso639_3_for(seq!['e', 'n']) == Some(seq!['e', 'n', 'g']),
        iso639_3_for(seq!['e', 's']) == Some(seq!['s', 'p', 'a']),
        iso639_3_for(seq!['f', 'r']) == Some(seq!['f', 'r', 'a']),
        iso639_3_for(seq!['d', 'e']) == Some(seq!['d', 'e', 'u']),
        iso639_3_for(seq!['i', 't']) == Some(seq!['i', 't', 'a']),
        iso639_3_for(seq!['p', 't']) == Some(seq!['p', 'o', 'r']),
        iso639_3_for(seq!['n', 'l']) == Some(seq!['n', 'l', 'd']),
        iso639_3_for(seq!['r', 'u']) == Some(seq!['r', 'u', 's']),
        iso639_3_for(seq!['z', 'h']) == Some(seq!['c', 'm', 'n']),
        iso639_3_for(seq!['j', 'a']) == Some(seq!['j', 'p', 'n']),
        iso639_3_for(seq!['k', 'o']) == Some(seq!['k', 'o', 'r']),
        iso639_3_for(seq!['a', 'r']) == Some(seq!['a', 'r', 'b']),
        iso639_3_for(seq!['h', 'i']) == Some(seq!['h', 'i', 'n']),
        iso639_3_for(seq!['p', 'l']) == Some(seq!['p', 'o', 'l']),
        iso639_3_for(seq!['t', 'r']) == Some(seq!['t', 'u', 'r']),
        iso639_3_for(seq!['v', 'i']) == Some(seq!['v', 'i', 'e']),
{
    assert(ascii_lowercase(seq!['e', 'n']) =~= seq!['e', 'n']);
    assert(ascii_lowercase(seq!['e', 's']) =~= seq!['e', 's']);
    assert(ascii_lowercase(seq!['f', 'r']) =~= seq!['f', 'r']);
    assert(ascii_lowercase(seq!['d', 'e']) =~= seq!['d', 'e']);
    assert(ascii_lowercase(seq!['i', 't']) =~= seq!['i', 't']);
    assert(ascii_lowercase(seq!['p', 't']) =~= seq!['p', 't']);
    assert(ascii_lowercase(seq!['n', 'l']) =~= seq!['n', 'l']);
    assert(ascii_lowercase(seq!['r', 'u']) =~= seq!['r', 'u']);
    assert(ascii_lowercase(seq!['z', 'h']) =~= seq!['z', 'h']);
    assert(ascii_lowercase(seq!['j', 'a']) =~= seq!['j', 'a']);
    assert(ascii_lowercase(seq!['k', 'o']) =~= seq!['k', 'o']);
    assert(ascii_lowercase(seq!['a', 'r']) =~= seq!['a', 'r']);
    assert(ascii_lowercase(seq!['h', 'i']) =~= seq!['h', 'i']);
    assert(ascii_lowercase(seq!['p', 'l']) =~= seq!['p', 'l']);
    assert(ascii_lowercase(seq!['t', 'r']) =~= seq!['t', 'r']);
    assert(ascii_lowercase(seq!['v', 'i']) =~= seq!['v', 'i']);
}

/// The table answers exactly for the configurable codes, in any ASCII case,
/// never gives two of them the same ISO 639-3 code, and gives only codes
/// `whatlang` lists, except Arabic's.
pub proof fn lemma_language_table_is_exact(code: Seq<char>, other: Seq<char>)
    ensures
        iso639_3_for(code) is Some <==> is_configurable_code(ascii_lowercase(code)),
        iso639_3_for(code) is Some && iso639_3_for(code) == iso639_3_for(other) ==> ascii_lowercase(code)
            == ascii_lowercase(other),
        iso639_3_for(code) matches Some(c) ==> c == arb_code() || is_whatlang_listed_code(c),
{
}

/// The table's ISO 639-3 codes are all lowercase ASCII words.
proof fn lemma_iso639_3_lowercase(code: Seq<char>)
    ensures
        iso639_3_for(code) matches Some(c) ==> is_lowercase_ascii_word(c),
{
}

fn iso639_1_to_lang(code: &str) -> (lang: Option<KnownLang>)
    ensures
        match lang {
            Some(k) => spec_lang_for(code@) == Some(k@),
            None => spec_lang_for(code@) is None,
        },
        iso639_3_for(code@) matches Some(c) ==> (is_whatlang_listed_code(c) ==> lang is Some),
        iso639_3_for(code@) == Some(arb_code()) ==> lang is None,
{
    let iso3 = match iso639_1_to_iso639_3(code) {
        Some(c) => c,
        None => return None,
    };
    proof {
        lemma_iso639_3_lowercase(code@);
    }
    whatlang_lang_from_code(iso3)
}

/// Whether a detection singles out the expected language reliably.
pub open spec fn slot_matches(detection: Option<(Seq<char>, bool)>, expected: Seq<char>) -> bool {
    match detection {
        Some((code, reliable)) => code == expected && reliable,
        None => false,
    }
}

/// The answer of the two-slot comparison: `Some(true)` when only slot a
/// matches, `Some(false)` when only slot b matches, nothing otherwise.
pub open spec fn spec_decide(
    detection_a: Option<(Seq<char>, bool)>,
    lang_a: Seq<char>,
    detection_b: Option<(Seq<char>, bool)>,
    lang_b: Seq<char>,
) -> Option<bool> {
    let a_matches = slot_matches(detection_a, lang_a);
    let b_matches = slot_matches(detection_b, lang_b);
    if a_matches != b_matches {
        Some(a_matches)
    } else {
        None
    }
}

/// The answer `disambiguate` gives for two texts and two ISO 639-1 codes.
pub open spec fn spec_disambiguate(
    text_a: Seq<char>,
    lang_a_code: Seq<char>,
    text_b: Seq<char>,
    lang_b_code: Seq<char>,
) -> Option<bool> {
    match (spec_lang_for(lang_a_code), spec_lang_for(lang_b_code)) {
        (Some(a), Some(b)) => spec_decide(
            whatlang_detection(text_a, a, b),
            a,
            whatlang_detection(text_b, a, b),
            b,
        ),
        _ => None,
    }
}

/// Result of forcing a choice between exactly two candidate languages.
#[derive(Debug, PartialEq)]
pub struct DisambiguationResult {
    /// `true` if `text_a` was judged to be in `lang_a`; `false` if `text_b`
    /// was judged to be in `lang_b`.
    pub favors_a: bool,
    /// The detection of the winning slot; its `confidence()` is the
    /// confidence of the answer.
    pub info: Info,
}

/// Judges two detections against the languages they were expected to be
/// in: an answer only when exactly one slot matches its language reliably,
/// carrying that slot's detection.
pub fn decide_disambiguation(
    detection_a: Option<Detection>,
    lang_a: &str,
    detection_b: Option<Detection>,
    lang_b: &str,
) -> (result: Option<DisambiguationResult>)
    ensures
        match result {
            Some(r) => {
                &&& spec_decide(detection_view(detection_a), lang_a@, detection_view(detection_b), lang_b@)
                    == Some(r.favors_a)
                &&& r.favors_a ==> (detection_a matches Some(d) && r.info == d.info)
                &&& !r.favors_a ==> (detection_b matches Some(d) && r.info == d.info)
            },
            None => spec_decide(detection_view(detection_a), lang_a@, detection_view(detection_b), lang_b@) is None,
        },
{
    let a_matches = match &detection_a {
        Some(d) => d.reliable && str_eq(d.code, lang_a),
        None => false,
    };
    let b_matches = match &detection_b {
        Some(d) => d.reliable && str_eq(d.code, lang_b),
        None => false,
    };
    if a_matches && !b_matches {
        match detection_a {
            Some(d) => Some(DisambiguationResult { favors_a: true, info: d.info }),
            None => None,
        }
    } else if b_matches && !a_matches {
        match detection_b {
            Some(d) => Some(DisambiguationResult { favors_a: false, info: d.info }),
            None => None,
        }
    } else {
        None
    }
}

/// Given speech recognized as each of two candidate languages (ISO 639-1
/// codes), judges which one the speaker actually used. No answer when either
/// code is unknown, or when both or neither slot matches its language
/// reliably: the caller then falls back to its other tiebreaks.
pub fn disambiguate(text_a: &str, lang_a_code: &str, text_b: &str, lang_b_code: &str) -> (result:
    Option<DisambiguationResult>)
    ensures
        match result {
            Some(r) => spec_disambiguate(text_a@, lang_a_code@, text_b@, lang_b_code@) == Some(
                r.favors_a,
            ),
            None => spec_disambiguate(text_a@, lang_a_code@, text_b@, lang_b_code@) is None,
        },
        iso639_3_for(lang_a_code@) == Some(arb_code()) || iso639_3_for(lang_b_code@) == Some(
            arb_code(),
        ) ==> result is None,
        iso639_3_for(lang_a_code@) matches Some(a) ==> (iso639_3_for(lang_b_code@) matches Some(b)
            ==> (is_whatlang_listed_code(a) && is_whatlang_listed_code(b) ==> match result {
            Some(r) => spec_decide(
                whatlang_detection(text_a@, a, b),
                a,
                whatlang_detection(text_b@, a, b),
                b,
            ) == Some(r.favors_a),
            None => spec_decide(
                whatlang_detection(text_a@, a, b),
                a,
                whatlang_detection(text_b@, a, b),
                b,
            ) is None,
        })),
{
    let lang_a = match iso639_1_to_lang(lang_a_code) {
        Some(l) => l,
        None => return None,
    };
    let lang_b = match iso639_1_to_lang(lang_b_code) {
        Some(l) => l,
        None => return None,
    };
    let info_a = whatlang_detect(text_a, &lang_a, &lang_b);
    let info_b = whatlang_detect(text_b, &lang_a, &lang_b);
    decide_disambiguation(info_a, lang_a.code.as_str(), info_b, lang_b.code.as_str())
}

/// No answer when either language code is unknown (to the table or to
/// `whatlang`); otherwise an answer exactly when one slot, and only one,
/// reliably detects its own language, and the answer names that slot.
pub proof fn lemma_disambiguation_answers(
    text_a: Seq<char>,
    lang_a_code: Seq<char>,
    text_b: Seq<char>,
    lang_b_code: Seq<char>,
)
    ensures
        spec_lang_for(lang_a_code) is None || spec_lang_for(lang_b_code) is None ==> spec_disambiguate(
            text_a,
            lang_a_code,
            text_b,
            lang_b_code,
        ) is None,
        spec_lang_for(lang_a_code) matches Some(a) ==> (spec_lang_for(lang_b_code) matches Some(b)
            ==> ({
            let a_ok = slot_matches(whatlang_detection(text_a, a, b), a);
            let b_ok = slot_matches(whatlang_detection(text_b, a, b), b);
            &&& spec_disambiguate(text_a, lang_a_code, text_b, lang_b_code) == Some(true) <==> a_ok
                && !b_ok
            &&& spec_disambiguate(text_a, lang_a_code, text_b, lang_b_code) == Some(false) <==> b_ok
                && !a_ok
        })),
{
}

} // verus!
