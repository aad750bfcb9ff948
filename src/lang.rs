//! Language codes and language resolution.
//!
//! Inside the library a language is its two-letter ISO 639-1 code. The
//! tables of ISO 639 come from `isolang`; detection from text comes from
//! `whatlang`, which names languages by their three-letter ISO 639-3 code.
use vstd::prelude::*;
use crate::error::AppError;
use crate::text::{find_char, next_index, same_text};

verus! {

/// The ISO 639-3 code of the language whose ISO 639-1 code is `code`, or
/// `None` where `code` is no ISO 639-1 code.
pub uninterp spec fn iso_639_3_of(code: Seq<char>) -> Option<Seq<char>>;

/// The ISO 639-1 code of the language whose ISO 639-3 code is `code`, where
/// it is a known language that has one.
pub uninterp spec fn iso_639_1_of(code: Seq<char>) -> Option<Seq<char>>;

/// Whether the detector knows the language with ISO 639-3 code `code`.
pub uninterp spec fn detector_knows(code: Seq<char>) -> bool;

/// The ISO 639-3 code of the language that the detector finds in `text`
/// when it may only choose among `allowed`.
pub uninterp spec fn detected_among(text: Seq<char>, allowed: Seq<Seq<char>>) -> Option<
    Seq<char>,
>;

/// The ISO 639-3 code of the language that the detector finds in `text`
/// among all the languages it knows.
pub uninterp spec fn detected_any(text: Seq<char>) -> Option<Seq<char>>;

/// Relies on `isolang::Language::from_639_1` to look up a two-letter code,
/// and on `Language::to_639_3` to give that language's three-letter code.
#[verifier::external_body]
pub(crate) fn iso_639_3_code(code: &str) -> (r: Option<String>)
    ensures
        r is Some <==> iso_639_3_of(code@) is Some,
        r is Some ==> r->0@ == iso_639_3_of(code@)->0,
{
    isolang::Language::from_639_1(code).map(|l| l.to_639_3().to_string())
}

/// Relies on `isolang::Language::from_639_3` to look up a three-letter
/// code, and on `Language::to_639_1` for that language's two-letter code.
#[verifier::external_body]
fn iso_639_1_code(code: &str) -> (r: Option<String>)
    ensures
        r is Some <==> iso_639_1_of(code@) is Some,
        r is Some ==> r->0@ == iso_639_1_of(code@)->0,
{
    isolang::Language::from_639_3(code).and_then(|l| l.to_639_1()).map(|c| c.to_string())
}

/// Relies on `whatlang::Lang::from_code`, which knows a language by its
/// ISO 639-3 code.
#[verifier::external_body]
fn detector_knows_code(code: &str) -> (r: bool)
    ensures
        r == detector_knows(code@),
{
    whatlang::Lang::from_code(code).is_some()
}

/// Relies on `whatlang::Detector::with_allowlist` and `Detector::detect_lang`
/// for the detection, and on `Lang::from_code` and `Lang::code` to carry
/// languages as ISO 639-3 codes.
#[verifier::external_body]
fn detect_among(text: &str, allowed: &Vec<String>) -> (r: Option<String>)
    requires
        forall|i: int| 0 <= i < allowed@.len() ==> detector_knows(#[trigger] allowed@[i]@),
    ensures
        r is Some <==> detected_among(text@, allowed@.map_values(|s: String| s@)) is Some,
        r is Some ==> r->0@ == detected_among(text@, allowed@.map_values(|s: String| s@))->0,
{
    let list = allowed.iter().map(|c| whatlang::Lang::from_code(c.as_str()).unwrap()).collect();
    whatlang::Detector::with_allowlist(list).detect_lang(text).map(|l| l.code().to_string())
}

/// Relies on `whatlang::detect_lang` for the detection, and on `Lang::code`
/// to carry its result as an ISO 639-3 code.
#[verifier::external_body]
fn detect_any(text: &str) -> (r: Option<String>)
    ensures
        r is Some <==> detected_any(text@) is Some,
        r is Some ==> r->0@ == detected_any(text@)->0,
{
    whatlang::detect_lang(text).map(|l| l.code().to_string())
}

/// An ordered pair of languages, each given by its ISO 639-1 code.
#[derive(Clone, Debug)]
pub struct LanguagePair {
    pub source: String,
    pub target: String,
}

impl LanguagePair {
    /// A copy of this pair.
    pub fn clone_pair(&self) -> (r: LanguagePair)
        ensures
            r.source@ == self.source@,
            r.target@ == self.target@,
    {
        LanguagePair { source: self.source.clone(), target: self.target.clone() }
    }
}

/// The primary subtag of a language tag: `en` for `en-US`, the whole tag
/// where it has no `-`.
pub open spec fn primary_subtag(s: Seq<char>) -> Seq<char> {
    s.take(next_index(s, 0, '-'))
}

/// The primary subtag of `code`.
pub fn primary_subtag_of(code: &str) -> (r: &str)
    ensures
        r@ == primary_subtag(code@),
{
    let end = find_char(code, 0, '-');
    code.substring_char(0, end)
}

/// Parses a language code into its ISO 639-1 form. A regional suffix
/// (`en-US`) is dropped; what remains must be a known ISO 639-1 code.
pub fn parse_language_code(code: &str) -> (r: Result<String, AppError>)
    ensures
        parsed_as(code@, r),
{
    let primary = primary_subtag_of(code);
    match iso_639_3_code(primary) {
        Some(_) => Ok(String::from_str(primary)),
        None => Err(AppError::InvalidLanguageCode { code: String::from_str(code) }),
    }
}

/// An entry of the allow-list: the ISO 639-3 code that the detector is
/// offered, and the ISO 639-1 code of the model language it stems from.
pub type AllowEntry = (Seq<char>, Seq<char>);

/// The ISO 639-3 codes of the entries.
pub open spec fn codes_of(acc: Seq<AllowEntry>) -> Seq<Seq<char>> {
    acc.map_values(|e: AllowEntry| e.0)
}

/// The allow-list `acc` after `lang` is offered to it: the ISO 639-3 code
/// of `lang` is added, with `lang`, where it has one that the detector
/// knows and that `acc` does not yet hold.
pub open spec fn offer(acc: Seq<AllowEntry>, lang: Seq<char>) -> Seq<AllowEntry> {
    match iso_639_3_of(lang) {
        Some(c) => if detector_knows(c) && !codes_of(acc).contains(c) {
            acc.push((c, lang))
        } else {
            acc
        },
        None => acc,
    }
}

/// The entries of the allow-list for detection, from the languages on
/// either side of any pair in `models`, in order of first appearance.
pub open spec fn allow_entries_of(models: Seq<LanguagePair>) -> Seq<AllowEntry>
    decreases models.len(),
{
    if models.len() == 0 {
        Seq::empty()
    } else {
        let last = models.last();
        offer(offer(allow_entries_of(models.drop_last()), last.source@), last.target@)
    }
}

/// The allow-list for detection: the ISO 639-3 codes of the languages of
/// `models` that the detector knows, each once.
pub open spec fn allow_list_of(models: Seq<LanguagePair>) -> Seq<Seq<char>> {
    codes_of(allow_entries_of(models))
}

/// The languages on either side of any pair of `models`.
pub open spec fn model_language(models: Seq<LanguagePair>, lang: Seq<char>) -> bool {
    exists|i: int|
        0 <= i < models.len() && (models[i].source@ == lang || models[i].target@ == lang)
}

/// Each entry of `acc` holds a code that the detector knows, the code of a
/// language of `models` together with that language, and no code stands
/// twice.
pub open spec fn candidates_from(acc: Seq<AllowEntry>, models: Seq<LanguagePair>) -> bool {
    &&& codes_of(acc).no_duplicates()
    &&& forall|k: int|
        0 <= k < acc.len() ==> detector_knows(#[trigger] acc[k].0) && model_language(
            models,
            acc[k].1,
        ) && iso_639_3_of(acc[k].1) == Some(acc[k].0)
}

proof fn lemma_offer_keeps(acc: Seq<AllowEntry>, lang: Seq<char>, models: Seq<LanguagePair>)
    requires
        candidates_from(acc, models),
        model_language(models, lang),
    ensures
        candidates_from(offer(acc, lang), models),
{
    if let Some(c) = iso_639_3_of(lang) {
        if detector_knows(c) && !codes_of(acc).contains(c) {
            let n = acc.push((c, lang));
            let cs = codes_of(acc);
            assert(codes_of(n) =~= cs.push(c));
            assert forall|i: int, j: int|
                0 <= i < codes_of(n).len() && 0 <= j < codes_of(n).len() && i != j implies codes_of(
                n,
            )[i] != codes_of(n)[j] by {
                if i < acc.len() && j < acc.len() {
                    assert(cs[i] != cs[j]);
                } else if i < acc.len() {
                    assert(cs[i] != c);
                } else if j < acc.len() {
                    assert(cs[j] != c);
                }
            }
            assert forall|k: int| 0 <= k < n.len() implies detector_knows(#[trigger] n[k].0)
                && model_language(models, n[k].1) && iso_639_3_of(n[k].1) == Some(n[k].0) by {
                if k < acc.len() {
                    assert(n[k] == acc[k]);
                }
            }
        }
    }
}

/// What the allow-list holds: ISO 639-3 codes that the detector knows, each
/// the code of the language of `models` it is listed with, none twice.
pub proof fn lemma_allow_list_members(models: Seq<LanguagePair>)
    ensures
        candidates_from(allow_entries_of(models), models),
    decreases models.len(),
{
    if models.len() > 0 {
        let prev = models.drop_last();
        lemma_allow_list_members(prev);
        let last = models.last();
        let a0 = allow_entries_of(prev);
        assert forall|l: Seq<char>| model_language(prev, l) implies model_language(models, l) by {
            let i = choose|i: int|
                0 <= i < prev.len() && (prev[i].source@ == l || prev[i].target@ == l);
            assert(models[i] == prev[i]);
        }
        assert forall|k: int| 0 <= k < a0.len() implies detector_knows(#[trigger] a0[k].0)
            && model_language(models, a0[k].1) && iso_639_3_of(a0[k].1) == Some(a0[k].0) by {
            assert(detector_knows(a0[k].0));
            assert(model_language(prev, a0[k].1));
        }
        assert(model_language(models, last.source@));
        assert(model_language(models, last.target@));
        lemma_offer_keeps(a0, last.source@, models);
        lemma_offer_keeps(offer(a0, last.source@), last.target@, models);
    }
}

/// The entries held by two parallel lists of codes.
pub open spec fn zip_views(codes: Seq<String>, owners: Seq<String>) -> Seq<AllowEntry> {
    Seq::new(codes.len(), |i: int| (codes[i]@, owners[i]@))
}

/// Where `code` stands among the strings of `list`.
fn position_of(list: &Vec<String>, code: &String) -> (r: Option<usize>)
    ensures
        r is Some ==> r->0 < list@.len() && list@[r->0 as int]@ == code@,
        r is None ==> !list@.map_values(|s: String| s@).contains(code@),
{
    let ghost view = list@.map_values(|s: String| s@);
    let mut k: usize = 0;
    while k < list.len()
        invariant
            k <= list@.len(),
            view == list@.map_values(|s: String| s@),
            forall|j: int| 0 <= j < k ==> list@[j]@ != code@,
        decreases list@.len() - k,
    {
        if same_text(list[k].as_str(), code.as_str()) {
            return Some(k);
        }
        k = k + 1;
    }
    assert(!view.contains(code@)) by {
        if view.contains(code@) {
            let j = choose|j: int| 0 <= j < view.len() && view[j] == code@;
            assert(list@[j]@ == code@);
        }
    }
    None
}

/// Offers `lang` to the allow-list under construction, held as a list of
/// codes and a parallel list of the model languages they stem from.
fn offer_language(codes: &mut Vec<String>, owners: &mut Vec<String>, lang: &String)
    requires
        old(codes)@.len() == old(owners)@.len(),
        forall|i: int| 0 <= i < old(codes)@.len() ==> detector_knows(#[trigger] old(codes)@[i]@),
    ensures
        final(codes)@.len() == final(owners)@.len(),
        zip_views(final(codes)@, final(owners)@) == offer(
            zip_views(old(codes)@, old(owners)@),
            lang@,
        ),
        forall|i: int| 0 <= i < final(codes)@.len() ==> detector_knows(#[trigger] final(codes)@[i]@),
{
    let ghost before = zip_views(codes@, owners@);
    assert(codes_of(before) =~= codes@.map_values(|s: String| s@));
    if let Some(c) = iso_639_3_code(lang.as_str()) {
        if detector_knows_code(c.as_str()) {
            match position_of(codes, &c) {
                None => {
                    codes.push(c);
                    owners.push(lang.clone());
                    assert(zip_views(codes@, owners@) =~= before.push((c@, lang@)));
                },
                Some(k) => {
                    assert(codes_of(before)[k as int] == c@);
                },
            }
        }
    }
}

/// The allow-list for detection, as codes and the model languages they
/// stem from.
fn allow_entries(models: &Vec<LanguagePair>) -> (r: (Vec<String>, Vec<String>))
    ensures
        r.0@.len() == r.1@.len(),
        zip_views(r.0@, r.1@) == allow_entries_of(models@),
        forall|i: int| 0 <= i < r.0@.len() ==> detector_knows(#[trigger] r.0@[i]@),
{
    let mut codes: Vec<String> = Vec::new();
    let mut owners: Vec<String> = Vec::new();
    let mut i: usize = 0;
    assert(zip_views(codes@, owners@) =~= Seq::<AllowEntry>::empty());
    while i < models.len()
        invariant
            i <= models@.len(),
            codes@.len() == owners@.len(),
            zip_views(codes@, owners@) == allow_entries_of(models@.take(i as int)),
            forall|k: int| 0 <= k < codes@.len() ==> detector_knows(#[trigger] codes@[k]@),
        decreases models@.len() - i,
    {
        proof {
            assert(models@.take(i as int + 1).drop_last() =~= models@.take(i as int));
        }
        offer_language(&mut codes, &mut owners, &models[i].source);
        offer_language(&mut codes, &mut owners, &models[i].target);
        i = i + 1;
    }
    assert(models@.take(i as int) =~= models@);
    (codes, owners)
}

/// The allow-list for detection over the languages of `models`.
pub fn allow_list(models: &Vec<LanguagePair>) -> (r: Vec<String>)
    ensures
        r@.map_values(|s: String| s@) == allow_list_of(models@),
        forall|i: int| 0 <= i < r@.len() ==> detector_knows(#[trigger] r@[i]@),
{
    let (codes, owners) = allow_entries(models);
    assert(codes@.map_values(|s: String| s@) =~= codes_of(zip_views(codes@, owners@)));
    codes
}

/// The detector's finding for `text` under the allow-list of `models`.
pub open spec fn detection_in(text: Seq<char>, models: Seq<LanguagePair>) -> Option<Seq<char>> {
    detected_among(text, allow_list_of(models))
}

/// What detection of `text` among the languages of `models` gives: the
/// model's own ISO 639-1 code for the detected language, or the failure
/// that stops it.
pub open spec fn detected_as(
    text: Seq<char>,
    models: Seq<LanguagePair>,
    r: Result<String, AppError>,
) -> bool {
    match detection_in(text, models) {
        None => r matches Err(AppError::DetectionFailed),
        Some(c) => if !allow_list_of(models).contains(c) {
            r matches Err(AppError::DetectedOutsideModels { code }) && code@ == c
        } else {
            r is Ok && allow_entries_of(models).contains((c, r->Ok_0@))
        },
    }
}

/// What parsing the language code `code` gives: its primary subtag where
/// that is a known ISO 639-1 code, else an error that quotes `code`.
pub open spec fn parsed_as(code: Seq<char>, r: Result<String, AppError>) -> bool {
    if iso_639_3_of(primary_subtag(code)) is Some {
        r is Ok && r->Ok_0@ == primary_subtag(code)
    } else {
        r matches Err(AppError::InvalidLanguageCode { code: c }) && c@ == code
    }
}

/// Detects the language of `text` among the languages of the loaded
/// `models`, and gives the code under which a model holds it. It fails
/// where the detector finds nothing, and where it names a language outside
/// the allow-list.
pub fn language_detect(text: &str, models: &Vec<LanguagePair>) -> (r: Result<String, AppError>)
    ensures
        detected_as(text@, models@, r),
        r is Ok ==> model_language(models@, r->Ok_0@) && iso_639_3_of(r->Ok_0@) == detection_in(
            text@,
            models@,
        ),
{
    let (codes, owners) = allow_entries(models);
    proof {
        assert(codes@.map_values(|s: String| s@) =~= codes_of(zip_views(codes@, owners@)));
        lemma_allow_list_members(models@);
    }
    match detect_among(text, &codes) {
        None => Err(AppError::DetectionFailed),
        Some(c) => match position_of(&codes, &c) {
            None => Err(AppError::DetectedOutsideModels { code: c }),
            Some(k) => {
                let ghost entries = zip_views(codes@, owners@);
                let r = owners[k].clone();
                proof {
                    assert(entries[k as int] == (c@, r@));
                    assert(codes_of(entries)[k as int] == c@);
                    assert(allow_list_of(models@).contains(c@));
                    assert(allow_entries_of(models@).contains((c@, r@)));
                    assert(detector_knows(entries[k as int].0));
                }
                Ok(r)
            },
        },
    }
}

/// A requested source language as plain values.
pub open spec fn code_view(o: Option<String>) -> Option<Seq<char>> {
    match o {
        None => None,
        Some(s) => Some(s@),
    }
}

/// Whether a requested source language asks for detection: it is absent,
/// empty, or `auto`.
pub open spec fn asks_detection(explicit: Option<Seq<char>>) -> bool {
    match explicit {
        None => true,
        Some(s) => s.len() == 0 || s == "auto"@,
    }
}

/// What resolving the source language `explicit` of `text` under `models`
/// gives: detection among the models' languages where it asks for it, else
/// the parsed code.
pub open spec fn source_as(
    explicit: Option<Seq<char>>,
    text: Seq<char>,
    models: Seq<LanguagePair>,
    r: Result<String, AppError>,
) -> bool {
    if asks_detection(explicit) {
        detected_as(text, models, r)
    } else {
        parsed_as(explicit->0, r)
    }
}

/// Source resolution has one outcome: an `Ok` excludes every error, and
/// two outcomes agree as plain values.
pub proof fn lemma_source_unique(
    explicit: Option<Seq<char>>,
    text: Seq<char>,
    models: Seq<LanguagePair>,
    r1: Result<String, AppError>,
    r2: Result<String, AppError>,
)
    requires
        source_as(explicit, text, models, r1),
        source_as(explicit, text, models, r2),
    ensures
        r1 is Ok <==> r2 is Ok,
        r1 is Ok ==> r1->Ok_0@ == r2->Ok_0@,
        r1 is Err ==> r1->Err_0.key() == r2->Err_0.key(),
{
    if asks_detection(explicit) && r1 is Ok && r2 is Ok {
        let c = detection_in(text, models)->0;
        let e = allow_entries_of(models);
        lemma_allow_list_members(models);
        let k1 = choose|k: int| 0 <= k < e.len() && e[k] == (c, r1->Ok_0@);
        let k2 = choose|k: int| 0 <= k < e.len() && e[k] == (c, r2->Ok_0@);
        assert(codes_of(e)[k1] == codes_of(e)[k2]);
    }
}

/// Resolves the source language of a request: detection among the loaded
/// models' languages where none is given (or `auto`), else the given code.
pub fn resolve_source(explicit: &Option<String>, text: &str, models: &Vec<LanguagePair>) -> (r:
    Result<String, AppError>)
    ensures
        source_as(code_view(*explicit), text@, models@, r),
{
    match explicit {
        None => language_detect(text, models),
        Some(code) => {
            if code.unicode_len() == 0 || same_text(code.as_str(), "auto") {
                language_detect(text, models)
            } else {
                parse_language_code(code.as_str())
            }
        },
    }
}

/// Resolves the target language of a request, which is always given.
pub fn resolve_target(code: &str) -> (r: Result<String, AppError>)
    ensures
        parsed_as(code@, r),
{
    parse_language_code(code)
}

/// Detects the language of `text` among every language the detector knows,
/// and gives its ISO 639-1 code.
pub fn detect_language_code(text: &str) -> (r: Result<String, AppError>)
    ensures
        match detected_any(text@) {
            None => r matches Err(AppError::DetectionFailed),
            Some(c) => if iso_639_1_of(c) is None {
                r matches Err(AppError::MissingIsoCode { code }) && code@ == c
            } else {
                r is Ok && r->Ok_0@ == iso_639_1_of(c)->0
            },
        },
{
    match detect_any(text) {
        None => Err(AppError::DetectionFailed),
        Some(c) => match iso_639_1_code(c.as_str()) {
            Some(two) => Ok(two),
            None => Err(AppError::MissingIsoCode { code: c }),
        },
    }
}

} // verus!
