//! The wire formats that clients speak, each mapped onto the canonical
//! request and result. Resolution, validation and translation happen in the
//! orchestrator only; an adapter only reshapes.
use vstd::prelude::*;
use crate::error::AppError;
use crate::lang::{LanguagePair, code_view, detect_language_code, resolve_source, source_as};
use crate::orchestrator::{CanonicalRequest, CanonicalResult, same_code};
use crate::text::same_text;

verus! {

/// The uppercase form of `s`.
pub uninterp spec fn upper_of(s: Seq<char>) -> Seq<char>;

/// The lowercase form of `s`.
pub uninterp spec fn lower_of(s: Seq<char>) -> Seq<char>;

/// Relies on `str::to_uppercase`, whose result depends on the characters
/// alone.
#[verifier::external_body]
fn uppercase(s: &str) -> (r: String)
    ensures
        r@ == upper_of(s@),
{
    s.to_uppercase()
}

/// Relies on `str::to_lowercase`, whose result depends on the characters
/// alone.
#[verifier::external_body]
fn lowercase(s: &str) -> (r: String)
    ensures
        r@ == lower_of(s@),
{
    s.to_lowercase()
}

/// What building a canonical request gives: it refuses an empty text, and
/// otherwise carries the text and languages unchanged.
pub open spec fn canonical_as(
    text: Seq<char>,
    from: Option<String>,
    to: Seq<char>,
    r: Result<CanonicalRequest, AppError>,
) -> bool {
    if text.len() == 0 {
        r matches Err(AppError::EmptyText)
    } else {
        r is Ok && r->Ok_0.text@ == text && same_code(r->Ok_0.from, from) && r->Ok_0.to@ == to
    }
}

fn copy_code(from: &Option<String>) -> (r: Option<String>)
    ensures
        same_code(r, *from),
{
    match from {
        Some(s) => Some(s.clone()),
        None => None,
    }
}

/// Builds a canonical request; a request without text is refused.
pub fn canonical_request(text: &String, from: Option<String>, to: &String) -> (r: Result<
    CanonicalRequest,
    AppError,
>)
    ensures
        canonical_as(text@, from, to@, r),
{
    if text.unicode_len() == 0 {
        return Err(AppError::EmptyText);
    }
    let f = copy_code(&from);
    Ok(CanonicalRequest { text: text.clone(), from: f, to: to.clone() })
}

/// Generic format: `{text, from?, to}`.
#[derive(Clone, Debug)]
pub struct TranslationRequest {
    pub text: String,
    pub from: Option<String>,
    pub to: String,
}

/// Generic format: `{text, from, to}`.
#[derive(Clone, Debug)]
pub struct TranslationResponse {
    pub text: String,
    pub from: String,
    pub to: String,
}

/// Simple format, for its own clients: `{text, from?, to}`.
#[derive(Clone, Debug)]
pub struct KissTranslationRequest {
    pub text: String,
    pub from: Option<String>,
    pub to: String,
}

/// Simple format: `{text, from, to}`.
#[derive(Clone, Debug)]
pub struct KissTranslationResponse {
    pub text: String,
    pub from: String,
    pub to: String,
}

impl TranslationRequest {
    pub fn to_canonical(&self) -> (r: Result<CanonicalRequest, AppError>)
        ensures
            canonical_as(self.text@, self.from, self.to@, r),
    {
        canonical_request(&self.text, copy_code(&self.from), &self.to)
    }
}

impl TranslationResponse {
    pub fn from_canonical(res: &CanonicalResult) -> (r: TranslationResponse)
        ensures
            r.text@ == res.text@,
            r.from@ == res.from@,
            r.to@ == res.to@,
    {
        TranslationResponse { text: res.text.clone(), from: res.from.clone(), to: res.to.clone() }
    }
}

impl KissTranslationRequest {
    pub fn to_canonical(&self) -> (r: Result<CanonicalRequest, AppError>)
        ensures
            canonical_as(self.text@, self.from, self.to@, r),
    {
        canonical_request(&self.text, copy_code(&self.from), &self.to)
    }
}

impl KissTranslationResponse {
    pub fn from_canonical(res: &CanonicalResult) -> (r: KissTranslationResponse)
        ensures
            r.text@ == res.text@,
            r.from@ == res.from@,
            r.to@ == res.to@,
    {
        KissTranslationResponse {
            text: res.text.clone(),
            from: res.from.clone(),
            to: res.to.clone(),
        }
    }
}

/// Language detection: `{text}`.
#[derive(Clone, Debug)]
pub struct DetectLanguageRequest {
    pub text: String,
}

/// Language detection: `{language}`, an ISO 639-1 code.
#[derive(Clone, Debug)]
pub struct DetectLanguageResponse {
    pub language: String,
}

/// Detects the language of the request's text among every language the
/// detector knows.
pub fn detect_language(req: &DetectLanguageRequest) -> (r: Result<DetectLanguageResponse, AppError>)
    ensures
        match crate::lang::detected_any(req.text@) {
            None => r matches Err(AppError::DetectionFailed),
            Some(c) => if crate::lang::iso_639_1_of(c) is None {
                r matches Err(AppError::MissingIsoCode { code }) && code@ == c
            } else {
                r is Ok && r->Ok_0.language@ == crate::lang::iso_639_1_of(c)->0
            },
        },
{
    match detect_language_code(req.text.as_str()) {
        Ok(language) => Ok(DetectLanguageResponse { language }),
        Err(e) => Err(e),
    }
}

/// Batch format: one target and optional source for a list of texts.
#[derive(Clone, Debug)]
pub struct ImmersiveTranslationRequest {
    pub source_lang: Option<String>,
    pub target_lang: String,
    pub text_list: Vec<String>,
}

/// One translated text of a batch, with its source language.
#[derive(Clone, Debug)]
pub struct ImmersiveTranslationItem {
    pub detected_source_lang: String,
    pub text: String,
}

/// Batch format: the translations, in the order of the texts.
#[derive(Clone, Debug)]
pub struct ImmersiveTranslationResponse {
    pub translations: Vec<ImmersiveTranslationItem>,
}

impl ImmersiveTranslationRequest {
    /// One canonical request per text, in order, each with the batch's
    /// languages; refused where any text is empty.
    pub fn to_canonical(&self) -> (r: Result<Vec<CanonicalRequest>, AppError>)
        ensures
            (forall|i: int| 0 <= i < self.text_list@.len() ==> #[trigger] self.text_list@[i]@.len()
                > 0) ==> r is Ok && r->Ok_0@.len() == self.text_list@.len() && forall|i: int|
                0 <= i < self.text_list@.len() ==> canonical_as(
                    self.text_list@[i]@,
                    self.source_lang,
                    self.target_lang@,
                    Ok(#[trigger] r->Ok_0@[i]),
                ),
            (exists|i: int| 0 <= i < self.text_list@.len() && #[trigger] self.text_list@[i]@.len()
                == 0) ==> r matches Err(AppError::EmptyText),
    {
        let mut out: Vec<CanonicalRequest> = Vec::new();
        let mut i: usize = 0;
        while i < self.text_list.len()
            invariant
                i <= self.text_list@.len(),
                out@.len() == i,
                forall|j: int| 0 <= j < i ==> #[trigger] self.text_list@[j]@.len() > 0,
                forall|j: int|
                    0 <= j < i ==> canonical_as(
                        self.text_list@[j]@,
                        self.source_lang,
                        self.target_lang@,
                        Ok(#[trigger] out@[j]),
                    ),
            decreases self.text_list@.len() - i,
        {
            match canonical_request(
                &self.text_list[i],
                copy_code(&self.source_lang),
                &self.target_lang,
            ) {
                Ok(c) => {
                    out.push(c);
                },
                Err(e) => {
                    return Err(e);
                },
            }
            i = i + 1;
        }
        Ok(out)
    }
}

/// Gathers the outcomes of a batch, taken in order: every translation where
/// all succeeded, else the first error and nothing else.
pub fn collect_batch(outcomes: &Vec<Result<CanonicalResult, AppError>>) -> (r: Result<
    ImmersiveTranslationResponse,
    AppError,
>)
    ensures
        (forall|i: int| 0 <= i < outcomes@.len() ==> #[trigger] outcomes@[i] is Ok) ==> r is Ok
            && r->Ok_0.translations@.len() == outcomes@.len() && forall|i: int|
            0 <= i < outcomes@.len() ==> (#[trigger] r->Ok_0.translations@[i]).text@
                == outcomes@[i]->Ok_0.text@ && r->Ok_0.translations@[i].detected_source_lang@
                == outcomes@[i]->Ok_0.from@,
        forall|k: int|
            0 <= k < outcomes@.len() && #[trigger] outcomes@[k] is Err && (forall|j: int|
                0 <= j < k ==> #[trigger] outcomes@[j] is Ok) ==> r is Err && r->Err_0.key()
                == outcomes@[k]->Err_0.key(),
{
    let mut items: Vec<ImmersiveTranslationItem> = Vec::new();
    let mut i: usize = 0;
    while i < outcomes.len()
        invariant
            i <= outcomes@.len(),
            items@.len() == i,
            forall|j: int| 0 <= j < i ==> #[trigger] outcomes@[j] is Ok,
            forall|j: int|
                0 <= j < i ==> (#[trigger] items@[j]).text@ == outcomes@[j]->Ok_0.text@
                    && items@[j].detected_source_lang@ == outcomes@[j]->Ok_0.from@,
        decreases outcomes@.len() - i,
    {
        match &outcomes[i] {
            Ok(res) => {
                items.push(
                    ImmersiveTranslationItem {
                        detected_source_lang: res.from.clone(),
                        text: res.text.clone(),
                    },
                );
            },
            Err(e) => {
                return Err(e.duplicate());
            },
        }
        i = i + 1;
    }
    Ok(ImmersiveTranslationResponse { translations: items })
}

/// The language code that the dictionary app's name for a language stands
/// for; a name outside its table passes unchanged.
pub open spec fn code_for_name(name: Seq<char>) -> Seq<char> {
    if name == "中文(简体)"@ {
        "zh"@
    } else if name == "英语"@ {
        "en"@
    } else if name == "日语"@ {
        "jp"@
    } else {
        name
    }
}

/// The dictionary app's name for a language code; a code outside its
/// table passes unchanged.
pub open spec fn name_for_code(code: Seq<char>) -> Seq<char> {
    if code == "zh"@ {
        "中文(简体)"@
    } else if code == "en"@ {
        "英语"@
    } else if code == "jp"@ {
        "日语"@
    } else {
        code
    }
}

/// The language code for one of the dictionary app's language names.
pub fn convert_language_name(lang: &str) -> (r: String)
    ensures
        r@ == code_for_name(lang@),
{
    if same_text(lang, "中文(简体)") {
        String::from_str("zh")
    } else if same_text(lang, "英语") {
        String::from_str("en")
    } else if same_text(lang, "日语") {
        String::from_str("jp")
    } else {
        String::from_str(lang)
    }
}

/// The dictionary app's name for a language code.
pub fn get_language_name(code: &str) -> (r: String)
    ensures
        r@ == name_for_code(code@),
{
    if same_text(code, "zh") {
        String::from_str("中文(简体)")
    } else if same_text(code, "en") {
        String::from_str("英语")
    } else if same_text(code, "jp") {
        String::from_str("日语")
    } else {
        String::from_str(code)
    }
}

/// The target that the dictionary app asks for, given the resolved source
/// language: English where no destination is given; the second destination
/// where the first is the source language itself; else the first.
pub open spec fn hcfy_target_of(destination: Seq<String>, source: Seq<char>) -> Seq<char> {
    if destination.len() == 0 {
        "en"@
    } else if destination.len() >= 2 && code_for_name(destination[0]@) == source {
        code_for_name(destination[1]@)
    } else {
        code_for_name(destination[0]@)
    }
}

/// The target language of a dictionary-app request whose source language
/// has been resolved to `source`.
pub fn hcfy_target(destination: &Vec<String>, source: &String) -> (r: String)
    ensures
        r@ == hcfy_target_of(destination@, source@),
{
    if destination.len() == 0 {
        return String::from_str("en");
    }
    let first = convert_language_name(destination[0].as_str());
    if destination.len() >= 2 && same_text(first.as_str(), source.as_str()) {
        return convert_language_name(destination[1].as_str());
    }
    first
}

/// Dictionary-app format: language names instead of codes.
#[derive(Clone, Debug)]
pub struct HcfyTranslationRequest {
    pub text: String,
    pub source: Option<String>,
    pub destination: Vec<String>,
}

/// Dictionary-app format: the text, both language names, and the
/// translation as a list of one.
#[derive(Clone, Debug)]
pub struct HcfyTranslationResponse {
    pub text: String,
    pub from: String,
    pub to: String,
    pub result: Vec<String>,
}

/// The source of a dictionary-app request, as a code.
pub open spec fn hcfy_source_view(source: Option<String>) -> Option<Seq<char>> {
    match source {
        None => None,
        Some(s) => Some(code_for_name(s@)),
    }
}

/// The canonical request built for `req` once its source has resolved as
/// `rs`: a resolution error stops it; else it carries the resolved source
/// and the target chosen for it.
pub open spec fn hcfy_built_as(
    req: HcfyTranslationRequest,
    rs: Result<String, AppError>,
    r: Result<CanonicalRequest, AppError>,
) -> bool {
    match rs {
        Err(e) => r is Err && r->Err_0.key() == e.key(),
        Ok(src) => {
            &&& r is Ok
            &&& r->Ok_0.text@ == req.text@
            &&& code_view(r->Ok_0.from) == Some(src@)
            &&& r->Ok_0.to@ == hcfy_target_of(req.destination@, src@)
        },
    }
}

/// What turning a dictionary-app request into a canonical one gives under
/// the loaded `models`: an empty text is refused; else the source name is
/// turned into a code and resolved (detected where absent), and the target
/// is chosen against that resolved source.
pub open spec fn hcfy_as(
    req: HcfyTranslationRequest,
    models: Seq<LanguagePair>,
    r: Result<CanonicalRequest, AppError>,
) -> bool {
    if req.text@.len() == 0 {
        r matches Err(AppError::EmptyText)
    } else {
        exists|rs: Result<String, AppError>|
            #[trigger] source_as(hcfy_source_view(req.source), req.text@, models, rs)
                && hcfy_built_as(req, rs, r)
    }
}

impl HcfyTranslationRequest {
    /// The canonical request: the source name turned into a code and
    /// resolved against the loaded `models`, and the target chosen among the
    /// destinations against that resolved source.
    pub fn to_canonical(&self, models: &Vec<LanguagePair>) -> (r: Result<CanonicalRequest, AppError>)
        ensures
            hcfy_as(*self, models@, r),
    {
        if self.text.unicode_len() == 0 {
            return Err(AppError::EmptyText);
        }
        let source = match &self.source {
            Some(s) => Some(convert_language_name(s.as_str())),
            None => None,
        };
        let resolved = resolve_source(&source, self.text.as_str(), models);
        assert(code_view(source) == hcfy_source_view(self.source));
        match resolved {
            Err(e) => {
                let r = Err(e.duplicate());
                assert(hcfy_built_as(*self, resolved, r));
                r
            },
            Ok(src) => {
                let target = hcfy_target(&self.destination, &src);
                let r = canonical_request(&self.text, Some(src.clone()), &target);
                assert(hcfy_built_as(*self, Ok(src), r));
                r
            },
        }
    }
}

impl HcfyTranslationResponse {
    /// The response for `req`: its text, the names of both languages, and
    /// the translation.
    pub fn from_canonical(req: &CanonicalRequest, res: &CanonicalResult) -> (r:
        HcfyTranslationResponse)
        ensures
            r.text@ == req.text@,
            r.from@ == name_for_code(res.from@),
            r.to@ == name_for_code(req.to@),
            r.result@.len() == 1,
            r.result@[0]@ == res.text@,
    {
        let mut result: Vec<String> = Vec::new();
        result.push(res.text.clone());
        HcfyTranslationResponse {
            text: req.text.clone(),
            from: get_language_name(res.from.as_str()),
            to: get_language_name(req.to.as_str()),
            result,
        }
    }
}

/// Numeric-code format: codes in any case.
#[derive(Clone, Debug)]
pub struct DeeplxTranslationRequest {
    pub text: String,
    pub source_lang: String,
    pub target_lang: String,
}

/// Numeric-code format: a status code, an identifier, the translation, and
/// the codes in upper case.
#[derive(Clone, Debug)]
pub struct DeeplxTranslationResponse {
    pub code: u32,
    pub id: u128,
    pub data: String,
    pub alternatives: Vec<String>,
    pub source_lang: String,
    pub target_lang: String,
    pub method: String,
}

impl DeeplxTranslationRequest {
    /// The canonical request, with both codes lower-cased.
    pub fn to_canonical(&self) -> (r: Result<CanonicalRequest, AppError>)
        ensures
            self.text@.len() == 0 ==> r matches Err(AppError::EmptyText),
            self.text@.len() > 0 ==> r is Ok && r->Ok_0.text@ == self.text@ && r->Ok_0.from is Some
                && r->Ok_0.from->0@ == lower_of(self.source_lang@) && r->Ok_0.to@ == lower_of(
                self.target_lang@,
            ),
    {
        let source = lowercase(self.source_lang.as_str());
        let target = lowercase(self.target_lang.as_str());
        canonical_request(&self.text, Some(source), &target)
    }
}

impl DeeplxTranslationResponse {
    /// The response for `res`, under the identifier `id` (the time in
    /// milliseconds, which the caller reads).
    pub fn from_canonical(res: &CanonicalResult, id: u128) -> (r: DeeplxTranslationResponse)
        ensures
            r.code == 200,
            r.id == id,
            r.data@ == res.text@,
            r.alternatives@.len() == 0,
            r.source_lang@ == upper_of(res.from@),
            r.target_lang@ == upper_of(res.to@),
            r.method@ == "Free"@,
    {
        DeeplxTranslationResponse {
            code: 200,
            id,
            data: res.text.clone(),
            alternatives: Vec::new(),
            source_lang: uppercase(res.from.as_str()),
            target_lang: uppercase(res.to.as_str()),
            method: String::from_str("Free"),
        }
    }
}

} // verus!
