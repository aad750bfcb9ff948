//! The translation pipeline: resolve the languages, ask the engine whether
//! it holds a model for the pair, translate, and package the result.
//!
//! The engine lives outside the library. A translation is therefore a job
//! that moves from state to state: each step names the engine call to make
//! next, and the caller hands back the engine's reply.
use vstd::prelude::*;
use crate::error::AppError;
use crate::lang::{
    LanguagePair, code_view, lemma_source_unique, parsed_as, resolve_source, resolve_target,
    source_as,
};

verus! {

/// A request in the form that every adapter produces.
#[derive(Clone, Debug)]
pub struct CanonicalRequest {
    pub text: String,
    /// The source language; absent, empty or `auto` asks for detection.
    pub from: Option<String>,
    pub to: String,
}

/// A finished translation with the languages it was made between.
#[derive(Clone, Debug)]
pub struct CanonicalResult {
    pub text: String,
    pub from: String,
    pub to: String,
}

impl CanonicalResult {
    pub open spec fn key(&self) -> (Seq<char>, Seq<char>, Seq<char>) {
        (self.text@, self.from@, self.to@)
    }
}

/// Where a job stands.
#[derive(PartialEq, Eq, Structural, Clone, Copy, Debug)]
pub enum Phase {
    CheckingSupport,
    Translating,
    Finished,
}

/// A translation in progress, with its resolved languages.
pub struct TranslationJob {
    pub phase: Phase,
    pub text: String,
    pub source: String,
    pub target: String,
}

impl TranslationJob {
    pub open spec fn key(&self) -> (Phase, Seq<char>, Seq<char>, Seq<char>) {
        (self.phase, self.text@, self.source@, self.target@)
    }
}

/// A call that the job asks of the engine.
pub enum EngineCall {
    IsSupported { from: String, to: String },
    Translate { from: String, to: String, text: String },
}

/// What the engine answered.
pub enum EngineReply {
    Supported(bool),
    Translated(String),
    Failed(String),
}

/// What to do after a step: call the engine, or hand the outcome back.
pub enum JobAction {
    Call(EngineCall),
    Finish(Result<CanonicalResult, AppError>),
}

/// An action as plain values.
pub enum ActionKey {
    IsSupported(Seq<char>, Seq<char>),
    Translate(Seq<char>, Seq<char>, Seq<char>),
    Done(Result<(Seq<char>, Seq<char>, Seq<char>), (int, Seq<char>, Seq<char>)>),
}

impl JobAction {
    pub open spec fn key(&self) -> ActionKey {
        match self {
            JobAction::Call(EngineCall::IsSupported { from, to }) => ActionKey::IsSupported(
                from@,
                to@,
            ),
            JobAction::Call(EngineCall::Translate { from, to, text }) => ActionKey::Translate(
                from@,
                to@,
                text@,
            ),
            JobAction::Finish(Ok(r)) => ActionKey::Done(Ok(r.key())),
            JobAction::Finish(Err(e)) => ActionKey::Done(Err(e.key())),
        }
    }
}

impl EngineReply {
    pub open spec fn key(&self) -> (int, bool, Seq<char>) {
        match self {
            EngineReply::Supported(b) => (0, *b, Seq::empty()),
            EngineReply::Translated(t) => (1, false, t@),
            EngineReply::Failed(m) => (2, false, m@),
        }
    }
}

/// What resolving the source language of `req` under `models` gives.
pub open spec fn source_resolved_as(
    req: CanonicalRequest,
    models: Seq<LanguagePair>,
    r: Result<String, AppError>,
) -> bool {
    source_as(code_view(req.from), req.text@, models, r)
}

/// What starting a job for `req` under `models` gives: where both languages
/// resolve, a job that asks whether the engine supports the pair; else the
/// first resolution error, with no engine call.
pub open spec fn begun_as(
    req: CanonicalRequest,
    models: Seq<LanguagePair>,
    job: TranslationJob,
    action: JobAction,
) -> bool {
    if exists|e: AppError| source_resolved_as(req, models, Err(e)) {
        action matches JobAction::Finish(Err(e)) && source_resolved_as(req, models, Err(e))
            && job.phase == Phase::Finished
    } else if exists|e: AppError| parsed_as(req.to@, Err(e)) {
        action matches JobAction::Finish(Err(e)) && parsed_as(req.to@, Err(e)) && job.phase
            == Phase::Finished
    } else {
        &&& job.phase == Phase::CheckingSupport
        &&& job.text@ == req.text@
        &&& source_resolved_as(req, models, Ok(job.source))
        &&& parsed_as(req.to@, Ok(job.target))
        &&& action.key() == ActionKey::IsSupported(job.source@, job.target@)
    }
}

/// Starts a job for `req` against the pairs of the loaded `models`.
pub fn begin_translation(req: &CanonicalRequest, models: &Vec<LanguagePair>) -> (r: (
    TranslationJob,
    JobAction,
))
    ensures
        begun_as(*req, models@, r.0, r.1),
{
    let src = resolve_source(&req.from, req.text.as_str(), models);
    let source = match src {
        Ok(s) => s,
        Err(e) => {
            assert(source_resolved_as(*req, models@, Err(e)));
            return (
                TranslationJob {
                    phase: Phase::Finished,
                    text: String::new(),
                    source: String::new(),
                    target: String::new(),
                },
                JobAction::Finish(Err(e)),
            );
        },
    };
    let tgt = resolve_target(req.to.as_str());
    let target = match tgt {
        Ok(t) => t,
        Err(e) => {
            proof {
                assert(source_resolved_as(*req, models@, Ok(source)));
                assert forall|e2: AppError| !source_resolved_as(*req, models@, Err(e2)) by {
                    if source_resolved_as(*req, models@, Err(e2)) {
                        lemma_source_resolution_unique(*req, models@, Ok(source), Err(e2));
                    }
                }
                assert(parsed_as(req.to@, Err(e)));
            }
            return (
                TranslationJob {
                    phase: Phase::Finished,
                    text: String::new(),
                    source: String::new(),
                    target: String::new(),
                },
                JobAction::Finish(Err(e)),
            );
        },
    };
    proof {
        assert(source_resolved_as(*req, models@, Ok(source)));
        assert forall|e2: AppError| !source_resolved_as(*req, models@, Err(e2)) by {
            if source_resolved_as(*req, models@, Err(e2)) {
                lemma_source_resolution_unique(*req, models@, Ok(source), Err(e2));
            }
        }
        assert forall|e2: AppError| !parsed_as(req.to@, Err(e2)) by {}
    }
    let action = JobAction::Call(
        EngineCall::IsSupported { from: source.clone(), to: target.clone() },
    );
    (TranslationJob { phase: Phase::CheckingSupport, text: req.text.clone(), source, target }, action)
}

/// Two optional language codes that hold the same characters.
pub open spec fn same_code(a: Option<String>, b: Option<String>) -> bool {
    match (a, b) {
        (None, None) => true,
        (Some(x), Some(y)) => x@ == y@,
        _ => false,
    }
}

/// Two requests with the same text and languages.
pub open spec fn same_request(a: CanonicalRequest, b: CanonicalRequest) -> bool {
    a.text@ == b.text@ && a.to@ == b.to@ && same_code(a.from, b.from)
}

proof fn lemma_resolution_by_value(
    req1: CanonicalRequest,
    req2: CanonicalRequest,
    models: Seq<LanguagePair>,
    r: Result<String, AppError>,
)
    requires
        same_request(req1, req2),
    ensures
        source_resolved_as(req1, models, r) == source_resolved_as(req2, models, r),
{
}

/// Source resolution has one outcome: an `Ok` excludes every error, and
/// two outcomes agree as plain values.
pub proof fn lemma_source_resolution_unique(
    req: CanonicalRequest,
    models: Seq<LanguagePair>,
    r1: Result<String, AppError>,
    r2: Result<String, AppError>,
)
    requires
        source_resolved_as(req, models, r1),
        source_resolved_as(req, models, r2),
    ensures
        r1 is Ok <==> r2 is Ok,
        r1 is Ok ==> r1->Ok_0@ == r2->Ok_0@,
        r1 is Err ==> r1->Err_0.key() == r2->Err_0.key(),
{
    lemma_source_unique(code_view(req.from), req.text@, models, r1, r2);
}

/// The text of a reply that does not fit the phase of the job.
pub open spec fn unexpected_reply_text() -> Seq<char> {
    "unexpected reply from the translation engine"@
}

/// What one step of a job gives. The text and the languages never change.
/// A confirmed pair leads to the translation call; a denied pair finishes
/// with the unsupported-pair error naming both codes; a translation
/// finishes with the result; an engine failure, or a reply that does not
/// fit the phase, finishes with an engine error.
pub open spec fn advanced_as(
    before: TranslationJob,
    reply: EngineReply,
    after: TranslationJob,
    action: JobAction,
) -> bool {
    &&& after.text@ == before.text@
    &&& after.source@ == before.source@
    &&& after.target@ == before.target@
    &&& match (before.phase, reply) {
        (Phase::CheckingSupport, EngineReply::Supported(true)) => after.phase == Phase::Translating
            && action.key() == ActionKey::Translate(before.source@, before.target@, before.text@),
        (Phase::CheckingSupport, EngineReply::Supported(false)) => after.phase == Phase::Finished
            && action.key() == ActionKey::Done(Err((4, before.source@, before.target@))),
        (Phase::Translating, EngineReply::Translated(t)) => after.phase == Phase::Finished
            && action.key() == ActionKey::Done(Ok((t@, before.source@, before.target@))),
        (_, EngineReply::Failed(m)) => after.phase == Phase::Finished && action.key()
            == ActionKey::Done(Err((5, m@, Seq::empty()))),
        _ => after.phase == Phase::Finished && action.key() == ActionKey::Done(
            Err((5, unexpected_reply_text(), Seq::empty())),
        ),
    }
}

impl TranslationJob {
    /// Takes the engine's reply to the last call and moves the job on.
    pub fn advance(&mut self, reply: EngineReply) -> (r: JobAction)
        ensures
            advanced_as(*old(self), reply, *final(self), r),
    {
        let phase = self.phase;
        match reply {
            EngineReply::Supported(ok) => {
                if phase == Phase::CheckingSupport {
                    if ok {
                        self.phase = Phase::Translating;
                        JobAction::Call(
                            EngineCall::Translate {
                                from: self.source.clone(),
                                to: self.target.clone(),
                                text: self.text.clone(),
                            },
                        )
                    } else {
                        self.phase = Phase::Finished;
                        JobAction::Finish(
                            Err(
                                AppError::UnsupportedPair {
                                    from: self.source.clone(),
                                    to: self.target.clone(),
                                },
                            ),
                        )
                    }
                } else {
                    self.finish_unexpected()
                }
            },
            EngineReply::Translated(t) => {
                if phase == Phase::Translating {
                    self.phase = Phase::Finished;
                    JobAction::Finish(
                        Ok(
                            CanonicalResult {
                                text: t,
                                from: self.source.clone(),
                                to: self.target.clone(),
                            },
                        ),
                    )
                } else {
                    self.finish_unexpected()
                }
            },
            EngineReply::Failed(m) => {
                self.phase = Phase::Finished;
                JobAction::Finish(Err(AppError::EngineFailure { message: m }))
            },
        }
    }

    fn finish_unexpected(&mut self) -> (r: JobAction)
        ensures
            final(self).phase == Phase::Finished,
            final(self).text == old(self).text,
            final(self).source == old(self).source,
            final(self).target == old(self).target,
            r.key() == ActionKey::Done(Err((5, unexpected_reply_text(), Seq::<char>::empty()))),
    {
        self.phase = Phase::Finished;
        JobAction::Finish(
            Err(
                AppError::EngineFailure {
                    message: String::from_str("unexpected reply from the translation engine"),
                },
            ),
        )
    }
}

/// A pair that the engine does not support ends the job with the
/// unsupported-pair error naming both codes, and no step after it asks the
/// engine for anything, least of all a translation.
pub proof fn lemma_unsupported_never_translates(
    before: TranslationJob,
    after: TranslationJob,
    action: JobAction,
)
    requires
        before.phase == Phase::CheckingSupport,
        advanced_as(before, EngineReply::Supported(false), after, action),
    ensures
        action matches JobAction::Finish(Err(AppError::UnsupportedPair { from, to })) && from@
            == before.source@ && to@ == before.target@,
        forall|reply: EngineReply, next: TranslationJob, a: JobAction|
            #[trigger] advanced_as(after, reply, next, a) ==> a.key() is Done && next.phase
                == Phase::Finished,
{
    assert forall|reply: EngineReply, next: TranslationJob, a: JobAction|
        #[trigger] advanced_as(after, reply, next, a) implies a.key() is Done && next.phase
        == Phase::Finished by {
    }
}

/// Repeating a request against the same models starts the same job and asks
/// for the same first call.
pub proof fn lemma_begin_repeatable(
    req1: CanonicalRequest,
    req2: CanonicalRequest,
    models: Seq<LanguagePair>,
    job1: TranslationJob,
    action1: JobAction,
    job2: TranslationJob,
    action2: JobAction,
)
    requires
        same_request(req1, req2),
        begun_as(req1, models, job1, action1),
        begun_as(req2, models, job2, action2),
    ensures
        action1.key() == action2.key(),
        job1.phase == job2.phase,
        job1.phase != Phase::Finished ==> job1.key() == job2.key(),
{
    assert forall|r: Result<String, AppError>|
        source_resolved_as(req1, models, r) == source_resolved_as(req2, models, r) by {
        lemma_resolution_by_value(req1, req2, models, r);
    }
    if exists|e: AppError| source_resolved_as(req1, models, Err(e)) {
        let e1 = action1->Finish_0->Err_0;
        let e2 = action2->Finish_0->Err_0;
        lemma_source_resolution_unique(req1, models, Err(e1), Err(e2));
    } else if exists|e: AppError| parsed_as(req1.to@, Err(e)) {
    } else {
        lemma_source_resolution_unique(req1, models, Ok(job1.source), Ok(job2.source));
    }
}

/// A job steps the same way on the same reply: an engine that answers the
/// same call the same way makes a repeated request end the same way.
pub proof fn lemma_advance_repeatable(
    before1: TranslationJob,
    before2: TranslationJob,
    reply1: EngineReply,
    reply2: EngineReply,
    after1: TranslationJob,
    action1: JobAction,
    after2: TranslationJob,
    action2: JobAction,
)
    requires
        before1.key() == before2.key(),
        reply1.key() == reply2.key(),
        advanced_as(before1, reply1, after1, action1),
        advanced_as(before2, reply2, after2, action2),
    ensures
        after1.key() == after2.key(),
        action1.key() == action2.key(),
{
}

} // verus!
