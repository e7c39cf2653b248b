//! The clone-category command as a checked pipeline. The platform imposes a
//! short deadline on the first acknowledgment, so the command runs as a
//! strictly ordered sequence — defer, post a placeholder, create the
//! category, edit the placeholder into a confirmation — and any step's
//! failure aborts the rest and routes the error to the translator.
use vstd::prelude::*;
use crate::category::{
    build_confirmation, build_create_request, confirmation_text, placeholder_text, request_matches,
    CategorySnapshot, CreateCategoryRequest,
};
use crate::translate::{translate_model, ErrorEvent, OutcomeView};
use vstd::string::StringExecFns;

verus! {

/// Where a clone invocation stands in its pipeline.
#[derive(Clone, Copy, PartialEq, Eq, Debug)]
pub enum ClonePhase {
    Deferring,
    Posting,
    Creating,
    Editing,
    Complete,
    Aborted,
}

/// The one network call the caller owes the flow next.
#[derive(PartialEq, Eq, Debug)]
pub enum CloneAction {
    DeferEphemeral,
    PostPlaceholder { text: String },
    CreateCategory { request: CreateCategoryRequest },
    EditConfirmation { text: String },
}

/// How the last performed action ended.
#[derive(PartialEq, Eq, Debug)]
pub enum StepOutcome {
    Succeeded,
    Failed { error: String },
}

/// One clone invocation: the snapshot taken at invocation time, never
/// mutated, and the phase the pipeline has reached.
#[derive(Debug)]
pub struct CloneFlow {
    pub phase: ClonePhase,
    pub source: CategorySnapshot,
}

/// The phase reached after one step: the pipeline order on success, the
/// aborted phase on failure.
pub open spec fn step_phase(p: ClonePhase, ok: bool) -> ClonePhase {
    if ok {
        match p {
            ClonePhase::Deferring => ClonePhase::Posting,
            ClonePhase::Posting => ClonePhase::Creating,
            ClonePhase::Creating => ClonePhase::Editing,
            ClonePhase::Editing => ClonePhase::Complete,
            done => done,
        }
    } else {
        ClonePhase::Aborted
    }
}

/// Whether the flow has finished, with or without a created category; a
/// finished flow owes no further action.
pub open spec fn flow_done(p: ClonePhase) -> bool {
    p == ClonePhase::Complete || p == ClonePhase::Aborted
}

/// What `pending_action` owes in each phase: the deferral, the placeholder,
/// a create request reproducing the snapshot, the confirmation embedding the
/// snapshot's name — and nothing once the flow is finished.
pub open spec fn action_matches(flow: CloneFlow, r: Option<CloneAction>) -> bool {
    match flow.phase {
        ClonePhase::Deferring => r == Some(CloneAction::DeferEphemeral),
        ClonePhase::Posting => r matches Some(CloneAction::PostPlaceholder { text }) && text@
            == placeholder_text(),
        ClonePhase::Creating => r matches Some(CloneAction::CreateCategory { request })
            && request_matches(flow.source, request),
        ClonePhase::Editing => r matches Some(CloneAction::EditConfirmation { text }) && text@
            == confirmation_text(flow.source.name@),
        ClonePhase::Complete => r is None,
        ClonePhase::Aborted => r is None,
    }
}

/// Starts a clone invocation. Outside a server there is nothing to clone
/// from: the invocation is rejected with the server-only error before any
/// flow — and so before any create request — exists.
pub fn clone_category(in_guild: bool, source: CategorySnapshot) -> (r: Result<
    CloneFlow,
    ErrorEvent,
>)
    ensures
        in_guild ==> (r matches Ok(flow) && flow.phase == ClonePhase::Deferring && flow.source
            == source),
        !in_guild ==> r == Err::<CloneFlow, ErrorEvent>(ErrorEvent::GuildOnly),
{
    if !in_guild {
        Err(ErrorEvent::GuildOnly)
    } else {
        Ok(CloneFlow { phase: ClonePhase::Deferring, source })
    }
}

impl CloneFlow {
    /// The next network call this flow owes, `None` once it has finished.
    pub fn pending_action(&self) -> (r: Option<CloneAction>)
        ensures
            action_matches(*self, r),
            r is Some <==> !flow_done(self.phase),
    {
        match self.phase {
            ClonePhase::Deferring => Some(CloneAction::DeferEphemeral),
            ClonePhase::Posting => {
                let text = String::from_str("カテゴリを複製中...");
                Some(CloneAction::PostPlaceholder { text })
            },
            ClonePhase::Creating => {
                let request = build_create_request(&self.source);
                Some(CloneAction::CreateCategory { request })
            },
            ClonePhase::Editing => {
                let text = build_confirmation(self.source.name.as_str());
                Some(CloneAction::EditConfirmation { text })
            },
            ClonePhase::Complete => None,
            ClonePhase::Aborted => None,
        }
    }

    /// Records how the pending action ended. Success moves the pipeline one
    /// phase forward; failure aborts it and hands back the error event that
    /// the translator turns into the public failure notice.
    pub fn advance(&mut self, step: StepOutcome) -> (r: Option<ErrorEvent>)
        requires
            !flow_done(old(self).phase),
        ensures
            final(self).source == old(self).source,
            (match step {
                StepOutcome::Succeeded => final(self).phase == step_phase(old(self).phase, true)
                    && r is None,
                StepOutcome::Failed { error } => final(self).phase == ClonePhase::Aborted && r
                    == Some(ErrorEvent::Command { error }),
            }),
    {
        match step {
            StepOutcome::Succeeded => {
                self.phase = match self.phase {
                    ClonePhase::Deferring => ClonePhase::Posting,
                    ClonePhase::Posting => ClonePhase::Creating,
                    ClonePhase::Creating => ClonePhase::Editing,
                    ClonePhase::Editing => ClonePhase::Complete,
                    done => done,
                };
                None
            },
            StepOutcome::Failed { error } => {
                self.phase = ClonePhase::Aborted;
                Some(ErrorEvent::Command { error })
            },
        }
    }
}

/// Law: an invocation without a server context is rejected before any create
/// request exists, and the rejection translates to the ephemeral server-only
/// reply.
pub proof fn lemma_guild_rejection()
    ensures
        (translate_model(ErrorEvent::GuildOnly) == OutcomeView::Reply {
            message: "サーバーでのみ実行可能なコマンドです。"@,
            ephemeral: true,
        }),
{
}

/// Law: when the creation step fails, the flow aborts — a finished flow owes
/// no action, so no confirmation edit can follow — and the routed error
/// translates to the public generic failure notice, so the placeholder is
/// never left without a notice.
pub proof fn lemma_create_failure_no_edit(error: String)
    ensures
        step_phase(ClonePhase::Creating, false) == ClonePhase::Aborted,
        forall|flow: CloneFlow, r: Option<CloneAction>|
            flow.phase == ClonePhase::Aborted && #[trigger] action_matches(flow, r) ==> r is None,
        (translate_model(ErrorEvent::Command { error }) == OutcomeView::Reply {
            message: "コマンドの実行中にエラーが発生しました。"@,
            ephemeral: false,
        }),
{
}

/// Law: cloning is not idempotent. A successful run passes the creating
/// phase exactly once — the pipeline order visits each phase once — and a
/// second invocation on an equal snapshot owes its own create request, equal
/// to the first, rather than reusing the category the first one made.
pub proof fn lemma_second_invocation_creates_again(
    a: CloneFlow,
    b: CloneFlow,
    ra: CreateCategoryRequest,
    rb: CreateCategoryRequest,
)
    requires
        a.phase == ClonePhase::Creating,
        b.phase == ClonePhase::Creating,
        a.source.name@ == b.source.name@,
        a.source.overwrites@ == b.source.overwrites@,
        a.source.position == b.source.position,
        action_matches(a, Some(CloneAction::CreateCategory { request: ra })),
        action_matches(b, Some(CloneAction::CreateCategory { request: rb })),
    ensures
        step_phase(ClonePhase::Deferring, true) == ClonePhase::Posting,
        step_phase(ClonePhase::Posting, true) == ClonePhase::Creating,
        step_phase(ClonePhase::Creating, true) == ClonePhase::Editing,
        step_phase(ClonePhase::Editing, true) == ClonePhase::Complete,
        ra.name@ == rb.name@,
        ra.overwrites@ == rb.overwrites@,
        ra.position == rb.position,
{
}

} // verus!
