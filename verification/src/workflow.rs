//! One run of a template: from the hotkey press to the entry in the history.
//!
//! A run needs the template store, the clipboard, the remote service and the
//! keyboard. The host does that work; the run decides. It is a state machine:
//! `start` gives the first action, the host performs each action and hands
//! its outcome to `step` as an event, and `step` gives the next action, until
//! the action is `Finish`.
//!
//! The order is fixed: look the template up, read the clipboard, send the
//! prompt, put the result in the clipboard, press the paste keys, record the
//! run. A failure ends the run at once, with one exception: once the result
//! is in the clipboard, a failed paste keystroke still records the run, and
//! the run ends with an error that tells the caller to paste by hand.

use crate::anthropic::{
    api_message, format_prompt, has_placeholder, missing_placeholder, substituted, ApiError,
};
use crate::clipboard::{accept_clipboard, accepted, clipboard_message, ClipboardError};
use crate::history::{added, HistoryStore};
use crate::models::{HistoryEntry, Template};
use crate::paste::{paste_message, PasteError};
use crate::text::{append_str, from_chars};
use vstd::prelude::*;

verus! {

/// Why a run failed.
#[derive(Debug)]
pub enum WorkflowError {
    /// The clipboard could not be read, or held no usable text.
    ClipboardError(ClipboardError),
    /// The template was not usable, or the remote call failed.
    ApiError(ApiError),
    /// The result could not be put in the clipboard, or not be pasted.
    PasteError(PasteError),
    /// There is no template of this identifier.
    TemplateNotFound(String),
    /// The remote service answered with an empty text.
    TransformedEmpty,
}

/// The causes of failure that a caller tells apart.
#[derive(Debug, Clone, Copy, PartialEq, Eq, Structural)]
pub enum WorkflowErrorKind {
    TemplateNotFound,
    ClipboardEmpty,
    ClipboardTooLarge,
    ClipboardUnavailable,
    MissingPlaceholder,
    RemoteError,
    TransformedEmpty,
    PasteDegraded,
}

/// The cause of a failure.
pub open spec fn kind_of(e: WorkflowError) -> WorkflowErrorKind {
    match e {
        WorkflowError::TemplateNotFound(_) => WorkflowErrorKind::TemplateNotFound,
        WorkflowError::ClipboardError(ClipboardError::Empty) => WorkflowErrorKind::ClipboardEmpty,
        WorkflowError::ClipboardError(ClipboardError::NonTextContent) =>
            WorkflowErrorKind::ClipboardEmpty,
        WorkflowError::ClipboardError(ClipboardError::TooLarge(_)) =>
            WorkflowErrorKind::ClipboardTooLarge,
        WorkflowError::ClipboardError(ClipboardError::AccessError(_)) =>
            WorkflowErrorKind::ClipboardUnavailable,
        WorkflowError::ApiError(ApiError::TemplateError(_)) => WorkflowErrorKind::MissingPlaceholder,
        WorkflowError::ApiError(_) => WorkflowErrorKind::RemoteError,
        WorkflowError::TransformedEmpty => WorkflowErrorKind::TransformedEmpty,
        WorkflowError::PasteError(PasteError::ClipboardError(_)) =>
            WorkflowErrorKind::ClipboardUnavailable,
        WorkflowError::PasteError(_) => WorkflowErrorKind::PasteDegraded,
    }
}

/// The words for a failure.
pub open spec fn workflow_message(e: WorkflowError) -> Seq<char> {
    match e {
        WorkflowError::ClipboardError(c) => "Clipboard error: "@ + clipboard_message(c),
        WorkflowError::ApiError(a) => "API error: "@ + api_message(a),
        WorkflowError::PasteError(p) => "Paste error: "@ + paste_message(p),
        WorkflowError::TemplateNotFound(id) => "Template '"@ + id@ + "' not found"@,
        WorkflowError::TransformedEmpty => "The response was empty"@,
    }
}

impl WorkflowError {
    /// The cause of this failure.
    pub fn kind(&self) -> (k: WorkflowErrorKind)
        ensures
            k == kind_of(*self),
    {
        match self {
            WorkflowError::TemplateNotFound(_) => WorkflowErrorKind::TemplateNotFound,
            WorkflowError::ClipboardError(c) => match c {
                ClipboardError::Empty => WorkflowErrorKind::ClipboardEmpty,
                ClipboardError::NonTextContent => WorkflowErrorKind::ClipboardEmpty,
                ClipboardError::TooLarge(_) => WorkflowErrorKind::ClipboardTooLarge,
                ClipboardError::AccessError(_) => WorkflowErrorKind::ClipboardUnavailable,
            },
            WorkflowError::ApiError(a) => match a {
                ApiError::TemplateError(_) => WorkflowErrorKind::MissingPlaceholder,
                _ => WorkflowErrorKind::RemoteError,
            },
            WorkflowError::TransformedEmpty => WorkflowErrorKind::TransformedEmpty,
            WorkflowError::PasteError(p) => match p {
                PasteError::ClipboardError(_) => WorkflowErrorKind::ClipboardUnavailable,
                _ => WorkflowErrorKind::PasteDegraded,
            },
        }
    }

    /// Whether the run gave a usable result all the same: the result is in
    /// the clipboard and in the history, only the paste keystroke failed.
    pub fn is_degraded(&self) -> (b: bool)
        ensures
            b == (kind_of(*self) == WorkflowErrorKind::PasteDegraded),
    {
        self.kind() == WorkflowErrorKind::PasteDegraded
    }

    /// The words for this failure.
    pub fn message(&self) -> (r: String)
        ensures
            r@ == workflow_message(*self),
    {
        let mut out: Vec<char> = Vec::new();
        match self {
            WorkflowError::ClipboardError(c) => {
                append_str(&mut out, "Clipboard error: ");
                append_str(&mut out, c.message().as_str());
            },
            WorkflowError::ApiError(a) => {
                append_str(&mut out, "API error: ");
                append_str(&mut out, a.message().as_str());
            },
            WorkflowError::PasteError(p) => {
                append_str(&mut out, "Paste error: ");
                append_str(&mut out, p.message().as_str());
            },
            WorkflowError::TemplateNotFound(id) => {
                append_str(&mut out, "Template '");
                append_str(&mut out, id.as_str());
                append_str(&mut out, "' not found");
            },
            WorkflowError::TransformedEmpty => {
                append_str(&mut out, "The response was empty");
            },
        }
        assert(out@ =~= workflow_message(*self));
        from_chars(&out)
    }
}

// ---------------------------------------------------------------------------
// The state machine
// ---------------------------------------------------------------------------

/// Where a run stands: what it waits for, and what it has so far.
#[derive(Debug)]
pub enum WorkflowState {
    /// Waiting for the template.
    Resolving { template_id: String },
    /// Waiting for the clipboard text.
    Reading { template_name: String, prompt: String },
    /// Waiting for the remote reply.
    Transforming { template_name: String, source: String },
    /// Waiting for the result to be put in the clipboard.
    Writing { template_name: String, source: String, result: String },
    /// Waiting for the paste keystroke.
    Pasting { template_name: String, source: String, result: String },
    /// The run is over.
    Finished,
}

/// What the host reports back.
#[derive(Debug)]
pub enum WorkflowEvent {
    /// The template of the identifier asked for, if there is one.
    TemplateLookedUp(Option<Template>),
    /// The clipboard text, or the host's words about the failure.
    ClipboardRead(Result<String, String>),
    /// The remote reply.
    Transformed(Result<String, ApiError>),
    /// Whether the result is in the clipboard, with the host's words if not.
    ClipboardWritten(Result<(), String>),
    /// Whether the paste keystroke was sent, with the host's words if not.
    PasteSynthesized(Result<(), String>),
}

/// What the host is to do next.
#[derive(Debug)]
pub enum WorkflowAction {
    /// Look up the template of this identifier.
    LookUpTemplate(String),
    /// Read the clipboard.
    ReadClipboard,
    /// Send this prompt to the remote service.
    Transform(String),
    /// Put this text in the clipboard.
    WriteClipboard(String),
    /// Send the paste keystroke.
    SynthesizePaste,
    /// The run is over, with this result.
    Finish(Result<(), WorkflowError>),
    /// The event did not answer what the run waits for: nothing to do.
    Wait,
}

/// The run ends with this failure, and the history stays as it is.
pub open spec fn fails_with(
    error: WorkflowError,
    history: Seq<HistoryEntry>,
    next: WorkflowState,
    action: WorkflowAction,
    after: Seq<HistoryEntry>,
) -> bool {
    &&& next == WorkflowState::Finished
    &&& action == WorkflowAction::Finish(Err(error))
    &&& after == history
}

/// What the end of the paste step gives back: success, or the failed
/// keystroke as an error.
pub open spec fn paste_result(outcome: Result<(), String>) -> Result<(), WorkflowError> {
    match outcome {
        Ok(_) => Ok(()),
        Err(detail) => Err(WorkflowError::PasteError(PasteError::SimulationError(detail))),
    }
}

/// One step of a run: in state `state` with history `history`, the event
/// `event` leads to state `next`, action `action` and history `after`.
pub open spec fn transition(
    state: WorkflowState,
    event: WorkflowEvent,
    history: Seq<HistoryEntry>,
    next: WorkflowState,
    action: WorkflowAction,
    after: Seq<HistoryEntry>,
) -> bool {
    match (state, event) {
        (WorkflowState::Resolving { template_id }, WorkflowEvent::TemplateLookedUp(found)) => {
            match found {
                Some(t) => {
                    &&& next == (WorkflowState::Reading { template_name: t.name, prompt: t.prompt })
                    &&& action == WorkflowAction::ReadClipboard
                    &&& after == history
                },
                None => fails_with(
                    WorkflowError::TemplateNotFound(template_id),
                    history,
                    next,
                    action,
                    after,
                ),
            }
        },
        (WorkflowState::Reading { template_name, prompt }, WorkflowEvent::ClipboardRead(read)) => {
            match accepted(read) {
                Err(e) => fails_with(
                    WorkflowError::ClipboardError(e),
                    history,
                    next,
                    action,
                    after,
                ),
                Ok(text) => if has_placeholder(prompt@) {
                    &&& next == (WorkflowState::Transforming { template_name, source: text })
                    &&& action matches WorkflowAction::Transform(request)
                    &&& request@ == substituted(prompt@, text@)
                    &&& after == history
                } else {
                    &&& next == WorkflowState::Finished
                    &&& action matches WorkflowAction::Finish(
                        Err(WorkflowError::ApiError(ApiError::TemplateError(m))),
                    )
                    &&& m@ == missing_placeholder()
                    &&& after == history
                },
            }
        },
        (
            WorkflowState::Transforming { template_name, source },
            WorkflowEvent::Transformed(reply),
        ) => {
            match reply {
                Err(e) => fails_with(WorkflowError::ApiError(e), history, next, action, after),
                Ok(result) => if result@.len() == 0 {
                    fails_with(WorkflowError::TransformedEmpty, history, next, action, after)
                } else {
                    &&& next == (WorkflowState::Writing { template_name, source, result })
                    &&& action == WorkflowAction::WriteClipboard(result)
                    &&& after == history
                },
            }
        },
        (
            WorkflowState::Writing { template_name, source, result },
            WorkflowEvent::ClipboardWritten(outcome),
        ) => {
            match outcome {
                Ok(_) => {
                    &&& next == (WorkflowState::Pasting { template_name, source, result })
                    &&& action == WorkflowAction::SynthesizePaste
                    &&& after == history
                },
                Err(detail) => fails_with(
                    WorkflowError::PasteError(
                        PasteError::ClipboardError(ClipboardError::AccessError(detail)),
                    ),
                    history,
                    next,
                    action,
                    after,
                ),
            }
        },
        (
            WorkflowState::Pasting { template_name, source, result },
            WorkflowEvent::PasteSynthesized(outcome),
        ) => {
            &&& next == WorkflowState::Finished
            &&& action == WorkflowAction::Finish(paste_result(outcome))
            &&& after.len() > 0
            &&& after[0].records(template_name@, source@, result@)
            &&& after == added(history, after[0])
        },
        _ => {
            &&& next == state
            &&& action == WorkflowAction::Wait
            &&& after == history
        },
    }
}

/// Begins a run of the template with the identifier given.
pub fn start(template_id: String) -> (r: (WorkflowState, WorkflowAction))
    ensures
        r.0 == (WorkflowState::Resolving { template_id }),
        r.1 == WorkflowAction::LookUpTemplate(template_id),
{
    let asked = template_id.clone();
    (WorkflowState::Resolving { template_id }, WorkflowAction::LookUpTemplate(asked))
}

/// Takes a run one step further: from the state and the host's report to the
/// next state and the next action. The last step adds the run to the history.
pub fn step(state: WorkflowState, event: WorkflowEvent, history: &mut HistoryStore) -> (r: (
    WorkflowState,
    WorkflowAction,
))
    ensures
        transition(state, event, old(history)@, r.0, r.1, final(history)@),
{
    match (state, event) {
        (WorkflowState::Resolving { template_id }, WorkflowEvent::TemplateLookedUp(found)) => {
            match found {
                Some(t) => (
                    WorkflowState::Reading { template_name: t.name, prompt: t.prompt },
                    WorkflowAction::ReadClipboard,
                ),
                None => (
                    WorkflowState::Finished,
                    WorkflowAction::Finish(Err(WorkflowError::TemplateNotFound(template_id))),
                ),
            }
        },
        (WorkflowState::Reading { template_name, prompt }, WorkflowEvent::ClipboardRead(read)) => {
            match accept_clipboard(read) {
                Err(e) => (
                    WorkflowState::Finished,
                    WorkflowAction::Finish(Err(WorkflowError::ClipboardError(e))),
                ),
                Ok(text) => match format_prompt(prompt.as_str(), text.as_str()) {
                    Ok(request) => (
                        WorkflowState::Transforming { template_name, source: text },
                        WorkflowAction::Transform(request),
                    ),
                    Err(e) => (
                        WorkflowState::Finished,
                        WorkflowAction::Finish(Err(WorkflowError::ApiError(e))),
                    ),
                },
            }
        },
        (
            WorkflowState::Transforming { template_name, source },
            WorkflowEvent::Transformed(reply),
        ) => {
            match reply {
                Err(e) => (
                    WorkflowState::Finished,
                    WorkflowAction::Finish(Err(WorkflowError::ApiError(e))),
                ),
                Ok(result) => {
                    if result.as_str().is_empty() {
                        (
                            WorkflowState::Finished,
                            WorkflowAction::Finish(Err(WorkflowError::TransformedEmpty)),
                        )
                    } else {
                        let text = result.clone();
                        (
                            WorkflowState::Writing { template_name, source, result },
                            WorkflowAction::WriteClipboard(text),
                        )
                    }
                },
            }
        },
        (
            WorkflowState::Writing { template_name, source, result },
            WorkflowEvent::ClipboardWritten(outcome),
        ) => {
            match outcome {
                Ok(_) => (
                    WorkflowState::Pasting { template_name, source, result },
                    WorkflowAction::SynthesizePaste,
                ),
                Err(detail) => (
                    WorkflowState::Finished,
                    WorkflowAction::Finish(
                        Err(
                            WorkflowError::PasteError(
                                PasteError::ClipboardError(ClipboardError::AccessError(detail)),
                            ),
                        ),
                    ),
                ),
            }
        },
        (
            WorkflowState::Pasting { template_name, source, result },
            WorkflowEvent::PasteSynthesized(outcome),
        ) => {
            history.add_entry(HistoryEntry::new(template_name, source, result));
            let ended = match outcome {
                Ok(_) => Ok(()),
                Err(detail) => Err(
                    WorkflowError::PasteError(PasteError::SimulationError(detail)),
                ),
            };
            (WorkflowState::Finished, WorkflowAction::Finish(ended))
        },
        (state, _) => (state, WorkflowAction::Wait),
    }
}

// ---------------------------------------------------------------------------
// Laws
// ---------------------------------------------------------------------------

/// A prompt goes to the remote service only for a template that holds the
/// placeholder, after the clipboard gave usable text; it is the template with
/// that text in the place of the placeholder.
pub proof fn lemma_request_needs_placeholder(
    state: WorkflowState,
    event: WorkflowEvent,
    history: Seq<HistoryEntry>,
    next: WorkflowState,
    action: WorkflowAction,
    after: Seq<HistoryEntry>,
)
    requires
        transition(state, event, history, next, action, after),
        action is Transform,
    ensures
        ({
            &&& state matches WorkflowState::Reading { template_name, prompt }
            &&& event matches WorkflowEvent::ClipboardRead(read)
            &&& accepted(read) matches Ok(text)
            &&& has_placeholder(prompt@)
            &&& action->Transform_0@ == substituted(prompt@, text@)
            &&& next == (WorkflowState::Transforming { template_name, source: text })
        }),
{
}

/// A template without the placeholder never reaches the remote service:
/// whatever the clipboard gives, no prompt is sent, and where the clipboard
/// gave usable text the run ends with the placeholder reported missing.
pub proof fn lemma_missing_placeholder_ends_run(
    template_name: String,
    prompt: String,
    read: Result<String, String>,
    history: Seq<HistoryEntry>,
    next: WorkflowState,
    action: WorkflowAction,
    after: Seq<HistoryEntry>,
)
    requires
        !has_placeholder(prompt@),
        transition(
            WorkflowState::Reading { template_name, prompt },
            WorkflowEvent::ClipboardRead(read),
            history,
            next,
            action,
            after,
        ),
    ensures
        next is Finished,
        after == history,
        ({
            &&& action matches WorkflowAction::Finish(Err(e))
            &&& accepted(read) is Ok ==> kind_of(e) == WorkflowErrorKind::MissingPlaceholder
        }),
{
}

/// The history changes at one place only: the step that ends the paste adds
/// the run as the newest entry. Every other step leaves the history alone.
pub proof fn lemma_history_changes_at_the_end(
    state: WorkflowState,
    event: WorkflowEvent,
    history: Seq<HistoryEntry>,
    next: WorkflowState,
    action: WorkflowAction,
    after: Seq<HistoryEntry>,
)
    requires
        transition(state, event, history, next, action, after),
    ensures
        (state is Pasting && event is PasteSynthesized) ==> after == added(history, after[0]),
        !(state is Pasting && event is PasteSynthesized) ==> after == history,
{
}

/// A paste keystroke that fails after the result was put in the clipboard
/// does not lose the run: the run is recorded in the history, and it ends
/// with an error of the degraded kind, not with a hard failure.
pub proof fn lemma_failed_paste_is_recorded(
    state: WorkflowState,
    detail: String,
    history: Seq<HistoryEntry>,
    next: WorkflowState,
    action: WorkflowAction,
    after: Seq<HistoryEntry>,
)
    requires
        state is Pasting,
        transition(
            state,
            WorkflowEvent::PasteSynthesized(Err(detail)),
            history,
            next,
            action,
            after,
        ),
    ensures
        next is Finished,
        ({
            &&& action matches WorkflowAction::Finish(Err(e))
            &&& kind_of(e) == WorkflowErrorKind::PasteDegraded
        }),
        ({
            &&& state matches WorkflowState::Pasting { template_name, source, result }
            &&& after[0].records(template_name@, source@, result@)
        }),
        after == added(history, after[0]),
{
}

/// A failure ends the run: whenever a step gives `Finish`, the run is in its
/// last state, and no later event moves it.
pub proof fn lemma_finish_is_final(
    state: WorkflowState,
    event: WorkflowEvent,
    history: Seq<HistoryEntry>,
    next: WorkflowState,
    action: WorkflowAction,
    after: Seq<HistoryEntry>,
)
    requires
        transition(state, event, history, next, action, after),
    ensures
        action is Finish ==> next is Finished,
        state is Finished ==> next is Finished && action is Wait && after == history,
{
}

} // verus!
