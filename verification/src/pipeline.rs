//! The two-pass orchestration protocol: states, events and demanded
//! actions of one request, including the failure branches and the
//! (deliberately asymmetric) cleanup rules.
use vstd::prelude::*;

verus! {

/// The ways a conversion request can fail.
#[derive(Clone, Copy, Debug, PartialEq, Eq, Structural)]
pub enum ErrorKind {
    InputMissing,
    PaletteGenerationFailed,
    EncodeFailed,
    ArtifactReadFailed,
    ArtifactCleanupFailed,
}

/// The states of one request's two-pass protocol.
#[derive(Clone, Copy, Debug, PartialEq, Eq, Structural)]
pub enum PipelineState {
    Idle,
    PaletteGenerating,
    PaletteReady,
    Encoding,
    Done,
    Failed(ErrorKind),
}

/// What the surrounding request handler reports to the protocol.
#[derive(Clone, Copy, Debug, PartialEq, Eq, Structural)]
pub enum PipelineEvent {
    Start { has_input: bool },
    PaletteFinished { exit_ok: bool },
    BeginEncode,
    EncodeFinished { exit_ok: bool },
    OutputRead { ok: bool },
    CleanupFinished { ok: bool },
}

/// What the protocol demands of the request handler next.
#[derive(Clone, Copy, Debug, PartialEq, Eq, Structural)]
pub enum PipelineAction {
    RunPalette,
    RunEncode,
    DeletePalette,
    ReadOutput,
    DeleteArtifacts,
}

/// The transition relation of the protocol, as a total function: an event
/// that does not belong to the current state changes nothing and demands
/// nothing. Every `Failed` state is terminal.
pub open spec fn spec_advance(s: PipelineState, e: PipelineEvent) -> (PipelineState, Option<
    PipelineAction,
>) {
    match (s, e) {
        (PipelineState::Idle, PipelineEvent::Start { has_input }) => {
            if has_input {
                (PipelineState::PaletteGenerating, Some(PipelineAction::RunPalette))
            } else {
                (PipelineState::Failed(ErrorKind::InputMissing), None)
            }
        },
        (PipelineState::PaletteGenerating, PipelineEvent::PaletteFinished { exit_ok }) => {
            if exit_ok {
                (PipelineState::PaletteReady, None)
            } else {
                // The palette artifact is not cleaned on this branch.
                (PipelineState::Failed(ErrorKind::PaletteGenerationFailed), None)
            }
        },
        (PipelineState::PaletteReady, PipelineEvent::BeginEncode) => {
            (PipelineState::Encoding, Some(PipelineAction::RunEncode))
        },
        (PipelineState::Encoding, PipelineEvent::EncodeFinished { exit_ok }) => {
            if exit_ok {
                (PipelineState::Done, Some(PipelineAction::ReadOutput))
            } else {
                (PipelineState::Failed(ErrorKind::EncodeFailed), Some(
                    PipelineAction::DeletePalette,
                ))
            }
        },
        (PipelineState::Done, PipelineEvent::OutputRead { ok }) => {
            if ok {
                (PipelineState::Done, Some(PipelineAction::DeleteArtifacts))
            } else {
                (PipelineState::Failed(ErrorKind::ArtifactReadFailed), None)
            }
        },
        (PipelineState::Done, PipelineEvent::CleanupFinished { ok }) => {
            if ok {
                (PipelineState::Done, None)
            } else {
                (PipelineState::Failed(ErrorKind::ArtifactCleanupFailed), None)
            }
        },
        _ => (s, None),
    }
}

/// Advances the protocol by one event.
pub fn advance(s: PipelineState, e: PipelineEvent) -> (r: (PipelineState, Option<PipelineAction>))
    ensures
        r == spec_advance(s, e),
{
    match (s, e) {
        (PipelineState::Idle, PipelineEvent::Start { has_input }) => {
            if has_input {
                (PipelineState::PaletteGenerating, Some(PipelineAction::RunPalette))
            } else {
                (PipelineState::Failed(ErrorKind::InputMissing), None)
            }
        },
        (PipelineState::PaletteGenerating, PipelineEvent::PaletteFinished { exit_ok }) => {
            if exit_ok {
                (PipelineState::PaletteReady, None)
            } else {
                (PipelineState::Failed(ErrorKind::PaletteGenerationFailed), None)
            }
        },
        (PipelineState::PaletteReady, PipelineEvent::BeginEncode) => {
            (PipelineState::Encoding, Some(PipelineAction::RunEncode))
        },
        (PipelineState::Encoding, PipelineEvent::EncodeFinished { exit_ok }) => {
            if exit_ok {
                (PipelineState::Done, Some(PipelineAction::ReadOutput))
            } else {
                (PipelineState::Failed(ErrorKind::EncodeFailed), Some(
                    PipelineAction::DeletePalette,
                ))
            }
        },
        (PipelineState::Done, PipelineEvent::OutputRead { ok }) => {
            if ok {
                (PipelineState::Done, Some(PipelineAction::DeleteArtifacts))
            } else {
                (PipelineState::Failed(ErrorKind::ArtifactReadFailed), None)
            }
        },
        (PipelineState::Done, PipelineEvent::CleanupFinished { ok }) => {
            if ok {
                (PipelineState::Done, None)
            } else {
                (PipelineState::Failed(ErrorKind::ArtifactCleanupFailed), None)
            }
        },
        _ => (s, None),
    }
}

/// Law: every failure state is terminal — no later event changes it or
/// demands further work.
pub proof fn lemma_failed_terminal(k: ErrorKind, e: PipelineEvent)
    ensures
        spec_advance(PipelineState::Failed(k), e) == (
            PipelineState::Failed(k),
            None::<PipelineAction>,
        ),
{
}

/// Law: the encode pass is demanded only out of the palette-ready state,
/// which only a successful palette pass reaches, and the palette pass only
/// out of a fresh request. With `lemma_failed_terminal`, a request whose
/// palette pass failed can never be asked to encode, so no output artifact
/// is ever created for it.
pub proof fn lemma_action_sources(s: PipelineState, e: PipelineEvent)
    ensures
        spec_advance(s, e).1 == Some(PipelineAction::RunEncode) ==> s is PaletteReady,
        spec_advance(s, e).1 == Some(PipelineAction::RunPalette) ==> s is Idle,
        spec_advance(s, e).0 is PaletteReady ==> s is PaletteReady || (s is PaletteGenerating && e
            == (PipelineEvent::PaletteFinished { exit_ok: true })),
{
}

/// The state a whole sequence of events leads to.
pub open spec fn spec_run(s: PipelineState, events: Seq<PipelineEvent>) -> PipelineState
    decreases events.len(),
{
    if events.len() == 0 {
        s
    } else {
        spec_run(spec_advance(s, events[0]).0, events.drop_first())
    }
}

/// Law: a failed request stays failed under every sequence of later
/// events. With `lemma_action_sources`, a request whose palette pass
/// failed is never asked to run the encode pass, whatever happens later.
pub proof fn lemma_failed_forever(k: ErrorKind, events: Seq<PipelineEvent>)
    ensures
        spec_run(PipelineState::Failed(k), events) == PipelineState::Failed(k),
    decreases events.len(),
{
    if events.len() > 0 {
        lemma_failed_forever(k, events.drop_first());
    }
}

/// Law: asymmetric cleanup. A failed encode pass deletes the palette
/// artifact before the request fails; a failed palette pass deletes
/// nothing.
pub proof fn lemma_cleanup_asymmetry()
    ensures
        spec_advance(
            PipelineState::Encoding,
            PipelineEvent::EncodeFinished { exit_ok: false },
        ) == (
            PipelineState::Failed(ErrorKind::EncodeFailed),
            Some(PipelineAction::DeletePalette),
        ),
        spec_advance(
            PipelineState::PaletteGenerating,
            PipelineEvent::PaletteFinished { exit_ok: false },
        ) == (PipelineState::Failed(ErrorKind::PaletteGenerationFailed), None::<PipelineAction>),
{
}

} // verus!
