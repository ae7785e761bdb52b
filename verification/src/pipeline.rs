//! The per-event pipeline, composed: replay bytes to opponent identity,
//! and HTTP response to win/loss record, each failure tagged with the
//! stage it came from. One run handles one creation event; its outcome,
//! success or tagged failure, never affects the watcher or later events.

use vstd::prelude::*;

verus! {

use crate::connect_code::ConnectCode;
use crate::fetcher::{FetchError, is_success_status, page_from_response};
use crate::replay::{DecodeError, decode_replay, decode_spec};
use crate::resolver::{ResolveError, resolve_opponent, resolve_spec};
use crate::stats::{ExtractionError, WinLossData, extract_spec, get_win_loss_data, marker_texts};

/// A per-event failure, tagged with the pipeline stage that produced it,
/// so that a caller can tell an unreadable replay from an ambiguous
/// opponent, an unreachable network, and a changed page layout apart.
#[derive(Debug, Clone, Copy, PartialEq, Eq, Structural)]
pub enum PipelineError {
    Decode(DecodeError),
    Resolve(ResolveError),
    Fetch(FetchError),
    Extract(ExtractionError),
}

/// Decodes replay bytes and resolves the opponent of `player_code` in
/// them, tagging each failure with its stage.
pub fn get_opponent_connect_code(bytes: &Vec<u8>, player_code: &ConnectCode) -> (r: Result<
    ConnectCode,
    PipelineError,
>)
    ensures
        match decode_spec(bytes@) {
            Err(e) => r == Err::<ConnectCode, _>(PipelineError::Decode(e)),
            Ok(ids) => match resolve_spec(ids.0, ids.1, player_code.spec_pair()) {
                Ok(opp) => r matches Ok(code) && code.spec_pair() == opp,
                Err(e) => r == Err::<ConnectCode, _>(PipelineError::Resolve(e)),
            },
        },
{
    let replay = match decode_replay(bytes) {
        Ok(replay) => replay,
        Err(e) => {
            return Err(PipelineError::Decode(e));
        },
    };
    match resolve_opponent(&replay, player_code) {
        Ok(opponent) => Ok(opponent),
        Err(e) => Err(PipelineError::Resolve(e)),
    }
}

/// Classifies the HTTP response for a profile page and extracts the
/// win/loss record from its body, tagging each failure with its stage.
///
/// A connection failure yields no response at all; the caller that
/// performed the transfer reports it as `PipelineError::Fetch(Network)`.
pub fn win_loss_from_response(status: u16, body: String) -> (r: Result<WinLossData, PipelineError>)
    ensures
        !is_success_status(status) ==> r == Err::<WinLossData, _>(
            PipelineError::Fetch(FetchError::HTTPStatus(status)),
        ),
        is_success_status(status) ==> match extract_spec(marker_texts(body@)) {
            Ok(counts) => r matches Ok(record) && (record.spec_wins(), record.spec_losses())
                == counts,
            Err(e) => r == Err::<WinLossData, _>(PipelineError::Extract(e)),
        },
{
    let page = match page_from_response(status, body) {
        Ok(page) => page,
        Err(e) => {
            return Err(PipelineError::Fetch(e));
        },
    };
    match get_win_loss_data(page) {
        Ok(record) => Ok(record),
        Err(e) => Err(PipelineError::Extract(e)),
    }
}

} // verus!
