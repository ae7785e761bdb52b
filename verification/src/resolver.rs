//! Opponent resolution: selecting, from a decoded replay's two
//! participants, the one that is not the locally configured player.

use vstd::prelude::*;

verus! {

use crate::connect_code::{ConnectCode, parse_code_spec};
use crate::replay::Replay;

/// Why no opponent could be resolved.
///
/// `AmbiguousOrMissing`: neither participant is the local player, or both
/// are (a mirror of oneself), so no opponent is defined.
/// `UnparsableIdentity`: a participant's identity string is not valid
/// connect-code syntax.
#[derive(Debug, Clone, Copy, PartialEq, Eq, Structural)]
pub enum ResolveError {
    AmbiguousOrMissing,
    UnparsableIdentity,
}

/// What resolution yields for two participant identity strings and the
/// local player's (name, discriminant) pair: the pair of whichever
/// participant is not the local player.
pub open spec fn resolve_spec(
    first: Seq<char>,
    second: Seq<char>,
    local: (Seq<char>, int),
) -> Result<(Seq<char>, int), ResolveError> {
    match (parse_code_spec(first), parse_code_spec(second)) {
        (Some(a), Some(b)) => {
            if a == local && b == local {
                Err(ResolveError::AmbiguousOrMissing)
            } else if a == local {
                Ok(b)
            } else if b == local {
                Ok(a)
            } else {
                Err(ResolveError::AmbiguousOrMissing)
            }
        },
        _ => Err(ResolveError::UnparsableIdentity),
    }
}

/// Resolves the opponent: parses both participant identities and returns
/// whichever one is not structurally equal to `local`.
///
/// Fails with `UnparsableIdentity` when either identity string is not
/// valid connect-code syntax, and with `AmbiguousOrMissing` when both
/// participants equal the local player or neither does.
pub fn resolve_opponent(replay: &Replay, local: &ConnectCode) -> (r: Result<
    ConnectCode,
    ResolveError,
>)
    ensures
        match r {
            Ok(opp) => resolve_spec(replay.spec_first(), replay.spec_second(), local.spec_pair())
                == Ok::<_, ResolveError>(opp.spec_pair()),
            Err(e) => resolve_spec(replay.spec_first(), replay.spec_second(), local.spec_pair())
                == Err::<(Seq<char>, int), _>(e),
        },
{
    let a = match ConnectCode::from_str(replay.first_identity().as_str()) {
        Ok(code) => code,
        Err(_) => {
            return Err(ResolveError::UnparsableIdentity);
        },
    };
    let b = match ConnectCode::from_str(replay.second_identity().as_str()) {
        Ok(code) => code,
        Err(_) => {
            return Err(ResolveError::UnparsableIdentity);
        },
    };
    let a_is_local = &a == local;
    let b_is_local = &b == local;
    if a_is_local && b_is_local {
        Err(ResolveError::AmbiguousOrMissing)
    } else if a_is_local {
        Ok(b)
    } else if b_is_local {
        Ok(a)
    } else {
        Err(ResolveError::AmbiguousOrMissing)
    }
}

} // verus!
