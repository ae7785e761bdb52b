//! Replay decoding: turning the bytes of a finished `.slp` replay file into
//! the two participant identity strings the rest of the pipeline works on.

use vstd::prelude::*;

verus! {

/// Why a replay's bytes could not be decoded.
///
/// `IOFailure` is reserved for a file that could not be read at all (the
/// caller that performs the read reports it); `MalformedReplay` covers a
/// failed structural parse and missing participant metadata.
#[derive(Debug, Clone, Copy, PartialEq, Eq, Structural)]
pub enum DecodeError {
    IOFailure,
    MalformedReplay,
}

/// True when `bytes` opens with the replay container's signature: a UBJSON
/// opening brace, the `raw` key and its array-of-bytes type tag.
pub open spec fn has_slp_signature(bytes: Seq<u8>) -> bool {
    &&& bytes[0] == 0x7bu8
    &&& bytes[1] == 0x55u8
    &&& bytes[2] == 0x03u8
    &&& bytes[3] == 0x72u8
    &&& bytes[4] == 0x61u8
    &&& bytes[5] == 0x77u8
    &&& bytes[6] == 0x5bu8
    &&& bytes[7] == 0x24u8
    &&& bytes[8] == 0x55u8
    &&& bytes[9] == 0x23u8
    &&& bytes[10] == 0x6cu8
}

/// The big-endian 32-bit integer at offset `i`.
pub open spec fn be32_at(bytes: Seq<u8>, i: int) -> int {
    bytes[i] * 0x1000000 + bytes[i + 1] * 0x10000 + bytes[i + 2] * 0x100 + bytes[i + 3]
}

/// The declared payload size for event `code` among the first `entries`
/// three-byte entries of the payload-sizes table at offset 17; a later
/// entry for the same code overrides an earlier one, as the decoder's own
/// table does.
pub open spec fn payload_size_of(bytes: Seq<u8>, entries: int, code: u8) -> Option<int>
    decreases entries,
{
    if entries <= 0 {
        None
    } else if bytes[17 + 3 * (entries - 1)] == code {
        Some(bytes[18 + 3 * (entries - 1)] * 0x100 + bytes[19 + 3 * (entries - 1)])
    } else {
        payload_size_of(bytes, entries - 1, code)
    }
}

/// The container shape the frame-skipping decoder relies on: the replay
/// signature; a well-formed payload-sizes event declaring the game-start
/// and game-end events; the game-start event immediately after it; a raw
/// block long enough to hold all three events; and the game-end event
/// where the raw block says it ends.
///
/// On a file of any other shape — truncated, mid-write, or corrupted —
/// the decoder is never called, and decoding reports `MalformedReplay`.
pub open spec fn preflight_spec(bytes: Seq<u8>) -> bool {
    let raw_len = be32_at(bytes, 11);
    let s = bytes[16] as int;
    let entries = (s - 1) / 3;
    let g36 = payload_size_of(bytes, entries, 0x36u8);
    let g39 = payload_size_of(bytes, entries, 0x39u8);
    &&& bytes.len() >= 17
    &&& has_slp_signature(bytes)
    &&& bytes[15] == 0x35u8
    &&& s % 3 == 1
    &&& bytes.len() >= 17 + (s - 1)
    &&& g36 is Some
    &&& g39 is Some
    &&& bytes.len() > 16 + s
    &&& bytes[16 + s] == 0x36u8
    &&& raw_len >= (1 + s) + (1 + g36->0) + (1 + g39->0)
    &&& 15 + raw_len - (1 + g39->0) < bytes.len()
    &&& bytes[15 + raw_len - (1 + g39->0)] == 0x39u8
}

/// Checks `preflight_spec` on the bytes of a candidate replay file.
pub fn replay_preflight(bytes: &Vec<u8>) -> (r: bool)
    ensures
        r == preflight_spec(bytes@),
{
    if bytes.len() < 17 {
        return false;
    }
    if !(bytes[0] == 0x7b && bytes[1] == 0x55 && bytes[2] == 0x03 && bytes[3] == 0x72
        && bytes[4] == 0x61 && bytes[5] == 0x77 && bytes[6] == 0x5b && bytes[7] == 0x24
        && bytes[8] == 0x55 && bytes[9] == 0x23 && bytes[10] == 0x6c) {
        return false;
    }
    let raw_len: u64 = (bytes[11] as u64) * 0x1000000 + (bytes[12] as u64) * 0x10000 + (
    bytes[13] as u64) * 0x100 + (bytes[14] as u64);
    if bytes[15] != 0x35 {
        return false;
    }
    let s: usize = bytes[16] as usize;
    if s % 3 != 1 {
        return false;
    }
    if bytes.len() < 17 + (s - 1) {
        return false;
    }
    let entries: usize = (s - 1) / 3;
    let mut g36: Option<u16> = None;
    let mut g39: Option<u16> = None;
    let mut k: usize = 0;
    while k < entries
        invariant
            0 <= k <= entries,
            entries == (bytes@[16] as int - 1) / 3,
            3 * entries <= bytes@[16] as int,
            bytes@.len() >= 17 + (bytes@[16] as int - 1),
            (g36 is Some <==> payload_size_of(bytes@, k as int, 0x36u8) is Some),
            g36 matches Some(g) ==> payload_size_of(bytes@, k as int, 0x36u8) == Some(g as int),
            (g39 is Some <==> payload_size_of(bytes@, k as int, 0x39u8) is Some),
            g39 matches Some(g) ==> payload_size_of(bytes@, k as int, 0x39u8) == Some(g as int),
        decreases entries - k,
    {
        let code = bytes[17 + 3 * k];
        let size: u16 = (bytes[18 + 3 * k] as u16) * 0x100 + (bytes[19 + 3 * k] as u16);
        if code == 0x36 {
            g36 = Some(size);
        }
        if code == 0x39 {
            g39 = Some(size);
        }
        k = k + 1;
    }
    let g36: u16 = match g36 {
        Some(g) => g,
        None => {
            return false;
        },
    };
    let g39: u16 = match g39 {
        Some(g) => g,
        None => {
            return false;
        },
    };
    if bytes.len() <= 16 + s {
        return false;
    }
    if bytes[16 + s] != 0x36 {
        return false;
    }
    if raw_len < (1 + s as u64) + (1 + g36 as u64) + (1 + g39 as u64) {
        return false;
    }
    let skip_target: u64 = 15 + raw_len - (1 + g39 as u64);
    if bytes.len() as u64 <= skip_target {
        return false;
    }
    if bytes[skip_target as usize] != 0x39 {
        return false;
    }
    true
}

/// What decoding yields for given replay bytes: nothing when the
/// structural parse fails, otherwise one entry per participant holding its
/// netplay connect-code text where the replay records one.
pub uninterp spec fn replay_player_codes(bytes: Seq<u8>) -> Option<Seq<Option<Seq<char>>>>;

/// Relies on `peppi::io::slippi::read` (with frame data skipped) and
/// `MeleeString::to_normalized`: both are deterministic in the bytes alone,
/// so the participant connect codes of a replay are a function of its
/// bytes. The decoder panics rather than erring on some malformed inputs
/// (a raw length shorter than its own events, or an event other than
/// game-end where the raw block ends), so only bytes that pass the
/// container preflight are admitted.
#[verifier::external_body]
fn peppi_player_codes(bytes: &Vec<u8>) -> (r: Option<Vec<Option<String>>>)
    requires
        preflight_spec(bytes@),
    ensures
        r.deep_view() == replay_player_codes(bytes@),
{
    let opts = peppi::io::slippi::de::Opts { skip_frames: true, compute_hash: false, debug: None };
    let cursor = std::io::Cursor::new(bytes.as_slice());
    let game = match peppi::io::slippi::read(cursor, Some(&opts)) {
        Ok(g) => g,
        Err(_) => return None,
    };
    Some(
        game.start.players.into_iter().map(
            |p: peppi::game::Player| p.netplay.map(|n| n.code.to_normalized()),
        ).collect(),
    )
}

/// A decoded replay: exactly two participants, each with a present
/// identity string.
#[derive(Debug)]
pub struct Replay {
    first: String,
    second: String,
}

/// What the participant list of a decoded file must look like: exactly
/// two entries, each with an identity present.
pub open spec fn participants_spec(codes: Seq<Option<Seq<char>>>) -> Result<
    (Seq<char>, Seq<char>),
    DecodeError,
> {
    if codes.len() == 2 && codes[0] is Some && codes[1] is Some {
        Ok((codes[0]->0, codes[1]->0))
    } else {
        Err(DecodeError::MalformedReplay)
    }
}

/// What `decode_replay` yields for given bytes: the two identity strings,
/// or `MalformedReplay` when the parse fails, the participants are not
/// exactly two, or either lacks an identity.
pub open spec fn decode_spec(bytes: Seq<u8>) -> Result<(Seq<char>, Seq<char>), DecodeError> {
    if !preflight_spec(bytes) {
        Err(DecodeError::MalformedReplay)
    } else {
        match replay_player_codes(bytes) {
            Some(codes) => participants_spec(codes),
            None => Err(DecodeError::MalformedReplay),
        }
    }
}

impl Replay {
    /// Identity string of the first participant.
    pub closed spec fn spec_first(&self) -> Seq<char> {
        self.first@
    }

    /// Identity string of the second participant.
    pub closed spec fn spec_second(&self) -> Seq<char> {
        self.second@
    }

    /// Builds a decoded replay from its two participant identity strings.
    pub fn new(first: String, second: String) -> (r: Replay)
        ensures
            r.spec_first() == first@,
            r.spec_second() == second@,
    {
        Replay { first, second }
    }

    /// The first participant's identity string.
    pub fn first_identity(&self) -> (r: &String)
        ensures
            r@ == self.spec_first(),
    {
        &self.first
    }

    /// The second participant's identity string.
    pub fn second_identity(&self) -> (r: &String)
        ensures
            r@ == self.spec_second(),
    {
        &self.second
    }
}

/// Builds a decoded replay from a participant list: succeeds exactly when
/// there are two participants and each has an identity string.
pub fn replay_from_player_codes(players: &Vec<Option<String>>) -> (r: Result<Replay, DecodeError>)
    ensures
        match r {
            Ok(replay) => participants_spec(players.deep_view()) == Ok::<_, DecodeError>(
                (replay.spec_first(), replay.spec_second()),
            ),
            Err(e) => participants_spec(players.deep_view()) == Err::<(Seq<char>, Seq<char>), _>(
                e,
            ),
        },
{
    if players.len() != 2 {
        return Err(DecodeError::MalformedReplay);
    }
    let first = match &players[0] {
        Some(s) => s.clone(),
        None => {
            return Err(DecodeError::MalformedReplay);
        },
    };
    let second = match &players[1] {
        Some(s) => s.clone(),
        None => {
            return Err(DecodeError::MalformedReplay);
        },
    };
    Ok(Replay { first, second })
}

/// Decodes the bytes of a replay file.
///
/// Succeeds exactly when the structural parse succeeds and records exactly
/// two participants, each with an identity string; every other shape is a
/// `MalformedReplay`, never a panic, so a truncated or mid-write file is
/// an ordinary error.
pub fn decode_replay(bytes: &Vec<u8>) -> (r: Result<Replay, DecodeError>)
    ensures
        match r {
            Ok(replay) => decode_spec(bytes@) == Ok::<_, DecodeError>(
                (replay.spec_first(), replay.spec_second()),
            ),
            Err(e) => decode_spec(bytes@) == Err::<(Seq<char>, Seq<char>), _>(e),
        },
{
    if !replay_preflight(bytes) {
        return Err(DecodeError::MalformedReplay);
    }
    let players = match peppi_player_codes(bytes) {
        Some(players) => players,
        None => {
            return Err(DecodeError::MalformedReplay);
        },
    };
    replay_from_player_codes(&players)
}

} // verus!
