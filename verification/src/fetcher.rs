//! Profile fetching, the computable part: the profile URL a connect code
//! maps to, and the classification of an HTTP response into a profile
//! document or a typed failure. The network transfer itself happens
//! outside the library; its result is handed in as a status and a body.

use vstd::prelude::*;

verus! {

use crate::connect_code::ConnectCode;
use crate::digits::{append_dec_digits, dec_digits};
use vstd::string::StringExecFns;

/// Why a profile document could not be retrieved.
///
/// `Network` stands for a connection or transfer failure (no response was
/// obtained); `HTTPStatus` carries the status of a non-2xx response.
#[derive(Debug, Clone, Copy, PartialEq, Eq, Structural)]
pub enum FetchError {
    Network,
    HTTPStatus(u16),
}

/// The profile URL for a code: the well-known user page, addressed by
/// `name-discriminant`.
pub open spec fn profile_url_spec(name: Seq<char>, discriminant: nat) -> Seq<char> {
    "https://slippi.gg/user/"@ + name + "-"@ + dec_digits(discriminant)
}

/// Builds the profile URL for `code`.
pub fn profile_url(code: &ConnectCode) -> (r: String)
    ensures
        r@ == profile_url_spec(code.spec_name(), code.spec_discriminant() as nat),
{
    let mut out = "https://slippi.gg/user/".to_owned();
    out.append(code.name_str());
    out.append("-");
    append_dec_digits(code.discriminant_value(), &mut out);
    proof {
        assert(out@ =~= profile_url_spec(code.spec_name(), code.spec_discriminant() as nat));
    }
    out
}

/// True for the statuses that count as success.
pub open spec fn is_success_status(status: u16) -> bool {
    200 <= status < 300
}

/// Classifies an HTTP response: any 2xx status yields the body as the
/// profile document, any other status is an `HTTPStatus` failure.
pub fn page_from_response(status: u16, body: String) -> (r: Result<String, FetchError>)
    ensures
        match r {
            Ok(page) => is_success_status(status) && page == body,
            Err(e) => !is_success_status(status) && e == FetchError::HTTPStatus(status),
        },
{
    if 200 <= status && status < 300 {
        Ok(body)
    } else {
        Err(FetchError::HTTPStatus(status))
    }
}

} // verus!
