//! Connect codes: the `name#discriminant` identity of a player account,
//! with verified parsing, formatting, and their round-trip law.

use vstd::prelude::*;

verus! {

use crate::digits::{
    all_digits, dec_digits, digits_val, lemma_dec_digits_wf, lemma_digits_val_dec_digits,
    append_dec_digits, parse_decimal,
};
use vstd::string::StrSliceExecFns;
use vstd::string::StringExecFns;

/// A name is valid when it is non-empty and free of the separator.
pub open spec fn valid_name(name: Seq<char>) -> bool {
    name.len() > 0 && forall|i: int| 0 <= i < name.len() ==> #[trigger] name[i] != '#'
}

/// The canonical textual form of a code: `name`, `#`, then the decimal
/// rendering of the discriminant.
pub open spec fn code_seq(name: Seq<char>, discriminant: nat) -> Seq<char> {
    name + seq!['#'] + dec_digits(discriminant)
}

/// Index of the first `#` in `s`, or `s.len()` when none occurs.
pub open spec fn first_hash(s: Seq<char>) -> int
    decreases s.len(),
{
    if s.len() == 0 {
        0
    } else if s[0] == '#' {
        0
    } else {
        1 + first_hash(s.drop_first())
    }
}

/// An index below which no `#` occurs, and which holds `#` itself, is the
/// first one.
pub proof fn lemma_first_hash_is(s: Seq<char>, i: int)
    requires
        0 <= i < s.len(),
        forall|j: int| 0 <= j < i ==> #[trigger] s[j] != '#',
        s[i] == '#',
    ensures
        first_hash(s) == i,
    decreases s.len(),
{
    if i > 0 {
        lemma_first_hash_is(s.drop_first(), i - 1);
    }
}

/// A string without `#` has no first `#`.
pub proof fn lemma_first_hash_none(s: Seq<char>)
    requires
        forall|j: int| 0 <= j < s.len() ==> #[trigger] s[j] != '#',
    ensures
        first_hash(s) == s.len(),
    decreases s.len(),
{
    if s.len() > 0 {
        lemma_first_hash_none(s.drop_first());
    }
}

/// What parsing a string as a connect code yields: the name before the
/// first `#` and the value of the digits after it, or nothing when the
/// separator is absent or the suffix is not a `usize`-sized run of digits.
pub open spec fn parse_code_spec(s: Seq<char>) -> Option<(Seq<char>, int)> {
    let i = first_hash(s);
    if i == s.len() {
        None
    } else {
        let tail = s.skip(i + 1);
        if tail.len() > 0 && all_digits(tail) && digits_val(tail) <= usize::MAX {
            Some((s.take(i), digits_val(tail)))
        } else {
            None
        }
    }
}

/// The error returned when a string is not a well-formed connect code.
#[derive(Debug, Clone, Copy, PartialEq, Eq, Structural)]
pub struct ParseConnectCodeError;

/// A player-account identity: a case-sensitive tag and a non-negative
/// discriminant, rendered canonically as `name#discriminant`.
#[derive(Debug)]
pub struct ConnectCode {
    name: String,
    discriminant: usize,
}

impl ConnectCode {
    /// The name part of the code.
    pub closed spec fn spec_name(&self) -> Seq<char> {
        self.name@
    }

    /// The discriminant part of the code.
    pub closed spec fn spec_discriminant(&self) -> int {
        self.discriminant as int
    }

    /// The pair a code denotes, as `parse_code_spec` yields it.
    pub open spec fn spec_pair(&self) -> (Seq<char>, int) {
        (self.spec_name(), self.spec_discriminant())
    }

    /// Builds a code from its two parts.
    pub fn new(name: String, discriminant: usize) -> (r: ConnectCode)
        ensures
            r.spec_name() == name@,
            r.spec_discriminant() == discriminant as int,
    {
        ConnectCode { name, discriminant }
    }

    /// Parses the canonical textual form: the name is everything before the
    /// first `#`, the discriminant the decimal run after it.
    ///
    /// Fails exactly when no `#` occurs, or the suffix is empty, holds a
    /// non-digit, or denotes a value beyond `usize`.
    pub fn from_str(s: &str) -> (r: Result<ConnectCode, ParseConnectCodeError>)
        ensures
            match r {
                Ok(code) => parse_code_spec(s@) == Some(code.spec_pair()),
                Err(_) => parse_code_spec(s@) is None,
            },
    {
        let n: usize = s.unicode_len();
        let mut i: usize = 0;
        while i < n
            invariant
                0 <= i <= n,
                n == s@.len(),
                forall|j: int| 0 <= j < i ==> #[trigger] s@[j] != '#',
            decreases n - i,
        {
            if s.get_char(i) == '#' {
                proof {
                    lemma_first_hash_is(s@, i as int);
                }
                let name = s.substring_char(0, i).to_owned();
                let tail = s.substring_char(i + 1, n);
                assert(tail@ =~= s@.skip(i + 1));
                match parse_decimal(tail) {
                    Some(discriminant) => {
                        let code = ConnectCode { name, discriminant };
                        assert(code.spec_name() =~= s@.take(i as int));
                        return Ok(code);
                    },
                    None => {
                        return Err(ParseConnectCodeError);
                    },
                }
            }
            i = i + 1;
        }
        proof {
            lemma_first_hash_none(s@);
        }
        Err(ParseConnectCodeError)
    }

    /// The name part, as a string slice.
    pub fn name_str(&self) -> (r: &str)
        ensures
            r@ == self.spec_name(),
    {
        self.name.as_str()
    }

    /// The discriminant part.
    pub fn discriminant_value(&self) -> (r: usize)
        ensures
            r as int == self.spec_discriminant(),
    {
        self.discriminant
    }

    /// Renders the code in its canonical textual form.
    pub fn format(&self) -> (r: String)
        ensures
            r@ == code_seq(self.spec_name(), self.spec_discriminant() as nat),
    {
        let mut out = self.name.clone();
        proof {
            reveal_strlit("#");
        }
        out.append("#");
        append_dec_digits(self.discriminant, &mut out);
        proof {
            assert("#"@ =~= seq!['#']);
            assert(out@ =~= code_seq(self.spec_name(), self.spec_discriminant() as nat));
        }
        out
    }
}

/// Structural equality on (name, discriminant).
impl PartialEq for ConnectCode {
    fn eq(&self, other: &ConnectCode) -> (r: bool) {
        self.name == other.name && self.discriminant == other.discriminant
    }
}

impl vstd::std_specs::cmp::PartialEqSpecImpl for ConnectCode {
    open spec fn obeys_eq_spec() -> bool {
        true
    }

    open spec fn eq_spec(&self, other: &ConnectCode) -> bool {
        self.spec_name() == other.spec_name() && self.spec_discriminant()
            == other.spec_discriminant()
    }
}

/// Round trip: parsing the canonical form of any valid name and
/// discriminant yields exactly that name and discriminant.
pub proof fn lemma_parse_format_round_trip(name: Seq<char>, discriminant: usize)
    requires
        valid_name(name),
    ensures
        parse_code_spec(code_seq(name, discriminant as nat)) == Some(
            (name, discriminant as int),
        ),
{
    let s = code_seq(name, discriminant as nat);
    lemma_dec_digits_wf(discriminant as nat);
    lemma_digits_val_dec_digits(discriminant as nat);
    assert(s[name.len() as int] == '#');
    lemma_first_hash_is(s, name.len() as int);
    assert(s.take(name.len() as int) =~= name);
    assert(s.skip(name.len() as int + 1) =~= dec_digits(discriminant as nat));
}

} // verus!
