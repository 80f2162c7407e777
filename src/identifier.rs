//! Identifiers of datasets and files: a numeric database id, or a
//! persistent identifier such as a DOI.

use vstd::prelude::*;
use crate::text::{signed_decimal, to_signed_decimal};

verus! {

/// All of `s` is ASCII decimal digits.
pub open spec fn ascii_digits(s: Seq<char>) -> bool {
    forall|i: int| 0 <= i < s.len() ==> '0' <= #[trigger] s[i] <= '9'
}

/// The number that the digits of `s` denote.
pub open spec fn digits_value(s: Seq<char>) -> int
    decreases s.len(),
{
    if s.len() == 0 {
        0
    } else {
        digits_value(s.drop_last()) * 10 + ((s.last() as u32) as int - ('0' as u32) as int)
    }
}

/// What `s` denotes as a signed integer: an optional `+` or `-` followed by
/// one or more ASCII digits, and nothing else.
pub open spec fn parse_integer(s: Seq<char>) -> Option<int> {
    if s.len() > 0 && (s[0] == '-' || s[0] == '+') {
        let d = s.drop_first();
        if d.len() > 0 && ascii_digits(d) {
            Some(
                if s[0] == '-' {
                    -digits_value(d)
                } else {
                    digits_value(d)
                },
            )
        } else {
            None
        }
    } else if s.len() > 0 && ascii_digits(s) {
        Some(digits_value(s))
    } else {
        None
    }
}

/// What `str::parse::<i64>` gives for `s`.
pub open spec fn parse_i64_spec(s: Seq<char>) -> Option<i64> {
    match parse_integer(s) {
        Some(v) => if i64::MIN <= v <= i64::MAX {
            Some(v as i64)
        } else {
            None
        },
        None => None,
    }
}

/// Relies on `str::parse::<i64>`: an optional sign and decimal digits, whose
/// value fits; anything else is an error.
#[verifier::external_body]
fn parse_i64(s: &str) -> (r: Option<i64>)
    ensures
        r == parse_i64_spec(s@),
{
    s.parse::<i64>().ok()
}

/// A dataset or file identifier.
#[derive(Debug, Clone)]
pub enum Identifier {
    PersistentId(String),
    Id(i64),
}

impl Identifier {
    /// Reads an identifier: text that parses as an integer is a numeric id,
    /// anything else a persistent id.
    pub fn parse(s: &str) -> (r: Identifier)
        ensures
            match parse_i64_spec(s@) {
                Some(v) => r == Identifier::Id(v),
                None => r matches Identifier::PersistentId(p) && p@ == s@,
            },
    {
        match parse_i64(s) {
            Some(v) => Identifier::Id(v),
            None => Identifier::PersistentId(s.to_owned()),
        }
    }

    /// The identifier as the service expects it in a path or a query.
    pub open spec fn text(&self) -> Seq<char> {
        match self {
            Identifier::Id(v) => signed_decimal(*v as int),
            Identifier::PersistentId(p) => p@,
        }
    }

    pub fn to_text(&self) -> (r: String)
        ensures
            r@ == self.text(),
    {
        match self {
            Identifier::Id(v) => to_signed_decimal(*v),
            Identifier::PersistentId(p) => p.clone(),
        }
    }
}

impl std::str::FromStr for Identifier {
    type Err = String;

    fn from_str(s: &str) -> (r: Result<Identifier, String>)
        ensures
            r matches Ok(id) && match parse_i64_spec(s@) {
                Some(v) => id == Identifier::Id(v),
                None => id matches Identifier::PersistentId(p) && p@ == s@,
            },
    {
        Ok(Identifier::parse(s))
    }
}

} // verus!
