//! Identifiers: non-empty strings of alphanumeric characters and `_`.

use crate::text::{is_alphanumeric, unicode_alphanumeric};
use vstd::prelude::*;
use vstd::string::*;

verus! {

/// A non-empty string whose characters are all alphanumeric or `_`.
pub open spec fn is_identifier(s: Seq<char>) -> bool {
    &&& s.len() > 0
    &&& forall|i: int| 0 <= i < s.len() ==> unicode_alphanumeric(#[trigger] s[i]) || s[i] == '_'
}

/// An identifier is any alphanumeric character and `_`.
#[derive(Debug, PartialEq, Eq, PartialOrd, Ord)]
pub struct Identifier(String);

impl View for Identifier {
    type V = Seq<char>;

    closed spec fn view(&self) -> Seq<char> {
        self.0@
    }
}

impl Clone for Identifier {
    fn clone(&self) -> (r: Self)
        ensures
            r == *self,
    {
        Identifier(self.0.clone())
    }
}

impl Identifier {
    /// The identifier holding `identifier`, or `None` where it is empty or
    /// holds another character than an alphanumeric one or `_`.
    pub fn new(identifier: &str) -> (r: Option<Self>)
        ensures
            r is Some <==> is_identifier(identifier@),
            r matches Some(i) ==> i@ == identifier@,
    {
        let n = identifier.unicode_len();
        if n == 0 {
            return None;
        }
        let mut i: usize = 0;
        while i < n
            invariant
                n == identifier@.len(),
                i <= n,
                forall|k: int|
                    0 <= k < i ==> unicode_alphanumeric(#[trigger] identifier@[k]) || identifier@[k]
                        == '_',
            decreases n - i,
        {
            let c = identifier.get_char(i);
            if !(is_alphanumeric(c) || c == '_') {
                return None;
            }
            i = i + 1;
        }
        Some(Identifier(identifier.to_owned()))
    }

    /// The identifier as text.
    pub fn as_str(&self) -> (r: &str)
        ensures
            r@ == self@,
    {
        self.0.as_str()
    }
}

/// The error of parsing an [Identifier].
#[derive(Debug, Clone, Copy, PartialEq, Eq)]
pub struct ParseError;

impl ParseError {
    pub fn message(&self) -> (r: String)
        ensures
            r@ == "Unable to parse identifier"@,
    {
        String::from_str("Unable to parse identifier")
    }
}

impl core::str::FromStr for Identifier {
    type Err = ParseError;

    fn from_str(s: &str) -> Result<Self, Self::Err> {
        match Identifier::new(s) {
            Some(i) => Ok(i),
            None => Err(ParseError),
        }
    }
}

} // verus!
