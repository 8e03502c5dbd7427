//! Stream names: `schema[.category[.id]]`, each part an identifier.

use crate::identifier::{is_identifier, Identifier};
use crate::text::{trim, trimmed};
use vstd::prelude::*;
use vstd::string::*;

verus! {

/// The parts of `s` between the dots, in order; a string without a dot is
/// one part.
pub open spec fn split_dots(s: Seq<char>) -> Seq<Seq<char>>
    decreases s.len(),
{
    if s.len() == 0 {
        seq![Seq::<char>::empty()]
    } else {
        let rest = split_dots(s.drop_first());
        if s[0] == '.' {
            seq![Seq::<char>::empty()] + rest
        } else {
            rest.update(0, seq![s[0]] + rest[0])
        }
    }
}

proof fn lemma_split_dots_nonempty(s: Seq<char>)
    ensures
        split_dots(s).len() >= 1,
    decreases s.len(),
{
    if s.len() > 0 {
        lemma_split_dots_nonempty(s.drop_first());
    }
}

/// A string whose first dot is at `k` splits into its first `k` characters
/// and the parts after that dot; one without a dot before `k` and of length
/// `k` is a single part.
proof fn lemma_split_at(s: Seq<char>, k: int)
    requires
        0 <= k <= s.len(),
        forall|j: int| 0 <= j < k ==> s[j] != '.',
    ensures
        k < s.len() && s[k] == '.' ==> split_dots(s) == seq![s.subrange(0, k)] + split_dots(
            s.subrange(k + 1, s.len() as int),
        ),
        k == s.len() ==> split_dots(s) == seq![s],
    decreases k,
{
    lemma_split_dots_nonempty(s);
    if k == 0 {
        if s.len() > 0 && s[0] == '.' {
            assert(s.drop_first() =~= s.subrange(1, s.len() as int));
            assert(s.subrange(0, 0) =~= Seq::<char>::empty());
        }
        if s.len() == 0 {
            assert(s =~= Seq::<char>::empty());
        }
    } else {
        let t = s.drop_first();
        lemma_split_at(t, k - 1);
        lemma_split_dots_nonempty(t);
        if k < s.len() && s[k] == '.' {
            assert(t.subrange(k, t.len() as int) =~= s.subrange(k + 1, s.len() as int));
            assert(seq![s[0]] + t.subrange(0, k - 1) =~= s.subrange(0, k));
            assert(split_dots(s) =~= seq![s.subrange(0, k)] + split_dots(
                s.subrange(k + 1, s.len() as int),
            ));
        }
        if k == s.len() {
            assert(seq![s[0]] + t =~= s);
            assert(split_dots(s) =~= seq![s]);
        }
    }
}

/// A stream name: a schema, optionally followed by a category and an id.
#[derive(Debug, Clone, PartialEq, Eq, PartialOrd, Ord)]
pub struct Stream {
    schema: Identifier,
    category: Option<Identifier>,
    id: Option<Identifier>, // Year/Month of transaction for example
}

/// The error of parsing a [Stream].
#[derive(Debug, Clone, PartialEq, Eq)]
pub enum ParseError {
    /// A part of the stream name is not an identifier.
    InvalidStream,
    /// The stream name has too few parts.
    InvalidLength(Vec<Identifier>),
}

/// The parts of a stream name: schema, category and id, as text.
pub open spec fn stream_parts(s: Seq<char>) -> Option<(Seq<char>, Option<Seq<char>>, Option<Seq<char>>)> {
    let parts = split_dots(trimmed(s));
    if forall|i: int| 0 <= i < parts.len() ==> is_identifier(#[trigger] parts[i]) {
        Some(
            (
                parts[0],
                if parts.len() > 1 {
                    Some(parts[1])
                } else {
                    None
                },
                if parts.len() > 2 {
                    Some(parts[2])
                } else {
                    None
                },
            ),
        )
    } else {
        None
    }
}

/// The text of an optional identifier.
pub open spec fn opt_text(o: Option<Identifier>) -> Option<Seq<char>> {
    match o {
        Some(i) => Some(i@),
        None => None,
    }
}

impl Stream {
    pub closed spec fn spec_schema(&self) -> Identifier {
        self.schema
    }

    pub closed spec fn spec_category(&self) -> Option<Identifier> {
        self.category
    }

    pub closed spec fn spec_id(&self) -> Option<Identifier> {
        self.id
    }

    pub fn new(schema: Identifier, category: Identifier, id: Identifier) -> (r: Self)
        ensures
            r.spec_schema() == schema,
            r.spec_category() == Some(category),
            r.spec_id() == Some(id),
    {
        Stream { schema, category: Some(category), id: Some(id) }
    }

    pub fn schema(&self) -> (r: &Identifier)
        ensures
            *r == self.spec_schema(),
    {
        &self.schema
    }

    pub fn category(&self) -> (r: Option<&Identifier>)
        ensures
            opt_text(self.spec_category()) == match r {
                Some(i) => Some(i@),
                None => None::<Seq<char>>,
            },
    {
        self.category.as_ref()
    }

    pub fn id(&self) -> (r: Option<&Identifier>)
        ensures
            opt_text(self.spec_id()) == match r {
                Some(i) => Some(i@),
                None => None::<Seq<char>>,
            },
    {
        self.id.as_ref()
    }

    /// Parse `schema[.category[.id]]`, ignoring surrounding white space. Every
    /// dot-separated part must be an identifier; parts after the third are
    /// checked and then dropped.
    pub fn parse(s: &str) -> (r: Result<Stream, ParseError>)
        ensures
            stream_parts(s@) is None ==> r == Err::<Stream, ParseError>(ParseError::InvalidStream),
            stream_parts(s@) matches Some(p) ==> r is Ok && r->Ok_0.spec_schema()@ == p.0
                && opt_text(r->Ok_0.spec_category()) == p.1 && opt_text(r->Ok_0.spec_id()) == p.2,
    {
        let t = trim(s);
        let n = t.unicode_len();
        let ghost whole = t@;
        let mut parts: Vec<Identifier> = Vec::new();
        let mut start: usize = 0;
        assert(whole.subrange(0, n as int) =~= whole);
        loop
            invariant_except_break
                split_dots(whole) == parts@.map_values(|p: Identifier| p@) + split_dots(
                    whole.subrange(start as int, n as int),
                ),
            invariant
                whole == t@,
                whole == trimmed(s@),
                n == whole.len(),
                start <= n,
                forall|k: int| 0 <= k < parts@.len() ==> is_identifier(#[trigger] parts@[k]@),
            ensures
                split_dots(whole) == parts@.map_values(|p: Identifier| p@),
            decreases n - start,
        {
            let ghost rest = whole.subrange(start as int, n as int);
            let mut k: usize = start;
            while k < n && t.get_char(k) != '.'
                invariant
                    whole == t@,
                    n == whole.len(),
                    start <= k <= n,
                    forall|j: int| start <= j < k ==> whole[j] != '.',
                decreases n - k,
            {
                k = k + 1;
            }
            proof {
                lemma_split_at(rest, k - start);
                lemma_split_dots_nonempty(rest);
            }
            let part = t.substring_char(start, k);
            assert(part@ == rest.subrange(0, k - start));
            let ghost before = parts@;
            match Identifier::new(part) {
                Some(id) => {
                    parts.push(id);
                },
                None => {
                    proof {
                        let all = split_dots(whole);
                        let idx = before.len() as int;
                        assert(all[idx] == part@);
                        assert(!is_identifier(all[idx]));
                        assert(stream_parts(s@) is None);
                    }
                    return Err(ParseError::InvalidStream);
                },
            }
            assert(parts@.map_values(|p: Identifier| p@) =~= before.map_values(|p: Identifier| p@).push(part@));
            if k == n {
                assert(rest.subrange(0, k - start) =~= rest);
                assert(split_dots(whole) =~= parts@.map_values(|p: Identifier| p@));
                break;
            }
            assert(rest.subrange(k - start + 1, rest.len() as int) =~= whole.subrange(k + 1, n as int));
            start = k + 1;
        }
        let ghost texts = parts@.map_values(|p: Identifier| p@);
        proof {
            lemma_split_dots_nonempty(whole);
        }
        assert(forall|i: int| 0 <= i < texts.len() ==> is_identifier(#[trigger] texts[i]));
        let schema = parts[0].clone();
        let category = if parts.len() > 1 {
            Some(parts[1].clone())
        } else {
            None
        };
        let id = if parts.len() > 2 {
            Some(parts[2].clone())
        } else {
            None
        };
        Ok(Stream { schema, category, id })
    }
}

impl core::str::FromStr for Stream {
    type Err = ParseError;

    fn from_str(s: &str) -> Result<Self, Self::Err> {
        Stream::parse(s)
    }
}

} // verus!
