//! The keywords of the configuration and the faults of reading it.

use vstd::prelude::*;
use vstd::string::StringExecFns;
use crate::tokens::str_eq;

verus! {

/// A keyword of the configuration.
#[derive(Clone, Copy, Debug, PartialEq, Eq, Structural)]
pub enum Keyword {
    Doc,
    MergeFn,
    Rewrap,
    Attrs,
    FieldDoc,
    FieldAttrs,
    From,
    Wrapper,
}

impl Keyword {
    /// The keyword as it is written.
    pub open spec fn text(self) -> Seq<char> {
        match self {
            Keyword::Doc => "doc"@,
            Keyword::MergeFn => "merge_fn"@,
            Keyword::Rewrap => "rewrap"@,
            Keyword::Attrs => "attrs"@,
            Keyword::FieldDoc => "field_doc"@,
            Keyword::FieldAttrs => "field_attrs"@,
            Keyword::From => "from"@,
            Keyword::Wrapper => "wrapper"@,
        }
    }

    /// The keyword as it is written.
    pub fn name(self) -> (r: &'static str)
        ensures
            r@ == self.text(),
    {
        match self {
            Keyword::Doc => "doc",
            Keyword::MergeFn => "merge_fn",
            Keyword::Rewrap => "rewrap",
            Keyword::Attrs => "attrs",
            Keyword::FieldDoc => "field_doc",
            Keyword::FieldAttrs => "field_attrs",
            Keyword::From => "from",
            Keyword::Wrapper => "wrapper",
        }
    }

    /// The keyword that `text` spells, if it spells one.
    pub fn of(text: &str) -> (r: Option<Keyword>)
        ensures
            r == keyword_of(text@),
    {
        if str_eq(text, "doc") {
            Some(Keyword::Doc)
        } else if str_eq(text, "merge_fn") {
            Some(Keyword::MergeFn)
        } else if str_eq(text, "rewrap") {
            Some(Keyword::Rewrap)
        } else if str_eq(text, "attrs") {
            Some(Keyword::Attrs)
        } else if str_eq(text, "field_doc") {
            Some(Keyword::FieldDoc)
        } else if str_eq(text, "field_attrs") {
            Some(Keyword::FieldAttrs)
        } else if str_eq(text, "from") {
            Some(Keyword::From)
        } else if str_eq(text, "wrapper") {
            Some(Keyword::Wrapper)
        } else {
            None
        }
    }
}

/// The keyword that a text spells, if it spells one.
pub open spec fn keyword_of(text: Seq<char>) -> Option<Keyword> {
    if text == "doc"@ {
        Some(Keyword::Doc)
    } else if text == "merge_fn"@ {
        Some(Keyword::MergeFn)
    } else if text == "rewrap"@ {
        Some(Keyword::Rewrap)
    } else if text == "attrs"@ {
        Some(Keyword::Attrs)
    } else if text == "field_doc"@ {
        Some(Keyword::FieldDoc)
    } else if text == "field_attrs"@ {
        Some(Keyword::FieldAttrs)
    } else if text == "from"@ {
        Some(Keyword::From)
    } else if text == "wrapper"@ {
        Some(Keyword::Wrapper)
    } else {
        None
    }
}

/// Each keyword is spelled in its own way: reading what a keyword is written
/// as gives that keyword back.
pub proof fn lemma_keyword_round_trip(keyword: Keyword)
    ensures
        keyword_of(keyword.text()) == Some(keyword),
{
    reveal_strlit("doc");
    reveal_strlit("merge_fn");
    reveal_strlit("rewrap");
    reveal_strlit("attrs");
    reveal_strlit("field_doc");
    reveal_strlit("field_attrs");
    reveal_strlit("from");
    reveal_strlit("wrapper");
    assert("doc"@.len() == 3);
    assert("merge_fn"@.len() == 8);
    assert("rewrap"@.len() == 6);
    assert("attrs"@.len() == 5);
    assert("field_doc"@.len() == 9);
    assert("field_attrs"@.len() == 11);
    assert("from"@.len() == 4);
    assert("wrapper"@.len() == 7);
}

/// What the reader looked for where it found something else.
#[derive(Clone, Copy, Debug, PartialEq, Eq, Structural)]
pub enum Expected {
    Identifier,
    Comma,
    Equals,
    StringLiteral,
    Group,
    /// The content of a group as a list of attributes.
    AttributeList,
    /// One of the keywords of a record's configuration.
    Keyword,
    /// One of the two keywords of a field's configuration.
    FieldKeyword,
}

impl Expected {
    /// The words for what was looked for.
    pub open spec fn text(self) -> Seq<char> {
        match self {
            Expected::Identifier => "expected identifier"@,
            Expected::Comma => "expected `,`"@,
            Expected::Equals => "expected `=`"@,
            Expected::StringLiteral => "expected string literal"@,
            Expected::Group => "expected group token"@,
            Expected::AttributeList => "expected a list of attributes"@,
            Expected::Keyword =>
            "expected one of: `doc`, `merge_fn`, `rewrap`, `attrs`, `field_doc`, `field_attrs`, `from`, `wrapper`"@,
            Expected::FieldKeyword => "expected `doc` or `attrs`"@,
        }
    }

    /// The words for what was looked for.
    pub fn message(self) -> (r: &'static str)
        ensures
            r@ == self.text(),
    {
        match self {
            Expected::Identifier => "expected identifier",
            Expected::Comma => "expected `,`",
            Expected::Equals => "expected `=`",
            Expected::StringLiteral => "expected string literal",
            Expected::Group => "expected group token",
            Expected::AttributeList => "expected a list of attributes",
            Expected::Keyword =>
            "expected one of: `doc`, `merge_fn`, `rewrap`, `attrs`, `field_doc`, `field_attrs`, `from`, `wrapper`",
            Expected::FieldKeyword => "expected `doc` or `attrs`",
        }
    }
}

/// Why a configuration was not accepted. Positions count the token trees of
/// the configuration from zero, after the invisible groups among them were
/// opened; a position equal to their number is its end.
#[derive(Clone, Copy, Debug, PartialEq, Eq, Structural)]
pub enum ParseError {
    /// The configuration is empty.
    MissingName,
    /// The configuration starts with a keyword.
    NameNotFirst,
    /// The keyword at `at` was given before, at `first`.
    AlreadyDefined { keyword: Keyword, at: usize, first: usize },
    /// At `at` stands something else than what the grammar asks for.
    Unexpected { at: usize, expected: Expected },
}

impl ParseError {
    /// The words of the fault.
    pub open spec fn text(self) -> Seq<char> {
        match self {
            ParseError::MissingName => "expected opt struct name"@,
            ParseError::NameNotFirst => "first argument must be opt struct name"@,
            ParseError::AlreadyDefined { keyword, .. } => keyword.text() + " already defined"@,
            ParseError::Unexpected { expected, .. } => expected.text(),
        }
    }

    /// The words that point at the earlier place, for a keyword given twice.
    pub open spec fn note_text(self) -> Option<Seq<char>> {
        match self {
            ParseError::AlreadyDefined { keyword, .. } => Some(keyword.text() + " defined here"@),
            _ => None,
        }
    }

    /// The position that the fault is reported at, if it has one.
    pub open spec fn place(self) -> Option<usize> {
        match self {
            ParseError::AlreadyDefined { at, .. } => Some(at),
            ParseError::Unexpected { at, .. } => Some(at),
            _ => None,
        }
    }

    /// The position that the fault is reported at, if it has one.
    pub fn position(&self) -> (r: Option<usize>)
        ensures
            r == self.place(),
    {
        match self {
            ParseError::AlreadyDefined { at, .. } => Some(*at),
            ParseError::Unexpected { at, .. } => Some(*at),
            _ => None,
        }
    }

    /// The position of the earlier place, for a keyword given twice.
    pub fn earlier(&self) -> (r: Option<usize>)
        ensures
            r == match self {
                ParseError::AlreadyDefined { first, .. } => Some(*first),
                _ => None,
            },
    {
        match self {
            ParseError::AlreadyDefined { first, .. } => Some(*first),
            _ => None,
        }
    }

    /// The words of the fault.
    pub fn message(&self) -> (r: String)
        ensures
            r@ == self.text(),
    {
        match self {
            ParseError::MissingName => String::from_str("expected opt struct name"),
            ParseError::NameNotFirst => String::from_str("first argument must be opt struct name"),
            ParseError::AlreadyDefined { keyword, .. } => {
                String::from_str(keyword.name()).concat(" already defined")
            },
            ParseError::Unexpected { expected, .. } => String::from_str(expected.message()),
        }
    }

    /// For a keyword given twice, the words that go with the earlier place.
    pub fn note(&self) -> (r: Option<String>)
        ensures
            match r {
                Some(text) => self.note_text() == Some(text@),
                None => self.note_text() is None,
            },
    {
        match self {
            ParseError::AlreadyDefined { keyword, .. } => {
                Some(String::from_str(keyword.name()).concat(" defined here"))
            },
            _ => None,
        }
    }
}

} // verus!
