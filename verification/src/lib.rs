//! Derives, from a record definition and a keyword configuration, a second
//! record whose fields are wrapped in an optional container, together with a
//! function that merges the derived record back and a conversion into it.
//!
//! # What is derived
//!
//! From the record
//!
//! ```text
//! struct MyStruct {
//!     text: String,
//!     number: Option<i32>,
//! }
//! ```
//!
//! the configuration `Opt` derives
//!
//! ```text
//! struct Opt {
//!     text: Option<String>,
//!     number: Option<i32>,
//! }
//! ```
//!
//! A field that is in the container already is taken over as it is, unless
//! the configuration says `rewrap`. Whether a field is in the container is
//! judged by the first segment of the path of its type, so a type of the
//! same name counts, and the container under another path does not. The
//! derived record keeps the generic parameters of the original and the names
//! and visibilities of its fields.
//!
//! # The configuration
//!
//! The name of the derived record comes first, with a visibility before it
//! if the record is not to be private. Keywords follow in any order, each
//! after a comma and each at most once:
//!
//! | keyword | what it asks for |
//! |---|---|
//! | `doc` | the documentation of the original |
//! | `doc = "text"` | the text as documentation |
//! | `attrs` | the attributes of the original |
//! | `attrs = (a, b)` | the attributes `a` and `b` |
//! | `attrs = add(a, b)` | the attributes of the original, then `a` and `b` |
//! | `field_doc` | for each field the documentation of the original field |
//! | `field_attrs`, with the values of `attrs` | the same for the attributes of each field |
//! | `rewrap` | wrapping also what is in the container already |
//! | `wrapper = W` | the container `W` in the place of `Option` |
//! | `merge_fn`, `merge_fn = name`, `merge_fn = pub name` | the function that merges a derived record into the original |
//! | `from` | the conversion of the original into the derived record |
//!
//! Without `doc` the derived record has no documentation, and without
//! `attrs` no attribute; the same holds of its fields. The markers of this
//! library among the attributes of the original, `optfield` and
//! `optfield_field`, are never taken over.
//!
//! A field may carry the marker `optfield_field` with a configuration of
//! its own, made of `doc` and `attrs`, as in
//! `#[optfield_field(, doc, attrs = add(a))]`: each keyword stands behind a
//! comma, the first one too. What it gives takes the place of `field_doc`
//! and `field_attrs` for that field.
//!
//! # Containers
//!
//! A container is any type with one parameter. The code that is made for
//! merging and converting asks these conversions of it:
//!
//! * `From<W<T>> for Option<T>`, to merge a field that was wrapped;
//! * `From<&W<T>> for Option<()>`, to merge a field that was taken over;
//! * `From<T> for W<T>`, to convert.
//!
//! # Layout
//!
//! [`optfield`] is the whole of it: it reads a configuration with
//! [`args::Args::parse`] and derives with [`generate::generate`], which puts
//! together what [`attrs`], [`fields`], [`merge`] and [`from`] make. Tokens
//! are held as [`tokens::Tokens`]; what is asked of the parser of `syn`
//! stands in [`syntax`].

pub mod args;
pub mod attrs;
pub mod bindings;
pub mod error;
pub mod fields;
pub mod from;
pub mod generate;
pub mod meaning;
pub mod merge;
pub mod schema;
pub mod syntax;
pub mod tokens;

use vstd::prelude::*;
use crate::args::grammar::args_parse;
use crate::args::keyword::ParseError;
use crate::args::Args;
use crate::error::GenError;
use crate::generate::{outcome, Generated};
use crate::schema::RecordSchema;
use crate::tokens::{opened, Tokens};

verus! {

/// Why nothing was derived.
#[derive(Clone, Debug, PartialEq, Eq)]
pub enum Error {
    /// The configuration is not written as its grammar asks.
    Config(ParseError),
    /// A field of the record cannot be derived.
    Record(GenError),
}

/// Reads the configuration `attr` and derives from the record `item` what
/// it asks for. Where the configuration is faulty, or a field cannot be
/// derived, the record is left as it is. Invisible groups in the
/// configuration are opened before it is read.
pub fn optfield(attr: &Tokens, item: &mut RecordSchema) -> (r: Result<Generated, Error>)
    requires
        old(item).wf(),
    ensures
        final(item).wf(),
        match args_parse(opened(attr@)) {
            Err(fault) => r == Err::<Generated, Error>(Error::Config(fault)) && *final(item) == *old(
                item,
            ),
            Ok(args) => match r {
                Ok(made) => outcome(old(item)@, args, final(item)@, Ok(made)),
                Err(Error::Record(fault)) => outcome(old(item)@, args, final(item)@, Err(fault)),
                Err(Error::Config(_)) => false,
            },
        },
{
    let args = match Args::parse(attr) {
        Ok(args) => args,
        Err(fault) => {
            return Err(Error::Config(fault));
        },
    };
    match crate::generate::generate(item, args) {
        Ok(made) => Ok(made),
        Err(fault) => Err(Error::Record(fault)),
    }
}

} // verus!
