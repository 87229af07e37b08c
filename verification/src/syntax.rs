//! What the `syn` parser says of a token stream.
//!
//! Each function here hands a stream to one parser of `syn` and gives back
//! plain values. What the parser answers is a function of the tokens, too
//! long to write down, so each answer has a name that contracts speak of.

use proc_macro2::TokenStream;
use vstd::prelude::*;
use crate::tokens::{stream_view, Token};

verus! {

/// Whether the tokens are exactly one identifier that is no reserved word.
pub uninterp spec fn identifier_ok(tokens: Seq<Token>) -> bool;

/// Whether the tokens are exactly one visibility qualifier.
pub uninterp spec fn visibility_ok(tokens: Seq<Token>) -> bool;

/// The value of the tokens if they are exactly one string literal.
pub uninterp spec fn string_literal(tokens: Seq<Token>) -> Option<Seq<char>>;

/// The attribute content that the tokens start with, and the tokens after it.
pub uninterp spec fn meta_split(tokens: Seq<Token>) -> Option<(Seq<Token>, Seq<Token>)>;

/// The tokens read as the whole content of one attribute: the name, if its
/// path is a single identifier, or the parser's complaint.
pub uninterp spec fn meta_parse(tokens: Seq<Token>) -> Result<Option<Seq<char>>, Seq<char>>;

/// The tokens read as one type: the first segment of its path, if it is a
/// path, or the parser's complaint.
pub uninterp spec fn type_parse(tokens: Seq<Token>) -> Result<Option<Seq<char>>, Seq<char>>;

/// `syn::parse2::<syn::Ident>`: whether it accepts the stream.
#[verifier::external_body]
pub(crate) fn is_identifier(stream: &TokenStream) -> (r: bool)
    ensures
        r == identifier_ok(stream_view(*stream)),
{
    syn::parse2::<syn::Ident>(stream.clone()).is_ok()
}

/// `syn::parse2::<syn::Visibility>`: whether it accepts the stream.
#[verifier::external_body]
pub(crate) fn is_visibility(stream: &TokenStream) -> (r: bool)
    ensures
        r == visibility_ok(stream_view(*stream)),
{
    syn::parse2::<syn::Visibility>(stream.clone()).is_ok()
}

/// `syn::parse2::<syn::LitStr>` and `LitStr::value`: the unescaped value of
/// the string literal that the stream is, if it is one.
#[verifier::external_body]
pub(crate) fn string_value(stream: &TokenStream) -> (r: Option<String>)
    ensures
        match r {
            Some(text) => string_literal(stream_view(*stream)) == Some(text@),
            None => string_literal(stream_view(*stream)) is None,
        },
{
    syn::parse2::<syn::LitStr>(stream.clone()).ok().map(|literal| literal.value())
}

/// `syn::Meta::parse` on the front of the stream, through `Parser::parse2`:
/// the tokens of the attribute content that was read, and the rest of the
/// stream; nothing if the parser fails.
#[verifier::external_body]
pub(crate) fn split_meta(stream: &TokenStream) -> (r: Option<(TokenStream, TokenStream)>)
    ensures
        match r {
            Some((meta, rest)) => meta_split(stream_view(*stream)) == Some(
                (stream_view(meta), stream_view(rest)),
            ),
            None => meta_split(stream_view(*stream)) is None,
        },
{
    let front = |input: syn::parse::ParseStream| -> syn::Result<(TokenStream, TokenStream)> {
        let meta: syn::Meta = input.parse()?;
        let rest: TokenStream = input.parse()?;
        Ok((quote::ToTokens::into_token_stream(meta), rest))
    };
    syn::parse::Parser::parse2(front, stream.clone()).ok()
}

/// `syn::parse2::<syn::Meta>`, then `Meta::path` and `Path::get_ident`: the
/// name of the attribute, if its path is one identifier; the text of the
/// error if the stream is no attribute content.
#[verifier::external_body]
pub(crate) fn parse_meta(stream: &TokenStream) -> (r: Result<Option<String>, String>)
    ensures
        match r {
            Ok(Some(name)) => meta_parse(stream_view(*stream)) == Ok::<
                Option<Seq<char>>,
                Seq<char>,
            >(Some(name@)),
            Ok(None) => meta_parse(stream_view(*stream)) == Ok::<Option<Seq<char>>, Seq<char>>(
                None,
            ),
            Err(fault) => meta_parse(stream_view(*stream)) == Err::<Option<Seq<char>>, Seq<char>>(
                fault@,
            ),
        },
{
    match syn::parse2::<syn::Meta>(stream.clone()) {
        Ok(meta) => Ok(meta.path().get_ident().map(|ident| ident.to_string())),
        Err(error) => Err(error.to_string()),
    }
}

/// `syn::parse2::<syn::Type>`: for a path type the identifier of the first
/// segment of its path, for another type nothing; the text of the error if
/// the stream is no type.
#[verifier::external_body]
pub(crate) fn parse_type(stream: &TokenStream) -> (r: Result<Option<String>, String>)
    ensures
        match r {
            Ok(Some(head)) => type_parse(stream_view(*stream)) == Ok::<
                Option<Seq<char>>,
                Seq<char>,
            >(Some(head@)),
            Ok(None) => type_parse(stream_view(*stream)) == Ok::<Option<Seq<char>>, Seq<char>>(
                None,
            ),
            Err(fault) => type_parse(stream_view(*stream)) == Err::<Option<Seq<char>>, Seq<char>>(
                fault@,
            ),
        },
{
    match syn::parse2::<syn::Type>(stream.clone()) {
        Ok(syn::Type::Path(path)) => Ok(path.path.segments.first().map(|s| s.ident.to_string())),
        Ok(_) => Ok(None),
        Err(error) => Err(error.to_string()),
    }
}

} // verus!
