//! Token streams and their mathematical model.
//!
//! A stream is held as the `proc_macro2` value, so that spans survive, and is
//! spoken of in contracts as a sequence of [`Token`]s.

use proc_macro2::TokenStream;
use vstd::prelude::*;
use vstd::string::StringExecFns;
use crate::syntax::string_literal;

verus! {

/// The bracket kind of a group.
#[derive(Clone, Copy, Debug, PartialEq, Eq, Structural)]
pub enum Delimiter {
    Parenthesis,
    Brace,
    Bracket,
    /// The unwritten delimiter that a macro leaves around a substituted fragment.
    Invisible,
}

/// One token tree, as contracts see it: spans are not part of the model.
pub ghost enum Token {
    /// An identifier, by its text (a raw identifier keeps its `r#`).
    Ident(Seq<char>),
    /// A punctuation character, and whether it is joined to the next one.
    Punct(char, bool),
    /// A literal, by its source text.
    Literal(Seq<char>),
    /// A delimited group and the tokens inside it.
    Group(Delimiter, Seq<Token>),
}

/// What the grammar reads of one token tree.
#[derive(Clone, Debug)]
pub enum Shape {
    Ident(String),
    Punct(char),
    Literal(String),
    Group(Delimiter, TokenStream),
}

impl Shape {
    /// Whether this is what reading `token` gives.
    pub open spec fn describes(&self, token: Token) -> bool {
        match (*self, token) {
            (Shape::Ident(text), Token::Ident(t)) => text@ == t,
            (Shape::Punct(ch), Token::Punct(c, _)) => ch == c,
            (Shape::Literal(text), Token::Literal(t)) => text@ == t,
            (Shape::Group(delimiter, inner), Token::Group(d, i)) => delimiter == d && stream_view(
                inner,
            ) == i,
            _ => false,
        }
    }
}

/// Whether two strings hold the same characters.
pub fn str_eq(a: &str, b: &str) -> (r: bool)
    ensures
        r == (a@ == b@),
{
    String::from_str(a) == String::from_str(b)
}

/// The characters of a word that can always be made into an identifier.
pub open spec fn is_word_char(c: char) -> bool {
    ('a' <= c && c <= 'z') || ('A' <= c && c <= 'Z') || ('0' <= c && c <= '9') || c == '_'
}

/// An ASCII word that is an identifier or a keyword: letters, digits and
/// underscores, not starting with a digit, and more than a lone underscore.
pub open spec fn is_word(s: Seq<char>) -> bool {
    &&& s.len() > 0
    &&& !('0' <= s[0] && s[0] <= '9')
    &&& !(s.len() == 1 && s[0] == '_')
    &&& forall|i: int| 0 <= i < s.len() ==> is_word_char(#[trigger] s[i])
}

/// The characters that a punctuation token can hold.
pub open spec fn is_punct_char(c: char) -> bool {
    c == '!' || c == '#' || c == '$' || c == '%' || c == '&' || c == '\'' || c == '*' || c == '+'
        || c == ',' || c == '-' || c == '.' || c == '/' || c == ':' || c == ';' || c == '<' || c
        == '=' || c == '>' || c == '?' || c == '@' || c == '^' || c == '|' || c == '~'
}

/// The decimal digit of a number below ten.
pub open spec fn digit(n: nat) -> char
    recommends
        n < 10,
{
    if n == 0 {
        '0'
    } else if n == 1 {
        '1'
    } else if n == 2 {
        '2'
    } else if n == 3 {
        '3'
    } else if n == 4 {
        '4'
    } else if n == 5 {
        '5'
    } else if n == 6 {
        '6'
    } else if n == 7 {
        '7'
    } else if n == 8 {
        '8'
    } else {
        '9'
    }
}

/// A number written in decimal, without sign, suffix or leading zero.
pub open spec fn decimal(n: nat) -> Seq<char>
    decreases n,
{
    if n < 10 {
        seq![digit(n)]
    } else {
        decimal(n / 10).push(digit(n % 10))
    }
}

/// The token stream of `proc_macro2`, made known so that it can stand in
/// fields and signatures. Nothing is seen of what is inside it.
#[verifier::external_type_specification]
#[verifier::external_body]
pub struct ExTokenStream(TokenStream);

/// The token trees that a stream holds, in order.
pub uninterp spec fn stream_view(stream: TokenStream) -> Seq<Token>;

/// `TokenStream::clone`: the copy holds the same token trees.
pub assume_specification[ <TokenStream as Clone>::clone ](stream: &TokenStream) -> (r: TokenStream)
    ensures
        stream_view(r) == stream_view(*stream),
;

/// `TokenStream::new`: a stream without tokens.
#[verifier::external_body]
pub(crate) fn empty_stream() -> (r: TokenStream)
    ensures
        stream_view(r) == Seq::<Token>::empty(),
{
    TokenStream::new()
}

/// `TokenStream::extend` with the trees of another stream: they are appended
/// in their order.
#[verifier::external_body]
pub(crate) fn append_stream(stream: &mut TokenStream, more: TokenStream)
    ensures
        stream_view(*final(stream)) == stream_view(*old(stream)) + stream_view(more),
{
    stream.extend(more);
}

/// `Ident::new` at the call site and `TokenStreamExt::append`: one identifier
/// with the given text is appended. `Ident::new` panics on text that is
/// neither identifier nor keyword; an ASCII word is always one of the two.
#[verifier::external_body]
pub(crate) fn append_ident(stream: &mut TokenStream, word: &str)
    requires
        is_word(word@),
    ensures
        stream_view(*final(stream)) == stream_view(*old(stream)).push(Token::Ident(word@)),
{
    let ident = proc_macro2::Ident::new(word, proc_macro2::Span::call_site());
    quote::TokenStreamExt::append(stream, ident);
}

/// `Punct::new` and `TokenStreamExt::append`: one punctuation token is
/// appended, joined to what follows if `joint`. `Punct::new` panics on a
/// character outside the punctuation set.
#[verifier::external_body]
pub(crate) fn append_punct(stream: &mut TokenStream, ch: char, joint: bool)
    requires
        is_punct_char(ch),
    ensures
        stream_view(*final(stream)) == stream_view(*old(stream)).push(Token::Punct(ch, joint)),
{
    let spacing = if joint { proc_macro2::Spacing::Joint } else { proc_macro2::Spacing::Alone };
    quote::TokenStreamExt::append(stream, proc_macro2::Punct::new(ch, spacing));
}

/// `Group::new` and `TokenStreamExt::append`: one group with the given
/// delimiter around the given stream is appended.
#[verifier::external_body]
pub(crate) fn append_group(stream: &mut TokenStream, delimiter: Delimiter, inner: TokenStream)
    ensures
        stream_view(*final(stream)) == stream_view(*old(stream)).push(
            Token::Group(delimiter, stream_view(inner)),
        ),
{
    let outside = match delimiter {
        Delimiter::Parenthesis => proc_macro2::Delimiter::Parenthesis,
        Delimiter::Brace => proc_macro2::Delimiter::Brace,
        Delimiter::Bracket => proc_macro2::Delimiter::Bracket,
        Delimiter::Invisible => proc_macro2::Delimiter::None,
    };
    quote::TokenStreamExt::append(stream, proc_macro2::Group::new(outside, inner));
}

/// `syn::Index::from` and its `ToTokens::to_tokens`: one unsuffixed integer
/// literal is appended, the index in decimal. `Index::from` panics from
/// `u32::MAX` on.
#[verifier::external_body]
pub(crate) fn append_index(stream: &mut TokenStream, index: usize)
    requires
        index < u32::MAX,
    ensures
        stream_view(*final(stream)) == stream_view(*old(stream)).push(
            Token::Literal(decimal(index as nat)),
        ),
{
    quote::ToTokens::to_tokens(&syn::Index::from(index), stream);
}

/// `Literal::string` and `TokenStreamExt::append`: one literal is appended.
/// It is the string quoted and escaped. How it is spelled the running mode
/// of `proc_macro2` chooses, so the spelling is left open; its value is the
/// string, which is what `LitStr::value` of `syn` gets by undoing the
/// escapes.
#[verifier::external_body]
pub(crate) fn append_string(stream: &mut TokenStream, text: &str)
    ensures
        stream_view(*final(stream)).len() == stream_view(*old(stream)).len() + 1,
        stream_view(*final(stream)).drop_last() == stream_view(*old(stream)),
        stream_view(*final(stream)).last() is Literal,
        string_literal(seq![stream_view(*final(stream)).last()]) == Some(text@),
{
    quote::TokenStreamExt::append(stream, proc_macro2::Literal::string(text));
}

/// `TokenStream::into_iter`, and of each tree what its accessors give: the
/// text of an identifier or literal (`to_string`), the character of a
/// punctuation token (`as_char`), the delimiter and stream of a group.
#[verifier::external_body]
pub(crate) fn shapes_of(stream: &TokenStream) -> (r: Vec<Shape>)
    ensures
        r@.len() == stream_view(*stream).len(),
        forall|i: int| 0 <= i < r@.len() ==> (#[trigger] r@[i]).describes(stream_view(*stream)[i]),
{
    stream.clone().into_iter().map(|tree| match tree {
        proc_macro2::TokenTree::Ident(ident) => Shape::Ident(ident.to_string()),
        proc_macro2::TokenTree::Punct(punct) => Shape::Punct(punct.as_char()),
        proc_macro2::TokenTree::Literal(literal) => Shape::Literal(literal.to_string()),
        proc_macro2::TokenTree::Group(group) => Shape::Group(match group.delimiter() {
            proc_macro2::Delimiter::Parenthesis => Delimiter::Parenthesis,
            proc_macro2::Delimiter::Brace => Delimiter::Brace,
            proc_macro2::Delimiter::Bracket => Delimiter::Bracket,
            proc_macro2::Delimiter::None => Delimiter::Invisible,
        }, group.stream()),
    }).collect()
}

/// `TokenStream::into_iter` with `take`, `skip` and `collect`: the token
/// trees from position `from` up to, not including, position `to`.
#[verifier::external_body]
pub(crate) fn slice_of(stream: &TokenStream, from: usize, to: usize) -> (r: TokenStream)
    requires
        from <= to <= stream_view(*stream).len(),
    ensures
        stream_view(r) == stream_view(*stream).subrange(from as int, to as int),
{
    stream.clone().into_iter().take(to).skip(from).collect()
}

/// A token stream with its model as view.
#[derive(Clone, Debug)]
pub struct Tokens(pub TokenStream);

impl View for Tokens {
    type V = Seq<Token>;

    open spec fn view(&self) -> Seq<Token> {
        stream_view(self.0)
    }
}

impl Tokens {
    /// An empty stream.
    pub fn new() -> (r: Tokens)
        ensures
            r@ == Seq::<Token>::empty(),
    {
        Tokens(empty_stream())
    }

    /// A stream of the same tokens.
    pub fn duplicate(&self) -> (r: Tokens)
        ensures
            r@ == self@,
    {
        Tokens(self.0.clone())
    }

    /// What the grammar reads of each token tree, in order.
    pub fn shapes(&self) -> (r: Vec<Shape>)
        ensures
            r@.len() == self@.len(),
            forall|i: int| 0 <= i < r@.len() ==> (#[trigger] r@[i]).describes(self@[i]),
    {
        shapes_of(&self.0)
    }

    /// The token trees from `from` up to `to`.
    pub fn slice(&self, from: usize, to: usize) -> (r: Tokens)
        requires
            from <= to <= self@.len(),
        ensures
            r@ == self@.subrange(from as int, to as int),
    {
        Tokens(slice_of(&self.0, from, to))
    }

    /// Appends the tokens of this stream to `out`, with the invisible groups
    /// among them opened.
    pub fn open_into(&self, out: &mut Tokens)
        ensures
            final(out)@ == old(out)@ + opened(self@),
        decreases self@,
    {
        let shapes = self.shapes();
        let mut i: usize = 0;
        assert(self@.take(0) =~= Seq::empty());
        assert(old(out)@ + Seq::<Token>::empty() =~= old(out)@);
        while i < shapes.len()
            invariant
                i <= shapes@.len(),
                described(shapes@, self@),
                out@ == old(out)@ + opened(self@.take(i as int)),
            decreases shapes@.len() - i,
        {
            let ghost before = opened(self@.take(i as int));
            proof {
                assert(self@.take(i + 1).drop_last() =~= self@.take(i as int));
                assert(self@.take(i + 1).last() == self@[i as int]);
                assert(shapes@[i as int].describes(self@[i as int]));
            }
            match &shapes[i] {
                Shape::Group(Delimiter::Invisible, inner) => {
                    let inside = Tokens(inner.clone());
                    proof {
                        assert(self@[i as int] == Token::Group(Delimiter::Invisible, inside@));
                        assert(decreases_to!(self@ => self@[i as int]));
                        assert(decreases_to!(self@[i as int] => inside@));
                    }
                    inside.open_into(out);
                    assert(out@ =~= old(out)@ + (before + opened(inside@)));
                },
                _ => {
                    out.push_all(&self.slice(i, i + 1));
                    assert(self@.subrange(i as int, i + 1) =~= seq![self@[i as int]]);
                    assert(out@ =~= old(out)@ + before.push(self@[i as int]));
                },
            }
            i += 1;
        }
        assert(self@.take(i as int) =~= self@);
    }

    /// The stream with the invisible groups in it opened.
    pub fn opened(&self) -> (r: Tokens)
        ensures
            r@ == opened(self@),
    {
        let mut out = Tokens::new();
        self.open_into(&mut out);
        assert(Seq::<Token>::empty() + opened(self@) =~= opened(self@));
        out
    }

    /// Appends an identifier or keyword.
    pub(crate) fn push_word(&mut self, word: &str)
        requires
            is_word(word@),
        ensures
            final(self)@ == old(self)@.push(Token::Ident(word@)),
    {
        append_ident(&mut self.0, word);
    }

    /// Appends a punctuation character that stands alone.
    pub(crate) fn push_punct(&mut self, ch: char)
        requires
            is_punct_char(ch),
        ensures
            final(self)@ == old(self)@.push(Token::Punct(ch, false)),
    {
        append_punct(&mut self.0, ch, false);
    }

    /// Appends a punctuation character joined to the one that follows.
    pub(crate) fn push_joint(&mut self, ch: char)
        requires
            is_punct_char(ch),
        ensures
            final(self)@ == old(self)@.push(Token::Punct(ch, true)),
    {
        append_punct(&mut self.0, ch, true);
    }

    /// Appends a group around `inner`.
    pub(crate) fn push_group(&mut self, delimiter: Delimiter, inner: Tokens)
        ensures
            final(self)@ == old(self)@.push(Token::Group(delimiter, inner@)),
    {
        append_group(&mut self.0, delimiter, inner.0);
    }

    /// Appends the number `index` as a literal without suffix.
    pub(crate) fn push_index(&mut self, index: usize)
        requires
            index < u32::MAX,
        ensures
            final(self)@ == old(self)@.push(Token::Literal(decimal(index as nat))),
    {
        append_index(&mut self.0, index);
    }

    /// Appends a string literal whose value is `text`.
    pub(crate) fn push_string(&mut self, text: &str)
        ensures
            final(self)@.len() == old(self)@.len() + 1,
            final(self)@.drop_last() == old(self)@,
            final(self)@.last() is Literal,
            string_literal(seq![final(self)@.last()]) == Some(text@),
    {
        append_string(&mut self.0, text);
    }

    /// Appends the tokens of `more`.
    pub(crate) fn push_all(&mut self, more: &Tokens)
        ensures
            final(self)@ == old(self)@ + more@,
    {
        append_stream(&mut self.0, more.0.clone());
    }
}

/// The identifier or keyword that `text` spells.
pub open spec fn ident(text: &str) -> Token {
    Token::Ident(text@)
}

/// The punctuation character `ch`, standing alone.
pub open spec fn punct(ch: char) -> Token {
    Token::Punct(ch, false)
}

/// The punctuation character `ch`, joined to the one after it.
pub open spec fn joint(ch: char) -> Token {
    Token::Punct(ch, true)
}

/// The tokens `inner` in parentheses.
pub open spec fn parens(inner: Seq<Token>) -> Token {
    Token::Group(Delimiter::Parenthesis, inner)
}

/// The tokens `inner` in braces.
pub open spec fn braces(inner: Seq<Token>) -> Token {
    Token::Group(Delimiter::Brace, inner)
}

/// The tokens `inner` in square brackets.
pub open spec fn brackets(inner: Seq<Token>) -> Token {
    Token::Group(Delimiter::Bracket, inner)
}

/// The tokens with the invisible groups among them opened: in the place of
/// such a group stand the tokens inside it, opened in the same way. An
/// invisible group is what a macro leaves around a fragment that it puts in;
/// the fragment reads as if it had been written in its place.
pub open spec fn opened(tokens: Seq<Token>) -> Seq<Token>
    decreases tokens,
{
    if tokens.len() == 0 {
        Seq::empty()
    } else {
        match tokens.last() {
            Token::Group(Delimiter::Invisible, inner) => opened(tokens.drop_last()) + opened(
                inner,
            ),
            other => opened(tokens.drop_last()).push(other),
        }
    }
}

/// Whether each shape is what reading the token at its place gives.
pub open spec fn described(shapes: Seq<Shape>, tokens: Seq<Token>) -> bool {
    &&& shapes.len() == tokens.len()
    &&& forall|i: int| 0 <= i < shapes.len() ==> (#[trigger] shapes[i]).describes(tokens[i])
}

/// Whether the token at `pos` is the identifier `text`.
pub open spec fn is_ident(tokens: Seq<Token>, pos: int, text: Seq<char>) -> bool {
    0 <= pos < tokens.len() && tokens[pos] == Token::Ident(text)
}

/// Whether the token at `pos` is the punctuation character `ch`, joined or not.
pub open spec fn is_punct(tokens: Seq<Token>, pos: int, ch: char) -> bool {
    0 <= pos < tokens.len() && tokens[pos] is Punct && tokens[pos]->Punct_0 == ch
}

/// Whether the token at `pos` is a group with a written delimiter.
pub open spec fn is_group(tokens: Seq<Token>, pos: int) -> bool {
    0 <= pos < tokens.len() && tokens[pos] is Group && tokens[pos]->Group_0 != Delimiter::Invisible
}

/// A stream laid out for reading by position.
#[derive(Clone, Debug)]
pub struct TokenList {
    pub stream: Tokens,
    pub shapes: Vec<Shape>,
}

impl View for TokenList {
    type V = Seq<Token>;

    open spec fn view(&self) -> Seq<Token> {
        self.stream@
    }
}

impl TokenList {
    /// The shapes are those of the stream.
    pub open spec fn wf(&self) -> bool {
        described(self.shapes@, self.stream@)
    }

    /// Lays a stream out.
    pub fn new(stream: Tokens) -> (r: TokenList)
        ensures
            r.wf(),
            r@ == stream@,
    {
        let shapes = stream.shapes();
        TokenList { stream, shapes }
    }

    /// The number of token trees.
    pub fn len(&self) -> (r: usize)
        requires
            self.wf(),
        ensures
            r == self@.len(),
    {
        self.shapes.len()
    }

    /// Whether the token at `pos` is the identifier `word`.
    pub fn is_word(&self, pos: usize, word: &str) -> (r: bool)
        requires
            self.wf(),
        ensures
            r == is_ident(self@, pos as int, word@),
    {
        if pos < self.shapes.len() {
            match &self.shapes[pos] {
                Shape::Ident(text) => String::from_str(word) == *text,
                _ => false,
            }
        } else {
            false
        }
    }

    /// The text of the identifier at `pos`, if one stands there.
    pub fn word_at(&self, pos: usize) -> (r: Option<String>)
        requires
            self.wf(),
        ensures
            match r {
                Some(text) => is_ident(self@, pos as int, text@),
                None => !(0 <= pos < self@.len() && self@[pos as int] is Ident),
            },
    {
        if pos < self.shapes.len() {
            match &self.shapes[pos] {
                Shape::Ident(text) => Some(text.clone()),
                _ => None,
            }
        } else {
            None
        }
    }

    /// Whether the token at `pos` is the punctuation character `ch`.
    pub fn is_punct(&self, pos: usize, ch: char) -> (r: bool)
        requires
            self.wf(),
        ensures
            r == is_punct(self@, pos as int, ch),
    {
        if pos < self.shapes.len() {
            match &self.shapes[pos] {
                Shape::Punct(c) => *c == ch,
                _ => false,
            }
        } else {
            false
        }
    }

    /// The delimiter and content of the group at `pos`, if one stands there.
    pub fn group_at(&self, pos: usize) -> (r: Option<(Delimiter, Tokens)>)
        requires
            self.wf(),
        ensures
            match r {
                Some((delimiter, inner)) => 0 <= pos < self@.len() && self@[pos as int]
                    == Token::Group(delimiter, inner@),
                None => !(0 <= pos < self@.len() && self@[pos as int] is Group),
            },
    {
        if pos < self.shapes.len() {
            match &self.shapes[pos] {
                Shape::Group(delimiter, inner) => Some((*delimiter, Tokens(inner.clone()))),
                _ => None,
            }
        } else {
            None
        }
    }

    /// The token trees from `from` up to `to`.
    pub fn slice(&self, from: usize, to: usize) -> (r: Tokens)
        requires
            self.wf(),
            from <= to <= self@.len(),
        ensures
            r@ == self@.subrange(from as int, to as int),
    {
        self.stream.slice(from, to)
    }
}

} // verus!
