//! The parts of a function item, as text, and the parser that finds them.
//!
//! `proc_macro2` lexes and prints by itself here, never through the
//! compiler: this crate builds it without its feature `proc-macro`, and
//! for a build that turns the feature on all the same, both calls into it
//! first switch it to its own lexer and printer, for the whole process.
//! So the same text gives the same parts wherever the library runs.

use quote::ToTokens;
use quote::TokenStreamExt;
use vstd::prelude::*;

verus! {

/// A free-standing function, split into the parts that a rewriting keeps
/// apart. Each part is the text of its tokens.
#[derive(Debug, PartialEq, Eq)]
pub struct FnItem {
    /// Every attribute of the function, doc comments included: those in
    /// front of it, then those that open its body.
    pub attrs: String,
    /// The visibility; empty where the function has none.
    pub vis: String,
    /// The signature, from `fn` (or its qualifiers) up to the body.
    pub sig: String,
    /// The function's name as the signature gives it.
    pub name: String,
    /// The body, with its braces and without the attributes that open it.
    pub block: String,
}

/// What a [`FnItem`] holds, as sequences of characters.
pub struct FnText {
    pub attrs: Seq<char>,
    pub vis: Seq<char>,
    pub sig: Seq<char>,
    pub name: Seq<char>,
    pub block: Seq<char>,
}

impl View for FnItem {
    type V = FnText;

    open spec fn view(&self) -> FnText {
        FnText {
            attrs: self.attrs@,
            vis: self.vis@,
            sig: self.sig@,
            name: self.name@,
            block: self.block@,
        }
    }
}

/// The outcome of reading a text as one function item: its parts, or the
/// text of the compile error that reports why it is none.
pub uninterp spec fn fn_syntax(item: Seq<char>) -> Result<FnText, Seq<char>>;

/// The view of a parse outcome.
pub open spec fn outcome_view(r: Result<FnItem, String>) -> Result<FnText, Seq<char>> {
    match r {
        Ok(f) => Ok(f@),
        Err(e) => Err(e@),
    }
}

/// Reads `item` with `syn::parse_str::<syn::ItemFn>`, after
/// `proc_macro2::fallback::force`. On success the parts
/// are the printed tokens of the item's attributes, visibility, signature
/// and block, and the text of the signature's identifier; on failure the
/// printed tokens of `syn::Error::to_compile_error`. Trusted: parsing and
/// printing depend on the text alone, so the outcome is the one that
/// [`fn_syntax`] names for it. Nothing more is claimed of the outcome.
#[verifier::external_body]
pub(crate) fn parse_fn(item: &str) -> (r: Result<FnItem, String>)
    ensures
        outcome_view(r) == fn_syntax(item@),
{
    proc_macro2::fallback::force();
    match syn::parse_str::<syn::ItemFn>(item) {
        Ok(f) => {
            let mut attrs = proc_macro2::TokenStream::new();
            attrs.append_all(&f.attrs);
            Ok(FnItem {
                attrs: attrs.to_string(),
                vis: f.vis.to_token_stream().to_string(),
                sig: f.sig.to_token_stream().to_string(),
                name: f.sig.ident.to_string(),
                block: f.block.to_token_stream().to_string(),
            })
        },
        Err(e) => Err(e.to_compile_error().to_string()),
    }
}

/// The text of the string literal that stands for `text` in source code:
/// quoted, and escaped where a character needs it.
pub uninterp spec fn literal_text(text: Seq<char>) -> Seq<char>;

/// Writes `text` as a string literal with `proc_macro2::Literal::string`,
/// after `proc_macro2::fallback::force`, and prints that token. Trusted: the literal depends on the text alone, so it
/// is the one that [`literal_text`] names for it. Nothing more is claimed
/// of the literal.
#[verifier::external_body]
pub(crate) fn string_literal(text: &str) -> (lit: String)
    ensures
        lit@ == literal_text(text@),
{
    proc_macro2::fallback::force();
    proc_macro2::Literal::string(text).to_string()
}

} // verus!
