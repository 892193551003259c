//! The shape of a type that `#[derive(Anomaly)]` is applied to.
//!
//! Only what the derive reads is kept: what `syn` reads of each attribute,
//! whether the type is a struct, an enum or a union, and for an enum the
//! attributes and the field shape of each variant.
use vstd::prelude::*;

use crate::derive::attrs::{category_named, status_named};

verus! {

/// The attribute names the derive reads.
pub open spec fn known_path(p: Seq<char>) -> bool {
    p == "category"@ || p == "status"@ || p == "anomaly"@
}

/// The argument words the derive knows: the category and status names and
/// `transparent`.
pub open spec fn known_word(w: Seq<char>) -> bool {
    category_named(w) is Some || status_named(w) is Some || w == "transparent"@
}

/// `meta` is the list `p(w)`, written with or without a space before the
/// parenthesis (`category(fault)`, `category (fault)`).
pub open spec fn is_list(meta: Seq<char>, p: Seq<char>, w: Seq<char>) -> bool {
    meta == p + "("@ + w + ")"@ || meta == p + " ("@ + w + ")"@
}

/// What `syn` reads of one outer attribute: the identifier its path consists
/// of, if the path is a single identifier, and its arguments parsed as one
/// identifier (the identifier's text, or the parser's message).
///
/// The derive decides from these two readings alone; [`Attr::new`] takes them
/// from the text of the attribute.
pub struct Attr {
    pub path: Option<String>,
    pub arg: Result<String, String>,
}

impl Attr {
    /// Whether the attribute's path is the single identifier `name`.
    pub open spec fn has_path(self, name: Seq<char>) -> bool {
        self.path matches Some(p) && p@ == name
    }

    /// The attribute's argument as characters.
    pub open spec fn argument(self) -> Result<Seq<char>, Seq<char>> {
        match self.arg {
            Ok(s) => Ok(s@),
            Err(e) => Err(e@),
        }
    }

    /// Reads the outer attribute whose meta item is `meta` (`category(fault)`
    /// for `#[category(fault)]`) with `syn`.
    ///
    /// For a list `p(w)` of an attribute name and an argument word that the
    /// derive knows, the readings are `p` and `w`. Of other text nothing is
    /// promised: there what `syn` reads can depend on the lexer it runs on (the
    /// compiler's inside a procedural macro, its own outside), as for identifiers
    /// that are not in normal form, and its messages are its own.
    pub fn new(meta: &str) -> (a: Attr)
        ensures
            forall|p: Seq<char>, w: Seq<char>|
                known_path(p) && known_word(w) && #[trigger] is_list(meta@, p, w) ==> {
                    &&& a.has_path(p)
                    &&& a.argument() == Ok::<Seq<char>, Seq<char>>(w)
                },
    {
        Attr { path: meta_path_ident(meta), arg: meta_ident_argument(meta) }
    }
}

/// The fields of an enum variant.
#[derive(Debug, Clone, Copy, PartialEq, Eq, Structural)]
pub enum Fields {
    /// `Variant`
    Unit,
    /// `Variant(A, B, ...)`, with the number of fields.
    Unnamed(usize),
    /// `Variant { a: A, b: B, ... }`, with the number of fields.
    Named(usize),
}

/// One variant of an enum.
pub struct Variant {
    pub attrs: Vec<Attr>,
    pub fields: Fields,
}

/// What kind of type the derive is applied to.
pub enum Data {
    Struct,
    Enum(Vec<Variant>),
    Union,
}

/// A type that `#[derive(Anomaly)]` is applied to.
pub struct DeriveInput {
    pub attrs: Vec<Attr>,
    pub data: Data,
}

/// Parses `meta` with `syn::parse_str::<syn::Meta>` and returns the text of
/// `syn::Path::get_ident` of its path; text that is no meta item gives `None`.
/// The contract states the result only for a list `p(w)` of an attribute name
/// and an argument word that the derive knows, all ASCII identifiers that are no
/// keywords, which every lexer reads alike: the path is the identifier `p`.
#[verifier::external_body]
fn meta_path_ident(meta: &str) -> (r: Option<String>)
    ensures
        forall|p: Seq<char>, w: Seq<char>|
            known_path(p) && known_word(w) && #[trigger] is_list(meta@, p, w) ==> (r is Some
                && r->0@ == p),
{
    match syn::parse_str::<syn::Meta>(meta) {
        Ok(m) => match m.path().get_ident() {
            Some(i) => Some(i.to_string()),
            None => None,
        },
        Err(_) => None,
    }
}

/// Parses `meta` with `syn::parse_str::<syn::Meta>`, puts it in an outer
/// `syn::Attribute` and calls `syn::Attribute::parse_args::<syn::Ident>` on it;
/// returns the identifier's text or the error's message. The contract states
/// the result only for a list `p(w)` of an attribute name and an argument word
/// that the derive knows, which every lexer reads alike: the argument is the
/// identifier `w`. Messages of other text are not stated.
#[verifier::external_body]
fn meta_ident_argument(meta: &str) -> (r: Result<String, String>)
    ensures
        forall|p: Seq<char>, w: Seq<char>|
            known_path(p) && known_word(w) && #[trigger] is_list(meta@, p, w) ==> (r is Ok
                && r->Ok_0@ == w),
{
    let meta: syn::Meta = match syn::parse_str(meta) {
        Ok(m) => m,
        Err(e) => return Err(e.to_string()),
    };
    let attr = syn::Attribute {
        pound_token: Default::default(),
        style: syn::AttrStyle::Outer,
        bracket_token: Default::default(),
        meta,
    };
    match attr.parse_args::<syn::Ident>() {
        Ok(i) => Ok(i.to_string()),
        Err(e) => Err(e.to_string()),
    }
}

} // verus!
