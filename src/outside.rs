use vstd::prelude::*;

verus! {

/// Whether `s` is a Rust identifier, as syn parses one.
pub uninterp spec fn ident_ok(s: Seq<char>) -> bool;

/// The value of the string literal written as `text`, where it is one.
pub uninterp spec fn str_literal_value(text: Seq<char>) -> Option<Seq<char>>;

/// Text that syn can read as a literal without stopping: one that opens
/// like a string or a raw string.
pub open spec fn opens_like_string(text: Seq<char>) -> bool {
    text.len() > 0 && (text[0] == '"' || text[0] == 'r')
}

/// Relies on `syn::parse_str::<syn::Ident>`: whether a file name can name a
/// module or a function (keywords and other tokens are refused).
#[verifier::external_body]
pub(crate) fn is_identifier(s: &str) -> (r: bool)
    ensures
        r == ident_ok(s@),
{
    syn::parse_str::<syn::Ident>(s).is_ok()
}

/// Relies on `proc_macro2::Literal::string`: the text of a string literal
/// whose value is `s`, however the running compiler escapes it.
#[verifier::external_body]
pub(crate) fn string_literal(s: &str) -> (r: String)
    ensures
        str_literal_value(r@) == Some(s@),
{
    proc_macro2::Literal::string(s).to_string()
}

/// Relies on `syn::parse_str::<syn::LitStr>` and `syn::LitStr::value`: the
/// value of a string literal written as `text`. syn stops on literals that
/// open otherwise, so those are left to the caller.
#[verifier::external_body]
pub(crate) fn parse_str_literal(text: &str) -> (r: Option<String>)
    requires
        opens_like_string(text@),
    ensures
        r matches Some(v) ==> str_literal_value(text@) == Some(v@),
        r is None ==> str_literal_value(text@) is None,
{
    match syn::parse_str::<syn::LitStr>(text) {
        Ok(l) => Some(l.value()),
        Err(_) => None,
    }
}

} // verus!
