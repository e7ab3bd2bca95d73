use vstd::prelude::*;
use vstd::string::{StrSliceExecFns, StringExecFns};

use crate::outside::{str_literal_value, string_literal};

verus! {

/// Whether two strings hold the same characters.
pub fn str_eq(a: &str, b: &str) -> (r: bool)
    ensures
        r == (a@ == b@),
{
    let n = a.unicode_len();
    if n != b.unicode_len() {
        return false;
    }
    let mut i: usize = 0;
    while i < n
        invariant
            n == a@.len(),
            n == b@.len(),
            i <= n,
            forall|k: int| 0 <= k < i ==> a@[k] == b@[k],
        decreases n - i,
    {
        if a.get_char(i) != b.get_char(i) {
            return false;
        }
        i = i + 1;
    }
    assert(a@ =~= b@);
    true
}

/// `prefix`, `subject`, then the error text in the form `: Err(..)`.
pub open spec fn with_err(prefix: Seq<char>, subject: Seq<char>, err: Seq<char>) -> Seq<char> {
    prefix + subject + ": Err("@ + err + ")"@
}

pub fn with_err_text(prefix: &str, subject: &str, err: &str) -> (r: String)
    ensures
        r@ == with_err(prefix@, subject@, err@),
{
    let mut s = String::from_str(prefix);
    s.append(subject);
    s.append(": Err(");
    s.append(err);
    s.append(")");
    s
}

/// The concatenation of two texts.
pub fn concat2(a: &str, b: &str) -> (r: String)
    ensures
        r@ == a@ + b@,
{
    let mut s = String::from_str(a);
    s.append(b);
    s
}

/// The concatenation of three texts.
pub fn concat3(a: &str, b: &str, c: &str) -> (r: String)
    ensures
        r@ == a@ + b@ + c@,
{
    let mut s = String::from_str(a);
    s.append(b);
    s.append(c);
    s
}

/// `code` stops the build with the message `m`: an invocation of
/// `compile_error!` on a string literal whose value is `m`.
pub open spec fn is_compile_error(code: Seq<char>, m: Seq<char>) -> bool {
    exists|l: Seq<char>| #[trigger] str_literal_value(l) == Some(m) && code == "::core::compile_error! { "@ + l + " }"@
}

/// The code that stops the build with the message `m`.
pub fn compile_error_text(m: &str) -> (r: String)
    ensures
        is_compile_error(r@, m@),
{
    let l = string_literal(m);
    let mut s = String::from_str("::core::compile_error! { ");
    s.append(l.as_str());
    s.append(" }");
    assert(str_literal_value(l@) == Some(m@) && s@ == "::core::compile_error! { "@ + l@ + " }"@);
    s
}

} // verus!
