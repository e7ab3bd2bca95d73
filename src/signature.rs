use vstd::prelude::*;
use vstd::string::StringExecFns;

use crate::text::{concat2, concat3, str_eq, with_err, with_err_text};

verus! {

/// One parameter of the annotated function, as written.
pub enum ParamShape {
    /// A `self` parameter, with its text.
    Receiver(String),
    /// A typed parameter: the identifier its pattern binds, where the pattern
    /// is a plain identifier, the pattern's text and the type's text.
    Typed { ident: Option<String>, pattern: String, ty: String },
}

/// The parts of the annotated function's signature that the generated code
/// repeats, as text.
pub struct FnSignature {
    pub name: String,
    pub generics_lt: String,
    pub generics_params: String,
    pub generics_gt: String,
    pub where_clause: String,
    pub params: Vec<ParamShape>,
}

/// The annotated function once it is known to take exactly one plainly
/// named parameter.
pub struct FnDescription {
    pub name: String,
    pub generics_lt: String,
    pub generics_params: String,
    pub generics_gt: String,
    pub where_clause: String,
    pub param_name: String,
    pub param_type: String,
}

pub open spec fn param_text(p: ParamShape) -> Seq<char> {
    match p {
        ParamShape::Receiver(t) => t@,
        ParamShape::Typed { ident: _, pattern, ty } => pattern@ + ": "@ + ty@,
    }
}

/// The texts of the parameters, separated by spaces.
pub open spec fn params_text(s: Seq<ParamShape>) -> Seq<char>
    decreases s.len(),
{
    if s.len() == 0 {
        seq![]
    } else if s.len() == 1 {
        param_text(s[0])
    } else {
        params_text(s.drop_last()) + " "@ + param_text(s.last())
    }
}

pub open spec fn not_a_function(item: Seq<char>, e: Seq<char>) -> Seq<char> {
    with_err("Expected attribute must be on a function, received: "@, item + "\n\n"@, e)
}

/// The error message for a signature that cannot be used, or `None` when
/// it can.
pub open spec fn signature_error(sig: Result<FnSignature, String>, item: Seq<char>) -> Option<Seq<char>> {
    match sig {
        Err(e) => Some(not_a_function(item, e@)),
        Ok(s) => if s.params@.len() == 0 {
            Some("No input parameter"@)
        } else if s.params@.len() > 1 {
            Some("Expected one parameter, received "@ + params_text(s.params@))
        } else {
            match s.params@[0] {
                ParamShape::Receiver(t) => Some("Unexpected self in "@ + t@),
                ParamShape::Typed { ident, pattern, ty: _ } => match ident {
                    None => Some("Expected parameter, received "@ + pattern@),
                    Some(i) => if i@ == s.name@ {
                        Some("Function "@ + s.name@ + " may not share name with its parameter"@)
                    } else {
                        None
                    },
                },
            }
        },
    }
}

/// `d` repeats the signature `s` and its one parameter.
pub open spec fn describes(d: FnDescription, s: FnSignature) -> bool {
    &&& d.name@ == s.name@
    &&& d.generics_lt@ == s.generics_lt@
    &&& d.generics_params@ == s.generics_params@
    &&& d.generics_gt@ == s.generics_gt@
    &&& d.where_clause@ == s.where_clause@
    &&& s.params@.len() == 1
    &&& match s.params@[0] {
        ParamShape::Typed { ident: Some(i), pattern: _, ty } => d.param_name@ == i@ && d.param_type@ == ty@,
        _ => false,
    }
}

fn param_text_exec(p: &ParamShape) -> (r: String)
    ensures
        r@ == param_text(*p),
{
    match p {
        ParamShape::Receiver(t) => String::from_str(t.as_str()),
        ParamShape::Typed { ident: _, pattern, ty } => concat3(pattern.as_str(), ": ", ty.as_str()),
    }
}

fn params_text_exec(v: &Vec<ParamShape>) -> (r: String)
    requires
        v@.len() > 0,
    ensures
        r@ == params_text(v@),
{
    let mut s = param_text_exec(&v[0]);
    let mut i: usize = 1;
    assert(v@.take(1) =~= seq![v@[0]]);
    while i < v.len()
        invariant
            1 <= i <= v@.len(),
            s@ == params_text(v@.take(i as int)),
        decreases v@.len() - i,
    {
        assert(v@.take(i + 1).drop_last() =~= v@.take(i as int));
        s.append(" ");
        let t = param_text_exec(&v[i]);
        s.append(t.as_str());
        i = i + 1;
    }
    assert(v@.take(i as int) =~= v@);
    s
}

/// Checks that the annotated function takes exactly one parameter, bound
/// to an identifier that differs from the function's name, and describes
/// it; otherwise returns the message of the first problem found.
pub fn pull_function_description(sig: Result<FnSignature, String>, item: &String) -> (r: Result<FnDescription, String>)
    ensures
        match r {
            Ok(d) => signature_error(sig, item@) is None && (match sig {
                Ok(s) => describes(d, s),
                Err(_) => false,
            }),
            Err(m) => signature_error(sig, item@) == Some(m@),
        },
{
    let s = match sig {
        Err(e) => {
            let subject = concat2(item.as_str(), "\n\n");
            return Err(with_err_text("Expected attribute must be on a function, received: ", subject.as_str(), e.as_str()));
        },
        Ok(s) => s,
    };
    if s.params.len() == 0 {
        return Err(String::from_str("No input parameter"));
    }
    if s.params.len() > 1 {
        let t = params_text_exec(&s.params);
        return Err(concat2("Expected one parameter, received ", t.as_str()));
    }
    let FnSignature { name, generics_lt, generics_params, generics_gt, where_clause, params } = s;
    let mut params = params;
    let p = params.remove(0);
    match p {
        ParamShape::Receiver(t) => Err(concat2("Unexpected self in ", t.as_str())),
        ParamShape::Typed { ident, pattern, ty } => match ident {
            None => Err(concat2("Expected parameter, received ", pattern.as_str())),
            Some(i) => {
                if str_eq(i.as_str(), name.as_str()) {
                    Err(concat3("Function ", name.as_str(), " may not share name with its parameter"))
                } else {
                    Ok(FnDescription {
                        name,
                        generics_lt,
                        generics_params,
                        generics_gt,
                        where_clause,
                        param_name: i,
                        param_type: ty,
                    })
                }
            },
        },
    }
}

} // verus!
