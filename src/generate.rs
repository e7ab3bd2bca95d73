use vstd::prelude::*;
use vstd::string::{StrSliceExecFns, StringExecFns};

use crate::entry::Listing;
use crate::fixtures::{fixture_tree, tree_units, FixtureParams, INPUT_TXT};
use crate::outside::{opens_like_string, parse_str_literal, str_literal_value};
use crate::render::{render_units, renders, Harness};
use crate::signature::{describes, pull_function_description, signature_error, FnDescription, FnSignature};
use crate::text::{compile_error_text, concat2, is_compile_error, str_eq, with_err, with_err_text};

verus! {

/// One token of the attribute's arguments, with its text.
pub enum AttrToken {
    Literal(String),
    Ident(String),
    Other(String),
}

pub open spec fn token_text(t: AttrToken) -> Seq<char> {
    match t {
        AttrToken::Literal(s) => s@,
        AttrToken::Ident(s) => s@,
        AttrToken::Other(s) => s@,
    }
}

pub open spec fn path_of_literal(text: Seq<char>, plaintext: bool) -> Result<(bool, Seq<char>), Seq<char>> {
    match str_literal_value(text) {
        Some(v) if opens_like_string(text) => Ok((plaintext, v)),
        _ => Err("Expected literal path in attribute, received: "@ + text),
    }
}

pub open spec fn too_many_tokens() -> Seq<char> {
    "Must provide only a path literal and optionally specify plaintext before"@
}

/// What the attribute's arguments ask for: whether plaintext mode is on and
/// the fixture root relative to the manifest directory; or the message of
/// what is wrong with them.
pub open spec fn attribute_outcome(t: Seq<AttrToken>) -> Result<(bool, Seq<char>), Seq<char>> {
    if t.len() == 0 {
        Err("No path provided in attribute"@)
    } else if t.len() == 1 {
        match t[0] {
            AttrToken::Literal(l) => path_of_literal(l@, false),
            _ => Err(token_text(t[0]) + " must be a path literal"@),
        }
    } else if t.len() == 2 {
        match (t[0], t[1]) {
            (AttrToken::Ident(i), AttrToken::Literal(l)) => if i@ == "plaintext"@ {
                path_of_literal(l@, true)
            } else {
                Err("May only specify plaintext, found "@ + i@)
            },
            _ => Err(too_many_tokens()),
        }
    } else {
        Err(too_many_tokens())
    }
}

fn path_of_literal_exec(text: &String, plaintext: bool) -> (r: Result<(bool, String), String>)
    ensures
        match (r, path_of_literal(text@, plaintext)) {
            (Ok((p, v)), Ok((q, w))) => p == q && v@ == w,
            (Err(m), Err(n)) => m@ == n,
            _ => false,
        },
{
    let opens = if text.as_str().unicode_len() > 0 {
        let c = text.as_str().get_char(0);
        c == '"' || c == 'r'
    } else {
        false
    };
    if !opens {
        return Err(concat2("Expected literal path in attribute, received: ", text.as_str()));
    }
    match parse_str_literal(text.as_str()) {
        Some(v) => Ok((plaintext, v)),
        None => Err(concat2("Expected literal path in attribute, received: ", text.as_str())),
    }
}

/// Reads the attribute's arguments: a path literal, optionally preceded by
/// `plaintext`.
pub fn parse_attribute(tokens: &Vec<AttrToken>) -> (r: Result<(bool, String), String>)
    ensures
        match (r, attribute_outcome(tokens@)) {
            (Ok((p, v)), Ok((q, w))) => p == q && v@ == w,
            (Err(m), Err(n)) => m@ == n,
            _ => false,
        },
{
    if tokens.len() == 0 {
        return Err(String::from_str("No path provided in attribute"));
    }
    if tokens.len() == 1 {
        return match &tokens[0] {
            AttrToken::Literal(l) => path_of_literal_exec(l, false),
            AttrToken::Ident(s) => Err(concat2(s.as_str(), " must be a path literal")),
            AttrToken::Other(s) => Err(concat2(s.as_str(), " must be a path literal")),
        };
    }
    if tokens.len() == 2 {
        if let (AttrToken::Ident(i), AttrToken::Literal(l)) = (&tokens[0], &tokens[1]) {
            if str_eq(i.as_str(), "plaintext") {
                return path_of_literal_exec(l, true);
            } else {
                return Err(concat2("May only specify plaintext, found ", i.as_str()));
            }
        }
    }
    Err(String::from_str("Must provide only a path literal and optionally specify plaintext before"))
}

pub open spec fn name_clash_message() -> Seq<char> {
    "Cannot use that name, as it conflicts with input.txt detection"@
}

pub open spec fn no_manifest_message(e: Seq<char>) -> Seq<char> {
    with_err("No manifest directory env"@, ""@, e)
}

/// The first problem found before the fixture root is read, in the order
/// in which they are looked for.
pub open spec fn plan_error(
    sig: Result<FnSignature, String>,
    item: Seq<char>,
    manifest_dir: Result<String, String>,
    attr: Seq<AttrToken>,
) -> Option<Seq<char>> {
    match signature_error(sig, item) {
        Some(m) => Some(m),
        None => match sig {
            Err(_) => None,
            Ok(s) => if s.name@ + ".txt"@ == INPUT_TXT@ {
                Some(name_clash_message())
            } else {
                match manifest_dir {
                    Err(e) => Some(no_manifest_message(e@)),
                    Ok(_) => match attribute_outcome(attr) {
                        Err(m) => Some(m),
                        Ok(_) => None,
                    },
                }
            },
        },
    }
}

/// What the generation needs once the attribute and the function have been
/// read: the function, its baseline file names, the mode, and where the
/// fixture root is.
pub struct Plan {
    pub desc: FnDescription,
    pub params: FixtureParams,
    pub plaintext: bool,
    pub manifest_dir: String,
    /// The fixture root as written in the attribute, relative to
    /// `manifest_dir`.
    pub path: String,
}

/// Everything that can be decided before the fixture root is read. On a
/// problem the result is the code that reports it as a build error.
pub fn plan_snapshots(
    sig: Result<FnSignature, String>,
    item: &String,
    manifest_dir: Result<String, String>,
    attr: &Vec<AttrToken>,
) -> (r: Result<Plan, String>)
    ensures
        match r {
            Err(c) => plan_error(sig, item@, manifest_dir, attr@) matches Some(m) && is_compile_error(c@, m),
            Ok(p) => plan_error(sig, item@, manifest_dir, attr@) is None && (match (sig, manifest_dir, attribute_outcome(attr@)) {
                (Ok(s), Ok(md), Ok((plain, path))) => {
                    &&& describes(p.desc, s)
                    &&& p.params.expected_file_name@ == s.name@ + ".txt"@
                    &&& p.params.actual_file_name@ == s.name@ + ".actual.txt"@
                    &&& p.plaintext == plain
                    &&& p.path@ == path
                    &&& p.manifest_dir@ == md@
                },
                _ => false,
            }),
        },
{
    let desc = match pull_function_description(sig, item) {
        Err(m) => return Err(compile_error_text(m.as_str())),
        Ok(d) => d,
    };
    let actual_file_name = concat2(desc.name.as_str(), ".actual.txt");
    let expected_file_name = concat2(desc.name.as_str(), ".txt");
    if str_eq(expected_file_name.as_str(), INPUT_TXT) {
        return Err(compile_error_text("Cannot use that name, as it conflicts with input.txt detection"));
    }
    let md = match manifest_dir {
        Err(e) => {
            let m = with_err_text("No manifest directory env", "", e.as_str());
            return Err(compile_error_text(m.as_str()));
        },
        Ok(md) => md,
    };
    let (plaintext, path) = match parse_attribute(attr) {
        Err(m) => return Err(compile_error_text(m.as_str())),
        Ok(x) => x,
    };
    Ok(Plan {
        desc,
        params: FixtureParams { expected_file_name, actual_file_name },
        plaintext,
        manifest_dir: md,
        path,
    })
}

/// The driver function, which runs one test case, followed by the module
/// that holds the generated test tree.
pub open spec fn driver_code(d: FnDescription, h: Harness, body: Seq<char>, item: Seq<char>, outputs: Seq<char>) -> Seq<char> {
    "fn "@ + d.name@ + " "@ + d.generics_lt@ + d.generics_params@ + d.generics_gt@ + " (mut "@ + d.param_name@
        + ": ( impl std::ops::Fn(&mut std::option::Option<"@ + d.param_type@ + ">)"@ + h.input_bounds@
        + ", &'static str, &'static str, )) "@ + d.where_clause@ + " { "@ + item
        + " let (to_call, (provider, expected_file, actual_file)) = (&"@ + d.name@ + ", "@ + d.param_name@
        + "); "@ + body + " } mod "@ + d.name@ + " { "@ + outputs + " }"@
}

pub open spec fn body_of(h: Harness, plaintext: bool) -> Seq<char> {
    if plaintext {
        h.plaintext_body@
    } else {
        h.normal_body@
    }
}

pub open spec fn root_read_error(root: Seq<char>, e: Seq<char>) -> Seq<char> {
    with_err("Failed to read "@, root, e)
}

fn driver_text(d: &FnDescription, h: &Harness, body: &String, item: &String, outputs: &String) -> (r: String)
    ensures
        r@ == driver_code(*d, *h, body@, item@, outputs@),
{
    let mut s = String::from_str("fn ");
    s.append(d.name.as_str());
    s.append(" ");
    s.append(d.generics_lt.as_str());
    s.append(d.generics_params.as_str());
    s.append(d.generics_gt.as_str());
    s.append(" (mut ");
    s.append(d.param_name.as_str());
    s.append(": ( impl std::ops::Fn(&mut std::option::Option<");
    s.append(d.param_type.as_str());
    s.append(">)");
    s.append(h.input_bounds.as_str());
    s.append(", &'static str, &'static str, )) ");
    s.append(d.where_clause.as_str());
    s.append(" { ");
    s.append(item.as_str());
    s.append(" let (to_call, (provider, expected_file, actual_file)) = (&");
    s.append(d.name.as_str());
    s.append(", ");
    s.append(d.param_name.as_str());
    s.append("); ");
    s.append(body.as_str());
    s.append(" } mod ");
    s.append(d.name.as_str());
    s.append(" { ");
    s.append(outputs.as_str());
    s.append(" }");
    s
}

/// Generates the code for the annotated function: the driver and, for every
/// directory under the fixture root `root`, a test case, a module or a
/// build error. A root that could not be read gives one build error.
pub fn snapshot_code(plan: &Plan, h: &Harness, item: &String, root: &String, listing: Listing) -> (r: Result<String, String>)
    ensures
        match listing {
            Err(e) => r matches Err(c) && is_compile_error(c@, root_read_error(root@, e@)),
            Ok(items) => r matches Ok(c) && exists|out: Seq<char>|
                #[trigger] renders(
                    *h,
                    plan.desc.name@,
                    tree_units(items@, root@, plan.params.expected_file_name@, plan.params.actual_file_name@),
                    out,
                ) && c@ == driver_code(plan.desc, *h, body_of(*h, plan.plaintext), item@, out),
        },
{
    let items = match listing {
        Err(e) => {
            let m = with_err_text("Failed to read ", root.as_str(), e.as_str());
            return Err(compile_error_text(m.as_str()));
        },
        Ok(items) => items,
    };
    let units = fixture_tree(items, root, &plan.params);
    let outputs = render_units(h, &plan.desc.name, &units);
    let body = if plan.plaintext {
        &h.plaintext_body
    } else {
        &h.normal_body
    };
    Ok(driver_text(&plan.desc, h, body, item, &outputs))
}

} // verus!
