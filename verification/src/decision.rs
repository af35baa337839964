use vstd::prelude::*;

use crate::jsonio::{json_arguments_value, json_is_object, json_name_field, read_candidate,
    render_value, rendered_json};
use crate::schema::{catalog_has_name, catalog_names, find_tool, schema_accepts,
    schema_violations, spec_find_tool, SchemaCheck, Tool};
use crate::strtool::push_char;

verus! {

/// Why a candidate payload was rejected.
#[derive(Clone, Copy, Debug, PartialEq, Eq)]
pub enum RejectKind {
    NotAnObject,
    MissingName,
    UnknownTool,
    SchemaViolation,
}

/// The decision engine's verdict on one candidate payload.
#[derive(Debug)]
pub enum Verdict {
    Accept { tool_name: String, arguments_text: String },
    Reject { kind: RejectKind, message: String },
}

pub open spec fn quoted(s: Seq<char>) -> Seq<char> {
    seq!['"'] + s + seq!['"']
}

pub open spec fn list_upto(names: Seq<Seq<char>>, n: int) -> Seq<char>
    decreases n,
{
    if n <= 0 {
        Seq::empty()
    } else if n == 1 {
        quoted(names[0])
    } else {
        list_upto(names, n - 1) + ", "@ + quoted(names[n - 1])
    }
}

/// The catalog's names rendered as a bracketed, quoted list.
pub open spec fn spec_name_list(names: Seq<Seq<char>>) -> Seq<char> {
    seq!['['] + list_upto(names, names.len() as int) + seq![']']
}

/// Render the catalog's names for a corrective message, so a rejection for an
/// unknown tool steers the next attempt toward the real names.
pub fn render_name_list(tools: &Vec<Tool>) -> (r: String)
    ensures
        r@ == spec_name_list(catalog_names(tools@)),
{
    let ghost names = catalog_names(tools@);
    let n = tools.len();
    let mut out = String::new();
    push_char(&mut out, '[');
    let mut i: usize = 0;
    while i < n
        invariant
            0 <= i <= n,
            n == tools@.len(),
            names == catalog_names(tools@),
            out@ == seq!['['] + list_upto(names, i as int),
        decreases n - i,
    {
        if i > 0 {
            out.append(", ");
        }
        push_char(&mut out, '"');
        out.append(tools[i].name.as_str());
        push_char(&mut out, '"');
        i = i + 1;
        proof {
            assert(names[i - 1] == tools@[i - 1].name@);
            assert(out@ =~= seq!['['] + list_upto(names, i as int));
        }
    }
    push_char(&mut out, ']');
    proof {
        assert(out@ =~= spec_name_list(names));
    }
    out
}

pub open spec fn join_upto(items: Seq<Seq<char>>, n: int) -> Seq<char>
    decreases n,
{
    if n <= 0 {
        Seq::empty()
    } else if n == 1 {
        items[0]
    } else {
        join_upto(items, n - 1) + "; "@ + items[n - 1]
    }
}

/// The items joined with semicolons.
pub open spec fn spec_join_semi(items: Seq<Seq<char>>) -> Seq<char> {
    join_upto(items, items.len() as int)
}

/// Join validation error messages into the one combined text a corrective
/// message carries.
pub fn join_semicolons(items: &Vec<String>) -> (r: String)
    ensures
        r@ == spec_join_semi(items@.map_values(|s: String| s@)),
{
    let ghost view_items = items@.map_values(|s: String| s@);
    let n = items.len();
    let mut out = String::new();
    let mut i: usize = 0;
    while i < n
        invariant
            0 <= i <= n,
            n == items@.len(),
            view_items == items@.map_values(|s: String| s@),
            out@ == join_upto(view_items, i as int),
        decreases n - i,
    {
        if i > 0 {
            out.append("; ");
        }
        out.append(items[i].as_str());
        i = i + 1;
        proof {
            assert(view_items[i - 1] == items@[i - 1]@);
            assert(out@ =~= join_upto(view_items, i as int));
        }
    }
    out
}

pub open spec fn not_object_msg() -> Seq<char> {
    "Output is not a valid JSON object."@
}

pub open spec fn missing_name_msg() -> Seq<char> {
    "JSON missing 'name' field."@
}

pub open spec fn unknown_tool_msg(name: Seq<char>, names: Seq<Seq<char>>) -> Seq<char> {
    "Tool '"@ + name + "' does not exist. Available tools: "@ + spec_name_list(names)
}

pub open spec fn violation_msg(items: Seq<Seq<char>>) -> Seq<char> {
    "Arguments failed validation: "@ + spec_join_semi(items)
}

/// Decide for a known tool, from the validator's outcome alone: accept on no
/// violations, else reject with the combined violation text.
pub fn decide_for_tool(tool_name: String, arguments_text: String, violations: &Vec<String>) -> (d:
    Verdict)
    ensures
        violations@.len() == 0 ==> (d matches Verdict::Accept { tool_name: n, arguments_text: a }
            && n == tool_name && a == arguments_text),
        violations@.len() > 0 ==> (d matches Verdict::Reject { kind, message }
            && kind == RejectKind::SchemaViolation && message@ == violation_msg(
            violations@.map_values(|s: String| s@),
        )),
{
    if violations.len() == 0 {
        Verdict::Accept { tool_name, arguments_text }
    } else {
        let mut message = String::from_str("Arguments failed validation: ");
        let joined = join_semicolons(violations);
        message.append(joined.as_str());
        Verdict::Reject { kind: RejectKind::SchemaViolation, message }
    }
}

/// The candidate's name field, where one is present.
pub open spec fn opt_name(name: Option<String>) -> Seq<char> {
    match name {
        Some(n) => n@,
        None => Seq::empty(),
    }
}

/// A parsed candidate the decision engine accepts: a JSON object whose name
/// field names a catalog tool, and whose arguments (the empty object where
/// absent) conform to that tool's schema under the validator at the tool's
/// index.
pub open spec fn accepts_candidate(
    v: serde_json::Value,
    tools: Seq<Tool>,
    validators: Seq<SchemaCheck>,
) -> bool {
    &&& json_is_object(v)
    &&& match json_name_field(v) {
        Some(nm) => match spec_find_tool(tools, nm) {
            Some(i) => schema_accepts(validators[i], json_arguments_value(v)),
            None => false,
        },
        None => false,
    }
}

/// Decide one candidate from its fields, given as plain values, together
/// with the validator's outcome. A candidate is accepted when and only when
/// it is an object whose name names a catalog tool and whose arguments drew
/// no violations; otherwise the first failing check names the rejection.
pub fn judge_candidate(
    is_object: bool,
    name: Option<String>,
    arguments_text: String,
    tools: &Vec<Tool>,
    violations: &Vec<String>,
) -> (d: Verdict)
    ensures
        d is Accept <==> (is_object && name is Some && catalog_has_name(tools@, opt_name(name))
            && violations@.len() == 0),
        d matches Verdict::Accept { tool_name, arguments_text: a } ==> (tool_name@ == opt_name(
            name,
        ) && a == arguments_text),
        !is_object ==> (d matches Verdict::Reject { kind, message }
            && kind == RejectKind::NotAnObject && message@ == not_object_msg()),
        (is_object && name is None) ==> (d matches Verdict::Reject { kind, message }
            && kind == RejectKind::MissingName && message@ == missing_name_msg()),
        (is_object && name is Some && !catalog_has_name(tools@, opt_name(name))) ==> (d matches
            Verdict::Reject { kind, message } && kind == RejectKind::UnknownTool && message@
            == unknown_tool_msg(opt_name(name), catalog_names(tools@))),
        (is_object && name is Some && catalog_has_name(tools@, opt_name(name))
            && violations@.len() > 0) ==> (d matches Verdict::Reject { kind, message }
            && kind == RejectKind::SchemaViolation && message@ == violation_msg(
            violations@.map_values(|s: String| s@),
        )),
{
    if !is_object {
        return Verdict::Reject {
            kind: RejectKind::NotAnObject,
            message: String::from_str("Output is not a valid JSON object."),
        };
    }
    match name {
        None => Verdict::Reject {
            kind: RejectKind::MissingName,
            message: String::from_str("JSON missing 'name' field."),
        },
        Some(n) => {
            match find_tool(tools, n.as_str()) {
                None => {
                    let mut message = String::from_str("Tool '");
                    message.append(n.as_str());
                    message.append("' does not exist. Available tools: ");
                    let listed = render_name_list(tools);
                    message.append(listed.as_str());
                    Verdict::Reject { kind: RejectKind::UnknownTool, message }
                },
                Some(_) => decide_for_tool(n, arguments_text, violations),
            }
        },
    }
}

/// Judge one parsed candidate payload against the catalog: read its fields
/// out as plain values, validate the arguments of a known tool (an absent
/// arguments field defaults to the empty object), and let `judge_candidate`
/// decide. Acceptance happens exactly on the candidates `accepts_candidate`
/// describes, and an accepted verdict carries the candidate's own name and
/// the serialization of its arguments value.
pub fn evaluate_candidate(
    parsed: &serde_json::Value,
    tools: &Vec<Tool>,
    validators: &Vec<SchemaCheck>,
) -> (d: Verdict)
    requires
        validators@.len() == tools@.len(),
    ensures
        d is Accept <==> accepts_candidate(*parsed, tools@, validators@),
        d matches Verdict::Accept { tool_name, arguments_text } ==> (json_name_field(*parsed)
            == Some(tool_name@) && arguments_text@ == rendered_json(json_arguments_value(*parsed))
            && catalog_has_name(tools@, tool_name@)),
        d matches Verdict::Reject { kind, message } ==> {
            &&& kind == RejectKind::NotAnObject ==> message@ == not_object_msg()
            &&& kind == RejectKind::MissingName ==> message@ == missing_name_msg()
            &&& kind == RejectKind::UnknownTool ==> exists|nm: Seq<char>|
                !catalog_has_name(tools@, nm) && message@ == unknown_tool_msg(
                    nm,
                    catalog_names(tools@),
                )
            &&& kind == RejectKind::SchemaViolation ==> exists|vs: Seq<Seq<char>>|
                message@ == violation_msg(vs)
        },
{
    let (is_object, name_opt, args) = read_candidate(parsed);
    let mut violations: Vec<String> = Vec::new();
    let mut arguments_text = String::from_str("{}");
    if is_object {
        match &name_opt {
            Some(n) => {
                match find_tool(tools, n.as_str()) {
                    Some(idx) => {
                        violations = schema_violations(&validators[idx], &args);
                        arguments_text = match render_value(&args) {
                            Ok(t) => t,
                            Err(m) => m,
                        };
                    },
                    None => {},
                }
            },
            None => {},
        }
    }
    judge_candidate(is_object, name_opt, arguments_text, tools, &violations)
}

} // verus!
