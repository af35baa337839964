use vstd::prelude::*;

use crate::strtool::text_eq;

verus! {

/// One entry of a request's tool catalog: its name (unique within the
/// request), an optional human description, and the JSON-schema document its
/// arguments must conform to.
pub struct Tool {
    pub name: String,
    pub description: Option<String>,
    pub parameters: serde_json::Value,
}

/// The catalog's names, in catalog order.
pub open spec fn catalog_names(tools: Seq<Tool>) -> Seq<Seq<char>> {
    tools.map_values(|t: Tool| t.name@)
}

/// Some tool of the catalog carries this name.
pub open spec fn catalog_has_name(tools: Seq<Tool>, name: Seq<char>) -> bool {
    exists|i: int| 0 <= i < tools.len() && tools[i].name@ == name
}

/// Index of the first catalog entry with the given name, or None.
pub open spec fn spec_find_tool(tools: Seq<Tool>, name: Seq<char>) -> Option<int>
    decreases tools.len(),
{
    if tools.len() == 0 {
        None
    } else if tools[0].name@ == name {
        Some(0)
    } else {
        match spec_find_tool(tools.drop_first(), name) {
            Some(j) => Some(j + 1),
            None => None,
        }
    }
}

/// A position that matches, with no match before it, is the first match.
pub proof fn lemma_find_tool_first(tools: Seq<Tool>, name: Seq<char>, i: int)
    requires
        0 <= i < tools.len(),
        tools[i].name@ == name,
        forall|k: int| 0 <= k < i ==> tools[k].name@ != name,
    ensures
        spec_find_tool(tools, name) == Some(i),
    decreases tools.len(),
{
    if i > 0 {
        assert forall|k: int| 0 <= k < i - 1 implies tools.drop_first()[k].name@ != name by {
            assert(tools.drop_first()[k] == tools[k + 1]);
        }
        assert(tools.drop_first()[i - 1] == tools[i]);
        lemma_find_tool_first(tools.drop_first(), name, i - 1);
    }
}

/// Where no entry matches, the search finds nothing.
pub proof fn lemma_find_tool_none(tools: Seq<Tool>, name: Seq<char>)
    requires
        forall|k: int| 0 <= k < tools.len() ==> tools[k].name@ != name,
    ensures
        spec_find_tool(tools, name) is None,
    decreases tools.len(),
{
    if tools.len() > 0 {
        assert forall|k: int| 0 <= k < tools.drop_first().len() implies tools.drop_first()[k].name@
            != name by {
            assert(tools.drop_first()[k] == tools[k + 1]);
        }
        lemma_find_tool_none(tools.drop_first(), name);
    }
}

/// Index of the first catalog entry with the given name.
pub fn find_tool(tools: &Vec<Tool>, name: &str) -> (r: Option<usize>)
    ensures
        match r {
            Some(i) => {
                &&& i < tools@.len()
                &&& tools@[i as int].name@ == name@
                &&& forall|k: int| 0 <= k < i ==> tools@[k].name@ != name@
                &&& spec_find_tool(tools@, name@) == Some(i as int)
            },
            None => !catalog_has_name(tools@, name@) && spec_find_tool(tools@, name@) is None,
        },
{
    let n = tools.len();
    let mut i: usize = 0;
    while i < n
        invariant
            0 <= i <= n,
            n == tools@.len(),
            forall|k: int| 0 <= k < i ==> tools@[k].name@ != name@,
        decreases n - i,
    {
        if text_eq(tools[i].name.as_str(), name) {
            proof {
                lemma_find_tool_first(tools@, name@, i as int);
            }
            return Some(i);
        }
        i = i + 1;
    }
    proof {
        lemma_find_tool_none(tools@, name@);
    }
    None
}

/// A compiled argument schema. The held jsonschema::Validator is generic over
/// an outside trait, which the verifier refuses to declare, so the whole
/// struct is opaque and every use goes through the trusted functions below.
#[verifier::external_body]
pub struct SchemaCheck {
    inner: jsonschema::Validator,
}

/// Whether a schema document compiles as a JSON Schema, as
/// jsonschema::validator_for decides it; with retrieval off, a function of
/// the document alone.
pub uninterp spec fn schema_compiles(s: serde_json::Value) -> bool;

/// The validator that a compilable schema document compiles to; a function
/// of the document alone.
pub uninterp spec fn compiled_schema(s: serde_json::Value) -> SchemaCheck;

/// The messages that validating an instance yields, one for each way the
/// instance violates the validator's schema; empty exactly when the instance
/// conforms, and a function of validator and instance alone.
pub uninterp spec fn schema_violation_texts(v: SchemaCheck, instance: serde_json::Value) -> Seq<
    Seq<char>,
>;

/// The instance conforms to the validator's schema: validation draws no
/// violation message.
pub open spec fn schema_accepts(v: SchemaCheck, instance: serde_json::Value) -> bool {
    schema_violation_texts(v, instance).len() == 0
}

/// Relies on jsonschema::validator_for: compiles a schema document into a
/// reusable validator exactly when the document is a valid schema, or
/// reports why it is not. The crate is built without its retrieval features,
/// so a schema whose external references would need fetching compiles to Err
/// rather than touching the network or the disk.
#[verifier::external_body]
pub(crate) fn compile_schema(schema: &serde_json::Value) -> (r: Result<SchemaCheck, String>)
    ensures
        r is Ok <==> schema_compiles(*schema),
        r matches Ok(v) ==> v == compiled_schema(*schema),
{
    match jsonschema::validator_for(schema) {
        Ok(v) => Ok(SchemaCheck { inner: v }),
        Err(e) => Err(e.to_string()),
    }
}

/// Relies on jsonschema::Validator::iter_errors: one message for each way the
/// instance violates the schema; the list is empty exactly when the instance
/// conforms.
#[verifier::external_body]
pub(crate) fn schema_violations(v: &SchemaCheck, instance: &serde_json::Value) -> (r: Vec<String>)
    ensures
        r.deep_view() == schema_violation_texts(*v, *instance),
{
    v.inner.iter_errors(instance).map(|e| e.to_string()).collect()
}

/// Compile every tool's argument schema once, in catalog order, so the
/// decision engine can validate candidate arguments by catalog index. The
/// cache is built exactly when every schema of the catalog compiles, with
/// the validator at each index compiled from the tool at that index; a
/// failure names the first tool whose schema does not compile.
pub fn compile_validators(tools: &Vec<Tool>) -> (r: Result<Vec<SchemaCheck>, String>)
    ensures
        r is Ok <==> (forall|i: int|
            0 <= i < tools@.len() ==> schema_compiles(#[trigger] tools@[i].parameters)),
        r matches Ok(v) ==> (v@.len() == tools@.len() && forall|i: int|
            0 <= i < tools@.len() ==> #[trigger] v@[i] == compiled_schema(tools@[i].parameters)),
        r matches Err(m) ==> exists|i: int, d: Seq<char>|
            {
                &&& 0 <= i < tools@.len()
                &&& !schema_compiles(tools@[i].parameters)
                &&& forall|k: int| 0 <= k < i ==> schema_compiles(#[trigger] tools@[k].parameters)
                &&& m@ == "Invalid schema for tool "@ + tools@[i].name@ + ": "@ + d
            },
{
    let n = tools.len();
    let mut out: Vec<SchemaCheck> = Vec::new();
    let mut i: usize = 0;
    while i < n
        invariant
            0 <= i <= n,
            n == tools@.len(),
            out@.len() == i,
            forall|k: int| 0 <= k < i ==> schema_compiles(#[trigger] tools@[k].parameters),
            forall|k: int| 0 <= k < i ==> #[trigger] out@[k] == compiled_schema(
                tools@[k].parameters,
            ),
        decreases n - i,
    {
        match compile_schema(&tools[i].parameters) {
            Ok(v) => {
                out.push(v);
            },
            Err(detail) => {
                let mut msg = String::from_str("Invalid schema for tool ");
                msg.append(tools[i].name.as_str());
                msg.append(": ");
                msg.append(detail.as_str());
                proof {
                    assert(msg@ == "Invalid schema for tool "@ + tools@[i as int].name@ + ": "@
                        + detail@);
                }
                return Err(msg);
            },
        }
        i = i + 1;
    }
    Ok(out)
}

} // verus!
