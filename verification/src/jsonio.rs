use vstd::prelude::*;

verus! {

#[verifier::external_type_specification]
#[verifier::external_body]
pub struct ExValue(serde_json::Value);

/// Whether `s` is strictly valid JSON text, as serde_json's parser decides
/// it; the outcome depends on the characters alone.
pub uninterp spec fn strict_json(s: Seq<char>) -> bool;

/// Whether `s` parses under the relaxed json5 grammar (unquoted keys,
/// single-quoted strings, trailing commas); the outcome depends on the
/// characters alone.
pub uninterp spec fn lenient_json(s: Seq<char>) -> bool;

/// The value that strictly valid JSON text parses to; a function of the
/// characters alone.
pub uninterp spec fn strict_value(s: Seq<char>) -> serde_json::Value;

/// Relies on serde_json::from_str::<Value>: returns Ok exactly on strictly
/// valid JSON text, and Err carrying the parser's message otherwise. The
/// parser carries its own recursion limit, so deep nesting yields Err.
#[verifier::external_body]
pub(crate) fn parse_strict_text(s: &str) -> (r: Result<serde_json::Value, String>)
    ensures
        r is Ok <==> strict_json(s@),
        r matches Ok(v) ==> v == strict_value(s@),
{
    serde_json::from_str::<serde_json::Value>(s).map_err(|e| e.to_string())
}

/// Upper bound on opening brackets admitted to the lenient parser.
pub const LENIENT_NESTING_LIMIT: usize = 128;

/// The number of `{` and `[` characters among the first `n` of `s`.
pub open spec fn open_brackets(s: Seq<char>, n: int) -> int
    decreases n,
{
    if n <= 0 {
        0
    } else if s[n - 1] == '{' || s[n - 1] == '[' {
        open_brackets(s, n - 1) + 1
    } else {
        open_brackets(s, n - 1)
    }
}

/// The number of `{` and `[` characters in `s`. The lenient parser recurses
/// once per array or object it enters, and each entry consumes a distinct
/// opening bracket of the text, so this count bounds its recursion depth.
pub open spec fn spec_open_brackets(s: Seq<char>) -> int {
    open_brackets(s, s.len() as int)
}

/// Whether the text is shallow enough for the lenient parser.
pub fn lenient_depth_ok(s: &str) -> (r: bool)
    ensures
        r == (spec_open_brackets(s@) <= LENIENT_NESTING_LIMIT as int),
{
    let n = s.unicode_len();
    let mut count: usize = 0;
    let mut i: usize = 0;
    while i < n
        invariant
            0 <= i <= n,
            n == s@.len(),
            count <= i,
            count == open_brackets(s@, i as int),
        decreases n - i,
    {
        let c = s.get_char(i);
        if c == '{' || c == '[' {
            count = count + 1;
        }
        i = i + 1;
    }
    count <= LENIENT_NESTING_LIMIT
}

/// The value that text the json5 grammar accepts parses to; a function of
/// the characters alone.
pub uninterp spec fn lenient_value(s: Seq<char>) -> serde_json::Value;

/// Relies on json5::from_str::<Value>: returns Ok exactly on text the json5
/// grammar accepts, and Err carrying the parser's message otherwise. Its
/// recursive-descent deserializer has no depth guard of its own and descends
/// once per nested array or object, so callers must bound the input's
/// opening-bracket count to keep the stack finite.
#[verifier::external_body]
pub(crate) fn parse_lenient_text(s: &str) -> (r: Result<serde_json::Value, String>)
    requires
        spec_open_brackets(s@) <= LENIENT_NESTING_LIMIT as int,
    ensures
        r is Ok <==> lenient_json(s@),
        r matches Ok(v) ==> v == lenient_value(s@),
{
    json5::from_str::<serde_json::Value>(s).map_err(|e| e.to_string())
}

/// Whether the value is a JSON object, as serde_json::Value::is_object
/// answers it.
pub uninterp spec fn json_is_object(v: serde_json::Value) -> bool;

/// The value's "name" field where that field is a JSON string, and None
/// where it is absent or of another type.
pub uninterp spec fn json_name_field(v: serde_json::Value) -> Option<Seq<char>>;

/// The value's "arguments" field, or the empty JSON object where that field
/// is absent: an absent arguments field is not itself an error.
pub uninterp spec fn json_arguments_value(v: serde_json::Value) -> serde_json::Value;

/// The fields of a candidate payload that the decision engine reads, handed
/// out as plain values: whether the value is a JSON object, its "name" field
/// when that field is a string, and its "arguments" field's value, defaulted
/// to the empty object where absent. Relies on serde_json::Value::is_object,
/// Value::get and Value::as_str; the body only tells variants apart and
/// moves fields out, and every read is a function of the value alone.
#[verifier::external_body]
pub(crate) fn read_candidate(v: &serde_json::Value) -> (r: (bool, Option<String>,
    serde_json::Value))
    ensures
        r.0 == json_is_object(*v),
        r.1.deep_view() == json_name_field(*v),
        r.2 == json_arguments_value(*v),
{
    let is_object = v.is_object();
    let name = v.get("name").and_then(|n| n.as_str()).map(|s| s.to_string());
    let arguments = v.get("arguments").cloned();
    let arguments = arguments.unwrap_or_else(|| serde_json::Value::Object(serde_json::Map::new()));
    (is_object, name, arguments)
}

/// The compact JSON rendering of a value, as serde_json::to_string writes
/// it; a function of the value alone.
pub uninterp spec fn rendered_json(v: serde_json::Value) -> Seq<char>;

/// The indented JSON rendering of a value, as serde_json::to_string_pretty
/// writes it; a function of the value alone.
pub uninterp spec fn rendered_json_pretty(v: serde_json::Value) -> Seq<char>;

/// Relies on serde_json::to_string: the compact rendering of a JSON value.
/// Serializing can fail only through a failing Serialize impl or a map with
/// non-string keys, as the crate documents; a Value has neither, so the call
/// succeeds.
#[verifier::external_body]
pub(crate) fn render_value(v: &serde_json::Value) -> (r: Result<String, String>)
    ensures
        r is Ok,
        r matches Ok(t) ==> t@ == rendered_json(*v),
{
    serde_json::to_string(v).map_err(|e| e.to_string())
}

/// Relies on serde_json::to_string_pretty: the indented rendering of a JSON
/// value. It succeeds on a Value for the same reason as the compact form.
#[verifier::external_body]
pub(crate) fn render_value_pretty(v: &serde_json::Value) -> (r: Result<String, String>)
    ensures
        r is Ok,
        r matches Ok(t) ==> t@ == rendered_json_pretty(*v),
{
    serde_json::to_string_pretty(v).map_err(|e| e.to_string())
}

} // verus!
