//! How a parameter value of an operation is shown in the properties panel:
//! numbers and strings as their text, arrays as their items between
//! brackets, separated by `, `, and anything else as its JSON text.
use vstd::prelude::*;
use vstd::string::*;

verus! {

/// A JSON value as the properties panel shows it. Numbers and the other
/// values that are not strings or arrays (booleans, null, objects) carry
/// the JSON text serde_json writes for them.
pub enum JsonShown {
    Number(String),
    Text(String),
    Array(Vec<JsonShown>),
    Other(String),
}

/// The text shown for `v`.
pub open spec fn spec_shown(v: JsonShown) -> Seq<char>
    decreases v, 1nat,
{
    match v {
        JsonShown::Number(t) => t@,
        JsonShown::Text(s) => s@,
        JsonShown::Array(items) => "["@ + spec_shown_items(items@, items@.len() as int) + "]"@,
        JsonShown::Other(t) => t@,
    }
}

/// The texts shown for the first `n` of `items`, separated by `, `.
pub open spec fn spec_shown_items(items: Seq<JsonShown>, n: int) -> Seq<char>
    decreases items, 0nat, n,
{
    if n <= 0 || n > items.len() {
        Seq::empty()
    } else if n == 1 {
        spec_shown(items[0])
    } else {
        spec_shown_items(items, n - 1) + ", "@ + spec_shown(items[n - 1])
    }
}

/// The text shown for `v`.
pub fn format_json_value(v: &JsonShown) -> (r: String)
    ensures
        r@ == spec_shown(*v),
    decreases v,
{
    match v {
        JsonShown::Number(t) => t.clone(),
        JsonShown::Text(s) => s.clone(),
        JsonShown::Other(t) => t.clone(),
        JsonShown::Array(items) => {
            let mut out = String::from_str("[");
            let mut i: usize = 0;
            assert(decreases_to!(*v => *items));
            while i < items.len()
                invariant
                    i <= items@.len(),
                    decreases_to!(*v => *items),
                    out@ == "["@ + spec_shown_items(items@, i as int),
                decreases items@.len() - i,
            {
                proof {
                    assert(decreases_to!(*items => items@));
                    assert(decreases_to!(items@ => items@[i as int]));
                    assert(decreases_to!(*v => items@[i as int]));
                }
                let part = format_json_value(&items[i]);
                if i > 0 {
                    out.append(", ");
                }
                out.append(part.as_str());
                proof {
                    reveal_strlit("[");
                    reveal_strlit(", ");
                    if i == 0 {
                        assert(out@ =~= "["@ + spec_shown_items(items@, 1));
                    } else {
                        assert(out@ =~= "["@ + spec_shown_items(items@, i + 1));
                    }
                }
                i = i + 1;
            }
            out.append("]");
            out
        },
    }
}

} // verus!
