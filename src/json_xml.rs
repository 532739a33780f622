//! A channel list's JSON as XML: a JSON value of the library's own, with
//! each number held as the text it was written with, and its rendering as
//! nested elements.
use vstd::prelude::*;

verus! {

/// A JSON value. A number is held as its text, so that no precision is
/// lost; an object keeps its members in order.
#[derive(Debug)]
pub enum JsonValue {
    Null,
    Bool(bool),
    Number(String),
    Str(String),
    Array(Vec<JsonValue>),
    Object(Vec<(String, JsonValue)>),
}

/// The XML of a JSON value: nothing for null, the text of a boolean, number
/// or string, one `array_elem` element per array item, and an `object`
/// element holding one element per member, named by its key.
pub open spec fn xml_of(v: JsonValue) -> Seq<char>
    decreases v, 0nat,
{
    match v {
        JsonValue::Null => Seq::empty(),
        JsonValue::Bool(b) => if b {
            "true"@
        } else {
            "false"@
        },
        JsonValue::Number(n) => n@,
        JsonValue::Str(s) => s@,
        JsonValue::Array(items) => xml_items(items, items.len() as nat),
        JsonValue::Object(members) => "<object>"@ + xml_members(members, members.len() as nat)
            + "</object>"@,
    }
}

/// The XML of the first `n` items of an array.
pub open spec fn xml_items(items: Vec<JsonValue>, n: nat) -> Seq<char>
    decreases items, n,
{
    if n == 0 || n > items.len() {
        Seq::empty()
    } else {
        xml_items(items, (n - 1) as nat) + "<array_elem>"@ + xml_of(items[n - 1])
            + "</array_elem>"@
    }
}

/// The XML of the first `n` members of an object.
pub open spec fn xml_members(members: Vec<(String, JsonValue)>, n: nat) -> Seq<char>
    decreases members, n,
{
    if n == 0 || n > members.len() {
        Seq::empty()
    } else {
        let m = members[n - 1];
        xml_members(members, (n - 1) as nat) + "<"@ + m.0@ + ">"@ + xml_of(m.1) + "</"@ + m.0@
            + ">"@
    }
}

/// Appends the XML of `v`.
pub fn push_xml(out: &mut String, v: &JsonValue)
    ensures
        final(out)@ == old(out)@ + xml_of(*v),
    decreases v,
{
    match v {
        JsonValue::Null => {
            proof {
                assert(old(out)@ + Seq::<char>::empty() =~= old(out)@);
            }
        },
        JsonValue::Bool(b) => {
            if *b {
                out.append("true");
            } else {
                out.append("false");
            }
        },
        JsonValue::Number(n) => out.append(n.as_str()),
        JsonValue::Str(s) => out.append(s.as_str()),
        JsonValue::Array(items) => {
            let ghost start = out@;
            let mut i: usize = 0;
            proof {
                assert(start + xml_items(*items, 0) =~= start);
            }
            while i < items.len()
                invariant
                    *v == JsonValue::Array(*items),
                    0 <= i <= items.len(),
                    out@ == start + xml_items(*items, i as nat),
                decreases items.len() - i,
            {
                out.append("<array_elem>");
                proof {
                    assert(decreases_to!(*v => (*v)->Array_0));
                    assert(decreases_to!(*items => items[i as int]));
                }
                push_xml(out, &items[i]);
                out.append("</array_elem>");
                proof {
                    assert(xml_items(*items, (i + 1) as nat) == xml_items(*items, i as nat)
                        + "<array_elem>"@ + xml_of(items[i as int]) + "</array_elem>"@);
                    assert(out@ =~= start + xml_items(*items, (i + 1) as nat));
                }
                i = i + 1;
            }
        },
        JsonValue::Object(members) => {
            let ghost start = out@;
            out.append("<object>");
            let mut i: usize = 0;
            proof {
                assert(start + "<object>"@ + xml_members(*members, 0) =~= start + "<object>"@);
            }
            while i < members.len()
                invariant
                    *v == JsonValue::Object(*members),
                    0 <= i <= members.len(),
                    out@ == start + "<object>"@ + xml_members(*members, i as nat),
                decreases members.len() - i,
            {
                let key = &members[i].0;
                out.append("<");
                out.append(key.as_str());
                out.append(">");
                proof {
                    assert(decreases_to!(*v => (*v)->Object_0));
                    assert(decreases_to!(*members => members[i as int]));
                    assert(decreases_to!(members[i as int] => members[i as int].1));
                }
                push_xml(out, &members[i].1);
                out.append("</");
                out.append(key.as_str());
                out.append(">");
                proof {
                    let m = members[i as int];
                    assert(xml_members(*members, (i + 1) as nat) == xml_members(*members, i as nat)
                        + "<"@ + m.0@ + ">"@ + xml_of(m.1) + "</"@ + m.0@ + ">"@);
                    assert(out@ =~= start + "<object>"@ + xml_members(*members, (i + 1) as nat));
                }
                i = i + 1;
            }
            out.append("</object>");
            proof {
                assert(out@ =~= start + xml_of(*v));
            }
        },
    }
}

/// The XML of a JSON value.
pub fn build_xml(json: &JsonValue) -> (r: String)
    ensures
        r@ == xml_of(*json),
{
    let mut r = String::new();
    push_xml(&mut r, json);
    proof {
        assert(Seq::<char>::empty() + xml_of(*json) =~= xml_of(*json));
    }
    r
}

} // verus!
