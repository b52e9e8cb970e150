//! The host-neutral JSON value: the type execution results are returned
//! in, its mathematical model, field lookup, and a character-exact JSON
//! renderer used to seed a script's input binding.
//!
//! A floating-point number is carried as its IEEE-754 bit pattern together
//! with the decimal rendering the host produced for it; the library never
//! computes with the number itself, it only classifies the bits.
use vstd::prelude::*;
use crate::text::{spec_dec_signed, i64_to_string, str_eq};

verus! {

/// The mathematical model of a JSON value.
pub enum SpecJson {
    Null,
    Bool(bool),
    Int(int),
    Float { bits: u64, text: Seq<char> },
    Str(Seq<char>),
    Array(Seq<SpecJson>),
    Object(Seq<(Seq<char>, SpecJson)>),
}

/// A JSON value, as passed between the host and the library.
#[derive(Debug, PartialEq)]
pub enum JsonValue {
    Null,
    Bool(bool),
    Int(i64),
    /// A number that is not an integer: its IEEE-754 bit pattern and the
    /// decimal rendering the host produced for exactly those bits.
    Float { bits: u64, text: String },
    Str(String),
    Array(Vec<JsonValue>),
    Object(Vec<(String, JsonValue)>),
}

impl JsonValue {
    /// The mathematical value this datum denotes.
    pub open spec fn model(self) -> SpecJson
        decreases self,
    {
        match self {
            JsonValue::Null => SpecJson::Null,
            JsonValue::Bool(b) => SpecJson::Bool(b),
            JsonValue::Int(i) => SpecJson::Int(i as int),
            JsonValue::Float { bits, text } => SpecJson::Float { bits, text: text@ },
            JsonValue::Str(s) => SpecJson::Str(s@),
            JsonValue::Array(elems) => SpecJson::Array(JsonValue::model_seq(elems@)),
            JsonValue::Object(entries) => SpecJson::Object(JsonValue::model_entries(entries@)),
        }
    }

    /// The models of a sequence of values, element-wise.
    pub open spec fn model_seq(s: Seq<JsonValue>) -> Seq<SpecJson>
        decreases s,
    {
        if s.len() == 0 {
            Seq::<SpecJson>::empty()
        } else {
            JsonValue::model_seq(s.drop_last()).push(s.last().model())
        }
    }

    /// The models of a sequence of keyed entries, element-wise.
    pub open spec fn model_entries(s: Seq<(String, JsonValue)>) -> Seq<(Seq<char>, SpecJson)>
        decreases s,
    {
        if s.len() == 0 {
            Seq::<(Seq<char>, SpecJson)>::empty()
        } else {
            JsonValue::model_entries(s.drop_last()).push((s.last().0@, s.last().1.model()))
        }
    }

    /// `model_seq` maps element-wise.
    pub proof fn lemma_model_seq(s: Seq<JsonValue>)
        ensures
            JsonValue::model_seq(s).len() == s.len(),
            forall|i: int|
                0 <= i < s.len() ==> JsonValue::model_seq(s)[i] == #[trigger] s[i].model(),
        decreases s,
    {
        if s.len() > 0 {
            JsonValue::lemma_model_seq(s.drop_last());
            assert forall|i: int|
                0 <= i < s.len() implies JsonValue::model_seq(s)[i] == #[trigger] s[i].model() by {
                if i < s.len() - 1 {
                    assert(s.drop_last()[i] == s[i]);
                    assert(JsonValue::model_seq(s.drop_last())[i] == s.drop_last()[i].model());
                }
            }
        }
    }

    /// `model_entries` maps element-wise.
    pub proof fn lemma_model_entries(s: Seq<(String, JsonValue)>)
        ensures
            JsonValue::model_entries(s).len() == s.len(),
            forall|i: int|
                0 <= i < s.len() ==> JsonValue::model_entries(s)[i] == (
                #[trigger] s[i].0@,
                s[i].1.model(),
                ),
        decreases s,
    {
        if s.len() > 0 {
            JsonValue::lemma_model_entries(s.drop_last());
            assert forall|i: int|
                0 <= i < s.len() implies JsonValue::model_entries(s)[i] == (
            #[trigger] s[i].0@,
            s[i].1.model(),
            ) by {
                if i < s.len() - 1 {
                    assert(s.drop_last()[i] == s[i]);
                    assert(JsonValue::model_entries(s.drop_last())[i] == (
                        s.drop_last()[i].0@,
                        s.drop_last()[i].1.model(),
                    ));
                }
            }
        }
    }
}

/// The bit pattern encodes a finite number (not an infinity, not a NaN).
pub open spec fn spec_finite_bits(bits: u64) -> bool {
    (bits >> 52) & 0x7ff != 0x7ff
}

/// Classifies an IEEE-754 bit pattern as finite or not.
pub fn is_finite_bits(bits: u64) -> (r: bool)
    ensures
        r == spec_finite_bits(bits),
{
    (bits >> 52) & 0x7ff != 0x7ff
}

/// The first value stored under `key`, searching entries front to back.
pub open spec fn spec_lookup(entries: Seq<(Seq<char>, SpecJson)>, key: Seq<char>) -> Option<
    SpecJson,
>
    decreases entries.len(),
{
    if entries.len() == 0 {
        None
    } else if entries.first().0 == key {
        Some(entries.first().1)
    } else {
        spec_lookup(entries.drop_first(), key)
    }
}

/// The field stored under `key`, when the value is an object that has one.
pub open spec fn spec_field_of(j: SpecJson, key: Seq<char>) -> Option<SpecJson> {
    match j {
        SpecJson::Object(entries) => spec_lookup(entries, key),
        _ => None,
    }
}

/// Looks `key` up in an object value; `None` on any other value and on an
/// object without that key. The first matching entry wins.
#[verifier::loop_isolation(false)]
pub fn get_field<'a>(v: &'a JsonValue, key: &str) -> (r: Option<&'a JsonValue>)
    ensures
        match r {
            Some(f) => spec_field_of(v.model(), key@) == Some(f.model()),
            None => spec_field_of(v.model(), key@) is None,
        },
{
    match v {
        JsonValue::Object(entries) => {
            let ghost ments = JsonValue::model_entries(entries@);
            proof {
                JsonValue::lemma_model_entries(entries@);
                assert(ments.skip(0) =~= ments);
            }
            let mut i: usize = 0;
            while i < entries.len()
                invariant
                    i <= entries@.len(),
                    spec_lookup(ments, key@) == spec_lookup(ments.skip(i as int), key@),
                decreases entries@.len() - i,
            {
                if str_eq(entries[i].0.as_str(), key) {
                    proof {
                        assert(ments.skip(i as int).first() == ments[i as int]);
                    }
                    return Some(&entries[i].1);
                }
                proof {
                    assert(ments.skip(i as int).drop_first() =~= ments.skip(i + 1));
                }
                i = i + 1;
            }
            proof {
                assert(ments.skip(ments.len() as int) =~= Seq::<(Seq<char>, SpecJson)>::empty());
            }
            None
        },
        _ => None,
    }
}

/// What one character contributes to a JSON string literal: quotes and
/// backslashes are escaped, control characters appear as short escapes or
/// as `\u00..`, and everything else stands for itself.
pub open spec fn spec_escape_char(c: char) -> Seq<char> {
    if c == '"' {
        "\\\""@
    } else if c == '\\' {
        "\\\\"@
    } else if c == '\u{8}' {
        "\\b"@
    } else if c == '\t' {
        "\\t"@
    } else if c == '\n' {
        "\\n"@
    } else if c == '\u{c}' {
        "\\f"@
    } else if c == '\r' {
        "\\r"@
    } else if (c as u32) < 32 {
        "\\u00"@ + seq![spec_hex_char(((c as u32) / 16) as nat), spec_hex_char(
            ((c as u32) % 16) as nat,
        )]
    } else {
        seq![c]
    }
}

/// The contents of a JSON string literal for `s`, escapes applied.
pub open spec fn spec_escaped(s: Seq<char>) -> Seq<char>
    decreases s.len(),
{
    if s.len() == 0 {
        Seq::<char>::empty()
    } else {
        spec_escaped(s.drop_last()) + spec_escape_char(s.last())
    }
}

/// The lower-case hexadecimal digit for `d`.
pub open spec fn spec_hex_char(d: nat) -> char {
    if d == 0 {
        '0'
    } else if d == 1 {
        '1'
    } else if d == 2 {
        '2'
    } else if d == 3 {
        '3'
    } else if d == 4 {
        '4'
    } else if d == 5 {
        '5'
    } else if d == 6 {
        '6'
    } else if d == 7 {
        '7'
    } else if d == 8 {
        '8'
    } else if d == 9 {
        '9'
    } else if d == 10 {
        'a'
    } else if d == 11 {
        'b'
    } else if d == 12 {
        'c'
    } else if d == 13 {
        'd'
    } else if d == 14 {
        'e'
    } else {
        'f'
    }
}

/// One hexadecimal digit as a string slice.
fn hex_str(d: u32) -> (r: &'static str)
    requires
        d < 16,
    ensures
        r@ =~= seq![spec_hex_char(d as nat)],
{
    proof {
        reveal_strlit("0");
        reveal_strlit("1");
        reveal_strlit("2");
        reveal_strlit("3");
        reveal_strlit("4");
        reveal_strlit("5");
        reveal_strlit("6");
        reveal_strlit("7");
        reveal_strlit("8");
        reveal_strlit("9");
        reveal_strlit("a");
        reveal_strlit("b");
        reveal_strlit("c");
        reveal_strlit("d");
        reveal_strlit("e");
        reveal_strlit("f");
    }
    match d {
        0u32 => "0",
        1u32 => "1",
        2u32 => "2",
        3u32 => "3",
        4u32 => "4",
        5u32 => "5",
        6u32 => "6",
        7u32 => "7",
        8u32 => "8",
        9u32 => "9",
        10u32 => "a",
        11u32 => "b",
        12u32 => "c",
        13u32 => "d",
        14u32 => "e",
        _ => "f",
    }
}

/// Renders the contents of a JSON string literal for `s`.
pub fn escape_string(s: &str) -> (r: String)
    ensures
        r@ == spec_escaped(s@),
{
    let slen = s.unicode_len();
    let mut out = String::new();
    let mut i: usize = 0;
    while i < slen
        invariant
            slen == s@.len(),
            i <= slen,
            out@ == spec_escaped(s@.take(i as int)),
        decreases slen - i,
    {
        let c = s.get_char(i);
        if c == '"' {
            out.append("\\\"");
        } else if c == '\\' {
            out.append("\\\\");
        } else if c == '\u{8}' {
            out.append("\\b");
        } else if c == '\t' {
            out.append("\\t");
        } else if c == '\n' {
            out.append("\\n");
        } else if c == '\u{c}' {
            out.append("\\f");
        } else if c == '\r' {
            out.append("\\r");
        } else if (c as u32) < 32 {
            out.append("\\u00");
            out.append(hex_str((c as u32) / 16));
            out.append(hex_str((c as u32) % 16));
        } else {
            out.append(s.substring_char(i, i + 1));
            proof {
                assert(s@.subrange(i as int, i + 1) =~= seq![s@[i as int]]);
            }
        }
        proof {
            assert(s@.take(i + 1).drop_last() =~= s@.take(i as int));
            assert(s@.take(i + 1).last() == s@[i as int]);
        }
        i = i + 1;
    }
    proof {
        assert(s@.take(slen as int) =~= s@);
    }
    out
}

/// The JSON text of an array's elements, comma-separated.
pub open spec fn spec_array_items(elems: Seq<SpecJson>) -> Seq<char>
    decreases elems,
{
    if elems.len() == 0 {
        Seq::<char>::empty()
    } else if elems.len() == 1 {
        spec_json_text(elems[0])
    } else {
        spec_array_items(elems.drop_last()) + ","@ + spec_json_text(elems.last())
    }
}

/// The JSON text of an object's entries, comma-separated.
pub open spec fn spec_object_items(entries: Seq<(Seq<char>, SpecJson)>) -> Seq<char>
    decreases entries,
{
    if entries.len() == 0 {
        Seq::<char>::empty()
    } else if entries.len() == 1 {
        spec_entry_text(entries[0])
    } else {
        spec_object_items(entries.drop_last()) + ","@ + spec_entry_text(entries.last())
    }
}

/// The JSON text of one object entry: quoted key, colon, value.
pub open spec fn spec_entry_text(entry: (Seq<char>, SpecJson)) -> Seq<char>
    decreases entry,
{
    "\""@ + spec_escaped(entry.0) + "\":"@ + spec_json_text(entry.1)
}

/// The JSON text of a value: the character sequence a standard JSON
/// serializer emits for it, with a float rendered as the text carried
/// beside its bits.
pub open spec fn spec_json_text(j: SpecJson) -> Seq<char>
    decreases j,
{
    match j {
        SpecJson::Null => "null"@,
        SpecJson::Bool(b) => if b {
            "true"@
        } else {
            "false"@
        },
        SpecJson::Int(i) => spec_dec_signed(i),
        SpecJson::Float { bits, text } => text,
        SpecJson::Str(s) => "\""@ + spec_escaped(s) + "\""@,
        SpecJson::Array(elems) => "["@ + spec_array_items(elems) + "]"@,
        SpecJson::Object(entries) => "{"@ + spec_object_items(entries) + "}"@,
    }
}

/// Renders `v` as JSON text.
#[verifier::loop_isolation(false)]
pub fn json_text(v: &JsonValue) -> (r: String)
    ensures
        r@ == spec_json_text(v.model()),
    decreases *v,
{
    match v {
        JsonValue::Null => String::from_str("null"),
        JsonValue::Bool(b) => {
            if *b {
                String::from_str("true")
            } else {
                String::from_str("false")
            }
        },
        JsonValue::Int(i) => i64_to_string(*i),
        JsonValue::Float { bits, text } => text.clone(),
        JsonValue::Str(s) => {
            let mut out = String::from_str("\"");
            out.append(escape_string(s.as_str()).as_str());
            out.append("\"");
            out
        },
        JsonValue::Array(elems) => {
            let ghost ms = JsonValue::model_seq(elems@);
            proof {
                JsonValue::lemma_model_seq(elems@);
            }
            let mut out = String::from_str("[");
            let mut i: usize = 0;
            while i < elems.len()
                invariant
                    i <= elems@.len(),
                    out@ == "["@ + spec_array_items(ms.take(i as int)),
                decreases elems@.len() - i,
            {
                if i > 0 {
                    out.append(",");
                }
                proof {
                    assert(decreases_to!(*v => *elems));
                    assert(decreases_to!(*elems => elems@));
                    assert(decreases_to!(elems@ => elems@[i as int]));
                    assert(ms[i as int] == elems@[i as int].model());
                }
                out.append(json_text(&elems[i]).as_str());
                proof {
                    assert(ms.take(i + 1).drop_last() =~= ms.take(i as int));
                    assert(ms.take(i + 1).last() == ms[i as int]);
                    assert(out@ =~= "["@ + spec_array_items(ms.take(i + 1)));
                }
                i = i + 1;
            }
            out.append("]");
            proof {
                assert(ms.take(ms.len() as int) =~= ms);
            }
            out
        },
        JsonValue::Object(entries) => {
            let ghost ms = JsonValue::model_entries(entries@);
            proof {
                JsonValue::lemma_model_entries(entries@);
            }
            let mut out = String::from_str("{");
            let mut i: usize = 0;
            while i < entries.len()
                invariant
                    i <= entries@.len(),
                    out@ == "{"@ + spec_object_items(ms.take(i as int)),
                decreases entries@.len() - i,
            {
                if i > 0 {
                    out.append(",");
                }
                out.append("\"");
                out.append(escape_string(entries[i].0.as_str()).as_str());
                out.append("\":");
                proof {
                    assert(decreases_to!(*v => *entries));
                    assert(decreases_to!(*entries => entries@));
                    assert(decreases_to!(entries@ => entries@[i as int]));
                    assert(decreases_to!(entries@[i as int] => entries@[i as int].1));
                    assert(ms[i as int] == (entries@[i as int].0@, entries@[i as int].1.model()));
                }
                out.append(json_text(&entries[i].1).as_str());
                proof {
                    assert(ms.take(i + 1).drop_last() =~= ms.take(i as int));
                    assert(ms.take(i + 1).last() == ms[i as int]);
                    assert(ms[i as int].0 == entries@[i as int].0@);
                    assert(ms[i as int].1 == entries@[i as int].1.model());
                    assert(spec_entry_text(ms[i as int]) == "\""@ + spec_escaped(ms[i as int].0)
                        + "\":"@ + spec_json_text(ms[i as int].1));
                    assert(out@ =~= "{"@ + spec_object_items(ms.take(i + 1)));
                }
                i = i + 1;
            }
            out.append("}");
            proof {
                assert(ms.take(ms.len() as int) =~= ms);
            }
            out
        },
    }
}

} // verus!
