//! Script-side values and the value codec.
//!
//! A script value is the library's picture of what the embedded evaluator
//! handed back: a closed set of tagged variants. `script_to_json` converts
//! one to a host-neutral JSON value, failing exactly on non-finite
//! numbers; `json_to_script` models how a JSON value is seeded into the
//! evaluator as the script's input binding. Converting a value to script
//! text for the console lives here too.
use vstd::prelude::*;
use crate::json::{JsonValue, SpecJson, spec_finite_bits, is_finite_bits};
use crate::text::{spec_dec_signed, i64_to_string};

verus! {

/// The mathematical model of a script value.
pub enum SpecScript {
    Null,
    Undefined,
    Bool(bool),
    Int(int),
    Float { bits: u64, text: Seq<char> },
    Str(Seq<char>),
    Array(Seq<SpecScript>),
    Object(Seq<(Seq<char>, SpecScript)>),
    Function,
    Unknown,
}

/// A value of the embedded evaluator, as a closed set of tagged variants.
#[derive(Debug, PartialEq)]
pub enum ScriptValue {
    Null,
    Undefined,
    Bool(bool),
    /// The evaluator's integer type.
    Int(i32),
    /// A non-integral number: its IEEE-754 bit pattern and the decimal
    /// rendering the host produced for exactly those bits.
    Float { bits: u64, text: String },
    Str(String),
    Array(Vec<ScriptValue>),
    Object(Vec<(String, ScriptValue)>),
    Function,
    Unknown,
}

impl ScriptValue {
    /// The mathematical value this datum denotes.
    pub open spec fn model(self) -> SpecScript
        decreases self,
    {
        match self {
            ScriptValue::Null => SpecScript::Null,
            ScriptValue::Undefined => SpecScript::Undefined,
            ScriptValue::Bool(b) => SpecScript::Bool(b),
            ScriptValue::Int(i) => SpecScript::Int(i as int),
            ScriptValue::Float { bits, text } => SpecScript::Float { bits, text: text@ },
            ScriptValue::Str(s) => SpecScript::Str(s@),
            ScriptValue::Array(elems) => SpecScript::Array(ScriptValue::model_seq(elems@)),
            ScriptValue::Object(entries) => SpecScript::Object(
                ScriptValue::model_entries(entries@),
            ),
            ScriptValue::Function => SpecScript::Function,
            ScriptValue::Unknown => SpecScript::Unknown,
        }
    }

    /// The models of a sequence of values, element-wise.
    pub open spec fn model_seq(s: Seq<ScriptValue>) -> Seq<SpecScript>
        decreases s,
    {
        if s.len() == 0 {
            Seq::<SpecScript>::empty()
        } else {
            ScriptValue::model_seq(s.drop_last()).push(s.last().model())
        }
    }

    /// The models of a sequence of keyed entries, element-wise.
    pub open spec fn model_entries(s: Seq<(String, ScriptValue)>) -> Seq<(Seq<char>, SpecScript)>
        decreases s,
    {
        if s.len() == 0 {
            Seq::<(Seq<char>, SpecScript)>::empty()
        } else {
            ScriptValue::model_entries(s.drop_last()).push((s.last().0@, s.last().1.model()))
        }
    }

    /// `model_seq` maps element-wise.
    pub proof fn lemma_model_seq(s: Seq<ScriptValue>)
        ensures
            ScriptValue::model_seq(s).len() == s.len(),
            forall|i: int|
                0 <= i < s.len() ==> ScriptValue::model_seq(s)[i] == #[trigger] s[i].model(),
        decreases s,
    {
        if s.len() > 0 {
            ScriptValue::lemma_model_seq(s.drop_last());
            assert forall|i: int|
                0 <= i < s.len() implies ScriptValue::model_seq(s)[i]
                == #[trigger] s[i].model() by {
                if i < s.len() - 1 {
                    assert(s.drop_last()[i] == s[i]);
                    assert(ScriptValue::model_seq(s.drop_last())[i] == s.drop_last()[i].model());
                }
            }
        }
    }

    /// `model_entries` maps element-wise.
    pub proof fn lemma_model_entries(s: Seq<(String, ScriptValue)>)
        ensures
            ScriptValue::model_entries(s).len() == s.len(),
            forall|i: int|
                0 <= i < s.len() ==> ScriptValue::model_entries(s)[i] == (
                #[trigger] s[i].0@,
                s[i].1.model(),
                ),
        decreases s,
    {
        if s.len() > 0 {
            ScriptValue::lemma_model_entries(s.drop_last());
            assert forall|i: int|
                0 <= i < s.len() implies ScriptValue::model_entries(s)[i] == (
            #[trigger] s[i].0@,
            s[i].1.model(),
            ) by {
                if i < s.len() - 1 {
                    assert(s.drop_last()[i] == s[i]);
                    assert(ScriptValue::model_entries(s.drop_last())[i] == (
                        s.drop_last()[i].0@,
                        s.drop_last()[i].1.model(),
                    ));
                }
            }
        }
    }
}

/// Why a script value could not be converted to JSON.
#[derive(Debug, PartialEq, Eq, Structural)]
pub enum CodecError {
    /// The value holds a number with no faithful JSON representation
    /// (an infinity or a NaN).
    NonFiniteNumber,
}

impl CodecError {
    /// The message reported for this failure.
    pub fn message(&self) -> (r: String)
        ensures
            r@ == "Invalid float value"@,
    {
        String::from_str("Invalid float value")
    }
}

/// The JSON value a script value converts to, or `None` where conversion
/// fails: on a non-finite number, anywhere in the structure.
pub open spec fn spec_to_json(s: SpecScript) -> Option<SpecJson>
    decreases s,
{
    match s {
        SpecScript::Null => Some(SpecJson::Null),
        SpecScript::Undefined => Some(SpecJson::Null),
        SpecScript::Bool(b) => Some(SpecJson::Bool(b)),
        SpecScript::Int(i) => Some(SpecJson::Int(i)),
        SpecScript::Float { bits, text } => if spec_finite_bits(bits) {
            Some(SpecJson::Float { bits, text })
        } else {
            None
        },
        SpecScript::Str(t) => Some(SpecJson::Str(t)),
        SpecScript::Array(elems) => match spec_seq_to_json(elems) {
            Some(js) => Some(SpecJson::Array(js)),
            None => None,
        },
        SpecScript::Object(entries) => match spec_entries_to_json(entries) {
            Some(js) => Some(SpecJson::Object(js)),
            None => None,
        },
        SpecScript::Function => Some(SpecJson::Str("[Function]"@)),
        SpecScript::Unknown => Some(SpecJson::Str("[Unknown type]"@)),
    }
}

/// Element-wise conversion of an array's contents; any failing element
/// fails the whole array.
pub open spec fn spec_seq_to_json(elems: Seq<SpecScript>) -> Option<Seq<SpecJson>>
    decreases elems,
{
    if elems.len() == 0 {
        Some(Seq::<SpecJson>::empty())
    } else {
        match spec_seq_to_json(elems.drop_last()) {
            None => None,
            Some(pre) => match spec_to_json(elems.last()) {
                None => None,
                Some(j) => Some(pre.push(j)),
            },
        }
    }
}

/// Entry-wise conversion of an object's contents; any failing entry fails
/// the whole object.
pub open spec fn spec_entries_to_json(entries: Seq<(Seq<char>, SpecScript)>) -> Option<
    Seq<(Seq<char>, SpecJson)>,
>
    decreases entries,
{
    if entries.len() == 0 {
        Some(Seq::<(Seq<char>, SpecJson)>::empty())
    } else {
        match spec_entries_to_json(entries.drop_last()) {
            None => None,
            Some(pre) => match spec_to_json(entries.last().1) {
                None => None,
                Some(j) => Some(pre.push((entries.last().0, j))),
            },
        }
    }
}

/// A failing element anywhere fails the sequence.
proof fn lemma_seq_to_json_none(elems: Seq<SpecScript>, i: int)
    requires
        0 <= i < elems.len(),
        spec_to_json(elems[i]) is None,
    ensures
        spec_seq_to_json(elems) is None,
    decreases elems.len(),
{
    if i == elems.len() - 1 {
    } else {
        assert(elems.drop_last()[i] == elems[i]);
        lemma_seq_to_json_none(elems.drop_last(), i);
    }
}

/// A failing entry anywhere fails the object.
proof fn lemma_entries_to_json_none(entries: Seq<(Seq<char>, SpecScript)>, i: int)
    requires
        0 <= i < entries.len(),
        spec_to_json(entries[i].1) is None,
    ensures
        spec_entries_to_json(entries) is None,
    decreases entries.len(),
{
    if i == entries.len() - 1 {
    } else {
        assert(entries.drop_last()[i] == entries[i]);
        lemma_entries_to_json_none(entries.drop_last(), i);
    }
}

/// Converts a script value to a JSON value: `null` and `undefined` both
/// become JSON null, a function becomes the placeholder string
/// `"[Function]"`, and a non-finite number is the one conversion failure.
#[verifier::loop_isolation(false)]
pub fn script_to_json(v: &ScriptValue) -> (r: Result<JsonValue, CodecError>)
    ensures
        match r {
            Ok(j) => spec_to_json(v.model()) == Some(j.model()),
            Err(_) => spec_to_json(v.model()) is None,
        },
    decreases *v,
{
    match v {
        ScriptValue::Null => Ok(JsonValue::Null),
        ScriptValue::Undefined => Ok(JsonValue::Null),
        ScriptValue::Bool(b) => Ok(JsonValue::Bool(*b)),
        ScriptValue::Int(i) => Ok(JsonValue::Int(*i as i64)),
        ScriptValue::Float { bits, text } => {
            if is_finite_bits(*bits) {
                Ok(JsonValue::Float { bits: *bits, text: text.clone() })
            } else {
                Err(CodecError::NonFiniteNumber)
            }
        },
        ScriptValue::Str(s) => Ok(JsonValue::Str(s.clone())),
        ScriptValue::Array(elems) => {
            let ghost ms = ScriptValue::model_seq(elems@);
            proof {
                ScriptValue::lemma_model_seq(elems@);
            }
            let mut out: Vec<JsonValue> = Vec::new();
            let mut i: usize = 0;
            while i < elems.len()
                invariant
                    i <= elems@.len(),
                    out@.len() == i,
                    spec_seq_to_json(ms.take(i as int)) == Some(JsonValue::model_seq(out@)),
                decreases elems@.len() - i,
            {
                proof {
                    assert(decreases_to!(*v => *elems));
                    assert(decreases_to!(*elems => elems@));
                    assert(decreases_to!(elems@ => elems@[i as int]));
                }
                match script_to_json(&elems[i]) {
                    Ok(j) => {
                        let ghost old_out = out@;
                        out.push(j);
                        proof {
                            assert(out@.drop_last() =~= old_out);
                            assert(ms.take(i + 1).drop_last() =~= ms.take(i as int));
                            assert(ms.take(i + 1).last() == ms[i as int]);
                        }
                    },
                    Err(e) => {
                        proof {
                            lemma_seq_to_json_none(ms, i as int);
                        }
                        return Err(e);
                    },
                }
                i = i + 1;
            }
            proof {
                assert(ms.take(ms.len() as int) =~= ms);
            }
            Ok(JsonValue::Array(out))
        },
        ScriptValue::Object(entries) => {
            let ghost ms = ScriptValue::model_entries(entries@);
            proof {
                ScriptValue::lemma_model_entries(entries@);
            }
            let mut out: Vec<(String, JsonValue)> = Vec::new();
            let mut i: usize = 0;
            while i < entries.len()
                invariant
                    i <= entries@.len(),
                    out@.len() == i,
                    spec_entries_to_json(ms.take(i as int)) == Some(
                        JsonValue::model_entries(out@),
                    ),
                decreases entries@.len() - i,
            {
                proof {
                    assert(decreases_to!(*v => *entries));
                    assert(decreases_to!(*entries => entries@));
                    assert(decreases_to!(entries@ => entries@[i as int]));
                    assert(decreases_to!(entries@[i as int] => entries@[i as int].1));
                }
                match script_to_json(&entries[i].1) {
                    Ok(j) => {
                        let ghost old_out = out@;
                        out.push((entries[i].0.clone(), j));
                        proof {
                            assert(out@.drop_last() =~= old_out);
                            assert(ms.take(i + 1).drop_last() =~= ms.take(i as int));
                            assert(ms.take(i + 1).last() == ms[i as int]);
                        }
                    },
                    Err(e) => {
                        proof {
                            assert(ms[i as int] == (
                                entries@[i as int].0@,
                                entries@[i as int].1.model(),
                            ));
                            lemma_entries_to_json_none(ms, i as int);
                        }
                        return Err(e);
                    },
                }
                i = i + 1;
            }
            proof {
                assert(ms.take(ms.len() as int) =~= ms);
            }
            Ok(JsonValue::Object(out))
        },
        ScriptValue::Function => Ok(JsonValue::Str(String::from_str("[Function]"))),
        ScriptValue::Unknown => Ok(JsonValue::Str(String::from_str("[Unknown type]"))),
    }
}

/// The text one value contributes to a console line: strings stand for
/// themselves, scalars print their literal form, and composite values
/// print a bracketed type tag.
pub open spec fn spec_display(s: SpecScript) -> Seq<char> {
    match s {
        SpecScript::Null => "null"@,
        SpecScript::Undefined => "undefined"@,
        SpecScript::Bool(b) => if b {
            "true"@
        } else {
            "false"@
        },
        SpecScript::Int(i) => spec_dec_signed(i),
        SpecScript::Float { bits, text } => text,
        SpecScript::Str(t) => t,
        SpecScript::Object(_) => "[Object]"@,
        SpecScript::Array(_) => "[Array]"@,
        SpecScript::Function => "[Function]"@,
        SpecScript::Unknown => "[Unknown]"@,
    }
}

/// Renders one value for the console.
pub fn display_value(v: &ScriptValue) -> (r: String)
    ensures
        r@ == spec_display(v.model()),
{
    match v {
        ScriptValue::Null => String::from_str("null"),
        ScriptValue::Undefined => String::from_str("undefined"),
        ScriptValue::Bool(b) => {
            if *b {
                String::from_str("true")
            } else {
                String::from_str("false")
            }
        },
        ScriptValue::Int(i) => i64_to_string(*i as i64),
        ScriptValue::Float { bits, text } => text.clone(),
        ScriptValue::Str(s) => s.clone(),
        ScriptValue::Object(_) => String::from_str("[Object]"),
        ScriptValue::Array(_) => String::from_str("[Array]"),
        ScriptValue::Function => String::from_str("[Function]"),
        ScriptValue::Unknown => String::from_str("[Unknown]"),
    }
}

/// An integer the evaluator's integer type can hold.
pub open spec fn spec_engine_int(i: int) -> bool {
    -2147483648 <= i <= 2147483647
}

/// The script value a JSON value is seeded as, or `None` where the value
/// holds an integer outside the evaluator's integer range.
pub open spec fn spec_from_json(j: SpecJson) -> Option<SpecScript>
    decreases j,
{
    match j {
        SpecJson::Null => Some(SpecScript::Null),
        SpecJson::Bool(b) => Some(SpecScript::Bool(b)),
        SpecJson::Int(i) => if spec_engine_int(i) {
            Some(SpecScript::Int(i))
        } else {
            None
        },
        SpecJson::Float { bits, text } => Some(SpecScript::Float { bits, text }),
        SpecJson::Str(t) => Some(SpecScript::Str(t)),
        SpecJson::Array(elems) => match spec_seq_from_json(elems) {
            Some(ss) => Some(SpecScript::Array(ss)),
            None => None,
        },
        SpecJson::Object(entries) => match spec_entries_from_json(entries) {
            Some(ss) => Some(SpecScript::Object(ss)),
            None => None,
        },
    }
}

/// Element-wise seeding of an array's contents.
pub open spec fn spec_seq_from_json(elems: Seq<SpecJson>) -> Option<Seq<SpecScript>>
    decreases elems,
{
    if elems.len() == 0 {
        Some(Seq::<SpecScript>::empty())
    } else {
        match spec_seq_from_json(elems.drop_last()) {
            None => None,
            Some(pre) => match spec_from_json(elems.last()) {
                None => None,
                Some(s) => Some(pre.push(s)),
            },
        }
    }
}

/// Entry-wise seeding of an object's contents.
pub open spec fn spec_entries_from_json(entries: Seq<(Seq<char>, SpecJson)>) -> Option<
    Seq<(Seq<char>, SpecScript)>,
>
    decreases entries,
{
    if entries.len() == 0 {
        Some(Seq::<(Seq<char>, SpecScript)>::empty())
    } else {
        match spec_entries_from_json(entries.drop_last()) {
            None => None,
            Some(pre) => match spec_from_json(entries.last().1) {
                None => None,
                Some(s) => Some(pre.push((entries.last().0, s))),
            },
        }
    }
}

/// A failing element anywhere fails the sequence.
proof fn lemma_seq_from_json_none(elems: Seq<SpecJson>, i: int)
    requires
        0 <= i < elems.len(),
        spec_from_json(elems[i]) is None,
    ensures
        spec_seq_from_json(elems) is None,
    decreases elems.len(),
{
    if i == elems.len() - 1 {
    } else {
        assert(elems.drop_last()[i] == elems[i]);
        lemma_seq_from_json_none(elems.drop_last(), i);
    }
}

/// A failing entry anywhere fails the object.
proof fn lemma_entries_from_json_none(entries: Seq<(Seq<char>, SpecJson)>, i: int)
    requires
        0 <= i < entries.len(),
        spec_from_json(entries[i].1) is None,
    ensures
        spec_entries_from_json(entries) is None,
    decreases entries.len(),
{
    if i == entries.len() - 1 {
    } else {
        assert(entries.drop_last()[i] == entries[i]);
        lemma_entries_from_json_none(entries.drop_last(), i);
    }
}

/// Builds the script value a JSON value is seeded as; `None` exactly when
/// some integer in the value exceeds the evaluator's integer range.
#[verifier::loop_isolation(false)]
pub fn json_to_script(v: &JsonValue) -> (r: Option<ScriptValue>)
    ensures
        match r {
            Some(s) => spec_from_json(v.model()) == Some(s.model()),
            None => spec_from_json(v.model()) is None,
        },
    decreases *v,
{
    match v {
        JsonValue::Null => Some(ScriptValue::Null),
        JsonValue::Bool(b) => Some(ScriptValue::Bool(*b)),
        JsonValue::Int(i) => {
            if *i >= -2147483648i64 && *i <= 2147483647i64 {
                Some(ScriptValue::Int(*i as i32))
            } else {
                None
            }
        },
        JsonValue::Float { bits, text } => Some(
            ScriptValue::Float { bits: *bits, text: text.clone() },
        ),
        JsonValue::Str(s) => Some(ScriptValue::Str(s.clone())),
        JsonValue::Array(elems) => {
            let ghost ms = JsonValue::model_seq(elems@);
            proof {
                JsonValue::lemma_model_seq(elems@);
            }
            let mut out: Vec<ScriptValue> = Vec::new();
            let mut i: usize = 0;
            while i < elems.len()
                invariant
                    i <= elems@.len(),
                    out@.len() == i,
                    spec_seq_from_json(ms.take(i as int)) == Some(ScriptValue::model_seq(out@)),
                decreases elems@.len() - i,
            {
                proof {
                    assert(decreases_to!(*v => *elems));
                    assert(decreases_to!(*elems => elems@));
                    assert(decreases_to!(elems@ => elems@[i as int]));
                }
                match json_to_script(&elems[i]) {
                    Some(s) => {
                        let ghost old_out = out@;
                        out.push(s);
                        proof {
                            assert(out@.drop_last() =~= old_out);
                            assert(ms.take(i + 1).drop_last() =~= ms.take(i as int));
                            assert(ms.take(i + 1).last() == ms[i as int]);
                        }
                    },
                    None => {
                        proof {
                            lemma_seq_from_json_none(ms, i as int);
                        }
                        return None;
                    },
                }
                i = i + 1;
            }
            proof {
                assert(ms.take(ms.len() as int) =~= ms);
            }
            Some(ScriptValue::Array(out))
        },
        JsonValue::Object(entries) => {
            let ghost ms = JsonValue::model_entries(entries@);
            proof {
                JsonValue::lemma_model_entries(entries@);
            }
            let mut out: Vec<(String, ScriptValue)> = Vec::new();
            let mut i: usize = 0;
            while i < entries.len()
                invariant
                    i <= entries@.len(),
                    out@.len() == i,
                    spec_entries_from_json(ms.take(i as int)) == Some(
                        ScriptValue::model_entries(out@),
                    ),
                decreases entries@.len() - i,
            {
                proof {
                    assert(decreases_to!(*v => *entries));
                    assert(decreases_to!(*entries => entries@));
                    assert(decreases_to!(entries@ => entries@[i as int]));
                    assert(decreases_to!(entries@[i as int] => entries@[i as int].1));
                }
                match json_to_script(&entries[i].1) {
                    Some(s) => {
                        let ghost old_out = out@;
                        out.push((entries[i].0.clone(), s));
                        proof {
                            assert(out@.drop_last() =~= old_out);
                            assert(ms.take(i + 1).drop_last() =~= ms.take(i as int));
                            assert(ms.take(i + 1).last() == ms[i as int]);
                        }
                    },
                    None => {
                        proof {
                            assert(ms[i as int] == (
                                entries@[i as int].0@,
                                entries@[i as int].1.model(),
                            ));
                            lemma_entries_from_json_none(ms, i as int);
                        }
                        return None;
                    },
                }
                i = i + 1;
            }
            proof {
                assert(ms.take(ms.len() as int) =~= ms);
            }
            Some(ScriptValue::Object(out))
        },
    }
}

/// A JSON value the evaluator can hold exactly: every integer fits the
/// evaluator's integer range, and every number is finite.
pub open spec fn spec_engine_safe(j: SpecJson) -> bool
    decreases j,
{
    match j {
        SpecJson::Null => true,
        SpecJson::Bool(_) => true,
        SpecJson::Int(i) => spec_engine_int(i),
        SpecJson::Float { bits, text } => spec_finite_bits(bits),
        SpecJson::Str(_) => true,
        SpecJson::Array(elems) => spec_engine_safe_seq(elems),
        SpecJson::Object(entries) => spec_engine_safe_entries(entries),
    }
}

/// Every element of the sequence is engine-safe.
pub open spec fn spec_engine_safe_seq(elems: Seq<SpecJson>) -> bool
    decreases elems,
{
    if elems.len() == 0 {
        true
    } else {
        spec_engine_safe_seq(elems.drop_last()) && spec_engine_safe(elems.last())
    }
}

/// Every entry of the object is engine-safe.
pub open spec fn spec_engine_safe_entries(entries: Seq<(Seq<char>, SpecJson)>) -> bool
    decreases entries,
{
    if entries.len() == 0 {
        true
    } else {
        spec_engine_safe_entries(entries.drop_last()) && spec_engine_safe(entries.last().1)
    }
}

/// Conversion is deterministic and loss-free on engine-safe values:
/// seeding a JSON value into the evaluator and converting the result back
/// yields the value unchanged.
pub proof fn lemma_codec_round_trip(j: SpecJson)
    requires
        spec_engine_safe(j),
    ensures
        spec_from_json(j) matches Some(s) && spec_to_json(s) == Some(j),
    decreases j,
{
    match j {
        SpecJson::Array(elems) => {
            lemma_codec_round_trip_seq(elems);
        },
        SpecJson::Object(entries) => {
            lemma_codec_round_trip_entries(entries);
        },
        _ => {},
    }
}

/// The round trip, element-wise over an array's contents.
proof fn lemma_codec_round_trip_seq(elems: Seq<SpecJson>)
    requires
        spec_engine_safe_seq(elems),
    ensures
        spec_seq_from_json(elems) matches Some(ss) && spec_seq_to_json(ss) == Some(elems),
    decreases elems,
{
    if elems.len() == 0 {
        assert(spec_seq_to_json(Seq::<SpecScript>::empty()) == Some(Seq::<SpecJson>::empty()));
        assert(elems =~= Seq::<SpecJson>::empty());
    } else {
        lemma_codec_round_trip_seq(elems.drop_last());
        lemma_codec_round_trip(elems.last());
        let pre = spec_seq_from_json(elems.drop_last())->Some_0;
        let sl = spec_from_json(elems.last())->Some_0;
        assert(spec_seq_from_json(elems) == Some(pre.push(sl)));
        assert(pre.push(sl).drop_last() =~= pre);
        assert(pre.push(sl).last() == sl);
        assert(spec_seq_to_json(pre.push(sl)) == Some(
            spec_seq_to_json(pre)->Some_0.push(spec_to_json(sl)->Some_0),
        ));
        assert(elems.drop_last().push(elems.last()) =~= elems);
    }
}

/// The round trip, entry-wise over an object's contents.
proof fn lemma_codec_round_trip_entries(entries: Seq<(Seq<char>, SpecJson)>)
    requires
        spec_engine_safe_entries(entries),
    ensures
        spec_entries_from_json(entries) matches Some(ss) && spec_entries_to_json(ss) == Some(
            entries,
        ),
    decreases entries,
{
    if entries.len() == 0 {
        assert(spec_entries_to_json(Seq::<(Seq<char>, SpecScript)>::empty()) == Some(
            Seq::<(Seq<char>, SpecJson)>::empty(),
        ));
        assert(entries =~= Seq::<(Seq<char>, SpecJson)>::empty());
    } else {
        lemma_codec_round_trip_entries(entries.drop_last());
        lemma_codec_round_trip(entries.last().1);
        let pre = spec_entries_from_json(entries.drop_last())->Some_0;
        let sl = spec_from_json(entries.last().1)->Some_0;
        assert(spec_entries_from_json(entries) == Some(pre.push((entries.last().0, sl))));
        assert(pre.push((entries.last().0, sl)).drop_last() =~= pre);
        assert(pre.push((entries.last().0, sl)).last() == (entries.last().0, sl));
        assert(entries.drop_last().push(entries.last()) =~= entries);
    }
}

} // verus!
