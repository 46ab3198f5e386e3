//! Structural translation of a GBLN value into a JSON value.
//!
//! The translation is total and recursive: every integer variant maps to a
//! JSON number with the same value, a finite float maps to the JSON number
//! it carries, a non-finite float maps to JSON null, strings, booleans and
//! null map directly, and objects and arrays map entry-wise with key order
//! and element order preserved exactly.
use vstd::prelude::*;
use crate::value::GblnModel;
use crate::value::GblnValue;

verus! {

broadcast use vstd::std_specs::vec::axiom_vec_index_decreases, vstd::seq::axiom_seq_index_decreases, vstd::seq::axiom_seq_subrange_decreases;

/// A JSON number: an integer of either sign, or a finite float carried as
/// its decimal text.
pub enum JsonNum {
    I(i64),
    U(u64),
    F(String),
}

/// A JSON value.
pub enum JsonValue {
    Num(JsonNum),
    Str(String),
    Bool(bool),
    Null,
    Object(Vec<(String, JsonValue)>),
    Array(Vec<JsonValue>),
}

/// The mathematical model of a JSON number: an integer by its value, a
/// float by its decimal text.
pub enum JsonNumModel {
    Int(int),
    Float(Seq<char>),
}

/// The mathematical model of a `JsonValue`.
pub enum JsonModel {
    Num(JsonNumModel),
    Str(Seq<char>),
    Bool(bool),
    Null,
    Object(Seq<(Seq<char>, JsonModel)>),
    Array(Seq<JsonModel>),
}

impl JsonNum {
    /// The model of this number.
    pub open spec fn model(self) -> JsonNumModel {
        match self {
            JsonNum::I(n) => JsonNumModel::Int(n as int),
            JsonNum::U(n) => JsonNumModel::Int(n as int),
            JsonNum::F(x) => JsonNumModel::Float(x@),
        }
    }
}

impl JsonValue {
    /// The model of this value.
    pub open spec fn model(self) -> JsonModel
        decreases self,
    {
        match self {
            JsonValue::Num(n) => JsonModel::Num(n.model()),
            JsonValue::Str(s) => JsonModel::Str(s@),
            JsonValue::Bool(b) => JsonModel::Bool(b),
            JsonValue::Null => JsonModel::Null,
            JsonValue::Object(ps) => JsonModel::Object(Self::entry_models(ps@)),
            JsonValue::Array(xs) => JsonModel::Array(Self::elem_models(xs@)),
        }
    }

    /// The models of an object's entries, in order.
    pub open spec fn entry_models(ps: Seq<(String, JsonValue)>) -> Seq<(Seq<char>, JsonModel)>
        decreases ps,
    {
        if ps.len() == 0 {
            Seq::empty()
        } else {
            Self::entry_models(ps.drop_last()).push((ps.last().0@, ps.last().1.model()))
        }
    }

    /// The models of an array's elements, in order.
    pub open spec fn elem_models(xs: Seq<JsonValue>) -> Seq<JsonModel>
        decreases xs,
    {
        if xs.len() == 0 {
            Seq::empty()
        } else {
            Self::elem_models(xs.drop_last()).push(xs.last().model())
        }
    }

    pub proof fn lemma_entry_models(ps: Seq<(String, JsonValue)>)
        ensures
            Self::entry_models(ps).len() == ps.len(),
            forall|i: int|
                0 <= i < ps.len() ==> #[trigger] Self::entry_models(ps)[i] == (
                ps[i].0@,
                ps[i].1.model(),
                ),
        decreases ps.len(),
    {
        if ps.len() > 0 {
            Self::lemma_entry_models(ps.drop_last());
        }
    }

    pub proof fn lemma_elem_models(xs: Seq<JsonValue>)
        ensures
            Self::elem_models(xs).len() == xs.len(),
            forall|i: int|
                0 <= i < xs.len() ==> #[trigger] Self::elem_models(xs)[i] == xs[i].model(),
        decreases xs.len(),
    {
        if xs.len() > 0 {
            Self::lemma_elem_models(xs.drop_last());
        }
    }
}

impl View for JsonValue {
    type V = JsonModel;

    open spec fn view(&self) -> JsonModel {
        self.model()
    }
}

/// The translation of a GBLN value into a JSON value.
pub open spec fn json_of(g: GblnModel) -> JsonModel
    decreases g,
{
    match g {
        GblnModel::I8(n) => JsonModel::Num(JsonNumModel::Int(n as int)),
        GblnModel::I16(n) => JsonModel::Num(JsonNumModel::Int(n as int)),
        GblnModel::I32(n) => JsonModel::Num(JsonNumModel::Int(n as int)),
        GblnModel::I64(n) => JsonModel::Num(JsonNumModel::Int(n as int)),
        GblnModel::U8(n) => JsonModel::Num(JsonNumModel::Int(n as int)),
        GblnModel::U16(n) => JsonModel::Num(JsonNumModel::Int(n as int)),
        GblnModel::U32(n) => JsonModel::Num(JsonNumModel::Int(n as int)),
        GblnModel::U64(n) => JsonModel::Num(JsonNumModel::Int(n as int)),
        GblnModel::F32(o) => match o {
            Some(x) => JsonModel::Num(JsonNumModel::Float(x)),
            None => JsonModel::Null,
        },
        GblnModel::F64(o) => match o {
            Some(x) => JsonModel::Num(JsonNumModel::Float(x)),
            None => JsonModel::Null,
        },
        GblnModel::Str(s) => JsonModel::Str(s),
        GblnModel::Bool(b) => JsonModel::Bool(b),
        GblnModel::Null => JsonModel::Null,
        GblnModel::Object(ps) => JsonModel::Object(json_entries_of(ps)),
        GblnModel::Array(xs) => JsonModel::Array(json_elems_of(xs)),
    }
}

/// The translation of an object's entries, key order kept.
pub open spec fn json_entries_of(ps: Seq<(Seq<char>, GblnModel)>) -> Seq<(Seq<char>, JsonModel)>
    decreases ps,
{
    if ps.len() == 0 {
        Seq::empty()
    } else {
        json_entries_of(ps.drop_last()).push((ps.last().0, json_of(ps.last().1)))
    }
}

/// The translation of an array's elements, order kept.
pub open spec fn json_elems_of(xs: Seq<GblnModel>) -> Seq<JsonModel>
    decreases xs,
{
    if xs.len() == 0 {
        Seq::empty()
    } else {
        json_elems_of(xs.drop_last()).push(json_of(xs.last()))
    }
}

/// Law: the translation preserves object key order exactly — entry `i` of
/// a translated object is entry `i` of the source, its key unchanged and
/// its value translated.
pub proof fn lemma_json_preserves_key_order(ps: Seq<(Seq<char>, GblnModel)>)
    ensures
        json_entries_of(ps).len() == ps.len(),
        forall|i: int|
            0 <= i < ps.len() ==> #[trigger] json_entries_of(ps)[i] == (
            ps[i].0,
            json_of(ps[i].1),
            ),
    decreases ps.len(),
{
    if ps.len() > 0 {
        lemma_json_preserves_key_order(ps.drop_last());
    }
}

/// Law: the translation preserves array element order exactly — element
/// `i` of a translated array is element `i` of the source, translated.
pub proof fn lemma_json_preserves_elem_order(xs: Seq<GblnModel>)
    ensures
        json_elems_of(xs).len() == xs.len(),
        forall|i: int| 0 <= i < xs.len() ==> #[trigger] json_elems_of(xs)[i] == json_of(xs[i]),
    decreases xs.len(),
{
    if xs.len() > 0 {
        lemma_json_preserves_elem_order(xs.drop_last());
    }
}

/// Law: the translation is total over the numeric variants — every integer
/// variant maps to a JSON number with the same value, a finite float maps
/// to the JSON number it carries, and a non-finite float maps to JSON
/// null, never to an invalid number.
pub proof fn lemma_json_numeric_totality(g: GblnModel)
    ensures
        g matches GblnModel::I8(n) ==> json_of(g) == JsonModel::Num(JsonNumModel::Int(n as int)),
        g matches GblnModel::I16(n) ==> json_of(g) == JsonModel::Num(JsonNumModel::Int(n as int)),
        g matches GblnModel::I32(n) ==> json_of(g) == JsonModel::Num(JsonNumModel::Int(n as int)),
        g matches GblnModel::I64(n) ==> json_of(g) == JsonModel::Num(JsonNumModel::Int(n as int)),
        g matches GblnModel::U8(n) ==> json_of(g) == JsonModel::Num(JsonNumModel::Int(n as int)),
        g matches GblnModel::U16(n) ==> json_of(g) == JsonModel::Num(JsonNumModel::Int(n as int)),
        g matches GblnModel::U32(n) ==> json_of(g) == JsonModel::Num(JsonNumModel::Int(n as int)),
        g matches GblnModel::U64(n) ==> json_of(g) == JsonModel::Num(JsonNumModel::Int(n as int)),
        g matches GblnModel::F32(o) ==> json_of(g) == (match o {
            Some(x) => JsonModel::Num(JsonNumModel::Float(x)),
            None => JsonModel::Null,
        }),
        g matches GblnModel::F64(o) ==> json_of(g) == (match o {
            Some(x) => JsonModel::Num(JsonNumModel::Float(x)),
            None => JsonModel::Null,
        }),
{
}

/// Translates a parsed GBLN value into the equivalent JSON value.
#[verifier::loop_isolation(false)]
pub fn gbln_value_to_json(v: &GblnValue) -> (r: JsonValue)
    ensures
        r@ == json_of(v@),
    decreases *v,
{
    match v {
        GblnValue::I8(n) => JsonValue::Num(JsonNum::I(*n as i64)),
        GblnValue::I16(n) => JsonValue::Num(JsonNum::I(*n as i64)),
        GblnValue::I32(n) => JsonValue::Num(JsonNum::I(*n as i64)),
        GblnValue::I64(n) => JsonValue::Num(JsonNum::I(*n)),
        GblnValue::U8(n) => JsonValue::Num(JsonNum::U(*n as u64)),
        GblnValue::U16(n) => JsonValue::Num(JsonNum::U(*n as u64)),
        GblnValue::U32(n) => JsonValue::Num(JsonNum::U(*n as u64)),
        GblnValue::U64(n) => JsonValue::Num(JsonNum::U(*n)),
        GblnValue::F32(o) => match o {
            Some(x) => JsonValue::Num(JsonNum::F(x.clone())),
            None => JsonValue::Null,
        },
        GblnValue::F64(o) => match o {
            Some(x) => JsonValue::Num(JsonNum::F(x.clone())),
            None => JsonValue::Null,
        },
        GblnValue::Str(s) => JsonValue::Str(s.clone()),
        GblnValue::Bool(b) => JsonValue::Bool(*b),
        GblnValue::Null => JsonValue::Null,
        GblnValue::Object(ps) => {
            let mut out: Vec<(String, JsonValue)> = Vec::new();
            let mut i: usize = 0;
            while i < ps.len()
                invariant
                    i <= ps@.len(),
                    out@.len() == i,
                    forall|k: int|
                        0 <= k < i ==> (#[trigger] out@[k]).0@ == ps@[k].0@ && out@[k].1@
                            == json_of(ps@[k].1@),
                decreases ps@.len() - i,
            {
                proof {
                    assert(decreases_to!(*v => (*v)->Object_0));
                    assert((*v)->Object_0 == *ps);
                    vstd::std_specs::vec::axiom_vec_index_decreases(*ps, i as int);
                    assert(decreases_to!((*ps)[i as int] => (*ps)[i as int].1));
                    assert(decreases_to!(*v => (*ps)[i as int].1));
                }
                let key = ps[i].0.clone();
                let val = gbln_value_to_json(&ps[i].1);
                out.push((key, val));
                i = i + 1;
            }
            let r = JsonValue::Object(out);
            proof {
                GblnValue::lemma_entry_models(ps@);
                JsonValue::lemma_entry_models(out@);
                lemma_json_preserves_key_order(GblnValue::entry_models(ps@));
                assert(JsonValue::entry_models(out@) =~= json_entries_of(
                    GblnValue::entry_models(ps@),
                ));
            }
            r
        },
        GblnValue::Array(xs) => {
            let mut out: Vec<JsonValue> = Vec::new();
            let mut i: usize = 0;
            while i < xs.len()
                invariant
                    i <= xs@.len(),
                    out@.len() == i,
                    forall|k: int| 0 <= k < i ==> (#[trigger] out@[k])@ == json_of(xs@[k]@),
                decreases xs@.len() - i,
            {
                proof {
                    assert(decreases_to!(*v => (*v)->Array_0));
                    assert((*v)->Array_0 == *xs);
                    vstd::std_specs::vec::axiom_vec_index_decreases(*xs, i as int);
                    assert(decreases_to!(*v => (*xs)[i as int]));
                }
                let val = gbln_value_to_json(&xs[i]);
                out.push(val);
                i = i + 1;
            }
            let r = JsonValue::Array(out);
            proof {
                GblnValue::lemma_elem_models(xs@);
                JsonValue::lemma_elem_models(out@);
                lemma_json_preserves_elem_order(GblnValue::elem_models(xs@));
                assert(JsonValue::elem_models(out@) =~= json_elems_of(GblnValue::elem_models(xs@)));
            }
            r
        },
    }
}

} // verus!
