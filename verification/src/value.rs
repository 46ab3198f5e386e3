//! The closed value model of a parsed GBLN document.
//!
//! Signed and unsigned integers of every width, strings, booleans, null,
//! ordered objects with unique keys, and ordered arrays carry plain values.
//! A float is carried as the decimal text it renders to as a JSON number —
//! `None` standing for a non-finite value (NaN or an infinity), which no
//! JSON number can hold — so that the conversion logic over it is checked
//! while float arithmetic itself stays outside the library.
use vstd::prelude::*;

verus! {

broadcast use vstd::std_specs::vec::axiom_vec_index_decreases, vstd::seq::axiom_seq_index_decreases, vstd::seq::axiom_seq_subrange_decreases;

/// A parsed GBLN value.
pub enum GblnValue {
    I8(i8),
    I16(i16),
    I32(i32),
    I64(i64),
    U8(u8),
    U16(u16),
    U32(u32),
    U64(u64),
    F32(Option<String>),
    F64(Option<String>),
    Str(String),
    Bool(bool),
    Null,
    Object(Vec<(String, GblnValue)>),
    Array(Vec<GblnValue>),
}

/// The mathematical model of a `GblnValue`.
pub enum GblnModel {
    I8(i8),
    I16(i16),
    I32(i32),
    I64(i64),
    U8(u8),
    U16(u16),
    U32(u32),
    U64(u64),
    F32(Option<Seq<char>>),
    F64(Option<Seq<char>>),
    Str(Seq<char>),
    Bool(bool),
    Null,
    Object(Seq<(Seq<char>, GblnModel)>),
    Array(Seq<GblnModel>),
}

impl GblnValue {
    /// The model of this value.
    pub open spec fn model(self) -> GblnModel
        decreases self,
    {
        match self {
            GblnValue::I8(n) => GblnModel::I8(n),
            GblnValue::I16(n) => GblnModel::I16(n),
            GblnValue::I32(n) => GblnModel::I32(n),
            GblnValue::I64(n) => GblnModel::I64(n),
            GblnValue::U8(n) => GblnModel::U8(n),
            GblnValue::U16(n) => GblnModel::U16(n),
            GblnValue::U32(n) => GblnModel::U32(n),
            GblnValue::U64(n) => GblnModel::U64(n),
            GblnValue::F32(o) => GblnModel::F32(match o {
                Some(t) => Some(t@),
                None => None,
            }),
            GblnValue::F64(o) => GblnModel::F64(match o {
                Some(t) => Some(t@),
                None => None,
            }),
            GblnValue::Str(s) => GblnModel::Str(s@),
            GblnValue::Bool(b) => GblnModel::Bool(b),
            GblnValue::Null => GblnModel::Null,
            GblnValue::Object(ps) => GblnModel::Object(Self::entry_models(ps@)),
            GblnValue::Array(xs) => GblnModel::Array(Self::elem_models(xs@)),
        }
    }

    /// The models of an object's entries, in order.
    pub open spec fn entry_models(ps: Seq<(String, GblnValue)>) -> Seq<(Seq<char>, GblnModel)>
        decreases ps,
    {
        if ps.len() == 0 {
            Seq::empty()
        } else {
            Self::entry_models(ps.drop_last()).push(
                (ps.last().0@, ps.last().1.model()),
            )
        }
    }

    /// The models of an array's elements, in order.
    pub open spec fn elem_models(xs: Seq<GblnValue>) -> Seq<GblnModel>
        decreases xs,
    {
        if xs.len() == 0 {
            Seq::empty()
        } else {
            Self::elem_models(xs.drop_last()).push(xs.last().model())
        }
    }

    pub proof fn lemma_entry_models(ps: Seq<(String, GblnValue)>)
        ensures
            Self::entry_models(ps).len() == ps.len(),
            forall|i: int|
                0 <= i < ps.len() ==> #[trigger] Self::entry_models(ps)[i] == (
                ps[i].0@,
                ps[i].1.model(),
                ),
        decreases ps.len(),
    {
        if ps.len() > 0 {
            Self::lemma_entry_models(ps.drop_last());
        }
    }

    pub proof fn lemma_elem_models(xs: Seq<GblnValue>)
        ensures
            Self::elem_models(xs).len() == xs.len(),
            forall|i: int|
                0 <= i < xs.len() ==> #[trigger] Self::elem_models(xs)[i] == xs[i].model(),
        decreases xs.len(),
    {
        if xs.len() > 0 {
            Self::lemma_elem_models(xs.drop_last());
        }
    }
}

impl View for GblnValue {
    type V = GblnModel;

    open spec fn view(&self) -> GblnModel {
        self.model()
    }
}

} // verus!
