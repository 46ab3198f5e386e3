//! Pretty printer for JSON values.
//!
//! The output format is fixed: two-space indentation, `": "` between a key
//! and its value, one element per line, `[]` and `{}` for empty
//! collections, and string contents escaped so that the output is always
//! valid JSON. The whole rendering is specified exactly, so the converter's
//! output is reproducible bit for bit.
use vstd::prelude::*;
use vstd::string::StrSliceExecFns;
use vstd::string::StringExecFns;
use crate::json::JsonModel;
use crate::json::JsonNum;
use crate::json::JsonNumModel;
use crate::json::JsonValue;
use crate::strings;

verus! {

broadcast use vstd::std_specs::vec::axiom_vec_index_decreases, vstd::seq::axiom_seq_index_decreases, vstd::seq::axiom_seq_subrange_decreases;

/// The character for a single hexadecimal digit.
pub open spec fn hex_char(d: nat) -> char {
    if d < 10 {
        strings::digit_char(d)
    } else if d == 10 {
        'a'
    } else if d == 11 {
        'b'
    } else if d == 12 {
        'c'
    } else if d == 13 {
        'd'
    } else if d == 14 {
        'e'
    } else {
        'f'
    }
}

/// The escape of one character inside a JSON string: quote and backslash
/// get a backslash, the named control characters their short escapes, any
/// other control character a `\u00..` escape, and everything else stands
/// as itself.
pub open spec fn esc_json_char(c: char) -> Seq<char> {
    if c == '"' {
        seq!['\\', '"']
    } else if c == '\\' {
        seq!['\\', '\\']
    } else if c == '\u{8}' {
        seq!['\\', 'b']
    } else if c == '\t' {
        seq!['\\', 't']
    } else if c == '\n' {
        seq!['\\', 'n']
    } else if c == '\u{c}' {
        seq!['\\', 'f']
    } else if c == '\r' {
        seq!['\\', 'r']
    } else if (c as u32) < 32 {
        seq!['\\', 'u', '0', '0', hex_char((c as u32 / 16) as nat), hex_char((c as u32 % 16) as nat)]
    } else {
        seq![c]
    }
}

/// The escape of a whole string's contents.
pub open spec fn esc_json_spec(s: Seq<char>) -> Seq<char>
    decreases s.len(),
{
    if s.len() == 0 {
        Seq::empty()
    } else {
        esc_json_spec(s.drop_last()) + esc_json_char(s.last())
    }
}

fn hex_str(d: u32) -> (r: &'static str)
    requires
        d < 16,
    ensures
        r@ =~= seq![hex_char(d as nat)],
{
    proof {
        reveal_strlit("a");
        reveal_strlit("b");
        reveal_strlit("c");
        reveal_strlit("d");
        reveal_strlit("e");
        reveal_strlit("f");
    }
    if d < 10 {
        strings::digit_str(d as u64)
    } else if d == 10 {
        "a"
    } else if d == 11 {
        "b"
    } else if d == 12 {
        "c"
    } else if d == 13 {
        "d"
    } else if d == 14 {
        "e"
    } else {
        "f"
    }
}

/// Escapes a string's contents for use inside a JSON string literal.
pub fn escape_json_string(s: &str) -> (r: String)
    ensures
        r@ == esc_json_spec(s@),
{
    let len = s.unicode_len();
    let mut acc = String::new();
    let mut i: usize = 0;
    proof {
        assert(acc@ =~= esc_json_spec(s@.subrange(0, 0)));
    }
    while i < len
        invariant
            len == s@.len(),
            i <= len,
            acc@ == esc_json_spec(s@.subrange(0, i as int)),
        decreases len - i,
    {
        let c = s.get_char(i);
        if c == '"' {
            acc.append("\\\"");
            proof {
                reveal_strlit("\\\"");
                assert("\\\""@ =~= seq!['\\', '"']);
            }
        } else if c == '\\' {
            acc.append("\\\\");
            proof {
                reveal_strlit("\\\\");
                assert("\\\\"@ =~= seq!['\\', '\\']);
            }
        } else if c == '\u{8}' {
            acc.append("\\b");
            proof {
                reveal_strlit("\\b");
                assert("\\b"@ =~= seq!['\\', 'b']);
            }
        } else if c == '\t' {
            acc.append("\\t");
            proof {
                reveal_strlit("\\t");
                assert("\\t"@ =~= seq!['\\', 't']);
            }
        } else if c == '\n' {
            acc.append("\\n");
            proof {
                reveal_strlit("\\n");
                assert("\\n"@ =~= seq!['\\', 'n']);
            }
        } else if c == '\u{c}' {
            acc.append("\\f");
            proof {
                reveal_strlit("\\f");
                assert("\\f"@ =~= seq!['\\', 'f']);
            }
        } else if c == '\r' {
            acc.append("\\r");
            proof {
                reveal_strlit("\\r");
                assert("\\r"@ =~= seq!['\\', 'r']);
            }
        } else if (c as u32) < 32 {
            acc.append("\\u00");
            acc.append(hex_str((c as u32) / 16));
            acc.append(hex_str((c as u32) % 16));
            proof {
                reveal_strlit("\\u00");
                assert("\\u00"@ =~= seq!['\\', 'u', '0', '0']);
            }
        } else {
            let piece = s.substring_char(i, i + 1);
            acc.append(piece);
            proof {
                assert(s@.subrange(i as int, i + 1) =~= seq![s@[i as int]]);
            }
        }
        proof {
            assert(s@.subrange(0, i + 1).drop_last() =~= s@.subrange(0, i as int));
            assert(s@.subrange(0, i + 1).last() == s@[i as int]);
            assert(acc@ =~= esc_json_spec(s@.subrange(0, i + 1)));
        }
        i = i + 1;
    }
    proof {
        assert(s@.subrange(0, s@.len() as int) =~= s@);
    }
    acc
}

/// The decimal rendering of an integer, a leading minus sign for a
/// negative one.
pub open spec fn int_dec_spec(i: int) -> Seq<char> {
    if i < 0 {
        seq!['-'] + strings::dec_spec((-i) as nat)
    } else {
        strings::dec_spec(i as nat)
    }
}

/// Renders a signed integer in decimal.
pub fn i64_to_string(n: i64) -> (r: String)
    ensures
        r@ == int_dec_spec(n as int),
{
    if n >= 0 {
        strings::u64_to_string(n as u64)
    } else {
        let m: u64 = ((-(n + 1)) as u64) + 1;
        proof {
            assert(m as int == -(n as int));
        }
        let digits = strings::u64_to_string(m);
        let r = String::from_str("-").concat(digits.as_str());
        proof {
            reveal_strlit("-");
            assert("-"@ =~= seq!['-']);
            assert(r@ =~= int_dec_spec(n as int));
        }
        r
    }
}

/// The rendered text of a JSON value, with `ind` the indentation already
/// in force; each nested level adds two spaces to it.
pub open spec fn render_spec(j: JsonModel, ind: Seq<char>) -> Seq<char>
    decreases j,
{
    match j {
        JsonModel::Null => "null"@,
        JsonModel::Bool(b) => if b {
            "true"@
        } else {
            "false"@
        },
        JsonModel::Num(n) => match n {
            JsonNumModel::Int(i) => int_dec_spec(i),
            JsonNumModel::Float(t) => t,
        },
        JsonModel::Str(s) => seq!['"'] + esc_json_spec(s) + seq!['"'],
        JsonModel::Array(xs) => if xs.len() == 0 {
            "[]"@
        } else {
            seq!['[', '\n'] + render_items(xs, ind + "  "@) + seq!['\n'] + ind + seq![']']
        },
        JsonModel::Object(ps) => if ps.len() == 0 {
            "{}"@
        } else {
            seq!['{', '\n'] + render_entries(ps, ind + "  "@) + seq!['\n'] + ind + seq!['}']
        },
    }
}

/// The rendered elements of a nonempty array: one per line, separated by
/// commas, each behind the given indentation.
pub open spec fn render_items(xs: Seq<JsonModel>, ind: Seq<char>) -> Seq<char>
    decreases xs,
{
    if xs.len() == 0 {
        Seq::empty()
    } else if xs.len() == 1 {
        ind + render_spec(xs.last(), ind)
    } else {
        render_items(xs.drop_last(), ind) + seq![',', '\n'] + ind + render_spec(xs.last(), ind)
    }
}

/// The rendered entries of a nonempty object: `"key": value`, one per
/// line, separated by commas, each behind the given indentation.
pub open spec fn render_entries(ps: Seq<(Seq<char>, JsonModel)>, ind: Seq<char>) -> Seq<char>
    decreases ps,
{
    if ps.len() == 0 {
        Seq::empty()
    } else if ps.len() == 1 {
        ind + seq!['"'] + esc_json_spec(ps.last().0) + seq!['"', ':', ' '] + render_spec(
            ps.last().1,
            ind,
        )
    } else {
        render_entries(ps.drop_last(), ind) + seq![',', '\n'] + ind + seq!['"'] + esc_json_spec(
            ps.last().0,
        ) + seq!['"', ':', ' '] + render_spec(ps.last().1, ind)
    }
}

/// Renders a JSON value behind the given indentation.
#[verifier::loop_isolation(false)]
#[verifier::rlimit(60)]
fn render_value(v: &JsonValue, ind: &str) -> (r: String)
    ensures
        r@ == render_spec(v@, ind@),
    decreases *v,
{
    match v {
        JsonValue::Null => String::from_str("null"),
        JsonValue::Bool(b) => if *b {
            String::from_str("true")
        } else {
            String::from_str("false")
        },
        JsonValue::Num(n) => match n {
            JsonNum::I(i) => i64_to_string(*i),
            JsonNum::U(u) => strings::u64_to_string(*u),
            JsonNum::F(t) => t.clone(),
        },
        JsonValue::Str(s) => {
            let mut r = String::from_str("\"");
            let esc = escape_json_string(s.as_str());
            r.append(esc.as_str());
            r.append("\"");
            proof {
                reveal_strlit("\"");
                assert("\""@ =~= seq!['"']);
                assert(r@ =~= render_spec(v@, ind@));
            }
            r
        },
        JsonValue::Array(xs) => {
            if xs.len() == 0 {
                String::from_str("[]")
            } else {
                let ind2 = String::from_str(ind).concat("  ");
                let ghost models = JsonValue::elem_models(xs@);
                proof {
                    JsonValue::lemma_elem_models(xs@);
                }
                let mut r = String::from_str("[\n");
                proof {
                    reveal_strlit("[\n");
                    assert("[\n"@ =~= seq!['[', '\n']);
                    assert(models.subrange(0, 0) =~= Seq::<JsonModel>::empty());
                    assert(r@ =~= seq!['[', '\n'] + render_items(models.subrange(0, 0), ind2@));
                }
                let mut i: usize = 0;
                while i < xs.len()
                    invariant
                        0 < xs@.len(),
                        i <= xs@.len(),
                        ind2@ == ind@ + "  "@,
                        models == JsonValue::elem_models(xs@),
                        models.len() == xs@.len(),
                        forall|k: int| 0 <= k < xs@.len() ==> #[trigger] models[k] == xs@[k].model(),
                        r@ == seq!['[', '\n'] + render_items(
                            models.subrange(0, i as int),
                            ind2@,
                        ),
                    decreases xs@.len() - i,
                {
                    if i > 0 {
                        r.append(",\n");
                        proof {
                            reveal_strlit(",\n");
                            assert(",\n"@ =~= seq![',', '\n']);
                        }
                    }
                    r.append(ind2.as_str());
                    proof {
                        assert(decreases_to!(*v => (*v)->Array_0));
                        assert((*v)->Array_0 == *xs);
                        vstd::std_specs::vec::axiom_vec_index_decreases(*xs, i as int);
                        assert(decreases_to!(*v => (*xs)[i as int]));
                    }
                    let item = render_value(&xs[i], ind2.as_str());
                    r.append(item.as_str());
                    proof {
                        let pre = models.subrange(0, i as int);
                        let cur = models.subrange(0, i + 1);
                        assert(cur.drop_last() =~= pre);
                        assert(cur.last() == models[i as int]);
                        assert(r@ =~= seq!['[', '\n'] + render_items(cur, ind2@));
                    }
                    i = i + 1;
                }
                r.append("\n");
                r.append(ind);
                r.append("]");
                proof {
                    reveal_strlit("\n");
                    reveal_strlit("]");
                    assert("\n"@ =~= seq!['\n']);
                    assert("]"@ =~= seq![']']);
                    assert(models.subrange(0, models.len() as int) =~= models);
                    assert(r@ =~= render_spec(v@, ind@));
                }
                r
            }
        },
        JsonValue::Object(ps) => {
            if ps.len() == 0 {
                String::from_str("{}")
            } else {
                let ind2 = String::from_str(ind).concat("  ");
                let ghost models = JsonValue::entry_models(ps@);
                proof {
                    JsonValue::lemma_entry_models(ps@);
                }
                let mut r = String::from_str("{\n");
                proof {
                    reveal_strlit("{\n");
                    assert("{\n"@ =~= seq!['{', '\n']);
                    assert(models.subrange(0, 0) =~= Seq::<(Seq<char>, JsonModel)>::empty());
                    assert(r@ =~= seq!['{', '\n'] + render_entries(models.subrange(0, 0), ind2@));
                }
                let mut i: usize = 0;
                while i < ps.len()
                    invariant
                        0 < ps@.len(),
                        i <= ps@.len(),
                        ind2@ == ind@ + "  "@,
                        models == JsonValue::entry_models(ps@),
                        models.len() == ps@.len(),
                        forall|k: int|
                            0 <= k < ps@.len() ==> #[trigger] models[k] == (
                            ps@[k].0@,
                            ps@[k].1.model(),
                            ),
                        r@ == seq!['{', '\n'] + render_entries(
                            models.subrange(0, i as int),
                            ind2@,
                        ),
                    decreases ps@.len() - i,
                {
                    if i > 0 {
                        r.append(",\n");
                        proof {
                            reveal_strlit(",\n");
                            assert(",\n"@ =~= seq![',', '\n']);
                        }
                    }
                    r.append(ind2.as_str());
                    r.append("\"");
                    let key = escape_json_string(ps[i].0.as_str());
                    r.append(key.as_str());
                    r.append("\": ");
                    proof {
                        assert(decreases_to!(*v => (*v)->Object_0));
                        assert((*v)->Object_0 == *ps);
                        vstd::std_specs::vec::axiom_vec_index_decreases(*ps, i as int);
                        assert(decreases_to!((*ps)[i as int] => (*ps)[i as int].1));
                        assert(decreases_to!(*v => (*ps)[i as int].1));
                    }
                    let item = render_value(&ps[i].1, ind2.as_str());
                    r.append(item.as_str());
                    proof {
                        reveal_strlit("\"");
                        reveal_strlit("\": ");
                        assert("\""@ =~= seq!['"']);
                        assert("\": "@ =~= seq!['"', ':', ' ']);
                        let pre = models.subrange(0, i as int);
                        let cur = models.subrange(0, i + 1);
                        assert(cur.drop_last() =~= pre);
                        assert(cur.last() == models[i as int]);
                        assert(r@ =~= seq!['{', '\n'] + render_entries(cur, ind2@));
                    }
                    i = i + 1;
                }
                r.append("\n");
                r.append(ind);
                r.append("}");
                proof {
                    reveal_strlit("\n");
                    reveal_strlit("}");
                    assert("\n"@ =~= seq!['\n']);
                    assert("}"@ =~= seq!['}']);
                    assert(models.subrange(0, models.len() as int) =~= models);
                    assert(r@ =~= render_spec(v@, ind@));
                }
                r
            }
        },
    }
}

/// Renders a JSON value as pretty text, starting at the left margin.
pub fn render_json_pretty(v: &JsonValue) -> (r: String)
    ensures
        r@ == render_spec(v@, Seq::empty()),
{
    let r = render_value(v, "");
    proof {
        reveal_strlit("");
        assert(""@ =~= Seq::<char>::empty());
    }
    r
}

} // verus!
