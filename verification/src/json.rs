use vstd::prelude::*;
use vstd::string::StringExecFns;

verus! {

/// A structured, self-describing wire value: what every type of this model
/// encodes to and decodes from. Numbers are integers; fractional scores are
/// carried in thousandths throughout the model.
pub enum JsonValue {
    Null,
    Bool(bool),
    Int(i128),
    Str(String),
    Arr(Vec<JsonValue>),
    Obj(Vec<(String, JsonValue)>),
}

/// Ghost mirror of a wire value, over mathematical sequences.
pub ghost enum JVal {
    Null,
    Bool(bool),
    Int(int),
    Str(Seq<char>),
    Arr(Seq<JVal>),
    Obj(Seq<(Seq<char>, JVal)>),
}

impl JsonValue {
    /// The ghost value this wire value stands for.
    pub open spec fn jv(self) -> JVal
        decreases self,
    {
        match self {
            JsonValue::Null => JVal::Null,
            JsonValue::Bool(b) => JVal::Bool(b),
            JsonValue::Int(i) => JVal::Int(i as int),
            JsonValue::Str(s) => JVal::Str(s@),
            JsonValue::Arr(a) => JVal::Arr(jv_seq(a@)),
            JsonValue::Obj(o) => JVal::Obj(jv_pairs(o@)),
        }
    }
}

/// Ghost mirror of a sequence of wire values.
pub open spec fn jv_seq(s: Seq<JsonValue>) -> Seq<JVal>
    decreases s,
{
    if s.len() == 0 {
        Seq::empty()
    } else {
        jv_seq(s.drop_last()).push(s.last().jv())
    }
}

/// Ghost mirror of an object's key/value pair list.
pub open spec fn jv_pairs(o: Seq<(String, JsonValue)>) -> Seq<(Seq<char>, JVal)>
    decreases o,
{
    if o.len() == 0 {
        Seq::empty()
    } else {
        jv_pairs(o.drop_last()).push((o.last().0@, o.last().1.jv()))
    }
}

pub broadcast proof fn lemma_jv_seq_len(s: Seq<JsonValue>)
    ensures
        #[trigger] jv_seq(s).len() == s.len(),
    decreases s,
{
    if s.len() > 0 {
        lemma_jv_seq_len(s.drop_last());
    }
}

pub broadcast proof fn lemma_jv_seq_index(s: Seq<JsonValue>, i: int)
    requires
        0 <= i < s.len(),
    ensures
        #[trigger] jv_seq(s)[i] == s[i].jv(),
    decreases s,
{
    lemma_jv_seq_len(s);
    if i < s.len() - 1 {
        lemma_jv_seq_index(s.drop_last(), i);
    }
}

pub broadcast proof fn lemma_jv_pairs_len(o: Seq<(String, JsonValue)>)
    ensures
        #[trigger] jv_pairs(o).len() == o.len(),
    decreases o,
{
    if o.len() > 0 {
        lemma_jv_pairs_len(o.drop_last());
    }
}

pub broadcast proof fn lemma_jv_pairs_index(o: Seq<(String, JsonValue)>, i: int)
    requires
        0 <= i < o.len(),
    ensures
        #[trigger] jv_pairs(o)[i] == (o[i].0@, o[i].1.jv()),
    decreases o,
{
    lemma_jv_pairs_len(o);
    if i < o.len() - 1 {
        lemma_jv_pairs_index(o.drop_last(), i);
    }
}

/// First value bound to key `k` in an object's pair list, if any.
pub open spec fn jget(o: Seq<(Seq<char>, JVal)>, k: Seq<char>) -> Option<JVal>
    decreases o.len(),
{
    if o.len() == 0 {
        None
    } else if o[0].0 == k {
        Some(o[0].1)
    } else {
        jget(o.skip(1), k)
    }
}

/// Appending a pair changes a lookup only for its own key, and only when
/// that key was absent.
pub broadcast proof fn lemma_jget_push(o: Seq<(Seq<char>, JVal)>, k2: Seq<char>, v: JVal, k: Seq<char>)
    ensures
        #[trigger] jget(o.push((k2, v)), k) == (if jget(o, k) is Some {
            jget(o, k)
        } else if k2 == k {
            Some(v)
        } else {
            None
        }),
    decreases o.len(),
{
    let p = o.push((k2, v));
    if o.len() == 0 {
        assert(p.len() == 1);
        assert(p[0] == (k2, v));
        assert(p.skip(1) =~= Seq::<(Seq<char>, JVal)>::empty());
        assert(jget(p.skip(1), k) is None);
    } else {
        assert(p[0] == o[0]);
        assert(p.skip(1) =~= o.skip(1).push((k2, v)));
        lemma_jget_push(o.skip(1), k2, v, k);
    }
}

pub broadcast proof fn lemma_jv_pairs_push(o: Seq<(String, JsonValue)>, p: (String, JsonValue))
    ensures
        #[trigger] jv_pairs(o.push(p)) == jv_pairs(o).push((p.0@, p.1.jv())),
{
    assert(o.push(p).drop_last() =~= o);
    assert(o.push(p).last() == p);
}

pub broadcast proof fn lemma_jv_seq_push(s: Seq<JsonValue>, x: JsonValue)
    ensures
        #[trigger] jv_seq(s.push(x)) == jv_seq(s).push(x.jv()),
{
    assert(s.push(x).drop_last() =~= s);
    assert(s.push(x).last() == x);
}

pub proof fn lemma_jget_index(o: Seq<(Seq<char>, JVal)>, k: Seq<char>, i: int)
    requires
        0 <= i < o.len(),
        o[i].0 == k,
        forall|j: int| 0 <= j < i ==> o[j].0 != k,
    ensures
        jget(o, k) == Some(o[i].1),
    decreases i,
{
    if i > 0 {
        lemma_jget_index(o.skip(1), k, i - 1);
    }
}

pub proof fn lemma_jget_none(o: Seq<(Seq<char>, JVal)>, k: Seq<char>)
    requires
        forall|j: int| 0 <= j < o.len() ==> o[j].0 != k,
    ensures
        jget(o, k) is None,
    decreases o.len(),
{
    if o.len() > 0 {
        lemma_jget_none(o.skip(1), k);
    }
}

/// Whether a string equals a literal.
pub fn string_is(s: &String, lit: &str) -> (r: bool)
    ensures
        r == (s@ == lit@),
{
    let l = String::from_str(lit);
    *s == l
}

/// Look a key up in an object's pair list, first binding wins.
pub fn obj_get<'a>(o: &'a Vec<(String, JsonValue)>, k: &str) -> (r: Option<&'a JsonValue>)
    ensures
        match r {
            Some(v) => jget(jv_pairs(o@), k@) == Some(v.jv()),
            None => jget(jv_pairs(o@), k@) is None,
        },
{
    let key = String::from_str(k);
    proof {
        lemma_jv_pairs_len(o@);
    }
    let mut i: usize = 0;
    while i < o.len()
        invariant
            i <= o.len(),
            jv_pairs(o@).len() == o@.len(),
            key@ == k@,
            forall|j: int| 0 <= j < i ==> jv_pairs(o@)[j].0 != k@,
        decreases o.len() - i,
    {
        proof {
            lemma_jv_pairs_index(o@, i as int);
        }
        if o[i].0 == key {
            proof {
                lemma_jget_index(jv_pairs(o@), k@, i as int);
            }
            return Some(&o[i].1);
        }
        i += 1;
    }
    proof {
        lemma_jget_none(jv_pairs(o@), k@);
    }
    None
}

/// What an optional string field denotes: absent or null is a valid
/// absence, a string is a value, anything else fails the decode.
pub open spec fn dec_opt_str(o: Seq<(Seq<char>, JVal)>, k: Seq<char>) -> Option<Option<Seq<char>>> {
    match jget(o, k) {
        None => Some(None),
        Some(JVal::Null) => Some(None),
        Some(JVal::Str(s)) => Some(Some(s)),
        Some(_) => None,
    }
}

pub fn get_opt_str(o: &Vec<(String, JsonValue)>, k: &str) -> (r: Option<Option<String>>)
    ensures
        match r {
            Some(Some(s)) => dec_opt_str(jv_pairs(o@), k@) == Some(Some(s@)),
            Some(None) => dec_opt_str(jv_pairs(o@), k@) == (Some(None::<Seq<char>>)),
            None => dec_opt_str(jv_pairs(o@), k@) is None,
        },
{
    match obj_get(o, k) {
        None => Some(None),
        Some(JsonValue::Null) => Some(None),
        Some(JsonValue::Str(s)) => Some(Some(s.clone())),
        Some(_) => None,
    }
}

pub fn get_str(o: &Vec<(String, JsonValue)>, k: &str) -> (r: Option<String>)
    ensures
        match r {
            Some(s) => jget(jv_pairs(o@), k@) == Some(JVal::Str(s@)),
            None => !(jget(jv_pairs(o@), k@) matches Some(JVal::Str(_))),
        },
{
    match obj_get(o, k) {
        Some(JsonValue::Str(s)) => Some(s.clone()),
        _ => None,
    }
}

pub fn get_bool(o: &Vec<(String, JsonValue)>, k: &str) -> (r: Option<bool>)
    ensures
        match r {
            Some(b) => jget(jv_pairs(o@), k@) == Some(JVal::Bool(b)),
            None => !(jget(jv_pairs(o@), k@) matches Some(JVal::Bool(_))),
        },
{
    match obj_get(o, k) {
        Some(JsonValue::Bool(b)) => Some(*b),
        _ => None,
    }
}

/// A required unsigned 32-bit field.
pub open spec fn dec_u32_field(o: Seq<(Seq<char>, JVal)>, k: Seq<char>) -> Option<u32> {
    match jget(o, k) {
        Some(JVal::Int(i)) => if 0 <= i <= 0xffff_ffff {
            Some(i as u32)
        } else {
            None
        },
        _ => None,
    }
}

pub fn get_u32(o: &Vec<(String, JsonValue)>, k: &str) -> (r: Option<u32>)
    ensures
        r == dec_u32_field(jv_pairs(o@), k@),
{
    match obj_get(o, k) {
        Some(JsonValue::Int(i)) => if 0 <= *i && *i <= 0xffff_ffff {
            Some(*i as u32)
        } else {
            None
        },
        _ => None,
    }
}

/// A required unsigned 64-bit field.
pub open spec fn dec_u64_field(o: Seq<(Seq<char>, JVal)>, k: Seq<char>) -> Option<u64> {
    match jget(o, k) {
        Some(JVal::Int(i)) => if 0 <= i <= 0xffff_ffff_ffff_ffff {
            Some(i as u64)
        } else {
            None
        },
        _ => None,
    }
}

pub fn get_u64(o: &Vec<(String, JsonValue)>, k: &str) -> (r: Option<u64>)
    ensures
        r == dec_u64_field(jv_pairs(o@), k@),
{
    match obj_get(o, k) {
        Some(JsonValue::Int(i)) => if 0 <= *i && *i <= 0xffff_ffff_ffff_ffff {
            Some(*i as u64)
        } else {
            None
        },
        _ => None,
    }
}

/// A required signed 64-bit field.
pub open spec fn dec_i64_field(o: Seq<(Seq<char>, JVal)>, k: Seq<char>) -> Option<i64> {
    match jget(o, k) {
        Some(JVal::Int(i)) => if -0x8000_0000_0000_0000 <= i <= 0x7fff_ffff_ffff_ffff {
            Some(i as i64)
        } else {
            None
        },
        _ => None,
    }
}

pub fn get_i64(o: &Vec<(String, JsonValue)>, k: &str) -> (r: Option<i64>)
    ensures
        r == dec_i64_field(jv_pairs(o@), k@),
{
    match obj_get(o, k) {
        Some(JsonValue::Int(i)) => if -0x8000_0000_0000_0000 <= *i && *i
            <= 0x7fff_ffff_ffff_ffff {
            Some(*i as i64)
        } else {
            None
        },
        _ => None,
    }
}

/// An optional signed 64-bit field: absent or null is a valid absence.
pub open spec fn dec_opt_i64_field(o: Seq<(Seq<char>, JVal)>, k: Seq<char>) -> Option<Option<i64>> {
    match jget(o, k) {
        None => Some(None),
        Some(JVal::Null) => Some(None),
        Some(JVal::Int(i)) => if -0x8000_0000_0000_0000 <= i <= 0x7fff_ffff_ffff_ffff {
            Some(Some(i as i64))
        } else {
            None
        },
        Some(_) => None,
    }
}

pub fn get_opt_i64(o: &Vec<(String, JsonValue)>, k: &str) -> (r: Option<Option<i64>>)
    ensures
        r == dec_opt_i64_field(jv_pairs(o@), k@),
{
    match obj_get(o, k) {
        None => Some(None),
        Some(JsonValue::Null) => Some(None),
        Some(JsonValue::Int(i)) => if -0x8000_0000_0000_0000 <= *i && *i
            <= 0x7fff_ffff_ffff_ffff {
            Some(Some(*i as i64))
        } else {
            None
        },
        Some(_) => None,
    }
}

/// An optional unsigned 32-bit field: absent or null is a valid absence.
pub open spec fn dec_opt_u32_field(o: Seq<(Seq<char>, JVal)>, k: Seq<char>) -> Option<Option<u32>> {
    match jget(o, k) {
        None => Some(None),
        Some(JVal::Null) => Some(None),
        Some(JVal::Int(i)) => if 0 <= i <= 0xffff_ffff {
            Some(Some(i as u32))
        } else {
            None
        },
        Some(_) => None,
    }
}

pub fn get_opt_u32(o: &Vec<(String, JsonValue)>, k: &str) -> (r: Option<Option<u32>>)
    ensures
        r == dec_opt_u32_field(jv_pairs(o@), k@),
{
    match obj_get(o, k) {
        None => Some(None),
        Some(JsonValue::Null) => Some(None),
        Some(JsonValue::Int(i)) => if 0 <= *i && *i <= 0xffff_ffff {
            Some(Some(*i as u32))
        } else {
            None
        },
        Some(_) => None,
    }
}

/// An optional boolean field: absent or null is a valid absence.
pub open spec fn dec_opt_bool_field(o: Seq<(Seq<char>, JVal)>, k: Seq<char>) -> Option<Option<bool>> {
    match jget(o, k) {
        None => Some(None),
        Some(JVal::Null) => Some(None),
        Some(JVal::Bool(b)) => Some(Some(b)),
        Some(_) => None,
    }
}

pub fn get_opt_bool(o: &Vec<(String, JsonValue)>, k: &str) -> (r: Option<Option<bool>>)
    ensures
        r == dec_opt_bool_field(jv_pairs(o@), k@),
{
    match obj_get(o, k) {
        None => Some(None),
        Some(JsonValue::Null) => Some(None),
        Some(JsonValue::Bool(b)) => Some(Some(*b)),
        Some(_) => None,
    }
}

/// An optional unsigned word-sized field: absent or null is a valid
/// absence; a value must fit the platform word.
pub open spec fn dec_opt_usize_field(o: Seq<(Seq<char>, JVal)>, k: Seq<char>) -> Option<
    Option<usize>,
> {
    match jget(o, k) {
        None => Some(None),
        Some(JVal::Null) => Some(None),
        Some(JVal::Int(i)) => if 0 <= i <= usize::MAX {
            Some(Some(i as usize))
        } else {
            None
        },
        Some(_) => None,
    }
}

pub fn get_opt_usize(o: &Vec<(String, JsonValue)>, k: &str) -> (r: Option<Option<usize>>)
    ensures
        r == dec_opt_usize_field(jv_pairs(o@), k@),
{
    match obj_get(o, k) {
        None => Some(None),
        Some(JsonValue::Null) => Some(None),
        Some(JsonValue::Int(i)) => if 0 <= *i && *i <= usize::MAX as i128 {
            Some(Some(*i as usize))
        } else {
            None
        },
        Some(_) => None,
    }
}

/// A string field that defaults to empty when the key is missing.
pub open spec fn dec_str_default_field(o: Seq<(Seq<char>, JVal)>, k: Seq<char>) -> Option<
    Seq<char>,
> {
    match jget(o, k) {
        None => Some(Seq::empty()),
        Some(JVal::Str(s)) => Some(s),
        Some(_) => None,
    }
}

pub fn get_str_default(o: &Vec<(String, JsonValue)>, k: &str) -> (r: Option<String>)
    ensures
        match r {
            Some(s) => dec_str_default_field(jv_pairs(o@), k@) == Some(s@),
            None => dec_str_default_field(jv_pairs(o@), k@) is None,
        },
{
    match obj_get(o, k) {
        None => {
            let e = String::new();
            Some(e)
        },
        Some(JsonValue::Str(s)) => Some(s.clone()),
        Some(_) => None,
    }
}

pub fn get_arr<'a>(o: &'a Vec<(String, JsonValue)>, k: &str) -> (r: Option<&'a Vec<JsonValue>>)
    ensures
        match r {
            Some(a) => jget(jv_pairs(o@), k@) == Some(JVal::Arr(jv_seq(a@))),
            None => !(jget(jv_pairs(o@), k@) matches Some(JVal::Arr(_))),
        },
{
    match obj_get(o, k) {
        Some(JsonValue::Arr(a)) => Some(a),
        _ => None,
    }
}

pub fn get_obj<'a>(o: &'a Vec<(String, JsonValue)>, k: &str) -> (r: Option<&'a Vec<(String, JsonValue)>>)
    ensures
        match r {
            Some(f) => jget(jv_pairs(o@), k@) == Some(JVal::Obj(jv_pairs(f@))),
            None => !(jget(jv_pairs(o@), k@) matches Some(JVal::Obj(_))),
        },
{
    match obj_get(o, k) {
        Some(JsonValue::Obj(f)) => Some(f),
        _ => None,
    }
}

} // verus!
