//! A plain JSON value tree and the lookups used to decode it.

use vstd::prelude::*;

verus! {

/// A JSON number as the parser reports it.
#[derive(Debug)]
pub enum JsonNumber {
    /// A non-negative integer.
    Unsigned(u64),
    /// A negative integer.
    Negative(i64),
    /// Any other number, kept as its decimal text.
    Fraction(String),
}

/// A parsed JSON value.
#[derive(Debug)]
pub enum Json {
    Null,
    Bool(bool),
    Number(JsonNumber),
    Str(String),
    Array(Vec<Json>),
    Object(Vec<(String, Json)>),
}

/// The value of the last entry named `key`, the one a JSON object keeps
/// when a name is repeated.
pub open spec fn field_of(es: Seq<(String, Json)>, key: Seq<char>) -> Option<Json>
    decreases es.len(),
{
    if es.len() == 0 {
        None
    } else if es.last().0@ == key {
        Some(es.last().1)
    } else {
        field_of(es.drop_last(), key)
    }
}

/// Index of the last entry named `key`.
pub fn find_field(es: &Vec<(String, Json)>, key: &String) -> (r: Option<usize>)
    ensures
        match r {
            Some(i) => i < es@.len() && es@[i as int].0@ == key@ && field_of(es@, key@) == Some(
                es@[i as int].1,
            ),
            None => field_of(es@, key@) is None,
        },
{
    let mut i: usize = es.len();
    assert(es@.subrange(0, i as int) =~= es@);
    while i > 0
        invariant
            i <= es@.len(),
            field_of(es@, key@) == field_of(es@.subrange(0, i as int), key@),
        decreases i,
    {
        let ghost pre = es@.subrange(0, i as int);
        assert(pre.drop_last() =~= es@.subrange(0, i - 1));
        if es[i - 1].0 == *key {
            return Some(i - 1);
        }
        i = i - 1;
    }
    assert(es@.subrange(0, 0) =~= Seq::<(String, Json)>::empty());
    None
}

} // verus!

verus! {

/// The name of the last entry named neither `a`, `b` nor `c`, if there is one.
pub open spec fn last_unknown(es: Seq<(String, Json)>, a: Seq<char>, b: Seq<char>, c: Seq<char>) -> Option<
    String,
>
    decreases es.len(),
{
    if es.len() == 0 {
        None
    } else if es.last().0@ != a && es.last().0@ != b && es.last().0@ != c {
        Some(es.last().0)
    } else {
        last_unknown(es.drop_last(), a, b, c)
    }
}

/// Splits an object's entries into the values named `a`, `b` and `c`,
/// refusing any other name (the last such name is handed back).
pub fn split_entries(es: Vec<(String, Json)>, a: &String, b: &String, c: &String) -> (r: Result<
    (Option<Json>, Option<Json>, Option<Json>),
    String,
>)
    requires
        a@ != b@,
        a@ != c@,
        b@ != c@,
    ensures
        r is Ok <==> last_unknown(es@, a@, b@, c@) is None,
        r matches Ok(t) ==> t.0 == field_of(es@, a@) && t.1 == field_of(es@, b@) && t.2
            == field_of(es@, c@),
        r matches Err(k) ==> last_unknown(es@, a@, b@, c@) == Some(k),
{
    let ghost orig = es@;
    let mut rest = es;
    let mut va: Option<Json> = None;
    let mut vb: Option<Json> = None;
    let mut vc: Option<Json> = None;
    while rest.len() > 0
        invariant
            orig == es@,
            a@ != b@,
            a@ != c@,
            b@ != c@,
            rest@.len() <= orig.len(),
            rest@ == orig.subrange(0, rest@.len() as int),
            last_unknown(orig, a@, b@, c@) == last_unknown(rest@, a@, b@, c@),
            field_of(orig, a@) == if va is Some {
                va
            } else {
                field_of(rest@, a@)
            },
            field_of(orig, b@) == if vb is Some {
                vb
            } else {
                field_of(rest@, b@)
            },
            field_of(orig, c@) == if vc is Some {
                vc
            } else {
                field_of(rest@, c@)
            },
        decreases rest@.len(),
    {
        let ghost before = rest@;
        let entry = rest.pop();
        match entry {
            Some((k, v)) => {
                assert(before.drop_last() =~= rest@);
                assert(orig[rest@.len() as int] == before.last());
                assert(rest@ =~= orig.subrange(0, rest@.len() as int));
                assert(before.last() == (k, v));
                assert(field_of(before, a@) == if k@ == a@ {
                    Some(v)
                } else {
                    field_of(rest@, a@)
                });
                assert(field_of(before, b@) == if k@ == b@ {
                    Some(v)
                } else {
                    field_of(rest@, b@)
                });
                assert(field_of(before, c@) == if k@ == c@ {
                    Some(v)
                } else {
                    field_of(rest@, c@)
                });
                let is_a = k == *a;
                let is_b = k == *b;
                let is_c = k == *c;
                if is_a {
                    if va.is_none() {
                        va = Some(v);
                    }
                } else if is_b {
                    if vb.is_none() {
                        vb = Some(v);
                    }
                } else if is_c {
                    if vc.is_none() {
                        vc = Some(v);
                    }
                } else {
                    return Err(k);
                }
            },
            None => {},
        }
    }
    Ok((va, vb, vc))
}

} // verus!
