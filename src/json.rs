//! A JSON document tree owned by the library, and lookups on objects.

use vstd::prelude::*;

verus! {

/// One JSON value. Numbers that are non-negative integers fitting in `u64`
/// are held as such; every other number is held as its decimal text.
#[derive(Debug, PartialEq, Eq)]
pub enum Json {
    Null,
    Bool(bool),
    Int(u64),
    OtherNumber(String),
    Str(String),
    Array(Vec<Json>),
    Object(Vec<(String, Json)>),
}

/// The value of the first member of `fs` whose key is `key`.
pub open spec fn lookup(fs: Seq<(String, Json)>, key: Seq<char>) -> Option<Json>
    decreases fs.len(),
{
    if fs.len() == 0 {
        None
    } else if fs[0].0@ == key {
        Some(fs[0].1)
    } else {
        lookup(fs.drop_first(), key)
    }
}

/// Whether `j` is an empty object or an empty array.
pub open spec fn is_empty_container(j: Json) -> bool {
    match j {
        Json::Object(fs) => fs@.len() == 0,
        Json::Array(v) => v@.len() == 0,
        _ => false,
    }
}

/// An owned copy of a string literal.
pub fn text(lit: &str) -> (r: String)
    ensures
        r@ == lit@,
{
    let r = lit.to_string();
    proof {
        broadcast use vstd::string::to_string_from_display_ensures_for_str;
    }
    r
}

/// Whether `s` spells the literal `lit`.
pub fn is_text(s: &String, lit: &str) -> (r: bool)
    ensures
        r == (s@ == lit@),
{
    let l = text(lit);
    *s == l
}

proof fn lemma_lookup_skip(fs: Seq<(String, Json)>, key: Seq<char>, i: int)
    requires
        0 <= i < fs.len(),
        fs[i].0@ != key,
    ensures
        lookup(fs.skip(i), key) == lookup(fs.skip(i + 1), key),
{
    assert(fs.skip(i).drop_first() =~= fs.skip(i + 1));
}

/// Index of the first member of `fs` whose key is `key`.
pub fn find_member(fs: &Vec<(String, Json)>, key: &str) -> (r: Option<usize>)
    ensures
        match r {
            Some(i) => i < fs@.len() && fs@[i as int].0@ == key@ && lookup(fs@, key@) == Some(
                fs@[i as int].1,
            ),
            None => lookup(fs@, key@) is None,
        },
{
    let k = text(key);
    let mut i: usize = 0;
    assert(fs@.skip(0) =~= fs@);
    while i < fs.len()
        invariant
            i <= fs@.len(),
            k@ == key@,
            lookup(fs@, key@) == lookup(fs@.skip(i as int), key@),
        decreases fs@.len() - i,
    {
        if fs[i].0 == k {
            return Some(i);
        }
        proof {
            lemma_lookup_skip(fs@, key@, i as int);
        }
        i = i + 1;
    }
    None
}

/// The value of the first member of `fs` whose key is `key`.
pub fn member<'a>(fs: &'a Vec<(String, Json)>, key: &str) -> (r: Option<&'a Json>)
    ensures
        match r {
            Some(j) => lookup(fs@, key@) == Some(*j),
            None => lookup(fs@, key@) is None,
        },
{
    match find_member(fs, key) {
        Some(i) => Some(&fs[i].1),
        None => None,
    }
}

/// Removing a member whose key is not `key` keeps what `key` finds.
pub proof fn lemma_lookup_remove(fs: Seq<(String, Json)>, i: int, key: Seq<char>)
    requires
        0 <= i < fs.len(),
        fs[i].0@ != key,
    ensures
        lookup(fs.remove(i), key) == lookup(fs, key),
    decreases fs.len(),
{
    if i == 0 {
        assert(fs.remove(0) =~= fs.drop_first());
    } else {
        assert(fs.remove(i)[0] == fs[0]);
        if fs[0].0@ != key {
            assert(fs.remove(i).drop_first() =~= fs.drop_first().remove(i - 1));
            lemma_lookup_remove(fs.drop_first(), i - 1, key);
        }
    }
}

/// Takes the value of the first member named `key` out of `fs`; what every
/// other key finds is unchanged.
pub fn take_member(fs: &mut Vec<(String, Json)>, key: &str) -> (r: Option<Json>)
    ensures
        r == lookup(old(fs)@, key@),
        forall|k: Seq<char>| k != key@ ==> #[trigger] lookup(final(fs)@, k) == lookup(old(fs)@, k),
{
    match find_member(fs, key) {
        Some(i) => {
            let ghost before = fs@;
            let (_, v) = fs.remove(i);
            proof {
                assert forall|k: Seq<char>| k != key@ implies #[trigger] lookup(fs@, k) == lookup(
                    before,
                    k,
                ) by {
                    lemma_lookup_remove(before, i as int, k);
                }
            }
            Some(v)
        },
        None => None,
    }
}

proof fn lemma_lookup_push(fs: Seq<(String, Json)>, e: (String, Json), q: Seq<char>)
    ensures
        lookup(fs.push(e), q) == (if lookup(fs, q) is Some {
            lookup(fs, q)
        } else if e.0@ == q {
            Some(e.1)
        } else {
            None
        }),
    decreases fs.len(),
{
    if fs.len() == 0 {
        assert(fs.push(e).drop_first() =~= Seq::<(String, Json)>::empty());
        assert(lookup(fs.push(e).drop_first(), q) is None);
    } else {
        assert(fs.push(e).drop_first() =~= fs.drop_first().push(e));
        lemma_lookup_push(fs.drop_first(), e, q);
    }
}

/// Appends the member `key: v` to `fs`. Keys already present keep what they
/// find; `key`, if new, now finds `v`.
pub fn push_member(fs: &mut Vec<(String, Json)>, key: &str, v: Json)
    ensures
        final(fs)@ == old(fs)@.push(final(fs)@.last()),
        final(fs)@.last().0@ == key@,
        final(fs)@.last().1 == v,
        forall|q: Seq<char>| #[trigger]
            lookup(final(fs)@, q) == (if lookup(old(fs)@, q) is Some {
                lookup(old(fs)@, q)
            } else if q == key@ {
                Some(v)
            } else {
                None
            }),
{
    let k = text(key);
    let ghost before = fs@;
    let ghost e = (k, v);
    fs.push((k, v));
    proof {
        assert(fs@.drop_last() =~= before);
        assert forall|q: Seq<char>| #[trigger]
            lookup(fs@, q) == (if lookup(before, q) is Some {
                lookup(before, q)
            } else if q == key@ {
                Some(v)
            } else {
                None
            }) by {
            lemma_lookup_push(before, e, q);
        }
    }
}

} // verus!
