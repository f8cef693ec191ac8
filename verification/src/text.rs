//! Small helpers on strings and optional strings.

use vstd::prelude::*;

verus! {

/// The characters of an optional string, where there is one.
pub open spec fn option_text(value: Option<String>) -> Option<Seq<char>> {
    match value {
        Some(s) => Some(s@),
        None => None,
    }
}

/// The characters of each string of a list.
pub open spec fn texts(values: Seq<String>) -> Seq<Seq<char>> {
    values.map_values(|s: String| s@)
}

/// The characters of each string of an optional list.
pub open spec fn option_texts(values: Option<Vec<String>>) -> Option<Seq<Seq<char>>> {
    match values {
        Some(v) => Some(texts(v@)),
        None => None,
    }
}

/// Whether two string slices hold the same characters.
pub fn str_eq(a: &str, b: &str) -> (same: bool)
    ensures
        same == (a@ == b@),
{
    a.to_owned() == b.to_owned()
}

/// A copy of an optional string.
pub fn clone_option_text(value: &Option<String>) -> (copy: Option<String>)
    ensures
        option_text(copy) == option_text(*value),
{
    match value {
        Some(s) => Some(s.clone()),
        None => None,
    }
}

/// A copy of a list of strings.
pub fn clone_texts(values: &Vec<String>) -> (copy: Vec<String>)
    ensures
        texts(copy@) == texts(values@),
{
    let mut copy: Vec<String> = Vec::new();
    let mut i: usize = 0;
    while i < values.len()
        invariant
            i <= values.len(),
            copy.len() == i,
            forall|j: int| 0 <= j < i ==> copy@[j]@ == values@[j]@,
        decreases values.len() - i,
    {
        copy.push(values[i].clone());
        i = i + 1;
    }
    assert(texts(copy@) =~= texts(values@));
    copy
}

/// A copy of an optional list of strings.
pub fn clone_option_texts(values: &Option<Vec<String>>) -> (copy: Option<Vec<String>>)
    ensures
        option_texts(copy) == option_texts(*values),
{
    match values {
        Some(v) => Some(clone_texts(v)),
        None => None,
    }
}

} // verus!
