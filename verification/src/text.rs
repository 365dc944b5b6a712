//! Owned text and lists of text, copied with their contents known.

use vstd::prelude::*;

verus! {

/// A copy of `text`.
pub fn clone_text(text: &String) -> (res: String)
    ensures
        res@ == text@,
{
    text.clone()
}

/// A copy of an optional text.
pub fn clone_optional_text(text: &Option<String>) -> (res: Option<String>)
    ensures
        res.deep_view() == text.deep_view(),
{
    match text {
        Some(t) => Some(t.clone()),
        None => None,
    }
}

/// A copy of a list of texts, in the same order.
pub fn clone_texts(texts: &Vec<String>) -> (res: Vec<String>)
    ensures
        res.deep_view() == texts.deep_view(),
{
    let mut res: Vec<String> = Vec::new();
    let mut i: usize = 0;
    while i < texts.len()
        invariant
            i <= texts.len(),
            res.len() == i,
            forall|j: int| 0 <= j < i ==> res[j]@ == texts[j]@,
        decreases texts.len() - i,
    {
        res.push(texts[i].clone());
        i += 1;
    }
    assert(res.deep_view() =~= texts.deep_view());
    res
}

/// A copy of an optional list of texts.
pub fn clone_optional_texts(texts: &Option<Vec<String>>) -> (res: Option<Vec<String>>)
    ensures
        res.deep_view() == texts.deep_view(),
{
    match texts {
        Some(t) => Some(clone_texts(t)),
        None => None,
    }
}

/// `left` followed by `right`.
pub fn join_text(left: String, right: &str) -> (res: String)
    ensures
        res@ == left@ + right@,
{
    let mut res = left;
    res.append(right);
    res
}

/// The characters of `text`, in order.
pub fn chars_of(text: &str) -> (res: Vec<char>)
    ensures
        res@ == text@,
{
    let mut res: Vec<char> = Vec::new();
    for c in it: text.chars()
        invariant
            res@ == it.seq().take(it.index() as int),
            it.seq() == text@,
    {
        res.push(c);
    }
    res
}

/// Whether `part` stands in `whole` from the place `at` on.
pub open spec fn stands_at(whole: Seq<char>, part: Seq<char>, at: int) -> bool {
    &&& 0 <= at
    &&& at + part.len() <= whole.len()
    &&& forall|k: int| 0 <= k < part.len() ==> whole[at + k] == #[trigger] part[k]
}

/// Whether `part` stands somewhere in `whole`.
pub open spec fn contains_text(whole: Seq<char>, part: Seq<char>) -> bool {
    exists|at: int| stands_at(whole, part, at)
}

/// Whether `part` stands somewhere in `whole`.
pub fn contains(whole: &str, part: &str) -> (res: bool)
    ensures
        res == contains_text(whole@, part@),
{
    let whole_chars = chars_of(whole);
    let part_chars = chars_of(part);
    if part_chars.len() > whole_chars.len() {
        return false;
    }
    let last = whole_chars.len() - part_chars.len();
    let mut at: usize = 0;
    while at <= last
        invariant
            whole_chars@ == whole@,
            part_chars@ == part@,
            last + part_chars.len() == whole_chars.len(),
            at <= last + 1,
            forall|earlier: int| 0 <= earlier < at ==> !stands_at(whole@, part@, earlier),
        decreases last + 1 - at,
    {
        let mut k: usize = 0;
        while k < part_chars.len() && whole_chars[at + k] == part_chars[k]
            invariant
                whole_chars@ == whole@,
                part_chars@ == part@,
                at + part_chars.len() <= whole_chars.len(),
                k <= part_chars.len(),
                forall|j: int| 0 <= j < k ==> whole@[at + j] == #[trigger] part@[j],
            decreases part_chars.len() - k,
        {
            k += 1;
        }
        if k == part_chars.len() {
            assert(stands_at(whole@, part@, at as int));
            return true;
        }
        assert(!stands_at(whole@, part@, at as int)) by {
            assert(whole@[at + k] != part@[k as int]);
        }
        at += 1;
    }
    false
}

} // verus!
