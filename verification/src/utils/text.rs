use vstd::prelude::*;
use vstd::string::*;

verus! {

/// An owned copy of `text`.
pub fn copy_text(text: &String) -> (copy: String)
    ensures
        copy == *text,
        copy@ == text@,
{
    text.clone()
}

/// An owned copy of an optional text.
pub fn copy_optional_text(text: &Option<String>) -> (copy: Option<String>)
    ensures
        copy == *text,
        copy.deep_view() == text.deep_view(),
{
    match text {
        Some(inner) => Some(inner.clone()),
        None => None,
    }
}

/// Whether two texts hold the same characters.
pub fn same_text(left: &str, right: &str) -> (same: bool)
    ensures
        same == (left@ == right@),
{
    let owned_left = String::from_str(left);
    let owned_right = String::from_str(right);
    owned_left == owned_right
}

/// Whether `pattern` occurs in `text` as a run of neighbouring characters.
pub open spec fn spec_contains(text: Seq<char>, pattern: Seq<char>) -> bool {
    exists|at: int| spec_occurs_at(text, pattern, at)
}

/// Whether `pattern` stands in `text` from position `at` on.
pub open spec fn spec_occurs_at(text: Seq<char>, pattern: Seq<char>, at: int) -> bool {
    &&& 0 <= at
    &&& at + pattern.len() <= text.len()
    &&& text.subrange(at, at + pattern.len()) == pattern
}

/// The characters of `text`, one by one.
pub fn characters(text: &str) -> (list: Vec<char>)
    ensures
        list@ == text@,
{
    let length = text.unicode_len();
    let mut list: Vec<char> = Vec::new();
    let mut at: usize = 0;
    while at < length
        invariant
            length == text@.len(),
            at <= length,
            list@ == text@.take(at as int),
        decreases length - at,
    {
        list.push(text.get_char(at));
        at = at + 1;
        assert(list@ =~= text@.take(at as int));
    }
    assert(text@.take(length as int) =~= text@);
    list
}

fn occurs_at(text: &Vec<char>, pattern: &Vec<char>, at: usize) -> (found: bool)
    requires
        at + pattern@.len() <= text@.len(),
    ensures
        found == spec_occurs_at(text@, pattern@, at as int),
{
    let text_length = text.len();
    let mut offset: usize = 0;
    while offset < pattern.len()
        invariant
            text_length == text@.len(),
            at + pattern@.len() <= text@.len(),
            offset <= pattern@.len(),
            forall|i: int| 0 <= i < offset ==> text@[at + i] == pattern@[i],
        decreases pattern@.len() - offset,
    {
        if text[at + offset] != pattern[offset] {
            assert(text@.subrange(at as int, at + pattern@.len())[offset as int] == text@[at
                + offset]);
            return false;
        }
        offset = offset + 1;
    }
    assert(text@.subrange(at as int, at + pattern@.len()) =~= pattern@);
    true
}

/// Whether `pattern` occurs somewhere in `text`.
pub fn contains_text(text: &str, pattern: &str) -> (found: bool)
    ensures
        found == spec_contains(text@, pattern@),
{
    let text_list = characters(text);
    let pattern_list = characters(pattern);
    if pattern_list.len() > text_list.len() {
        return false;
    }
    let last = text_list.len() - pattern_list.len();
    let mut at: usize = 0;
    loop
        invariant
            text_list@ == text@,
            pattern_list@ == pattern@,
            last == text@.len() - pattern@.len(),
            at <= last,
            forall|i: int| 0 <= i < at ==> !spec_occurs_at(text@, pattern@, i),
        decreases last - at,
    {
        if occurs_at(&text_list, &pattern_list, at) {
            return true;
        }
        if at == last {
            return false;
        }
        at = at + 1;
    }
}

} // verus!
