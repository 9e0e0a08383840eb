//! Small verified helpers on UTF-8 text.
use vstd::prelude::*;
use vstd::string::*;

verus! {

/// The character sequences of a sequence of owned strings.
pub open spec fn string_views(strings: Seq<String>) -> Seq<Seq<char>> {
    strings.map_values(|s: String| s@)
}

/// The character sequences of a sequence of string slices.
pub open spec fn str_views(strs: Seq<&str>) -> Seq<Seq<char>> {
    strs.map_values(|s: &str| s@)
}

/// Compares two string slices character by character.
pub fn text_equals(left: &str, right: &str) -> (equal: bool)
    ensures
        equal == (left@ == right@),
{
    let left_len = left.unicode_len();
    let right_len = right.unicode_len();
    if left_len != right_len {
        return false;
    }
    let mut i: usize = 0;
    while i < left_len
        invariant
            left_len == left@.len(),
            right_len == right@.len(),
            left_len == right_len,
            i <= left_len,
            forall|j: int| 0 <= j < i ==> left@[j] == right@[j],
        decreases left_len - i,
    {
        if left.get_char(i) != right.get_char(i) {
            return false;
        }
        i = i + 1;
    }
    assert(left@ =~= right@);
    true
}

/// Owned copies of a list of string slices, in the same order.
pub fn owned_strings(strs: &[&str]) -> (owned: Vec<String>)
    ensures
        string_views(owned@) == str_views(strs@),
{
    let mut owned: Vec<String> = Vec::new();
    append_owned_strings(&mut owned, strs);
    assert(string_views(owned@) =~= str_views(strs@));
    owned
}

/// Appends owned copies of `strs`, in order, to the end of `target`.
pub fn append_owned_strings(target: &mut Vec<String>, strs: &[&str])
    ensures
        string_views(final(target)@) == string_views(old(target)@) + str_views(strs@),
{
    let ghost start = string_views(target@);
    let mut i: usize = 0;
    while i < strs.len()
        invariant
            i <= strs@.len(),
            string_views(target@) =~= start + str_views(strs@.take(i as int)),
        decreases strs@.len() - i,
    {
        let ghost before = target@;
        let item = String::from_str(strs[i]);
        target.push(item);
        assert(string_views(target@) =~= string_views(before).push(strs@[i as int]@));
        assert(strs@.take(i as int + 1) =~= strs@.take(i as int).push(strs@[i as int]));
        assert(str_views(strs@.take(i as int + 1)) =~= str_views(strs@.take(i as int)).push(
            strs@[i as int]@,
        ));
        i = i + 1;
    }
    assert(strs@.take(strs@.len() as int) =~= strs@);
}

} // verus!
