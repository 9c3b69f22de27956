//! What comparing and rewriting text means, character by character.

use vstd::prelude::*;

use crate::object_path::{is_path_char, valid_object_path};
use crate::text::{replaced, same_ignoring_ascii_case};

verus! {

/// Two texts are the same but for the case of ASCII letters exactly if they are equally long and
/// at every place hold the same character or the two cases of one letter from `A` to `Z`.
pub proof fn law_only_the_case_of_letters_is_ignored(a: Seq<char>, b: Seq<char>)
    ensures
        same_ignoring_ascii_case(a, b) <==> a.len() == b.len() && forall|i: int|
            #![trigger a[i], b[i]]
            0 <= i < a.len() ==> {
                ||| a[i] == b[i]
                ||| 65 <= a[i] as int <= 90 && b[i] as int == a[i] as int + 32
                ||| 65 <= b[i] as int <= 90 && a[i] as int == b[i] as int + 32
            },
{
}

/// Replacing a character changes its occurrences and nothing else.
pub proof fn law_only_occurrences_are_replaced(text: Seq<char>, from: char, to: char)
    ensures
        replaced(text, from, to).len() == text.len(),
        forall|i: int|
            #![trigger replaced(text, from, to)[i]]
            0 <= i < text.len() ==> {
                &&& text[i] == from ==> replaced(text, from, to)[i] == to
                &&& text[i] != from ==> replaced(text, from, to)[i] == text[i]
            },
{
}

/// What may stand in an object path between two slashes: letters, digits and `_`, at least one.
pub open spec fn is_name(name: Seq<char>) -> bool {
    name.len() > 0 && forall|i: int|
        0 <= i < name.len() ==> {
            let code = (#[trigger] name[i]) as int;
            48 <= code <= 57 || 65 <= code <= 90 || code == 95 || 97 <= code <= 122
        }
}

/// Which texts are object paths, by what stands before and after their last slash: before it
/// another object path than `/` and after it a name; or nothing before it and after it a name or
/// nothing. A text without a slash is none.
pub proof fn law_object_paths_are_made_of_names(parent: Seq<char>, name: Seq<char>)
    requires
        forall|i: int| 0 <= i < name.len() ==> (#[trigger] name[i]) != '/',
    ensures
        !valid_object_path(name),
        valid_object_path(seq!['/'] + name) <==> name.len() == 0 || is_name(name),
        parent.len() == 1 ==> !valid_object_path(parent + seq!['/'] + name),
        parent.len() > 1 ==> (valid_object_path(parent + seq!['/'] + name) <==> valid_object_path(
            parent,
        ) && is_name(name)),
{
    let single = seq!['/'] + name;
    assert(single[0] == '/');
    assert(forall|i: int| 1 <= i < single.len() ==> (#[trigger] single[i]) == name[i - 1]);
    if valid_object_path(single) {
        assert forall|i: int| 0 <= i < name.len() implies is_path_char(#[trigger] name[i]) by {
            assert(single[i + 1] == name[i]);
        }
    }
    let n = parent.len() as int;
    let whole = parent + seq!['/'] + name;
    assert(forall|i: int| 0 <= i < n ==> (#[trigger] whole[i]) == parent[i]);
    assert(whole[n] == '/');
    assert(forall|i: int| n < i < whole.len() ==> (#[trigger] whole[i]) == name[i - n - 1]);
    if n == 1 {
        assert(whole[0] == parent[0]);
    }
    if n > 1 {
        if valid_object_path(parent) && is_name(name) {
            assert(whole[n - 1] == parent.last());
            assert(whole.last() == name.last());
            assert(valid_object_path(whole));
        }
        if valid_object_path(whole) {
            assert forall|i: int| 0 <= i < n implies is_path_char(#[trigger] parent[i])
                || parent[i] == '/' by {
                assert(whole[i] == parent[i]);
            }
            assert forall|i: int, j: int| #![trigger parent[i], parent[j]]
                0 <= i && j == i + 1 && j < n implies !(parent[i] == '/' && parent[j] == '/') by {
                assert(whole[i] == parent[i] && whole[j] == parent[j]);
            }
            assert(whole[n - 1] == parent[n - 1]);
            assert(whole[0] == parent[0]);
            assert forall|i: int| 0 <= i < name.len() implies is_path_char(#[trigger] name[i]) by {
                assert(whole[n + 1 + i] == name[i]);
            }
            assert(name.len() == 0 ==> whole.last() == '/');
        }
    }
}

} // verus!
