//! D-Bus object paths.

use vstd::prelude::*;

verus! {

/// A character that may stand in an element of an object path.
pub open spec fn is_path_char(c: char) -> bool {
    ||| 'a' <= c <= 'z'
    ||| 'A' <= c <= 'Z'
    ||| '0' <= c <= '9'
    ||| c == '_'
}

/// What makes a text an object path: it starts with `/`, holds only letters, digits, `_`
/// and `/`, has no two `/` in a row, and, unless it is `/` itself, does not end in `/`.
pub open spec fn valid_object_path(path: Seq<char>) -> bool {
    &&& path.len() > 0
    &&& path[0] == '/'
    &&& forall|i: int| 0 <= i < path.len() ==> is_path_char(#[trigger] path[i]) || path[i] == '/'
    &&& forall|i: int, j: int| #![trigger path[i], path[j]]
        0 <= i && j == i + 1 && j < path.len() ==> !(path[i] == '/' && path[j] == '/')
    &&& path.len() > 1 ==> path.last() != '/'
}

/// `zvariant::OwnedObjectPath::try_from`: takes exactly the texts that are object paths, keeps
/// their text, and has one error for all others, whose message is `Invalid object path`.
#[verifier::external_body]
fn checked_path(path: String) -> (checked: Result<String, String>)
    ensures
        checked is Ok <==> valid_object_path(path@),
        checked matches Ok(text) ==> text@ == path@,
        checked matches Err(message) ==> message@ == "Invalid object path"@,
{
    match zvariant::OwnedObjectPath::try_from(path) {
        Ok(checked) => Ok(checked.as_str().to_owned()),
        Err(error) => Err(error.to_string()),
    }
}

/// A valid D-Bus object path.
#[derive(Debug)]
pub struct ObjectPath {
    path: String,
}

impl View for ObjectPath {
    type V = Seq<char>;

    closed spec fn view(&self) -> Seq<char> {
        self.path@
    }
}

impl DeepView for ObjectPath {
    type V = Seq<char>;

    open spec fn deep_view(&self) -> Seq<char> {
        self@
    }
}

impl ObjectPath {
    #[verifier::type_invariant]
    spec fn valid(self) -> bool {
        valid_object_path(self.path@)
    }

    /// The object path that `path` spells, or why it spells none.
    pub fn parse(path: String) -> (parsed: Result<ObjectPath, String>)
        ensures
            parsed is Ok <==> valid_object_path(path@),
            parsed matches Ok(p) ==> p@ == path@,
            parsed matches Err(message) ==> message@ == "Invalid object path"@,
    {
        match checked_path(path) {
            Ok(path) => Ok(ObjectPath { path }),
            Err(message) => Err(message),
        }
    }

    /// The text of the path.
    pub fn as_str(&self) -> (text: &str)
        ensures
            text@ == self@,
            valid_object_path(text@),
    {
        proof {
            use_type_invariant(self);
        }
        self.path.as_str()
    }
}

impl Clone for ObjectPath {
    fn clone(&self) -> (copy: Self)
        ensures
            copy@ == self@,
    {
        proof {
            use_type_invariant(self);
        }
        ObjectPath { path: self.path.clone() }
    }
}

impl Default for ObjectPath {
    /// The path of the root object, `/`.
    fn default() -> (root: Self)
        ensures
            root@ == "/"@,
    {
        proof {
            reveal_strlit("/");
        }
        ObjectPath { path: "/".to_owned() }
    }
}

} // verus!
