//! Bluetooth devices as BlueZ knows them.

use vstd::prelude::*;

use crate::error::{ConnectionError, ErrorView};
use crate::models::{find_text, text_at, ManagedObject, ManagedObjectView};
use crate::object_path::{is_path_char, valid_object_path, ObjectPath};
use crate::protocol::result_view;
use crate::text::{
    eq_ignore_ascii_case, joined, law_ignoring_case_is_an_equivalence, replace_char, replaced,
    same_ignoring_ascii_case,
};

verus! {

/// The text of the path at which an adapter keeps the device with an address.
pub open spec fn device_path_text(bdaddr: Seq<char>, adapter: Seq<char>) -> Seq<char> {
    "/org/bluez/"@ + adapter + "/dev_"@ + replaced(bdaddr, ':', '_')
}

/// The path at which an adapter keeps the device with an address, where that is a path.
pub open spec fn adapter_path(bdaddr: Seq<char>, adapter: Seq<char>) -> Result<
    Seq<char>,
    ErrorView,
> {
    let text = device_path_text(bdaddr, adapter);
    if valid_object_path(text) {
        Ok(text)
    } else {
        Err(
            ErrorView::InvalidAddress("Invalid BlueZ device path: "@ + "Invalid object path"@),
        )
    }
}

/// The path at which an adapter keeps the device with an address.
pub fn bluez_device_path_for_adapter(bdaddr: &str, adapter: &str) -> (path: Result<
    ObjectPath,
    ConnectionError,
>)
    ensures
        result_view(path) == adapter_path(bdaddr@, adapter@),
{
    let text: String = joined("/org/bluez/", adapter).concat("/dev_").concat(
        replace_char(bdaddr, ':', '_').as_str(),
    );
    match ObjectPath::parse(text) {
        Ok(path) => Ok(path),
        Err(message) => Err(
            ConnectionError::InvalidAddress(
                joined("Invalid BlueZ device path: ", message.as_str()),
            ),
        ),
    }
}

/// An adapter whose name is made of letters, digits and `_` keeps every device whose address is
/// made of these and `:` at an object path.
pub proof fn law_adapter_paths_are_valid(bdaddr: Seq<char>, adapter: Seq<char>)
    requires
        adapter.len() > 0,
        forall|i: int| 0 <= i < adapter.len() ==> is_path_char(#[trigger] adapter[i]),
        forall|i: int|
            0 <= i < bdaddr.len() ==> is_path_char(#[trigger] bdaddr[i]) || bdaddr[i] == ':',
    ensures
        adapter_path(bdaddr, adapter) == Ok::<Seq<char>, ErrorView>(
            device_path_text(bdaddr, adapter),
        ),
{
    reveal_strlit("/org/bluez/");
    reveal_strlit("/dev_");
    let text = device_path_text(bdaddr, adapter);
    let name = replaced(bdaddr, ':', '_');
    let n = adapter.len() as int;
    assert forall|i: int| 11 <= i < 11 + n implies is_path_char(#[trigger] text[i]) by {
        assert(text[i] == adapter[i - 11]);
    }
    assert forall|i: int| 16 + n <= i < text.len() implies is_path_char(#[trigger] text[i]) by {
        assert(text[i] == name[i - 16 - n]);
        assert(is_path_char(bdaddr[i - 16 - n]) || bdaddr[i - 16 - n] == ':');
    }
    assert(text[11 + n] == '/');
    assert(text[12 + n] == 'd');
    assert(text[13 + n] == 'e');
    assert(text[14 + n] == 'v');
    assert(text[15 + n] == '_');
    assert(valid_object_path(text));
}

/// The address of a device object.
pub open spec fn device_address(object: ManagedObjectView) -> Option<Seq<char>> {
    text_at(object.interfaces, "org.bluez.Device1"@, "Address"@)
}

/// Whether an object is a device with an address, in whatever case its letters are.
pub open spec fn has_address(object: ManagedObjectView, bdaddr: Seq<char>) -> bool {
    device_address(object) matches Some(address) && same_ignoring_ascii_case(address, bdaddr)
}

/// The path of the first object that is a device with an address.
pub open spec fn first_with_address(objects: Seq<ManagedObjectView>, bdaddr: Seq<char>) -> Option<
    Seq<char>,
>
    decreases objects.len(),
{
    if objects.len() == 0 {
        None
    } else if has_address(objects[0], bdaddr) {
        Some(objects[0].path)
    } else {
        first_with_address(objects.drop_first(), bdaddr)
    }
}

proof fn lemma_first_with_address(objects: Seq<ManagedObjectView>, bdaddr: Seq<char>, n: int)
    requires
        0 <= n <= objects.len(),
        forall|i: int| 0 <= i < n ==> !has_address(#[trigger] objects[i], bdaddr),
    ensures
        first_with_address(objects, bdaddr) == first_with_address(objects.skip(n), bdaddr),
    decreases n,
{
    if n == 0 {
        assert(objects.skip(0) =~= objects);
    } else {
        assert(!has_address(objects[0], bdaddr));
        lemma_first_with_address(objects.drop_first(), bdaddr, n - 1);
        assert(objects.drop_first().skip(n - 1) =~= objects.skip(n));
    }
}

/// The path of the first object that is a device with the address `bdaddr`.
pub fn find_bluez_device_path(objects: &Vec<ManagedObject>, bdaddr: &str) -> (path: Option<
    ObjectPath,
>)
    ensures
        path.deep_view() == first_with_address(objects.deep_view(), bdaddr@),
{
    let ghost all = objects.deep_view();
    for i in 0..objects.len()
        invariant
            all == objects.deep_view(),
            forall|j: int| 0 <= j < i ==> !has_address(#[trigger] all[j], bdaddr@),
    {
        let object: &ManagedObject = &objects[i];
        assert(all[i as int] == object.deep_view());
        if let Some(address) = find_text(&object.interfaces, "org.bluez.Device1", "Address") {
            if eq_ignore_ascii_case(address, bdaddr) {
                proof {
                    assert(has_address(all[i as int], bdaddr@));
                    lemma_first_with_address(all, bdaddr@, i as int);
                    assert(all.skip(i as int)[0] == all[i as int]);
                }
                return Some(object.path.clone());
            }
        }
    }
    proof {
        lemma_first_with_address(all, bdaddr@, all.len() as int);
    }
    None
}

/// A path is found exactly if an object is a device with the address, and it is the path of
/// such an object.
pub proof fn law_found_exactly_if_present(objects: Seq<ManagedObjectView>, bdaddr: Seq<char>)
    ensures
        first_with_address(objects, bdaddr) is Some <==> exists|i: int|
            0 <= i < objects.len() && has_address(#[trigger] objects[i], bdaddr),
        first_with_address(objects, bdaddr) matches Some(path) ==> exists|i: int|
            0 <= i < objects.len() && has_address(#[trigger] objects[i], bdaddr) && objects[i].path
                == path,
    decreases objects.len(),
{
    if objects.len() > 0 {
        let rest = objects.drop_first();
        law_found_exactly_if_present(rest, bdaddr);
        if has_address(objects[0], bdaddr) {
        } else {
            if first_with_address(rest, bdaddr) is Some {
                let i = choose|i: int|
                    0 <= i < rest.len() && has_address(#[trigger] rest[i], bdaddr) && rest[i].path
                        == first_with_address(rest, bdaddr)->0;
                assert(rest[i] == objects[i + 1]);
            }
            if exists|i: int|
                0 <= i < objects.len() && has_address(#[trigger] objects[i], bdaddr) {
                let i = choose|i: int|
                    0 <= i < objects.len() && has_address(#[trigger] objects[i], bdaddr);
                assert(objects[i] == rest[i - 1]);
            }
        }
    }
}

/// In which order BlueZ lists its objects makes no difference where at most one path belongs to
/// devices with the address: two listings of the same objects give the same path.
pub proof fn law_listing_order_does_not_matter(
    objects: Seq<ManagedObjectView>,
    reordered: Seq<ManagedObjectView>,
    bdaddr: Seq<char>,
)
    requires
        objects.to_multiset() == reordered.to_multiset(),
        forall|a: ManagedObjectView, b: ManagedObjectView|
            #![trigger objects.contains(a), objects.contains(b)]
            objects.contains(a) && objects.contains(b) && has_address(a, bdaddr) && has_address(
                b,
                bdaddr,
            ) ==> a.path == b.path,
    ensures
        first_with_address(objects, bdaddr) == first_with_address(reordered, bdaddr),
{
    objects.to_multiset_ensures();
    reordered.to_multiset_ensures();
    assert forall|o: ManagedObjectView| #[trigger] objects.contains(o) == reordered.contains(
        o,
    ) by {
        assert(objects.contains(o) <==> objects.to_multiset().count(o) > 0);
        assert(reordered.contains(o) <==> reordered.to_multiset().count(o) > 0);
    }
    law_found_exactly_if_present(objects, bdaddr);
    law_found_exactly_if_present(reordered, bdaddr);
    if first_with_address(objects, bdaddr) is Some {
        let path = first_with_address(objects, bdaddr)->0;
        let i = choose|i: int|
            0 <= i < objects.len() && has_address(#[trigger] objects[i], bdaddr) && objects[i].path
                == path;
        assert(objects.contains(objects[i]));
        assert(reordered.contains(objects[i]));
        let j = choose|j: int| 0 <= j < reordered.len() && reordered[j] == objects[i];
        assert(has_address(reordered[j], bdaddr));
        let other = first_with_address(reordered, bdaddr)->0;
        let k = choose|k: int|
            0 <= k < reordered.len() && has_address(#[trigger] reordered[k], bdaddr)
                && reordered[k].path == other;
        assert(reordered.contains(reordered[k]));
        assert(objects.contains(reordered[k]));
    } else {
        if first_with_address(reordered, bdaddr) is Some {
            let k = choose|k: int|
                0 <= k < reordered.len() && has_address(#[trigger] reordered[k], bdaddr);
            assert(reordered.contains(reordered[k]));
            assert(objects.contains(reordered[k]));
            let i = choose|i: int| 0 <= i < objects.len() && objects[i] == reordered[k];
            assert(has_address(objects[i], bdaddr));
        }
    }
}

/// In whatever case the letters of the address are asked for, the same device is found.
pub proof fn law_address_case_does_not_matter(
    objects: Seq<ManagedObjectView>,
    a: Seq<char>,
    b: Seq<char>,
)
    requires
        same_ignoring_ascii_case(a, b),
    ensures
        first_with_address(objects, a) == first_with_address(objects, b),
    decreases objects.len(),
{
    if objects.len() > 0 {
        law_address_case_does_not_matter(objects.drop_first(), a, b);
        if device_address(objects[0]) is Some {
            let address = device_address(objects[0])->0;
            law_ignoring_case_is_an_equivalence(address, a, b);
            law_ignoring_case_is_an_equivalence(a, b, b);
            law_ignoring_case_is_an_equivalence(address, b, a);
        }
    }
}

} // verus!
