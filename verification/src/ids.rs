//! Identifiers of entries and categories, and lists of them kept as sets.
//!
//! An identifier is the 128-bit number of a UUID.

use vstd::prelude::*;
use uuid::Builder;
use crate::crypto::primitives::os_random_bytes;

verus! {

/// The number that the bytes spell, the first byte the most significant.
pub open spec fn big_endian(bytes: Seq<u8>) -> u128
    decreases bytes.len(),
{
    if bytes.len() == 0 {
        0
    } else {
        (big_endian(bytes.drop_last()) << 8) | (bytes.last() as u128)
    }
}

/// The number `raw` with the marks of a random identifier set: version 4 in
/// the high half of the seventh byte, and the variant of RFC 4122 in the top
/// two bits of the ninth.
pub open spec fn marked_random(raw: u128) -> u128 {
    (raw & 0xFFFF_FFFF_FFFF_4FFF_BFFF_FFFF_FFFF_FFFF) | 0x4000_8000_0000_0000_0000
}

/// Whether the identifier carries the marks of a random one.
pub open spec fn is_random_id(id: u128) -> bool {
    id & 0xF000_C000_0000_0000_0000 == 0x4000_8000_0000_0000_0000
}

/// `uuid::Builder::from_random_bytes`, `Builder::into_uuid` and
/// `Uuid::as_u128`: the number of the random identifier made of the 16
/// bytes. The builder sets the version and the variant and leaves every
/// other bit as it is.
#[verifier::external_body]
fn id_of_random_bytes(bytes: &[u8]) -> (id: u128)
    requires
        bytes@.len() == 16,
    ensures
        id == marked_random(big_endian(bytes@)),
{
    let mut raw = [0u8; 16];
    raw.copy_from_slice(bytes);
    Builder::from_random_bytes(raw).into_uuid().as_u128()
}

/// A fresh random identifier, made of 16 bytes from the operating system's
/// generator; `None` where it gives none.
pub(crate) fn fresh_id() -> (id: Option<u128>)
    ensures
        id matches Some(number) ==> is_random_id(number),
{
    match os_random_bytes(16) {
        Some(bytes) => {
            let id = id_of_random_bytes(bytes.as_slice());
            proof {
                let raw = big_endian(bytes@);
                assert(((raw & 0xFFFF_FFFF_FFFF_4FFF_BFFF_FFFF_FFFF_FFFFu128)
                    | 0x4000_8000_0000_0000_0000u128) & 0xF000_C000_0000_0000_0000u128
                    == 0x4000_8000_0000_0000_0000u128) by (bit_vector);
            }
            Some(id)
        },
        None => None,
    }
}

/// The test for being another identifier than `id`.
pub open spec fn is_other_than(id: u128) -> spec_fn(u128) -> bool {
    |other: u128| other != id
}

/// The list without `id`, the others in their order.
pub open spec fn without(ids: Seq<u128>, id: u128) -> Seq<u128> {
    ids.filter(is_other_than(id))
}

/// The list with `id`: as it is where it holds `id` already, else with `id`
/// at its end.
pub open spec fn with(ids: Seq<u128>, id: u128) -> Seq<u128> {
    if ids.contains(id) {
        ids
    } else {
        ids.push(id)
    }
}

/// Tells whether the list holds the identifier.
pub fn holds_id(ids: &Vec<u128>, id: u128) -> (found: bool)
    ensures
        found == ids@.contains(id),
{
    let mut i: usize = 0;
    while i < ids.len()
        invariant
            i <= ids.len(),
            forall|j: int| 0 <= j < i ==> ids@[j] != id,
        decreases ids.len() - i,
    {
        if ids[i] == id {
            return true;
        }
        i = i + 1;
    }
    false
}

/// Puts the identifier into the list unless it is there already, and tells
/// whether it was put in.
pub fn insert_id(ids: &mut Vec<u128>, id: u128) -> (added: bool)
    ensures
        added == !old(ids)@.contains(id),
        final(ids)@ == with(old(ids)@, id),
{
    if holds_id(ids, id) {
        false
    } else {
        ids.push(id);
        true
    }
}

/// Takes the identifier out of the list, wherever it stands, and tells
/// whether it was there.
pub fn remove_id(ids: &mut Vec<u128>, id: u128) -> (removed: bool)
    ensures
        removed == old(ids)@.contains(id),
        final(ids)@ == without(old(ids)@, id),
{
    let ghost before = ids@;
    let mut kept: Vec<u128> = Vec::new();
    let mut removed = false;
    let mut i: usize = 0;
    proof {
        reveal(Seq::filter);
        assert(before.subrange(0, 0) =~= Seq::<u128>::empty());
    }
    while i < ids.len()
        invariant
            i <= ids.len(),
            ids@ == before,
            kept@ == without(before.subrange(0, i as int), id),
            removed == before.subrange(0, i as int).contains(id),
        decreases ids.len() - i,
    {
        let current = ids[i];
        proof {
            reveal(Seq::filter);
            let shorter = before.subrange(0, i as int);
            let longer = before.subrange(0, i + 1);
            assert(longer.drop_last() =~= shorter);
            assert(longer.last() == current);
            assert(longer =~= shorter.push(current));
            if shorter.contains(id) {
                let j = choose|j: int| 0 <= j < shorter.len() && shorter[j] == id;
                assert(longer[j] == id);
            }
            if longer.contains(id) && current != id {
                let j = choose|j: int| 0 <= j < longer.len() && longer[j] == id;
                assert(shorter[j] == id);
            }
        }
        if current == id {
            removed = true;
        } else {
            kept.push(current);
        }
        i = i + 1;
    }
    proof {
        assert(before.subrange(0, i as int) =~= before);
    }
    *ids = kept;
    removed
}

/// Taking an identifier out leaves none of it behind, and keeps every other
/// identifier.
pub proof fn lemma_without(ids: Seq<u128>, id: u128)
    ensures
        !without(ids, id).contains(id),
        forall|other: u128|
            other != id ==> (#[trigger] without(ids, id).contains(other) <==> ids.contains(other)),
        without(ids, id).len() <= ids.len(),
        ids.no_duplicates() ==> without(ids, id).no_duplicates(),
        !ids.contains(id) ==> without(ids, id) == ids,
    decreases ids.len(),
{
    reveal(Seq::filter);
    if ids.len() > 0 {
        let rest = ids.drop_last();
        let last = ids.last();
        lemma_without(rest, id);
        let kept = without(rest, id);
        assert forall|other: u128| other != id implies (#[trigger] without(ids, id).contains(other)
            <==> ids.contains(other)) by {
            if without(ids, id).contains(other) {
                let j = choose|j: int| 0 <= j < without(ids, id).len() && without(ids, id)[j] == other;
                if last != id && j == kept.len() {
                    assert(ids[ids.len() - 1] == other);
                } else {
                    assert(kept[j] == other);
                    assert(kept.contains(other));
                    let k = choose|k: int| 0 <= k < rest.len() && rest[k] == other;
                    assert(ids[k] == other);
                }
            }
            if ids.contains(other) {
                let k = choose|k: int| 0 <= k < ids.len() && ids[k] == other;
                if k == ids.len() - 1 {
                    assert(without(ids, id)[kept.len() as int] == other);
                } else {
                    assert(rest[k] == other);
                    assert(kept.contains(other));
                    let j = choose|j: int| 0 <= j < kept.len() && kept[j] == other;
                    assert(without(ids, id)[j] == other);
                }
            }
        }
        if without(ids, id).contains(id) {
            let j = choose|j: int| 0 <= j < without(ids, id).len() && without(ids, id)[j] == id;
            assert(kept[j] == id);
        }
        if ids.no_duplicates() {
            assert(rest.no_duplicates());
            if last != id {
                assert(!rest.contains(last)) by {
                    if rest.contains(last) {
                        let k = choose|k: int| 0 <= k < rest.len() && rest[k] == last;
                        assert(ids[k] == ids[ids.len() - 1]);
                    }
                }
                assert(!kept.contains(last));
            }
        }
        if !ids.contains(id) {
            assert(!rest.contains(id)) by {
                if rest.contains(id) {
                    let k = choose|k: int| 0 <= k < rest.len() && rest[k] == id;
                    assert(ids[k] == id);
                }
            }
            assert(last != id) by {
                assert(ids[ids.len() - 1] == last);
            }
            assert(without(ids, id) =~= ids);
        }
    }
}

/// Putting an identifier in keeps a list without repetitions so.
pub proof fn lemma_with(ids: Seq<u128>, id: u128)
    ensures
        with(ids, id).contains(id),
        forall|other: u128|
            other != id ==> (#[trigger] with(ids, id).contains(other) <==> ids.contains(other)),
        ids.no_duplicates() ==> with(ids, id).no_duplicates(),
{
    if !ids.contains(id) {
        assert(ids.push(id)[ids.len() as int] == id);
        assert forall|other: u128| other != id implies (#[trigger] ids.push(id).contains(other)
            <==> ids.contains(other)) by {
            if ids.push(id).contains(other) {
                let j = choose|j: int| 0 <= j < ids.push(id).len() && ids.push(id)[j] == other;
                assert(ids[j] == other);
            }
            if ids.contains(other) {
                let j = choose|j: int| 0 <= j < ids.len() && ids[j] == other;
                assert(ids.push(id)[j] == other);
            }
        }
    }
}

/// The identifiers of a list, each once.
pub fn unique_ids(ids: &Vec<u128>) -> (unique: Vec<u128>)
    ensures
        unique@.no_duplicates(),
        forall|id: u128| #[trigger] unique@.contains(id) <==> ids@.contains(id),
{
    let mut unique: Vec<u128> = Vec::new();
    let mut i: usize = 0;
    while i < ids.len()
        invariant
            i <= ids.len(),
            unique@.no_duplicates(),
            forall|id: u128|
                #[trigger] unique@.contains(id) <==> exists|j: int| 0 <= j < i && ids@[j] == id,
        decreases ids.len() - i,
    {
        let ghost before = unique@;
        insert_id(&mut unique, ids[i]);
        proof {
            lemma_with(before, ids@[i as int]);
            assert forall|id: u128| #[trigger]
                unique@.contains(id) <==> exists|j: int| 0 <= j < i + 1 && ids@[j] == id by {
                if id != ids@[i as int] {
                    assert(unique@.contains(id) <==> before.contains(id));
                    if exists|j: int| 0 <= j < i + 1 && ids@[j] == id {
                        let j = choose|j: int| 0 <= j < i + 1 && ids@[j] == id;
                        assert(j < i);
                    }
                }
            }
        }
        i = i + 1;
    }
    unique
}

/// The identifiers of the first list that the second holds too, in the
/// order of the first.
pub fn common_ids(first: &Vec<u128>, second: &Vec<u128>) -> (common: Vec<u128>)
    ensures
        first@.no_duplicates() ==> common@.no_duplicates(),
        forall|id: u128|
            #[trigger] common@.contains(id) <==> first@.contains(id) && second@.contains(id),
{
    let mut common: Vec<u128> = Vec::new();
    let mut i: usize = 0;
    while i < first.len()
        invariant
            i <= first.len(),
            first@.no_duplicates() ==> common@.no_duplicates(),
            forall|id: u128|
                #[trigger] common@.contains(id) <==> second@.contains(id) && exists|j: int|
                    0 <= j < i && first@[j] == id,
        decreases first.len() - i,
    {
        let current = first[i];
        if holds_id(second, current) {
            let ghost before = common@;
            proof {
                if first@.no_duplicates() && before.contains(current) {
                    let j = choose|j: int| 0 <= j < i && first@[j] == current;
                    assert(first@[j] == first@[i as int]);
                }
            }
            common.push(current);
            proof {
                assert(common@[before.len() as int] == current);
                assert forall|id: u128| #[trigger]
                    common@.contains(id) <==> second@.contains(id) && exists|j: int|
                        0 <= j < i + 1 && first@[j] == id by {
                    if common@.contains(id) {
                        let k = choose|k: int| 0 <= k < common@.len() && common@[k] == id;
                        if k < before.len() {
                            assert(before[k] == id);
                            assert(before.contains(id));
                            let j = choose|j: int| 0 <= j < i && first@[j] == id;
                            assert(0 <= j < i + 1 && first@[j] == id);
                        } else {
                            assert(first@[i as int] == id);
                        }
                    }
                    if second@.contains(id) && exists|j: int| 0 <= j < i + 1 && first@[j] == id {
                        let j = choose|j: int| 0 <= j < i + 1 && first@[j] == id;
                        if j < i {
                            assert(before.contains(id));
                            let k = choose|k: int| 0 <= k < before.len() && before[k] == id;
                            assert(common@[k] == id);
                        } else {
                            assert(common@[before.len() as int] == id);
                        }
                    }
                }
            }
        } else {
            proof {
                assert forall|id: u128| #[trigger]
                    common@.contains(id) <==> second@.contains(id) && exists|j: int|
                        0 <= j < i + 1 && first@[j] == id by {
                    if second@.contains(id) && exists|j: int| 0 <= j < i + 1 && first@[j] == id {
                        let j = choose|j: int| 0 <= j < i + 1 && first@[j] == id;
                        assert(j < i);
                    }
                }
            }
        }
        i = i + 1;
    }
    proof {
        assert forall|id: u128| #[trigger]
            common@.contains(id) <==> first@.contains(id) && second@.contains(id) by {
            if first@.contains(id) {
                let j = choose|j: int| 0 <= j < first@.len() && first@[j] == id;
                assert(0 <= j < i && first@[j] == id);
            }
        }
    }
    common
}

} // verus!
