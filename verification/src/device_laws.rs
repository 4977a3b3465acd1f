//! What holds of every enumeration of removable disks.

use crate::device::{
    enumeration, listing_view, registry_view, removable_disk_names, BlockDeviceEntry,
    DeviceRecord,
};
use vstd::prelude::*;

verus! {

/// The names that one record adds to an enumeration: its listed name, or
/// nothing.
pub open spec fn contribution(record: DeviceRecord) -> Seq<Seq<char>> {
    match record.listed_name() {
        Some(name) => seq![name],
        None => Seq::empty(),
    }
}

/// An enumeration fails exactly if the registry root could not be listed,
/// and then with the error of the listing. A registry without entries is no
/// failure: its enumeration is the empty list.
pub proof fn lemma_fails_only_with_registry<E>(registry: Result<Seq<DeviceRecord>, E>)
    ensures
        enumeration(registry) is Err <==> registry is Err,
        match registry {
            Ok(entries) => entries.len() == 0 ==> enumeration(registry) == Ok::<Seq<Seq<char>>, E>(
                Seq::empty(),
            ),
            Err(error) => enumeration(registry) == Err::<Seq<Seq<char>>, E>(error),
        },
{
}

/// Enumerating a registry to which one more record was appended gives the
/// enumeration of the registry as it was, followed by what the new record
/// contributes.
pub proof fn lemma_names_by_record(entries: Seq<DeviceRecord>, record: DeviceRecord)
    ensures
        removable_disk_names(entries.push(record)) == removable_disk_names(entries) + contribution(
            record,
        ),
{
    assert(entries.push(record).drop_last() =~= entries);
}

/// A name is reported exactly if the registry holds an entry of that name
/// whose removable flag is set and whose type code is that of a disk: no
/// entry is reported that fails either test, and none is missed that passes
/// both.
pub proof fn lemma_listed_iff_qualifies(entries: Seq<DeviceRecord>, name: Seq<char>)
    ensures
        removable_disk_names(entries).contains(name) <==> exists|i: int|
            0 <= i < entries.len() && (#[trigger] entries[i]).name == Some(name)
                && entries[i].is_removable() && entries[i].is_disk(),
    decreases entries.len(),
{
    if entries.len() > 0 {
        let rest = entries.drop_last();
        let names = removable_disk_names(entries);
        let rest_names = removable_disk_names(rest);
        lemma_names_by_record(rest, entries.last());
        lemma_listed_iff_qualifies(rest, name);
        if names.contains(name) {
            let k = choose|k: int| 0 <= k < names.len() && names[k] == name;
            if k < rest_names.len() {
                // The name was reported for an earlier entry already.
                assert(rest_names.contains(name));
            } else {
                assert(entries.last().listed_name() == Some(name));
            }
        }
        if exists|i: int|
            0 <= i < entries.len() && (#[trigger] entries[i]).name == Some(name)
                && entries[i].is_removable() && entries[i].is_disk() {
            let i = choose|i: int|
                0 <= i < entries.len() && (#[trigger] entries[i]).name == Some(name)
                    && entries[i].is_removable() && entries[i].is_disk();
            if i < rest.len() {
                assert(rest[i] == entries[i]);
                let k = choose|k: int| 0 <= k < rest_names.len() && rest_names[k] == name;
                assert(names[k] == name);
            } else {
                assert(names.last() == name);
            }
        }
    }
}

/// The reported names stand in registry order. The positions returned are
/// those of the entries behind the names, one for each name: they ascend,
/// each is the position of a listed entry of that name, and no listed entry
/// is passed over. The enumeration neither sorts nor drops nor repeats.
pub proof fn lemma_registry_order_kept(entries: Seq<DeviceRecord>) -> (positions: Seq<int>)
    ensures
        positions.len() == removable_disk_names(entries).len(),
        forall|k: int|
            0 <= k < positions.len() ==> 0 <= #[trigger] positions[k] < entries.len()
                && entries[positions[k]].listed_name() == Some(removable_disk_names(entries)[k]),
        forall|j: int, k: int|
            0 <= j < k < positions.len() ==> #[trigger] positions[j] < #[trigger] positions[k],
        forall|i: int|
            0 <= i < entries.len() && (#[trigger] entries[i]).listed_name() is Some
                ==> positions.contains(i),
    decreases entries.len(),
{
    if entries.len() == 0 {
        Seq::empty()
    } else {
        let rest = entries.drop_last();
        let last = entries.last();
        lemma_names_by_record(rest, last);
        let earlier = lemma_registry_order_kept(rest);
        let positions = if last.listed_name() is Some {
            earlier.push(entries.len() - 1)
        } else {
            earlier
        };
        assert forall|k: int| 0 <= k < positions.len() implies 0 <= #[trigger] positions[k]
            < entries.len() && entries[positions[k]].listed_name() == Some(
            removable_disk_names(entries)[k],
        ) by {
            if k < earlier.len() {
                assert(entries[earlier[k]] == rest[earlier[k]]);
            }
        }
        assert forall|i: int|
            0 <= i < entries.len() && (#[trigger] entries[i]).listed_name() is Some implies positions.contains(
        i) by {
            if i < rest.len() {
                assert(rest[i] == entries[i]);
                let k = choose|k: int| 0 <= k < earlier.len() && earlier[k] == i;
                assert(positions[k] == i);
            } else {
                assert(positions.last() == i);
            }
        }
        positions
    }
}

/// Enumerating an unchanged registry again gives the same outcome: the same
/// names in the same order, or the same error.
pub proof fn lemma_enumeration_repeatable<E>(
    registry: Result<Vec<BlockDeviceEntry>, E>,
    unchanged: Result<Vec<BlockDeviceEntry>, E>,
    first: Result<Vec<String>, E>,
    second: Result<Vec<String>, E>,
)
    requires
        registry_view(unchanged) == registry_view(registry),
        listing_view(first) == enumeration(registry_view(registry)),
        listing_view(second) == enumeration(registry_view(unchanged)),
    ensures
        listing_view(second) == listing_view(first),
{
}

} // verus!
