//! Discovery of removable disks in a snapshot of the block-device registry.

use vstd::prelude::*;

verus! {

/// Directory whose entries are the block devices known to the kernel.
pub const REGISTRY_ROOT: &'static str = "/sys/block";

/// Path of the removable flag, relative to a registry entry.
pub const REMOVABLE_ATTRIBUTE: &'static str = "removable";

/// Path of the device type code, relative to a registry entry.
pub const DEVICE_TYPE_ATTRIBUTE: &'static str = "device/type";

/// First byte of the removable flag of a device that can be detached: the
/// ASCII digit `1`.
pub const REMOVABLE_SET: u8 = 0x31;

/// First byte of the device type code of the generic disk class, as opposed
/// to tape, optical media and the like: the ASCII digit `0`.
pub const SCSI_TYPE_DISK: u8 = 0x30;

/// What reading the first byte of one attribute of a registry entry gave.
#[derive(Clone, Copy, Debug, PartialEq, Eq, Structural)]
pub enum AttributeRead {
    /// The attribute was opened and this is its first byte.
    FirstByte(u8),
    /// The attribute was opened and holds no byte.
    Empty,
    /// The attribute does not exist, could not be opened or could not be read.
    Unreadable,
}

/// Tells whether an attribute yielded `value` as its first byte. An attribute
/// that yielded no byte, for whatever reason, matches no value.
pub fn check_first_byte(read: AttributeRead, value: u8) -> (found: bool)
    ensures
        found <==> read == AttributeRead::FirstByte(value),
{
    match read {
        AttributeRead::FirstByte(data) => data == value,
        AttributeRead::Empty => false,
        AttributeRead::Unreadable => false,
    }
}

/// One record of the block-device registry, as read at one moment: its name
/// and what the first byte of each of its two attributes gave. A fresh set of
/// entries is read for every enumeration.
#[derive(Debug)]
pub struct BlockDeviceEntry {
    /// The name of the entry, or `None` where the registry's name for it is
    /// not valid Unicode.
    pub name: Option<String>,
    /// What reading [`REMOVABLE_ATTRIBUTE`] gave.
    pub removable: AttributeRead,
    /// What reading [`DEVICE_TYPE_ATTRIBUTE`] gave.
    pub device_type: AttributeRead,
}

/// The mathematical model of a [`BlockDeviceEntry`]: the same record, with
/// its name as a sequence of characters.
pub struct DeviceRecord {
    /// The characters of the name, where the entry has one.
    pub name: Option<Seq<char>>,
    /// What reading the removable flag gave.
    pub removable: AttributeRead,
    /// What reading the device type code gave.
    pub device_type: AttributeRead,
}

impl DeviceRecord {
    /// The device can be physically detached.
    pub open spec fn is_removable(self) -> bool {
        self.removable == AttributeRead::FirstByte(REMOVABLE_SET)
    }

    /// The device is a whole disk of the generic disk class.
    pub open spec fn is_disk(self) -> bool {
        self.device_type == AttributeRead::FirstByte(SCSI_TYPE_DISK)
    }

    /// The name under which the record is reported as an imaging target, or
    /// `None` where it is not reported: it has to be a removable disk, and
    /// its name has to be representable.
    pub open spec fn listed_name(self) -> Option<Seq<char>> {
        if self.is_removable() && self.is_disk() {
            self.name
        } else {
            None
        }
    }
}

impl View for BlockDeviceEntry {
    type V = DeviceRecord;

    open spec fn view(&self) -> DeviceRecord {
        DeviceRecord {
            name: match self.name {
                Some(name) => Some(name@),
                None => None,
            },
            removable: self.removable,
            device_type: self.device_type,
        }
    }
}

impl DeepView for BlockDeviceEntry {
    type V = DeviceRecord;

    open spec fn deep_view(&self) -> DeviceRecord {
        self.view()
    }
}

impl Clone for BlockDeviceEntry {
    fn clone(&self) -> (copy: Self)
        ensures
            copy@ == self@,
    {
        BlockDeviceEntry {
            name: match &self.name {
                Some(name) => Some(name.clone()),
                None => None,
            },
            removable: self.removable,
            device_type: self.device_type,
        }
    }
}

/// Tells whether the entry's removable flag is set. A flag that could not be
/// read counts as not set.
pub fn is_removable(entry: &BlockDeviceEntry) -> (removable: bool)
    ensures
        removable == entry@.is_removable(),
{
    check_first_byte(entry.removable, REMOVABLE_SET)
}

/// Tells whether the entry's device type code is that of a disk. A code that
/// could not be read counts as some other type.
pub fn is_disk(entry: &BlockDeviceEntry) -> (disk: bool)
    ensures
        disk == entry@.is_disk(),
{
    check_first_byte(entry.device_type, SCSI_TYPE_DISK)
}

/// The rule by which a record contributes to an enumeration: its name where
/// it is listed, nothing where it is not.
pub open spec fn listing_rule() -> spec_fn(DeviceRecord) -> Option<Seq<char>> {
    |record: DeviceRecord| record.listed_name()
}

/// The names of the removable disks among `entries`, each as often as it is
/// listed, in the order of `entries`.
pub open spec fn removable_disk_names(entries: Seq<DeviceRecord>) -> Seq<Seq<char>> {
    entries.filter_map(listing_rule())
}

/// The outcome that enumerating `registry` has: the names of its removable
/// disks where the registry root was listed, and the listing's own error
/// where it was not.
pub open spec fn enumeration<E>(
    registry: Result<Seq<DeviceRecord>, E>,
) -> Result<Seq<Seq<char>>, E> {
    match registry {
        Ok(entries) => Ok(removable_disk_names(entries)),
        Err(error) => Err(error),
    }
}

/// The model of what listing the registry root gave.
pub open spec fn registry_view<E>(
    registry: Result<Vec<BlockDeviceEntry>, E>,
) -> Result<Seq<DeviceRecord>, E> {
    match registry {
        Ok(entries) => Ok(entries.deep_view()),
        Err(error) => Err(error),
    }
}

/// The model of what an enumeration returned.
pub open spec fn listing_view<E>(listing: Result<Vec<String>, E>) -> Result<Seq<Seq<char>>, E> {
    match listing {
        Ok(devices) => Ok(devices.deep_view()),
        Err(error) => Err(error),
    }
}

/// Reports the removable disks of a registry snapshot.
///
/// `registry` is what listing the registry root gave: its entries in the
/// order in which the registry yielded them, or the error that kept the root
/// from being listed. A failed listing fails the enumeration with the same
/// error, and no partial list is produced. Otherwise the result holds the
/// name of every entry that is both removable and a disk, in registry order;
/// an entry whose attributes could not be read is left out and fails nothing.
pub fn list_removable_disks<E>(
    registry: Result<Vec<BlockDeviceEntry>, E>,
) -> (listing: Result<Vec<String>, E>)
    ensures
        listing_view(listing) == enumeration(registry_view(registry)),
{
    let entries = match registry {
        Ok(entries) => entries,
        Err(error) => {
            return Err(error);
        },
    };
    let ghost records = entries.deep_view();
    let mut devices: Vec<String> = Vec::new();
    let mut i: usize = 0;
    while i < entries.len()
        invariant
            i <= entries.len(),
            records == entries.deep_view(),
            devices.deep_view() == removable_disk_names(records.take(i as int)),
        decreases entries.len() - i,
    {
        let entry = &entries[i];
        proof {
            records.lemma_filter_map_take_succ(listing_rule(), i as int);
        }
        if is_removable(entry) && is_disk(entry) {
            if let Some(device) = &entry.name {
                devices.push(device.clone());
            }
        }
        i += 1;
    }
    assert(records.take(i as int) =~= records);
    Ok(devices)
}

} // verus!
