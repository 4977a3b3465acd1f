//! Contents of the device selector.

use crate::device::listing_view;
use vstd::prelude::*;

verus! {

/// The single choice shown where there is no device to choose.
pub const NO_DEVICE: &'static str = "-";

/// The model of [`NO_DEVICE`]: a lone dash.
pub open spec fn placeholder() -> Seq<char> {
    seq!['-']
}

/// The choices that the selector offers for the outcome of an enumeration:
/// the devices in the order reported, or the placeholder alone where none
/// was found or the enumeration failed.
pub open spec fn choices_for<E>(listing: Result<Seq<Seq<char>>, E>) -> Seq<Seq<char>> {
    match listing {
        Ok(devices) => if devices.len() == 0 {
            seq![placeholder()]
        } else {
            devices
        },
        Err(_) => seq![placeholder()],
    }
}

/// Lays out the device selector for the outcome of an enumeration. The
/// result is never empty, so its first choice can always be selected.
pub fn device_choices<E>(listing: Result<Vec<String>, E>) -> (choices: Vec<String>)
    ensures
        choices.deep_view() == choices_for(listing_view(listing)),
        choices.len() > 0,
{
    match listing {
        Ok(devices) => {
            if devices.len() > 0 {
                return devices;
            }
        },
        Err(_) => {},
    }
    proof {
        reveal_strlit("-");
    }
    let mut choices: Vec<String> = Vec::new();
    choices.push(NO_DEVICE.to_owned());
    assert(choices.deep_view() =~= seq![placeholder()]) by {
        assert(choices@[0]@ =~= placeholder());
    }
    choices
}

} // verus!
