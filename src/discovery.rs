//! Choice of the peripheral and of the characteristic to subscribe to.
//!
//! A peripheral is seen through the services it advertises: `None` when its
//! properties could not be read, else the list of service UUIDs.
use vstd::prelude::*;
use crate::ble::{heart_rate_service, heart_rate_service_uuid, heart_rate_measurement, heart_rate_measurement_uuid};

verus! {

/// Whether a peripheral advertises the heart-rate service.
pub open spec fn advertises_heart_rate(services: Option<Seq<u128>>) -> bool {
    match services {
        Some(s) => s.contains(heart_rate_service_uuid()),
        None => false,
    }
}

/// The view of a list of peripherals: each one's advertised services.
pub open spec fn peripherals_view(peripherals: Seq<Option<Vec<u128>>>) -> Seq<Option<Seq<u128>>> {
    peripherals.map_values(|p: Option<Vec<u128>>| match p {
        Some(v) => Some(v@),
        None => None,
    })
}

/// For each peripheral, whether it advertises the heart-rate service.
pub open spec fn heart_rate_flags(peripherals: Seq<Option<Seq<u128>>>) -> Seq<bool> {
    peripherals.map_values(|p: Option<Seq<u128>>| advertises_heart_rate(p))
}

/// The index of the first peripheral, in enumeration order, that advertises
/// the heart-rate service.
pub open spec fn first_heart_rate_device(peripherals: Seq<Option<Seq<u128>>>) -> Option<int> {
    heart_rate_flags(peripherals).index_of_first(true)
}

/// The index of the first characteristic with the heart-rate measurement UUID.
pub open spec fn heart_rate_characteristic_index(characteristics: Seq<u128>) -> Option<int> {
    characteristics.index_of_first(heart_rate_measurement_uuid())
}

/// Whether a list of service UUIDs holds the heart-rate service.
fn services_hold_heart_rate(services: &Vec<u128>) -> (r: bool)
    ensures
        r == services@.contains(heart_rate_service_uuid()),
{
    let hr = heart_rate_service();
    let mut i: usize = 0;
    while i < services.len()
        invariant
            hr == heart_rate_service_uuid(),
            0 <= i <= services@.len(),
            forall|j: int| 0 <= j < i ==> services@[j] != hr,
        decreases services@.len() - i,
    {
        if services[i] == hr {
            return true;
        }
        i = i + 1;
    }
    false
}

/// Picks the first peripheral that advertises the heart-rate service, or
/// `None` when no peripheral does, whatever other services they advertise.
pub fn find_hr_device(peripherals: &Vec<Option<Vec<u128>>>) -> (r: Option<usize>)
    ensures
        r == (match first_heart_rate_device(peripherals_view(peripherals@)) {
            Some(i) => Some(i as usize),
            None => None,
        }),
        r is None <==> forall|i: int| 0 <= i < peripherals@.len()
            ==> !advertises_heart_rate(peripherals_view(peripherals@)[i]),
        r matches Some(i) ==> i < peripherals@.len()
            && advertises_heart_rate(peripherals_view(peripherals@)[i as int])
            && forall|j: int| 0 <= j < i ==> !advertises_heart_rate(peripherals_view(peripherals@)[j]),
{
    let ghost view = peripherals_view(peripherals@);
    let ghost flags = heart_rate_flags(view);
    proof {
        flags.index_of_first_ensures(true);
    }
    let mut i: usize = 0;
    while i < peripherals.len()
        invariant
            view == peripherals_view(peripherals@),
            flags == heart_rate_flags(view),
            flags.len() == peripherals@.len(),
            0 <= i <= peripherals@.len(),
            forall|j: int| 0 <= j < i ==> !advertises_heart_rate(view[j]),
            match flags.index_of_first(true) {
                Some(index) => {
                    &&& 0 <= index < flags.len()
                    &&& flags[index] == true
                    &&& forall|j: int| 0 <= j < index < flags.len() ==> flags[j] != true
                },
                None => !flags.contains(true),
            },
        decreases peripherals@.len() - i,
    {
        let found = match &peripherals[i] {
            Some(services) => services_hold_heart_rate(services),
            None => false,
        };
        if found {
            assert(flags[i as int]);
            assert forall|j: int| 0 <= j < i implies flags[j] != true by {
                assert(!advertises_heart_rate(view[j]));
            }
            assert(flags.contains(true));
            return Some(i);
        }
        i = i + 1;
    }
    assert forall|j: int| 0 <= j < flags.len() implies flags[j] != true by {
        assert(!advertises_heart_rate(view[j]));
    }
    None
}

/// Locates the heart-rate measurement characteristic among the characteristics
/// of a connected peripheral: the index of the first one with its UUID.
pub fn find_hr_characteristic(characteristics: &Vec<u128>) -> (r: Option<usize>)
    ensures
        r == (match heart_rate_characteristic_index(characteristics@) {
            Some(i) => Some(i as usize),
            None => None,
        }),
        r is None <==> !characteristics@.contains(heart_rate_measurement_uuid()),
        r matches Some(i) ==> i < characteristics@.len() && characteristics@[i as int]
            == heart_rate_measurement_uuid(),
{
    let hr = heart_rate_measurement();
    proof {
        characteristics@.index_of_first_ensures(hr);
    }
    let mut i: usize = 0;
    while i < characteristics.len()
        invariant
            hr == heart_rate_measurement_uuid(),
            0 <= i <= characteristics@.len(),
            forall|j: int| 0 <= j < i ==> characteristics@[j] != hr,
            match characteristics@.index_of_first(hr) {
                Some(index) => {
                    &&& characteristics@.contains(hr)
                    &&& 0 <= index < characteristics@.len()
                    &&& characteristics@[index] == hr
                    &&& forall|j: int| 0 <= j < index < characteristics@.len() ==> characteristics@[j] != hr
                },
                None => !characteristics@.contains(hr),
            },
        decreases characteristics@.len() - i,
    {
        if characteristics[i] == hr {
            assert(characteristics@.contains(hr));
            return Some(i);
        }
        i = i + 1;
    }
    None
}

} // verus!
