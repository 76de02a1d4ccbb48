//! Choosing a device among those that the host enumerates.

use vstd::prelude::*;
use crate::error::InputError;

verus! {

/// The identifying metadata of one enumerated device.
#[derive(Debug, Clone, Copy, PartialEq, Eq, Structural)]
pub struct DeviceId {
    pub vendor: u16,
    pub product: u16,
}

impl DeviceId {
    /// Whether the device carries exactly these identifiers.
    pub open spec fn matches(self, vendor: u16, product: u16) -> bool {
        self.vendor == vendor && self.product == product
    }
}

/// Whether some enumerated device carries the identifiers.
pub open spec fn has_match(devices: Seq<DeviceId>, vendor: u16, product: u16) -> bool {
    exists|i: int| 0 <= i < devices.len() && #[trigger] devices[i].matches(vendor, product)
}

/// Whether `index` is the place of the first device, in enumeration order,
/// that carries the identifiers.
pub open spec fn is_first_match(
    devices: Seq<DeviceId>,
    vendor: u16,
    product: u16,
    index: int,
) -> bool {
    &&& 0 <= index < devices.len()
    &&& devices[index].matches(vendor, product)
    &&& forall|j: int| 0 <= j < index ==> !#[trigger] devices[j].matches(vendor, product)
}

/// Finds the first device, in enumeration order, whose identifiers are
/// exactly `vendor` and `product`, and returns its place in `devices`.
/// Fails when no device matches.
pub fn locate(devices: &Vec<DeviceId>, vendor: u16, product: u16) -> (res: Result<
    usize,
    InputError,
>)
    ensures
        res is Ok <==> has_match(devices@, vendor, product),
        match res {
            Ok(index) => is_first_match(devices@, vendor, product, index as int),
            Err(error) => error == (InputError::DeviceNotFound { vendor, product }),
        },
{
    let mut i: usize = 0;
    while i < devices.len()
        invariant
            i <= devices.len(),
            forall|j: int| 0 <= j < i ==> !#[trigger] devices@[j].matches(vendor, product),
        decreases devices.len() - i,
    {
        if devices[i].vendor == vendor && devices[i].product == product {
            assert(devices@[i as int].matches(vendor, product));
            return Ok(i);
        }
        i += 1;
    }
    Err(InputError::DeviceNotFound { vendor, product })
}

/// At most one place is that of the first match: the choice among several
/// matching devices depends on the enumeration order alone.
pub proof fn lemma_first_match_is_unique(
    devices: Seq<DeviceId>,
    vendor: u16,
    product: u16,
    a: int,
    b: int,
)
    requires
        is_first_match(devices, vendor, product, a),
        is_first_match(devices, vendor, product, b),
    ensures
        a == b,
{
}

} // verus!
