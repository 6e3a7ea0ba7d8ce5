//! Which of the HID devices present is the authenticator to talk to.
//!
//! The caller lists the devices and says which vendor and product ids it
//! accepts; this module picks. Opening the device is the caller's.

use vstd::prelude::*;

verus! {

/// Usage page on which FIDO authenticators present themselves.
pub const USAGE_PAGE_FIDO: u16 = 0xf1d0;

/// A vendor id and a product id that the caller accepts.
#[derive(Debug, Clone, Copy, PartialEq, Eq, Structural)]
pub struct HidParam {
    pub vid: u16,
    pub pid: u16,
}

/// What is known of a device that is present.
#[derive(Debug, Clone, Copy, PartialEq, Eq, Structural)]
pub struct HidInfo {
    pub vendor_id: u16,
    pub product_id: u16,
    pub usage_page: u16,
}

/// Whether a device has the ids asked for and presents the usage page.
pub open spec fn fits(device: HidInfo, param: HidParam, usage_page: u16) -> bool {
    device.vendor_id == param.vid && device.product_id == param.pid && device.usage_page
        == usage_page
}

/// Finds the first device, in the order of the list, that has the ids
/// asked for and presents the usage page.
pub fn get_path(devices: &Vec<HidInfo>, param: &HidParam, usage_page: u16) -> (r: Option<usize>)
    ensures
        match r {
            Some(i) => i < devices@.len() && fits(devices@[i as int], *param, usage_page)
                && forall|j: int| 0 <= j < i ==> !fits(#[trigger] devices@[j], *param, usage_page),
            None => forall|j: int|
                0 <= j < devices@.len() ==> !fits(#[trigger] devices@[j], *param, usage_page),
        },
{
    let mut i: usize = 0;
    while i < devices.len()
        invariant
            i <= devices.len(),
            forall|j: int| 0 <= j < i ==> !fits(#[trigger] devices@[j], *param, usage_page),
        decreases devices.len() - i,
    {
        let device = &devices[i];
        if device.vendor_id == param.vid && device.product_id == param.pid && device.usage_page
            == usage_page {
            return Some(i);
        }
        i += 1;
    }
    None
}

} // verus!
