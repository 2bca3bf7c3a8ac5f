//! Recognising a Nuimo among the devices a BLE scan reports.
use vstd::prelude::*;
use crate::gatt::DEVICE_NAME;

verus! {

broadcast use vstd::string::group_string_axioms;

/// A discovered Nuimo device (not yet connected).
#[derive(Debug)]
pub struct DiscoveredNuimo {
    /// Platform-neutral device identifier: the BLE MAC `"XX:XX:XX:XX:XX:XX"`
    /// on Linux, the CoreBluetooth peripheral UUID on macOS.
    pub address: String,
    pub name: String,
    /// Hint for the host adapter (BlueZ adapter name on Linux, unused on macOS).
    pub adapter: String,
}

impl Clone for DiscoveredNuimo {
    fn clone(&self) -> (c: Self)
        ensures
            c.address@ == self.address@,
            c.name@ == self.name@,
            c.adapter@ == self.adapter@,
    {
        DiscoveredNuimo {
            address: self.address.clone(),
            name: self.name.clone(),
            adapter: self.adapter.clone(),
        }
    }
}

/// Whether an advertised name is the name of a Nuimo.
pub open spec fn is_nuimo_name(name: Option<Seq<char>>) -> bool {
    name == Some(DEVICE_NAME@)
}

/// Whether a device advertising `name` is a Nuimo.
pub fn is_nuimo(name: &Option<String>) -> (yes: bool)
    ensures
        yes == is_nuimo_name(
            match name {
                Some(n) => Some(n@),
                None => None,
            },
        ),
{
    match name {
        Some(n) => {
            let nuimo = String::from_str(DEVICE_NAME);
            *n == nuimo
        },
        None => false,
    }
}

/// The discovery report of a device seen by a scan: present exactly when
/// the device advertises the Nuimo name, and then made of the device's
/// address, its name and the adapter it was seen on.
pub fn report_if_nuimo(name: Option<String>, address: String, adapter: &str) -> (found: Option<
    DiscoveredNuimo,
>)
    ensures
        found is Some <==> is_nuimo_name(
            match name {
                Some(n) => Some(n@),
                None => None,
            },
        ),
        found matches Some(d) ==> d.address@ == address@ && d.name@ == DEVICE_NAME@ && d.adapter@
            == adapter@,
{
    if !is_nuimo(&name) {
        return None;
    }
    let name = match name {
        Some(n) => n,
        None => String::from_str(DEVICE_NAME),
    };
    Some(DiscoveredNuimo { address, name, adapter: String::from_str(adapter) })
}

/// Only the exact advertised name "Nuimo" is a Nuimo: a device without a
/// name is not, and neither is one whose name merely begins with it, such as
/// "Nuimo Click".
pub proof fn law_only_exact_name_is_nuimo(n: Seq<char>, suffix: Seq<char>)
    ensures
        is_nuimo_name(Some(n)) <==> n == DEVICE_NAME@,
        DEVICE_NAME@ == "Nuimo"@,
        !is_nuimo_name(None),
        suffix.len() > 0 ==> !is_nuimo_name(Some(DEVICE_NAME@ + suffix)),
{
    let longer = DEVICE_NAME@ + suffix;
    if suffix.len() > 0 {
        assert(longer.len() != DEVICE_NAME@.len());
    }
}

} // verus!
