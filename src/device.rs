//! Device identities and the allow-list of known NetMD recorders.
use vstd::prelude::*;

verus! {

/// The current status of the MiniDisc device.
#[derive(Clone, Copy, Debug, PartialEq, Eq, Structural)]
pub enum Status {
    Ready,
    Playing,
    Paused,
    FastForward,
    Rewind,
    ReadingTOC,
    NoDisc,
    DiscBlank,
}

/// The identity of a device: its USB ids and, for a known model, its name.
#[derive(Debug)]
pub struct DeviceId {
    pub vendor_id: u16,
    pub product_id: u16,
    pub name: Option<String>,
}

/// True when `d` carries exactly the given vendor and product ids.
pub open spec fn has_ids(d: DeviceId, vendor_id: u16, product_id: u16) -> bool {
    d.vendor_id == vendor_id && d.product_id == product_id
}

/// True when `i` is the first position of `table` whose entry carries the ids.
pub open spec fn is_first_match(table: Seq<DeviceId>, vendor_id: u16, product_id: u16, i: int) -> bool {
    &&& 0 <= i < table.len()
    &&& has_ids(table[i], vendor_id, product_id)
    &&& forall|j: int| 0 <= j < i ==> !has_ids(#[trigger] table[j], vendor_id, product_id)
}

/// True when no entry of `table` carries the ids.
pub open spec fn is_unknown(table: Seq<DeviceId>, vendor_id: u16, product_id: u16) -> bool {
    forall|j: int| 0 <= j < table.len() ==> !has_ids(#[trigger] table[j], vendor_id, product_id)
}

/// The (vendor, product) pairs of the built-in allow-list, in table order.
pub open spec fn known_pairs() -> Seq<(u16, u16)> {
    seq![
            (0x04ddu16, 0x7202u16),
            (0x04ddu16, 0x9013u16),
            (0x04ddu16, 0x9014u16),
            (0x054cu16, 0x0034u16),
            (0x054cu16, 0x0036u16),
            (0x054cu16, 0x0075u16),
            (0x054cu16, 0x007cu16),
            (0x054cu16, 0x0080u16),
            (0x054cu16, 0x0081u16),
            (0x054cu16, 0x0084u16),
            (0x054cu16, 0x0085u16),
            (0x054cu16, 0x0086u16),
            (0x054cu16, 0x008eu16),
            (0x054cu16, 0x0097u16),
            (0x054cu16, 0x00adu16),
            (0x054cu16, 0x00c6u16),
            (0x054cu16, 0x00c7u16),
            (0x054cu16, 0x00c8u16),
            (0x054cu16, 0x00c9u16),
            (0x054cu16, 0x00cau16),
            (0x054cu16, 0x00e7u16),
            (0x054cu16, 0x00ebu16),
            (0x054cu16, 0x0101u16),
            (0x054cu16, 0x0113u16),
            (0x054cu16, 0x013fu16),
            (0x054cu16, 0x014cu16),
            (0x054cu16, 0x017eu16),
            (0x054cu16, 0x0180u16),
            (0x054cu16, 0x0182u16),
            (0x054cu16, 0x0184u16),
            (0x054cu16, 0x0186u16),
            (0x054cu16, 0x0187u16),
            (0x054cu16, 0x0188u16),
            (0x054cu16, 0x018au16),
            (0x054cu16, 0x01e9u16),
            (0x054cu16, 0x0219u16),
            (0x054cu16, 0x021bu16),
            (0x054cu16, 0x021du16),
            (0x054cu16, 0x022cu16),
            (0x054cu16, 0x023cu16),
            (0x054cu16, 0x0286u16),
            (0x054cu16, 0x011au16),
            (0x054cu16, 0x0148u16),
            (0x0b28u16, 0x1004u16),
            (0x04dau16, 0x23b3u16),
            (0x04dau16, 0x23b6u16)
    ]
}

/// Looks up the ids in `table` by a linear scan; the first matching entry wins.
pub fn find_device(table: &Vec<DeviceId>, vendor_id: u16, product_id: u16) -> (r: Option<usize>)
    ensures
        match r {
            Some(i) => is_first_match(table@, vendor_id, product_id, i as int),
            None => is_unknown(table@, vendor_id, product_id),
        },
{
    let mut i: usize = 0;
    while i < table.len()
        invariant
            0 <= i <= table@.len(),
            forall|j: int| 0 <= j < i ==> !has_ids(#[trigger] table@[j], vendor_id, product_id),
        decreases table@.len() - i,
    {
        if table[i].vendor_id == vendor_id && table[i].product_id == product_id {
            return Some(i);
        }
        i = i + 1;
    }
    None
}

fn entry(vendor_id: u16, product_id: u16, name: &str) -> (d: DeviceId)
    ensures
        d.vendor_id == vendor_id,
        d.product_id == product_id,
        d.name is Some,
{
    DeviceId { vendor_id, product_id, name: Some(name.to_owned()) }
}

/// The built-in allow-list of NetMD recorders, every entry with a model name.
pub fn device_ids() -> (t: Vec<DeviceId>)
    ensures
        t@.len() == known_pairs().len(),
        forall|i: int|
            0 <= i < t@.len() ==> (#[trigger] t@[i]).vendor_id == known_pairs()[i].0
                && t@[i].product_id == known_pairs()[i].1 && t@[i].name is Some,
{
    let mut t: Vec<DeviceId> = Vec::new();
    t.push(entry(0x04dd, 0x7202, "Sharp IM-MT899H"));
    t.push(entry(0x04dd, 0x9013, "Sharp IM-DR400"));
    t.push(entry(0x04dd, 0x9014, "Sharp IM-DR80"));
    t.push(entry(0x054c, 0x0034, "Sony PCLK-XX"));
    t.push(entry(0x054c, 0x0036, "Sony"));
    t.push(entry(0x054c, 0x0075, "Sony MZ-N1"));
    t.push(entry(0x054c, 0x007c, "Sony"));
    t.push(entry(0x054c, 0x0080, "Sony LAM-1"));
    t.push(entry(0x054c, 0x0081, "Sony MDS-JB980/MDS-NT1/MDS-JE780"));
    t.push(entry(0x054c, 0x0084, "Sony MZ-N505"));
    t.push(entry(0x054c, 0x0085, "Sony MZ-S1"));
    t.push(entry(0x054c, 0x0086, "Sony MZ-N707"));
    t.push(entry(0x054c, 0x008e, "Sony CMT-C7NT"));
    t.push(entry(0x054c, 0x0097, "Sony PCGA-MDN1"));
    t.push(entry(0x054c, 0x00ad, "Sony CMT-L7HD"));
    t.push(entry(0x054c, 0x00c6, "Sony MZ-N10"));
    t.push(entry(0x054c, 0x00c7, "Sony MZ-N910"));
    t.push(entry(0x054c, 0x00c8, "Sony MZ-N710/NF810"));
    t.push(entry(0x054c, 0x00c9, "Sony MZ-N510/N610"));
    t.push(entry(0x054c, 0x00ca, "Sony MZ-NE410/NF520D"));
    t.push(entry(0x054c, 0x00e7, "Sony CMT-M333NT/M373NT"));
    t.push(entry(0x054c, 0x00eb, "Sony MZ-NE810/NE910"));
    t.push(entry(0x054c, 0x0101, "Sony LAM"));
    t.push(entry(0x054c, 0x0113, "Aiwa AM-NX1"));
    t.push(entry(0x054c, 0x013f, "Sony MDS-S500"));
    t.push(entry(0x054c, 0x014c, "Aiwa AM-NX9"));
    t.push(entry(0x054c, 0x017e, "Sony MZ-NH1"));
    t.push(entry(0x054c, 0x0180, "Sony MZ-NH3D"));
    t.push(entry(0x054c, 0x0182, "Sony MZ-NH900"));
    t.push(entry(0x054c, 0x0184, "Sony MZ-NH700/NH800"));
    t.push(entry(0x054c, 0x0186, "Sony MZ-NH600"));
    t.push(entry(0x054c, 0x0187, "Sony MZ-NH600D"));
    t.push(entry(0x054c, 0x0188, "Sony MZ-N920"));
    t.push(entry(0x054c, 0x018a, "Sony LAM-3"));
    t.push(entry(0x054c, 0x01e9, "Sony MZ-DH10P"));
    t.push(entry(0x054c, 0x0219, "Sony MZ-RH10"));
    t.push(entry(0x054c, 0x021b, "Sony MZ-RH710/MZ-RH910"));
    t.push(entry(0x054c, 0x021d, "Sony CMT-AH10"));
    t.push(entry(0x054c, 0x022c, "Sony CMT-AH10"));
    t.push(entry(0x054c, 0x023c, "Sony DS-HMD1"));
    t.push(entry(0x054c, 0x0286, "Sony MZ-RH1"));
    t.push(entry(0x054c, 0x011a, "Sony CMT-SE7"));
    t.push(entry(0x054c, 0x0148, "Sony MDS-A1"));
    t.push(entry(0x0b28, 0x1004, "Kenwood MDX-J9"));
    t.push(entry(0x04da, 0x23b3, "Panasonic SJ-MR250"));
    t.push(entry(0x04da, 0x23b6, "Panasonic SJ-MR270"));
    t
}

} // verus!
