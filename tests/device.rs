use netmd::device::{device_ids, find_device, DeviceId, Status};
use netmd::session::{NetMD, NetMdError};

fn fixture() -> Vec<DeviceId> {
    vec![
        DeviceId { vendor_id: 0x1111, product_id: 0x0001, name: Some(String::from("First")) },
        DeviceId { vendor_id: 0x1111, product_id: 0x0002, name: Some(String::from("Second")) },
        DeviceId { vendor_id: 0x1111, product_id: 0x0001, name: Some(String::from("Duplicate")) },
    ]
}

#[test]
fn builtin_table_lists_every_model_with_a_name() {
    let table = device_ids();
    assert_eq!(table.len(), 46);
    assert!(table.iter().all(|d| d.name.is_some()));
    assert_eq!(table[0].vendor_id, 0x04dd);
    assert_eq!(table[0].product_id, 0x7202);
    assert_eq!(table[0].name.as_deref(), Some("Sharp IM-MT899H"));
    assert_eq!(table[45].product_id, 0x23b6);
    assert_eq!(table[45].name.as_deref(), Some("Panasonic SJ-MR270"));
}

#[test]
fn find_device_returns_first_match() {
    let table = fixture();
    assert_eq!(find_device(&table, 0x1111, 0x0001), Some(0));
    assert_eq!(find_device(&table, 0x1111, 0x0002), Some(1));
    assert_eq!(find_device(&table, 0x1111, 0x0003), None);
    assert_eq!(find_device(&table, 0x2222, 0x0001), None);
    assert_eq!(find_device(&Vec::new(), 0x1111, 0x0001), None);
}

#[test]
fn unknown_pair_is_rejected_before_any_claim() {
    let table = device_ids();
    let r = NetMD::identify(&table, 0x1234, 0x5678);
    assert!(matches!(r, Err(NetMdError::UnknownDevice)));
    // Known vendor, unknown product.
    let r = NetMD::identify(&table, 0x054c, 0xffff);
    assert!(matches!(r, Err(NetMdError::UnknownDevice)));
}

#[test]
fn known_pair_with_successful_claim_exposes_table_entry() {
    let table = device_ids();
    let claim = NetMD::identify(&table, 0x054c, 0x0075).unwrap();
    assert_eq!(claim.interface_number(), 0);
    assert_eq!(claim.model().name.as_deref(), Some("Sony MZ-N1"));
    let session = NetMD::new(claim, Ok(())).unwrap();
    assert_eq!(session.device_name().as_deref(), Some("Sony MZ-N1"));
    assert_eq!(*session.vendor_id(), 0x054c);
    assert_eq!(*session.product_id(), 0x0075);
    assert_eq!(session.status(), None);
    assert!(session.is_claimed());
}

#[test]
fn known_pair_with_failed_claim_fails_construction() {
    let table = device_ids();
    let claim = NetMD::identify(&table, 0x04da, 0x23b3).unwrap();
    match NetMD::new(claim, Err(String::from("busy"))) {
        Err(NetMdError::ClaimFailed(m)) => assert_eq!(m, "busy"),
        _ => panic!("expected a claim failure"),
    }
}

#[test]
fn injected_table_first_entry_wins() {
    let table = fixture();
    let claim = NetMD::identify(&table, 0x1111, 0x0001).unwrap();
    let session = NetMD::new(claim, Ok(())).unwrap();
    assert_eq!(session.device_name().as_deref(), Some("First"));
    let claim = NetMD::identify(&table, 0x1111, 0x0002).unwrap();
    let session = NetMD::new(claim, Ok(())).unwrap();
    assert_eq!(session.device_name().as_deref(), Some("Second"));
}

#[test]
fn release_happens_exactly_once() {
    let table = device_ids();
    let claim = NetMD::identify(&table, 0x054c, 0x0286).unwrap();
    let mut session = NetMD::new(claim, Ok(())).unwrap();
    assert!(session.is_claimed());
    assert!(session.release());
    assert!(!session.is_claimed());
    assert!(!session.release());
    assert!(!session.release());
    assert_eq!(*session.product_id(), 0x0286);
}

#[test]
fn status_values_compare() {
    assert_eq!(Status::ReadingTOC, Status::ReadingTOC);
    assert_ne!(Status::NoDisc, Status::DiscBlank);
}
