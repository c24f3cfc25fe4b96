use picoboot::{Error, Target};

#[test]
fn error_unit_variants() {
    let e = Error::EraseInvalidAddr;
    assert!(matches!(e, Error::EraseInvalidAddr));
    let e = Error::CmdNotAllowedForTarget;
    assert!(format!("{:?}", e).contains("CmdNotAllowedForTarget"));
    let _ = Target::Rp2040;
}

#[test]
fn error_carries_transfer_error() {
    let e = Error::UsbReadBulkFailure(nusb::transfer::TransferError::Stall);
    match e {
        Error::UsbReadBulkFailure(nusb::transfer::TransferError::Stall) => {}
        _ => panic!("wrong variant"),
    }
}
