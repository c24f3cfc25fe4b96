//! The crate's error type.  Several variants carry the error value that the
//! USB stack (`nusb`) or the binary codec (`deku`) reported; those values
//! are opaque here and are only carried through.

use nusb::Error as UsbStackError;
use vstd::prelude::*;

verus! {

/// Declares `nusb::Error`, the error of USB operations other than transfers.
#[verifier::external_type_specification]
#[verifier::external_body]
pub struct ExUsbStackError(UsbStackError);

/// Declares `nusb::ActiveConfigurationError`, the error of reading the
/// active USB configuration.
#[verifier::external_type_specification]
#[verifier::external_body]
pub struct ExActiveConfigurationError(nusb::ActiveConfigurationError);

/// Declares `nusb::transfer::TransferError`, the error of a USB transfer.
#[verifier::external_type_specification]
#[verifier::external_body]
pub struct ExTransferError(nusb::transfer::TransferError);

/// Declares `deku::DekuError`, the error of encoding or decoding a command.
#[verifier::external_type_specification]
#[verifier::external_body]
pub struct ExCodecError(deku::DekuError);

/// Error type for this crate.
#[derive(Debug)]
pub enum Error {
    /// USB stack error
    NusbError(nusb::Error),
    /// USB device not found.
    UsbDeviceNotFound,
    /// PICBOOT interface not found
    PicobootInterfaceNotFound,
    /// USB device found, but failed to open.
    UsbDeviceFailedToOpen(nusb::Error),
    /// Failed to get active USB configuration.
    UsbGetActiveConfigurationFailure(nusb::ActiveConfigurationError),
    /// Failed to get the descriptor for the active USB configuration.
    UsbNoActiveInterfaceDescriptor,
    /// Failed to claim endpoint
    UsbEndpointClaimFailure(nusb::Error),
    /// Failed to get USB bulk endpoints.
    UsbEndpointsNotFound,
    /// USB bulk endpoints returned unexpected results.
    UsbEndpointsUnexpected,
    /// Failed to detach USB kernel driver.
    UsbDetachKernelDriverFailure(nusb::Error),
    /// Failed to re-attach USB kernel driver.
    UsbReattachKernelDriverFailure(nusb::Error),
    /// Command failed as PICOBOOT is not connected
    UsbNotConnected,
    /// Failed to claim USB interface.
    UsbClaimInterfaceFailure(nusb::Error),
    /// Failed to configure alt USB setting.
    UsbSetAltSettingFailure(nusb::Error),
    /// Failed to read from USB bulk endpoint.
    UsbReadBulkFailure(nusb::transfer::TransferError),
    /// Read data from USB does not match expected size.
    UsbReadBulkMismatch,
    /// Failed to write to USB bulk endpoint.
    UsbWriteBulkFailure(nusb::transfer::TransferError),
    /// Written data to USB does not match expected size.
    UsbWriteBulkMismatch,
    /// Failed to clear USB in address halt.
    UsbClearInAddrHalt(nusb::Error),
    /// Failed to clear USB out address halt.
    UsbClearOutAddrHalt(nusb::Error),
    /// Failed to reset USB interface.
    UsbResetInterfaceFailure(nusb::transfer::TransferError),
    /// Failed to get command status from device.
    UsbGetCommandStatusFailure(nusb::transfer::TransferError),
    /// Failed to serialize command for device.
    CmdSerializeFailure(deku::DekuError),
    /// Failed to deserialize command from device.
    CmdDeserializeFailure(deku::DekuError),
    /// Command is not allowed for target device.
    CmdNotAllowedForTarget,
    /// Erase command address invalid.
    EraseInvalidAddr,
    /// Erase command size invalid.
    EraseInvalidSize,
    /// Write command address invalid.
    WriteInvalidAddr,
    /// Invalid duration
    InvalidDuration,
    /// Missing buffer for data transfer command.
    CmdDataTransferBufferMissing,
}

} // verus!
