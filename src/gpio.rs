use vstd::prelude::*;

verus! {

/// A GPIO pin exposed through sysfs, carried through as an opaque value.
#[verifier::external_type_specification]
#[verifier::external_body]
pub struct ExPin(sysfs_gpio::Pin);

/// A failure of a sysfs GPIO operation, carried through as an opaque value.
#[verifier::external_type_specification]
#[verifier::external_body]
pub struct ExGpioError(sysfs_gpio::Error);

/// Relies on `sysfs_gpio::Pin::new`: makes a handle for pin `pin_num` without touching sysfs.
pub assume_specification[ sysfs_gpio::Pin::new ](pin_num: u64) -> (r: sysfs_gpio::Pin);

/// Relies on `sysfs_gpio::Pin::export`: exports the pin unless sysfs already shows it.
pub assume_specification[ sysfs_gpio::Pin::export ](pin: &sysfs_gpio::Pin) -> (r: Result<
    (),
    sysfs_gpio::Error,
>);

/// Relies on `sysfs_gpio::Pin::set_value`: writes "0" to the pin's value file for 0, "1" otherwise.
pub assume_specification[ sysfs_gpio::Pin::set_value ](pin: &sysfs_gpio::Pin, value: u8) -> (r:
    Result<(), sysfs_gpio::Error>);

/// Relies on `sysfs_gpio::Pin::set_direction`: makes the pin an output.
#[verifier::external_body]
pub(crate) fn set_output(pin: &sysfs_gpio::Pin) -> (r: Result<(), sysfs_gpio::Error>) {
    pin.set_direction(sysfs_gpio::Direction::Out)
}

/// Relies on the `Display` impl of `sysfs_gpio::Error`: a message for the failure.
#[verifier::external_body]
pub(crate) fn describe(e: &sysfs_gpio::Error) -> (r: String) {
    e.to_string()
}

} // verus!
