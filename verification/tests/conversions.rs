use pinmap::GpioPin;
use pinmap::PhysicalPin;
use pinmap::WiringPiPin;
use pinmap::gpio_to_physical;
use pinmap::gpio_to_wiring_pi;
use pinmap::physical_to_wiring_pi;
use pinmap::wiring_pi_to_gpio;
use pinmap::wiring_pi_to_physical;

#[test]
fn test_physical_to_gpio() {
    assert_eq!(wiring_pi_to_gpio(WiringPiPin(3)), Ok(GpioPin(22)));
    assert_eq!(wiring_pi_to_gpio(WiringPiPin(5)), Ok(GpioPin(24)));
    assert_eq!(wiring_pi_to_gpio(WiringPiPin(7)), Ok(GpioPin(4)));
    assert_eq!(wiring_pi_to_gpio(WiringPiPin(8)), Ok(GpioPin(2)));
}

#[test]
fn test_physical_to_wiringpi() {
    assert_eq!(physical_to_wiring_pi(PhysicalPin(3)), Ok(WiringPiPin(8)));
    assert_eq!(physical_to_wiring_pi(PhysicalPin(5)), Ok(WiringPiPin(9)));
    assert_eq!(physical_to_wiring_pi(PhysicalPin(7)), Ok(WiringPiPin(7)));
    assert_eq!(physical_to_wiring_pi(PhysicalPin(8)), Ok(WiringPiPin(15)));
}

#[test]
fn test_gpio_to_physical() {
    assert_eq!(gpio_to_physical(GpioPin(2)), Ok(PhysicalPin(3)));
    assert_eq!(gpio_to_physical(GpioPin(3)), Ok(PhysicalPin(5)));
    assert_eq!(gpio_to_physical(GpioPin(4)), Ok(PhysicalPin(7)));
    assert_eq!(gpio_to_physical(GpioPin(14)), Ok(PhysicalPin(8)));
}

#[test]
fn test_gpio_to_wiringpi() {
    assert_eq!(gpio_to_wiring_pi(GpioPin(2)), Ok(WiringPiPin(8)));
    assert_eq!(gpio_to_wiring_pi(GpioPin(3)), Ok(WiringPiPin(9)));
    assert_eq!(gpio_to_wiring_pi(GpioPin(4)), Ok(WiringPiPin(7)));
    assert_eq!(gpio_to_wiring_pi(GpioPin(14)), Ok(WiringPiPin(15)));
}

#[test]
fn test_wiringpi_to_physical() {
    assert_eq!(wiring_pi_to_physical(WiringPiPin(8)), Ok(PhysicalPin(3)));
    assert_eq!(wiring_pi_to_physical(WiringPiPin(9)), Ok(PhysicalPin(5)));
    assert_eq!(wiring_pi_to_physical(WiringPiPin(7)), Ok(PhysicalPin(7)));
    assert_eq!(wiring_pi_to_physical(WiringPiPin(15)), Ok(PhysicalPin(8)));
}

#[test]
fn test_wiringpi_to_gpio() {
    assert_eq!(wiring_pi_to_gpio(WiringPiPin(8)), Ok(GpioPin(2)));
    assert_eq!(wiring_pi_to_gpio(WiringPiPin(9)), Ok(GpioPin(3)));
    assert_eq!(wiring_pi_to_gpio(WiringPiPin(7)), Ok(GpioPin(4)));
    assert_eq!(wiring_pi_to_gpio(WiringPiPin(15)), Ok(GpioPin(14)));
}
