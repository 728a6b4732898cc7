//! Translation among three pin-numbering schemes for a 40-pin GPIO header:
//! physical header position, SoC GPIO line number, and the WiringPi
//! numbering convention. The whole library is one immutable 28-row table
//! and six pure conversion functions over it; an input outside the table's
//! domain yields the `UnmappedPin` error rather than a panic.

pub mod convert;
pub mod laws;
pub mod table;

pub use convert::convert;
pub use convert::gpio_to_physical;
pub use convert::gpio_to_wiring_pi;
pub use convert::physical_to_gpio;
pub use convert::physical_to_wiring_pi;
pub use convert::wiring_pi_to_gpio;
pub use convert::wiring_pi_to_physical;
pub use table::GpioPin;
pub use table::PhysicalPin;
pub use table::Scheme;
pub use table::UnmappedPin;
pub use table::WiringPiPin;
