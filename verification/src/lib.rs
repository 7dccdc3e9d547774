//! Register-level control of the SN3193, a three-channel LED driver on a
//! two-wire serial bus.
//!
//! The crate turns lighting intents (brightness levels, a breathing cycle,
//! channel enables) into the exact ordered register writes the device needs.
//! It never touches a bus itself: every operation yields a [`Transaction`],
//! the ordered list of writes together with the progress made through it.
//! The caller performs each write on its bus and reports the outcome back;
//! the first reported failure ends the transaction.
pub mod registers;
pub mod settings;
pub mod transaction;
pub mod driver;
pub mod laws;

pub use crate::driver::SN3193Driver;
pub use crate::settings::{
    BreathingHoldHighTime, BreathingHoldLowTime, BreathingIntroTime, BreathingRampDownTime,
    BreathingRampUpTime, CurrentSettings, LEDId, LEDModeSettings,
};
pub use crate::transaction::{BusWrite, SN3193Error, Transaction};
