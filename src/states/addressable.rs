//! Gpio pin functions, available in every state in which the chip is powered
use vstd::prelude::*;

use crate::ll::{GpioMode, GpioSelectInput, GpioSelectOutput, RegOp, GPIO0_CONF};
use crate::GpioNumber;

verus! {

/// The function of a gpio pin
#[derive(Clone, Copy, Debug, PartialEq, Eq)]
pub enum GpioFunction {
    /// Pin configured as nothing, floating
    HiZ,
    /// Pin configured as input
    Input {
        /// The input function the pin will take
        select: GpioSelectInput,
    },
    /// Pin configured as output
    Output {
        /// If true, the pin is set to high power mode.
        /// This gives faster rise and fall times and allows a higher current draw and sink.
        ///
        /// See the `Digital interface specification` in the datasheet.
        high_power: bool,
        /// The output function the pin will take
        select: GpioSelectOutput,
    },
}

impl GpioFunction {
    /// The GPIOx_CONF value: GPIO_SELECT in bits 7:3, GPIO_MODE in bits 1:0
    pub open spec fn spec_conf(self) -> u8 {
        match self {
            GpioFunction::HiZ => GpioMode::HiZ.spec_code(),
            GpioFunction::Input { select } => (select.spec_code() * 8 + GpioMode::Input.spec_code()) as u8,
            GpioFunction::Output { high_power, select } => (select.spec_code() * 8 + if high_power {
                GpioMode::OutputHighPower.spec_code()
            } else {
                GpioMode::OutputLowPower.spec_code()
            }) as u8,
        }
    }
}

/// Set the function of a gpio pin: the write of its GPIOx_CONF register.
///
/// User care should be taken because making changes here can break the driver.
///
/// - The gpio pin used by the driver should not be changed as the driver assumes it never gets changed by the user.
/// - Some input options can change the chip state. The driver assumes only it will cause state changes.
///
/// Generally you're fine if:
/// - You don't use the gpio pin the driver already uses
/// - You only use output functionality
///
/// The output can also be used as a gpio extender with the VDD and GND states.
pub fn set_gpio_function(number: GpioNumber, function: GpioFunction) -> (r: RegOp)
    ensures
        r == (RegOp::Write { address: (GPIO0_CONF + number.spec_index()) as u8, value: function.spec_conf() }),
{
    let value = match function {
        GpioFunction::HiZ => GpioMode::HiZ.code(),
        GpioFunction::Input { select } => select.code() * 8 + GpioMode::Input.code(),
        GpioFunction::Output { high_power, select } => {
            let mode = if high_power {
                GpioMode::OutputHighPower
            } else {
                GpioMode::OutputLowPower
            };
            select.code() * 8 + mode.code()
        },
    };
    RegOp::Write { address: GPIO0_CONF + number.index(), value }
}

} // verus!
