use vstd::prelude::*;

verus! {

/// Number of conversions the sensor averages into one result.
#[derive(Clone, Copy, Debug, PartialEq, Eq, Structural)]
pub enum OversampleRate {
    One,
    Two,
    Four,
    Eight,
    Sixteen,
    ThirtyTwo,
    SixtyFour,
    OneHundredTwentyEight,
}

/// The two measurement channels of the sensor.
#[derive(Clone, Copy, Debug, PartialEq, Eq, Structural)]
pub enum Channel {
    Temperature,
    Pressure,
}

/// The vendor scale factor that belongs to each rate.
pub open spec fn scale_factor_of(rate: OversampleRate) -> i32 {
    match rate {
        OversampleRate::One => 524288,
        OversampleRate::Two => 1572864,
        OversampleRate::Four => 3670016,
        OversampleRate::Eight => 7864320,
        OversampleRate::Sixteen => 253952,
        OversampleRate::ThirtyTwo => 516096,
        OversampleRate::SixtyFour => 1040384,
        OversampleRate::OneHundredTwentyEight => 2088960,
    }
}

/// Whether the driver knows the configuration byte for `rate`.
pub open spec fn is_supported(rate: OversampleRate) -> bool {
    match rate {
        OversampleRate::One | OversampleRate::Two | OversampleRate::Four
        | OversampleRate::Eight => true,
        _ => false,
    }
}

/// The low bits of the configuration byte that select `rate`.
pub open spec fn rate_bits(rate: OversampleRate) -> u8 {
    match rate {
        OversampleRate::One => 0,
        OversampleRate::Two => 1,
        OversampleRate::Four => 2,
        _ => 3,
    }
}

/// The configuration register of a channel.
pub open spec fn config_register_of(channel: Channel) -> u8 {
    match channel {
        Channel::Temperature => 0x07,
        Channel::Pressure => 0x06,
    }
}

/// The configuration byte for a supported `rate` on `channel`: the temperature
/// register also carries the external-sensor bit 0x80.
pub open spec fn control_byte_of(channel: Channel, rate: OversampleRate) -> u8 {
    match channel {
        Channel::Temperature => (0x80 + rate_bits(rate)) as u8,
        Channel::Pressure => rate_bits(rate),
    }
}

/// Looks up the scale factor of `rate`.
pub fn scale_factor(rate: OversampleRate) -> (r: i32)
    ensures
        r == scale_factor_of(rate),
        r > 0,
{
    match rate {
        OversampleRate::One => 524288,
        OversampleRate::Two => 1572864,
        OversampleRate::Four => 3670016,
        OversampleRate::Eight => 7864320,
        OversampleRate::Sixteen => 253952,
        OversampleRate::ThirtyTwo => 516096,
        OversampleRate::SixtyFour => 1040384,
        OversampleRate::OneHundredTwentyEight => 2088960,
    }
}

/// The configuration register of `channel`.
pub fn config_register(channel: Channel) -> (r: u8)
    ensures
        r == config_register_of(channel),
{
    match channel {
        Channel::Temperature => 0x07,
        Channel::Pressure => 0x06,
    }
}

/// The configuration byte that selects `rate` on `channel`, if one is defined.
pub fn control_byte(channel: Channel, rate: OversampleRate) -> (r: Option<u8>)
    ensures
        r == (if is_supported(rate) {
            Some(control_byte_of(channel, rate))
        } else {
            None
        }),
{
    let bits: u8 = match rate {
        OversampleRate::One => 0,
        OversampleRate::Two => 1,
        OversampleRate::Four => 2,
        OversampleRate::Eight => 3,
        _ => {
            return None;
        },
    };
    match channel {
        Channel::Temperature => Some(0x80 + bits),
        Channel::Pressure => Some(bits),
    }
}

} // verus!
