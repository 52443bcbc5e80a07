//! The ADC input channels, one type per channel.
//!
//! The channel types stand in for an enum, as the channel trait of the HAL
//! identifies a channel by a type.
use vstd::prelude::*;

verus! {

/// ADC input channel 1.
pub struct C1;

impl C1 {
    /// The channel number: 1.
    pub fn channel() -> (r: u8)
        ensures
            r == 1,
    {
        1
    }
}

/// ADC input channel 2.
pub struct C2;

impl C2 {
    /// The channel number: 2.
    pub fn channel() -> (r: u8)
        ensures
            r == 2,
    {
        2
    }
}

/// ADC input channel 3.
pub struct C3;

impl C3 {
    /// The channel number: 3.
    pub fn channel() -> (r: u8)
        ensures
            r == 3,
    {
        3
    }
}

/// ADC input channel 4.
pub struct C4;

impl C4 {
    /// The channel number: 4.
    pub fn channel() -> (r: u8)
        ensures
            r == 4,
    {
        4
    }
}

/// ADC input channel 5.
pub struct C5;

impl C5 {
    /// The channel number: 5.
    pub fn channel() -> (r: u8)
        ensures
            r == 5,
    {
        5
    }
}

/// ADC input channel 6.
pub struct C6;

impl C6 {
    /// The channel number: 6.
    pub fn channel() -> (r: u8)
        ensures
            r == 6,
    {
        6
    }
}

/// ADC input channel 7.
pub struct C7;

impl C7 {
    /// The channel number: 7.
    pub fn channel() -> (r: u8)
        ensures
            r == 7,
    {
        7
    }
}

/// ADC input channel 8.
pub struct C8;

impl C8 {
    /// The channel number: 8.
    pub fn channel() -> (r: u8)
        ensures
            r == 8,
    {
        8
    }
}

/// ADC input channel 9.
pub struct C9;

impl C9 {
    /// The channel number: 9.
    pub fn channel() -> (r: u8)
        ensures
            r == 9,
    {
        9
    }
}

/// ADC input channel 10.
pub struct C10;

impl C10 {
    /// The channel number: 10.
    pub fn channel() -> (r: u8)
        ensures
            r == 10,
    {
        10
    }
}

/// ADC input channel 11.
pub struct C11;

impl C11 {
    /// The channel number: 11.
    pub fn channel() -> (r: u8)
        ensures
            r == 11,
    {
        11
    }
}

/// ADC input channel 12.
pub struct C12;

impl C12 {
    /// The channel number: 12.
    pub fn channel() -> (r: u8)
        ensures
            r == 12,
    {
        12
    }
}

/// ADC input channel 13.
pub struct C13;

impl C13 {
    /// The channel number: 13.
    pub fn channel() -> (r: u8)
        ensures
            r == 13,
    {
        13
    }
}

/// ADC input channel 14.
pub struct C14;

impl C14 {
    /// The channel number: 14.
    pub fn channel() -> (r: u8)
        ensures
            r == 14,
    {
        14
    }
}

/// ADC input channel 15.
pub struct C15;

impl C15 {
    /// The channel number: 15.
    pub fn channel() -> (r: u8)
        ensures
            r == 15,
    {
        15
    }
}

/// ADC input channel 16.
pub struct C16;

impl C16 {
    /// The channel number: 16.
    pub fn channel() -> (r: u8)
        ensures
            r == 16,
    {
        16
    }
}

/// ADC input channel 17.
pub struct C17;

impl C17 {
    /// The channel number: 17.
    pub fn channel() -> (r: u8)
        ensures
            r == 17,
    {
        17
    }
}

/// ADC input channel 18.
pub struct C18;

impl C18 {
    /// The channel number: 18.
    pub fn channel() -> (r: u8)
        ensures
            r == 18,
    {
        18
    }
}

/// ADC input channel 19.
pub struct C19;

impl C19 {
    /// The channel number: 19.
    pub fn channel() -> (r: u8)
        ensures
            r == 19,
    {
        19
    }
}

/// ADC input channel 20.
pub struct C20;

impl C20 {
    /// The channel number: 20.
    pub fn channel() -> (r: u8)
        ensures
            r == 20,
    {
        20
    }
}

} // verus!
