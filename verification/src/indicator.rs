//! The tri-color status indicator value and the colors the orchestrator
//! writes at each lifecycle transition. The indicator itself is an external
//! collaborator with no state beyond the last color written; each write
//! supersedes the previous one with no blending.
use vstd::prelude::*;

verus! {

/// A pure RGB intensity value; each component ranges over 0..=255.
#[derive(Clone, Copy, PartialEq, Eq, Structural, Debug)]
pub struct IndicatorColor {
    pub red: u8,
    pub green: u8,
    pub blue: u8,
}

/// Color written before network bring-up begins.
pub open spec fn spec_starting_color() -> IndicatorColor {
    IndicatorColor { red: 50, green: 50, blue: 0 }
}

/// Color written when Wi-Fi bring-up fails, just before the process exits.
pub open spec fn spec_error_color() -> IndicatorColor {
    IndicatorColor { red: 50, green: 0, blue: 0 }
}

/// Color written before the broker session is opened.
pub open spec fn spec_broker_connect_color() -> IndicatorColor {
    IndicatorColor { red: 0, green: 0, blue: 50 }
}

/// The color shown while the device starts up.
pub fn starting_color() -> (r: IndicatorColor)
    ensures
        r == spec_starting_color(),
{
    IndicatorColor { red: 50, green: 50, blue: 0 }
}

/// The color shown when network bring-up has failed.
pub fn error_color() -> (r: IndicatorColor)
    ensures
        r == spec_error_color(),
{
    IndicatorColor { red: 50, green: 0, blue: 0 }
}

/// The color shown while connecting to the broker.
pub fn broker_connect_color() -> (r: IndicatorColor)
    ensures
        r == spec_broker_connect_color(),
{
    IndicatorColor { red: 0, green: 0, blue: 50 }
}

} // verus!
