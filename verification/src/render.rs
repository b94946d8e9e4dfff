//! Colours of the button images. The gauge is coloured by the usage
//! endpoint's own `severity` field rather than thresholds of our own.

use vstd::prelude::*;
use crate::text::text_eq;

verus! {

/// Background of a button image (RGB).
pub const BACKGROUND: [u8; 3] = [20, 20, 20];

/// Colour of the percentage text (RGB).
pub const TEXT_COLOR: [u8; 3] = [255, 255, 255];

/// Colour of the metric label (RGB).
pub const LABEL_COLOR: [u8; 3] = [210, 210, 210];

/// Colour every pixel of the hardware test image gets (RGB).
pub const TEST_PATTERN_COLOR: [u8; 3] = [0, 200, 100];

/// Severity under which an assigned but inactive metric is drawn.
pub const DISABLED_SEVERITY: &'static str = "off";

/// Text an assigned but inactive metric shows in place of a percentage.
pub const DISABLED_TEXT: &'static str = "OFF";

/// Fill colour of the gauge for a severity: red for `critical`, amber for
/// `warning`, green for `normal`, dark slate for `off`, grey for anything
/// else.
pub open spec fn severity_rgb(severity: Seq<char>) -> Seq<u8> {
    if severity == "critical"@ {
        seq![216u8, 58u8, 58u8]
    } else if severity == "warning"@ {
        seq![216u8, 164u8, 0u8]
    } else if severity == "normal"@ {
        seq![46u8, 158u8, 76u8]
    } else if severity == "off"@ {
        seq![55u8, 55u8, 65u8]
    } else {
        seq![100u8, 100u8, 100u8]
    }
}

/// Fill colour of the gauge for a severity (RGB).
pub fn severity_color(severity: &str) -> (rgb: [u8; 3])
    ensures
        rgb@ == severity_rgb(severity@),
{
    let rgb: [u8; 3] = if text_eq(severity, "critical") {
        [216, 58, 58]
    } else if text_eq(severity, "warning") {
        [216, 164, 0]
    } else if text_eq(severity, "normal") {
        [46, 158, 76]
    } else if text_eq(severity, "off") {
        [55, 55, 65]
    } else {
        [100, 100, 100]
    };
    assert(rgb@ =~= severity_rgb(severity@));
    rgb
}

} // verus!
