//! Rendering console messages: the ANSI escape framing the tool puts
//! around its colored output.  Printing itself happens outside the
//! library.

use vstd::prelude::*;
use crate::num::{dec_digits, dec_render};

verus! {

/// The text wrapped in ANSI escapes: a bold marker when highlighted, a
/// color code when `color` lies in the foreground range 30 to 39, the
/// text itself, and the reset sequence.
pub open spec fn spec_color_text(text: Seq<char>, color: u8, highlight: bool) -> Seq<char> {
    let bold = if highlight {
        "\x1b[1m"@
    } else {
        Seq::<char>::empty()
    };
    let col = if 30 <= color <= 39 {
        "\x1b["@ + dec_digits(color as int) + "m"@
    } else {
        Seq::<char>::empty()
    };
    bold + col + text + "\x1b[0m"@
}

/// Wrap `text` for colored console output.
pub fn color_text(text: &str, color: u8, highlight: bool) -> (r: String)
    ensures
        r@ == spec_color_text(text@, color, highlight),
{
    let mut r = String::new();
    if highlight {
        r.append("\x1b[1m");
    }
    if 30 <= color && color <= 39 {
        r.append("\x1b[");
        r.append(dec_render(color as usize).as_str());
        r.append("m");
    }
    r.append(text);
    r.append("\x1b[0m");
    proof {
        assert(r@ =~= spec_color_text(text@, color, highlight));
    }
    r
}

/// One record of the per-address log file: the local timestamp, the
/// message, and the terminating newline.
pub fn log_line(timestamp: &str, msg: &str) -> (r: String)
    ensures
        r@ == timestamp@ + msg@ + "\n"@,
{
    let mut r = String::from_str(timestamp);
    r.append(msg);
    r.append("\n");
    proof {
        assert(r@ =~= timestamp@ + msg@ + "\n"@);
    }
    r
}

} // verus!
