//! What is shown of each active display.

use vstd::prelude::*;

use crate::text::{decimal, push_decimal};

verus! {

/// An active display: its CoreGraphics id, whether it is built in, and the
/// name shown for it.
#[derive(Debug, Clone)]
pub struct DisplayInfo {
    pub id: u32,
    pub built_in: bool,
    pub name: String,
}

/// The name shown for a display: `Built-in Display` for the built-in one,
/// else `Display N`, with ` (Main)` after it for the main display.
pub open spec fn display_name(id: u32, built_in: bool, is_main: bool) -> Seq<char> {
    if built_in {
        "Built-in Display"@
    } else if is_main {
        "Display "@ + decimal(id as nat) + " (Main)"@
    } else {
        "Display "@ + decimal(id as nat)
    }
}

/// The information shown for display `id`.
pub fn describe_display(id: u32, built_in: bool, is_main: bool) -> (info: DisplayInfo)
    ensures
        info.id == id,
        info.built_in == built_in,
        info.name@ == display_name(id, built_in, is_main),
{
    let name = if built_in {
        "Built-in Display".to_owned()
    } else {
        let mut name = "Display ".to_owned();
        push_decimal(&mut name, id as u64);
        if is_main {
            name.append(" (Main)");
        }
        name
    };
    DisplayInfo { id, built_in, name }
}

} // verus!
