use vstd::prelude::*;

use crate::style::{rgb, BoxColors, ButtonColors, PickListColors, Rgb};

verus! {

pub open spec fn component_select() -> ButtonColors {
    ButtonColors {
        text: rgb(10, 10, 10),
        idle_background: None,
        active_background: rgb(234, 234, 234),
    }
}

pub open spec fn main_box() -> BoxColors {
    BoxColors { text: None, background: rgb(255, 255, 255), border: None }
}

pub open spec fn secondary_box() -> BoxColors {
    BoxColors { text: None, background: rgb(242, 242, 249), border: None }
}

pub open spec fn graph_box(line: (u8, u8, u8)) -> BoxColors {
    BoxColors {
        text: None,
        background: rgb(255, 255, 255),
        border: Some(rgb(line.0, line.1, line.2)),
    }
}

pub open spec fn pick_list() -> PickListColors {
    PickListColors {
        text: rgb(0, 0, 0),
        menu_background: rgb(242, 242, 249),
        menu_border: rgb(234, 234, 234),
        selected_background: rgb(234, 234, 234),
    }
}

/// The button that selects a device in the sidebar.
pub struct ComponentSelect;

impl ComponentSelect {
    pub fn colors(&self) -> (r: ButtonColors)
        ensures
            r == component_select(),
    {
        ButtonColors {
            text: Rgb { r: 10, g: 10, b: 10 },
            idle_background: None,
            active_background: Rgb { r: 234, g: 234, b: 234 },
        }
    }
}

/// The window's background.
pub struct MainBox;

impl MainBox {
    pub fn colors(&self) -> (r: BoxColors)
        ensures
            r == main_box(),
    {
        BoxColors { text: None, background: Rgb { r: 255, g: 255, b: 255 }, border: None }
    }
}

pub struct SecondaryBox;

impl SecondaryBox {
    pub fn colors(&self) -> (r: BoxColors)
        ensures
            r == secondary_box(),
    {
        BoxColors { text: None, background: Rgb { r: 242, g: 242, b: 249 }, border: None }
    }
}

/// The frame of a chart, bordered in the colour of its line.
pub struct GraphBox {
    pub color: (u8, u8, u8),
}

impl GraphBox {
    pub fn colors(&self) -> (r: BoxColors)
        ensures
            r == graph_box(self.color),
    {
        BoxColors {
            text: None,
            background: Rgb { r: 255, g: 255, b: 255 },
            border: Some(Rgb { r: self.color.0, g: self.color.1, b: self.color.2 }),
        }
    }
}

pub struct PickList;

impl PickList {
    pub fn colors(&self) -> (r: PickListColors)
        ensures
            r == pick_list(),
    {
        PickListColors {
            text: Rgb { r: 0, g: 0, b: 0 },
            menu_background: Rgb { r: 242, g: 242, b: 249 },
            menu_border: Rgb { r: 234, g: 234, b: 234 },
            selected_background: Rgb { r: 234, g: 234, b: 234 },
        }
    }
}

} // verus!
