use vstd::prelude::*;

use crate::style::{rgb, BoxColors, ButtonColors, PickListColors, Rgb};

verus! {

pub open spec fn component_select() -> ButtonColors {
    ButtonColors {
        text: rgb(255, 255, 255),
        idle_background: None,
        active_background: rgb(76, 78, 84),
    }
}

pub open spec fn main_box() -> BoxColors {
    BoxColors { text: Some(rgb(255, 255, 255)), background: rgb(20, 20, 23), border: None }
}

pub open spec fn secondary_box() -> BoxColors {
    BoxColors { text: Some(rgb(255, 255, 255)), background: rgb(36, 37, 40), border: None }
}

pub open spec fn tertiary_box() -> BoxColors {
    BoxColors { text: Some(rgb(255, 255, 255)), background: rgb(34, 34, 38), border: None }
}

pub open spec fn graph_box(line: (u8, u8, u8)) -> BoxColors {
    BoxColors { text: None, background: rgb(34, 34, 38), border: Some(rgb(line.0, line.1, line.2)) }
}

pub open spec fn pick_list() -> PickListColors {
    PickListColors {
        text: rgb(255, 255, 255),
        menu_background: rgb(36, 37, 40),
        menu_border: rgb(36, 37, 40),
        selected_background: rgb(63, 62, 65),
    }
}

/// The button that selects a device in the sidebar.
pub struct ComponentSelect;

impl ComponentSelect {
    pub fn colors(&self) -> (r: ButtonColors)
        ensures
            r == component_select(),
    {
        ButtonColors {
            text: Rgb { r: 255, g: 255, b: 255 },
            idle_background: None,
            active_background: Rgb { r: 76, g: 78, b: 84 },
        }
    }
}

/// The window's background.
pub struct MainBox;

impl MainBox {
    pub fn colors(&self) -> (r: BoxColors)
        ensures
            r == main_box(),
    {
        BoxColors {
            text: Some(Rgb { r: 255, g: 255, b: 255 }),
            background: Rgb { r: 20, g: 20, b: 23 },
            border: None,
        }
    }
}

pub struct SecondaryBox;

impl SecondaryBox {
    pub fn colors(&self) -> (r: BoxColors)
        ensures
            r == secondary_box(),
    {
        BoxColors {
            text: Some(Rgb { r: 255, g: 255, b: 255 }),
            background: Rgb { r: 36, g: 37, b: 40 },
            border: None,
        }
    }
}

pub struct TertiaryBox;

impl TertiaryBox {
    pub fn colors(&self) -> (r: BoxColors)
        ensures
            r == tertiary_box(),
    {
        BoxColors {
            text: Some(Rgb { r: 255, g: 255, b: 255 }),
            background: Rgb { r: 34, g: 34, b: 38 },
            border: None,
        }
    }
}

/// The frame of a chart, bordered in the colour of its line.
pub struct GraphBox {
    pub color: (u8, u8, u8),
}

impl GraphBox {
    pub fn colors(&self) -> (r: BoxColors)
        ensures
            r == graph_box(self.color),
    {
        BoxColors {
            text: None,
            background: Rgb { r: 34, g: 34, b: 38 },
            border: Some(Rgb { r: self.color.0, g: self.color.1, b: self.color.2 }),
        }
    }
}

pub struct PickList;

impl PickList {
    pub fn colors(&self) -> (r: PickListColors)
        ensures
            r == pick_list(),
    {
        PickListColors {
            text: Rgb { r: 255, g: 255, b: 255 },
            menu_background: Rgb { r: 36, g: 37, b: 40 },
            menu_border: Rgb { r: 36, g: 37, b: 40 },
            selected_background: Rgb { r: 63, g: 62, b: 65 },
        }
    }
}

} // verus!
