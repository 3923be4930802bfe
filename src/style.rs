use vstd::prelude::*;

pub mod dark;
pub mod light;

verus! {

/// A colour as red, green and blue.
#[derive(Debug, Clone, Copy, PartialEq, Eq, Structural)]
pub struct Rgb {
    pub r: u8,
    pub g: u8,
    pub b: u8,
}

pub open spec fn rgb(r: u8, g: u8, b: u8) -> Rgb {
    Rgb { r, g, b }
}

/// The colours of a boxed area.
#[derive(Debug, Clone, Copy, PartialEq, Eq, Structural)]
pub struct BoxColors {
    pub text: Option<Rgb>,
    pub background: Rgb,
    /// Set for the boxes that draw a border.
    pub border: Option<Rgb>,
}

/// The colours of a button: text, background at rest, and background when
/// hovered or pressed.
#[derive(Debug, Clone, Copy, PartialEq, Eq, Structural)]
pub struct ButtonColors {
    pub text: Rgb,
    pub idle_background: Option<Rgb>,
    pub active_background: Rgb,
}

/// The colours of a pick list and its menu.
#[derive(Debug, Clone, Copy, PartialEq, Eq, Structural)]
pub struct PickListColors {
    pub text: Rgb,
    pub menu_background: Rgb,
    pub menu_border: Rgb,
    pub selected_background: Rgb,
}

/// Whether the system shows light or dark windows.
#[derive(Debug, Clone, Copy, PartialEq, Eq, Structural)]
pub enum Mode {
    Dark,
    Light,
}

/// The styles of buttons.
#[derive(Debug, Clone, Copy, PartialEq, Eq, Structural)]
pub enum Button {
    ComponentSelect,
}

/// The styles of boxed areas; a chart box has the colour of its line.
#[derive(Debug, Clone, Copy)]
pub enum Container {
    Main,
    Secondary,
    Tertiary,
    Chart((u8, u8, u8)),
}

/// The styles of pick lists.
#[derive(Debug, Clone, Copy, PartialEq, Eq, Structural)]
pub enum PickList {
    Main,
}

pub open spec fn container_colors(c: Container, mode: Mode) -> BoxColors {
    match mode {
        Mode::Dark => match c {
            Container::Main => dark::main_box(),
            Container::Secondary => dark::tertiary_box(),
            Container::Tertiary => dark::secondary_box(),
            Container::Chart(line) => dark::graph_box(line),
        },
        Mode::Light => match c {
            Container::Main => light::main_box(),
            Container::Secondary => light::secondary_box(),
            Container::Tertiary => light::main_box(),
            Container::Chart(line) => light::graph_box(line),
        },
    }
}

impl Container {
    /// The colours of the box in a mode. In dark mode the secondary and
    /// tertiary shades are swapped, and light mode has two shades only.
    pub fn colors(&self, mode: Mode) -> (r: BoxColors)
        ensures
            r == container_colors(*self, mode),
    {
        match mode {
            Mode::Dark => match self {
                Container::Main => dark::MainBox.colors(),
                Container::Secondary => dark::TertiaryBox.colors(),
                Container::Tertiary => dark::SecondaryBox.colors(),
                Container::Chart(line) => dark::GraphBox { color: *line }.colors(),
            },
            Mode::Light => match self {
                Container::Main => light::MainBox.colors(),
                Container::Secondary => light::SecondaryBox.colors(),
                Container::Tertiary => light::MainBox.colors(),
                Container::Chart(line) => light::GraphBox { color: *line }.colors(),
            },
        }
    }
}

impl Button {
    pub fn colors(&self, mode: Mode) -> (r: ButtonColors)
        ensures
            r == match mode {
                Mode::Dark => dark::component_select(),
                Mode::Light => light::component_select(),
            },
    {
        match mode {
            Mode::Dark => dark::ComponentSelect.colors(),
            Mode::Light => light::ComponentSelect.colors(),
        }
    }
}

impl PickList {
    pub fn colors(&self, mode: Mode) -> (r: PickListColors)
        ensures
            r == match mode {
                Mode::Dark => dark::pick_list(),
                Mode::Light => light::pick_list(),
            },
    {
        match mode {
            Mode::Dark => dark::PickList.colors(),
            Mode::Light => light::PickList.colors(),
        }
    }
}

} // verus!
