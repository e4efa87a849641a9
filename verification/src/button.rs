//! The button: how it is made, and how it answers the pointer.

use vstd::prelude::*;
use crate::color::Rgb;

verus! {

/// What the pointer is doing to a button, as the engine reports it.
#[derive(Clone, Copy, Debug, PartialEq, Eq, Structural)]
pub enum Interaction {
    /// The button is being pressed.
    Clicked,
    /// The pointer rests on the button.
    Hovered,
    /// The pointer is elsewhere.
    Idle,
}

/// The room kept free on a side of a button.
#[derive(Clone, Copy, Debug, PartialEq, Eq, Structural)]
pub enum Margin {
    /// As much as the layout has to spare, which centres the button.
    Auto,
    /// So many pixels.
    Pixels(u32),
}

/// Where a button puts what it holds, along one axis.
#[derive(Clone, Copy, Debug, PartialEq, Eq, Structural)]
pub enum Align {
    /// At the start of the axis.
    Start,
    /// In the middle.
    Center,
    /// At the end of the axis.
    End,
}

/// What a button shows: the text of its label and the colour of its face.
#[derive(Debug)]
pub struct ButtonLook {
    pub label: String,
    pub fill: Rgb,
}

/// What a button is made from: the size and colour of its face, and the
/// text, font and colour of its label.
#[derive(Debug)]
pub struct ButtonBlueprint {
    /// Width of the face in pixels.
    pub width: u32,
    /// Height of the face in pixels.
    pub height: u32,
    /// The room kept free on each of the four sides.
    pub margin: Margin,
    /// Where the label stands from left to right.
    pub justify_content: Align,
    /// Where the label stands from top to bottom.
    pub align_items: Align,
    /// Colour of the face.
    pub fill: Rgb,
    /// Text of the label.
    pub label: String,
    /// Path of the font file that the label is set in.
    pub font: String,
    /// Height of the label's letters in pixels.
    pub font_size: u32,
    /// Colour of the label's letters.
    pub text_color: Rgb,
}

/// The label that goes with each state of the pointer.
pub open spec fn label_for(interaction: Interaction) -> Seq<char> {
    match interaction {
        Interaction::Clicked => "Clicked"@,
        Interaction::Hovered => "Hovered"@,
        Interaction::Idle => "Button"@,
    }
}

/// The face colour that goes with each state of the pointer.
pub open spec fn fill_for(interaction: Interaction) -> Rgb {
    match interaction {
        Interaction::Clicked => Rgb { red: 35, green: 75, blue: 35 },
        Interaction::Hovered => Rgb { red: 25, green: 25, blue: 25 },
        Interaction::Idle => Rgb { red: 15, green: 15, blue: 15 },
    }
}

/// The look a button takes on when the pointer's state has changed to
/// `interaction`: its label reads `label_for(interaction)` and its face is
/// painted `fill_for(interaction)`.
pub fn button_system(interaction: Interaction) -> (look: ButtonLook)
    ensures
        look.label@ == label_for(interaction),
        look.fill == fill_for(interaction),
        look.fill.wf(),
{
    match interaction {
        Interaction::Clicked => ButtonLook {
            label: String::from_str("Clicked"),
            fill: Rgb { red: 35, green: 75, blue: 35 },
        },
        Interaction::Hovered => ButtonLook {
            label: String::from_str("Hovered"),
            fill: Rgb::grey(25),
        },
        Interaction::Idle => ButtonLook {
            label: String::from_str("Button"),
            fill: Rgb::grey(15),
        },
    }
}

/// The button to create at startup. It is 150 by 65 pixels, stands in the
/// middle of the window with its label in its own middle, and looks as a
/// button does that the pointer is away from; its label is set in Fira
/// Sans, 40 pixels high, in a light grey.
pub fn spawn_button() -> (button: ButtonBlueprint)
    ensures
        button.width == 150,
        button.height == 65,
        button.margin == Margin::Auto,
        button.justify_content == Align::Center,
        button.align_items == Align::Center,
        button.fill == fill_for(Interaction::Idle),
        button.label@ == label_for(Interaction::Idle),
        button.font@ == "fonts/FiraSans-Regular.ttf"@,
        button.font_size == 40,
        button.text_color == Rgb::grey_spec(90),
        button.fill.wf(),
        button.text_color.wf(),
{
    let idle = button_system(Interaction::Idle);
    ButtonBlueprint {
        width: 150,
        height: 65,
        margin: Margin::Auto,
        justify_content: Align::Center,
        align_items: Align::Center,
        fill: idle.fill,
        label: idle.label,
        font: String::from_str("fonts/FiraSans-Regular.ttf"),
        font_size: 40,
        text_color: Rgb::grey(90),
    }
}

} // verus!
