use vstd::prelude::*;

verus! {

/// Caption frame style of an album, a pure presentation attribute.
#[derive(Clone, Copy, PartialEq, Eq, Structural, Debug)]
pub enum Style {
    Round,
    Square,
}

/// Caption colour of an album, a pure presentation attribute.
#[derive(Clone, Copy, PartialEq, Eq, Structural, Debug)]
pub enum Color {
    Black,
    White,
    Red,
    Pink,
    Purple,
    DeepPurple,
    Indigo,
    Blue,
    LightBlue,
    Cyan,
    Teal,
    Green,
    LightGreen,
    Lime,
    Yellow,
    Amber,
    Orange,
    DeepOrange,
    Brown,
    Grey,
    BlueGrey,
}

impl Style {
    /// The style's display name, as the stylesheet class names spell it.
    pub open spec fn spec_name(self) -> Seq<char> {
        match self {
            Style::Round => "Round"@,
            Style::Square => "Square"@,
        }
    }

    /// The style's display name.
    pub fn name(&self) -> (r: String)
        ensures
            r@ == self.spec_name(),
    {
        match self {
            Style::Round => "Round".to_owned(),
            Style::Square => "Square".to_owned(),
        }
    }
}

impl Color {
    /// The colour's display name, as the stylesheet class names spell it.
    pub open spec fn spec_name(self) -> Seq<char> {
        match self {
            Color::Black => "Black"@,
            Color::White => "White"@,
            Color::Red => "Red"@,
            Color::Pink => "Pink"@,
            Color::Purple => "Purple"@,
            Color::DeepPurple => "DeepPurple"@,
            Color::Indigo => "Indigo"@,
            Color::Blue => "Blue"@,
            Color::LightBlue => "LightBlue"@,
            Color::Cyan => "Cyan"@,
            Color::Teal => "Teal"@,
            Color::Green => "Green"@,
            Color::LightGreen => "LightGreen"@,
            Color::Lime => "Lime"@,
            Color::Yellow => "Yellow"@,
            Color::Amber => "Amber"@,
            Color::Orange => "Orange"@,
            Color::DeepOrange => "DeepOrange"@,
            Color::Brown => "Brown"@,
            Color::Grey => "Grey"@,
            Color::BlueGrey => "BlueGrey"@,
        }
    }

    /// The colour's display name.
    pub fn name(&self) -> (r: String)
        ensures
            r@ == self.spec_name(),
    {
        match self {
            Color::Black => "Black".to_owned(),
            Color::White => "White".to_owned(),
            Color::Red => "Red".to_owned(),
            Color::Pink => "Pink".to_owned(),
            Color::Purple => "Purple".to_owned(),
            Color::DeepPurple => "DeepPurple".to_owned(),
            Color::Indigo => "Indigo".to_owned(),
            Color::Blue => "Blue".to_owned(),
            Color::LightBlue => "LightBlue".to_owned(),
            Color::Cyan => "Cyan".to_owned(),
            Color::Teal => "Teal".to_owned(),
            Color::Green => "Green".to_owned(),
            Color::LightGreen => "LightGreen".to_owned(),
            Color::Lime => "Lime".to_owned(),
            Color::Yellow => "Yellow".to_owned(),
            Color::Amber => "Amber".to_owned(),
            Color::Orange => "Orange".to_owned(),
            Color::DeepOrange => "DeepOrange".to_owned(),
            Color::Brown => "Brown".to_owned(),
            Color::Grey => "Grey".to_owned(),
            Color::BlueGrey => "BlueGrey".to_owned(),
        }
    }
}

} // verus!
