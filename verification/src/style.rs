//! The text styles the panel can preview glyphs in.

use vstd::prelude::*;
use vstd::string::StringExecFns;

verus! {

/// A named text-style preset of the host toolkit. The drop-down of the panel
/// lists every variant; the selected one styles each glyph button and its
/// tooltip preview.
#[derive(Clone, Copy, Debug, PartialEq, Eq, Structural)]
pub enum TextStyle {
    Small,
    Body,
    Button,
    Heading,
    Monospace,
}

impl TextStyle {
    /// The human-readable label of this style, as the drop-down shows it.
    pub open spec fn label_spec(self) -> Seq<char> {
        match self {
            TextStyle::Small => "Small"@,
            TextStyle::Body => "Body"@,
            TextStyle::Button => "Button"@,
            TextStyle::Heading => "Heading"@,
            TextStyle::Monospace => "Monospace"@,
        }
    }

    /// Every text style, in the order the drop-down lists them.
    pub fn all() -> (r: Vec<TextStyle>)
        ensures
            r@ == seq![
                TextStyle::Small,
                TextStyle::Body,
                TextStyle::Button,
                TextStyle::Heading,
                TextStyle::Monospace,
            ],
    {
        let mut r: Vec<TextStyle> = Vec::new();
        r.push(TextStyle::Small);
        r.push(TextStyle::Body);
        r.push(TextStyle::Button);
        r.push(TextStyle::Heading);
        r.push(TextStyle::Monospace);
        proof {
            assert(r@ =~= seq![
                TextStyle::Small,
                TextStyle::Body,
                TextStyle::Button,
                TextStyle::Heading,
                TextStyle::Monospace,
            ]);
        }
        r
    }

    /// The label of this style as a string.
    pub fn label(&self) -> (r: String)
        ensures
            r@ == self.label_spec(),
    {
        match self {
            TextStyle::Small => String::from_str("Small"),
            TextStyle::Body => String::from_str("Body"),
            TextStyle::Button => String::from_str("Button"),
            TextStyle::Heading => String::from_str("Heading"),
            TextStyle::Monospace => String::from_str("Monospace"),
        }
    }
}

} // verus!
