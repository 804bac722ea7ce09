use vstd::prelude::*;

verus! {

/// The tool that the pointer drives on the canvas.
#[derive(Clone, Copy, Debug, PartialEq, Eq, Structural)]
pub enum Mode {
    Select,
    Brush,
    Eraser,
}

/// The lower-case name under which a mode is shown.
pub open spec fn mode_name(m: Mode) -> Seq<char> {
    match m {
        Mode::Select => seq!['s', 'e', 'l', 'e', 'c', 't'],
        Mode::Brush => seq!['b', 'r', 'u', 's', 'h'],
        Mode::Eraser => seq!['e', 'r', 'a', 's', 'e', 'r'],
    }
}

impl Mode {
    /// The mode's display name.
    pub fn label(&self) -> (r: String)
        ensures
            r@ == mode_name(*self),
    {
        match self {
            Mode::Select => {
                proof {
                    reveal_strlit("select");
                }
                "select".to_string()
            },
            Mode::Brush => {
                proof {
                    reveal_strlit("brush");
                }
                "brush".to_string()
            },
            Mode::Eraser => {
                proof {
                    reveal_strlit("eraser");
                }
                "eraser".to_string()
            },
        }
    }

    /// Whether moving the pointer draws in this mode.
    pub fn draws(&self) -> (r: bool)
        ensures
            r == (*self == Mode::Brush),
    {
        matches!(self, Mode::Brush)
    }
}

/// The modes offered to the user, in the order they are listed. The eraser
/// is not among them: it has no behaviour yet.
pub fn edit_modes() -> (r: Vec<Mode>)
    ensures
        r@ == seq![Mode::Select, Mode::Brush],
{
    vec![Mode::Select, Mode::Brush]
}

} // verus!
