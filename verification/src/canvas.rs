//! The canvas state that drawing scripts set by name, and the layout of the
//! canvas pixels when they are read back.
use vstd::prelude::*;

verus! {

/// How the ends of stroked lines are drawn.
#[derive(Clone, Copy, Debug, PartialEq, Eq, Structural)]
pub enum LineCap {
    Butt,
    Round,
    Square,
}

/// How stroked lines are joined.
#[derive(Clone, Copy, Debug, PartialEq, Eq, Structural)]
pub enum LineJoin {
    Miter,
    Round,
    Bevel,
}

/// The line cap a script names, if it names one.
pub open spec fn line_cap_named(name: Seq<char>) -> Option<LineCap> {
    if name == "butt"@ {
        Some(LineCap::Butt)
    } else if name == "round"@ {
        Some(LineCap::Round)
    } else if name == "square"@ {
        Some(LineCap::Square)
    } else {
        None
    }
}

/// The line join a script names, if it names one.
pub open spec fn line_join_named(name: Seq<char>) -> Option<LineJoin> {
    if name == "miter"@ {
        Some(LineJoin::Miter)
    } else if name == "round"@ {
        Some(LineJoin::Round)
    } else if name == "bevel"@ {
        Some(LineJoin::Bevel)
    } else {
        None
    }
}

/// The line cap named `name`: "butt", "round" or "square".
pub fn parse_line_cap(name: &String) -> (cap: Option<LineCap>)
    ensures
        cap == line_cap_named(name@),
{
    if *name == "butt".to_owned() {
        Some(LineCap::Butt)
    } else if *name == "round".to_owned() {
        Some(LineCap::Round)
    } else if *name == "square".to_owned() {
        Some(LineCap::Square)
    } else {
        None
    }
}

/// The line join named `name`: "miter", "round" or "bevel".
pub fn parse_line_join(name: &String) -> (join: Option<LineJoin>)
    ensures
        join == line_join_named(name@),
{
    if *name == "miter".to_owned() {
        Some(LineJoin::Miter)
    } else if *name == "round".to_owned() {
        Some(LineJoin::Round)
    } else if *name == "bevel".to_owned() {
        Some(LineJoin::Bevel)
    } else {
        None
    }
}

/// How lines are stroked.
#[derive(Clone, Copy, Debug, PartialEq, Eq, Structural)]
pub struct StrokeStyle {
    pub line_cap: LineCap,
    pub line_join: LineJoin,
}

impl StrokeStyle {
    /// Butt caps and miter joins, as a new canvas has.
    pub fn new() -> (style: StrokeStyle)
        ensures
            style == (StrokeStyle { line_cap: LineCap::Butt, line_join: LineJoin::Miter }),
    {
        StrokeStyle { line_cap: LineCap::Butt, line_join: LineJoin::Miter }
    }

    /// Sets the line cap a script names; an unknown name changes nothing.
    /// Returns whether the name was known.
    pub fn js_set_line_cap(&mut self, line_cap: String) -> (known: bool)
        ensures
            known == (line_cap_named(line_cap@) is Some),
            *final(self) == match line_cap_named(line_cap@) {
                Some(cap) => StrokeStyle { line_cap: cap, ..*old(self) },
                None => *old(self),
            },
    {
        match parse_line_cap(&line_cap) {
            Some(cap) => {
                self.line_cap = cap;
                true
            },
            None => false,
        }
    }

    /// Sets the line join a script names; an unknown name changes nothing.
    /// Returns whether the name was known.
    pub fn js_set_line_join(&mut self, line_join: String) -> (known: bool)
        ensures
            known == (line_join_named(line_join@) is Some),
            *final(self) == match line_join_named(line_join@) {
                Some(join) => StrokeStyle { line_join: join, ..*old(self) },
                None => *old(self),
            },
    {
        match parse_line_join(&line_join) {
            Some(join) => {
                self.line_join = join;
                true
            },
            None => false,
        }
    }
}

/// The row length and total length, in bytes, of the RGBA pixels of a
/// `width` by `height` canvas.
pub fn rgba_buffer_layout(width: i32, height: i32) -> (layout: (usize, usize))
    requires
        0 <= width,
        0 <= height,
        width * 4 <= i32::MAX,
        width * height * 4 <= i32::MAX,
    ensures
        layout.0 == width * 4,
        layout.1 == width * height * 4,
{
    assert(0 <= width * height * 4) by (nonlinear_arith)
        requires
            0 <= width,
            0 <= height,
    ;
    let row = (width * 4) as usize;
    let size = (width * height * 4) as usize;
    (row, size)
}

} // verus!
