use vstd::prelude::*;

use crate::sink::Sink;
use crate::sink::newline;

verus! {

/// The capability of rendering oneself to an output sink.
///
/// `rendering` is the one line a value emits; `draw` appends exactly that
/// line, terminated by a newline, to the sink and changes nothing else.
/// Callers may hold heterogeneous drawables and draw each without knowing
/// its concrete type.
pub trait Drawable {
    /// The single line this value renders as, without the terminator.
    spec fn rendering(&self) -> Seq<char>;

    /// Appends the rendering and a newline to `out`; mutates nothing else.
    fn draw(&self, out: &mut Sink)
        ensures
            final(out)@ == old(out)@ + self.rendering() + newline(),
    ;
}

/// The line a point renders as, given the text of its two coordinates.
pub open spec fn point_rendering(x: Seq<char>, y: Seq<char>) -> Seq<char> {
    "Point at ("@ + x + ", "@ + y + ")"@
}

/// A location in 2D space.
///
/// Each coordinate is held as its decimal text, exactly as it is to appear
/// in the rendering: drawing prints coordinates verbatim, so the text is
/// the whole of what the library reads of them. Any text is accepted;
/// non-finite coordinates simply carry their names (`NaN`, `inf`).
#[derive(Clone, Debug, PartialEq)]
pub struct Point {
    pub x: String,
    pub y: String,
}

impl Drawable for Point {
    open spec fn rendering(&self) -> Seq<char> {
        point_rendering(self.x@, self.y@)
    }

    fn draw(&self, out: &mut Sink) {
        let mut line = String::from_str("Point at (");
        line.append(self.x.as_str());
        line.append(", ");
        line.append(self.y.as_str());
        line.append(")");
        out.write_line(line.as_str());
    }
}

/// Drawing the same unchanged drawable twice emits two identical lines:
/// given the sink text after a first draw (`s1`, from text `s0`) and after
/// a second (`s2`), the two appended pieces are equal.
pub proof fn lemma_draw_idempotent<T: Drawable>(shape: &T, s0: Seq<char>, s1: Seq<char>, s2: Seq<char>)
    requires
        s1 == s0 + shape.rendering() + newline(),
        s2 == s1 + shape.rendering() + newline(),
    ensures
        s1.subrange(s0.len() as int, s1.len() as int)
            == s2.subrange(s1.len() as int, s2.len() as int),
{
    assert(s1.subrange(s0.len() as int, s1.len() as int)
        =~= shape.rendering() + newline());
    assert(s2.subrange(s1.len() as int, s2.len() as int)
        =~= shape.rendering() + newline());
}

} // verus!
