//! Drawing primitives and the ordered plan that holds them.

use vstd::prelude::*;

verus! {

/// The weight of the sans-serif face that a text run is set in.
#[derive(Debug, Clone, Copy, PartialEq, Eq)]
pub enum FontWeight {
    Regular,
    Bold,
}

/// The colours that a rectangle can be filled with.
#[derive(Debug, Clone, Copy, PartialEq, Eq)]
pub enum FillColor {
    LightGrey,
}

/// One drawing instruction. Lengths are in ticks, measured from the page's
/// bottom-left corner; strokes are black.
#[derive(Debug, Clone, PartialEq, Eq)]
pub enum DrawingPrimitive {
    /// A straight stroke from (`x1`, `y1`) to (`x2`, `y2`).
    Line { x1: i128, y1: i128, x2: i128, y2: i128, stroke_width: i128 },
    /// An axis-aligned rectangle, stroked and optionally filled.
    Rect {
        left: i128,
        bottom: i128,
        right: i128,
        top: i128,
        stroke_width: i128,
        fill: Option<FillColor>,
    },
    /// A single line of text whose baseline starts at (`x`, `y`).
    Text { x: i128, y: i128, content: String, weight: FontWeight, size: i128 },
}

/// The mathematical value of a `DrawingPrimitive`.
pub enum PrimitiveModel {
    Line { x1: int, y1: int, x2: int, y2: int, stroke_width: int },
    Rect { left: int, bottom: int, right: int, top: int, stroke_width: int, fill: Option<FillColor> },
    Text { x: int, y: int, content: Seq<char>, weight: FontWeight, size: int },
}

impl DeepView for DrawingPrimitive {
    type V = PrimitiveModel;

    open spec fn deep_view(&self) -> PrimitiveModel {
        match *self {
            DrawingPrimitive::Line { x1, y1, x2, y2, stroke_width } => PrimitiveModel::Line {
                x1: x1 as int,
                y1: y1 as int,
                x2: x2 as int,
                y2: y2 as int,
                stroke_width: stroke_width as int,
            },
            DrawingPrimitive::Rect {
                left,
                bottom,
                right,
                top,
                stroke_width,
                fill,
            } => PrimitiveModel::Rect {
                left: left as int,
                bottom: bottom as int,
                right: right as int,
                top: top as int,
                stroke_width: stroke_width as int,
                fill,
            },
            DrawingPrimitive::Text { x, y, content, weight, size } => PrimitiveModel::Text {
                x: x as int,
                y: y as int,
                content: content@,
                weight,
                size: size as int,
            },
        }
    }
}

/// A black stroke.
pub open spec fn stroke(x1: int, y1: int, x2: int, y2: int, stroke_width: int) -> PrimitiveModel {
    PrimitiveModel::Line { x1, y1, x2, y2, stroke_width }
}

/// A rectangle that is stroked and not filled.
pub open spec fn outline(
    left: int,
    bottom: int,
    right: int,
    top: int,
    stroke_width: int,
) -> PrimitiveModel {
    PrimitiveModel::Rect { left, bottom, right, top, stroke_width, fill: None }
}

/// A rectangle that is stroked and filled.
pub open spec fn filled(
    left: int,
    bottom: int,
    right: int,
    top: int,
    stroke_width: int,
    fill: FillColor,
) -> PrimitiveModel {
    PrimitiveModel::Rect { left, bottom, right, top, stroke_width, fill: Some(fill) }
}

/// A text run in the regular face.
pub open spec fn regular(x: int, y: int, content: Seq<char>, size: int) -> PrimitiveModel {
    PrimitiveModel::Text { x, y, content, weight: FontWeight::Regular, size }
}

/// A text run in the bold face.
pub open spec fn bold(x: int, y: int, content: Seq<char>, size: int) -> PrimitiveModel {
    PrimitiveModel::Text { x, y, content, weight: FontWeight::Bold, size }
}

/// An ordered sequence of drawing primitives; later ones paint over
/// earlier ones.
#[derive(Debug, Clone, PartialEq, Eq)]
pub struct DrawingPlan {
    pub primitives: Vec<DrawingPrimitive>,
}

impl View for DrawingPlan {
    type V = Seq<PrimitiveModel>;

    open spec fn view(&self) -> Seq<PrimitiveModel> {
        self.primitives.deep_view()
    }
}

impl DrawingPlan {
    /// The empty plan.
    pub fn new() -> (plan: DrawingPlan)
        ensures
            plan@ == Seq::<PrimitiveModel>::empty(),
    {
        let plan = DrawingPlan { primitives: Vec::new() };
        assert(plan@ =~= Seq::<PrimitiveModel>::empty());
        plan
    }

    /// The number of primitives in the plan.
    pub fn len(&self) -> (n: usize)
        ensures
            n == self@.len(),
    {
        self.primitives.len()
    }

    /// Appends one primitive.
    pub fn push(&mut self, primitive: DrawingPrimitive)
        ensures
            final(self)@ == old(self)@.push(primitive.deep_view()),
    {
        self.primitives.push(primitive);
        assert(self@ =~= old(self)@.push(primitive.deep_view()));
    }

    /// Appends a stroke.
    pub fn line(&mut self, x1: i128, y1: i128, x2: i128, y2: i128, stroke_width: i128)
        ensures
            final(self)@ == old(self)@.push(
                stroke(x1 as int, y1 as int, x2 as int, y2 as int, stroke_width as int),
            ),
    {
        self.push(DrawingPrimitive::Line { x1, y1, x2, y2, stroke_width });
    }

    /// Appends a rectangle.
    pub fn rect(
        &mut self,
        left: i128,
        bottom: i128,
        right: i128,
        top: i128,
        stroke_width: i128,
        fill: Option<FillColor>,
    )
        ensures
            final(self)@ == old(self)@.push(
                (PrimitiveModel::Rect {
                    left: left as int,
                    bottom: bottom as int,
                    right: right as int,
                    top: top as int,
                    stroke_width: stroke_width as int,
                    fill,
                }),
            ),
    {
        self.push(DrawingPrimitive::Rect { left, bottom, right, top, stroke_width, fill });
    }

    /// Appends a text run.
    pub fn text(&mut self, x: i128, y: i128, content: String, weight: FontWeight, size: i128)
        ensures
            final(self)@ == old(self)@.push(
                (PrimitiveModel::Text {
                    x: x as int,
                    y: y as int,
                    content: content@,
                    weight,
                    size: size as int,
                }),
            ),
    {
        self.push(DrawingPrimitive::Text { x, y, content, weight, size });
    }
}

} // verus!
