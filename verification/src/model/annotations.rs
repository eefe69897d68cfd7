//! Chart annotation markers and label positions.
//!
//! Annotations are persistent visual overlays placed at a price/time point,
//! drawn with one of the [`MarkerType`] shapes and an optional text label
//! positioned by [`AnnotationPos`].
use vstd::prelude::*;

verus! {

/// Shape of an annotation marker drawn on the chart.
#[derive(Debug, Clone, Copy, PartialEq, Eq, Hash, Structural)]
pub enum MarkerType {
    /// Circle marker
    Circle,
    /// Triangle pointing up
    TriangleUp,
    /// Triangle pointing down
    TriangleDown,
    /// Square marker
    Square,
    /// Diamond marker
    Diamond,
    /// Star marker
    Star,
    /// Arrow pointing up
    ArrowUp,
    /// Arrow pointing down
    ArrowDown,
}

impl MarkerType {
    pub open spec fn spec_as_str(self) -> Seq<char> {
        match self {
            MarkerType::Circle => "Circle"@,
            MarkerType::TriangleUp => "Triangle Up"@,
            MarkerType::TriangleDown => "Triangle Down"@,
            MarkerType::Square => "Square"@,
            MarkerType::Diamond => "Diamond"@,
            MarkerType::Star => "Star"@,
            MarkerType::ArrowUp => "Arrow Up"@,
            MarkerType::ArrowDown => "Arrow Down"@,
        }
    }

    pub open spec fn spec_all() -> Seq<MarkerType> {
        seq![MarkerType::Circle, MarkerType::TriangleUp, MarkerType::TriangleDown, MarkerType::Square, MarkerType::Diamond, MarkerType::Star, MarkerType::ArrowUp, MarkerType::ArrowDown]
    }

    /// Returns all available marker type variants.
    pub fn all() -> (r: Vec<MarkerType>)
        ensures
            r@ == Self::spec_all(),
            forall|x: MarkerType| #[trigger] r@.contains(x),
            r@.no_duplicates(),
    {
        proof {
            let s = Self::spec_all();
            assert forall|x: MarkerType| #[trigger] s.contains(x) by {
                match x {
                    MarkerType::Circle => assert(s[0] == x),
                    MarkerType::TriangleUp => assert(s[1] == x),
                    MarkerType::TriangleDown => assert(s[2] == x),
                    MarkerType::Square => assert(s[3] == x),
                    MarkerType::Diamond => assert(s[4] == x),
                    MarkerType::Star => assert(s[5] == x),
                    MarkerType::ArrowUp => assert(s[6] == x),
                    MarkerType::ArrowDown => assert(s[7] == x),
                }
            }
        }
        vec![
            MarkerType::Circle,
            MarkerType::TriangleUp,
            MarkerType::TriangleDown,
            MarkerType::Square,
            MarkerType::Diamond,
            MarkerType::Star,
            MarkerType::ArrowUp,
            MarkerType::ArrowDown,
        ]
    }

    /// Returns a human-readable name for this marker type.
    pub fn as_str(&self) -> (r: &str)
        ensures
            r@ == self.spec_as_str(),
    {
        match self {
            MarkerType::Circle => "Circle",
            MarkerType::TriangleUp => "Triangle Up",
            MarkerType::TriangleDown => "Triangle Down",
            MarkerType::Square => "Square",
            MarkerType::Diamond => "Diamond",
            MarkerType::Star => "Star",
            MarkerType::ArrowUp => "Arrow Up",
            MarkerType::ArrowDown => "Arrow Down",
        }
    }

    /// Text shown when this value is displayed.
    pub fn to_string(&self) -> (r: String)
        ensures
            r@ == self.spec_as_str(),
    {
        self.as_str().to_owned()
    }
}

impl Default for MarkerType {
    fn default() -> (r: Self)
        ensures
            r == MarkerType::Circle,
    {
        MarkerType::Circle
    }
}

/// Position of the text label relative to the annotation marker.
#[derive(Debug, Clone, Copy, PartialEq, Eq, Hash, Structural)]
pub enum AnnotationPos {
    /// Label above the marker.
    Above,
    /// Label below the marker.
    Below,
    /// Label to the left of the marker.
    Left,
    /// Label to the right of the marker.
    Right,
}

impl Default for AnnotationPos {
    fn default() -> (r: Self)
        ensures
            r == AnnotationPos::Above,
    {
        AnnotationPos::Above
    }
}

} // verus!
