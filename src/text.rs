use vstd::prelude::*;

verus! {

/// The fixed label in front of the value.
pub const LABEL: &'static str = "FPS: ";

/// The value shown while no measurement is available.
pub const PLACEHOLDER: &'static str = "...";

/// What the overlay's text element shows: a fixed label and a value, each
/// in a section of its own.
pub struct OverlayText {
    pub label: String,
    pub value: String,
}

/// The value section of a freshly spawned element: the formatted
/// measurement, or the placeholder when there is none.
pub open spec fn value_text(fps: Option<Seq<char>>) -> Seq<char> {
    match fps {
        Some(v) => v,
        None => PLACEHOLDER@,
    }
}

/// The view of an optional string.
pub open spec fn opt_view(s: Option<String>) -> Option<Seq<char>> {
    match s {
        Some(v) => Some(v@),
        None => None,
    }
}

/// The text of a new overlay element, showing `fps` or the placeholder.
pub fn spawn_text(fps: Option<String>) -> (r: OverlayText)
    ensures
        r.label@ == LABEL@,
        r.value@ == value_text(opt_view(fps)),
{
    let value = match fps {
        Some(v) => v,
        None => PLACEHOLDER.to_owned(),
    };
    OverlayText { label: LABEL.to_owned(), value }
}

} // verus!
