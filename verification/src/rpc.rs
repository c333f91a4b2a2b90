//! Responses to layout queries, as handed across the script/layout
//! boundary: plain values a caller can hold without touching layout's own
//! structures.

use crate::geometry::{Au, Point2D, Rect, Size2D};
use vstd::prelude::*;

verus! {

/// A resolved style value, serialized to a string, if the queried node had
/// one.
#[derive(Clone, PartialEq, Eq, Debug)]
pub struct ResolvedStyleResponse(pub Option<String>);

/// A margin's computed value: automatic, a fixed length in app units, or a
/// percentage in thousandths.
#[derive(Clone, Copy, PartialEq, Eq, Structural, Debug)]
pub enum MarginValue {
    Auto,
    Length(Au),
    Percentage(i64),
}

/// The node an offset-parent query resolved to (as an opaque address) and
/// its border box.
#[derive(Clone, Copy, PartialEq, Eq, Structural, Debug)]
pub struct OffsetParentResponse {
    pub node_address: Option<u64>,
    pub rect: Rect<Au>,
}

impl OffsetParentResponse {
    /// The response for a query that resolved to no node.
    pub fn empty() -> (r: OffsetParentResponse)
        ensures
            r.node_address is None,
            r.rect == (Rect {
                origin: Point2D { x: Au(0), y: Au(0) },
                size: Size2D { width: Au(0), height: Au(0) },
            }),
    {
        OffsetParentResponse {
            node_address: None,
            rect: Rect {
                origin: Point2D { x: Au(0), y: Au(0) },
                size: Size2D { width: Au(0), height: Au(0) },
            },
        }
    }
}

/// The computed values of a node's four margins.
#[derive(Clone, Copy, PartialEq, Eq, Structural, Debug)]
pub struct MarginStyleResponse {
    pub top: MarginValue,
    pub right: MarginValue,
    pub bottom: MarginValue,
    pub left: MarginValue,
}

impl MarginStyleResponse {
    /// The response for a query that resolved to no node: all margins
    /// automatic.
    pub fn empty() -> (r: MarginStyleResponse)
        ensures
            r == (MarginStyleResponse {
                top: MarginValue::Auto,
                right: MarginValue::Auto,
                bottom: MarginValue::Auto,
                left: MarginValue::Auto,
            }),
    {
        MarginStyleResponse {
            top: MarginValue::Auto,
            right: MarginValue::Auto,
            bottom: MarginValue::Auto,
            left: MarginValue::Auto,
        }
    }
}

} // verus!
