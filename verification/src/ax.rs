//! Accessibility-side logic: finding one process window among the
//! elements the accessibility service lists, and shaping the requests
//! that move or resize it.
//!
//! The accessibility tree exposes no numeric window id of its own; a
//! private bridge call maps each element to the id the window-ordering
//! service uses.  The surrounding binary runs that bridge over the
//! listed elements and hands the outcomes over as plain values: the id
//! an element reported, or nothing where the bridge did not succeed.

use vstd::prelude::*;

verus! {

/// The code the attribute-set primitive reports on success.
pub const AX_SUCCESS: i32 = 0;

/// Which attribute of a window an [`AttributeRequest`] sets.
#[derive(Clone, Copy, PartialEq, Eq, Structural, Debug)]
pub enum AxAttribute {
    Position,
    Size,
}

/// One attribute mutation, ready for the surrounding binary to wrap in
/// the platform's typed value and pass to the set-attribute primitive.
#[derive(Clone, Copy, PartialEq, Eq, Structural, Debug)]
pub struct AttributeRequest {
    pub attribute: AxAttribute,
    /// The x coordinate of a position, or the width of a size.
    pub first: i64,
    /// The y coordinate of a position, or the height of a size.
    pub second: i64,
}

/// Index `i` holds the first element whose bridged id is the target.
pub open spec fn is_first_match(ids: Seq<Option<u32>>, target: u32, i: int) -> bool {
    &&& 0 <= i < ids.len()
    &&& ids[i] == Some(target)
    &&& forall|k: int| 0 <= k < i ==> #[trigger] ids[k] != Some(target)
}

/// Scan the bridged ids of a process's accessibility elements, in the
/// order the service listed them, for the first one equal to `target`.
/// An element whose bridge call failed is skipped, not an error.  The
/// result is the position of the matching element — the handle to keep
/// — or `None` when no element matches.
pub fn locate_window(ids: &Vec<Option<u32>>, target: u32) -> (r: Option<usize>)
    ensures
        match r {
            Some(i) => is_first_match(ids@, target, i as int),
            None => forall|k: int| 0 <= k < ids@.len() ==> #[trigger] ids@[k] != Some(target),
        },
{
    let mut i: usize = 0;
    while i < ids.len()
        invariant
            i <= ids@.len(),
            forall|k: int| 0 <= k < i ==> #[trigger] ids@[k] != Some(target),
        decreases ids@.len() - i,
    {
        let hit: bool = match ids[i] {
            Some(id) => id == target,
            None => false,
        };
        if hit {
            return Some(i);
        }
        i = i + 1;
    }
    None
}

/// The request that moves a window so that its origin becomes `(x, y)`.
pub fn position_request(x: i64, y: i64) -> (r: AttributeRequest)
    ensures
        r == (AttributeRequest { attribute: AxAttribute::Position, first: x, second: y }),
{
    AttributeRequest { attribute: AxAttribute::Position, first: x, second: y }
}

/// The request that resizes a window to `width` by `height`.
pub fn size_request(width: i64, height: i64) -> (r: AttributeRequest)
    ensures
        r == (AttributeRequest { attribute: AxAttribute::Size, first: width, second: height }),
{
    AttributeRequest { attribute: AxAttribute::Size, first: width, second: height }
}

/// Read the attribute-set primitive's reply: its designated success
/// code means the mutation took effect, and any other code is surfaced
/// verbatim as the error.
pub fn attribute_set_outcome(code: i32) -> (r: Result<(), i32>)
    ensures
        r is Ok <==> code == AX_SUCCESS,
        r matches Err(e) ==> e == code,
{
    if code == AX_SUCCESS {
        Ok(())
    } else {
        Err(code)
    }
}

} // verus!
