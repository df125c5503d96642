//! Decoding of on-screen window descriptions.
//!
//! The window-ordering service describes each window as a key/value
//! mapping.  The surrounding binary reads the handful of keys this tool
//! cares about out of that mapping and hands them over as plain optional
//! values; decoding then either produces a complete [`WindowInfo`] or
//! drops the window, never a partial record.

use vstd::prelude::*;

use crate::geometry::Rect;

verus! {

/// The looked-up entries of the nested bounds mapping: the origin and
/// size components, each absent when its key was missing or not numeric.
#[derive(Debug)]
pub struct RectAttributes {
    pub x: Option<i64>,
    pub y: Option<i64>,
    pub width: Option<i64>,
    pub height: Option<i64>,
}

/// The looked-up entries of one window's attribute mapping, each absent
/// when its key was missing or held a value of the wrong shape.
#[derive(Debug)]
pub struct WindowAttributes {
    pub window_number: Option<i64>,
    pub owner_pid: Option<i64>,
    pub layer: Option<i64>,
    pub bounds: Option<RectAttributes>,
    pub owner_name: Option<String>,
    pub window_name: Option<String>,
}

/// A fully decoded on-screen window.
#[derive(Debug)]
pub struct WindowInfo {
    /// Unique among the windows of one enumeration.
    pub window_id: u32,
    /// The process that owns the window.
    pub owner_pid: i32,
    /// Stacking layer; 0 is the normal application layer.  Exposed as
    /// data — no filtering rule is applied here.
    pub layer: i32,
    /// The window's bounds in global coordinates.
    pub bounds: Rect,
    /// The owning application's display name.
    pub owner_name: String,
    /// The window title; many windows expose none.
    pub window_name: Option<String>,
}

/// The nested bounds mapping decodes when all four components are
/// present and they form a usable rectangle.
pub open spec fn rect_decodes(ra: RectAttributes) -> bool {
    &&& ra.x is Some
    &&& ra.y is Some
    &&& ra.width is Some
    &&& ra.height is Some
    &&& spec_rect_of(ra).wf()
}

/// The rectangle the four components describe.
pub open spec fn spec_rect_of(ra: RectAttributes) -> Rect
    recommends
        ra.x is Some,
        ra.y is Some,
        ra.width is Some,
        ra.height is Some,
{
    Rect {
        x: ra.x->Some_0,
        y: ra.y->Some_0,
        width: ra.width->Some_0,
        height: ra.height->Some_0,
    }
}

/// A window record decodes when every required attribute is present and
/// each integer fits its field: the id is an unsigned 32-bit number, the
/// owner process and the layer are signed 32-bit numbers, and the bounds
/// mapping decodes.  The title is not required.
pub open spec fn window_decodes(a: WindowAttributes) -> bool {
    &&& a.window_number is Some
    &&& 0 <= a.window_number->Some_0 <= u32::MAX
    &&& a.owner_pid is Some
    &&& i32::MIN <= a.owner_pid->Some_0 <= i32::MAX
    &&& a.layer is Some
    &&& i32::MIN <= a.layer->Some_0 <= i32::MAX
    &&& a.bounds is Some
    &&& rect_decodes(a.bounds->Some_0)
    &&& a.owner_name is Some
}

/// The record a decodable attribute set describes.
pub open spec fn spec_decoded(a: WindowAttributes) -> WindowInfo
    recommends
        window_decodes(a),
{
    WindowInfo {
        window_id: a.window_number->Some_0 as u32,
        owner_pid: a.owner_pid->Some_0 as i32,
        layer: a.layer->Some_0 as i32,
        bounds: spec_rect_of(a.bounds->Some_0),
        owner_name: a.owner_name->Some_0,
        window_name: a.window_name,
    }
}

/// Decode the nested bounds mapping into a rectangle, or nothing when a
/// component is missing or the rectangle is unusable.
pub fn rect_of(ra: &RectAttributes) -> (r: Option<Rect>)
    ensures
        r is Some <==> rect_decodes(*ra),
        r matches Some(b) ==> b == spec_rect_of(*ra),
{
    match (ra.x, ra.y, ra.width, ra.height) {
        (Some(x), Some(y), Some(width), Some(height)) => {
            if width >= 0 && height >= 0 && x <= i64::MAX - width && y <= i64::MAX - height {
                Some(Rect { x, y, width, height })
            } else {
                None
            }
        },
        _ => None,
    }
}

/// Decode one window's attributes into a record, or nothing when any
/// required attribute is missing or out of range; a missing title only
/// leaves the record's title absent.
pub fn decode_window(a: &WindowAttributes) -> (r: Option<WindowInfo>)
    ensures
        r is Some <==> window_decodes(*a),
        r matches Some(w) ==> w == spec_decoded(*a),
{
    let window_number: i64 = match a.window_number {
        Some(n) => n,
        None => {
            return None;
        },
    };
    if !(0 <= window_number && window_number <= u32::MAX as i64) {
        return None;
    }
    let owner_pid: i64 = match a.owner_pid {
        Some(n) => n,
        None => {
            return None;
        },
    };
    if !(i32::MIN as i64 <= owner_pid && owner_pid <= i32::MAX as i64) {
        return None;
    }
    let layer: i64 = match a.layer {
        Some(n) => n,
        None => {
            return None;
        },
    };
    if !(i32::MIN as i64 <= layer && layer <= i32::MAX as i64) {
        return None;
    }
    let bounds: Rect = match &a.bounds {
        Some(ra) => match rect_of(ra) {
            Some(b) => b,
            None => {
                return None;
            },
        },
        None => {
            return None;
        },
    };
    let owner_name: String = match &a.owner_name {
        Some(s) => s.clone(),
        None => {
            return None;
        },
    };
    let window_name: Option<String> = match &a.window_name {
        Some(s) => Some(s.clone()),
        None => None,
    };
    Some(
        WindowInfo {
            window_id: window_number as u32,
            owner_pid: owner_pid as i32,
            layer: layer as i32,
            bounds,
            owner_name,
            window_name,
        },
    )
}

/// The records that survive decoding, in the order the service listed
/// their windows.
pub open spec fn decoded_list(s: Seq<WindowAttributes>) -> Seq<WindowInfo>
    decreases s.len(),
{
    if s.len() == 0 {
        Seq::empty()
    } else if window_decodes(s.last()) {
        decoded_list(s.drop_last()).push(spec_decoded(s.last()))
    } else {
        decoded_list(s.drop_last())
    }
}

/// Decode a whole enumeration: every window whose attributes decode
/// contributes one record, in listing order; the rest are dropped.
pub fn decode_window_list(attrs: &Vec<WindowAttributes>) -> (r: Vec<WindowInfo>)
    ensures
        r@ == decoded_list(attrs@),
{
    let mut out: Vec<WindowInfo> = Vec::new();
    let mut i: usize = 0;
    while i < attrs.len()
        invariant
            i <= attrs@.len(),
            out@ == decoded_list(attrs@.take(i as int)),
        decreases attrs@.len() - i,
    {
        proof {
            assert(attrs@.take(i + 1 as int).drop_last() =~= attrs@.take(i as int));
            assert(attrs@.take(i + 1 as int).last() == attrs@[i as int]);
        }
        match decode_window(&attrs[i]) {
            Some(w) => {
                out.push(w);
            },
            None => {},
        }
        i = i + 1;
    }
    proof {
        assert(attrs@.take(attrs@.len() as int) =~= attrs@);
    }
    out
}

} // verus!
