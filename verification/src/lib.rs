//! Library for moving the pointer between displays arranged in a cyclic
//! ring, and for describing on-screen windows well enough to find and
//! reposition one of them through the platform's accessibility service.
//!
//! Everything here works on plain coordinate values; the operating-system
//! calls that observe or move the real pointer live in the surrounding
//! binary, which feeds their results into these functions and carries out
//! the decisions they return.

mod ax;
mod geometry;
mod ring;
mod warp;
mod window;

pub use ax::attribute_set_outcome;
pub use ax::is_first_match;
pub use ax::locate_window;
pub use ax::position_request;
pub use ax::size_request;
pub use ax::AttributeRequest;
pub use ax::AxAttribute;
pub use ax::AX_SUCCESS;
pub use geometry::Point;
pub use geometry::Rect;
pub use ring::all_wf;
pub use ring::display_under;
pub use ring::is_first_hit;
pub use ring::lemma_neighbor_is_other_display;
pub use ring::lemma_ring_wrap;
pub use ring::next_display;
pub use ring::next_index;
pub use ring::ring_step;
pub use warp::click_plan;
pub use warp::plan_warp;
pub use warp::MouseEvent;
pub use warp::MouseEventKind;
pub use warp::WarpDecision;
pub use window::decode_window;
pub use window::decode_window_list;
pub use window::decoded_list;
pub use window::rect_decodes;
pub use window::rect_of;
pub use window::spec_decoded;
pub use window::spec_rect_of;
pub use window::window_decodes;
pub use window::RectAttributes;
pub use window::WindowAttributes;
pub use window::WindowInfo;
