//! OneBot 11 over WebSocket: what a received frame is.
use vstd::prelude::*;

verus! {

/// What a frame from a OneBot 11 implementation carries.
#[derive(Debug, Clone, Copy, PartialEq, Eq, Structural)]
pub enum FrameKind {
    /// An answer to an action, recognised by its `echo` field.
    Response,
    /// An event, recognised by its event field.
    Event,
}

/// Classifies a frame by the fields of its top-level object: `echo` marks a
/// response and decides first; the event field (`post_type` in OneBot 11,
/// `type` in OneBot 12) marks an event. A frame with neither is rejected.
pub fn classify_frame(has_echo: bool, has_post_type: bool) -> (r: Result<FrameKind, String>)
    ensures
        has_echo ==> r == Ok::<FrameKind, String>(FrameKind::Response),
        !has_echo && has_post_type ==> r == Ok::<FrameKind, String>(FrameKind::Event),
        !has_echo && !has_post_type ==> (r matches Err(m) && m@ == "unknown data type"@),
{
    if has_echo {
        Ok(FrameKind::Response)
    } else if has_post_type {
        Ok(FrameKind::Event)
    } else {
        Err(String::from_str("unknown data type"))
    }
}

} // verus!
