//! Bridging a OneBot application connection to implementation connections:
//! what the bridge answers an implementation's action with.
use vstd::prelude::*;

use crate::interface::{spec_resp_args_from, RespArgs};
use crate::model::{RespData, RespStatus, RetCode};
use crate::outside::value_unit;

verus! {

/// The arguments a bridged action is answered with: those of the
/// application's response, or, where the application gives no response, a
/// success with an empty message whose payload is `serde_value::Value::Unit`.
pub fn bridge_response(resp: Option<RespData>) -> (r: RespArgs)
    ensures
        match resp {
            Some(d) => r == spec_resp_args_from(d),
            None => r.status == RespStatus::Success && r.retcode == RetCode::Success
                && r.message@ == Seq::<char>::empty(),
        },
{
    match resp {
        Some(d) => RespArgs::from_resp_data(d),
        None => RespArgs::success(value_unit(())),
    }
}

/// Whether an action from the implementation is passed to the application:
/// not when the application answers events through their context, as its
/// actions then belong to events.
pub fn forwards_actions(use_event_context: bool) -> (r: bool)
    ensures
        r == !use_event_context,
{
    !use_event_context
}

} // verus!
