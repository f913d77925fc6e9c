//! The policy that the owner of a node sets: what it is evaluated on, and what follows
//! from its decision.

use vstd::prelude::*;

use crate::arithmetic;
use crate::arithmetic::saturating_sub_i64;
use crate::error::ApiError;
use crate::text;

verus! {

/// A node that was paused for its temperature goes on once it is this many degrees
/// below its limit.
pub const RESUME_TEMP_HYSTERESIS_C: u16 = 5;

/// The limits of a node, as the database holds them.
pub struct PolicyRow {
    pub max_concurrent: i32,
    pub gpu_temp_limit_c: Option<i32>,
    pub vram_reserve_mib: i64,
}

/// The last measurement of a node.
pub struct NodeMeasurement {
    pub gpu_temp_c: Option<i32>,
    pub vram_used_mib: Option<i64>,
    pub vram_total_mib: Option<i64>,
}

/// The limits that a policy is evaluated with.
#[derive(Clone, Copy, Debug, PartialEq, Eq, Structural)]
pub struct NodePolicy {
    pub max_concurrent: u32,
    pub gpu_temp_limit_c: Option<u16>,
    pub vram_reserve_mib: u64,
    pub resume_temp_hysteresis_c: u16,
}

/// What a policy is evaluated on.
#[derive(Clone, Copy, Debug, PartialEq, Eq, Structural)]
pub struct NodeRuntime {
    pub current_concurrent: u32,
    pub gpu_temp_c: Option<i32>,
    pub available_vram_mib: Option<u64>,
    pub paused_for_temperature: bool,
}

/// The video memory that is free, where both what there is and what is used is known,
/// and no more is used than there is.
pub open spec fn available_vram(measurement: Option<NodeMeasurement>) -> Option<int> {
    match measurement {
        Some(measured) => match (measured.vram_used_mib, measured.vram_total_mib) {
            (Some(used), Some(total)) => if arithmetic::clamped_i64(total - used) >= 0 {
                Some(arithmetic::clamped_i64(total - used) as int)
            } else {
                None
            },
            _ => None,
        },
        None => None,
    }
}

/// Every limit is one that a policy can have.
pub open spec fn limits_possible(policy: PolicyRow, active: i64) -> bool {
    &&& policy.max_concurrent >= 0
    &&& policy.gpu_temp_limit_c matches Some(limit) ==> 0 <= limit <= u16::MAX
    &&& policy.vram_reserve_mib >= 0
    &&& 0 <= active <= u32::MAX
}

/// Puts together what a policy is evaluated on. Limits that no policy can have are an
/// internal error.
pub fn policy_inputs(policy: &PolicyRow, active: i64, measurement: &Option<NodeMeasurement>) -> (inputs: Result<
    (NodePolicy, NodeRuntime),
    ApiError,
>)
    ensures
        match inputs {
            Ok((limits, runtime)) => {
                &&& limits_possible(*policy, active)
                &&& limits.max_concurrent == policy.max_concurrent
                &&& match policy.gpu_temp_limit_c {
                    Some(limit) => limits.gpu_temp_limit_c is Some && limits.gpu_temp_limit_c->0
                        == limit,
                    None => limits.gpu_temp_limit_c is None,
                }
                &&& limits.vram_reserve_mib == policy.vram_reserve_mib
                &&& limits.resume_temp_hysteresis_c == RESUME_TEMP_HYSTERESIS_C
                &&& runtime.current_concurrent == active
                &&& runtime.gpu_temp_c == match *measurement {
                    Some(measured) => measured.gpu_temp_c,
                    None => None,
                }
                &&& match available_vram(*measurement) {
                    Some(free) => runtime.available_vram_mib is Some
                        && runtime.available_vram_mib->0 == free,
                    None => runtime.available_vram_mib is None,
                }
                &&& !runtime.paused_for_temperature
            },
            Err(refused) => !limits_possible(*policy, active) && refused == ApiError::internal(),
        },
{
    if policy.max_concurrent < 0 || policy.vram_reserve_mib < 0 || active < 0 || active
        > u32::MAX as i64 {
        return Err(ApiError::internal());
    }
    let gpu_temp_limit_c: Option<u16> = match policy.gpu_temp_limit_c {
        Some(limit) => {
            if limit < 0 || limit > u16::MAX as i32 {
                return Err(ApiError::internal());
            }
            Some(limit as u16)
        },
        None => None,
    };
    let mut gpu_temp_c: Option<i32> = None;
    let mut available_vram_mib: Option<u64> = None;
    if let Some(measured) = measurement {
        gpu_temp_c = measured.gpu_temp_c;
        if let (Some(used), Some(total)) = (measured.vram_used_mib, measured.vram_total_mib) {
            let free: i64 = saturating_sub_i64(total, used);
            if free >= 0 {
                available_vram_mib = Some(free as u64);
            }
        }
    }
    Ok(
        (
            NodePolicy {
                max_concurrent: policy.max_concurrent as u32,
                gpu_temp_limit_c,
                vram_reserve_mib: policy.vram_reserve_mib as u64,
                resume_temp_hysteresis_c: RESUME_TEMP_HYSTERESIS_C,
            },
            NodeRuntime {
                current_concurrent: active as u32,
                gpu_temp_c,
                available_vram_mib,
                paused_for_temperature: false,
            },
        ),
    )
}

/// What the evaluation of a policy decides.
pub enum PolicyDecision {
    Accept,
    PauseTemperature,
    Reject { reason: String },
}

/// What follows from the decision of a policy. `None` stands for a policy that could not
/// be evaluated.
pub open spec fn enforces(decision: Option<PolicyDecision>, enforced: Result<(), ApiError>) -> bool {
    match decision {
        None => enforced == Err::<(), ApiError>(ApiError::internal()),
        Some(PolicyDecision::Accept) => enforced == Ok::<(), ApiError>(()),
        Some(PolicyDecision::PauseTemperature) => enforced == Err::<(), ApiError>(
            ApiError::policy_rejected("GPU 温度达到节点阈值"),
        ),
        Some(PolicyDecision::Reject { reason }) => enforced matches Err(
            ApiError::PolicyReason { detail },
        ) && detail@ == "节点策略拒绝："@ + reason@,
    }
}

/// Takes the decision of a policy.
pub fn enforce_current_policy(decision: Option<PolicyDecision>) -> (enforced: Result<(), ApiError>)
    ensures
        enforces(decision, enforced),
{
    match decision {
        None => Err(ApiError::internal()),
        Some(PolicyDecision::Accept) => Ok(()),
        Some(PolicyDecision::PauseTemperature) => Err(
            ApiError::policy_rejected("GPU 温度达到节点阈值"),
        ),
        Some(PolicyDecision::Reject { reason }) => {
            let mut detail = String::new();
            text::push_text(&mut detail, "节点策略拒绝：");
            text::push_text(&mut detail, reason.as_str());
            assert(detail@ =~= "节点策略拒绝："@ + reason@);
            Err(ApiError::PolicyReason { detail })
        },
    }
}

/// Free memory is what there is without what is used, where both are known and no more is used
/// than there is.
pub proof fn free_memory_is_what_is_left(measured: NodeMeasurement, used: i64, total: i64)
    requires
        0 <= used,
        0 <= total,
    ensures
        measured.vram_used_mib == Some(used) && measured.vram_total_mib == Some(total) && used
            <= total ==> available_vram(Some(measured)) == Some(total - used),
        measured.vram_used_mib == Some(used) && measured.vram_total_mib == Some(total) && used
            > total ==> available_vram(Some(measured)) is None,
        measured.vram_used_mib is None || measured.vram_total_mib is None ==> available_vram(
            Some(measured),
        ) is None,
        available_vram(None) is None,
{
}

/// A policy can be evaluated exactly if its limits, and what runs, can be counted.
pub proof fn limits_can_be_counted(policy: PolicyRow, active: i64)
    ensures
        limits_possible(policy, active) <==> {
            &&& policy.max_concurrent >= 0
            &&& policy.vram_reserve_mib >= 0
            &&& 0 <= active <= 0xffff_ffff
            &&& policy.gpu_temp_limit_c matches Some(limit) ==> 0 <= limit <= 0xffff
        },
{
}

/// Only what a policy accepts goes on; what it could not decide, pauses or rejects does not.
pub proof fn only_accepted_work_goes_on(
    decision: Option<PolicyDecision>,
    enforced: Result<(), ApiError>,
)
    requires
        enforces(decision, enforced),
    ensures
        enforced is Ok <==> decision == Some(PolicyDecision::Accept),
        decision is None ==> enforced == Err::<(), ApiError>(ApiError::Internal),
        decision == Some(PolicyDecision::PauseTemperature) ==> (enforced matches Err(refused)
            && refused is PolicyRejected),
        decision matches Some(PolicyDecision::Reject { reason }) ==> (enforced matches Err(
            ApiError::PolicyReason { detail },
        ) && detail@ == "节点策略拒绝："@ + reason@),
{
}

} // verus!
