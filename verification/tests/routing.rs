use mindone_coordinator::error::ApiError;
use mindone_coordinator::ids::Uuid;
use mindone_coordinator::nodes::TrustLevel;
use mindone_coordinator::policy::{
    enforce_current_policy, policy_inputs, NodeMeasurement, PolicyDecision, PolicyRow,
};
use mindone_coordinator::routing::{
    node_routing_score, select_node, server_free_slots, NodeCandidate, NodeHealth, SpeedClass,
};
use mindone_coordinator::selection::{
    distinct_tags, minimum_context_length, model_candidates, routable_models, select_model,
    InstanceRow,
};

fn node(id: u128, routing_score: i64, contribution_micro: i64) -> NodeCandidate {
    NodeCandidate {
        node_id: Uuid::from_u128(id),
        model_instance_id: Uuid::from_u128(id + 100),
        routing_score,
        free_slots: 1,
        contribution_micro,
        active_count: 0,
        tps_milli: 0,
    }
}

fn row(id: u128, cost: i64, tags: &[&str]) -> InstanceRow {
    InstanceRow {
        model_id: Uuid::from_u128(id),
        weights_hash: format!("w{id}"),
        base_cost_per_1k_micro: cost,
        context_length: 4_096,
        evaluation_samples: 7,
        instance_tags: tags.iter().map(|tag| (*tag).to_owned()).collect(),
    }
}

fn tags(values: &[&str]) -> Vec<String> {
    values.iter().map(|tag| (*tag).to_owned()).collect()
}

#[test]
fn perfect_nodes_score_full_marks() {
    let perfect = NodeHealth {
        trust: TrustLevel::Enhanced,
        silent_for_micros: 0,
        coordinator_rtt_ms: Some(1),
        tps_milli: Some(100_000),
        active_count: 0,
        max_concurrent: 4,
        error_rate_ppm: Some(0),
    };
    assert_eq!(node_routing_score(perfect), 100_000_000 - 15 * 1_000);
    let unknown = NodeHealth {
        trust: TrustLevel::Unverified,
        silent_for_micros: 90_000_000,
        coordinator_rtt_ms: None,
        tps_milli: None,
        active_count: 4,
        max_concurrent: 4,
        error_rate_ppm: None,
    };
    assert_eq!(node_routing_score(unknown), 300_000 * 25 + 500_000 * 10);
}

#[test]
fn fast_nodes_take_one_job_and_slow_ones_many() {
    assert_eq!(server_free_slots(SpeedClass::Slow, 4, 1), 3);
    assert_eq!(server_free_slots(SpeedClass::Slow, 4, 9), 0);
    assert_eq!(server_free_slots(SpeedClass::Standard, 4, 0), 1);
    assert_eq!(server_free_slots(SpeedClass::Fast, 4, 1), 0);
}

#[test]
fn contributions_break_near_ties_under_load_alone() {
    let nodes = vec![
        node(1, 1_000, 0),
        node(2, 990, 50),
        node(3, 900, 100),
        node(4, 800, 100),
        node(5, 700, 100),
    ];
    assert_eq!(select_node(&nodes, SpeedClass::Standard, 5), Some(0));
    assert_eq!(select_node(&nodes, SpeedClass::Standard, 6), Some(1));
    assert_eq!(select_node(&nodes[..4].to_vec(), SpeedClass::Standard, 60), Some(0));
    assert_eq!(select_node(&Vec::new(), SpeedClass::Standard, 1), None);
    let tied = vec![node(8, 5, 0), node(7, 5, 0)];
    assert_eq!(select_node(&tied, SpeedClass::Standard, 0), Some(1));
}

#[test]
fn models_are_gathered_from_their_instances() {
    let rows = vec![
        row(2, 300, &["chat"]),
        row(1, 100, &["Code", "chat"]),
        row(2, 999, &["CHAT", "code"]),
    ];
    let wanted = tags(&["CODE", "chat", "Chat"]);
    assert_eq!(distinct_tags(&wanted), tags(&["code", "chat"]));
    let models = routable_models(&rows, &wanted).expect("there are models");
    assert_eq!(models.len(), 2);
    assert_eq!(models[0].model_id, Uuid::from_u128(1));
    assert_eq!(models[0].matching_tags, 2);
    assert_eq!(models[1].model_id, Uuid::from_u128(2));
    assert_eq!(models[1].base_cost_per_1k_micro, 300);
    assert_eq!(models[1].matching_tags, 2);
    let candidates = model_candidates(&models, &wanted);
    assert_eq!(candidates[0].requested_tags, 2);
    assert_eq!(candidates[0].cost_above_least, 0);
    assert_eq!(candidates[1].cost_above_least, 200);
    assert_eq!(candidates[1].cost_span, 200);
    let selected = select_model(&models, Some(Uuid::from_u128(2))).expect("ranked");
    assert_eq!(selected.weights_hash, "w2");
    assert_eq!(select_model(&models, Some(Uuid::from_u128(3))).err(), Some(ApiError::Internal));
    let none = Some(ApiError::unavailable("no_routable_model", "没有满足条件的在线模型"));
    assert_eq!(select_model(&models, None).err(), none);
    assert_eq!(routable_models(&Vec::new(), &wanted).err(), none);
    let mut broken = row(1, 1, &[]);
    broken.context_length = -1;
    assert_eq!(routable_models(&vec![broken], &wanted).err(), Some(ApiError::Internal));
}

#[test]
fn contexts_are_wide_enough() {
    assert_eq!(minimum_context_length(3, 4), Ok(7));
    assert_eq!(minimum_context_length(i32::MAX, 1), Ok(i32::MAX as u32));
    assert_eq!(minimum_context_length(-3, 2), Err(ApiError::Internal));
}

#[test]
fn policies_are_evaluated_on_what_is_known() {
    let policy = |gpu_temp_limit_c| PolicyRow {
        max_concurrent: 4,
        gpu_temp_limit_c,
        vram_reserve_mib: 512,
    };
    let measured = Some(NodeMeasurement {
        gpu_temp_c: Some(71),
        vram_used_mib: Some(1_000),
        vram_total_mib: Some(8_000),
    });
    let (limits, runtime) = policy_inputs(&policy(Some(80)), 3, &measured).expect("possible");
    assert_eq!(limits.max_concurrent, 4);
    assert_eq!(limits.gpu_temp_limit_c, Some(80));
    assert_eq!(limits.resume_temp_hysteresis_c, 5);
    assert_eq!(runtime.current_concurrent, 3);
    assert_eq!(runtime.gpu_temp_c, Some(71));
    assert_eq!(runtime.available_vram_mib, Some(7_000));
    let overfull = Some(NodeMeasurement {
        gpu_temp_c: None,
        vram_used_mib: Some(9_000),
        vram_total_mib: Some(8_000),
    });
    let (_, runtime) = policy_inputs(&policy(None), 0, &overfull).expect("possible");
    assert_eq!(runtime.available_vram_mib, None);
    assert_eq!(policy_inputs(&policy(Some(-1)), 0, &None).err(), Some(ApiError::Internal));
    assert_eq!(policy_inputs(&policy(None), -1, &None).err(), Some(ApiError::Internal));
}

#[test]
fn policy_decisions_are_obeyed() {
    assert_eq!(enforce_current_policy(Some(PolicyDecision::Accept)), Ok(()));
    assert_eq!(
        enforce_current_policy(Some(PolicyDecision::PauseTemperature)),
        Err(ApiError::policy_rejected("GPU 温度达到节点阈值"))
    );
    assert_eq!(
        enforce_current_policy(Some(PolicyDecision::Reject { reason: "RejectedTag".to_owned() })),
        Err(ApiError::PolicyReason { detail: "节点策略拒绝：RejectedTag".to_owned() })
    );
    assert_eq!(enforce_current_policy(None), Err(ApiError::Internal));
}
