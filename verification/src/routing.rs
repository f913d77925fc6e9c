//! Which node a job goes to. Trust, health, latency, speed, load and reliability make
//! up the score of a node. Contribution breaks near ties alone: under congestion, in
//! a cohort that is large enough, and among nodes whose score is close to the best.

use vstd::prelude::*;

use crate::ids::Uuid;
use crate::nodes::TrustLevel;

verus! {

/// Contribution counts from this many nodes on.
pub const MIN_COHORT: usize = 5;

/// A score is near the best if it is at least this many hundredths of it.
pub const NEAR_BEST_NUMERATOR: i128 = 98;

pub const NEAR_BEST_DENOMINATOR: i128 = 100;

/// The percentile of the highest contribution.
pub const PERCENTILE_SCALE: i128 = 1_000_000;

/// The best that a part of a score can be.
pub const FULL_MARKS: i128 = 1_000_000;

/// What the score of a node is made of.
#[derive(Clone, Copy, Debug, PartialEq, Eq, Structural)]
pub struct NodeHealth {
    pub trust: TrustLevel,
    pub silent_for_micros: i64,
    pub coordinator_rtt_ms: Option<i64>,
    pub tps_milli: Option<i64>,
    pub active_count: i64,
    pub max_concurrent: i32,
    pub error_rate_ppm: Option<i32>,
}

pub open spec fn trust_marks(trust: TrustLevel) -> int {
    match trust {
        TrustLevel::Enhanced => 1_000_000,
        TrustLevel::Standard => 850_000,
        TrustLevel::StandardLimited => 700_000,
        TrustLevel::Experimental => 400_000,
        TrustLevel::Unverified => 300_000,
    }
}

pub open spec fn at_least_zero(value: int) -> int {
    if value < 0 {
        0
    } else {
        value
    }
}

/// The whole number nearest to a ninetieth; a half is rounded away from zero.
pub open spec fn nearest_ninetieth(value: int) -> int {
    if value < 0 {
        -((2 * -value + 90) / 180)
    } else {
        (2 * value + 90) / 180
    }
}

/// Full marks for a node that was just heard of, none for one that was silent for a
/// minute and a half.
pub open spec fn freshness_marks(silent_for_micros: int) -> int {
    at_least_zero(
        FULL_MARKS - if nearest_ninetieth(silent_for_micros) > FULL_MARKS {
            FULL_MARKS as int
        } else {
            nearest_ninetieth(silent_for_micros)
        },
    )
}

/// No marks for a node whose latency is unknown, and less the longer it is.
pub open spec fn latency_marks(rtt_ms: Option<i64>) -> int {
    match rtt_ms {
        None => 0,
        Some(rtt) => FULL_MARKS - rtt * 1000,
    }
}

pub open spec fn speed_marks(tps_milli: Option<i64>) -> int {
    let tps = match tps_milli {
        None => 0,
        Some(tps) => tps as int,
    };
    10 * if tps > 100_000 {
        100_000
    } else {
        tps
    }
}

/// Full marks for an idle node, none for a full one.
pub open spec fn idle_marks(active: int, max_concurrent: int) -> int {
    let slots = if max_concurrent < 1 {
        1
    } else {
        max_concurrent
    };
    at_least_zero(FULL_MARKS - crate::arithmetic::truncated(active * FULL_MARKS, slots))
}

pub open spec fn reliability_marks(error_rate_ppm: Option<i32>) -> int {
    at_least_zero(
        FULL_MARKS - match error_rate_ppm {
            None => 500_000,
            Some(rate) => rate as int,
        },
    )
}

/// The score of a node: the marks of its parts, weighted.
pub open spec fn routing_score(health: NodeHealth) -> int {
    trust_marks(health.trust) * 25 + freshness_marks(health.silent_for_micros as int) * 20
        + latency_marks(health.coordinator_rtt_ms) * 15 + speed_marks(health.tps_milli) * 15
        + idle_marks(health.active_count as int, health.max_concurrent as int) * 15
        + reliability_marks(health.error_rate_ppm) * 10
}

fn freshness(silent_for_micros: i64) -> (marks: i128)
    ensures
        marks == freshness_marks(silent_for_micros as int),
        0 <= marks <= 0x8000_0000_0000_0000,
{
    let silent: i128 = silent_for_micros as i128;
    let ninetieth: i128 = if silent < 0 {
        -((2 * -silent + 90) / 180)
    } else {
        (2 * silent + 90) / 180
    };
    if ninetieth > FULL_MARKS {
        0
    } else {
        FULL_MARKS - ninetieth
    }
}

fn idleness(active_count: i64, max_concurrent: i32) -> (marks: i128)
    ensures
        marks == idle_marks(active_count as int, max_concurrent as int),
        0 <= marks <= 0x8000_0000_0000_0000 * 2_000_000,
{
    let slots: i128 = if max_concurrent < 1 {
        1
    } else {
        max_concurrent as i128
    };
    let magnitude: i128 = if active_count < 0 {
        -(active_count as i128) * FULL_MARKS
    } else {
        active_count as i128 * FULL_MARKS
    };
    let quotient: i128 = magnitude / slots;
    assert(0 <= magnitude as int / (slots as int) <= magnitude) by (nonlinear_arith)
        requires
            0 <= magnitude,
            slots >= 1,
    ;
    if active_count < 0 {
        FULL_MARKS + quotient
    } else if quotient > FULL_MARKS {
        0
    } else {
        FULL_MARKS - quotient
    }
}

pub fn node_routing_score(health: NodeHealth) -> (score: i128)
    ensures
        score == routing_score(health),
{
    let trust: i128 = match health.trust {
        TrustLevel::Enhanced => 1_000_000,
        TrustLevel::Standard => 850_000,
        TrustLevel::StandardLimited => 700_000,
        TrustLevel::Experimental => 400_000,
        TrustLevel::Unverified => 300_000,
    };
    let latency: i128 = match health.coordinator_rtt_ms {
        None => 0,
        Some(rtt) => FULL_MARKS - rtt as i128 * 1000,
    };
    let tps: i128 = match health.tps_milli {
        None => 0,
        Some(tps) => tps as i128,
    };
    let speed: i128 = if tps > 100_000 {
        1_000_000
    } else {
        10 * tps
    };
    let rate: i128 = match health.error_rate_ppm {
        None => 500_000,
        Some(rate) => rate as i128,
    };
    let reliability: i128 = if rate > FULL_MARKS {
        0
    } else {
        FULL_MARKS - rate
    };
    let fresh = freshness(health.silent_for_micros);
    let idle = idleness(health.active_count, health.max_concurrent);
    trust * 25 + fresh * 20 + latency * 15 + speed * 15 + idle * 15 + reliability * 10
}

/// How a job is to be served.
#[derive(Clone, Copy, Debug, PartialEq, Eq, Structural)]
pub enum SpeedClass {
    Fast,
    Standard,
    Slow,
}

/// The room that a node has for a job. Fast and Standard jobs take a node that is
/// idle; Slow jobs take free slots.
pub fn server_free_slots(speed: SpeedClass, max_concurrent: i32, active_count: i64) -> (slots: i64)
    requires
        0 <= active_count,
    ensures
        slots == if speed == SpeedClass::Slow {
            at_least_zero(max_concurrent - active_count)
        } else if active_count == 0 {
            1
        } else {
            0
        },
{
    match speed {
        SpeedClass::Slow => if active_count >= max_concurrent as i64 {
            0
        } else {
            max_concurrent as i64 - active_count
        },
        _ => if active_count == 0 {
            1
        } else {
            0
        },
    }
}

/// A node that a job could go to.
#[derive(Clone, Copy, Debug, PartialEq, Eq, Structural)]
pub struct NodeCandidate {
    pub node_id: Uuid,
    pub model_instance_id: Uuid,
    pub routing_score: i64,
    pub free_slots: i64,
    pub contribution_micro: i64,
    pub active_count: i64,
    pub tps_milli: i64,
}

/// How many candidates contributed less than an amount.
pub open spec fn below(candidates: Seq<NodeCandidate>, contribution: int) -> nat
    decreases candidates.len(),
{
    if candidates.len() == 0 {
        0
    } else {
        below(candidates.drop_last(), contribution) + if candidates.last().contribution_micro
            < contribution {
            1nat
        } else {
            0
        }
    }
}

/// How many candidates contributed exactly an amount.
pub open spec fn tied(candidates: Seq<NodeCandidate>, contribution: int) -> nat
    decreases candidates.len(),
{
    if candidates.len() == 0 {
        0
    } else {
        tied(candidates.drop_last(), contribution) + if candidates.last().contribution_micro
            == contribution {
            1nat
        } else {
            0
        }
    }
}

/// The free slots of all candidates together.
pub open spec fn all_free_slots(candidates: Seq<NodeCandidate>) -> int
    decreases candidates.len(),
{
    if candidates.len() == 0 {
        0
    } else {
        all_free_slots(candidates.drop_last()) + candidates.last().free_slots
    }
}

/// The best score of all candidates.
pub open spec fn is_best_score(candidates: Seq<NodeCandidate>, best: int) -> bool {
    &&& forall|i: int| 0 <= i < candidates.len() ==> (#[trigger] candidates[i]).routing_score
        <= best
    &&& exists|i: int|
        0 <= i < candidates.len() && (#[trigger] candidates[i]).routing_score == best
}

/// More jobs are ready than there are free slots, in a cohort that is large enough.
pub open spec fn congested(candidates: Seq<NodeCandidate>, ready_demand: int) -> bool {
    candidates.len() >= MIN_COHORT && ready_demand > all_free_slots(candidates)
}

/// The rank of a contribution in its cohort, in parts of the scale; tied nodes share
/// the middle of their ranks.
pub open spec fn percentile(candidates: Seq<NodeCandidate>, contribution: int) -> int {
    (2 * below(candidates, contribution) + tied(candidates, contribution) - 1) * PERCENTILE_SCALE
        / (2 * (candidates.len() - 1))
}

pub open spec fn near_best(score: int, best: int) -> bool {
    score * NEAR_BEST_DENOMINATOR >= best * NEAR_BEST_NUMERATOR
}

/// What contribution counts for: nothing, but for a candidate near the best under
/// congestion.
pub open spec fn contribution_rank(
    candidates: Seq<NodeCandidate>,
    ready_demand: int,
    best: int,
    candidate: NodeCandidate,
) -> Option<int> {
    if congested(candidates, ready_demand) && near_best(candidate.routing_score as int, best) {
        Some(percentile(candidates, candidate.contribution_micro as int))
    } else {
        None
    }
}

/// What comes before anything else: for a Fast job the speed, for a Slow job the
/// load, so that Slow jobs gather on nodes that have work already.
pub open spec fn speed_rank(speed: SpeedClass, candidate: NodeCandidate) -> Option<int> {
    match speed {
        SpeedClass::Fast => Some(candidate.tps_milli as int),
        SpeedClass::Standard => None,
        SpeedClass::Slow => Some(candidate.active_count as int),
    }
}

/// Greater first; nothing last.
pub open spec fn ahead(left: Option<int>, right: Option<int>) -> bool {
    match (left, right) {
        (Some(left), Some(right)) => left > right,
        (Some(_), None) => true,
        _ => false,
    }
}

/// `left` is not behind `right` in the order in which candidates are taken: by speed
/// or load, by contribution where it counts, by score, and by identifier.
pub open spec fn not_behind(
    left: (Option<int>, Option<int>, NodeCandidate),
    right: (Option<int>, Option<int>, NodeCandidate),
) -> bool {
    if left.0 != right.0 {
        ahead(left.0, right.0)
    } else if left.1 != right.1 {
        ahead(left.1, right.1)
    } else if left.2.routing_score != right.2.routing_score {
        left.2.routing_score > right.2.routing_score
    } else if left.2.node_id != right.2.node_id {
        left.2.node_id.value < right.2.node_id.value
    } else {
        left.2.model_instance_id.value <= right.2.model_instance_id.value
    }
}

pub open spec fn ranked(
    candidates: Seq<NodeCandidate>,
    speed: SpeedClass,
    ready_demand: int,
    best: int,
    candidate: NodeCandidate,
) -> (Option<int>, Option<int>, NodeCandidate) {
    (
        speed_rank(speed, candidate),
        contribution_rank(candidates, ready_demand, best, candidate),
        candidate,
    )
}

/// The candidate at an index is the one to take.
pub open spec fn is_first(
    candidates: Seq<NodeCandidate>,
    speed: SpeedClass,
    ready_demand: int,
    best: int,
    index: int,
) -> bool {
    &&& 0 <= index < candidates.len()
    &&& forall|i: int|
        0 <= i < candidates.len() ==> not_behind(
            ranked(candidates, speed, ready_demand, best, candidates[index]),
            ranked(candidates, speed, ready_demand, best, #[trigger] candidates[i]),
        )
}

/// The candidate at an index is the one to take, given the best score of all.
pub open spec fn is_selected(
    candidates: Seq<NodeCandidate>,
    speed: SpeedClass,
    ready_demand: int,
    index: int,
) -> bool {
    exists|best: int|
        is_best_score(candidates, best) && #[trigger] is_first(
            candidates,
            speed,
            ready_demand,
            best,
            index,
        )
}

fn count_contributions(candidates: &Vec<NodeCandidate>, contribution: i64) -> (counts: (
    usize,
    usize,
))
    ensures
        counts.0 == below(candidates@, contribution as int),
        counts.1 == tied(candidates@, contribution as int),
        counts.0 + counts.1 <= candidates@.len(),
{
    let mut lower: usize = 0;
    let mut equal: usize = 0;
    let mut i: usize = 0;
    while i < candidates.len()
        invariant
            i <= candidates@.len(),
            lower + equal <= i,
            lower == below(candidates@.take(i as int), contribution as int),
            equal == tied(candidates@.take(i as int), contribution as int),
        decreases candidates@.len() - i,
    {
        assert(candidates@.take(i + 1).drop_last() =~= candidates@.take(i as int));
        if candidates[i].contribution_micro < contribution {
            lower += 1;
        } else if candidates[i].contribution_micro == contribution {
            equal += 1;
        }
        i += 1;
    }
    assert(candidates@.take(candidates@.len() as int) =~= candidates@);
    (lower, equal)
}

fn sum_free_slots(candidates: &Vec<NodeCandidate>) -> (slots: i128)
    ensures
        slots == all_free_slots(candidates@),
{
    let mut slots: i128 = 0;
    let mut i: usize = 0;
    while i < candidates.len()
        invariant
            i <= candidates@.len(),
            slots == all_free_slots(candidates@.take(i as int)),
            -0x8000_0000_0000_0000int * i <= slots <= 0x8000_0000_0000_0000int * i,
        decreases candidates@.len() - i,
    {
        assert(candidates@.take(i + 1).drop_last() =~= candidates@.take(i as int));
        assert(0x8000_0000_0000_0000int * (i + 1) <= 0x8000_0000_0000_0000int
            * 0x1_0000_0000_0000_0000int);
        slots = slots + candidates[i].free_slots as i128;
        i += 1;
    }
    assert(candidates@.take(candidates@.len() as int) =~= candidates@);
    slots
}

fn best_score(candidates: &Vec<NodeCandidate>) -> (best: i64)
    requires
        candidates@.len() > 0,
    ensures
        is_best_score(candidates@, best as int),
{
    let mut best: i64 = candidates[0].routing_score;
    let mut i: usize = 1;
    let ghost mut at: int = 0;
    while i < candidates.len()
        invariant
            1 <= i <= candidates@.len(),
            0 <= at < i,
            candidates@[at].routing_score == best,
            forall|j: int| 0 <= j < i ==> (#[trigger] candidates@[j]).routing_score <= best,
        decreases candidates@.len() - i,
    {
        if candidates[i].routing_score > best {
            best = candidates[i].routing_score;
            proof {
                at = i as int;
            }
        }
        i += 1;
    }
    assert(candidates@[at].routing_score == best);
    best
}

proof fn lemma_not_behind_transitive(
    a: (Option<int>, Option<int>, NodeCandidate),
    b: (Option<int>, Option<int>, NodeCandidate),
    c: (Option<int>, Option<int>, NodeCandidate),
)
    requires
        not_behind(a, b),
        not_behind(b, c),
    ensures
        not_behind(a, c),
{
}

/// A rank that is compared: greater first, nothing last.
fn is_ahead(left: Option<i128>, right: Option<i128>) -> (ahead_of: bool)
    ensures
        ahead_of == ahead(widened(left), widened(right)),
{
    match (left, right) {
        (Some(left), Some(right)) => left > right,
        (Some(_), None) => true,
        _ => false,
    }
}

fn same_rank(left: Option<i128>, right: Option<i128>) -> (same: bool)
    ensures
        same == (widened(left) == widened(right)),
{
    match (left, right) {
        (Some(left), Some(right)) => left == right,
        (None, None) => true,
        _ => false,
    }
}

pub open spec fn widened(rank: Option<i128>) -> Option<int> {
    match rank {
        Some(rank) => Some(rank as int),
        None => None,
    }
}

proof fn lemma_tied_with_itself(candidates: Seq<NodeCandidate>, index: int)
    requires
        0 <= index < candidates.len(),
    ensures
        tied(candidates, candidates[index].contribution_micro as int) >= 1,
    decreases candidates.len(),
{
    if index < candidates.len() - 1 {
        lemma_tied_with_itself(candidates.drop_last(), index);
    }
}

fn compute_rank(
    candidates: &Vec<NodeCandidate>,
    speed: SpeedClass,
    ready_demand: i64,
    congested_now: bool,
    best: i64,
    index: usize,
) -> (rank: (Option<i128>, Option<i128>))
    requires
        index < candidates@.len(),
        congested_now == congested(candidates@, ready_demand as int),
    ensures
        widened(rank.0) == speed_rank(speed, candidates@[index as int]),
        widened(rank.1) == contribution_rank(
            candidates@,
            ready_demand as int,
            best as int,
            candidates@[index as int],
        ),
{
    let candidate = candidates[index];
    let speed_key: Option<i128> = match speed {
        SpeedClass::Fast => Some(candidate.tps_milli as i128),
        SpeedClass::Standard => None,
        SpeedClass::Slow => Some(candidate.active_count as i128),
    };
    let near = candidate.routing_score as i128 * NEAR_BEST_DENOMINATOR >= best as i128
        * NEAR_BEST_NUMERATOR;
    if congested_now && near {
        let (lower, equal) = count_contributions(candidates, candidate.contribution_micro);
        proof {
            lemma_tied_with_itself(candidates@, index as int);
        }
        let numerator: i128 = 2 * lower as i128 + equal as i128 - 1;
        let denominator: i128 = 2 * (candidates.len() as i128 - 1);
        (speed_key, Some(numerator * PERCENTILE_SCALE / denominator))
    } else {
        (speed_key, None)
    }
}

/// Picks the node that a job goes to, out of one candidate for each node, or none if
/// there is no candidate.
pub fn select_node(candidates: &Vec<NodeCandidate>, speed: SpeedClass, ready_demand: i64) -> (selected: Option<
    usize,
>)
    ensures
        selected is None <==> candidates@.len() == 0,
        selected matches Some(index) ==> is_selected(
            candidates@,
            speed,
            ready_demand as int,
            index as int,
        ),
{
    if candidates.len() == 0 {
        return None;
    }
    let best = best_score(candidates);
    let free = sum_free_slots(candidates);
    let congested_now = candidates.len() >= MIN_COHORT && ready_demand as i128 > free;
    let mut first: usize = 0;
    let mut first_rank = compute_rank(candidates, speed, ready_demand, congested_now, best, 0);
    let mut i: usize = 1;
    let ghost demand = ready_demand as int;
    while i < candidates.len()
        invariant
            1 <= i <= candidates@.len(),
            first < i,
            is_best_score(candidates@, best as int),
            demand == ready_demand,
            congested_now == congested(candidates@, demand),
            widened(first_rank.0) == speed_rank(speed, candidates@[first as int]),
            widened(first_rank.1) == contribution_rank(
                candidates@,
                demand,
                best as int,
                candidates@[first as int],
            ),
            forall|j: int|
                0 <= j < i ==> not_behind(
                    ranked(candidates@, speed, demand, best as int, candidates@[first as int]),
                    ranked(candidates@, speed, demand, best as int, #[trigger] candidates@[j]),
                ),
        decreases candidates@.len() - i,
    {
        let rank = compute_rank(candidates, speed, ready_demand, congested_now, best, i);
        let leader = candidates[first];
        let other = candidates[i];
        let overtakes = if !same_rank(rank.0, first_rank.0) {
            is_ahead(rank.0, first_rank.0)
        } else if !same_rank(rank.1, first_rank.1) {
            is_ahead(rank.1, first_rank.1)
        } else if other.routing_score != leader.routing_score {
            other.routing_score > leader.routing_score
        } else if other.node_id != leader.node_id {
            other.node_id.value < leader.node_id.value
        } else {
            other.model_instance_id.value < leader.model_instance_id.value
        };
        let ghost old_key = ranked(candidates@, speed, demand, best as int, leader);
        let ghost new_key = ranked(candidates@, speed, demand, best as int, other);
        if overtakes {
            proof {
                assert(not_behind(new_key, old_key));
                assert forall|j: int| 0 <= j < i + 1 implies not_behind(
                    new_key,
                    ranked(candidates@, speed, demand, best as int, #[trigger] candidates@[j]),
                ) by {
                    if j < i {
                        lemma_not_behind_transitive(
                            new_key,
                            old_key,
                            ranked(candidates@, speed, demand, best as int, candidates@[j]),
                        );
                    }
                }
            }
            first = i;
            first_rank = rank;
        } else {
            assert(not_behind(old_key, new_key));
        }
        i += 1;
    }
    assert(is_best_score(candidates@, best as int));
    assert(is_first(candidates@, speed, ready_demand as int, best as int, first as int));
    assert(is_selected(candidates@, speed, ready_demand as int, first as int));
    Some(first)
}

/// There is one best score only.
proof fn lemma_selected_under(
    candidates: Seq<NodeCandidate>,
    speed: SpeedClass,
    ready_demand: int,
    best: int,
    index: int,
)
    requires
        is_best_score(candidates, best),
        is_selected(candidates, speed, ready_demand, index),
    ensures
        is_first(candidates, speed, ready_demand, best, index),
{
    let other = choose|other: int|
        is_best_score(candidates, other) && #[trigger] is_first(
            candidates,
            speed,
            ready_demand,
            other,
            index,
        );
    let at = choose|i: int|
        0 <= i < candidates.len() && (#[trigger] candidates[i]).routing_score == best;
    let other_at = choose|i: int|
        0 <= i < candidates.len() && (#[trigger] candidates[i]).routing_score == other;
    assert(candidates[at].routing_score <= other);
    assert(candidates[other_at].routing_score <= best);
}

/// Without congestion, or in a small cohort, contribution changes nothing: a
/// Standard job goes to a node with the best score.
pub proof fn contribution_is_silent_without_congestion(
    candidates: Seq<NodeCandidate>,
    ready_demand: int,
    best: int,
    index: int,
)
    requires
        is_best_score(candidates, best),
        is_selected(candidates, SpeedClass::Standard, ready_demand, index),
        !congested(candidates, ready_demand),
    ensures
        candidates[index].routing_score == best,
{
    lemma_selected_under(candidates, SpeedClass::Standard, ready_demand, best, index);
    let at = choose|i: int|
        0 <= i < candidates.len() && (#[trigger] candidates[i]).routing_score == best;
    assert(not_behind(
        ranked(candidates, SpeedClass::Standard, ready_demand, best, candidates[index]),
        ranked(candidates, SpeedClass::Standard, ready_demand, best, candidates[at]),
    ));
}

/// Contribution only ever breaks near ties: a Standard job never goes to a node whose
/// score is not near the best.
pub proof fn contribution_breaks_near_ties_only(
    candidates: Seq<NodeCandidate>,
    ready_demand: int,
    best: int,
    index: int,
)
    requires
        0 <= best,
        is_best_score(candidates, best),
        is_selected(candidates, SpeedClass::Standard, ready_demand, index),
    ensures
        near_best(candidates[index].routing_score as int, best),
{
    lemma_selected_under(candidates, SpeedClass::Standard, ready_demand, best, index);
    let at = choose|i: int|
        0 <= i < candidates.len() && (#[trigger] candidates[i]).routing_score == best;
    assert(near_best(best, best));
    assert(not_behind(
        ranked(candidates, SpeedClass::Standard, ready_demand, best, candidates[index]),
        ranked(candidates, SpeedClass::Standard, ready_demand, best, candidates[at]),
    ));
}

/// A Fast job goes to a node that no other is faster than, and a Slow job to one that no
/// other has more work than.
pub proof fn speed_comes_first(
    candidates: Seq<NodeCandidate>,
    ready_demand: int,
    fast: int,
    slow: int,
)
    requires
        is_selected(candidates, SpeedClass::Fast, ready_demand, fast),
        is_selected(candidates, SpeedClass::Slow, ready_demand, slow),
    ensures
        0 <= fast < candidates.len(),
        0 <= slow < candidates.len(),
        forall|i: int|
            0 <= i < candidates.len() ==> (#[trigger] candidates[i]).tps_milli
                <= candidates[fast].tps_milli,
        forall|i: int|
            0 <= i < candidates.len() ==> (#[trigger] candidates[i]).active_count
                <= candidates[slow].active_count,
{
    let best = choose|best: int|
        is_best_score(candidates, best) && #[trigger] is_first(
            candidates,
            SpeedClass::Fast,
            ready_demand,
            best,
            fast,
        );
    let other = choose|best: int|
        is_best_score(candidates, best) && #[trigger] is_first(
            candidates,
            SpeedClass::Slow,
            ready_demand,
            best,
            slow,
        );
    assert forall|i: int| 0 <= i < candidates.len() implies (#[trigger] candidates[i]).tps_milli
        <= candidates[fast].tps_milli && candidates[i].active_count
        <= candidates[slow].active_count by {
        assert(not_behind(
            ranked(candidates, SpeedClass::Fast, ready_demand, best, candidates[fast]),
            ranked(candidates, SpeedClass::Fast, ready_demand, best, candidates[i]),
        ));
        assert(not_behind(
            ranked(candidates, SpeedClass::Slow, ready_demand, other, candidates[slow]),
            ranked(candidates, SpeedClass::Slow, ready_demand, other, candidates[i]),
        ));
    }
}

/// Two candidates are the same to a speed class.
pub open spec fn equally_fast(speed: SpeedClass, left: NodeCandidate, right: NodeCandidate) -> bool {
    &&& speed == SpeedClass::Fast ==> left.tps_milli == right.tps_milli
    &&& speed == SpeedClass::Slow ==> left.active_count == right.active_count
}

/// Where there is room enough, or the cohort is small, the score decides among candidates
/// that are the same to the speed class, and among equal scores the smaller identifier of
/// the node, and then of the instance.
pub proof fn scores_and_identifiers_break_ties(
    candidates: Seq<NodeCandidate>,
    speed: SpeedClass,
    ready_demand: int,
    index: int,
    other: int,
)
    requires
        is_selected(candidates, speed, ready_demand, index),
        0 <= other < candidates.len(),
        candidates.len() < 5 || ready_demand <= all_free_slots(candidates),
        equally_fast(speed, candidates[index], candidates[other]),
    ensures
        candidates[other].routing_score <= candidates[index].routing_score,
        candidates[other].routing_score == candidates[index].routing_score
            ==> candidates[index].node_id.value <= candidates[other].node_id.value,
        candidates[other].routing_score == candidates[index].routing_score
            && candidates[other].node_id == candidates[index].node_id
            ==> candidates[index].model_instance_id.value
            <= candidates[other].model_instance_id.value,
{
    let best = choose|best: int|
        is_best_score(candidates, best) && #[trigger] is_first(
            candidates,
            speed,
            ready_demand,
            best,
            index,
        );
    assert(not_behind(
        ranked(candidates, speed, ready_demand, best, candidates[index]),
        ranked(candidates, speed, ready_demand, best, candidates[other]),
    ));
}

/// The room of candidates is the room of each of them together.
pub proof fn room_adds_up(candidates: Seq<NodeCandidate>, candidate: NodeCandidate)
    ensures
        all_free_slots(Seq::<NodeCandidate>::empty()) == 0,
        all_free_slots(candidates.push(candidate)) == all_free_slots(candidates)
            + candidate.free_slots,
{
    assert(candidates.push(candidate).drop_last() =~= candidates);
}

proof fn lemma_counts(candidates: Seq<NodeCandidate>, less: int, more: int)
    requires
        less < more,
    ensures
        below(candidates, less) + tied(candidates, less) <= below(candidates, more),
        below(candidates, more) + tied(candidates, more) <= candidates.len(),
    decreases candidates.len(),
{
    if candidates.len() > 0 {
        lemma_counts(candidates.drop_last(), less, more);
    }
}

proof fn lemma_percentiles_grow(candidates: Seq<NodeCandidate>, less: int, more: int)
    requires
        5 <= candidates.len() <= 1_000_000,
        less < more,
        tied(candidates, less) >= 1,
        tied(candidates, more) >= 1,
    ensures
        percentile(candidates, less) < percentile(candidates, more),
{
    lemma_counts(candidates, less, more);
    let low = 2 * below(candidates, less) + tied(candidates, less) - 1;
    let high = 2 * below(candidates, more) + tied(candidates, more) - 1;
    let span = 2 * (candidates.len() - 1);
    assert(high >= low + 2);
    assert(span <= 2_000_000);
    assert(low * 1_000_000 / span < high * 1_000_000 / span) by (nonlinear_arith)
        requires
            high >= low + 2,
            0 < span <= 2_000_000,
    ;
}

/// Under congestion, in a cohort of five or more, contribution decides among candidates that
/// are the same to the speed class and within two hundredths of the best score: of those no
/// one contributed more than the one that is taken, and the one that is taken is one of them
/// if there is any.
pub proof fn contribution_decides_near_ties_under_congestion(
    candidates: Seq<NodeCandidate>,
    speed: SpeedClass,
    ready_demand: int,
    index: int,
    other: int,
    best: int,
)
    requires
        5 <= candidates.len() <= 1_000_000,
        ready_demand > all_free_slots(candidates),
        is_selected(candidates, speed, ready_demand, index),
        0 <= other < candidates.len(),
        equally_fast(speed, candidates[index], candidates[other]),
        forall|i: int|
            0 <= i < candidates.len() ==> (#[trigger] candidates[i]).routing_score <= best,
        exists|i: int|
            0 <= i < candidates.len() && (#[trigger] candidates[i]).routing_score == best,
        candidates[other].routing_score * 100 >= best * 98,
    ensures
        candidates[index].routing_score * 100 >= best * 98,
        candidates[other].contribution_micro <= candidates[index].contribution_micro,
        candidates[other].contribution_micro == candidates[index].contribution_micro
            ==> candidates[other].routing_score <= candidates[index].routing_score,
{
    assert(is_best_score(candidates, best));
    lemma_selected_under(candidates, speed, ready_demand, best, index);
    assert(not_behind(
        ranked(candidates, speed, ready_demand, best, candidates[index]),
        ranked(candidates, speed, ready_demand, best, candidates[other]),
    ));
    lemma_tied_with_itself(candidates, index);
    lemma_tied_with_itself(candidates, other);
    if candidates[index].contribution_micro < candidates[other].contribution_micro {
        lemma_percentiles_grow(
            candidates,
            candidates[index].contribution_micro as int,
            candidates[other].contribution_micro as int,
        );
    }
    if candidates[other].contribution_micro < candidates[index].contribution_micro {
        lemma_percentiles_grow(
            candidates,
            candidates[other].contribution_micro as int,
            candidates[index].contribution_micro as int,
        );
    }
}

/// What each part of a score is worth. More trust, more speed and less silence, latency,
/// load or failure never lower a score.
pub proof fn scores_reward_health(first: NodeHealth, second: NodeHealth)
    requires
        0 <= first.silent_for_micros <= second.silent_for_micros,
        first.coordinator_rtt_ms is Some && second.coordinator_rtt_ms is Some
            && first.coordinator_rtt_ms->0 <= second.coordinator_rtt_ms->0,
        first.tps_milli is Some && second.tps_milli is Some && second.tps_milli->0
            <= first.tps_milli->0,
        0 <= first.active_count <= second.active_count,
        first.max_concurrent == second.max_concurrent,
        first.error_rate_ppm is Some && second.error_rate_ppm is Some && first.error_rate_ppm->0
            <= second.error_rate_ppm->0,
        first.trust == second.trust || first.trust == TrustLevel::Enhanced || second.trust
            == TrustLevel::Unverified,
    ensures
        routing_score(second) <= routing_score(first),
{
    let slots = if first.max_concurrent < 1 { 1 } else { first.max_concurrent as int };
    let a = first.active_count as int;
    let b = second.active_count as int;
    assert(a * 1_000_000 / slots <= b * 1_000_000 / slots) by (nonlinear_arith)
        requires
            0 <= a <= b,
            slots >= 1,
    ;
}

/// The most that a node can score in its ordinary range, and what it loses: a quarter is
/// trust, a fifth freshness, and three twentieths each latency, speed and idleness, the
/// last tenth is reliability.
pub proof fn scores_weigh_their_parts(best: NodeHealth, worst: NodeHealth)
    requires
        best == (NodeHealth {
            trust: TrustLevel::Enhanced,
            silent_for_micros: 0,
            coordinator_rtt_ms: Some(0),
            tps_milli: Some(100_000),
            active_count: 0,
            max_concurrent: best.max_concurrent,
            error_rate_ppm: Some(0),
        }),
        worst.trust == TrustLevel::Unverified,
        worst.silent_for_micros >= 90_000_000,
        worst.coordinator_rtt_ms is None || worst.coordinator_rtt_ms == Some(1000i64),
        worst.tps_milli is None || worst.tps_milli == Some(0i64),
        1 <= worst.max_concurrent <= worst.active_count,
        worst.error_rate_ppm matches Some(rate) && rate >= 1_000_000,
    ensures
        routing_score(best) == 100_000_000,
        routing_score(NodeHealth { trust: TrustLevel::Standard, ..best }) == 96_250_000,
        routing_score(NodeHealth { trust: TrustLevel::StandardLimited, ..best }) == 92_500_000,
        routing_score(NodeHealth { trust: TrustLevel::Experimental, ..best }) == 85_000_000,
        routing_score(NodeHealth { trust: TrustLevel::Unverified, ..best }) == 82_500_000,
        routing_score(NodeHealth { silent_for_micros: worst.silent_for_micros, ..best })
            == 80_000_000,
        routing_score(NodeHealth { silent_for_micros: 45_000_000, ..best }) == 90_000_000,
        routing_score(NodeHealth { coordinator_rtt_ms: worst.coordinator_rtt_ms, ..best })
            == 85_000_000,
        routing_score(NodeHealth { coordinator_rtt_ms: Some(500), ..best }) == 92_500_000,
        routing_score(NodeHealth { tps_milli: worst.tps_milli, ..best }) == 85_000_000,
        routing_score(NodeHealth { tps_milli: Some(50_000), ..best }) == 92_500_000,
        routing_score(
            NodeHealth {
                active_count: worst.active_count,
                max_concurrent: worst.max_concurrent,
                ..best
            },
        ) == 85_000_000,
        routing_score(NodeHealth { active_count: 1, max_concurrent: 2, ..best }) == 92_500_000,
        routing_score(NodeHealth { error_rate_ppm: worst.error_rate_ppm, ..best }) == 90_000_000,
        routing_score(NodeHealth { error_rate_ppm: None, ..best }) == 95_000_000,
        routing_score(worst) == 7_500_000,
{
    let active = worst.active_count as int;
    let slots = worst.max_concurrent as int;
    assert(active * 1_000_000 / slots >= 1_000_000) by (nonlinear_arith)
        requires
            1 <= slots <= active,
    ;
}

/// The nearest ninetieth is off by no more than half of one, a half is rounded up, and below zero
/// it is the same with the sign changed.
pub proof fn ninetieths_are_rounded_to_the_nearest(value: int)
    ensures
        value >= 0 ==> -45 < 90 * nearest_ninetieth(value) - value <= 45,
        nearest_ninetieth(-value) == -nearest_ninetieth(value),
{
}

} // verus!
