//! The honour roll: milestones of contribution, streaks without failure, and the
//! anonymous network-wide table, which tells nothing of small cohorts and never
//! parts nodes that are tied.

use std::collections::BTreeMap;

use vstd::prelude::*;

use crate::error::ApiError;
use crate::ids::Uuid;

verus! {

/// Below this many nodes nothing is told of a cohort.
pub const CONTRIBUTION_RANK_PRIVACY_THRESHOLD: i64 = 5;

/// Counts of nodes are rounded down to a multiple of this.
pub const NETWORK_HONOR_COUNT_GRANULARITY: i64 = 5;

/// The first milestone of contribution.
pub const CONTRIBUTION_MILESTONE_BASE_MICRO: i64 = 1_000_000;

pub const HONOR_AGGREGATION_VERSION: &'static str = "node-honor-v2";

pub const NETWORK_HONOR_AGGREGATION_VERSION: &'static str = "network-honor-v1";

/// The nodes in groups of tied nodes, all together.
pub open spec fn total(groups: Seq<i64>) -> int
    decreases groups.len(),
{
    if groups.len() == 0 {
        0
    } else {
        groups[0] + total(groups.drop_first())
    }
}

/// Groups of tied nodes, from the lowest contribution to the highest: none is empty.
pub open spec fn are_groups(groups: Seq<i64>) -> bool {
    forall|i: int| 0 <= i < groups.len() ==> #[trigger] groups[i] > 0
}

/// A group of tied nodes ranks at the middle of the ranks that it takes up. It is in
/// the top per cent if that rank is. Both sides are doubled to stay in integers.
pub open spec fn in_top(lower: int, tied: int, cohort: int, top_percent: int) -> bool {
    (2 * lower + tied - 1) * 100 >= 2 * (cohort - 1) * (100 - top_percent)
}

/// The nodes of the groups that are in the top per cent. `lower` nodes rank below
/// the first group.
pub open spec fn top_nodes(groups: Seq<i64>, lower: int, cohort: int, top_percent: int) -> int
    decreases groups.len(),
{
    if groups.len() == 0 {
        0
    } else {
        (if in_top(lower, groups[0] as int, cohort, top_percent) {
            groups[0] as int
        } else {
            0
        }) + top_nodes(groups.drop_first(), lower + groups[0], cohort, top_percent)
    }
}

/// A cohort that can be ranked: big enough, and made up of the groups.
pub open spec fn rankable(cohort: int, groups: Seq<i64>, top_percent: int) -> bool {
    &&& CONTRIBUTION_RANK_PRIVACY_THRESHOLD <= cohort
    &&& 2 * (cohort - 1) <= i64::MAX
    &&& 1 <= top_percent <= 100
    &&& are_groups(groups)
    &&& total(groups) == cohort
}

proof fn lemma_total_split(groups: Seq<i64>, at: int)
    requires
        0 <= at <= groups.len(),
    ensures
        total(groups) == total(groups.take(at)) + total(groups.skip(at)),
    decreases at,
{
    if at == 0 {
        assert(groups.skip(0) =~= groups);
        assert(total(groups.take(0)) == 0);
    } else {
        let rest = groups.drop_first();
        lemma_total_split(rest, at - 1);
        assert(groups.take(at).drop_first() =~= rest.take(at - 1));
        assert(groups.take(at)[0] == groups[0]);
        assert(rest.skip(at - 1) =~= groups.skip(at));
    }
}

proof fn lemma_total_bounds(groups: Seq<i64>)
    requires
        are_groups(groups),
    ensures
        total(groups) >= groups.len(),
        groups.len() > 0 ==> total(groups) > 0,
    decreases groups.len(),
{
    if groups.len() > 0 {
        assert forall|i: int| 0 <= i < groups.drop_first().len() implies #[trigger]
        groups.drop_first()[i] > 0 by {
            assert(groups[i + 1] > 0);
        }
        lemma_total_bounds(groups.drop_first());
    }
}

proof fn lemma_groups_tail(groups: Seq<i64>, at: int)
    requires
        are_groups(groups),
        0 <= at <= groups.len(),
    ensures
        are_groups(groups.skip(at)),
        total(groups.skip(at)) >= 0,
{
    assert forall|i: int| 0 <= i < groups.skip(at).len() implies #[trigger] groups.skip(at)[i]
        > 0 by {
        assert(groups[i + at] > 0);
    }
    lemma_total_bounds(groups.skip(at));
}

/// Counts the nodes that rank in the top per cent of a cohort. Groups that do not
/// make up the cohort are an internal error.
pub fn top_ranked_nodes(cohort_nodes: i64, contribution_tie_groups: &[i64], top_percent: i64) -> (qualifying: Result<
    i64,
    ApiError,
>)
    ensures
        qualifying is Ok <==> rankable(
            cohort_nodes as int,
            contribution_tie_groups@,
            top_percent as int,
        ),
        qualifying matches Ok(nodes) ==> nodes == top_nodes(
            contribution_tie_groups@,
            0,
            cohort_nodes as int,
            top_percent as int,
        ) && 0 <= nodes <= cohort_nodes,
        qualifying matches Err(refused) ==> refused == ApiError::internal(),
{
    let groups = contribution_tie_groups;
    if cohort_nodes < CONTRIBUTION_RANK_PRIVACY_THRESHOLD || top_percent < 1 || top_percent > 100 {
        return Err(ApiError::internal());
    }
    let mut lower_nodes: i64 = 0;
    let mut qualifying_nodes: i64 = 0;
    let mut i: usize = 0;
    assert(groups@.skip(0) =~= groups@);
    assert(total(groups@.take(0)) == 0);
    while i < groups.len()
        invariant
            groups@ == contribution_tie_groups@,
            CONTRIBUTION_RANK_PRIVACY_THRESHOLD <= cohort_nodes,
            1 <= top_percent <= 100,
            i <= groups@.len(),
            i > 0 ==> 2 * (cohort_nodes - 1) <= i64::MAX,
            lower_nodes == total(groups@.take(i as int)),
            0 <= lower_nodes <= cohort_nodes,
            0 <= qualifying_nodes <= lower_nodes,
            forall|j: int| 0 <= j < i ==> #[trigger] groups@[j] > 0,
            top_nodes(groups@, 0, cohort_nodes as int, top_percent as int) == qualifying_nodes
                + top_nodes(
                groups@.skip(i as int),
                lower_nodes as int,
                cohort_nodes as int,
                top_percent as int,
            ),
        decreases groups@.len() - i,
    {
        let tied_nodes: i64 = groups[i];
        proof {
            lemma_total_split(groups@, i + 1);
            lemma_total_split(groups@.take(i + 1), i as int);
            assert(groups@.take(i + 1).take(i as int) =~= groups@.take(i as int));
            assert(groups@.take(i + 1).skip(i as int) =~= seq![tied_nodes]);
            assert(seq![tied_nodes].drop_first() =~= Seq::<i64>::empty());
            assert(total(seq![tied_nodes]) == tied_nodes + total(Seq::<i64>::empty()));
            assert(groups@.skip(i as int).drop_first() =~= groups@.skip(i + 1));
            assert(groups@.skip(i as int)[0] == tied_nodes);
            if are_groups(groups@) {
                lemma_groups_tail(groups@, i + 1);
            }
        }
        if tied_nodes <= 0 || tied_nodes > cohort_nodes - lower_nodes {
            assert(groups@[i as int] == tied_nodes);
            return Err(ApiError::internal());
        }
        if cohort_nodes - 1 > i64::MAX / 2 {
            return Err(ApiError::internal());
        }
        let twice_midrank_numerator: i128 = 2 * lower_nodes as i128 + tied_nodes as i128 - 1;
        let twice_midrank_denominator: i128 = 2 * (cohort_nodes as i128 - 1);
        assert(0 <= twice_midrank_denominator * (100 - top_percent) <= 100
            * 0x8000_0000_0000_0000int) by (nonlinear_arith)
            requires
                0 <= twice_midrank_denominator <= 0x8000_0000_0000_0000int,
                0 <= 100 - top_percent <= 100,
        ;
        if twice_midrank_numerator * 100 >= twice_midrank_denominator * (100 - top_percent) as i128 {
            qualifying_nodes = qualifying_nodes + tied_nodes;
        }
        lower_nodes = lower_nodes + tied_nodes;
        i += 1;
    }
    assert(groups@.take(groups@.len() as int) =~= groups@);
    if lower_nodes != cohort_nodes {
        return Err(ApiError::internal());
    }
    Ok(qualifying_nodes)
}

/// Tied nodes are never parted: the nodes in the top per cent are those of the
/// highest groups, each of them whole.
pub proof fn top_bands_are_whole_groups(
    groups: Seq<i64>,
    lower: int,
    cohort: int,
    top_percent: int,
)
    requires
        are_groups(groups),
    ensures
        exists|k: int|
            0 <= k <= groups.len() && top_nodes(groups, lower, cohort, top_percent) == total(
                #[trigger] groups.skip(k),
            ),
    decreases groups.len(),
{
    if groups.len() == 0 {
        assert(groups.skip(0) =~= groups);
        assert(top_nodes(groups, lower, cohort, top_percent) == total(groups.skip(0)));
    } else {
        let rest = groups.drop_first();
        assert(rest =~= groups.skip(1));
        lemma_groups_tail(groups, 1);
        top_bands_are_whole_groups(rest, lower + groups[0], cohort, top_percent);
        if in_top(lower, groups[0] as int, cohort, top_percent) {
            lemma_all_in_top(rest, lower + groups[0], cohort, top_percent);
            assert(groups.skip(0) =~= groups);
            assert(top_nodes(groups, lower, cohort, top_percent) == total(groups.skip(0)));
        } else {
            let k = choose|k: int|
                0 <= k <= rest.len() && top_nodes(
                    rest,
                    lower + groups[0],
                    cohort,
                    top_percent,
                ) == total(#[trigger] rest.skip(k));
            assert(rest.skip(k) =~= groups.skip(k + 1));
            assert(top_nodes(groups, lower, cohort, top_percent) == total(groups.skip(k + 1)));
        }
    }
}

/// Above a group that is in the top, every group is.
proof fn lemma_all_in_top(groups: Seq<i64>, lower: int, cohort: int, top_percent: int)
    requires
        are_groups(groups),
        exists|below: int, tied: int|
            0 < tied && below + tied <= lower && #[trigger] in_top(
                below,
                tied,
                cohort,
                top_percent,
            ),
    ensures
        top_nodes(groups, lower, cohort, top_percent) == total(groups),
    decreases groups.len(),
{
    if groups.len() > 0 {
        let first = groups[0] as int;
        assert(first > 0);
        assert(in_top(lower, first, cohort, top_percent));
        lemma_groups_tail(groups, 1);
        assert(groups.skip(1) =~= groups.drop_first());
        lemma_all_in_top(groups.drop_first(), lower + first, cohort, top_percent);
    }
}

/// A wider band holds at least the nodes of a narrower one, and the top hundred per
/// cent are all nodes.
pub proof fn wider_bands_hold_more(
    groups: Seq<i64>,
    lower: int,
    cohort: int,
    narrow: int,
    wide: int,
)
    requires
        are_groups(groups),
        0 <= lower,
        1 <= cohort,
        narrow <= wide <= 100,
    ensures
        top_nodes(groups, lower, cohort, narrow) <= top_nodes(groups, lower, cohort, wide)
            <= total(groups),
        wide == 100 ==> top_nodes(groups, lower, cohort, wide) == total(groups),
    decreases groups.len(),
{
    if groups.len() > 0 {
        let first = groups[0] as int;
        assert(first > 0);
        lemma_groups_tail(groups, 1);
        assert(groups.skip(1) =~= groups.drop_first());
        wider_bands_hold_more(groups.drop_first(), lower + first, cohort, narrow, wide);
        assert(2 * (cohort - 1) * (100 - wide) <= 2 * (cohort - 1) * (100 - narrow))
            by (nonlinear_arith)
            requires
                1 <= cohort,
                narrow <= wide,
        ;
        if wide == 100 {
            assert(2 * (cohort - 1) * (100 - wide) == 0) by (nonlinear_arith)
                requires
                    wide == 100,
            ;
        }
    }
}

/// A line of the table.
#[derive(Clone, Copy, Debug, PartialEq, Eq, Structural)]
pub enum NetworkHonorLabel {
    Top1Percent,
    Top5Percent,
    Top10Percent,
    Top25Percent,
    Top50Percent,
    Contributor,
    ZeroFailure100Days,
}

/// A line of the table, and how many nodes it has at least.
#[derive(Clone, Copy, Debug, PartialEq, Eq, Structural)]
pub struct NetworkHonorLeaderboardEntry {
    pub label: NetworkHonorLabel,
    pub qualifying_nodes_lower_bound: u64,
}

/// The network-wide table.
pub struct NetworkHonorLeaderboard {
    pub privacy_threshold: u64,
    pub cohort_nodes: u64,
    pub count_granularity: u64,
    pub suppressed: bool,
    pub entries: Vec<NetworkHonorLeaderboardEntry>,
}

/// A count rounded down to the granularity of the table.
pub open spec fn quantized(exact: int) -> int {
    exact / (NETWORK_HONOR_COUNT_GRANULARITY as int) * NETWORK_HONOR_COUNT_GRANULARITY
}

/// The line for a count, or none where the count is too small to be told.
pub open spec fn line(label: NetworkHonorLabel, exact: int) -> Seq<NetworkHonorLeaderboardEntry> {
    if quantized(exact) >= CONTRIBUTION_RANK_PRIVACY_THRESHOLD {
        seq![
            NetworkHonorLeaderboardEntry {
                label,
                qualifying_nodes_lower_bound: quantized(exact) as u64,
            },
        ]
    } else {
        Seq::empty()
    }
}

/// Rounding down never overstates a count, and understates it by less than the
/// granularity.
pub proof fn told_counts_are_lower_bounds(exact: int)
    requires
        0 <= exact,
    ensures
        quantized(exact) <= exact < quantized(exact) + NETWORK_HONOR_COUNT_GRANULARITY,
        quantized(exact) % (NETWORK_HONOR_COUNT_GRANULARITY as int) == 0,
{
}

pub fn push_quantized_honor_entry(
    entries: &mut Vec<NetworkHonorLeaderboardEntry>,
    label: NetworkHonorLabel,
    exact_nodes: i64,
) -> (pushed: Result<(), ApiError>)
    ensures
        exact_nodes < 0 ==> pushed == Err::<(), ApiError>(ApiError::internal()) && final(entries)@
            == old(entries)@,
        exact_nodes >= 0 ==> pushed is Ok && final(entries)@ == old(entries)@ + line(
            label,
            exact_nodes as int,
        ),
{
    if exact_nodes < 0 {
        return Err(ApiError::internal());
    }
    let lower_bound: i64 = exact_nodes / NETWORK_HONOR_COUNT_GRANULARITY
        * NETWORK_HONOR_COUNT_GRANULARITY;
    if lower_bound >= CONTRIBUTION_RANK_PRIVACY_THRESHOLD {
        entries.push(
            NetworkHonorLeaderboardEntry {
                label,
                qualifying_nodes_lower_bound: lower_bound as u64,
            },
        );
    }
    assert(entries@ =~= old(entries)@ + line(label, exact_nodes as int));
    Ok(())
}

/// The counts that the table is made of fit together.
pub open spec fn counts_consistent(cohort: int, groups: Seq<i64>, zero_failure: int) -> bool {
    &&& 0 <= zero_failure <= cohort
    &&& are_groups(groups)
    &&& total(groups) == cohort
}

/// The lines of a table that is told.
pub open spec fn lines(cohort: int, groups: Seq<i64>, zero_failure: int) -> Seq<
    NetworkHonorLeaderboardEntry,
> {
    line(NetworkHonorLabel::Top1Percent, top_nodes(groups, 0, cohort, 1)) + line(
        NetworkHonorLabel::Top5Percent,
        top_nodes(groups, 0, cohort, 5),
    ) + line(NetworkHonorLabel::Top10Percent, top_nodes(groups, 0, cohort, 10)) + line(
        NetworkHonorLabel::Top25Percent,
        top_nodes(groups, 0, cohort, 25),
    ) + line(NetworkHonorLabel::Top50Percent, top_nodes(groups, 0, cohort, 50)) + line(
        NetworkHonorLabel::Contributor,
        cohort,
    ) + line(NetworkHonorLabel::ZeroFailure100Days, zero_failure)
}

fn check_groups(cohort_nodes: i64, groups: &[i64]) -> (consistent: bool)
    ensures
        consistent == (are_groups(groups@) && total(groups@) == cohort_nodes),
{
    let mut sum: i64 = 0;
    let mut i: usize = 0;
    assert(total(groups@.take(0)) == 0);
    while i < groups.len()
        invariant
            i <= groups@.len(),
            0 <= sum,
            sum == total(groups@.take(i as int)),
            forall|j: int| 0 <= j < i ==> #[trigger] groups@[j] > 0,
        decreases groups@.len() - i,
    {
        let count: i64 = groups[i];
        proof {
            lemma_total_split(groups@, i + 1);
            lemma_total_split(groups@.take(i + 1), i as int);
            assert(groups@.take(i + 1).take(i as int) =~= groups@.take(i as int));
            assert(groups@.take(i + 1).skip(i as int) =~= seq![count]);
            assert(seq![count].drop_first() =~= Seq::<i64>::empty());
            assert(total(seq![count]) == count + total(Seq::<i64>::empty()));
            if are_groups(groups@) {
                lemma_groups_tail(groups@, i + 1);
            }
        }
        if count <= 0 {
            assert(groups@[i as int] == count);
            return false;
        }
        match sum.checked_add(count) {
            Some(more) => {
                sum = more;
            },
            None => {
                return false;
            },
        }
        i += 1;
    }
    assert(groups@.take(groups@.len() as int) =~= groups@);
    sum == cohort_nodes
}

/// Makes the network-wide table. Counts that do not fit together are an internal
/// error; of a small cohort nothing is told, not even its size.
pub fn network_honor_leaderboard(
    cohort_nodes: i64,
    contribution_tie_groups: &[i64],
    zero_failure_100_days_nodes: i64,
) -> (table: Result<NetworkHonorLeaderboard, ApiError>)
    ensures
        table is Ok <==> counts_consistent(
            cohort_nodes as int,
            contribution_tie_groups@,
            zero_failure_100_days_nodes as int,
        ) && (cohort_nodes < CONTRIBUTION_RANK_PRIVACY_THRESHOLD || 2 * (cohort_nodes - 1)
            <= i64::MAX),
        table matches Err(refused) ==> refused == ApiError::internal(),
        table matches Ok(table) ==> {
            &&& table.privacy_threshold == CONTRIBUTION_RANK_PRIVACY_THRESHOLD
            &&& table.count_granularity == NETWORK_HONOR_COUNT_GRANULARITY
            &&& table.suppressed == (cohort_nodes < CONTRIBUTION_RANK_PRIVACY_THRESHOLD)
            &&& table.suppressed ==> table.cohort_nodes == 0 && table.entries@.len() == 0
            &&& !table.suppressed ==> table.cohort_nodes == cohort_nodes && table.entries@
                == lines(
                cohort_nodes as int,
                contribution_tie_groups@,
                zero_failure_100_days_nodes as int,
            )
        },
{
    if cohort_nodes < 0 || zero_failure_100_days_nodes < 0 || zero_failure_100_days_nodes
        > cohort_nodes || !check_groups(cohort_nodes, contribution_tie_groups) {
        return Err(ApiError::internal());
    }
    let mut entries: Vec<NetworkHonorLeaderboardEntry> = Vec::new();
    if cohort_nodes < CONTRIBUTION_RANK_PRIVACY_THRESHOLD {
        return Ok(
            NetworkHonorLeaderboard {
                privacy_threshold: CONTRIBUTION_RANK_PRIVACY_THRESHOLD as u64,
                cohort_nodes: 0,
                count_granularity: NETWORK_HONOR_COUNT_GRANULARITY as u64,
                suppressed: true,
                entries,
            },
        );
    }
    let top_1: i64 = top_ranked_nodes(cohort_nodes, contribution_tie_groups, 1)?;
    push_quantized_honor_entry(&mut entries, NetworkHonorLabel::Top1Percent, top_1)?;
    let top_5: i64 = top_ranked_nodes(cohort_nodes, contribution_tie_groups, 5)?;
    push_quantized_honor_entry(&mut entries, NetworkHonorLabel::Top5Percent, top_5)?;
    let top_10: i64 = top_ranked_nodes(cohort_nodes, contribution_tie_groups, 10)?;
    push_quantized_honor_entry(&mut entries, NetworkHonorLabel::Top10Percent, top_10)?;
    let top_25: i64 = top_ranked_nodes(cohort_nodes, contribution_tie_groups, 25)?;
    push_quantized_honor_entry(&mut entries, NetworkHonorLabel::Top25Percent, top_25)?;
    let top_50: i64 = top_ranked_nodes(cohort_nodes, contribution_tie_groups, 50)?;
    push_quantized_honor_entry(&mut entries, NetworkHonorLabel::Top50Percent, top_50)?;
    push_quantized_honor_entry(&mut entries, NetworkHonorLabel::Contributor, cohort_nodes)?;
    push_quantized_honor_entry(
        &mut entries,
        NetworkHonorLabel::ZeroFailure100Days,
        zero_failure_100_days_nodes,
    )?;
    assert(entries@ =~= lines(
        cohort_nodes as int,
        contribution_tie_groups@,
        zero_failure_100_days_nodes as int,
    ));
    Ok(
        NetworkHonorLeaderboard {
            privacy_threshold: CONTRIBUTION_RANK_PRIVACY_THRESHOLD as u64,
            cohort_nodes: cohort_nodes as u64,
            count_granularity: NETWORK_HONOR_COUNT_GRANULARITY as u64,
            suppressed: false,
            entries,
        },
    )
}

/// The milestones: the first, and from each the next at ten times as much.
pub open spec fn milestone(index: nat) -> int
    decreases index,
{
    if index == 0 {
        CONTRIBUTION_MILESTONE_BASE_MICRO as int
    } else {
        10 * milestone((index - 1) as nat)
    }
}

proof fn lemma_milestones()
    ensures
        milestone(11) == 100_000_000_000_000_000,
        milestone(12) == 1_000_000_000_000_000_000,
        milestone(13) == 10_000_000_000_000_000_000,
{
    reveal_with_fuel(milestone, 14);
}

proof fn lemma_milestones_grow(low: nat, high: nat)
    requires
        low <= high,
    ensures
        0 < milestone(low) <= milestone(high),
    decreases high,
{
    if low < high {
        lemma_milestones_grow(low, (high - 1) as nat);
    } else if high > 0 {
        lemma_milestones_grow((low - 1) as nat, (high - 1) as nat);
    }
}

/// `previous` is the last milestone reached, or zero, and `next` is the one after.
pub open spec fn between_milestones(contribution: int, previous: int, next: int) -> bool {
    &&& previous <= contribution < next
    &&& exists|index: nat| #[trigger]
        milestone(index) == next && previous == if index == 0 {
            0
        } else {
            milestone((index - 1) as nat)
        }
}

/// The milestones that a contribution lies between. Below zero there are none, and
/// above the last milestone that an `i64` can hold there is no next one.
pub fn contribution_milestones(contribution_micro: i64) -> (around: Option<(i64, i64)>)
    ensures
        around is Some <==> 0 <= contribution_micro < milestone(12),
        around matches Some((previous, next)) ==> between_milestones(
            contribution_micro as int,
            previous as int,
            next as int,
        ),
{
    if contribution_micro < 0 {
        return None;
    }
    let mut previous: i64 = 0;
    let mut next: i64 = CONTRIBUTION_MILESTONE_BASE_MICRO;
    let ghost mut index: nat = 0;
    proof {
        lemma_milestones();
    }
    while next <= contribution_micro
        invariant
            0 <= contribution_micro,
            index <= 12,
            next == milestone(index),
            next > 0,
            previous <= contribution_micro,
            previous == if index == 0 {
                0
            } else {
                milestone((index - 1) as nat)
            },
            milestone(11) == 100_000_000_000_000_000,
            milestone(12) == 1_000_000_000_000_000_000,
            milestone(13) == 10_000_000_000_000_000_000,
        decreases 13 - index,
    {
        previous = next;
        match next.checked_mul(10) {
            Some(following) => {
                next = following;
                proof {
                    if index == 12 {
                        assert(milestone(13) == 10 * milestone(12));
                    }
                    index = index + 1;
                    assert(milestone(index) == 10 * milestone((index - 1) as nat));
                }
            },
            None => {
                proof {
                    if index <= 11 {
                        lemma_milestones_grow(index, 11);
                    } else {
                        assert(index == 12);
                    }
                }
                return None;
            },
        }
    }
    proof {
        lemma_milestones_grow(index, 12);
        assert(milestone(index) == next);
    }
    Some((previous, next))
}

/// On that many days ago there was work, and none of it failed.
pub open spec fn quiet(daily_failures: Map<i32, i64>, days_ago: int) -> bool {
    i32::MIN <= days_ago <= i32::MAX && daily_failures.contains_key(days_ago as i32)
        && daily_failures[days_ago as i32] == 0
}

/// How many days in a row were quiet, counted back from one of them.
pub open spec fn quiet_run(daily_failures: Map<i32, i64>, days_ago: int) -> nat
    decreases i32::MAX - days_ago + 1,
{
    if days_ago <= i32::MAX && quiet(daily_failures, days_ago) {
        1 + quiet_run(daily_failures, days_ago + 1)
    } else {
        0
    }
}

/// The day that a streak is counted back from: today, if there was work today, and
/// yesterday otherwise.
pub open spec fn streak_start(daily_failures: Map<i32, i64>) -> int {
    if daily_failures.contains_key(0) {
        0
    } else {
        1
    }
}

/// Counts the days in a row without a failure. A day without work breaks the streak,
/// but for today.
pub fn zero_failure_streak(daily_failures: &BTreeMap<i32, i64>) -> (streak: Option<u64>)
    ensures
        streak == if daily_failures@.is_empty() {
            None
        } else {
            Some(quiet_run(daily_failures@, streak_start(daily_failures@)) as u64)
        },
{
    if daily_failures.is_empty() {
        return None;
    }
    let ghost start = streak_start(daily_failures@);
    let mut days_ago: i32 = if daily_failures.contains_key(&0) {
        0
    } else {
        1
    };
    let mut streak: u64 = 0;
    loop
        invariant_except_break
            start == streak_start(daily_failures@),
            0 <= start <= days_ago,
            streak == days_ago - start,
            quiet_run(daily_failures@, start) == streak + quiet_run(
                daily_failures@,
                days_ago as int,
            ),
        ensures
            streak == quiet_run(daily_failures@, start),
        decreases i32::MAX - days_ago,
    {
        let is_quiet = match daily_failures.get(&days_ago) {
            Some(failures) => *failures == 0,
            None => false,
        };
        assert(is_quiet == quiet(daily_failures@, days_ago as int));
        if !is_quiet {
            break;
        }
        streak = streak + 1;
        if days_ago == i32::MAX {
            assert(quiet_run(daily_failures@, days_ago + 1) == 0);
            break;
        }
        days_ago = days_ago + 1;
    }
    Some(streak)
}

/// A failure today ends the streak at once.
pub proof fn failures_end_streaks(daily_failures: Map<i32, i64>)
    requires
        daily_failures.contains_key(0),
        daily_failures[0] != 0,
    ensures
        quiet_run(daily_failures, streak_start(daily_failures)) == 0,
{
}

/// The nodes whose streak has lasted a hundred days, out of the streaks of all.
pub open spec fn long_streaks(streaks: Seq<Option<u64>>) -> nat
    decreases streaks.len(),
{
    if streaks.len() == 0 {
        0
    } else {
        long_streaks(streaks.drop_last()) + if streaks.last() matches Some(days) && days >= 100 {
            1nat
        } else {
            0
        }
    }
}

/// A count, where it fits.
pub open spec fn told_count(count: nat) -> Result<i64, ApiError> {
    if count <= i64::MAX {
        Ok(count as i64)
    } else {
        Err(ApiError::internal())
    }
}

/// Counts the streaks that have lasted a hundred days.
pub fn count_long_streaks(streaks: &Vec<Option<u64>>) -> (nodes: Result<i64, ApiError>)
    ensures
        nodes == told_count(long_streaks(streaks@)),
{
    let mut count: usize = 0;
    let mut i: usize = 0;
    while i < streaks.len()
        invariant
            i <= streaks@.len(),
            count <= i,
            count == long_streaks(streaks@.take(i as int)),
        decreases streaks@.len() - i,
    {
        assert(streaks@.take(i + 1).drop_last() =~= streaks@.take(i as int));
        match streaks[i] {
            Some(days) => if days >= 100 {
                count += 1;
            },
            None => {},
        }
        i += 1;
    }
    assert(streaks@.take(streaks@.len() as int) =~= streaks@);
    if count as u128 > i64::MAX as u128 {
        return Err(ApiError::internal());
    }
    Ok(count as i64)
}

/// What the database tells of one day of a node: how many days ago it was, and how many
/// attempts failed on it.
#[derive(Clone, Copy, Debug, PartialEq, Eq, Structural)]
pub struct NodeDay {
    pub node_id: Uuid,
    pub days_ago: i32,
    pub failures: i64,
}

impl NodeDay {
    /// A day that makes sense: not in the future, and with a count of failures.
    pub open spec fn counts(self) -> bool {
        self.days_ago >= 0 && self.failures >= 0
    }
}

/// The days of one node that make sense, each with its failures.
pub open spec fn days_of(rows: Seq<NodeDay>, node_id: Uuid) -> Map<i32, i64>
    decreases rows.len(),
{
    if rows.len() == 0 {
        Map::empty()
    } else {
        let before = days_of(rows.drop_last(), node_id);
        if rows.last().node_id == node_id && rows.last().counts() {
            before.insert(rows.last().days_ago, rows.last().failures)
        } else {
            before
        }
    }
}

/// The nodes that have a day that makes sense, each once, in the order in which they come.
pub open spec fn nodes_of(rows: Seq<NodeDay>) -> Seq<Uuid>
    decreases rows.len(),
{
    if rows.len() == 0 {
        Seq::empty()
    } else {
        let before = nodes_of(rows.drop_last());
        if rows.last().counts() && !before.contains(rows.last().node_id) {
            before.push(rows.last().node_id)
        } else {
            before
        }
    }
}

/// The streak of a node, out of the days of all.
pub open spec fn node_streak(rows: Seq<NodeDay>, node_id: Uuid) -> Option<u64> {
    let days = days_of(rows, node_id);
    if days.is_empty() {
        None
    } else {
        Some(quiet_run(days, streak_start(days)) as u64)
    }
}

/// The streaks of all nodes.
pub open spec fn node_streaks(rows: Seq<NodeDay>) -> Seq<Option<u64>> {
    nodes_of(rows).map_values(|node_id: Uuid| node_streak(rows, node_id))
}

/// A node is counted once, however many days it has.
pub proof fn nodes_come_once(rows: Seq<NodeDay>)
    ensures
        nodes_of(rows).no_duplicates(),
    decreases rows.len(),
{
    if rows.len() > 0 {
        nodes_come_once(rows.drop_last());
    }
}

/// A node that is not among the nodes has no day.
proof fn lemma_unknown_nodes(rows: Seq<NodeDay>, node_id: Uuid)
    requires
        !nodes_of(rows).contains(node_id),
    ensures
        days_of(rows, node_id) == Map::<i32, i64>::empty(),
    decreases rows.len(),
{
    if rows.len() > 0 {
        let before = nodes_of(rows.drop_last());
        if before.contains(node_id) {
            let i = choose|i: int| 0 <= i < before.len() && before[i] == node_id;
            assert(nodes_of(rows)[i] == node_id);
        }
        if rows.last().counts() && !before.contains(rows.last().node_id) {
            assert(nodes_of(rows)[before.len() as int] == rows.last().node_id);
        }
        lemma_unknown_nodes(rows.drop_last(), node_id);
    }
}

/// Gathers the days of one node; a day in the future, or with a negative count, is left out.
pub fn daily_failures(rows: &Vec<NodeDay>, node_id: Uuid) -> (days: BTreeMap<i32, i64>)
    ensures
        days@ == days_of(rows@, node_id),
{
    let mut days: BTreeMap<i32, i64> = BTreeMap::new();
    let mut i: usize = 0;
    while i < rows.len()
        invariant
            i <= rows@.len(),
            days@ == days_of(rows@.take(i as int), node_id),
        decreases rows@.len() - i,
    {
        let row = rows[i];
        assert(rows@.take(i + 1).drop_last() =~= rows@.take(i as int));
        if row.node_id == node_id && row.days_ago >= 0 && row.failures >= 0 {
            days.insert(row.days_ago, row.failures);
        }
        i += 1;
    }
    assert(rows@.take(rows@.len() as int) =~= rows@);
    days
}

/// The days of all nodes, each under the place of its node.
struct GatheredDays {
    places: BTreeMap<u128, usize>,
    days: Vec<BTreeMap<i32, i64>>,
}

impl GatheredDays {
    /// All rows are gathered, under the nodes that they belong to.
    spec fn gathers(self, rows: Seq<NodeDay>) -> bool {
        let nodes = nodes_of(rows);
        &&& self.days@.len() == nodes.len()
        &&& forall|i: int|
            0 <= i < nodes.len() ==> (#[trigger] self.days@[i])@ == days_of(rows, nodes[i])
        &&& forall|i: int|
            #![trigger nodes[i]]
            0 <= i < nodes.len() ==> self.places@.contains_key(nodes[i].value)
                && self.places@[nodes[i].value] == i
        &&& forall|id: u128|
            #![trigger self.places@.contains_key(id)]
            self.places@.contains_key(id) ==> self.places@[id] < nodes.len()
                && nodes[self.places@[id] as int].value == id
    }

    fn add(&mut self, row: NodeDay, Ghost(rows): Ghost<Seq<NodeDay>>)
        requires
            old(self).gathers(rows),
        ensures
            final(self).gathers(rows.push(row)),
    {
        let ghost nodes = nodes_of(rows);
        assert(rows.push(row).drop_last() =~= rows);
        if row.days_ago < 0 || row.failures < 0 {
            return;
        }
        match self.places.get(&row.node_id.value) {
            Some(place) => {
                let place: usize = *place;
                assert(nodes[place as int] == row.node_id);
                assert(nodes_of(rows.push(row)) == nodes);
                self.days[place].insert(row.days_ago, row.failures);
            },
            None => {
                proof {
                    if nodes.contains(row.node_id) {
                        let i = choose|i: int| 0 <= i < nodes.len() && nodes[i] == row.node_id;
                        assert(self.places@.contains_key(nodes[i].value));
                    }
                    lemma_unknown_nodes(rows, row.node_id);
                }
                let place: usize = self.days.len();
                let mut first: BTreeMap<i32, i64> = BTreeMap::new();
                first.insert(row.days_ago, row.failures);
                self.places.insert(row.node_id.value, place);
                self.days.push(first);
                assert(nodes_of(rows.push(row)) == nodes.push(row.node_id));
            },
        }
    }
}

/// The streak of every node that has a day, in the order in which the nodes come.
pub fn streaks_by_node(rows: &Vec<NodeDay>) -> (streaks: Vec<Option<u64>>)
    ensures
        streaks@ == node_streaks(rows@),
{
    let mut gathered = GatheredDays { places: BTreeMap::new(), days: Vec::new() };
    let mut i: usize = 0;
    while i < rows.len()
        invariant
            i <= rows@.len(),
            gathered.gathers(rows@.take(i as int)),
        decreases rows@.len() - i,
    {
        gathered.add(rows[i], Ghost(rows@.take(i as int)));
        assert(rows@.take(i + 1) =~= rows@.take(i as int).push(rows@[i as int]));
        i += 1;
    }
    assert(rows@.take(rows@.len() as int) =~= rows@);
    let mut streaks: Vec<Option<u64>> = Vec::new();
    let mut place: usize = 0;
    while place < gathered.days.len()
        invariant
            gathered.gathers(rows@),
            place <= gathered.days@.len(),
            streaks@ == node_streaks(rows@).take(place as int),
        decreases gathered.days@.len() - place,
    {
        let streak = zero_failure_streak(&gathered.days[place]);
        streaks.push(streak);
        assert(streaks@ =~= node_streaks(rows@).take(place + 1));
        place += 1;
    }
    assert(streaks@ =~= node_streaks(rows@));
    streaks
}

/// Counts the nodes of the network whose streak has lasted a hundred days.
pub fn network_zero_failure_100_days_nodes(rows: &Vec<NodeDay>) -> (nodes: Result<i64, ApiError>)
    ensures
        nodes == told_count(long_streaks(node_streaks(rows@))),
{
    count_long_streaks(&streaks_by_node(rows))
}

/// What is told of the long streaks in a cohort: nothing is counted in a small one.
pub fn zero_failure_100_days_nodes(cohort_nodes: i64, rows: &Vec<NodeDay>) -> (nodes: Result<
    i64,
    ApiError,
>)
    ensures
        nodes == if cohort_nodes >= CONTRIBUTION_RANK_PRIVACY_THRESHOLD {
            told_count(long_streaks(node_streaks(rows@)))
        } else {
            Ok::<i64, ApiError>(0)
        },
{
    if cohort_nodes >= CONTRIBUTION_RANK_PRIVACY_THRESHOLD {
        network_zero_failure_100_days_nodes(rows)
    } else {
        Ok(0)
    }
}

/// The rank of a group of tied nodes in a cohort, as a ratio whose both sides are
/// doubled: 0 is the lowest rank and 1 the highest.
#[derive(Clone, Copy, Debug, PartialEq, Eq, Structural)]
pub struct Midrank {
    pub twice_numerator: i128,
    pub twice_denominator: i128,
}

/// The rank of a node among all contributing nodes. It is not told for a small
/// cohort, nor where the node has not contributed; counts that do not fit together
/// are an internal error.
pub fn contribution_midrank(
    cohort_nodes: i64,
    lower_nodes: i64,
    tied_nodes: i64,
    target_present: bool,
) -> (rank: Result<Option<Midrank>, ApiError>)
    ensures
        rank == if cohort_nodes < 0 || lower_nodes < 0 || tied_nodes < 0 {
            Err::<Option<Midrank>, ApiError>(ApiError::internal())
        } else if !target_present || cohort_nodes < CONTRIBUTION_RANK_PRIVACY_THRESHOLD {
            Ok::<Option<Midrank>, ApiError>(None)
        } else if tied_nodes == 0 || lower_nodes + tied_nodes > cohort_nodes {
            Err::<Option<Midrank>, ApiError>(ApiError::internal())
        } else {
            Ok::<Option<Midrank>, ApiError>(
                Some(
                    Midrank {
                        twice_numerator: (2 * lower_nodes + tied_nodes - 1) as i128,
                        twice_denominator: (2 * (cohort_nodes - 1)) as i128,
                    },
                ),
            )
        },
{
    if cohort_nodes < 0 || lower_nodes < 0 || tied_nodes < 0 {
        return Err(ApiError::internal());
    }
    if !target_present || cohort_nodes < CONTRIBUTION_RANK_PRIVACY_THRESHOLD {
        return Ok(None);
    }
    if tied_nodes == 0 || lower_nodes as i128 + tied_nodes as i128 > cohort_nodes as i128 {
        return Err(ApiError::internal());
    }
    Ok(
        Some(
            Midrank {
                twice_numerator: 2 * lower_nodes as i128 + tied_nodes as i128 - 1,
                twice_denominator: 2 * (cohort_nodes as i128 - 1),
            },
        ),
    )
}

/// A rank lies between 0 and 1, and a node ranks above another exactly if its group
/// does.
pub proof fn midranks_are_ordered(
    cohort: int,
    lower_first: int,
    tied_first: int,
    lower_second: int,
    tied_second: int,
)
    requires
        0 <= lower_first,
        0 < tied_first,
        lower_first + tied_first <= lower_second,
        0 < tied_second,
        lower_second + tied_second <= cohort,
    ensures
        0 <= 2 * lower_first + tied_first - 1 < 2 * lower_second + tied_second - 1 <= 2 * (cohort
            - 1),
{
}

/// What the honour roll tells of the cohort of a node.
pub fn published_cohort(cohort_nodes: i64) -> (published: u64)
    ensures
        published == if cohort_nodes >= CONTRIBUTION_RANK_PRIVACY_THRESHOLD {
            cohort_nodes as int
        } else {
            0
        },
{
    if cohort_nodes >= CONTRIBUTION_RANK_PRIVACY_THRESHOLD {
        cohort_nodes as u64
    } else {
        0
    }
}

/// A contribution below zero is an internal error.
pub fn check_contribution(contribution_earned_micro: i64) -> (checked: Result<(), ApiError>)
    ensures
        checked == if contribution_earned_micro < 0 {
            Err::<(), ApiError>(ApiError::internal())
        } else {
            Ok::<(), ApiError>(())
        },
{
    if contribution_earned_micro < 0 {
        return Err(ApiError::internal());
    }
    Ok(())
}

/// A group of tied nodes is in a band exactly if, counting half of its other members, no more
/// nodes than the share of the band stand above it. The best node alone is in every band, and the
/// last one alone only in the whole.
pub proof fn bands_are_counted_from_above(lower: int, tied: int, above: int, top_percent: int)
    requires
        0 <= lower,
        1 <= tied,
        0 <= above,
        1 <= top_percent <= 100,
    ensures
        in_top(lower, tied, lower + tied + above, top_percent) <==> (2 * above + tied - 1) * 100 <= 2
            * (lower + tied + above - 1) * top_percent,
        above == 0 && tied == 1 ==> in_top(lower, tied, lower + tied + above, top_percent),
        lower == 0 && tied == 1 && above > 0 && top_percent < 100 ==> !in_top(
            lower,
            tied,
            lower + tied + above,
            top_percent,
        ),
{
    let others = lower + tied + above - 1;
    assert(2 * others * (100 - top_percent) == 200 * others - 2 * others * top_percent)
        by (nonlinear_arith);
    if above == 0 && tied == 1 {
        assert(2 * others * top_percent >= 0) by (nonlinear_arith)
            requires
                others >= 0,
                top_percent >= 1,
        ;
    }
    if lower == 0 && tied == 1 && above > 0 && top_percent < 100 {
        assert(2 * others * (100 - top_percent) > 0) by (nonlinear_arith)
            requires
                others > 0,
                top_percent < 100,
        ;
    }
}

/// A band holds the groups that are in it, each of them whole: the next group counts with all of
/// its nodes if it is in the band, and not at all otherwise.
pub proof fn bands_hold_the_groups_in_them(
    groups: Seq<i64>,
    next: i64,
    lower: int,
    cohort: int,
    top_percent: int,
)
    ensures
        top_nodes(groups.push(next), lower, cohort, top_percent) == top_nodes(
            groups,
            lower,
            cohort,
            top_percent,
        ) + if (2 * (lower + total(groups)) + next - 1) * 100 >= 2 * (cohort - 1) * (100
            - top_percent) {
            next as int
        } else {
            0
        },
        top_nodes(Seq::empty(), lower, cohort, top_percent) == 0,
    decreases groups.len(),
{
    let longer = groups.push(next);
    if groups.len() == 0 {
        assert(longer[0] == next);
        assert(longer.drop_first() =~= Seq::<i64>::empty());
        assert(top_nodes(longer.drop_first(), lower + next, cohort, top_percent) == 0);
        assert(total(groups) == 0);
    } else {
        assert(longer[0] == groups[0]);
        assert(total(groups) == groups[0] + total(groups.drop_first()));
        bands_hold_the_groups_in_them(
            groups.drop_first(),
            next,
            lower + groups[0],
            cohort,
            top_percent,
        );
        assert(groups.push(next).drop_first() =~= groups.drop_first().push(next));
    }
}

/// Nodes are ranked only among five or more, in groups that are not empty and that make up all of
/// them.
pub proof fn small_cohorts_are_not_ranked(cohort: int, groups: Seq<i64>, top_percent: int)
    ensures
        rankable(cohort, groups, top_percent) ==> cohort >= 5 && 1 <= top_percent <= 100 && total(
            groups,
        ) == cohort && forall|i: int| 0 <= i < groups.len() ==> #[trigger] groups[i] >= 1,
        5 <= cohort <= 0x4000_0000_0000_0000 && 1 <= top_percent <= 100 && total(groups) == cohort
            && (forall|i: int| 0 <= i < groups.len() ==> #[trigger] groups[i] >= 1) ==> rankable(
            cohort,
            groups,
            top_percent,
        ),
{
}

/// A total is the sum of its parts.
pub proof fn totals_add_up(groups: Seq<i64>, next: i64)
    ensures
        total(groups.push(next)) == total(groups) + next,
        total(Seq::empty()) == 0,
    decreases groups.len(),
{
    if groups.len() == 0 {
        assert(groups.push(next).drop_first() =~= Seq::<i64>::empty());
        assert(groups =~= Seq::<i64>::empty());
    } else {
        totals_add_up(groups.drop_first(), next);
        assert(groups.push(next).drop_first() =~= groups.drop_first().push(next));
    }
}

/// A count is told from five on, in fives and rounded down, under its own label; a smaller one is
/// not told at all.
pub proof fn counts_are_told_in_fives(label: NetworkHonorLabel, exact: int)
    requires
        0 <= exact <= i64::MAX,
    ensures
        exact < 5 ==> line(label, exact).len() == 0,
        exact >= 5 ==> line(label, exact).len() == 1 && line(label, exact)[0].label == label
            && line(label, exact)[0].qualifying_nodes_lower_bound <= exact
            && line(label, exact)[0].qualifying_nodes_lower_bound > exact - 5
            && line(label, exact)[0].qualifying_nodes_lower_bound % 5 == 0,
{
}

/// Counts fit together exactly if the groups are not empty and make up the cohort, of which those
/// without failures are a part.
pub proof fn counts_fit_together(cohort: int, groups: Seq<i64>, zero_failure: int)
    ensures
        counts_consistent(cohort, groups, zero_failure) <==> 0 <= zero_failure <= cohort && total(
            groups,
        ) == cohort && forall|i: int| 0 <= i < groups.len() ==> #[trigger] groups[i] >= 1,
{
}

/// The table tells of each band what is in it: the five shares, all that contribute, and those
/// without failures.
pub proof fn tables_tell_each_band(cohort: int, groups: Seq<i64>, zero_failure: int, i: int)
    requires
        0 <= i < lines(cohort, groups, zero_failure).len(),
    ensures
        ({
            let told = lines(cohort, groups, zero_failure)[i];
            let exact = match told.label {
                NetworkHonorLabel::Top1Percent => top_nodes(groups, 0, cohort, 1),
                NetworkHonorLabel::Top5Percent => top_nodes(groups, 0, cohort, 5),
                NetworkHonorLabel::Top10Percent => top_nodes(groups, 0, cohort, 10),
                NetworkHonorLabel::Top25Percent => top_nodes(groups, 0, cohort, 25),
                NetworkHonorLabel::Top50Percent => top_nodes(groups, 0, cohort, 50),
                NetworkHonorLabel::Contributor => cohort,
                NetworkHonorLabel::ZeroFailure100Days => zero_failure,
            };
            line(told.label, exact) == seq![told]
        }),
{
}

/// Every band with five nodes or more is in the table.
pub proof fn tables_leave_no_band_out(cohort: int, groups: Seq<i64>, zero_failure: int)
    requires
        0 <= zero_failure <= i64::MAX,
        0 <= cohort <= i64::MAX,
    ensures
        lines(cohort, groups, zero_failure).len() == line(
            NetworkHonorLabel::Top1Percent,
            top_nodes(groups, 0, cohort, 1),
        ).len() + line(NetworkHonorLabel::Top5Percent, top_nodes(groups, 0, cohort, 5)).len()
            + line(NetworkHonorLabel::Top10Percent, top_nodes(groups, 0, cohort, 10)).len() + line(
            NetworkHonorLabel::Top25Percent,
            top_nodes(groups, 0, cohort, 25),
        ).len() + line(NetworkHonorLabel::Top50Percent, top_nodes(groups, 0, cohort, 50)).len()
            + line(NetworkHonorLabel::Contributor, cohort).len() + line(
            NetworkHonorLabel::ZeroFailure100Days,
            zero_failure,
        ).len(),
{
}

/// Milestones are a point, ten points, a hundred and so on: a contribution stands between one and
/// the next, or before the first.
pub proof fn milestones_are_powers_of_ten(contribution: int, previous: int, next: int)
    requires
        between_milestones(contribution, previous, next),
    ensures
        previous <= contribution < next,
        previous == 0 ==> next == 1_000_000,
        previous != 0 ==> previous >= 1_000_000 && next == 10 * previous,
{
    let index = choose|index: nat| #[trigger]
        milestone(index) == next && previous == if index == 0 {
            0
        } else {
            milestone((index - 1) as nat)
        };
    if index > 0 {
        lemma_milestones_grow(0, (index - 1) as nat);
    }
}

/// A streak is as many days in a row as are known to be without a failure: each of them is, and
/// the next one is not.
pub proof fn streaks_are_days_without_failure(daily_failures: Map<i32, i64>, days_ago: int)
    requires
        0 <= days_ago <= i32::MAX,
    ensures
        forall|day: i32|
            days_ago <= day < days_ago + quiet_run(daily_failures, days_ago)
                ==> #[trigger] daily_failures.contains_key(day) && daily_failures[day] == 0,
        forall|day: i32|
            day == days_ago + quiet_run(daily_failures, days_ago)
                ==> !(#[trigger] daily_failures.contains_key(day) && daily_failures[day] == 0),
        days_ago + quiet_run(daily_failures, days_ago) <= i32::MAX + 1,
    decreases i32::MAX - days_ago,
{
    if quiet(daily_failures, days_ago) {
        if days_ago < i32::MAX {
            streaks_are_days_without_failure(daily_failures, days_ago + 1);
        } else {
            assert(quiet_run(daily_failures, days_ago + 1) == 0);
        }
    }
}

/// A streak begins today if today is known, and yesterday otherwise.
pub proof fn streaks_begin_with_the_last_known_day(daily_failures: Map<i32, i64>)
    ensures
        daily_failures.contains_key(0) ==> streak_start(daily_failures) == 0,
        !daily_failures.contains_key(0) ==> streak_start(daily_failures) == 1,
{
}

/// The streaks that count are those of a hundred days or more.
pub proof fn long_streaks_last_a_hundred_days(streaks: Seq<Option<u64>>)
    ensures
        long_streaks(streaks) == streaks.filter(
            |streak: Option<u64>| streak matches Some(days) && days >= 100,
        ).len(),
        long_streaks(streaks) <= i64::MAX ==> told_count(long_streaks(streaks)) == Ok::<
            i64,
            ApiError,
        >(long_streaks(streaks) as i64),
    decreases streaks.len(),
{
    reveal(Seq::filter);
    if streaks.len() > 0 {
        long_streaks_last_a_hundred_days(streaks.drop_last());
    }
}

/// A node has the days that were counted for it, and no others; the last count of a day stands.
/// `at` is the row of that count, or the number of rows where there is none.
pub proof fn days_are_those_of_the_node(rows: Seq<NodeDay>, node_id: Uuid, day: i32, at: int)
    requires
        0 <= at <= rows.len(),
        at < rows.len() ==> rows[at].node_id == node_id && rows[at].days_ago == day && day >= 0
            && rows[at].failures >= 0,
        forall|j: int|
            (if at < rows.len() {
                at + 1
            } else {
                0
            }) <= j < rows.len() ==> !((#[trigger] rows[j]).node_id == node_id && rows[j].days_ago
                == day && rows[j].days_ago >= 0 && rows[j].failures >= 0),
    ensures
        at < rows.len() ==> days_of(rows, node_id).contains_key(day) && days_of(rows, node_id)[day]
            == rows[at].failures,
        at == rows.len() ==> !days_of(rows, node_id).contains_key(day),
    decreases rows.len(),
{
    if rows.len() > 0 {
        let before = rows.drop_last();
        let last = rows[rows.len() - 1];
        assert(last == rows.last());
        if at != rows.len() - 1 {
            let earlier = if at < rows.len() {
                at
            } else {
                before.len() as int
            };
            assert forall|j: int|
                (if earlier < before.len() {
                    earlier + 1
                } else {
                    0
                }) <= j < before.len() implies !((#[trigger] before[j]).node_id == node_id
                && before[j].days_ago == day && before[j].days_ago >= 0 && before[j].failures
                >= 0) by {
                assert(before[j] == rows[j]);
            }
            days_are_those_of_the_node(before, node_id, day, earlier);
            assert(!(last.node_id == node_id && last.days_ago == day && last.counts()));
        }
    }
}

/// The nodes that have a streak are those for which a day was counted.
pub proof fn nodes_are_those_with_days(rows: Seq<NodeDay>, node_id: Uuid)
    ensures
        nodes_of(rows).contains(node_id) <==> exists|i: int|
            0 <= i < rows.len() && (#[trigger] rows[i]).node_id == node_id && rows[i].days_ago >= 0
                && rows[i].failures >= 0,
        node_streaks(rows).len() == nodes_of(rows).len(),
        forall|i: int|
            0 <= i < nodes_of(rows).len() ==> #[trigger] node_streaks(rows)[i] == node_streak(
                rows,
                nodes_of(rows)[i],
            ),
    decreases rows.len(),
{
    if rows.len() > 0 {
        let before = rows.drop_last();
        let known = nodes_of(before);
        nodes_are_those_with_days(before, node_id);
        let last = rows[rows.len() - 1];
        assert(last == rows.last());
        if last.counts() && !known.contains(last.node_id) {
            let all = known.push(last.node_id);
            assert(all[known.len() as int] == last.node_id);
            if known.contains(node_id) {
                let at = choose|at: int| 0 <= at < known.len() && known[at] == node_id;
                assert(all[at] == node_id);
            }
        }
        if known.contains(node_id) {
            let i = choose|i: int|
                0 <= i < before.len() && (#[trigger] before[i]).node_id == node_id
                    && before[i].days_ago >= 0 && before[i].failures >= 0;
            assert(rows[i] == before[i]);
        }
        if exists|i: int|
            0 <= i < rows.len() && (#[trigger] rows[i]).node_id == node_id && rows[i].days_ago >= 0
                && rows[i].failures >= 0 {
            let i = choose|i: int|
                0 <= i < rows.len() && (#[trigger] rows[i]).node_id == node_id && rows[i].days_ago
                    >= 0 && rows[i].failures >= 0;
            if i < before.len() {
                assert(before[i] == rows[i]);
            }
        }
    }
}

/// A node has a streak exactly if a day is known of it, and it is the run from the last one on.
pub proof fn streaks_are_runs_of_known_days(rows: Seq<NodeDay>, node_id: Uuid)
    ensures
        days_of(rows, node_id).is_empty() ==> node_streak(rows, node_id) is None,
        !days_of(rows, node_id).is_empty() ==> (node_streak(rows, node_id) matches Some(days)
            && days == quiet_run(
            days_of(rows, node_id),
            streak_start(days_of(rows, node_id)),
        ) as u64),
{
}

} // verus!
