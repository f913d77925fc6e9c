//! Which models a request could be served by: one entry for each model, out of the rows
//! of all instances that publish it.

use vstd::prelude::*;

use crate::arithmetic;
use crate::arithmetic::saturating_sub_i64;
use crate::error::ApiError;
use crate::ids::Uuid;
use crate::jobs::required_context;
use crate::text;

verus! {

/// An instance that publishes a model.
pub struct InstanceRow {
    pub model_id: Uuid,
    pub weights_hash: String,
    pub base_cost_per_1k_micro: i64,
    pub context_length: i32,
    pub evaluation_samples: i32,
    pub instance_tags: Vec<String>,
}

/// A model that a request could be served by. `matching_tags` counts the tags of the
/// request that the best fitting of its instances has.
pub struct ModelRoutingData {
    pub model_id: Uuid,
    pub weights_hash: String,
    pub base_cost_per_1k_micro: i64,
    pub context_length: u32,
    pub evaluation_samples: u64,
    pub matching_tags: usize,
}

/// Tags with their ASCII letters in lower case.
pub open spec fn lowered(tags: Seq<String>) -> Seq<Seq<char>> {
    tags.map_values(|tag: String| text::ascii_lowercase(tag@))
}

/// The different tags, whatever their case.
pub open spec fn distinct(tags: Seq<String>) -> Set<Seq<char>> {
    lowered(tags).to_set()
}

/// The texts of a list.
pub open spec fn views(texts: Seq<String>) -> Seq<Seq<char>> {
    texts.map_values(|tag: String| tag@)
}

fn is_among(list: &Vec<String>, value: &str) -> (found: bool)
    ensures
        found == views(list@).contains(value@),
{
    let mut i: usize = 0;
    while i < list.len()
        invariant
            i <= list@.len(),
            forall|j: int| 0 <= j < i ==> views(list@)[j] != value@,
        decreases list@.len() - i,
    {
        if text::same_text(list[i].as_str(), value) {
            assert(views(list@)[i as int] == value@);
            return true;
        }
        i += 1;
    }
    false
}

/// The different tags of a list, each once and in lower case.
pub fn distinct_tags(tags: &Vec<String>) -> (found: Vec<String>)
    ensures
        views(found@).no_duplicates(),
        views(found@).to_set() == distinct(tags@),
        found@.len() == distinct(tags@).len(),
{
    let mut found: Vec<String> = Vec::new();
    let mut i: usize = 0;
    let ghost all = lowered(tags@);
    assert(views(found@).to_set() =~= all.take(0).to_set());
    while i < tags.len()
        invariant
            i <= tags@.len(),
            all == lowered(tags@),
            views(found@).no_duplicates(),
            views(found@).to_set() == all.take(i as int).to_set(),
        decreases tags@.len() - i,
    {
        let tag = text::to_ascii_lowercase(tags[i].as_str());
        assert(all[i as int] == tag@);
        assert(all.take(i + 1) =~= all.take(i as int).push(tag@));
        let ghost before = views(found@);
        if !is_among(&found, tag.as_str()) {
            found.push(tag);
            proof {
                assert(views(found@) =~= before.push(tag@));
                lemma_push_to_set(before, tag@);
            }
        } else {
            proof {
                assert(views(found@).to_set().contains(tag@));
            }
        }
        proof {
            lemma_push_to_set(all.take(i as int), tag@);
            assert(views(found@).to_set() =~= all.take(i + 1).to_set());
        }
        i += 1;
    }
    proof {
        assert(all.take(all.len() as int) =~= all);
        views(found@).unique_seq_to_set();
    }
    found
}

proof fn lemma_push_to_set(values: Seq<Seq<char>>, value: Seq<char>)
    ensures
        values.push(value).to_set() == values.to_set().insert(value),
{
    let longer = values.push(value);
    assert forall|other: Seq<char>| longer.to_set().contains(other) == values.to_set().insert(
        value,
    ).contains(other) by {
        if longer.contains(other) {
            let at = choose|at: int| 0 <= at < longer.len() && longer[at] == other;
            if at < values.len() {
                assert(values[at] == other);
            }
        }
        if values.contains(other) {
            let at = choose|at: int| 0 <= at < values.len() && values[at] == other;
            assert(longer[at] == other);
        }
        assert(longer[values.len() as int] == value);
    }
    assert(longer.to_set() =~= values.to_set().insert(value));
}

/// The tags that a request and an instance have in common.
pub open spec fn common(requested: Seq<Seq<char>>, instance: Set<Seq<char>>) -> Set<Seq<char>> {
    requested.to_set().intersect(instance)
}

/// Counts the tags of a request that an instance has.
fn count_common(requested: &Vec<String>, instance_tags: &Vec<String>) -> (count: usize)
    requires
        views(requested@).no_duplicates(),
    ensures
        count == common(views(requested@), distinct(instance_tags@)).len(),
{
    let instance = distinct_tags(instance_tags);
    let ghost wanted = views(requested@);
    let ghost have = distinct(instance_tags@);
    let mut count: usize = 0;
    let mut i: usize = 0;
    assert(common(wanted.take(0), have) =~= Set::<Seq<char>>::empty());
    while i < requested.len()
        invariant
            i <= requested@.len(),
            wanted == views(requested@),
            wanted.no_duplicates(),
            views(instance@).to_set() == have,
            have == distinct(instance_tags@),
            common(wanted.take(i as int), have).finite(),
            count == common(wanted.take(i as int), have).len(),
            count <= i,
        decreases requested@.len() - i,
    {
        let ghost tag = requested@[i as int]@;
        let ghost before = common(wanted.take(i as int), have);
        proof {
            assert(wanted[i as int] == tag);
            assert(wanted.take(i + 1) =~= wanted.take(i as int).push(tag));
            lemma_push_to_set(wanted.take(i as int), tag);
            assert(!wanted.take(i as int).contains(tag)) by {
                if wanted.take(i as int).contains(tag) {
                    let at = choose|at: int|
                        0 <= at < i && wanted.take(i as int)[at] == tag;
                    assert(wanted[at] == wanted[i as int]);
                }
            }
        }
        if is_among(&instance, requested[i].as_str()) {
            count += 1;
            proof {
                assert(have.contains(tag));
                assert(common(wanted.take(i + 1), have) =~= before.insert(tag));
                assert(!before.contains(tag));
            }
        } else {
            proof {
                assert(!have.contains(tag));
                assert(common(wanted.take(i + 1), have) =~= before);
            }
        }
        i += 1;
    }
    assert(wanted.take(wanted.len() as int) =~= wanted);
    count
}

/// The rows are such as the database can hold.
pub open spec fn rows_valid(rows: Seq<InstanceRow>) -> bool {
    forall|i: int|
        0 <= i < rows.len() ==> (#[trigger] rows[i]).evaluation_samples >= 0
            && rows[i].context_length >= 0
}

/// The first row of a model says what is known of it.
pub open spec fn is_first_row(rows: Seq<InstanceRow>, model: ModelRoutingData, at: int) -> bool {
    &&& 0 <= at < rows.len()
    &&& rows[at].model_id == model.model_id
    &&& forall|i: int| 0 <= i < at ==> (#[trigger] rows[i]).model_id != model.model_id
    &&& model.weights_hash@ == rows[at].weights_hash@
    &&& model.base_cost_per_1k_micro == rows[at].base_cost_per_1k_micro
    &&& model.context_length == rows[at].context_length
    &&& model.evaluation_samples == rows[at].evaluation_samples
}

/// The tags of a request that an instance has, counted.
pub open spec fn matches_of(requested: Set<Seq<char>>, row: InstanceRow) -> nat {
    requested.intersect(distinct(row.instance_tags@)).len()
}

/// The best fitting instance of a model has as many of the requested tags.
pub open spec fn is_best_match(
    rows: Seq<InstanceRow>,
    requested: Set<Seq<char>>,
    model: ModelRoutingData,
) -> bool {
    &&& forall|i: int|
        0 <= i < rows.len() && (#[trigger] rows[i]).model_id == model.model_id ==> matches_of(
            requested,
            rows[i],
        ) <= model.matching_tags
    &&& exists|i: int|
        0 <= i < rows.len() && (#[trigger] rows[i]).model_id == model.model_id && matches_of(
            requested,
            rows[i],
        ) == model.matching_tags
}

/// The models stand in the order of their identifiers, each once.
pub open spec fn is_ordered(models: Seq<ModelRoutingData>) -> bool {
    forall|i: int, j: int|
        0 <= i < j < models.len() ==> (#[trigger] models[i]).model_id.value < (
        #[trigger] models[j]).model_id.value
}

/// A model is what the rows say of it.
#[verifier::opaque]
pub open spec fn is_founded(
    model: ModelRoutingData,
    rows: Seq<InstanceRow>,
    requested: Set<Seq<char>>,
) -> bool {
    &&& exists|at: int| #[trigger] is_first_row(rows, model, at)
    &&& is_best_match(rows, requested, model)
}

/// A model has an entry.
#[verifier::opaque]
pub open spec fn is_listed(models: Seq<ModelRoutingData>, model_id: Uuid) -> bool {
    exists|i: int| 0 <= i < models.len() && (#[trigger] models[i]).model_id == model_id
}

/// Every model that has a row stands once, in the order of their identifiers, with what
/// the rows say of it.
pub open spec fn gathers(
    models: Seq<ModelRoutingData>,
    rows: Seq<InstanceRow>,
    requested: Set<Seq<char>>,
) -> bool {
    &&& is_ordered(models)
    &&& forall|i: int|
        0 <= i < models.len() ==> is_founded(#[trigger] models[i], rows, requested)
    &&& forall|at: int|
        0 <= at < rows.len() ==> is_listed(models, (#[trigger] rows[at]).model_id)
}

/// What the rows say of a model holds with another row too.
proof fn lemma_founded_on(
    model: ModelRoutingData,
    after: ModelRoutingData,
    rows: Seq<InstanceRow>,
    row: InstanceRow,
    requested: Set<Seq<char>>,
)
    requires
        is_founded(model, rows, requested),
        after.model_id == model.model_id,
        after.weights_hash == model.weights_hash,
        after.base_cost_per_1k_micro == model.base_cost_per_1k_micro,
        after.context_length == model.context_length,
        after.evaluation_samples == model.evaluation_samples,
        after.matching_tags == if row.model_id == model.model_id && matches_of(requested, row)
            > model.matching_tags {
            matches_of(requested, row)
        } else {
            model.matching_tags as nat
        },
    ensures
        is_founded(after, rows.push(row), requested),
{
    reveal(is_founded);
    let more = rows.push(row);
    let first = choose|first: int| is_first_row(rows, model, first);
    assert(is_first_row(more, after, first)) by {
        assert(more[first] == rows[first]);
        assert forall|k: int| 0 <= k < first implies (#[trigger] more[k]).model_id
            != after.model_id by {
            assert(rows[k] == more[k]);
        }
    }
    let best = choose|best: int|
        0 <= best < rows.len() && (#[trigger] rows[best]).model_id == model.model_id && matches_of(
            requested,
            rows[best],
        ) == model.matching_tags;
    assert(more[best] == rows[best]);
    assert(more[rows.len() as int] == row);
    assert forall|k: int|
        0 <= k < more.len() && (#[trigger] more[k]).model_id == after.model_id implies matches_of(
        requested,
        more[k],
    ) <= after.matching_tags by {
        if k < rows.len() {
            assert(more[k] == rows[k]);
        }
    }
}

/// What the first row of a model says of it.
proof fn lemma_founded_first(
    model: ModelRoutingData,
    rows: Seq<InstanceRow>,
    row: InstanceRow,
    requested: Set<Seq<char>>,
)
    requires
        forall|k: int| 0 <= k < rows.len() ==> (#[trigger] rows[k]).model_id != row.model_id,
        model.model_id == row.model_id,
        model.weights_hash@ == row.weights_hash@,
        model.base_cost_per_1k_micro == row.base_cost_per_1k_micro,
        model.context_length == row.context_length,
        model.evaluation_samples == row.evaluation_samples,
        model.matching_tags == matches_of(requested, row),
    ensures
        is_founded(model, rows.push(row), requested),
{
    reveal(is_founded);
    let more = rows.push(row);
    assert(more[rows.len() as int] == row);
    assert forall|k: int| 0 <= k < rows.len() implies (#[trigger] more[k]).model_id
        != model.model_id by {
        assert(more[k] == rows[k]);
    }
    assert(is_first_row(more, model, rows.len() as int));
}

/// Where the entry of a model is, or would have to be.
fn position(models: &Vec<ModelRoutingData>, model_id: Uuid) -> (at: usize)
    requires
        is_ordered(models@),
    ensures
        at <= models@.len(),
        forall|i: int| 0 <= i < at ==> (#[trigger] models@[i]).model_id.value < model_id.value,
        forall|i: int|
            at <= i < models@.len() ==> model_id.value <= (#[trigger] models@[i]).model_id.value,
{
    let mut at: usize = 0;
    while at < models.len() && models[at].model_id.value < model_id.value
        invariant
            at <= models@.len(),
            forall|i: int| 0 <= i < at ==> (#[trigger] models@[i]).model_id.value < model_id.value,
        decreases models@.len() - at,
    {
        at += 1;
    }
    assert forall|i: int| at <= i < models@.len() implies model_id.value <= (
    #[trigger] models@[i]).model_id.value by {
        if i > at {
            assert(models@[at as int].model_id.value < models@[i].model_id.value);
        }
    }
    at
}

/// What was gathered from the first rows, and from one row more of a model that is
/// there already.
proof fn lemma_gather_known(
    models: Seq<ModelRoutingData>,
    after: Seq<ModelRoutingData>,
    rows: Seq<InstanceRow>,
    row: InstanceRow,
    requested: Set<Seq<char>>,
    at: int,
)
    requires
        gathers(models, rows, requested),
        0 <= at < models.len(),
        models[at].model_id == row.model_id,
        after.len() == models.len(),
        forall|i: int| 0 <= i < models.len() && i != at ==> after[i] == models[i],
        after[at].model_id == models[at].model_id,
        after[at].weights_hash == models[at].weights_hash,
        after[at].base_cost_per_1k_micro == models[at].base_cost_per_1k_micro,
        after[at].context_length == models[at].context_length,
        after[at].evaluation_samples == models[at].evaluation_samples,
        after[at].matching_tags == if matches_of(requested, row) > models[at].matching_tags {
            matches_of(requested, row)
        } else {
            models[at].matching_tags as nat
        },
    ensures
        gathers(after, rows.push(row), requested),
{
    let more = rows.push(row);
    assert forall|i: int, j: int| 0 <= i < j < after.len() implies (
    #[trigger] after[i]).model_id.value < (#[trigger] after[j]).model_id.value by {
        assert(models[i].model_id.value < models[j].model_id.value);
    }
    assert forall|i: int| 0 <= i < after.len() implies is_founded(
        #[trigger] after[i],
        more,
        requested,
    ) by {
        assert(is_founded(models[i], rows, requested));
        if i < at {
            assert(models[i].model_id.value < models[at].model_id.value);
        } else if i > at {
            assert(models[at].model_id.value < models[i].model_id.value);
        }
        lemma_founded_on(models[i], after[i], rows, row, requested);
    }
    assert forall|k: int| 0 <= k < more.len() implies is_listed(
        after,
        (#[trigger] more[k]).model_id,
    ) by {
        reveal(is_listed);
        if k < rows.len() {
            assert(more[k] == rows[k]);
            assert(is_listed(models, rows[k].model_id));
            let i = choose|i: int|
                0 <= i < models.len() && (#[trigger] models[i]).model_id == rows[k].model_id;
            assert(after[i].model_id == more[k].model_id);
        } else {
            assert(after[at].model_id == more[k].model_id);
        }
    }
}

/// What was gathered from the first rows, and from one row of a model that was not there.
proof fn lemma_gather_new(
    models: Seq<ModelRoutingData>,
    rows: Seq<InstanceRow>,
    row: InstanceRow,
    requested: Set<Seq<char>>,
    at: int,
    model: ModelRoutingData,
)
    requires
        gathers(models, rows, requested),
        0 <= at <= models.len(),
        forall|i: int| 0 <= i < at ==> (#[trigger] models[i]).model_id.value < row.model_id.value,
        forall|i: int|
            at <= i < models.len() ==> row.model_id.value < (#[trigger] models[i]).model_id.value,
        model.model_id == row.model_id,
        model.weights_hash@ == row.weights_hash@,
        model.base_cost_per_1k_micro == row.base_cost_per_1k_micro,
        model.context_length == row.context_length,
        model.evaluation_samples == row.evaluation_samples,
        model.matching_tags == matches_of(requested, row),
    ensures
        gathers(models.insert(at, model), rows.push(row), requested),
{
    let after = models.insert(at, model);
    let more = rows.push(row);
    assert forall|k: int| 0 <= k < rows.len() implies (#[trigger] rows[k]).model_id
        != row.model_id by {
        reveal(is_listed);
        assert(is_listed(models, rows[k].model_id));
        let i = choose|i: int|
            0 <= i < models.len() && (#[trigger] models[i]).model_id == rows[k].model_id;
        assert(models[i].model_id == rows[k].model_id);
    }
    assert forall|i: int, j: int| 0 <= i < j < after.len() implies (
    #[trigger] after[i]).model_id.value < (#[trigger] after[j]).model_id.value by {
        let a = if i < at { i } else { i - 1 };
        let b = if j < at { j } else { j - 1 };
        if i != at && j != at {
            assert(models[a].model_id.value < models[b].model_id.value);
        } else if i == at {
            assert(row.model_id.value < models[b].model_id.value);
        } else {
            assert(models[a].model_id.value < row.model_id.value);
        }
    }
    assert forall|i: int| 0 <= i < after.len() implies is_founded(
        #[trigger] after[i],
        more,
        requested,
    ) by {
        if i == at {
            lemma_founded_first(model, rows, row, requested);
        } else {
            let from = if i < at { i } else { i - 1 };
            assert(after[i] == models[from]);
            assert(models[from].model_id != row.model_id);
            lemma_founded_on(models[from], models[from], rows, row, requested);
        }
    }
    assert forall|k: int| 0 <= k < more.len() implies is_listed(
        after,
        (#[trigger] more[k]).model_id,
    ) by {
        reveal(is_listed);
        if k < rows.len() {
            assert(more[k] == rows[k]);
            assert(is_listed(models, rows[k].model_id));
            let i = choose|i: int|
                0 <= i < models.len() && (#[trigger] models[i]).model_id == rows[k].model_id;
            let to = if i < at { i } else { i + 1 };
            assert(after[to] == models[i]);
        } else {
            assert(after[at].model_id == more[k].model_id);
        }
    }
}

/// Gathers the models that a request could be served by, in the order of their
/// identifiers. Rows that the database cannot hold are an internal error; without any row
/// there is no model.
pub fn routable_models(rows: &Vec<InstanceRow>, request_tags: &Vec<String>) -> (models: Result<
    Vec<ModelRoutingData>,
    ApiError,
>)
    ensures
        match models {
            Ok(models) => {
                &&& rows_valid(rows@)
                &&& models@.len() > 0
                &&& gathers(models@, rows@, distinct(request_tags@))
            },
            Err(refused) => if rows_valid(rows@) {
                &&& rows@.len() == 0
                &&& refused == ApiError::unavailable(
                    "no_routable_model",
                    "没有满足条件的在线模型",
                )
            } else {
                refused == ApiError::internal()
            },
        },
{
    let requested = distinct_tags(request_tags);
    let ghost wanted = distinct(request_tags@);
    let mut models: Vec<ModelRoutingData> = Vec::new();
    let mut i: usize = 0;
    assert(rows@.take(0) =~= Seq::<InstanceRow>::empty());
    while i < rows.len()
        invariant
            i <= rows@.len(),
            views(requested@).no_duplicates(),
            views(requested@).to_set() == wanted,
            wanted == distinct(request_tags@),
            rows_valid(rows@.take(i as int)),
            gathers(models@, rows@.take(i as int), wanted),
        decreases rows@.len() - i,
    {
        let row = &rows[i];
        let ghost seen = rows@.take(i as int);
        let ghost before = models@;
        proof {
            assert(rows@.take(i + 1) =~= seen.push(*row));
        }
        if row.evaluation_samples < 0 || row.context_length < 0 {
            assert(!rows_valid(rows@)) by {
                assert(rows@[i as int] == *row);
            }
            return Err(ApiError::internal());
        }
        let matching_tags: usize = count_common(&requested, &row.instance_tags);
        assert(matching_tags == matches_of(wanted, *row));
        let at = position(&models, row.model_id);
        if at < models.len() && models[at].model_id.value == row.model_id.value {
            if matching_tags > models[at].matching_tags {
                let known = &models[at];
                let improved = ModelRoutingData {
                    model_id: known.model_id,
                    weights_hash: known.weights_hash.clone(),
                    base_cost_per_1k_micro: known.base_cost_per_1k_micro,
                    context_length: known.context_length,
                    evaluation_samples: known.evaluation_samples,
                    matching_tags,
                };
                models.set(at, improved);
            }
            proof {
                lemma_gather_known(before, models@, seen, *row, wanted, at as int);
            }
        } else {
            let model = ModelRoutingData {
                model_id: row.model_id,
                weights_hash: row.weights_hash.clone(),
                base_cost_per_1k_micro: row.base_cost_per_1k_micro,
                context_length: row.context_length as u32,
                evaluation_samples: row.evaluation_samples as u64,
                matching_tags,
            };
            proof {
                assert forall|k: int| at <= k < before.len() implies row.model_id.value < (
                #[trigger] before[k]).model_id.value by {
                    if k > at {
                        assert(before[at as int].model_id.value < before[k].model_id.value);
                    }
                }
                lemma_gather_new(before, seen, *row, wanted, at as int, model);
            }
            models.insert(at, model);
        }
        proof {
            assert forall|k: int| 0 <= k < seen.push(*row).len() implies (
            #[trigger] seen.push(*row)[k]).evaluation_samples >= 0 && seen.push(
                *row,
            )[k].context_length >= 0 by {
                if k < seen.len() {
                    assert(seen[k] == seen.push(*row)[k]);
                }
            }
        }
        i += 1;
    }
    assert(rows@.take(rows@.len() as int) =~= rows@);
    if models.len() == 0 {
        assert(rows@.len() == 0) by {
            if rows@.len() > 0 {
                reveal(is_listed);
                assert(is_listed(models@, rows@[0].model_id));
            }
        }
        return Err(ApiError::unavailable("no_routable_model", "没有满足条件的在线模型"));
    }
    Ok(models)
}

/// The least and the largest cost among some models.
fn cost_range(models: &Vec<ModelRoutingData>) -> (range: (i64, i64))
    requires
        models@.len() > 0,
    ensures
        forall|i: int|
            0 <= i < models@.len() ==> range.0 <= (
            #[trigger] models@[i]).base_cost_per_1k_micro <= range.1,
        exists|i: int| 0 <= i < models@.len() && (
        #[trigger] models@[i]).base_cost_per_1k_micro == range.0,
        exists|i: int| 0 <= i < models@.len() && (
        #[trigger] models@[i]).base_cost_per_1k_micro == range.1,
{
    let mut least: i64 = models[0].base_cost_per_1k_micro;
    let mut largest: i64 = models[0].base_cost_per_1k_micro;
    let mut i: usize = 1;
    assert(models@[0].base_cost_per_1k_micro == least);
    while i < models.len()
        invariant
            1 <= i <= models@.len(),
            forall|j: int|
                0 <= j < i ==> least <= (#[trigger] models@[j]).base_cost_per_1k_micro <= largest,
            exists|j: int| 0 <= j < i && (#[trigger] models@[j]).base_cost_per_1k_micro == least,
            exists|j: int| 0 <= j < i && (#[trigger] models@[j]).base_cost_per_1k_micro == largest,
        decreases models@.len() - i,
    {
        let cost: i64 = models[i].base_cost_per_1k_micro;
        assert(models@[i as int].base_cost_per_1k_micro == cost);
        if cost < least {
            least = cost;
        }
        if cost > largest {
            largest = cost;
        }
        i += 1;
    }
    (least, largest)
}

/// A cost lies between the least and the largest of some models, which are costs of
/// models themselves.
pub open spec fn is_cost_range(models: Seq<ModelRoutingData>, least: int, largest: int) -> bool {
    &&& forall|i: int|
        0 <= i < models.len() ==> least <= (#[trigger] models[i]).base_cost_per_1k_micro <= largest
    &&& exists|i: int|
        0 <= i < models.len() && (#[trigger] models[i]).base_cost_per_1k_micro == least
    &&& exists|i: int|
        0 <= i < models.len() && (#[trigger] models[i]).base_cost_per_1k_micro == largest
}

/// A model as it is ranked. Of the tags of the request, `matching_tags` out of
/// `requested_tags` fit; its cost lies `cost_above_least` above the least one, where the
/// largest one lies `cost_span` above it.
#[derive(Clone, Copy, Debug, PartialEq, Eq, Structural)]
pub struct ModelCandidate {
    pub model_id: Uuid,
    pub context_length: u32,
    pub matching_tags: usize,
    pub requested_tags: usize,
    pub cost_above_least: i64,
    pub cost_span: i64,
}

/// A model is entered into the ranking with what is known of it.
pub open spec fn is_candidate_of(
    candidate: ModelCandidate,
    model: ModelRoutingData,
    requested_tags: int,
    least: int,
    largest: int,
) -> bool {
    &&& candidate.model_id == model.model_id
    &&& candidate.context_length == model.context_length
    &&& candidate.matching_tags == model.matching_tags
    &&& candidate.requested_tags == requested_tags
    &&& candidate.cost_above_least == arithmetic::clamped_i64(
        model.base_cost_per_1k_micro - least,
    )
    &&& candidate.cost_span == arithmetic::clamped_i64(largest - least)
}

/// Every model is entered into the ranking, in their order.
pub open spec fn enters(
    candidates: Seq<ModelCandidate>,
    models: Seq<ModelRoutingData>,
    requested_tags: int,
) -> bool {
    &&& candidates.len() == models.len()
    &&& exists|least: int, largest: int|
        #[trigger] is_cost_range(models, least, largest) && forall|i: int|
            0 <= i < models.len() ==> is_candidate_of(
                #[trigger] candidates[i],
                models[i],
                requested_tags,
                least,
                largest,
            )
}

/// Enters models into the ranking.
pub fn model_candidates(models: &Vec<ModelRoutingData>, request_tags: &Vec<String>) -> (candidates: Vec<
    ModelCandidate,
>)
    requires
        models@.len() > 0,
    ensures
        enters(candidates@, models@, distinct(request_tags@).len() as int),
{
    let requested_tags: usize = distinct_tags(request_tags).len();
    let (least, largest) = cost_range(models);
    let cost_span: i64 = saturating_sub_i64(largest, least);
    let mut candidates: Vec<ModelCandidate> = Vec::new();
    let mut i: usize = 0;
    while i < models.len()
        invariant
            i <= models@.len(),
            candidates@.len() == i,
            cost_span == arithmetic::clamped_i64(largest - least),
            forall|j: int|
                0 <= j < i ==> is_candidate_of(
                    #[trigger] candidates@[j],
                    models@[j],
                    requested_tags as int,
                    least as int,
                    largest as int,
                ),
        decreases models@.len() - i,
    {
        candidates.push(
            ModelCandidate {
                model_id: models[i].model_id,
                context_length: models[i].context_length,
                matching_tags: models[i].matching_tags,
                requested_tags,
                cost_above_least: saturating_sub_i64(models[i].base_cost_per_1k_micro, least),
                cost_span,
            },
        );
        i += 1;
    }
    assert(is_cost_range(models@, least as int, largest as int));
    candidates
}

/// The context that a model has to offer, for the tokens that a request may use.
pub fn minimum_context_length(input_tokens: i32, output_tokens: i32) -> (length: Result<
    u32,
    ApiError,
>)
    ensures
        match length {
            Ok(length) => input_tokens + output_tokens >= 0 && length == if input_tokens
                + output_tokens <= i32::MAX {
                input_tokens + output_tokens
            } else {
                i32::MAX as int
            },
            Err(refused) => input_tokens + output_tokens < 0 && refused == ApiError::internal(),
        },
{
    let context: i32 = required_context(input_tokens, output_tokens);
    if context < 0 {
        return Err(ApiError::internal());
    }
    Ok(context as u32)
}

/// The model that a job is created for.
pub struct SelectedModel {
    pub id: Uuid,
    pub weights_hash: String,
}

/// Takes the first model of the ranking. `None` stands for a ranking without any model,
/// and a model that was not ranked is an internal error.
pub fn select_model(models: &Vec<ModelRoutingData>, first: Option<Uuid>) -> (selected: Result<
    SelectedModel,
    ApiError,
>)
    requires
        is_ordered(models@),
    ensures
        match selected {
            Ok(selected) => first == Some(selected.id) && exists|i: int|
                0 <= i < models@.len() && (#[trigger] models@[i]).model_id == selected.id
                    && models@[i].weights_hash@ == selected.weights_hash@,
            Err(refused) => match first {
                Some(id) => refused == ApiError::internal() && forall|i: int|
                    0 <= i < models@.len() ==> (#[trigger] models@[i]).model_id != id,
                None => refused == ApiError::unavailable(
                    "no_routable_model",
                    "没有满足条件的在线模型",
                ),
            },
        },
{
    match first {
        Some(id) => {
            let at = position(models, id);
            if at < models.len() && models[at].model_id.value == id.value {
                assert(models@[at as int].model_id == id);
                return Ok(SelectedModel { id, weights_hash: models[at].weights_hash.clone() });
            }
            assert forall|i: int| 0 <= i < models@.len() implies (#[trigger] models@[i]).model_id
                != id by {
                if i > at {
                    assert(models@[at as int].model_id.value < models@[i].model_id.value);
                }
            }
            Err(ApiError::internal())
        },
        None => Err(
            ApiError::unavailable("no_routable_model", "没有满足条件的在线模型"),
        ),
    }
}

/// Tags count once, whatever their case.
pub proof fn tags_count_once(tags: Seq<String>, tag: Seq<char>)
    ensures
        distinct(tags).contains(tag) <==> exists|i: int|
            0 <= i < tags.len() && text::ascii_lowercase((#[trigger] tags[i])@) == tag,
{
    let all = lowered(tags);
    if all.contains(tag) {
        let i = choose|i: int| 0 <= i < all.len() && all[i] == tag;
        assert(text::ascii_lowercase(tags[i]@) == tag);
    }
    if exists|i: int| 0 <= i < tags.len() && text::ascii_lowercase((#[trigger] tags[i])@) == tag {
        let i = choose|i: int|
            0 <= i < tags.len() && text::ascii_lowercase((#[trigger] tags[i])@) == tag;
        assert(all[i] == tag);
    }
}

/// Every model with an instance is gathered once, in the order of the identifiers, with what its
/// first instance says of it and with the most tags that any of its instances has in common with
/// the request.
pub proof fn models_are_gathered_from_their_instances(
    models: Seq<ModelRoutingData>,
    rows: Seq<InstanceRow>,
    requested: Set<Seq<char>>,
    i: int,
    at: int,
)
    requires
        gathers(models, rows, requested),
        0 <= i < models.len(),
        0 <= at < rows.len(),
    ensures
        exists|k: int|
            0 <= k < models.len() && (#[trigger] models[k]).model_id == rows[at].model_id,
        forall|j: int|
            i < j < models.len() ==> models[i].model_id.value < (#[trigger] models[j]).model_id.value,
        exists|k: int|
            0 <= k < rows.len() && (#[trigger] rows[k]).model_id == models[i].model_id
                && rows[k].weights_hash@ == models[i].weights_hash@
                && rows[k].base_cost_per_1k_micro == models[i].base_cost_per_1k_micro
                && rows[k].context_length == models[i].context_length && rows[k].evaluation_samples
                == models[i].evaluation_samples && (k <= at || rows[at].model_id
                != models[i].model_id),
        rows[at].model_id == models[i].model_id ==> requested.intersect(
            distinct(rows[at].instance_tags@),
        ).len() <= models[i].matching_tags,
        exists|k: int|
            0 <= k < rows.len() && (#[trigger] rows[k]).model_id == models[i].model_id
                && requested.intersect(distinct(rows[k].instance_tags@)).len()
                == models[i].matching_tags,
{
    reveal(is_founded);
    reveal(is_listed);
    assert(is_listed(models, rows[at].model_id));
    assert(is_founded(models[i], rows, requested));
    let first = choose|k: int| #[trigger] is_first_row(rows, models[i], k);
    assert(rows[first].model_id == models[i].model_id);
    let best = choose|k: int|
        0 <= k < rows.len() && (#[trigger] rows[k]).model_id == models[i].model_id && matches_of(
            requested,
            rows[k],
        ) == models[i].matching_tags;
    assert(requested.intersect(distinct(rows[best].instance_tags@)).len()
        == models[i].matching_tags);
}

/// Rows are usable exactly if none of their counts is below zero.
pub proof fn usable_rows_count_from_zero(rows: Seq<InstanceRow>)
    ensures
        rows_valid(rows) <==> forall|i: int|
            0 <= i < rows.len() ==> (#[trigger] rows[i]).evaluation_samples >= 0
                && rows[i].context_length >= 0,
{
}

/// A model enters the ranking as what it is, with how much more it costs than the cheapest and how
/// far apart the prices are: the cheapest costs nothing more, and the dearest the whole span.
pub proof fn candidates_are_priced_among_all(
    candidates: Seq<ModelCandidate>,
    models: Seq<ModelRoutingData>,
    requested_tags: int,
    i: int,
    j: int,
)
    requires
        enters(candidates, models, requested_tags),
        forall|k: int|
            0 <= k < models.len() ==> 0 <= (#[trigger] models[k]).base_cost_per_1k_micro,
        0 <= i < models.len(),
        0 <= j < models.len(),
    ensures
        candidates.len() == models.len(),
        candidates[i].model_id == models[i].model_id,
        candidates[i].context_length == models[i].context_length,
        candidates[i].matching_tags == models[i].matching_tags,
        candidates[i].requested_tags == requested_tags,
        candidates[i].cost_above_least - candidates[j].cost_above_least
            == models[i].base_cost_per_1k_micro - models[j].base_cost_per_1k_micro,
        0 <= candidates[i].cost_above_least <= candidates[i].cost_span,
        candidates[i].cost_span == candidates[j].cost_span,
        exists|k: int| 0 <= k < models.len() && (#[trigger] candidates[k]).cost_above_least == 0,
        exists|k: int|
            0 <= k < models.len() && (#[trigger] candidates[k]).cost_above_least
                == candidates[k].cost_span,
{
    let (least, largest) = choose|least: int, largest: int|
        #[trigger] is_cost_range(models, least, largest) && forall|i: int|
            0 <= i < models.len() ==> is_candidate_of(
                #[trigger] candidates[i],
                models[i],
                requested_tags,
                least,
                largest,
            );
    assert(is_candidate_of(candidates[i], models[i], requested_tags, least, largest));
    assert(is_candidate_of(candidates[j], models[j], requested_tags, least, largest));
    let low = choose|k: int|
        0 <= k < models.len() && (#[trigger] models[k]).base_cost_per_1k_micro == least;
    let high = choose|k: int|
        0 <= k < models.len() && (#[trigger] models[k]).base_cost_per_1k_micro == largest;
    assert(is_candidate_of(candidates[low], models[low], requested_tags, least, largest));
    assert(is_candidate_of(candidates[high], models[high], requested_tags, least, largest));
    assert(candidates[low].cost_above_least == 0);
    assert(candidates[high].cost_above_least == candidates[high].cost_span);
}

} // verus!
