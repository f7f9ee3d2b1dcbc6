use vstd::prelude::*;
use vstd::string::*;
use mongodb::bson::oid::ObjectId;
use crate::client::db::client::{
    insert_if_not_empty,
    GroupBoundaries,
    Insertion,
    DATABASE,
    DATABASE_COLLECTIONS,
};
use crate::commons::parsing_tasks::{ParsingTask, ParsingTaskStatus};
use crate::commons::social_network::{NetworkMap, SocialNetworkEnum};
use crate::utils::list::reversed;

verus! {

/// How many tasks a fetch may bring.
#[derive(Debug, Clone, Copy, PartialEq, Eq, Structural)]
pub enum Limit {
    Limit(u64),
    NoLimit,
}

/// The number of buckets that a grouped fetch asks the store for.
pub const GROUPED_FETCH_BUCKETS: u64 = 100;

/// A number as the store takes it: itself where sixty-three bits hold it,
/// and the largest such number otherwise.
pub open spec fn spec_store_number(value: u64) -> i64 {
    if value <= i64::MAX {
        value as i64
    } else {
        i64::MAX
    }
}

pub fn store_number(value: u64) -> (number: i64)
    ensures
        number == spec_store_number(value),
{
    if value <= 9223372036854775807 {
        value as i64
    } else {
        i64::MAX
    }
}

/// One fetch from the task store, made as one pipeline: the tasks in one of
/// `statuses` that are due before `execution_time_before`, by ascending
/// execution time, and of these the first `limit` where there is a limit.
#[derive(Debug, Clone, PartialEq, Eq)]
pub struct TaskFetch {
    pub statuses: Vec<String>,
    pub execution_time_before: i64,
    pub limit: Option<i64>,
}

/// Mathematical content of a [`TaskFetch`].
pub struct TaskFetchView {
    pub statuses: Seq<Seq<char>>,
    pub execution_time_before: i64,
    pub limit: Option<i64>,
}

impl View for TaskFetch {
    type V = TaskFetchView;

    open spec fn view(&self) -> TaskFetchView {
        TaskFetchView {
            statuses: self.statuses.deep_view(),
            execution_time_before: self.execution_time_before,
            limit: self.limit,
        }
    }
}

/// The fetch for tasks in `statuses` that are due at `now`. A limit of zero
/// leaves nothing to fetch.
pub open spec fn spec_task_fetch(statuses: Seq<ParsingTaskStatus>, limit: Limit, now: u64)
    -> Option<TaskFetchView> {
    if limit == Limit::Limit(0) {
        None
    } else {
        Some(
            TaskFetchView {
                statuses: Seq::new(statuses.len(), |i: int| statuses[i].spec_name()),
                execution_time_before: spec_store_number(now),
                limit: match limit {
                    Limit::Limit(number) => Some(spec_store_number(number)),
                    Limit::NoLimit => None,
                },
            },
        )
    }
}

/// A status to write to the stored tasks with the given identifiers. A task
/// that is not in the store is passed over.
#[derive(Debug, Clone, PartialEq, Eq)]
pub struct StatusUpdate {
    pub ids: Vec<ObjectId>,
    pub status: ParsingTaskStatus,
}

/// The fetch of the new tasks that are due, by ascending execution time,
/// sorted into buckets by network.
#[derive(Debug, Clone, Copy, PartialEq, Eq, Structural)]
pub struct GroupedFetch {
    pub status: ParsingTaskStatus,
    pub execution_time_before: i64,
    pub buckets: u64,
}

/// One bucket of a grouped fetch.
#[derive(Debug, Clone, PartialEq, Eq)]
pub struct GroupedTasks {
    pub _id: GroupBoundaries<SocialNetworkEnum>,
    pub tasks: Vec<ParsingTask>,
}

/// The tasks of the buckets by the network that each bucket begins with.
/// Where two buckets begin with one network, the later one counts.
pub open spec fn spec_buckets_by_network(buckets: Seq<GroupedTasks>) -> NetworkMap<
    Vec<ParsingTask>,
>
    decreases buckets.len(),
{
    if buckets.len() == 0 {
        NetworkMap { reddit: None, twitter: None }
    } else {
        spec_buckets_by_network(buckets.drop_last()).spec_with(
            buckets.last()._id.min,
            Some(buckets.last().tasks),
        )
    }
}

impl GroupedTasks {
    pub fn to_hashmap(vec: Vec<GroupedTasks>) -> (map: NetworkMap<Vec<ParsingTask>>)
        ensures
            map == spec_buckets_by_network(vec@),
    {
        let mut map: NetworkMap<Vec<ParsingTask>> = NetworkMap::new();
        let mut rest = reversed(vec);
        let ghost mut done: int = 0;
        assert(vec@.take(0) =~= Seq::empty());
        assert(map == spec_buckets_by_network(vec@.take(0)));
        while rest.len() > 0
            invariant
                0 <= done <= vec@.len(),
                rest@.len() == vec@.len() - done,
                forall|i: int| 0 <= i < rest@.len() ==> #[trigger] rest@[i] == vec@[vec@.len() - 1 - i],
                map == spec_buckets_by_network(vec@.take(done)),
            decreases rest@.len(),
        {
            let bucket = rest.pop().unwrap();
            assert(bucket == vec@[done]);
            map.insert(bucket._id.min, bucket.tasks);
            proof {
                done = done + 1;
                assert(vec@.take(done).drop_last() =~= vec@.take(done - 1));
                assert(vec@.take(done).last() == bucket);
            }
        }
        assert(vec@.take(done) =~= vec@);
        map
    }
}

/// The insertion of `tasks` into the task store; none where there are no tasks.
pub fn insert_tasks(tasks: Vec<ParsingTask>) -> (insertion: Option<Insertion<ParsingTask>>)
    ensures
        tasks@.len() == 0 ==> insertion is None,
        tasks@.len() > 0 ==> insertion == Some(
            Insertion {
                database: DATABASE::MANSA,
                collection: DATABASE_COLLECTIONS::PARSING_TASKS,
                documents: tasks,
            },
        ),
{
    insert_if_not_empty(tasks, DATABASE::MANSA, DATABASE_COLLECTIONS::PARSING_TASKS)
}

/// The write of `status` to the stored task `id`.
pub fn update_task_with_status(id: ObjectId, status: ParsingTaskStatus) -> (update: StatusUpdate)
    ensures
        update.ids@ == seq![id],
        update.status == status,
{
    let ids = vec![id];
    assert(ids@ =~= seq![id]);
    StatusUpdate { ids, status }
}

/// The write of `status` to the stored tasks `ids`.
pub fn update_tasks_with_status(ids: Vec<ObjectId>, status: ParsingTaskStatus) -> (update:
    StatusUpdate)
    ensures
        update.ids == ids,
        update.status == status,
{
    StatusUpdate { ids, status }
}

/// The fetch for the tasks in one of `statuses` that are due at `now`, or
/// `None` where the limit is zero: the answer is empty then, and the store is
/// not asked.
pub fn get_tasks_sorted_by_exec_time(statuses: Vec<ParsingTaskStatus>, limit: Limit, now: u64) -> (fetch:
    Option<TaskFetch>)
    ensures
        match fetch {
            Some(fetch) => spec_task_fetch(statuses@, limit, now) == Some(fetch@),
            None => spec_task_fetch(statuses@, limit, now) is None,
        },
        limit == Limit::Limit(0) ==> fetch is None,
{
    let limit = match limit {
        Limit::Limit(number) => {
            if number == 0 {
                return None;
            }
            Some(store_number(number))
        },
        Limit::NoLimit => None,
    };
    let mut names: Vec<String> = Vec::new();
    let mut at: usize = 0;
    while at < statuses.len()
        invariant
            at <= statuses@.len(),
            names@.len() == at,
            forall|i: int| 0 <= i < at ==> (#[trigger] names@[i])@ == statuses@[i].spec_name(),
        decreases statuses@.len() - at,
    {
        names.push(statuses[at].to_string());
        at = at + 1;
    }
    let fetch = TaskFetch { statuses: names, execution_time_before: store_number(now), limit };
    assert(fetch@.statuses =~= Seq::new(statuses@.len(), |i: int| statuses@[i].spec_name()));
    Some(fetch)
}

/// The grouped fetch of the new tasks that are due at `now`.
pub fn get_tasks_grouped_by_social_network(now: u64) -> (fetch: GroupedFetch)
    ensures
        fetch == (GroupedFetch {
            status: ParsingTaskStatus::New,
            execution_time_before: spec_store_number(now),
            buckets: GROUPED_FETCH_BUCKETS,
        }),
{
    GroupedFetch {
        status: ParsingTaskStatus::New,
        execution_time_before: store_number(now),
        buckets: GROUPED_FETCH_BUCKETS,
    }
}

} // verus!
