use vstd::prelude::*;
use mongodb::bson::oid::ObjectId;
use crate::client::db::tasks_db::{
    get_tasks_sorted_by_exec_time,
    spec_task_fetch,
    Limit,
    TaskFetch,
};
use crate::client::settings::Settings;
use crate::commons::parsing_tasks::{ParsingTask, ParsingTaskStatus, ParsingTaskView};
use crate::commons::social_network::{spec_registered, SettingsError, SocialNetworks};
use crate::reddit::reddit::spec_prepare_parsing_tasks;

verus! {

/// How a publisher begins.
#[derive(Debug, Clone, Copy, PartialEq, Eq, Structural)]
pub enum TaskPublisherMod {
    /// With the tasks that an earlier run left in processing.
    Recovery,
    /// With the seeds of the settings.
    Manual,
}

/// The pause between two rounds of publishing, in milliseconds.
pub const PUBLISH_PAUSE: u64 = 1000;

/// The number of tasks that are published side by side.
pub const PUBLISH_CONCURRENCY: usize = 8;

/// What keeps the seeds of the settings from being read.
#[derive(Debug, Clone, Copy, PartialEq, Eq, Structural)]
pub enum SeedsError {
    /// The settings hold a network that has no handler.
    NoSuchSocialNetwork,
    /// A handler cannot work with the settings.
    Settings(SettingsError),
}

/// One task on its way to the workers: first `status` is written to the
/// stored task `id`, then `task` is sent.
#[derive(Debug, PartialEq, Eq)]
pub struct Publication {
    pub id: ObjectId,
    pub status: ParsingTaskStatus,
    pub task: ParsingTask,
}

/// What a publisher has under way.
#[derive(Debug, Clone, Copy, PartialEq, Eq, Structural)]
pub enum PublisherState {
    /// Nothing yet.
    Created,
    /// The insertion of the seeds.
    Seeding,
    /// The fetch of the tasks left in processing.
    Recovering,
    /// The publication of the tasks left in processing.
    PublishingRecovered,
    /// The fetch of new tasks.
    Fetching,
    /// The publication of new tasks.
    Publishing,
    /// The pause after a round.
    Sleeping,
}

/// What a publisher asks its caller to do next.
#[derive(Debug)]
pub enum PublisherAction {
    /// Insert the tasks into the task store.
    Insert(Vec<ParsingTask>),
    /// Make the fetch, and hand back what it brought.
    Fetch(TaskFetch),
    /// Publish each task, in this order.
    Publish(Vec<Publication>),
    /// Pause for so many milliseconds.
    Sleep(u64),
    /// Give up: the seeds cannot be read.
    Fail(SeedsError),
}

/// Moves tasks from the task store to the workers: at first the seeds or the
/// tasks of an interrupted run, then, round after round, the new tasks that
/// are due.
#[derive(Debug)]
pub struct TaskPublisher {
    limit: u64,
    startup_mod: TaskPublisherMod,
    settings: Settings,
}

/// The tasks that the handlers make of the seeds of the first `upto` networks
/// of the settings; the error of the first network that has one.
pub open spec fn spec_settings_tasks(settings: Settings, upto: int, now: u64) -> Result<
    Seq<ParsingTaskView>,
    SeedsError,
>
    decreases upto,
{
    if upto <= 0 {
        Ok(Seq::empty())
    } else {
        match spec_settings_tasks(settings, upto - 1, now) {
            Err(error) => Err(error),
            Ok(before) => if !spec_registered(
                settings.social_network_settings@[upto - 1].social_network,
            ) {
                Err(SeedsError::NoSuchSocialNetwork)
            } else {
                match spec_prepare_parsing_tasks(settings, now) {
                    Err(error) => Err(SeedsError::Settings(error)),
                    Ok(tasks) => Ok(before + tasks),
                }
            },
        }
    }
}

/// The state that follows `state`.
pub open spec fn spec_next_state(startup_mod: TaskPublisherMod, state: PublisherState)
    -> PublisherState {
    match state {
        PublisherState::Created => match startup_mod {
            TaskPublisherMod::Manual => PublisherState::Seeding,
            TaskPublisherMod::Recovery => PublisherState::Recovering,
        },
        PublisherState::Seeding => PublisherState::Fetching,
        PublisherState::Recovering => PublisherState::PublishingRecovered,
        PublisherState::PublishingRecovered => PublisherState::Fetching,
        PublisherState::Fetching => PublisherState::Publishing,
        PublisherState::Publishing => PublisherState::Sleeping,
        PublisherState::Sleeping => PublisherState::Fetching,
    }
}

/// Every task is in the store: it has the identifier that the store gave it.
pub open spec fn spec_all_stored(tasks: Seq<ParsingTask>) -> bool {
    forall|i: int| 0 <= i < tasks.len() ==> (#[trigger] tasks[i])._id is Some
}

/// `publications` publish `tasks`, one for one and in order, each moving its
/// task to processing.
pub open spec fn spec_publishes(publications: Seq<Publication>, tasks: Seq<ParsingTask>) -> bool {
    &&& publications.len() == tasks.len()
    &&& forall|i: int|
        0 <= i < tasks.len() ==> {
            &&& (#[trigger] publications[i]).id == tasks[i]._id->0
            &&& publications[i].status == ParsingTaskStatus::Processing
            &&& publications[i].task == tasks[i]
        }
}

impl TaskPublisher {
    #[verifier::type_invariant]
    spec fn holds_a_task(self) -> bool {
        self.limit > 0
    }

    pub closed spec fn spec_limit(&self) -> u64 {
        self.limit
    }

    pub closed spec fn spec_startup_mod(&self) -> TaskPublisherMod {
        self.startup_mod
    }

    pub closed spec fn spec_settings(&self) -> Settings {
        self.settings
    }

    /// A publisher that brings at most `limit` tasks per fetch and feeds a
    /// channel that holds as many.
    pub fn new(task_publisher_mod: TaskPublisherMod, settings: Settings, limit: u64) -> (publisher:
        TaskPublisher)
        requires
            limit > 0,
        ensures
            publisher.spec_limit() == limit,
            publisher.spec_startup_mod() == task_publisher_mod,
            publisher.spec_settings() == settings,
    {
        TaskPublisher { limit, startup_mod: task_publisher_mod, settings }
    }

    /// Whether every task is in the store, as a publication asks of the
    /// tasks that it publishes.
    pub fn all_stored(tasks: &Vec<ParsingTask>) -> (all: bool)
        ensures
            all == spec_all_stored(tasks@),
    {
        let mut at: usize = 0;
        while at < tasks.len()
            invariant
                at <= tasks@.len(),
                forall|i: int| 0 <= i < at ==> (#[trigger] tasks@[i])._id is Some,
            decreases tasks@.len() - at,
        {
            if tasks[at]._id.is_none() {
                return false;
            }
            at = at + 1;
        }
        true
    }

    /// The number of tasks that the channel to the workers holds: the limit,
    /// or the largest size there is where the limit is beyond it.
    pub fn channel_capacity(&self) -> (capacity: usize)
        ensures
            capacity == if self.spec_limit() <= usize::MAX {
                self.spec_limit() as usize
            } else {
                usize::MAX
            },
    {
        if self.limit <= usize::MAX as u64 {
            self.limit as usize
        } else {
            usize::MAX
        }
    }

    /// The publication of `tasks`: each is moved to processing in the store
    /// and then sent, task by task.
    pub fn push_tasks(tasks: Vec<ParsingTask>) -> (publications: Vec<Publication>)
        requires
            spec_all_stored(tasks@),
        ensures
            spec_publishes(publications@, tasks@),
    {
        let mut rest = crate::utils::list::reversed(tasks);
        let mut publications: Vec<Publication> = Vec::new();
        while rest.len() > 0
            invariant
                spec_all_stored(tasks@),
                rest@.len() + publications@.len() == tasks@.len(),
                forall|i: int|
                    0 <= i < rest@.len() ==> #[trigger] rest@[i] == tasks@[tasks@.len() - 1 - i],
                forall|i: int|
                    0 <= i < publications@.len() ==> {
                        &&& (#[trigger] publications@[i]).id == tasks@[i]._id->0
                        &&& publications@[i].status == ParsingTaskStatus::Processing
                        &&& publications@[i].task == tasks@[i]
                    },
            decreases rest@.len(),
        {
            let task = rest.pop().unwrap();
            assert(task == tasks@[publications@.len() as int]);
            match task._id {
                Some(id) => {
                    publications.push(
                        Publication { id, status: ParsingTaskStatus::Processing, task },
                    );
                },
                None => {},
            }
        }
        publications
    }

    /// The fetch of the tasks in `statuses` that are due at `now`, at most as
    /// many as the limit allows.
    pub fn fetch_tasks(&self, statuses: Vec<ParsingTaskStatus>, now: u64) -> (fetch: TaskFetch)
        ensures
            spec_task_fetch(statuses@, Limit::Limit(self.spec_limit()), now) == Some(fetch@),
    {
        proof {
            use_type_invariant(self);
        }
        match get_tasks_sorted_by_exec_time(statuses, Limit::Limit(self.limit), now) {
            Some(fetch) => fetch,
            None => TaskFetch { statuses: Vec::new(), execution_time_before: 0, limit: None },
        }
    }

    /// The fetch of the new tasks that are due at `now`.
    pub fn fetch(&self, now: u64) -> (fetch: TaskFetch)
        ensures
            spec_task_fetch(
                seq![ParsingTaskStatus::New],
                Limit::Limit(self.spec_limit()),
                now,
            ) == Some(fetch@),
    {
        let statuses = vec![ParsingTaskStatus::New];
        assert(statuses@ =~= seq![ParsingTaskStatus::New]);
        self.fetch_tasks(statuses, now)
    }

    /// The fetch of the tasks that an interrupted run left in processing.
    pub fn fetch_recovery(&self, now: u64) -> (fetch: TaskFetch)
        ensures
            spec_task_fetch(
                seq![ParsingTaskStatus::Processing],
                Limit::Limit(self.spec_limit()),
                now,
            ) == Some(fetch@),
    {
        let statuses = vec![ParsingTaskStatus::Processing];
        assert(statuses@ =~= seq![ParsingTaskStatus::Processing]);
        self.fetch_tasks(statuses, now)
    }

    /// The tasks that the handlers make of the seeds of the settings, network
    /// after network, all of them due at `now`.
    pub fn read_settings_tasks(&self, networks: &SocialNetworks, now: u64) -> (result: Result<
        Vec<ParsingTask>,
        SeedsError,
    >)
        ensures
            match result {
                Ok(tasks) => spec_settings_tasks(
                    self.spec_settings(),
                    self.spec_settings().social_network_settings@.len() as int,
                    now,
                ) == Ok::<Seq<ParsingTaskView>, SeedsError>(tasks.deep_view()),
                Err(error) => spec_settings_tasks(
                    self.spec_settings(),
                    self.spec_settings().social_network_settings@.len() as int,
                    now,
                ) == Err::<Seq<ParsingTaskView>, SeedsError>(error),
            },
    {
        let mut parsing_tasks: Vec<ParsingTask> = Vec::new();
        let entries = &self.settings.social_network_settings;
        let mut at: usize = 0;
        assert(parsing_tasks.deep_view() =~= Seq::empty());
        while at < entries.len()
            invariant
                *entries == self.settings.social_network_settings,
                at <= entries@.len(),
                spec_settings_tasks(self.settings, at as int, now) == Ok::<
                    Seq<ParsingTaskView>,
                    SeedsError,
                >(parsing_tasks.deep_view()),
            decreases entries@.len() - at,
        {
            let handler = match networks.get(entries[at].social_network) {
                Some(handler) => handler,
                None => {
                    proof {
                        lemma_seeds_error_stays(self.settings, at + 1, entries@.len() as int, now);
                    }
                    return Err(SeedsError::NoSuchSocialNetwork);
                },
            };
            match handler.prepare_parsing_tasks_at(&self.settings, now) {
                Ok(mut tasks) => {
                    let ghost before = parsing_tasks.deep_view();
                    let ghost these = tasks.deep_view();
                    parsing_tasks.append(&mut tasks);
                    assert(parsing_tasks.deep_view() =~= before + these);
                },
                Err(error) => {
                    proof {
                        lemma_seeds_error_stays(self.settings, at + 1, entries@.len() as int, now);
                    }
                    return Err(SeedsError::Settings(error));
                },
            }
            at = at + 1;
        }
        Ok(parsing_tasks)
    }

    /// What the publisher does once what it had under way in `state` is done.
    /// `fetched` is what a fetch brought, and counts only after a fetch.
    ///
    /// A publisher begins with the insertion of the seeds, or with the fetch
    /// of the tasks left in processing, which it publishes before it fetches
    /// any new task. From then on it fetches the new tasks that are due,
    /// publishes them, pauses for a second, and fetches again.
    pub fn next(
        &self,
        networks: &SocialNetworks,
        state: PublisherState,
        fetched: Vec<ParsingTask>,
        now: u64,
    ) -> (step: (PublisherState, PublisherAction))
        requires
            state == PublisherState::Recovering || state == PublisherState::Fetching
                ==> spec_all_stored(fetched@),
        ensures
            step.0 == spec_next_state(self.spec_startup_mod(), state),
            match step.0 {
                PublisherState::Seeding => match spec_settings_tasks(
                    self.spec_settings(),
                    self.spec_settings().social_network_settings@.len() as int,
                    now,
                ) {
                    Ok(tasks) => step.1 matches PublisherAction::Insert(seeds)
                        && seeds.deep_view() == tasks,
                    Err(error) => step.1 matches PublisherAction::Fail(reason) && reason == error,
                },
                PublisherState::Recovering => step.1 matches PublisherAction::Fetch(fetch)
                    && spec_task_fetch(
                    seq![ParsingTaskStatus::Processing],
                    Limit::Limit(self.spec_limit()),
                    now,
                ) == Some(fetch@),
                PublisherState::Fetching => step.1 matches PublisherAction::Fetch(fetch)
                    && spec_task_fetch(
                    seq![ParsingTaskStatus::New],
                    Limit::Limit(self.spec_limit()),
                    now,
                ) == Some(fetch@),
                PublisherState::PublishingRecovered | PublisherState::Publishing => step.1 matches PublisherAction::Publish(
                    publications,
                ) && spec_publishes(publications@, fetched@),
                PublisherState::Sleeping => step.1 matches PublisherAction::Sleep(millis) && millis
                    == PUBLISH_PAUSE,
                PublisherState::Created => false,
            },
    {
        match state {
            PublisherState::Created => match self.startup_mod {
                TaskPublisherMod::Manual => match self.read_settings_tasks(networks, now) {
                    Ok(tasks) => (PublisherState::Seeding, PublisherAction::Insert(tasks)),
                    Err(error) => (PublisherState::Seeding, PublisherAction::Fail(error)),
                },
                TaskPublisherMod::Recovery => (
                    PublisherState::Recovering,
                    PublisherAction::Fetch(self.fetch_recovery(now)),
                ),
            },
            PublisherState::Seeding => (
                PublisherState::Fetching,
                PublisherAction::Fetch(self.fetch(now)),
            ),
            PublisherState::Recovering => (
                PublisherState::PublishingRecovered,
                PublisherAction::Publish(TaskPublisher::push_tasks(fetched)),
            ),
            PublisherState::PublishingRecovered => (
                PublisherState::Fetching,
                PublisherAction::Fetch(self.fetch(now)),
            ),
            PublisherState::Fetching => (
                PublisherState::Publishing,
                PublisherAction::Publish(TaskPublisher::push_tasks(fetched)),
            ),
            PublisherState::Publishing => (
                PublisherState::Sleeping,
                PublisherAction::Sleep(PUBLISH_PAUSE),
            ),
            PublisherState::Sleeping => (
                PublisherState::Fetching,
                PublisherAction::Fetch(self.fetch(now)),
            ),
        }
    }
}

/// Once the seeds of the first networks have an error, the seeds of all
/// networks have it.
proof fn lemma_seeds_error_stays(settings: Settings, upto: int, all: int, now: u64)
    requires
        0 <= upto <= all,
        spec_settings_tasks(settings, upto, now) is Err,
    ensures
        spec_settings_tasks(settings, all, now) == spec_settings_tasks(settings, upto, now),
    decreases all - upto,
{
    if upto < all {
        lemma_seeds_error_stays(settings, upto, all - 1, now);
    }
}

/// Publishing moves a new task to processing, which a new task may become;
/// and it writes to a task left in processing the status that the task has
/// already, so that a recovery changes no status in the store.
pub proof fn lemma_publication_status(publications: Seq<Publication>, tasks: Seq<ParsingTask>, i: int)
    requires
        spec_publishes(publications, tasks),
        0 <= i < tasks.len(),
    ensures
        tasks[i].status == ParsingTaskStatus::New ==> tasks[i].status.may_become(
            publications[i].status,
        ),
        tasks[i].status == ParsingTaskStatus::Processing ==> publications[i].status
            == tasks[i].status,
{
}

/// What a publisher is built from.
#[derive(Debug)]
pub struct TaskPublisherBuilder {
    limit: u64,
    startup_mod: TaskPublisherMod,
    settings: Settings,
}

impl TaskPublisherBuilder {
    pub closed spec fn spec_limit(&self) -> u64 {
        self.limit
    }

    pub closed spec fn spec_startup_mod(&self) -> TaskPublisherMod {
        self.startup_mod
    }

    pub closed spec fn spec_settings(&self) -> Settings {
        self.settings
    }

    pub fn new(startup_mode: TaskPublisherMod, settings: Settings, limit: u64) -> (builder:
        TaskPublisherBuilder)
        ensures
            builder.spec_limit() == limit,
            builder.spec_startup_mod() == startup_mode,
            builder.spec_settings() == settings,
    {
        TaskPublisherBuilder { startup_mod: startup_mode, settings, limit }
    }

    /// Whether a publisher can be built: its channel has to hold a task.
    pub fn can_build(&self) -> (possible: bool)
        ensures
            possible == (self.spec_limit() > 0),
    {
        self.limit > 0
    }

    pub fn build(self) -> (publisher: TaskPublisher)
        requires
            self.spec_limit() > 0,
        ensures
            publisher.spec_limit() == self.spec_limit(),
            publisher.spec_startup_mod() == self.spec_startup_mod(),
            publisher.spec_settings() == self.spec_settings(),
    {
        TaskPublisher::new(self.startup_mod, self.settings, self.limit)
    }
}

} // verus!
