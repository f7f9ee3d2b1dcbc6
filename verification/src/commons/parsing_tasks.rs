use vstd::prelude::*;
use vstd::string::*;
use mongodb::bson::oid::ObjectId;
use crate::client::db::client::{DBCollection, DATABASE_COLLECTIONS};
use crate::commons::social_network::SocialNetworkEnum;
use crate::reddit::reddit_parsing_task::{RedditParsingTask, RedditParsingTaskView};

verus! {

/// Where a task stands in its life.
#[derive(Debug, Clone, Copy, PartialEq, Eq, Hash, Structural)]
pub enum ParsingTaskStatus {
    New,
    Processing,
    Processed,
}

impl ParsingTaskStatus {
    /// The status as the store writes it.
    pub open spec fn spec_name(self) -> Seq<char> {
        match self {
            ParsingTaskStatus::New => "New"@,
            ParsingTaskStatus::Processing => "Processing"@,
            ParsingTaskStatus::Processed => "Processed"@,
        }
    }

    pub open spec fn spec_all() -> Seq<ParsingTaskStatus> {
        seq![ParsingTaskStatus::New, ParsingTaskStatus::Processing, ParsingTaskStatus::Processed]
    }

    /// The status changes a task can go through: dispatch takes a new task into
    /// processing, and processing ends in success or hands the task back.
    pub open spec fn may_become(self, next: ParsingTaskStatus) -> bool {
        match (self, next) {
            (ParsingTaskStatus::New, ParsingTaskStatus::Processing) => true,
            (ParsingTaskStatus::Processing, ParsingTaskStatus::Processed) => true,
            (ParsingTaskStatus::Processing, ParsingTaskStatus::New) => true,
            _ => false,
        }
    }

    pub fn to_string(&self) -> (name: String)
        ensures
            name@ == self.spec_name(),
    {
        match self {
            ParsingTaskStatus::New => String::from_str("New"),
            ParsingTaskStatus::Processing => String::from_str("Processing"),
            ParsingTaskStatus::Processed => String::from_str("Processed"),
        }
    }

    pub fn iter() -> (all: Vec<ParsingTaskStatus>)
        ensures
            all@ == Self::spec_all(),
    {
        let all = vec![
            ParsingTaskStatus::New,
            ParsingTaskStatus::Processing,
            ParsingTaskStatus::Processed,
        ];
        assert(all@ =~= Self::spec_all());
        all
    }

    /// Whether a task in this status may be moved to `next`.
    pub fn can_become(&self, next: ParsingTaskStatus) -> (allowed: bool)
        ensures
            allowed == self.may_become(next),
    {
        match (*self, next) {
            (ParsingTaskStatus::New, ParsingTaskStatus::Processing) => true,
            (ParsingTaskStatus::Processing, ParsingTaskStatus::Processed) => true,
            (ParsingTaskStatus::Processing, ParsingTaskStatus::New) => true,
            _ => false,
        }
    }
}

/// The statuses one task has been seen in, oldest first: it starts new, and
/// each entry follows from the one before by an allowed change.
pub open spec fn is_status_history(history: Seq<ParsingTaskStatus>) -> bool {
    &&& history.len() > 0
    &&& history[0] == ParsingTaskStatus::New
    &&& forall|i: int| 0 < i < history.len() ==> (#[trigger] history[i - 1]).may_become(history[i])
}

/// A task that is processed was in processing before: the entry just ahead of
/// a processed one is a processing one.
pub proof fn lemma_processed_was_processing(history: Seq<ParsingTaskStatus>, at: int)
    requires
        is_status_history(history),
        0 <= at < history.len(),
        history[at] == ParsingTaskStatus::Processed,
    ensures
        at > 0,
        history[at - 1] == ParsingTaskStatus::Processing,
        exists|before: int| 0 <= before < at && history[before] == ParsingTaskStatus::Processing,
{
    assert(history[at - 1].may_become(history[at]));
}

/// Processed is final: no status follows it, so a history holds it only as
/// its last entry.
pub proof fn lemma_processed_is_terminal(history: Seq<ParsingTaskStatus>, at: int)
    requires
        is_status_history(history),
        0 <= at < history.len(),
        history[at] == ParsingTaskStatus::Processed,
    ensures
        forall|next: ParsingTaskStatus| !ParsingTaskStatus::Processed.may_become(next),
        at == history.len() - 1,
{
    if at + 1 < history.len() {
        assert(history[at + 1 - 1].may_become(history[at + 1]));
    }
}

/// The network-specific part of a task.
#[derive(Debug, PartialEq, Eq, Hash)]
pub enum ParsingTaskParameters {
    Reddit(RedditParsingTask),
}

/// Mathematical content of [`ParsingTaskParameters`].
pub enum ParsingTaskParametersView {
    Reddit(RedditParsingTaskView),
}

impl ParsingTaskParametersView {
    /// The discriminant that a task carries as its action type.
    pub open spec fn name(self) -> Seq<char> {
        match self {
            ParsingTaskParametersView::Reddit(parameters) => parameters.name(),
        }
    }

    /// The network the parameters are meant for.
    pub open spec fn social_network(self) -> SocialNetworkEnum {
        match self {
            ParsingTaskParametersView::Reddit(_) => SocialNetworkEnum::Reddit,
        }
    }

    pub open spec fn reddit(self) -> RedditParsingTaskView {
        match self {
            ParsingTaskParametersView::Reddit(parameters) => parameters,
        }
    }
}

impl View for ParsingTaskParameters {
    type V = ParsingTaskParametersView;

    open spec fn view(&self) -> ParsingTaskParametersView {
        match *self {
            ParsingTaskParameters::Reddit(parameters) => ParsingTaskParametersView::Reddit(
                parameters@,
            ),
        }
    }
}

impl DeepView for ParsingTaskParameters {
    type V = ParsingTaskParametersView;

    open spec fn deep_view(&self) -> ParsingTaskParametersView {
        self@
    }
}

impl Clone for ParsingTaskParameters {
    fn clone(&self) -> (copy: Self)
        ensures
            copy == *self,
            copy@ == self@,
    {
        match self {
            ParsingTaskParameters::Reddit(parameters) => ParsingTaskParameters::Reddit(
                parameters.clone(),
            ),
        }
    }
}

impl ParsingTaskParameters {
    pub fn as_reddit(self) -> (parameters: RedditParsingTask)
        ensures
            parameters == self->Reddit_0,
            parameters@ == self@.reddit(),
    {
        match self {
            ParsingTaskParameters::Reddit(reddit_parameters) => reddit_parameters,
        }
    }

    pub fn as_ref_reddit(&self) -> (parameters: &RedditParsingTask)
        ensures
            *parameters == self->Reddit_0,
            parameters@ == self@.reddit(),
    {
        match self {
            ParsingTaskParameters::Reddit(reddit_parameters) => reddit_parameters,
        }
    }
}

/// One fetch to perform, as the task store keeps it.
#[derive(Debug, PartialEq, Eq, Hash)]
pub struct ParsingTask {
    pub _id: Option<ObjectId>,
    pub execution_time: u64,
    pub parameters: ParsingTaskParameters,
    pub action_type: String,
    pub social_network: SocialNetworkEnum,
    pub status: ParsingTaskStatus,
}

/// Mathematical content of a [`ParsingTask`].
pub struct ParsingTaskView {
    pub id: Option<ObjectId>,
    pub execution_time: u64,
    pub parameters: ParsingTaskParametersView,
    pub action_type: Seq<char>,
    pub social_network: SocialNetworkEnum,
    pub status: ParsingTaskStatus,
}

impl ParsingTaskView {
    /// A task as it is created: not stored yet, new, and labelled by what it
    /// asks for.
    pub open spec fn created(parameters: ParsingTaskParametersView, execution_time: u64)
        -> ParsingTaskView {
        ParsingTaskView {
            id: None,
            execution_time,
            parameters,
            action_type: parameters.name(),
            social_network: parameters.social_network(),
            status: ParsingTaskStatus::New,
        }
    }

    /// The action type and the network agree with the parameters.
    pub open spec fn well_formed(self) -> bool {
        &&& self.action_type == self.parameters.name()
        &&& self.social_network == self.parameters.social_network()
    }

}

impl View for ParsingTask {
    type V = ParsingTaskView;

    open spec fn view(&self) -> ParsingTaskView {
        ParsingTaskView {
            id: self._id,
            execution_time: self.execution_time,
            parameters: self.parameters@,
            action_type: self.action_type@,
            social_network: self.social_network,
            status: self.status,
        }
    }
}

impl DeepView for ParsingTask {
    type V = ParsingTaskView;

    open spec fn deep_view(&self) -> ParsingTaskView {
        self@
    }
}

impl Clone for ParsingTask {
    fn clone(&self) -> (copy: Self)
        ensures
            copy == *self,
            copy@ == self@,
    {
        ParsingTask {
            _id: self._id,
            execution_time: self.execution_time,
            parameters: self.parameters.clone(),
            action_type: self.action_type.clone(),
            social_network: self.social_network,
            status: self.status,
        }
    }
}

impl ParsingTask {
    /// A fresh task for `parameters`, due at `execution_time`.
    pub fn new(parameters: ParsingTaskParameters, execution_time: u64) -> (task: ParsingTask)
        ensures
            task@ == ParsingTaskView::created(parameters@, execution_time),
            task@.well_formed(),
    {
        let action_type = match &parameters {
            ParsingTaskParameters::Reddit(reddit_parameters) => reddit_parameters.to_string(),
        };
        ParsingTask {
            _id: None,
            execution_time,
            parameters,
            action_type,
            social_network: SocialNetworkEnum::Reddit,
            status: ParsingTaskStatus::New,
        }
    }
}

impl DBCollection for ParsingTask {
    open spec fn spec_collection() -> DATABASE_COLLECTIONS {
        DATABASE_COLLECTIONS::PARSING_TASKS
    }

    fn get_collection() -> (name: String) {
        DATABASE_COLLECTIONS::PARSING_TASKS.to_string()
    }
}

} // verus!
