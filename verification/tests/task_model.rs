use mansa::client::db::client::{DBCollection, DATABASE, DATABASE_COLLECTIONS};
use mansa::commons::entity::Entity;
use mansa::commons::parsing_tasks::{ParsingTask, ParsingTaskParameters, ParsingTaskStatus};
use mansa::commons::social_network::SocialNetworkEnum;
use mansa::reddit::reddit_parsing_task::RedditParsingTask;

fn listing(thread: &str) -> ParsingTaskParameters {
    ParsingTaskParameters::Reddit(RedditParsingTask::ThreadNew {
        thread: thread.to_string(),
        after: None,
    })
}

#[test]
fn a_task_is_created_new_and_unstored() {
    let task = ParsingTask::new(listing("r/rust"), 1234);
    assert_eq!(task._id, None);
    assert_eq!(task.execution_time, 1234);
    assert_eq!(task.status, ParsingTaskStatus::New);
    assert_eq!(task.social_network, SocialNetworkEnum::Reddit);
    assert_eq!(task.action_type, "ThreadNew");
    assert_eq!(task.parameters, listing("r/rust"));
}

#[test]
fn a_post_task_is_labelled_post() {
    let post = ParsingTaskParameters::Reddit(RedditParsingTask::Post {
        thread: "r/rust".to_string(),
        id: Some("t3_abc".to_string()),
        update_number: 5,
    });
    assert_eq!(ParsingTask::new(post, 0).action_type, "Post");
}

#[test]
fn status_changes_that_are_allowed() {
    let new = ParsingTaskStatus::New;
    let processing = ParsingTaskStatus::Processing;
    let processed = ParsingTaskStatus::Processed;
    assert!(new.can_become(processing));
    assert!(processing.can_become(processed));
    assert!(processing.can_become(new));
}

#[test]
fn status_changes_that_are_not_allowed() {
    let new = ParsingTaskStatus::New;
    let processing = ParsingTaskStatus::Processing;
    let processed = ParsingTaskStatus::Processed;
    assert!(!new.can_become(new));
    assert!(!new.can_become(processed));
    assert!(!processing.can_become(processing));
    assert!(!processed.can_become(new));
    assert!(!processed.can_become(processing));
    assert!(!processed.can_become(processed));
}

#[test]
fn a_processed_task_went_through_processing() {
    let all = ParsingTaskStatus::iter();
    for before in all.iter() {
        if before.can_become(ParsingTaskStatus::Processed) {
            assert_eq!(*before, ParsingTaskStatus::Processing);
        }
    }
}

#[test]
fn status_names() {
    assert_eq!(ParsingTaskStatus::New.to_string(), "New");
    assert_eq!(ParsingTaskStatus::Processing.to_string(), "Processing");
    assert_eq!(ParsingTaskStatus::Processed.to_string(), "Processed");
    assert_eq!(
        ParsingTaskStatus::iter(),
        vec![ParsingTaskStatus::New, ParsingTaskStatus::Processing, ParsingTaskStatus::Processed]
    );
}

#[test]
fn network_names() {
    assert_eq!(SocialNetworkEnum::Reddit.to_string(), "Reddit");
    assert_eq!(SocialNetworkEnum::Twitter.to_string(), "Twitter");
    assert_eq!(
        SocialNetworkEnum::iter(),
        vec![SocialNetworkEnum::Reddit, SocialNetworkEnum::Twitter]
    );
}

#[test]
fn parameters_give_their_reddit_part() {
    let parameters = listing("r/rust");
    let expected = RedditParsingTask::ThreadNew { thread: "r/rust".to_string(), after: None };
    assert_eq!(parameters.as_ref_reddit(), &expected);
    assert_eq!(parameters.as_reddit(), expected);
}

#[test]
fn clone_of_a_stored_task_equals_it() {
    let mut task = ParsingTask::new(listing("r/rust"), 77);
    task._id = Some(mongodb::bson::oid::ObjectId::from_bytes([7u8; 12]));
    task.status = ParsingTaskStatus::Processing;
    assert_eq!(task.clone(), task);
}

#[test]
fn database_and_collection_names() {
    assert_eq!(DATABASE::MANSA.to_string(), "MANSA");
    assert_eq!(DATABASE_COLLECTIONS::ENTITIES.to_string(), "ENTITIES");
    assert_eq!(DATABASE_COLLECTIONS::PARSING_TASKS.to_string(), "PARSING_TASKS");
    assert_eq!(<ParsingTask as DBCollection>::get_collection(), "PARSING_TASKS");
    assert_eq!(<Entity as DBCollection>::get_collection(), "ENTITIES");
}
