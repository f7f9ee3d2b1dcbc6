use mansa::client::db::client::{
    insert_if_not_empty, GroupBoundaries, Insertion, DATABASE, DATABASE_COLLECTIONS,
};
use mansa::client::db::entities_db::{insert_entities, insert_with_replace};
use mansa::client::db::tasks_db::{
    get_tasks_grouped_by_social_network, get_tasks_sorted_by_exec_time, insert_tasks,
    store_number, update_task_with_status, update_tasks_with_status, GroupedFetch, GroupedTasks,
    Limit, StatusUpdate, TaskFetch,
};
use mansa::client::parser_v2::parser::{Admission, ParserThreadCounter};
use mansa::client::parser_v2::statistics::{
    one_less, one_more, Statistics, StatisticsSnapshot,
};
use mansa::commons::entity::{Entity, EntityType};
use mansa::commons::parsing_tasks::{ParsingTask, ParsingTaskParameters, ParsingTaskStatus};
use mansa::commons::social_network::SocialNetworkEnum;
use mansa::reddit::reddit_parsing_task::RedditParsingTask;
use mansa::utils::list::reversed;
use mongodb::bson::oid::ObjectId;

fn task(thread: &str) -> ParsingTask {
    ParsingTask::new(
        ParsingTaskParameters::Reddit(RedditParsingTask::ThreadNew {
            thread: thread.to_string(),
            after: None,
        }),
        1,
    )
}

fn entity(id: &str, content: &str) -> Entity {
    Entity {
        _id: None,
        entity_type: EntityType::Post,
        date_time: 0,
        id: id.to_string(),
        source: String::new(),
        source_followers: None,
        author_id: None,
        title: None,
        content: Some(content.to_string()),
        author_name: None,
        social_network: SocialNetworkEnum::Reddit,
        rating: None,
        images: vec![],
    }
}

#[test]
fn fetch_with_limit_zero_brings_nothing() {
    for statuses in [
        vec![],
        vec![ParsingTaskStatus::New],
        vec![ParsingTaskStatus::New, ParsingTaskStatus::Processing, ParsingTaskStatus::Processed],
    ] {
        assert_eq!(get_tasks_sorted_by_exec_time(statuses, Limit::Limit(0), 123), None);
    }
}

#[test]
fn fetch_with_a_limit() {
    assert_eq!(
        get_tasks_sorted_by_exec_time(
            vec![ParsingTaskStatus::New, ParsingTaskStatus::Processing],
            Limit::Limit(10),
            1_700_000_000_000
        ),
        Some(TaskFetch {
            statuses: vec!["New".to_string(), "Processing".to_string()],
            execution_time_before: 1_700_000_000_000,
            limit: Some(10),
        })
    );
}

#[test]
fn fetch_without_a_limit() {
    assert_eq!(
        get_tasks_sorted_by_exec_time(vec![ParsingTaskStatus::Processed], Limit::NoLimit, 0),
        Some(TaskFetch {
            statuses: vec!["Processed".to_string()],
            execution_time_before: 0,
            limit: None,
        })
    );
}

#[test]
fn numbers_beyond_the_store_are_held_at_its_largest() {
    assert_eq!(store_number(0), 0);
    assert_eq!(store_number(i64::MAX as u64), i64::MAX);
    assert_eq!(store_number(i64::MAX as u64 + 1), i64::MAX);
    assert_eq!(store_number(u64::MAX), i64::MAX);
    let fetch =
        get_tasks_sorted_by_exec_time(vec![], Limit::Limit(u64::MAX), u64::MAX).unwrap();
    assert_eq!(fetch.limit, Some(i64::MAX));
    assert_eq!(fetch.execution_time_before, i64::MAX);
}

#[test]
fn grouped_fetch_asks_for_new_tasks_in_a_hundred_buckets() {
    assert_eq!(
        get_tasks_grouped_by_social_network(77),
        GroupedFetch { status: ParsingTaskStatus::New, execution_time_before: 77, buckets: 100 }
    );
}

#[test]
fn insert_of_nothing_is_no_insertion() {
    assert_eq!(insert_tasks(vec![]), None);
    assert_eq!(insert_entities(vec![]), None);
    assert_eq!(
        insert_if_not_empty(Vec::<u8>::new(), DATABASE::MANSA, DATABASE_COLLECTIONS::ENTITIES),
        None
    );
}

#[test]
fn insert_of_tasks_goes_to_the_task_collection() {
    let tasks = vec![task("r/a"), task("r/b")];
    assert_eq!(
        insert_tasks(tasks.clone()),
        Some(Insertion {
            database: DATABASE::MANSA,
            collection: DATABASE_COLLECTIONS::PARSING_TASKS,
            documents: tasks,
        })
    );
}

#[test]
fn insert_of_entities_goes_to_the_entity_collection() {
    let entities = vec![entity("t3_a", "x")];
    assert_eq!(
        insert_entities(entities.clone()),
        Some(Insertion {
            database: DATABASE::MANSA,
            collection: DATABASE_COLLECTIONS::ENTITIES,
            documents: entities,
        })
    );
}

#[test]
fn upserts_are_keyed_by_the_network_identifier() {
    let entities = vec![entity("t3_a", "one"), entity("t3_b", "two"), entity("t3_a", "three")];
    let upserts = insert_with_replace(entities.clone());
    assert_eq!(upserts.len(), 3);
    for (upsert, entity) in upserts.iter().zip(entities.iter()) {
        assert_eq!(upsert.id, entity.id);
        assert_eq!(&upsert.entity, entity);
    }
    assert_eq!(insert_with_replace(vec![]), vec![]);
    assert_eq!(insert_with_replace(entities.clone()), insert_with_replace(entities));
}

#[test]
fn status_updates() {
    let first = ObjectId::from_bytes([1u8; 12]);
    let second = ObjectId::from_bytes([2u8; 12]);
    assert_eq!(
        update_task_with_status(first, ParsingTaskStatus::Processing),
        StatusUpdate { ids: vec![first], status: ParsingTaskStatus::Processing }
    );
    assert_eq!(
        update_tasks_with_status(vec![first, second], ParsingTaskStatus::New),
        StatusUpdate { ids: vec![first, second], status: ParsingTaskStatus::New }
    );
    assert_eq!(
        update_tasks_with_status(vec![], ParsingTaskStatus::Processed),
        StatusUpdate { ids: vec![], status: ParsingTaskStatus::Processed }
    );
}

fn bucket(network: SocialNetworkEnum, threads: &[&str]) -> GroupedTasks {
    GroupedTasks {
        _id: GroupBoundaries { min: network, max: SocialNetworkEnum::Twitter },
        tasks: threads.iter().map(|thread| task(thread)).collect(),
    }
}

#[test]
fn buckets_by_network() {
    let map = GroupedTasks::to_hashmap(vec![
        bucket(SocialNetworkEnum::Reddit, &["r/a", "r/b"]),
        bucket(SocialNetworkEnum::Twitter, &["t/a"]),
    ]);
    assert_eq!(map.get(SocialNetworkEnum::Reddit), Some(&vec![task("r/a"), task("r/b")]));
    assert_eq!(map.get(SocialNetworkEnum::Twitter), Some(&vec![task("t/a")]));
    let empty = GroupedTasks::to_hashmap(vec![]);
    assert_eq!(empty.keys(), vec![]);
}

#[test]
fn later_bucket_of_a_network_counts() {
    let map = GroupedTasks::to_hashmap(vec![
        bucket(SocialNetworkEnum::Reddit, &["r/a"]),
        bucket(SocialNetworkEnum::Reddit, &["r/b", "r/c"]),
    ]);
    assert_eq!(map.get(SocialNetworkEnum::Reddit), Some(&vec![task("r/b"), task("r/c")]));
    assert_eq!(map.get(SocialNetworkEnum::Twitter), None);
}

#[test]
fn reversed_turns_a_list_around() {
    assert_eq!(reversed(vec![1, 2, 3]), vec![3, 2, 1]);
    assert_eq!(reversed(Vec::<u8>::new()), Vec::<u8>::new());
    assert_eq!(reversed(vec!["a"]), vec!["a"]);
}

#[test]
fn counters_count() {
    let statistics = Statistics::new();
    assert_eq!(statistics.increase_current_running_threads(), 1);
    assert_eq!(statistics.increase_current_running_threads(), 2);
    assert_eq!(statistics.decrease_current_running_threads(), 1);
    assert_eq!(statistics.increase_started_parsing_tasks(), 1);
    assert_eq!(statistics.increase_failed_parsing_tasks(), 1);
    assert_eq!(statistics.increase_failed_parsing_tasks(), 2);
    assert_eq!(statistics.increase_other_errors(), 1);
    assert_eq!(statistics.increase_access_failed_parsing_tasks(), 1);
    assert_eq!(statistics.increase_successful_parsing_tasks(), 1);
    assert_eq!(statistics.increase_total_number_of_accounts(), 1);
    assert_eq!(statistics.increase_total_number_of_accounts(), 2);
    assert_eq!(statistics.increase_total_number_of_accounts(), 3);
    assert_eq!(statistics.decrease_total_number_of_accounts(), 2);
    assert_eq!(statistics.increase_threads_waiting_for_refresh(), 1);
    assert_eq!(statistics.decrease_threads_waiting_for_refresh(), 0);
    assert_eq!(
        statistics.get_snapshot(),
        StatisticsSnapshot {
            current_running_threads: 1,
            started_parsing_tasks: 1,
            failed_parsing_tasks: 2,
            other_errors: 1,
            access_failed_parsing_tasks: 1,
            successful_parsing_tasks: 1,
            total_number_of_accounts: 2,
            threads_waiting_for_refresh: 0,
        }
    );
}

#[test]
fn fresh_counters_stand_at_zero() {
    let zero = StatisticsSnapshot {
        current_running_threads: 0,
        started_parsing_tasks: 0,
        failed_parsing_tasks: 0,
        other_errors: 0,
        access_failed_parsing_tasks: 0,
        successful_parsing_tasks: 0,
        total_number_of_accounts: 0,
        threads_waiting_for_refresh: 0,
    };
    assert_eq!(Statistics::new().get_snapshot(), zero);
    assert_eq!(Statistics::default().get_snapshot(), zero);
}

#[test]
fn counting_past_the_ends_starts_over() {
    assert_eq!(one_more(0), 1);
    assert_eq!(one_more(usize::MAX - 1), usize::MAX);
    assert_eq!(one_more(usize::MAX), 0);
    assert_eq!(one_less(1), 0);
    assert_eq!(one_less(0), usize::MAX);
    let statistics = Statistics::new();
    assert_eq!(statistics.decrease_current_running_threads(), usize::MAX);
    assert_eq!(statistics.increase_current_running_threads(), 0);
}

#[test]
fn worker_beyond_the_limit_has_to_wait() {
    let statistics = Statistics::new();
    let counter = ParserThreadCounter::new(20);
    for running in 1..=20 {
        assert_eq!(counter.increase(&statistics), Admission { running, wait: false });
    }
    assert_eq!(counter.increase(&statistics), Admission { running: 21, wait: true });
    assert_eq!(counter.increase(&statistics), Admission { running: 22, wait: true });
    assert_eq!(counter.running(), 22);
    assert_eq!(statistics.get_snapshot().current_running_threads, 22);
    assert_eq!(counter.decrease(&statistics), 21);
    assert_eq!(counter.decrease(&statistics), 20);
    assert_eq!(counter.decrease(&statistics), 19);
    assert_eq!(counter.increase(&statistics), Admission { running: 20, wait: false });
    assert_eq!(statistics.get_snapshot().current_running_threads, 20);
}

#[test]
fn admission_counts_the_newcomer() {
    assert_eq!(ParserThreadCounter::admission(0, 20), Admission { running: 1, wait: false });
    assert_eq!(ParserThreadCounter::admission(19, 20), Admission { running: 20, wait: false });
    assert_eq!(ParserThreadCounter::admission(20, 20), Admission { running: 21, wait: true });
    assert_eq!(ParserThreadCounter::admission(0, 0), Admission { running: 1, wait: true });
    assert_eq!(ParserThreadCounter::admission(usize::MAX, 20), Admission { running: 0, wait: false });
}

#[test]
fn must_wait_above_the_limit_only() {
    assert!(!ParserThreadCounter::must_wait(0, 0));
    assert!(ParserThreadCounter::must_wait(1, 0));
    assert!(!ParserThreadCounter::must_wait(20, 20));
    assert!(ParserThreadCounter::must_wait(21, 20));
    assert!(!ParserThreadCounter::must_wait(usize::MAX, usize::MAX));
    assert_eq!(mansa::client::parser_v2::parser::PARSER_THREADS_LIMIT, 20);
}
