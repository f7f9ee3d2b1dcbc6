use mansa::client::settings;
use mansa::client::settings::{
    GeneralSettings, Properties, Property, PropertyValue, Settings, SettingsPathType,
    SocialNetworkSettings,
};
use mansa::commons::parsing_tasks::{ParsingTaskParameters, ParsingTaskStatus};
use mansa::commons::social_network::{
    dispatch_social_network, NetworkMap, SettingsError, SocialNetwork, SocialNetworkEnum,
    SocialNetworks,
};
use mansa::reddit::reddit::Reddit;
use mansa::reddit::reddit_parsing_task::RedditParsingTask;

fn text_property(name: &str, value: &str) -> Property {
    Property { name: name.to_string(), value: PropertyValue::Text(value.to_string()) }
}

fn bag(entries: Vec<Property>) -> Properties {
    Properties { entries }
}

fn reddit(seeds: Vec<Properties>, properties: Properties) -> Settings {
    Settings {
        general_settings: GeneralSettings { proxies: vec![], disable_proxy: false },
        social_network_settings: vec![SocialNetworkSettings {
            social_network: SocialNetworkEnum::Reddit,
            accounts: vec![
                settings::Account {
                    login: Some("first".to_string()),
                    password: None,
                    public_key: None,
                    private_key: None,
                    social_network: SocialNetworkEnum::Reddit,
                },
                settings::Account {
                    login: Some("second".to_string()),
                    password: None,
                    public_key: None,
                    private_key: None,
                    social_network: SocialNetworkEnum::Reddit,
                },
            ],
            parsing_tasks: seeds,
            additional_properties: properties,
        }],
    }
}

fn no_networks() -> Settings {
    Settings {
        general_settings: GeneralSettings { proxies: vec![], disable_proxy: false },
        social_network_settings: vec![],
    }
}

fn listings(settings: &Settings) -> Result<Vec<RedditParsingTask>, SettingsError> {
    Reddit::default().prepare_parsing_tasks_at(settings, 5).map(|tasks| {
        tasks
            .into_iter()
            .map(|task| {
                assert_eq!(task.execution_time, 5);
                assert_eq!(task.status, ParsingTaskStatus::New);
                assert_eq!(task._id, None);
                assert_eq!(task.action_type, task.parameters.as_ref_reddit().to_string());
                task.parameters.as_reddit()
            })
            .collect()
    })
}

fn new_listing(thread: &str) -> RedditParsingTask {
    RedditParsingTask::ThreadNew { thread: thread.to_string(), after: None }
}

#[test]
fn path_of_a_network_directory() {
    assert_eq!(
        SettingsPathType::test("./settings/Reddit".to_string()),
        SettingsPathType::SocialNetworkSettingsPath(
            SocialNetworkEnum::Reddit,
            "./settings/Reddit".to_string()
        )
    );
    assert_eq!(
        SettingsPathType::test("./settings/my_Twitter_dir".to_string()),
        SettingsPathType::SocialNetworkSettingsPath(
            SocialNetworkEnum::Twitter,
            "./settings/my_Twitter_dir".to_string()
        )
    );
}

#[test]
fn path_that_names_two_networks_goes_to_reddit() {
    assert_eq!(
        SettingsPathType::test("Twitter/Reddit".to_string()),
        SettingsPathType::SocialNetworkSettingsPath(
            SocialNetworkEnum::Reddit,
            "Twitter/Reddit".to_string()
        )
    );
}

#[test]
fn path_of_the_general_settings() {
    assert_eq!(
        SettingsPathType::test("./settings/general_settings.json".to_string()),
        SettingsPathType::GeneralSettingsPath("./settings/general_settings.json".to_string())
    );
    assert_eq!(
        SettingsPathType::test("Reddit/general_settings.json".to_string()),
        SettingsPathType::SocialNetworkSettingsPath(
            SocialNetworkEnum::Reddit,
            "Reddit/general_settings.json".to_string()
        )
    );
}

#[test]
fn other_paths_are_of_no_interest() {
    assert_eq!(SettingsPathType::test("./settings/readme.md".to_string()), SettingsPathType::OtherPath());
    assert_eq!(SettingsPathType::test("./settings/reddit".to_string()), SettingsPathType::OtherPath());
    assert_eq!(SettingsPathType::test(String::new()), SettingsPathType::OtherPath());
}

#[test]
fn properties_give_the_first_value_of_a_name() {
    let properties = bag(vec![
        text_property("thread", "r/rust"),
        Property { name: "flag".to_string(), value: PropertyValue::Flag(true) },
        text_property("thread", "r/other"),
        Property { name: "list".to_string(), value: PropertyValue::Other },
    ]);
    assert_eq!(properties.get("thread"), Some(&PropertyValue::Text("r/rust".to_string())));
    assert_eq!(properties.get("flag"), Some(&PropertyValue::Flag(true)));
    assert_eq!(properties.get("list"), Some(&PropertyValue::Other));
    assert_eq!(properties.get("missing"), None);
    assert_eq!(properties.get("thread").unwrap().as_str(), Some("r/rust"));
    assert_eq!(properties.get("thread").unwrap().as_bool(), None);
    assert_eq!(properties.get("flag").unwrap().as_bool(), Some(true));
    assert_eq!(properties.get("flag").unwrap().as_str(), None);
    assert_eq!(properties.get("list").unwrap().as_str(), None);
    assert_eq!(properties.get("list").unwrap().as_bool(), None);
}

#[test]
fn settings_give_the_first_entry_of_a_network() {
    let settings = reddit(vec![], bag(vec![]));
    assert_eq!(
        settings.network(SocialNetworkEnum::Reddit),
        Some(&settings.social_network_settings[0])
    );
    assert_eq!(settings.network(SocialNetworkEnum::Twitter), None);
    assert_eq!(no_networks().network(SocialNetworkEnum::Reddit), None);
}

#[test]
fn seed_of_kind_all_stands_for_the_five_listings() {
    let settings = reddit(
        vec![bag(vec![text_property("thread", "r/rust"), text_property("task_type", "All")])],
        bag(vec![]),
    );
    assert_eq!(listings(&settings), Ok(RedditParsingTask::get_all(&"r/rust".to_string())));
}

#[test]
fn seed_without_kind_stands_for_the_five_listings() {
    let settings = reddit(vec![bag(vec![text_property("thread", "r/rust")])], bag(vec![]));
    assert_eq!(listings(&settings), Ok(RedditParsingTask::get_all(&"r/rust".to_string())));
}

#[test]
fn seed_of_one_kind_stands_for_that_listing() {
    for (kind, expected) in [
        ("ThreadNew", new_listing("r/rust")),
        (
            "ThreadTopAllTimeHistory",
            RedditParsingTask::ThreadTopAllTimeHistory { thread: "r/rust".to_string(), after: None },
        ),
        (
            "ThreadTopYearHistory",
            RedditParsingTask::ThreadTopYearHistory { thread: "r/rust".to_string(), after: None },
        ),
        (
            "ThreadTopMonthHistory",
            RedditParsingTask::ThreadTopMonthHistory { thread: "r/rust".to_string(), after: None },
        ),
        (
            "ThreadTopWeekHistory",
            RedditParsingTask::ThreadTopWeekHistory { thread: "r/rust".to_string(), after: None },
        ),
    ] {
        let settings = reddit(
            vec![bag(vec![text_property("task_type", kind), text_property("thread", "r/rust")])],
            bag(vec![]),
        );
        assert_eq!(listings(&settings), Ok(vec![expected]));
    }
}

#[test]
fn seeds_are_expanded_in_order() {
    let settings = reddit(
        vec![
            bag(vec![text_property("thread", "r/a"), text_property("task_type", "ThreadNew")]),
            bag(vec![text_property("thread", "r/b")]),
            bag(vec![text_property("thread", "r/c"), text_property("task_type", "ThreadNew")]),
        ],
        bag(vec![]),
    );
    let mut expected = vec![new_listing("r/a")];
    expected.extend(RedditParsingTask::get_all(&"r/b".to_string()));
    expected.push(new_listing("r/c"));
    assert_eq!(listings(&settings), Ok(expected));
}

#[test]
fn no_seeds_no_tasks() {
    assert_eq!(listings(&reddit(vec![], bag(vec![]))), Ok(vec![]));
}

#[test]
fn seed_errors() {
    let no_thread = reddit(vec![bag(vec![text_property("task_type", "All")])], bag(vec![]));
    assert_eq!(listings(&no_thread), Err(SettingsError::NoThread));
    let thread_is_no_text = reddit(
        vec![bag(vec![Property { name: "thread".to_string(), value: PropertyValue::Flag(true) }])],
        bag(vec![]),
    );
    assert_eq!(listings(&thread_is_no_text), Err(SettingsError::NoThread));
    let post = reddit(
        vec![bag(vec![text_property("thread", "r/rust"), text_property("task_type", "Post")])],
        bag(vec![]),
    );
    assert_eq!(listings(&post), Err(SettingsError::PostSeed));
    let unknown = reddit(
        vec![bag(vec![text_property("thread", "r/rust"), text_property("task_type", "all")])],
        bag(vec![]),
    );
    assert_eq!(listings(&unknown), Err(SettingsError::UnknownTaskType));
    let kind_is_no_text = reddit(
        vec![bag(vec![
            text_property("thread", "r/rust"),
            Property { name: "task_type".to_string(), value: PropertyValue::Other },
        ])],
        bag(vec![]),
    );
    assert_eq!(listings(&kind_is_no_text), Err(SettingsError::UnknownTaskType));
    assert_eq!(listings(&no_networks()), Err(SettingsError::NoNetworkSettings));
}

#[test]
fn first_seed_error_is_reported() {
    let settings = reddit(
        vec![
            bag(vec![text_property("thread", "r/a")]),
            bag(vec![text_property("thread", "r/b"), text_property("task_type", "Post")]),
            bag(vec![text_property("task_type", "All")]),
        ],
        bag(vec![]),
    );
    assert_eq!(listings(&settings), Err(SettingsError::PostSeed));
}

#[test]
fn tasks_of_kind_by_name() {
    let thread = "r/rust".to_string();
    assert_eq!(Reddit::tasks_of_kind("All", &thread), Ok(RedditParsingTask::get_all(&thread)));
    assert_eq!(Reddit::tasks_of_kind("ThreadNew", &thread), Ok(vec![new_listing("r/rust")]));
    assert_eq!(Reddit::tasks_of_kind("Post", &thread), Err(SettingsError::PostSeed));
    assert_eq!(Reddit::tasks_of_kind("", &thread), Err(SettingsError::UnknownTaskType));
    assert_eq!(Reddit::tasks_of_kind("threadnew", &thread), Err(SettingsError::UnknownTaskType));
}

#[test]
fn prepared_tasks_are_due_at_the_time_of_the_call() {
    let settings = reddit(
        vec![bag(vec![text_property("thread", "r/rust"), text_property("task_type", "ThreadNew")])],
        bag(vec![]),
    );
    let before = mansa::utils::time::get_timestamp();
    let tasks = Reddit::default().prepare_parsing_tasks(&settings).unwrap();
    let after = mansa::utils::time::get_timestamp();
    assert_eq!(tasks.len(), 1);
    assert!(before <= tasks[0].execution_time && tasks[0].execution_time <= after);
    assert_eq!(tasks[0].parameters, ParsingTaskParameters::Reddit(new_listing("r/rust")));
}

#[test]
fn apply_settings_takes_over_the_flag() {
    let mut handler = Reddit::default();
    let off = reddit(
        vec![],
        bag(vec![Property {
            name: "enable_comments_parsing".to_string(),
            value: PropertyValue::Flag(false),
        }]),
    );
    assert_eq!(handler.apply_settings(&off), Ok(()));
    assert!(!handler.enable_comments_parsing);
    assert_eq!(handler.auth_url, "https://www.reddit.com/api/v1/access_token");
    let on = reddit(
        vec![],
        bag(vec![Property {
            name: "enable_comments_parsing".to_string(),
            value: PropertyValue::Flag(true),
        }]),
    );
    assert_eq!(handler.apply_settings(&on), Ok(()));
    assert!(handler.enable_comments_parsing);
}

#[test]
fn apply_settings_errors_leave_the_handler() {
    let mut handler = Reddit::default();
    assert_eq!(
        handler.apply_settings(&reddit(vec![], bag(vec![]))),
        Err(SettingsError::NoProperty)
    );
    let wrong = reddit(vec![], bag(vec![text_property("enable_comments_parsing", "false")]));
    assert_eq!(handler.apply_settings(&wrong), Err(SettingsError::PropertyNotFlag));
    assert_eq!(handler.apply_settings(&no_networks()), Err(SettingsError::NoNetworkSettings));
    assert_eq!(handler, Reddit::default());
}

#[test]
fn prepare_accounts_lists_the_declared_accounts() {
    let settings = reddit(vec![], bag(vec![]));
    let accounts = Reddit::default().prepare_accounts(&settings).unwrap();
    assert_eq!(accounts.len(), 2);
    assert_eq!(accounts[0].account_data.login, Some("first".to_string()));
    assert_eq!(accounts[1].account_data.login, Some("second".to_string()));
    assert!(accounts.iter().all(|account| account.session.is_none() && account.proxy.is_none()));
    assert_eq!(
        Reddit::default().prepare_accounts(&no_networks()).unwrap_err(),
        SettingsError::NoNetworkSettings
    );
}

#[test]
fn settings_error_messages() {
    let errors = [
        SettingsError::NoNetworkSettings,
        SettingsError::NoThread,
        SettingsError::UnknownTaskType,
        SettingsError::PostSeed,
        SettingsError::NoProperty,
        SettingsError::PropertyNotFlag,
    ];
    let messages: Vec<String> = errors.iter().map(|error| error.to_string()).collect();
    assert_eq!(
        messages,
        vec![
            "no settings for the social network",
            "parsing task without a thread",
            "unknown task type",
            "a post cannot be a seed",
            "missing property",
            "property is not a flag",
        ]
    );
}

#[test]
fn dispatch_hands_the_handler_to_the_action() {
    let networks = SocialNetworks::new();
    let result = dispatch_social_network(&networks, 3usize, SocialNetworkEnum::Reddit, |data, handler: &Reddit| {
        Ok(format!("{} {}", data, handler.auth_url))
    });
    assert_eq!(result, Ok("3 https://www.reddit.com/api/v1/access_token".to_string()));
    let failed = dispatch_social_network(&networks, (), SocialNetworkEnum::Reddit, |_, _: &Reddit| {
        Err::<u8, String>("action failed".to_string())
    });
    assert_eq!(failed, Err("action failed".to_string()));
}

#[test]
fn dispatch_reports_a_network_without_handler() {
    let networks = SocialNetworks::new();
    let result = dispatch_social_network(&networks, (), SocialNetworkEnum::Twitter, |_, _: &Reddit| {
        Ok(1u8)
    });
    assert_eq!(result, Err("unsuccessfully SOCIAL_NETWORK dispatch: Twitter".to_string()));
    assert!(networks.get(SocialNetworkEnum::Twitter).is_none());
    assert_eq!(networks.get(SocialNetworkEnum::Reddit), Some(&Reddit::default()));
}

#[test]
fn network_map_keeps_one_value_per_network() {
    let mut map: NetworkMap<u32> = NetworkMap::new();
    assert_eq!(map.keys(), vec![]);
    assert_eq!(map.get(SocialNetworkEnum::Reddit), None);
    assert_eq!(map.insert(SocialNetworkEnum::Twitter, 2), None);
    assert_eq!(map.insert(SocialNetworkEnum::Reddit, 1), None);
    assert_eq!(map.insert(SocialNetworkEnum::Reddit, 3), Some(1));
    assert_eq!(map.keys(), vec![SocialNetworkEnum::Reddit, SocialNetworkEnum::Twitter]);
    assert_eq!(map.get(SocialNetworkEnum::Reddit), Some(&3));
    assert!(map.contains_key(SocialNetworkEnum::Twitter));
    assert_eq!(map.remove(SocialNetworkEnum::Twitter), Some(2));
    assert!(!map.contains_key(SocialNetworkEnum::Twitter));
    assert_eq!(map.remove(SocialNetworkEnum::Twitter), None);
    assert_eq!(map.keys(), vec![SocialNetworkEnum::Reddit]);
}
