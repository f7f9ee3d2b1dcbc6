use mansa::client::parser_v2::account_manager::account::{
    Account, AccountAuthError, AccountSession, ClientSetup, ProxySetup,
};
use mansa::client::parser_v2::account_manager::account_pool::{AccountPool, Acquisition};
use mansa::client::parser_v2::account_manager::account_pool_builder::{
    authenticated_accounts, AccountPoolBuilder, AccountsError,
};
use mansa::client::settings;
use mansa::client::settings::{GeneralSettings, Properties, Proxy, Settings, SocialNetworkSettings};
use mansa::commons::social_network::{NetworkMap, SettingsError, SocialNetworkEnum, SocialNetworks};
use mansa::reddit::reddit::AuthError;
use mansa::utils::time::millis_until;

const T: u64 = 1_700_000_000_000;

fn credentials(login: &str) -> settings::Account {
    settings::Account {
        login: Some(login.to_string()),
        password: Some("secret".to_string()),
        public_key: Some("public".to_string()),
        private_key: None,
        social_network: SocialNetworkEnum::Reddit,
    }
}

fn session(retrieved: u64, refresh: u64, limit: usize) -> AccountSession {
    AccountSession {
        token: "token".to_string(),
        retrieve_timestamp: retrieved,
        millis_to_refresh: refresh,
        requests_limit: limit,
    }
}

fn account(login: &str, retrieved: u64, refresh: u64, limit: usize) -> Account {
    let mut account = Account::new(credentials(login), None);
    account.set_session(session(retrieved, refresh, limit));
    account
}

fn pool_of(accounts: Vec<Account>) -> AccountPool {
    let mut queues = NetworkMap::new();
    queues.insert(SocialNetworkEnum::Reddit, accounts);
    AccountPool::new(queues)
}

fn logins(pool: &AccountPool) -> Vec<String> {
    pool.accounts(SocialNetworkEnum::Reddit)
        .iter()
        .map(|account| account.account_data.login.clone().unwrap())
        .collect()
}

fn granted(acquisition: Acquisition) -> Account {
    match acquisition {
        Acquisition::Granted(account) => account,
        Acquisition::Wait { until } => panic!("told to wait until {}", until),
    }
}

fn told_to_wait(acquisition: Acquisition) -> u64 {
    match acquisition {
        Acquisition::Wait { until } => until,
        Acquisition::Granted(account) => panic!("granted {:?}", account),
    }
}

fn same_state(left: &[Account], right: &[Account]) -> bool {
    left.len() == right.len()
        && left.iter().zip(right.iter()).all(|(one, other)| {
            one.account_data == other.account_data && one.session == other.session
        })
}

#[test]
fn accounts_are_equal_by_their_credentials() {
    let first = account("a", 1, 2, 3);
    let second = account("a", 7, 8, 9);
    let third = account("b", 1, 2, 3);
    assert!(first == second);
    assert!(first != third);
    assert!(credentials("a") == credentials("a"));
    assert!(credentials("a") != credentials("b"));
}

#[test]
fn last_request_exhausts_the_only_account() {
    let mut pool = pool_of(vec![account("only", T, 60_000, 1)]);
    let account = granted(pool.get_account(SocialNetworkEnum::Reddit));
    assert_eq!(account.session, Some(session(T, 60_000, 0)));
    let kept = pool.accounts(SocialNetworkEnum::Reddit);
    assert_eq!(kept.len(), 1);
    assert_eq!(kept[0].session, Some(session(T, 60_000, 0)));
    let until = told_to_wait(pool.get_account(SocialNetworkEnum::Reddit));
    assert_eq!(until, T + 60_000);
    assert_eq!(millis_until(until, T + 1_000), 59_000);
    assert_eq!(millis_until(until, T + 60_000), 0);
    assert!(same_state(&pool.accounts(SocialNetworkEnum::Reddit), &kept));
}

#[test]
fn exhausted_head_is_waited_for_even_if_others_have_quota() {
    let mut pool = pool_of(vec![account("a", T, 5_000, 0), account("b", T, 9_000, 10)]);
    assert_eq!(told_to_wait(pool.get_account(SocialNetworkEnum::Reddit)), T + 5_000);
    assert_eq!(logins(&pool), vec!["a", "b"]);
}

#[test]
fn head_with_quota_stays_at_the_head() {
    let mut pool = pool_of(vec![account("a", T, 5_000, 3), account("b", T, 1_000, 10)]);
    let first = granted(pool.get_account(SocialNetworkEnum::Reddit));
    assert_eq!(first.account_data, credentials("a"));
    assert_eq!(first.session, Some(session(T, 5_000, 2)));
    assert_eq!(logins(&pool), vec!["a", "b"]);
    let second = granted(pool.get_account(SocialNetworkEnum::Reddit));
    assert_eq!(second.session, Some(session(T, 5_000, 1)));
    assert_eq!(logins(&pool), vec!["a", "b"]);
}

#[test]
fn exhausted_account_moves_behind_those_that_refresh_earlier() {
    let mut pool = pool_of(vec![
        account("a", T, 5_000, 1),
        account("b", T, 1_000, 10),
        account("c", T, 4_999, 10),
        account("d", T, 5_000, 10),
        account("e", T, 9_000, 10),
    ]);
    let first = granted(pool.get_account(SocialNetworkEnum::Reddit));
    assert_eq!(first.account_data, credentials("a"));
    assert_eq!(logins(&pool), vec!["b", "c", "a", "d", "e"]);
    let second = granted(pool.get_account(SocialNetworkEnum::Reddit));
    assert_eq!(second.account_data, credentials("b"));
}

#[test]
fn move_end_walks_from_the_back() {
    let mut queue = vec![
        account("a", 0, 10, 1),
        account("b", 0, 50, 1),
        account("c", 0, 20, 1),
        account("d", 0, 40, 1),
    ];
    AccountPool::move_end(&mut queue, account("x", 0, 30, 0), 30);
    let order: Vec<String> =
        queue.iter().map(|account| account.account_data.login.clone().unwrap()).collect();
    assert_eq!(order, vec!["a", "b", "c", "x", "d"]);
}

#[test]
fn move_end_goes_to_the_front_when_nothing_refreshes_earlier() {
    let mut queue = vec![account("a", 0, 10, 1), account("b", 0, 10, 1)];
    AccountPool::move_end(&mut queue, account("x", 0, 10, 0), 10);
    let order: Vec<String> =
        queue.iter().map(|account| account.account_data.login.clone().unwrap()).collect();
    assert_eq!(order, vec!["x", "a", "b"]);
    let mut empty: Vec<Account> = vec![];
    AccountPool::move_end(&mut empty, account("x", 0, 10, 0), 10);
    assert_eq!(empty.len(), 1);
}

#[test]
fn move_end_goes_to_the_back_when_everything_refreshes_earlier() {
    let mut queue = vec![account("a", 0, 10, 1), account("b", 0, 20, 1)];
    AccountPool::move_end(&mut queue, account("x", 0, 21, 0), 21);
    let order: Vec<String> =
        queue.iter().map(|account| account.account_data.login.clone().unwrap()).collect();
    assert_eq!(order, vec!["a", "b", "x"]);
}

#[test]
fn acquire_keeps_an_ordered_queue_ordered() {
    let mut pool = pool_of(vec![
        account("a", T, 100, 2),
        account("b", T, 200, 1),
        account("c", T, 300, 2),
    ]);
    for _ in 0..5 {
        let _ = pool.get_account(SocialNetworkEnum::Reddit);
        let times: Vec<u64> = pool
            .accounts(SocialNetworkEnum::Reddit)
            .iter()
            .map(|account| account.session.as_ref().unwrap().refresh_time())
            .collect();
        let mut sorted = times.clone();
        sorted.sort();
        assert_eq!(times, sorted);
    }
}

#[test]
fn pool_serves_only_networks_with_accounts() {
    let pool = pool_of(vec![account("a", T, 100, 2)]);
    assert!(pool.serves(SocialNetworkEnum::Reddit));
    assert!(!pool.serves(SocialNetworkEnum::Twitter));
    assert!(!pool_of(vec![]).serves(SocialNetworkEnum::Reddit));
    assert_eq!(pool.accounts(SocialNetworkEnum::Twitter).len(), 0);
}

#[test]
fn update_session_writes_limits_and_keeps_the_place() {
    let mut pool = pool_of(vec![account("a", T, 100, 2), account("b", T, 200, 1)]);
    assert!(pool.update_session(SocialNetworkEnum::Reddit, &credentials("b"), (7, 8, 9)));
    let accounts = pool.accounts(SocialNetworkEnum::Reddit);
    assert_eq!(logins(&pool), vec!["a", "b"]);
    assert_eq!(accounts[0].session, Some(session(T, 100, 2)));
    assert_eq!(accounts[1].session, Some(session(7, 8, 9)));
    assert!(!pool.update_session(SocialNetworkEnum::Reddit, &credentials("zz"), (1, 1, 1)));
    assert!(!pool.update_session(SocialNetworkEnum::Twitter, &credentials("a"), (1, 1, 1)));
    assert!(same_state(&pool.accounts(SocialNetworkEnum::Reddit), &accounts));
}

#[test]
fn reauthentication_replaces_the_session_in_place() {
    let mut pool = pool_of(vec![account("a", T, 100, 0), account("b", T, 200, 1)]);
    let fresh = AccountSession {
        token: "fresh".to_string(),
        retrieve_timestamp: T + 50,
        millis_to_refresh: 600_000,
        requests_limit: 600,
    };
    assert!(pool.replace_session(SocialNetworkEnum::Reddit, &credentials("a"), fresh.clone()));
    let accounts = pool.accounts(SocialNetworkEnum::Reddit);
    assert_eq!(logins(&pool), vec!["a", "b"]);
    assert_eq!(accounts[0].session, Some(fresh.clone()));
    assert!(!pool.replace_session(SocialNetworkEnum::Reddit, &credentials("none"), fresh));
    let account = granted(pool.get_account(SocialNetworkEnum::Reddit));
    assert_eq!(account.session.unwrap().token, "fresh");
}

#[test]
fn authenticated_accounts_are_told_apart() {
    assert!(account("a", T, 1, 0).is_authenticated());
    assert!(!Account::new(credentials("a"), None).is_authenticated());
    assert!(!account("a", u64::MAX, 1, 5).is_authenticated());
    assert!(AccountPool::queue_authenticated(&vec![]));
    assert!(AccountPool::queue_authenticated(&vec![account("a", T, 1, 0), account("b", T, 1, 0)]));
    assert!(!AccountPool::queue_authenticated(&vec![
        account("a", T, 1, 0),
        Account::new(credentials("b"), None)
    ]));
    let mut queues = NetworkMap::new();
    assert!(AccountPool::all_authenticated_in(&queues));
    queues.insert(SocialNetworkEnum::Reddit, vec![account("a", T, 1, 0)]);
    assert!(AccountPool::all_authenticated_in(&queues));
    queues.insert(SocialNetworkEnum::Twitter, vec![Account::new(credentials("b"), None)]);
    assert!(!AccountPool::all_authenticated_in(&queues));
}

#[test]
fn session_refresh_time_and_limits() {
    let fits = session(u64::MAX - 5, 5, 1);
    assert!(fits.is_well_formed());
    assert_eq!(fits.refresh_time(), u64::MAX);
    assert!(!session(u64::MAX - 5, 6, 1).is_well_formed());
    assert!(!session(u64::MAX, u64::MAX, 1).is_well_formed());
    assert_eq!(session(T, 60_000, 1).refresh_time(), T + 60_000);
    assert_eq!(session(0, 0, 0).refresh_time(), 0);
}

#[test]
fn client_setup_of_an_account() {
    let plain = Account::new(credentials("a"), None);
    assert_eq!(
        plain.setup_reqwest_client(),
        ClientSetup { user_agent: "PostmanRuntime/7.29.0".to_string(), proxy: None }
    );
    let proxy = Proxy {
        host: "https://proxy:8080".to_string(),
        login: Some("pl".to_string()),
        password: Some("pp".to_string()),
    };
    let proxied = Account::new(credentials("a"), Some(proxy));
    assert_eq!(
        proxied.setup_reqwest_client(),
        ClientSetup {
            user_agent: "PostmanRuntime/7.29.0".to_string(),
            proxy: Some(ProxySetup {
                host: "https://proxy:8080".to_string(),
                credentials: Some(("pl".to_string(), "pp".to_string())),
            }),
        }
    );
}

#[test]
fn proxy_credentials_need_login_and_password() {
    let both = Proxy { host: "h".into(), login: Some("l".into()), password: Some("p".into()) };
    let login_only = Proxy { host: "h".into(), login: Some("l".into()), password: None };
    let password_only = Proxy { host: "h".into(), login: None, password: Some("p".into()) };
    let neither = Proxy { host: "h".into(), login: None, password: None };
    assert_eq!(both.credentials(), Some(("l".to_string(), "p".to_string())));
    assert_eq!(login_only.credentials(), None);
    assert_eq!(password_only.credentials(), None);
    assert_eq!(neither.credentials(), None);
}

#[test]
fn account_plans_its_token_request_through_the_handler() {
    let networks = SocialNetworks::new();
    let request = Account::new(credentials("user"), None).auth(&networks).unwrap();
    assert_eq!(request.body, "grant_type=password&username=user&password=secret");
    let mut incomplete = credentials("user");
    incomplete.public_key = None;
    assert_eq!(
        Account::new(incomplete, None).auth(&networks),
        Err(AccountAuthError::Handler(AuthError::NoPublicKey))
    );
    let mut twitter = credentials("user");
    twitter.social_network = SocialNetworkEnum::Twitter;
    assert_eq!(
        Account::new(twitter, None).auth(&networks),
        Err(AccountAuthError::NoSuchSocialNetwork)
    );
}

fn settings_with_accounts(accounts: Vec<settings::Account>) -> Settings {
    Settings {
        general_settings: GeneralSettings { proxies: vec![], disable_proxy: true },
        social_network_settings: vec![SocialNetworkSettings {
            social_network: SocialNetworkEnum::Reddit,
            accounts,
            parsing_tasks: vec![],
            additional_properties: Properties { entries: vec![] },
        }],
    }
}

#[test]
fn builder_reads_accounts_and_keeps_the_authenticated_ones() {
    let networks = SocialNetworks::new();
    let settings =
        settings_with_accounts(vec![credentials("a"), credentials("b"), credentials("c")]);
    let mut builder = AccountPoolBuilder::new(settings);
    let accounts =
        builder.read_accounts_from_settings(&networks, SocialNetworkEnum::Reddit).unwrap();
    assert_eq!(accounts.len(), 3);
    assert!(accounts.iter().all(|account| account.session.is_none() && account.proxy.is_none()));
    let sessions = vec![Some(session(T, 10, 5)), None, Some(session(u64::MAX, 1, 5))];
    let kept = authenticated_accounts(accounts, sessions);
    assert_eq!(kept.len(), 1);
    assert_eq!(kept[0].account_data, credentials("a"));
    assert_eq!(kept[0].session, Some(session(T, 10, 5)));
    builder.insert_authenticated(SocialNetworkEnum::Reddit, kept);
    let mut pool = builder.build();
    assert!(pool.serves(SocialNetworkEnum::Reddit));
    let account = granted(pool.get_account(SocialNetworkEnum::Reddit));
    assert_eq!(account.account_data, credentials("a"));
}

#[test]
fn builder_reports_networks_it_cannot_read() {
    let networks = SocialNetworks::new();
    let builder = AccountPoolBuilder::new(settings_with_accounts(vec![]));
    assert_eq!(
        builder.read_accounts_from_settings(&networks, SocialNetworkEnum::Twitter).unwrap_err(),
        AccountsError::NoSuchSocialNetwork
    );
    let empty = Settings {
        general_settings: GeneralSettings { proxies: vec![], disable_proxy: false },
        social_network_settings: vec![],
    };
    let builder = AccountPoolBuilder::new(empty);
    assert_eq!(
        builder.read_accounts_from_settings(&networks, SocialNetworkEnum::Reddit).unwrap_err(),
        AccountsError::Settings(SettingsError::NoNetworkSettings)
    );
}
