use vstd::prelude::*;
use vstd::string::*;
use crate::client::settings;
use crate::client::settings::Proxy;
use crate::commons::social_network::{spec_registered, SocialNetworks};
use crate::reddit::reddit::{spec_auth_request, AuthError, AuthRequest, AuthRequestView};
use crate::utils::text::copy_text;

verus! {

/// What authentication gave an account, and what is left of its quota.
#[derive(Debug, PartialEq, Eq, Hash)]
pub struct AccountSession {
    pub token: String,
    pub retrieve_timestamp: u64,
    pub millis_to_refresh: u64,
    pub requests_limit: usize,
}

/// Mathematical content of an [`AccountSession`].
pub struct AccountSessionView {
    pub token: Seq<char>,
    pub retrieve_timestamp: u64,
    pub millis_to_refresh: u64,
    pub requests_limit: usize,
}

impl AccountSessionView {
    /// The instant at which the quota is handed out anew.
    pub open spec fn refresh_time(self) -> int {
        self.retrieve_timestamp + self.millis_to_refresh
    }

    /// The refresh time is an instant that the clock can show.
    pub open spec fn well_formed(self) -> bool {
        self.refresh_time() <= u64::MAX
    }
}

impl View for AccountSession {
    type V = AccountSessionView;

    open spec fn view(&self) -> AccountSessionView {
        AccountSessionView {
            token: self.token@,
            retrieve_timestamp: self.retrieve_timestamp,
            millis_to_refresh: self.millis_to_refresh,
            requests_limit: self.requests_limit,
        }
    }
}

impl DeepView for AccountSession {
    type V = AccountSessionView;

    open spec fn deep_view(&self) -> AccountSessionView {
        self@
    }
}

impl Clone for AccountSession {
    fn clone(&self) -> (copy: Self)
        ensures
            copy == *self,
            copy@ == self@,
    {
        AccountSession {
            token: copy_text(&self.token),
            retrieve_timestamp: self.retrieve_timestamp,
            millis_to_refresh: self.millis_to_refresh,
            requests_limit: self.requests_limit,
        }
    }
}

impl AccountSession {
    /// Whether the refresh time is an instant that the clock can show.
    pub fn is_well_formed(&self) -> (well_formed: bool)
        ensures
            well_formed == self@.well_formed(),
    {
        self.millis_to_refresh <= u64::MAX - self.retrieve_timestamp
    }

    /// The instant at which the quota is handed out anew.
    pub fn refresh_time(&self) -> (instant: u64)
        requires
            self@.well_formed(),
        ensures
            instant == self@.refresh_time(),
    {
        self.retrieve_timestamp + self.millis_to_refresh
    }
}

/// The user agent every client of the crawler presents.
pub open spec fn spec_user_agent() -> Seq<char> {
    "PostmanRuntime/7.29.0"@
}

/// How the HTTP client of an account is to be set up.
#[derive(Debug, Clone, PartialEq, Eq)]
pub struct ClientSetup {
    pub user_agent: String,
    pub proxy: Option<ProxySetup>,
}

/// The proxy of a client, with the credentials to present to it.
#[derive(Debug, Clone, PartialEq, Eq)]
pub struct ProxySetup {
    pub host: String,
    pub credentials: Option<(String, String)>,
}

impl ClientSetup {
    pub open spec fn spec_proxy(&self) -> Option<(Seq<char>, Option<(Seq<char>, Seq<char>)>)> {
        match self.proxy {
            Some(proxy) => Some((proxy.host@, proxy.credentials.deep_view())),
            None => None,
        }
    }
}

/// What keeps an account from asking for a token.
#[derive(Debug, Clone, Copy, PartialEq, Eq, Structural)]
pub enum AccountAuthError {
    /// The network of the account has no handler.
    NoSuchSocialNetwork,
    /// The handler misses something in the credentials.
    Handler(AuthError),
}

/// One credential at run time: what the settings declare, the proxy it goes
/// through, and the session once it is authenticated.
#[derive(Debug)]
pub struct Account {
    pub account_data: settings::Account,
    pub proxy: Option<Proxy>,
    pub session: Option<AccountSession>,
}

/// Mathematical content of an [`Account`], but for its proxy.
pub struct AccountView {
    pub account_data: settings::AccountView,
    pub session: Option<AccountSessionView>,
}

impl View for Account {
    type V = AccountView;

    open spec fn view(&self) -> AccountView {
        AccountView { account_data: self.account_data@, session: self.session.deep_view() }
    }
}

impl DeepView for Account {
    type V = AccountView;

    open spec fn deep_view(&self) -> AccountView {
        self@
    }
}

impl Clone for Account {
    fn clone(&self) -> (copy: Self)
        ensures
            copy == *self,
            copy@ == self@,
    {
        Account {
            account_data: self.account_data.clone(),
            proxy: match &self.proxy {
                Some(proxy) => Some(
                    Proxy {
                        host: copy_text(&proxy.host),
                        login: crate::utils::text::copy_optional_text(&proxy.login),
                        password: crate::utils::text::copy_optional_text(&proxy.password),
                    },
                ),
                None => None,
            },
            session: match &self.session {
                Some(session) => Some(session.clone()),
                None => None,
            },
        }
    }
}

impl PartialEq for Account {
    fn eq(&self, other: &Self) -> (equal: bool) {
        self.account_data == other.account_data
    }
}

impl vstd::std_specs::cmp::PartialEqSpecImpl for Account {
    open spec fn obeys_eq_spec() -> bool {
        true
    }

    /// Two accounts are the same account where their credentials are the same.
    open spec fn eq_spec(&self, other: &Self) -> bool {
        self@.account_data == other@.account_data
    }
}

impl Eq for Account {

}

impl Account {
    /// The account holds a session whose refresh time the clock can show.
    pub open spec fn spec_authenticated(&self) -> bool {
        self.session is Some && self.session->0@.well_formed()
    }

    /// The instant at which the quota of the account is handed out anew.
    pub open spec fn spec_refresh_time(&self) -> int
        recommends
            self.session is Some,
    {
        self.session->0@.refresh_time()
    }

    /// The requests that the account may still make before the next refresh.
    pub open spec fn spec_requests_limit(&self) -> usize
        recommends
            self.session is Some,
    {
        self.session->0.requests_limit
    }

    /// The account with `session` in the place of its own.
    pub open spec fn spec_with_session(&self, session: AccountSession) -> Account {
        Account { account_data: self.account_data, proxy: self.proxy, session: Some(session) }
    }

    /// The account after one request has been taken from its quota.
    pub open spec fn spec_spent_one(&self) -> Account
        recommends
            self.session is Some,
            self.session->0.requests_limit > 0,
    {
        self.spec_with_session(
            AccountSession {
                token: self.session->0.token,
                retrieve_timestamp: self.session->0.retrieve_timestamp,
                millis_to_refresh: self.session->0.millis_to_refresh,
                requests_limit: (self.session->0.requests_limit - 1) as usize,
            },
        )
    }

    /// The account with what a response said of time and quota written to
    /// its session; an account without a session stays as it is.
    pub open spec fn spec_with_limits(&self, limits: (u64, u64, usize)) -> Account {
        match self.session {
            Some(session) => self.spec_with_session(
                AccountSession {
                    token: session.token,
                    retrieve_timestamp: limits.0,
                    millis_to_refresh: limits.1,
                    requests_limit: limits.2,
                },
            ),
            None => *self,
        }
    }

    /// Whether the account holds a session whose refresh time the clock can show.
    pub fn is_authenticated(&self) -> (authenticated: bool)
        ensures
            authenticated == self.spec_authenticated(),
    {
        match &self.session {
            Some(session) => session.is_well_formed(),
            None => false,
        }
    }

    /// An account that has not been authenticated yet.
    pub fn new(account_data: settings::Account, proxy: Option<Proxy>) -> (account: Account)
        ensures
            account.account_data == account_data,
            account.proxy == proxy,
            account.session is None,
    {
        Account { account_data, proxy, session: None }
    }

    /// The request by which the account asks its network for a token, as the
    /// handler of the network plans it.
    pub fn auth(&self, networks: &SocialNetworks) -> (request: Result<
        AuthRequest,
        AccountAuthError,
    >)
        ensures
            match request {
                Ok(request) => spec_registered(self.account_data.social_network)
                    && spec_auth_request(networks.reddit.auth_url@, self.account_data@) == Ok::<
                    AuthRequestView,
                    AuthError,
                >(request@),
                Err(AccountAuthError::NoSuchSocialNetwork) => !spec_registered(
                    self.account_data.social_network,
                ),
                Err(AccountAuthError::Handler(error)) => spec_registered(
                    self.account_data.social_network,
                ) && spec_auth_request(networks.reddit.auth_url@, self.account_data@) == Err::<
                    AuthRequestView,
                    AuthError,
                >(error),
            },
    {
        match networks.get(self.account_data.social_network) {
            Some(handler) => match handler.auth(&self.account_data) {
                Ok(request) => Ok(request),
                Err(error) => Err(AccountAuthError::Handler(error)),
            },
            None => Err(AccountAuthError::NoSuchSocialNetwork),
        }
    }

    /// Puts `session` in the place of whatever session the account held.
    pub fn set_session(&mut self, session: AccountSession)
        ensures
            final(self).session == Some(session),
            final(self).account_data == old(self).account_data,
            final(self).proxy == old(self).proxy,
    {
        self.session = Some(session);
    }

    /// The set-up of the account's HTTP client: the fixed user agent, and the
    /// account's proxy where it has one.
    pub fn setup_reqwest_client(&self) -> (setup: ClientSetup)
        ensures
            setup.user_agent@ == spec_user_agent(),
            setup.spec_proxy() == match self.proxy {
                Some(proxy) => Some((proxy.host@, proxy.spec_credentials())),
                None => None,
            },
    {
        ClientSetup {
            user_agent: String::from_str("PostmanRuntime/7.29.0"),
            proxy: match &self.proxy {
                Some(proxy) => Some(
                    ProxySetup { host: copy_text(&proxy.host), credentials: proxy.credentials() },
                ),
                None => None,
            },
        }
    }
}

} // verus!
