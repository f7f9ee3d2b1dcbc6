use vstd::prelude::*;
use crate::client::parser_v2::account_manager::account::{Account, AccountSession};
use crate::client::parser_v2::account_manager::account_pool::{
    spec_all_authenticated,
    AccountPool,
    AccountQueue,
};
use crate::client::settings::Settings;
use crate::commons::social_network::{
    NetworkMap,
    SettingsError,
    SocialNetwork,
    SocialNetworkEnum,
    SocialNetworks,
};

verus! {

/// Gathers the authenticated accounts that a pool is made of.
#[derive(Debug)]
pub struct AccountPoolBuilder {
    settings: Settings,
    social_network_accounts_map: NetworkMap<AccountQueue>,
}

/// What keeps the accounts of a network from being read out of the settings.
#[derive(Debug, Clone, Copy, PartialEq, Eq, Structural)]
pub enum AccountsError {
    /// The network has no handler.
    NoSuchSocialNetwork,
    /// The handler cannot work with the settings.
    Settings(SettingsError),
}

impl AccountPoolBuilder {
    #[verifier::type_invariant]
    spec fn all_authenticated(self) -> bool {
        &&& self.social_network_accounts_map.reddit matches Some(queue) ==> spec_all_authenticated(
            queue@,
        )
        &&& self.social_network_accounts_map.twitter matches Some(queue)
            ==> spec_all_authenticated(queue@)
    }

    pub closed spec fn spec_settings(&self) -> Settings {
        self.settings
    }

    /// The accounts gathered for `social_network` so far.
    pub closed spec fn spec_accounts(&self, social_network: SocialNetworkEnum) -> Option<
        Seq<Account>,
    > {
        match self.social_network_accounts_map.spec_get(social_network) {
            Some(queue) => Some(queue@),
            None => None,
        }
    }

    pub fn new(settings: Settings) -> (builder: AccountPoolBuilder)
        ensures
            builder.spec_settings() == settings,
            forall|social_network: SocialNetworkEnum|
                builder.spec_accounts(social_network) is None,
    {
        AccountPoolBuilder { settings, social_network_accounts_map: NetworkMap::new() }
    }

    /// The settings that the accounts are read from.
    pub fn settings(&self) -> (settings: &Settings)
        ensures
            *settings == self.spec_settings(),
    {
        &self.settings
    }

    /// The accounts that the settings declare for `social_network`, as its
    /// handler prepares them: they are yet to be authenticated.
    pub fn read_accounts_from_settings(
        &self,
        networks: &SocialNetworks,
        social_network: SocialNetworkEnum,
    ) -> (result: Result<Vec<Account>, AccountsError>)
        ensures
            match result {
                Ok(accounts) => {
                    &&& social_network == SocialNetworkEnum::Reddit
                    &&& self.spec_settings().spec_network(social_network) is Some
                    &&& accounts@.len() == self.spec_settings().spec_network(
                        social_network,
                    )->0.accounts@.len()
                    &&& forall|i: int|
                        0 <= i < accounts@.len() ==> {
                            let account = #[trigger] accounts@[i];
                            &&& account.account_data@ == self.spec_settings().spec_network(
                                social_network,
                            )->0.accounts@[i]@
                            &&& account.proxy is None
                            &&& account.session is None
                        }
                },
                Err(AccountsError::NoSuchSocialNetwork) => social_network
                    != SocialNetworkEnum::Reddit,
                Err(AccountsError::Settings(error)) => {
                    &&& social_network == SocialNetworkEnum::Reddit
                    &&& error == SettingsError::NoNetworkSettings
                    &&& self.spec_settings().spec_network(social_network) is None
                },
            },
    {
        match networks.get(social_network) {
            Some(handler) => match handler.prepare_accounts(&self.settings) {
                Ok(accounts) => Ok(accounts),
                Err(error) => Err(AccountsError::Settings(error)),
            },
            None => Err(AccountsError::NoSuchSocialNetwork),
        }
    }

    /// Takes the accounts of one network that have been authenticated. They
    /// are served in the order given. Accounts taken for the network before
    /// are replaced.
    pub fn insert_authenticated(&mut self, social_network: SocialNetworkEnum, accounts: Vec<Account>)
        requires
            spec_all_authenticated(accounts@),
        ensures
            final(self).spec_settings() == old(self).spec_settings(),
            final(self).spec_accounts(social_network) == Some(accounts@),
            forall|other: SocialNetworkEnum|
                other != social_network ==> final(self).spec_accounts(other) == old(
                    self,
                ).spec_accounts(other),
    {
        proof {
            use_type_invariant(&*self);
        }
        let mut gathered: NetworkMap<AccountQueue> = NetworkMap::new();
        std::mem::swap(&mut gathered, &mut self.social_network_accounts_map);
        gathered.insert(social_network, accounts);
        self.social_network_accounts_map = gathered;
    }

    /// The pool of the accounts gathered.
    pub fn build(self) -> (pool: AccountPool)
        ensures
            forall|social_network: SocialNetworkEnum|
                pool.spec_queue(social_network) == self.spec_accounts(social_network),
    {
        proof {
            use_type_invariant(&self);
            assert(self.social_network_accounts_map.spec_get(SocialNetworkEnum::Reddit)
                == self.social_network_accounts_map.reddit);
            assert(self.social_network_accounts_map.spec_get(SocialNetworkEnum::Twitter)
                == self.social_network_accounts_map.twitter);
        }
        AccountPool::new(self.social_network_accounts_map)
    }
}

/// The accounts that authentication gave a session, each with its session, in
/// the order of `accounts`. `sessions` holds for each account what its
/// authentication gave; an account without a session, or with one whose
/// refresh time the clock cannot show, is left out.
pub open spec fn spec_authenticated_accounts(
    accounts: Seq<Account>,
    sessions: Seq<Option<AccountSession>>,
) -> Seq<Account>
    recommends
        accounts.len() == sessions.len(),
    decreases accounts.len(),
{
    if accounts.len() == 0 || sessions.len() != accounts.len() {
        Seq::empty()
    } else {
        let before = spec_authenticated_accounts(accounts.drop_last(), sessions.drop_last());
        match sessions.last() {
            Some(session) => if session@.well_formed() {
                before.push(accounts.last().spec_with_session(session))
            } else {
                before
            },
            None => before,
        }
    }
}

/// Puts each session into its account and keeps the accounts that have one.
pub fn authenticated_accounts(accounts: Vec<Account>, sessions: Vec<Option<AccountSession>>) -> (kept:
    Vec<Account>)
    requires
        accounts@.len() == sessions@.len(),
    ensures
        kept@ == spec_authenticated_accounts(accounts@, sessions@),
        spec_all_authenticated(kept@),
{
    let mut kept: Vec<Account> = Vec::new();
    let mut at: usize = 0;
    assert(accounts@.take(0) =~= Seq::empty());
    assert(sessions@.take(0) =~= Seq::empty());
    while at < accounts.len()
        invariant
            accounts@.len() == sessions@.len(),
            at <= accounts@.len(),
            kept@ == spec_authenticated_accounts(
                accounts@.take(at as int),
                sessions@.take(at as int),
            ),
            spec_all_authenticated(kept@),
        decreases accounts@.len() - at,
    {
        let ghost more_accounts = accounts@.take(at + 1);
        let ghost more_sessions = sessions@.take(at + 1);
        assert(more_accounts.drop_last() =~= accounts@.take(at as int));
        assert(more_sessions.drop_last() =~= sessions@.take(at as int));
        assert(more_accounts.last() == accounts@[at as int]);
        assert(more_sessions.last() == sessions@[at as int]);
        match &sessions[at] {
            Some(session) => {
                if session.is_well_formed() {
                    let mut account = accounts[at].clone();
                    account.set_session(session.clone());
                    kept.push(account);
                }
            },
            None => {},
        }
        at = at + 1;
    }
    assert(accounts@.take(at as int) =~= accounts@);
    assert(sessions@.take(at as int) =~= sessions@);
    kept
}

} // verus!
