use vstd::prelude::*;
use vstd::string::*;
use crate::client::parser_v2::account_manager::account::Account;
use crate::client::settings::Settings;
use crate::commons::parsing_tasks::ParsingTask;
use crate::reddit::reddit::Reddit;

verus! {

/// The backends a task or an account can belong to.
#[derive(Debug, Clone, Copy, PartialEq, Eq, Hash, Structural)]
pub enum SocialNetworkEnum {
    Reddit,
    Twitter,
}

impl SocialNetworkEnum {
    /// The tag as it is written in stored tasks and in settings paths.
    pub open spec fn spec_name(self) -> Seq<char> {
        match self {
            SocialNetworkEnum::Reddit => "Reddit"@,
            SocialNetworkEnum::Twitter => "Twitter"@,
        }
    }

    /// Every tag, in declaration order.
    pub open spec fn spec_all() -> Seq<SocialNetworkEnum> {
        seq![SocialNetworkEnum::Reddit, SocialNetworkEnum::Twitter]
    }

    pub fn to_string(&self) -> (name: String)
        ensures
            name@ == self.spec_name(),
    {
        match self {
            SocialNetworkEnum::Reddit => String::from_str("Reddit"),
            SocialNetworkEnum::Twitter => String::from_str("Twitter"),
        }
    }

    pub fn iter() -> (all: Vec<SocialNetworkEnum>)
        ensures
            all@ == Self::spec_all(),
            forall|tag: SocialNetworkEnum| all@.contains(tag),
    {
        let all = vec![SocialNetworkEnum::Reddit, SocialNetworkEnum::Twitter];
        assert(all@ =~= Self::spec_all());
        assert forall|tag: SocialNetworkEnum| all@.contains(tag) by {
            match tag {
                SocialNetworkEnum::Reddit => assert(all@[0] == tag),
                SocialNetworkEnum::Twitter => assert(all@[1] == tag),
            }
        }
        all
    }
}

/// What keeps a handler from working with the settings it is given.
#[derive(Debug, Clone, Copy, PartialEq, Eq, Structural)]
pub enum SettingsError {
    /// The settings hold nothing for the handler's network.
    NoNetworkSettings,
    /// A seed names no thread, or names it by something that is no text.
    NoThread,
    /// A seed asks for a kind of task that does not exist.
    UnknownTaskType,
    /// A seed asks for a post, which only a fetched page can ask for.
    PostSeed,
    /// A property that the handler needs is not there.
    NoProperty,
    /// A property that has to be a flag is something else.
    PropertyNotFlag,
}

impl SettingsError {
    pub open spec fn spec_message(self) -> Seq<char> {
        match self {
            SettingsError::NoNetworkSettings => "no settings for the social network"@,
            SettingsError::NoThread => "parsing task without a thread"@,
            SettingsError::UnknownTaskType => "unknown task type"@,
            SettingsError::PostSeed => "a post cannot be a seed"@,
            SettingsError::NoProperty => "missing property"@,
            SettingsError::PropertyNotFlag => "property is not a flag"@,
        }
    }

    pub fn to_string(&self) -> (message: String)
        ensures
            message@ == self.spec_message(),
    {
        match self {
            SettingsError::NoNetworkSettings => String::from_str(
                "no settings for the social network",
            ),
            SettingsError::NoThread => String::from_str("parsing task without a thread"),
            SettingsError::UnknownTaskType => String::from_str("unknown task type"),
            SettingsError::PostSeed => String::from_str("a post cannot be a seed"),
            SettingsError::NoProperty => String::from_str("missing property"),
            SettingsError::PropertyNotFlag => String::from_str("property is not a flag"),
        }
    }
}

/// What a handler of one network does with the settings. Asking for a token
/// and fetching a page are requests to the network: a handler plans them and
/// decides what follows from their outcome, and the caller makes them.
pub trait SocialNetwork {
    /// Takes over what the settings say of the handler's own behaviour.
    fn apply_settings(&mut self, settings: &Settings) -> Result<(), SettingsError>;

    /// The tasks that the seeds of the settings stand for.
    fn prepare_parsing_tasks(&self, settings: &Settings) -> Result<
        Vec<ParsingTask>,
        SettingsError,
    >;

    /// The accounts that the settings declare, none of them authenticated.
    fn prepare_accounts(&self, settings: &Settings) -> Result<Vec<Account>, SettingsError>;
}

/// The handlers, by network. Reddit is the only network that has one.
#[derive(Debug, Clone, PartialEq, Eq)]
pub struct SocialNetworks {
    pub reddit: Reddit,
}

/// Whether a network has a handler.
pub open spec fn spec_registered(social_network: SocialNetworkEnum) -> bool {
    social_network == SocialNetworkEnum::Reddit
}

/// What a dispatch for a network without a handler reports.
pub open spec fn spec_dispatch_error(social_network: SocialNetworkEnum) -> Seq<char> {
    "unsuccessfully SOCIAL_NETWORK dispatch: "@ + social_network.spec_name()
}

impl SocialNetworks {
    /// The handlers as they are before any settings are applied.
    pub fn new() -> (networks: SocialNetworks)
        ensures
            networks.reddit.auth_url@ == "https://www.reddit.com/api/v1/access_token"@,
            networks.reddit.enable_comments_parsing,
    {
        SocialNetworks { reddit: Reddit::default() }
    }

    /// The handler of `social_network`, if it has one.
    pub fn get(&self, social_network: SocialNetworkEnum) -> (handler: Option<&Reddit>)
        ensures
            handler is Some <==> spec_registered(social_network),
            handler is Some ==> *handler->0 == self.reddit,
    {
        match social_network {
            SocialNetworkEnum::Reddit => Some(&self.reddit),
            SocialNetworkEnum::Twitter => None,
        }
    }
}

/// Hands `data` and the handler of `social_network` to `action` and returns
/// what `action` returns; reports a network that has no handler.
pub fn dispatch_social_network<T, R, F>(
    networks: &SocialNetworks,
    data: T,
    social_network: SocialNetworkEnum,
    action: F,
) -> (result: Result<R, String>) where F: Fn(T, &Reddit) -> Result<R, String>
    requires
        spec_registered(social_network) ==> call_requires(action, (data, &networks.reddit)),
    ensures
        spec_registered(social_network) ==> call_ensures(
            action,
            (data, &networks.reddit),
            result,
        ),
        !spec_registered(social_network) ==> result is Err && result->Err_0@
            == spec_dispatch_error(social_network),
{
    match networks.get(social_network) {
        Some(handler) => action(data, handler),
        None => {
            let mut message = String::from_str("unsuccessfully SOCIAL_NETWORK dispatch: ");
            let name = social_network.to_string();
            message.append(name.as_str());
            Err(message)
        },
    }
}

/// A value for each network that has one.
#[derive(Debug, Clone, PartialEq, Eq)]
pub struct NetworkMap<T> {
    pub reddit: Option<T>,
    pub twitter: Option<T>,
}

impl<T> NetworkMap<T> {
    /// The value kept for `social_network`.
    pub open spec fn spec_get(&self, social_network: SocialNetworkEnum) -> Option<T> {
        match social_network {
            SocialNetworkEnum::Reddit => self.reddit,
            SocialNetworkEnum::Twitter => self.twitter,
        }
    }

    /// The map with `value` kept for `social_network`, or with nothing kept
    /// for it.
    pub open spec fn spec_with(&self, social_network: SocialNetworkEnum, value: Option<T>)
        -> NetworkMap<T> {
        match social_network {
            SocialNetworkEnum::Reddit => NetworkMap { reddit: value, twitter: self.twitter },
            SocialNetworkEnum::Twitter => NetworkMap { reddit: self.reddit, twitter: value },
        }
    }

    /// A map that keeps nothing.
    pub fn new() -> (map: NetworkMap<T>)
        ensures
            map.reddit is None,
            map.twitter is None,
            forall|social_network: SocialNetworkEnum| map.spec_get(social_network) is None,
    {
        NetworkMap { reddit: None, twitter: None }
    }

    pub fn contains_key(&self, social_network: SocialNetworkEnum) -> (kept: bool)
        ensures
            kept == self.spec_get(social_network) is Some,
    {
        match social_network {
            SocialNetworkEnum::Reddit => self.reddit.is_some(),
            SocialNetworkEnum::Twitter => self.twitter.is_some(),
        }
    }

    pub fn get(&self, social_network: SocialNetworkEnum) -> (value: Option<&T>)
        ensures
            match value {
                Some(value) => self.spec_get(social_network) == Some(*value),
                None => self.spec_get(social_network) is None,
            },
    {
        match social_network {
            SocialNetworkEnum::Reddit => self.reddit.as_ref(),
            SocialNetworkEnum::Twitter => self.twitter.as_ref(),
        }
    }

    /// Keeps `value` for `social_network` and hands out what was kept before.
    pub fn insert(&mut self, social_network: SocialNetworkEnum, value: T) -> (before: Option<T>)
        ensures
            before == old(self).spec_get(social_network),
            *final(self) == old(self).spec_with(social_network, Some(value)),
    {
        match social_network {
            SocialNetworkEnum::Reddit => {
                let before = self.reddit.take();
                self.reddit = Some(value);
                before
            },
            SocialNetworkEnum::Twitter => {
                let before = self.twitter.take();
                self.twitter = Some(value);
                before
            },
        }
    }

    /// Hands out what is kept for `social_network` and keeps nothing for it.
    pub fn remove(&mut self, social_network: SocialNetworkEnum) -> (value: Option<T>)
        ensures
            value == old(self).spec_get(social_network),
            *final(self) == old(self).spec_with(social_network, None),
    {
        match social_network {
            SocialNetworkEnum::Reddit => self.reddit.take(),
            SocialNetworkEnum::Twitter => self.twitter.take(),
        }
    }

    /// The networks that something is kept for, in declaration order.
    pub open spec fn spec_keys(&self) -> Seq<SocialNetworkEnum> {
        (if self.reddit is Some {
            seq![SocialNetworkEnum::Reddit]
        } else {
            Seq::empty()
        }) + (if self.twitter is Some {
            seq![SocialNetworkEnum::Twitter]
        } else {
            Seq::empty()
        })
    }

    /// The networks that something is kept for, in declaration order.
    pub fn keys(&self) -> (networks: Vec<SocialNetworkEnum>)
        ensures
            networks@ == self.spec_keys(),
    {
        let mut networks: Vec<SocialNetworkEnum> = Vec::new();
        if self.reddit.is_some() {
            networks.push(SocialNetworkEnum::Reddit);
        }
        if self.twitter.is_some() {
            networks.push(SocialNetworkEnum::Twitter);
        }
        assert(networks@ =~= self.spec_keys());
        networks
    }
}

} // verus!
