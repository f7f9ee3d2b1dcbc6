use vstd::prelude::*;
use vstd::string::*;
use crate::commons::social_network::SocialNetworkEnum;
use crate::utils::text::{contains_text, copy_optional_text, copy_text, same_text, spec_contains};

verus! {

/// The credentials of one account, as the settings declare them.
#[derive(Debug, Hash)]
pub struct Account {
    pub login: Option<String>,
    pub password: Option<String>,
    pub public_key: Option<String>,
    pub private_key: Option<String>,
    pub social_network: SocialNetworkEnum,
}

/// Mathematical content of an [`Account`].
pub struct AccountView {
    pub login: Option<Seq<char>>,
    pub password: Option<Seq<char>>,
    pub public_key: Option<Seq<char>>,
    pub private_key: Option<Seq<char>>,
    pub social_network: SocialNetworkEnum,
}

impl View for Account {
    type V = AccountView;

    open spec fn view(&self) -> AccountView {
        AccountView {
            login: self.login.deep_view(),
            password: self.password.deep_view(),
            public_key: self.public_key.deep_view(),
            private_key: self.private_key.deep_view(),
            social_network: self.social_network,
        }
    }
}

impl DeepView for Account {
    type V = AccountView;

    open spec fn deep_view(&self) -> AccountView {
        self@
    }
}

impl Clone for Account {
    fn clone(&self) -> (copy: Self)
        ensures
            copy == *self,
            copy@ == self@,
    {
        Account {
            login: copy_optional_text(&self.login),
            password: copy_optional_text(&self.password),
            public_key: copy_optional_text(&self.public_key),
            private_key: copy_optional_text(&self.private_key),
            social_network: self.social_network,
        }
    }
}

fn same_optional_text(left: &Option<String>, right: &Option<String>) -> (same: bool)
    ensures
        same == (left.deep_view() == right.deep_view()),
{
    match (left, right) {
        (Some(left), Some(right)) => same_text(left.as_str(), right.as_str()),
        (None, None) => true,
        _ => false,
    }
}

impl PartialEq for Account {
    fn eq(&self, other: &Self) -> (equal: bool) {
        same_optional_text(&self.login, &other.login) && same_optional_text(
            &self.password,
            &other.password,
        ) && same_optional_text(&self.public_key, &other.public_key) && same_optional_text(
            &self.private_key,
            &other.private_key,
        ) && self.social_network == other.social_network
    }
}

impl vstd::std_specs::cmp::PartialEqSpecImpl for Account {
    open spec fn obeys_eq_spec() -> bool {
        true
    }

    open spec fn eq_spec(&self, other: &Self) -> bool {
        self@ == other@
    }
}

impl Eq for Account {

}

/// An upstream proxy.
#[derive(Debug, Clone, PartialEq, Eq, Hash)]
pub struct Proxy {
    pub host: String,
    pub login: Option<String>,
    pub password: Option<String>,
}

impl Proxy {
    /// The login and password to present to the proxy: both, or none at all.
    pub open spec fn spec_credentials(&self) -> Option<(Seq<char>, Seq<char>)> {
        match (self.login, self.password) {
            (Some(login), Some(password)) => Some((login@, password@)),
            _ => None,
        }
    }

    /// The credentials the proxy is used with, if it is given both of them.
    pub fn credentials(&self) -> (pair: Option<(String, String)>)
        ensures
            pair.deep_view() == self.spec_credentials(),
    {
        match (&self.login, &self.password) {
            (Some(login), Some(password)) => Some((copy_text(login), copy_text(password))),
            _ => None,
        }
    }
}

#[derive(Debug, Clone, PartialEq, Eq, Hash)]
pub struct GeneralSettings {
    pub proxies: Vec<Proxy>,
    pub disable_proxy: bool,
}

/// A value of a free-form settings bag, as far as a handler reads it.
#[derive(Debug, Clone, PartialEq, Eq)]
pub enum PropertyValue {
    Text(String),
    Flag(bool),
    /// Anything that is neither a text nor a flag.
    Other,
}

/// Mathematical content of a [`PropertyValue`].
pub enum PropertyValueView {
    Text(Seq<char>),
    Flag(bool),
    Other,
}

impl View for PropertyValue {
    type V = PropertyValueView;

    open spec fn view(&self) -> PropertyValueView {
        match *self {
            PropertyValue::Text(text) => PropertyValueView::Text(text@),
            PropertyValue::Flag(flag) => PropertyValueView::Flag(flag),
            PropertyValue::Other => PropertyValueView::Other,
        }
    }
}

impl PropertyValue {
    pub fn as_str(&self) -> (text: Option<&str>)
        ensures
            match text {
                Some(text) => self@ == PropertyValueView::Text(text@),
                None => !(self@ is Text),
            },
    {
        match self {
            PropertyValue::Text(text) => Some(text.as_str()),
            _ => None,
        }
    }

    pub fn as_bool(&self) -> (flag: Option<bool>)
        ensures
            match flag {
                Some(flag) => self@ == PropertyValueView::Flag(flag),
                None => !(self@ is Flag),
            },
    {
        match self {
            PropertyValue::Flag(flag) => Some(*flag),
            _ => None,
        }
    }
}

#[derive(Debug, Clone, PartialEq, Eq)]
pub struct Property {
    pub name: String,
    pub value: PropertyValue,
}

/// A free-form bag of named values. Where a name occurs twice, the first
/// entry counts.
#[derive(Debug, Clone, PartialEq, Eq)]
pub struct Properties {
    pub entries: Vec<Property>,
}

/// The value that `entries` hold under `name`.
pub open spec fn spec_lookup(entries: Seq<(Seq<char>, PropertyValueView)>, name: Seq<char>)
    -> Option<PropertyValueView>
    decreases entries.len(),
{
    if entries.len() == 0 {
        None
    } else if entries[0].0 == name {
        Some(entries[0].1)
    } else {
        spec_lookup(entries.drop_first(), name)
    }
}

impl View for Properties {
    type V = Seq<(Seq<char>, PropertyValueView)>;

    open spec fn view(&self) -> Seq<(Seq<char>, PropertyValueView)> {
        Seq::new(self.entries@.len(), |i: int| (self.entries@[i].name@, self.entries@[i].value@))
    }
}

impl DeepView for Properties {
    type V = Seq<(Seq<char>, PropertyValueView)>;

    open spec fn deep_view(&self) -> Seq<(Seq<char>, PropertyValueView)> {
        self@
    }
}

impl Properties {
    /// The value stored under `name`, if there is one.
    pub fn get(&self, name: &str) -> (value: Option<&PropertyValue>)
        ensures
            match value {
                Some(value) => spec_lookup(self@, name@) == Some(value@),
                None => spec_lookup(self@, name@) is None,
            },
    {
        let mut at: usize = 0;
        assert(self@.skip(0) =~= self@);
        while at < self.entries.len()
            invariant
                at <= self.entries@.len(),
                spec_lookup(self@, name@) == spec_lookup(self@.skip(at as int), name@),
            decreases self.entries@.len() - at,
        {
            let ghost rest = self@.skip(at as int);
            assert(rest[0] == self@[at as int]);
            assert(rest.drop_first() =~= self@.skip(at + 1));
            if same_text(self.entries[at].name.as_str(), name) {
                return Some(&self.entries[at].value);
            }
            at = at + 1;
        }
        assert(self@.skip(at as int).len() == 0);
        None
    }
}

/// What the settings hold for one network.
#[derive(Debug, Clone, PartialEq, Eq)]
pub struct SocialNetworkSettings {
    pub social_network: SocialNetworkEnum,
    pub accounts: Vec<Account>,
    /// The seeds: one bag per crawl the settings ask for.
    pub parsing_tasks: Vec<Properties>,
    pub additional_properties: Properties,
}

/// The configuration, read once and not changed afterwards.
#[derive(Debug, Clone, PartialEq, Eq)]
pub struct Settings {
    pub general_settings: GeneralSettings,
    /// One entry per network. Where a network occurs twice, the first counts.
    pub social_network_settings: Vec<SocialNetworkSettings>,
}

/// The position of the first entry for `social_network`, at or after `from`.
pub open spec fn spec_network_position(
    networks: Seq<SocialNetworkSettings>,
    social_network: SocialNetworkEnum,
    from: int,
) -> Option<int>
    decreases networks.len() - from,
{
    if from < 0 || from >= networks.len() {
        None
    } else if networks[from].social_network == social_network {
        Some(from)
    } else {
        spec_network_position(networks, social_network, from + 1)
    }
}

impl Settings {
    /// The settings of `social_network`, if the configuration has any.
    pub open spec fn spec_network(&self, social_network: SocialNetworkEnum) -> Option<
        SocialNetworkSettings,
    > {
        match spec_network_position(self.social_network_settings@, social_network, 0) {
            Some(at) => Some(self.social_network_settings@[at]),
            None => None,
        }
    }

    /// The settings of `social_network`, if the configuration has any.
    pub fn network(&self, social_network: SocialNetworkEnum) -> (found: Option<
        &SocialNetworkSettings,
    >)
        ensures
            match found {
                Some(found) => self.spec_network(social_network) == Some(*found),
                None => self.spec_network(social_network) is None,
            },
    {
        let mut at: usize = 0;
        while at < self.social_network_settings.len()
            invariant
                at <= self.social_network_settings@.len(),
                spec_network_position(self.social_network_settings@, social_network, 0)
                    == spec_network_position(
                    self.social_network_settings@,
                    social_network,
                    at as int,
                ),
            decreases self.social_network_settings@.len() - at,
        {
            if self.social_network_settings[at].social_network == social_network {
                return Some(&self.social_network_settings[at]);
            }
            at = at + 1;
        }
        None
    }
}

/// What a path below the settings directory stands for.
#[derive(Debug, PartialEq, Eq)]
pub enum SettingsPathType {
    GeneralSettingsPath(String),
    SocialNetworkSettingsPath(SocialNetworkEnum, String),
    OtherPath(),
}

/// Mathematical content of a [`SettingsPathType`].
pub enum SettingsPathTypeView {
    GeneralSettingsPath(Seq<char>),
    SocialNetworkSettingsPath(SocialNetworkEnum, Seq<char>),
    OtherPath,
}

impl View for SettingsPathType {
    type V = SettingsPathTypeView;

    open spec fn view(&self) -> SettingsPathTypeView {
        match *self {
            SettingsPathType::GeneralSettingsPath(path) => {
                SettingsPathTypeView::GeneralSettingsPath(path@)
            },
            SettingsPathType::SocialNetworkSettingsPath(social_network, path) => {
                SettingsPathTypeView::SocialNetworkSettingsPath(social_network, path@)
            },
            SettingsPathType::OtherPath() => SettingsPathTypeView::OtherPath,
        }
    }
}

/// A path that names a network belongs to that network, Reddit before
/// Twitter; a path that names the general settings file is that file; any
/// other path is of no interest.
pub open spec fn spec_classify_path(path: Seq<char>) -> SettingsPathTypeView {
    if spec_contains(path, SocialNetworkEnum::Reddit.spec_name()) {
        SettingsPathTypeView::SocialNetworkSettingsPath(SocialNetworkEnum::Reddit, path)
    } else if spec_contains(path, SocialNetworkEnum::Twitter.spec_name()) {
        SettingsPathTypeView::SocialNetworkSettingsPath(SocialNetworkEnum::Twitter, path)
    } else if spec_contains(path, "general_settings.json"@) {
        SettingsPathTypeView::GeneralSettingsPath(path)
    } else {
        SettingsPathTypeView::OtherPath
    }
}

impl SettingsPathType {
    /// Tells what the file or directory at `path` holds.
    pub fn test(path: String) -> (kind: SettingsPathType)
        ensures
            kind@ == spec_classify_path(path@),
    {
        let networks = SocialNetworkEnum::iter();
        let mut at: usize = 0;
        while at < networks.len()
            invariant
                networks@ == SocialNetworkEnum::spec_all(),
                at <= networks@.len(),
                forall|i: int| 0 <= i < at ==> !spec_contains(path@, networks@[i].spec_name()),
            decreases networks@.len() - at,
        {
            let social_net = networks[at];
            let name = social_net.to_string();
            if contains_text(path.as_str(), name.as_str()) {
                return SettingsPathType::SocialNetworkSettingsPath(social_net, path);
            }
            at = at + 1;
        }
        if contains_text(path.as_str(), "general_settings.json") {
            SettingsPathType::GeneralSettingsPath(path)
        } else {
            SettingsPathType::OtherPath()
        }
    }
}

} // verus!
