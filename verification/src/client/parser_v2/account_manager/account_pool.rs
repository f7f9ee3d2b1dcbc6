use vstd::prelude::*;
use crate::client::parser_v2::account_manager::account::{Account, AccountSession};
use crate::client::settings;
use crate::commons::social_network::{NetworkMap, SocialNetworkEnum};

verus! {

/// The accounts of one network, in the order in which they are handed out.
pub type AccountQueue = Vec<Account>;

/// What a worker that asks for an account is told.
#[derive(Debug)]
pub enum Acquisition {
    /// The account to work with. One request has been taken from its quota.
    Granted(Account),
    /// No account can be had before `until`: wait until then and ask again.
    Wait { until: u64 },
}

/// Every account of the queue is authenticated.
pub open spec fn spec_all_authenticated(queue: Seq<Account>) -> bool {
    forall|i: int| 0 <= i < queue.len() ==> (#[trigger] queue[i]).spec_authenticated()
}

/// The accounts stand by ascending refresh time.
pub open spec fn spec_ordered(queue: Seq<Account>) -> bool {
    forall|i: int, j: int|
        0 <= i < j < queue.len() ==> (#[trigger] queue[i]).spec_refresh_time() <= (
        #[trigger] queue[j]).spec_refresh_time()
}

/// Where an account that refreshes at `refresh_time` comes to stand: behind
/// the hindmost account that refreshes earlier, and at the front where no
/// account does.
pub open spec fn spec_landing(queue: Seq<Account>, refresh_time: int) -> int
    decreases queue.len(),
{
    if queue.len() == 0 {
        0
    } else if queue.last().spec_refresh_time() < refresh_time {
        queue.len() as int
    } else {
        spec_landing(queue.drop_last(), refresh_time)
    }
}

/// The queue after `account` has been put where its refresh time takes it.
pub open spec fn spec_move_end(queue: Seq<Account>, account: Account, refresh_time: int) -> Seq<
    Account,
> {
    queue.insert(spec_landing(queue, refresh_time), account)
}

/// The queue after a worker has asked it for an account.
///
/// An account at the head with quota left is granted, one request poorer; if
/// that was its last request, it leaves the head for the place that its
/// refresh time takes it to. A head without quota stays, and so does the
/// queue.
pub open spec fn spec_queue_after_acquire(queue: Seq<Account>) -> Seq<Account>
    recommends
        queue.len() > 0,
        queue[0].session is Some,
{
    let head = queue[0];
    if head.spec_requests_limit() == 0 {
        queue
    } else if head.spec_requests_limit() == 1 {
        spec_move_end(queue.drop_first(), head.spec_spent_one(), head.spec_refresh_time())
    } else {
        queue.update(0, head.spec_spent_one())
    }
}

/// The place of the first account of `queue` that holds the credentials `account_data`.
pub open spec fn spec_position(queue: Seq<Account>, account_data: settings::AccountView, from: int)
    -> Option<int>
    decreases queue.len() - from,
{
    if from < 0 || from >= queue.len() {
        None
    } else if queue[from].account_data@ == account_data {
        Some(from)
    } else {
        spec_position(queue, account_data, from + 1)
    }
}

/// The landing place splits the queue: right before it stands an account that
/// refreshes earlier, and from it on no account does.
pub proof fn lemma_landing(queue: Seq<Account>, refresh_time: int)
    ensures
        0 <= spec_landing(queue, refresh_time) <= queue.len(),
        spec_landing(queue, refresh_time) > 0 ==> queue[spec_landing(queue, refresh_time)
            - 1].spec_refresh_time() < refresh_time,
        forall|j: int|
            spec_landing(queue, refresh_time) <= j < queue.len() ==> (
            #[trigger] queue[j]).spec_refresh_time() >= refresh_time,
    decreases queue.len(),
{
    if queue.len() > 0 && !(queue.last().spec_refresh_time() < refresh_time) {
        lemma_landing(queue.drop_last(), refresh_time);
        let landing = spec_landing(queue.drop_last(), refresh_time);
        assert forall|j: int| landing <= j < queue.len() implies (
        #[trigger] queue[j]).spec_refresh_time() >= refresh_time by {
            if j < queue.len() - 1 {
                assert(queue.drop_last()[j] == queue[j]);
            }
        }
        if landing > 0 {
            assert(queue.drop_last()[landing - 1] == queue[landing - 1]);
        }
    }
}

/// Putting an account where its refresh time takes it keeps an ordered queue
/// ordered.
pub proof fn lemma_move_end_keeps_order(queue: Seq<Account>, account: Account)
    requires
        spec_ordered(queue),
    ensures
        spec_ordered(spec_move_end(queue, account, account.spec_refresh_time())),
{
    let refresh_time = account.spec_refresh_time();
    let landing = spec_landing(queue, refresh_time);
    lemma_landing(queue, refresh_time);
    let moved = spec_move_end(queue, account, refresh_time);
    assert forall|i: int, j: int| 0 <= i < j < moved.len() implies (
    #[trigger] moved[i]).spec_refresh_time() <= (#[trigger] moved[j]).spec_refresh_time() by {
        if j < landing {
            assert(moved[i] == queue[i] && moved[j] == queue[j]);
        } else if j == landing {
            assert(moved[i] == queue[i]);
            if i < landing - 1 {
                assert(queue[i].spec_refresh_time() <= queue[landing - 1].spec_refresh_time());
            }
        } else if i < landing {
            assert(moved[i] == queue[i] && moved[j] == queue[j - 1]);
            if i == j - 1 {
            } else {
                assert(queue[i].spec_refresh_time() <= queue[j - 1].spec_refresh_time());
            }
        } else if i == landing {
            assert(moved[j] == queue[j - 1]);
        } else {
            assert(moved[i] == queue[i - 1] && moved[j] == queue[j - 1]);
        }
    }
}

/// Handing out an account keeps an ordered queue ordered.
pub proof fn lemma_acquire_keeps_order(queue: Seq<Account>)
    requires
        queue.len() > 0,
        spec_ordered(queue),
    ensures
        spec_ordered(spec_queue_after_acquire(queue)),
{
    let head = queue[0];
    let after = spec_queue_after_acquire(queue);
    if head.spec_requests_limit() == 0 {
    } else if head.spec_requests_limit() == 1 {
        let rest = queue.drop_first();
        assert forall|i: int, j: int| 0 <= i < j < rest.len() implies (
        #[trigger] rest[i]).spec_refresh_time() <= (#[trigger] rest[j]).spec_refresh_time() by {
            assert(rest[i] == queue[i + 1] && rest[j] == queue[j + 1]);
        }
        lemma_move_end_keeps_order(rest, head.spec_spent_one());
    } else {
        assert forall|i: int, j: int| 0 <= i < j < after.len() implies (
        #[trigger] after[i]).spec_refresh_time() <= (#[trigger] after[j]).spec_refresh_time() by {
            assert(after[j] == queue[j]);
            if i > 0 {
                assert(after[i] == queue[i]);
            } else {
                assert(queue[0].spec_refresh_time() <= queue[j].spec_refresh_time());
            }
        }
    }
}

/// Whether an account with the credentials `account_data` stands in the queue.
pub open spec fn spec_holds(queue: Seq<Account>, account_data: settings::Account) -> bool {
    exists|i: int| 0 <= i < queue.len() && (#[trigger] queue[i]).account_data == account_data
}

/// Putting an account into the queue adds that account and changes nothing
/// else of what the queue holds.
pub proof fn lemma_move_end_keeps_accounts(
    queue: Seq<Account>,
    account: Account,
    refresh_time: int,
    account_data: settings::Account,
)
    ensures
        spec_move_end(queue, account, refresh_time).len() == queue.len() + 1,
        spec_holds(spec_move_end(queue, account, refresh_time), account_data) <==> (spec_holds(
            queue,
            account_data,
        ) || account.account_data == account_data),
{
    let landing = spec_landing(queue, refresh_time);
    lemma_landing(queue, refresh_time);
    let moved = spec_move_end(queue, account, refresh_time);
    if spec_holds(queue, account_data) {
        let i = choose|i: int| 0 <= i < queue.len() && (#[trigger] queue[i]).account_data
            == account_data;
        if i < landing {
            assert(moved[i] == queue[i]);
        } else {
            assert(moved[i + 1] == queue[i]);
        }
        assert(spec_holds(moved, account_data));
    }
    if account.account_data == account_data {
        assert(moved[landing] == account);
        assert(spec_holds(moved, account_data));
    }
    if spec_holds(moved, account_data) {
        let j = choose|j: int| 0 <= j < moved.len() && (#[trigger] moved[j]).account_data
            == account_data;
        if j < landing {
            assert(moved[j] == queue[j]);
        } else if j > landing {
            assert(moved[j] == queue[j - 1]);
        } else {
            assert(moved[j] == account);
        }
    }
}

/// Handing out an account loses no account and adds none: the queue keeps its
/// length, and it holds the credentials that it held before.
pub proof fn lemma_acquire_keeps_accounts(queue: Seq<Account>, account_data: settings::Account)
    requires
        queue.len() > 0,
    ensures
        spec_queue_after_acquire(queue).len() == queue.len(),
        spec_holds(spec_queue_after_acquire(queue), account_data) <==> spec_holds(
            queue,
            account_data,
        ),
{
    let head = queue[0];
    let after = spec_queue_after_acquire(queue);
    let rest = queue.drop_first();
    if head.spec_requests_limit() == 0 {
    } else if head.spec_requests_limit() == 1 {
        lemma_move_end_keeps_accounts(
            rest,
            head.spec_spent_one(),
            head.spec_refresh_time(),
            account_data,
        );
        if spec_holds(rest, account_data) {
            let i = choose|i: int| 0 <= i < rest.len() && (#[trigger] rest[i]).account_data
                == account_data;
            assert(queue[i + 1] == rest[i]);
            assert(spec_holds(queue, account_data));
        }
        if head.account_data == account_data {
            assert(queue[0].account_data == account_data);
            assert(spec_holds(queue, account_data));
        }
        if spec_holds(queue, account_data) {
            let i = choose|i: int| 0 <= i < queue.len() && (#[trigger] queue[i]).account_data
                == account_data;
            if i > 0 {
                assert(rest[i - 1] == queue[i]);
                assert(spec_holds(rest, account_data));
            }
        }
    } else {
        if spec_holds(queue, account_data) {
            let i = choose|i: int| 0 <= i < queue.len() && (#[trigger] queue[i]).account_data
                == account_data;
            assert(after[i].account_data == queue[i].account_data);
            assert(spec_holds(after, account_data));
        }
        if spec_holds(after, account_data) {
            let j = choose|j: int| 0 <= j < after.len() && (#[trigger] after[j]).account_data
                == account_data;
            assert(after[j].account_data == queue[j].account_data);
            assert(spec_holds(queue, account_data));
        }
    }
}

/// An account whose quota is used up is not handed out: the worker is told
/// to wait, and until the clock shows the account's refresh time the wait
/// is not over.
pub proof fn lemma_exhausted_account_is_waited_for(queue: Seq<Account>, now: u64)
    requires
        queue.len() > 0,
        queue[0].spec_authenticated(),
        queue[0].spec_requests_limit() == 0,
    ensures
        spec_queue_after_acquire(queue) == queue,
        now < queue[0].spec_refresh_time() ==> crate::utils::time::spec_millis_until(
            queue[0].spec_refresh_time() as u64,
            now,
        ) > 0,
        now + crate::utils::time::spec_millis_until(queue[0].spec_refresh_time() as u64, now)
            >= queue[0].spec_refresh_time(),
{
}

/// The accounts, by network: for each network that has any, a queue from
/// whose head workers are served. Every account in it is authenticated.
#[derive(Debug)]
pub struct AccountPool {
    accounts_queue: NetworkMap<AccountQueue>,
}

impl AccountPool {
    #[verifier::type_invariant]
    spec fn all_authenticated(self) -> bool {
        &&& self.accounts_queue.reddit matches Some(queue) ==> spec_all_authenticated(queue@)
        &&& self.accounts_queue.twitter matches Some(queue) ==> spec_all_authenticated(queue@)
    }

    /// The queue of `social_network`, if the pool has one for it.
    pub closed spec fn spec_queue(&self, social_network: SocialNetworkEnum) -> Option<
        Seq<Account>,
    > {
        match self.accounts_queue.spec_get(social_network) {
            Some(queue) => Some(queue@),
            None => None,
        }
    }

    /// Whether every account of every queue is authenticated.
    pub fn all_authenticated_in(accounts: &NetworkMap<AccountQueue>) -> (all: bool)
        ensures
            all == (forall|social_network: SocialNetworkEnum|
                (#[trigger] accounts.spec_get(social_network)) matches Some(queue)
                    ==> spec_all_authenticated(queue@)),
    {
        let reddit = match &accounts.reddit {
            Some(queue) => AccountPool::queue_authenticated(queue),
            None => true,
        };
        let twitter = match &accounts.twitter {
            Some(queue) => AccountPool::queue_authenticated(queue),
            None => true,
        };
        proof {
            assert(accounts.spec_get(SocialNetworkEnum::Reddit) == accounts.reddit);
            assert(accounts.spec_get(SocialNetworkEnum::Twitter) == accounts.twitter);
        }
        reddit && twitter
    }

    /// Whether every account of the queue is authenticated.
    pub fn queue_authenticated(queue: &AccountQueue) -> (all: bool)
        ensures
            all == spec_all_authenticated(queue@),
    {
        let mut at: usize = 0;
        while at < queue.len()
            invariant
                at <= queue@.len(),
                forall|i: int| 0 <= i < at ==> (#[trigger] queue@[i]).spec_authenticated(),
            decreases queue@.len() - at,
        {
            if !queue[at].is_authenticated() {
                return false;
            }
            at = at + 1;
        }
        true
    }

    /// The pool that serves the given queues.
    pub fn new(accounts: NetworkMap<AccountQueue>) -> (pool: AccountPool)
        requires
            forall|social_network: SocialNetworkEnum|
                (#[trigger] accounts.spec_get(social_network)) matches Some(queue)
                    ==> spec_all_authenticated(queue@),
        ensures
            forall|social_network: SocialNetworkEnum|
                pool.spec_queue(social_network) == match accounts.spec_get(social_network) {
                    Some(queue) => Some(queue@),
                    None => None,
                },
    {
        proof {
            assert(accounts.spec_get(SocialNetworkEnum::Reddit) == accounts.reddit);
            assert(accounts.spec_get(SocialNetworkEnum::Twitter) == accounts.twitter);
        }
        AccountPool { accounts_queue: accounts }
    }

    /// Whether the pool has an account to serve `social_network` from.
    pub fn serves(&self, social_network: SocialNetworkEnum) -> (served: bool)
        ensures
            served == (self.spec_queue(social_network) matches Some(queue) && queue.len() > 0),
    {
        match self.accounts_queue.get(social_network) {
            Some(queue) => queue.len() > 0,
            None => false,
        }
    }

    /// The accounts of `social_network`, head first.
    pub fn accounts(&self, social_network: SocialNetworkEnum) -> (accounts: Vec<Account>)
        ensures
            accounts@ == match self.spec_queue(social_network) {
                Some(queue) => queue,
                None => Seq::empty(),
            },
            spec_all_authenticated(accounts@),
    {
        proof {
            use_type_invariant(self);
            assert(self.accounts_queue.spec_get(SocialNetworkEnum::Reddit)
                == self.accounts_queue.reddit);
            assert(self.accounts_queue.spec_get(SocialNetworkEnum::Twitter)
                == self.accounts_queue.twitter);
        }
        let mut accounts: Vec<Account> = Vec::new();
        match self.accounts_queue.get(social_network) {
            Some(queue) => {
                let mut at: usize = 0;
                while at < queue.len()
                    invariant
                        at <= queue@.len(),
                        accounts@ == queue@.take(at as int),
                    decreases queue@.len() - at,
                {
                    accounts.push(queue[at].clone());
                    at = at + 1;
                    assert(accounts@ =~= queue@.take(at as int));
                }
                assert(queue@.take(at as int) =~= queue@);
            },
            None => {},
        }
        accounts
    }

    /// Takes the queue of `social_network` out of the pool, or an empty queue
    /// where the pool has none, and tells which of the two it was.
    fn take_queue(&mut self, social_network: SocialNetworkEnum) -> (taken: (AccountQueue, bool))
        ensures
            taken.1 == old(self).spec_queue(social_network) is Some,
            taken.1 ==> old(self).spec_queue(social_network) == Some(taken.0@),
            !taken.1 ==> taken.0@.len() == 0,
            spec_all_authenticated(taken.0@),
            final(self).spec_queue(social_network) is None,
            forall|other: SocialNetworkEnum|
                other != social_network ==> final(self).spec_queue(other) == old(self).spec_queue(
                    other,
                ),
    {
        proof {
            use_type_invariant(&*self);
        }
        let mut queues: NetworkMap<AccountQueue> = NetworkMap::new();
        std::mem::swap(&mut queues, &mut self.accounts_queue);
        let taken = queues.remove(social_network);
        self.accounts_queue = queues;
        match taken {
            Some(queue) => (queue, true),
            None => (Vec::new(), false),
        }
    }

    /// Puts `queue` into the pool as the queue of `social_network`.
    fn put_queue(&mut self, social_network: SocialNetworkEnum, queue: AccountQueue)
        requires
            spec_all_authenticated(queue@),
        ensures
            final(self).spec_queue(social_network) == Some(queue@),
            forall|other: SocialNetworkEnum|
                other != social_network ==> final(self).spec_queue(other) == old(self).spec_queue(
                    other,
                ),
    {
        proof {
            use_type_invariant(&*self);
        }
        let mut queues: NetworkMap<AccountQueue> = NetworkMap::new();
        std::mem::swap(&mut queues, &mut self.accounts_queue);
        queues.insert(social_network, queue);
        self.accounts_queue = queues;
    }

    /// Serves a worker that asks for an account of `social_network`.
    ///
    /// The head of the queue is granted if it has quota left, and a request
    /// is taken from its quota; with its last request gone it is moved to
    /// where its refresh time takes it. A head without quota is not granted:
    /// the worker is to wait until the head's refresh time and to ask again.
    pub fn get_account(&mut self, social_network: SocialNetworkEnum) -> (acquisition: Acquisition)
        requires
            old(self).spec_queue(social_network) matches Some(queue) && queue.len() > 0,
        ensures
            forall|other: SocialNetworkEnum|
                other != social_network ==> final(self).spec_queue(other) == old(self).spec_queue(
                    other,
                ),
            final(self).spec_queue(social_network) == Some(
                spec_queue_after_acquire(old(self).spec_queue(social_network)->0),
            ),
            old(self).spec_queue(social_network)->0[0].spec_authenticated(),
            ({
                let head = old(self).spec_queue(social_network)->0[0];
                if head.spec_requests_limit() == 0 {
                    acquisition == (Acquisition::Wait { until: head.spec_refresh_time() as u64 })
                } else {
                    acquisition == Acquisition::Granted(head.spec_spent_one())
                }
            }),
    {
        let (mut queue, _) = self.take_queue(social_network);
        let acquisition = AccountPool::acquire(&mut queue);
        self.put_queue(social_network, queue);
        acquisition
    }

    /// Serves a worker from one queue.
    pub fn acquire(queue: &mut AccountQueue) -> (acquisition: Acquisition)
        requires
            old(queue)@.len() > 0,
            spec_all_authenticated(old(queue)@),
        ensures
            final(queue)@ == spec_queue_after_acquire(old(queue)@),
            spec_all_authenticated(final(queue)@),
            ({
                let head = old(queue)@[0];
                if head.spec_requests_limit() == 0 {
                    acquisition == (Acquisition::Wait { until: head.spec_refresh_time() as u64 })
                } else {
                    acquisition == Acquisition::Granted(head.spec_spent_one())
                }
            }),
    {
        let ghost before = queue@;
        assert(before[0].spec_authenticated());
        let (account_refresh_timestamp, requests_limit) = match &queue[0].session {
            Some(session) => (session.refresh_time(), session.requests_limit),
            None => (0, 0),
        };
        if requests_limit == 0 {
            return Acquisition::Wait { until: account_refresh_timestamp };
        }
        let mut account = queue.remove(0);
        assert(queue@ =~= before.drop_first());
        assert forall|i: int| 0 <= i < queue@.len() implies (
        #[trigger] queue@[i]).spec_authenticated() by {
            assert(queue@[i] == before[i + 1]);
        }
        account.session = match account.session {
            Some(session) => Some(
                AccountSession {
                    token: session.token,
                    retrieve_timestamp: session.retrieve_timestamp,
                    millis_to_refresh: session.millis_to_refresh,
                    requests_limit: session.requests_limit - 1,
                },
            ),
            None => None,
        };
        assert(account == before[0].spec_spent_one());
        let granted = account.clone();
        if requests_limit == 1 {
            AccountPool::move_end(queue, account, account_refresh_timestamp);
        } else {
            queue.insert(0, account);
            assert(queue@ =~= before.update(0, before[0].spec_spent_one()));
        }
        Acquisition::Granted(granted)
    }

    /// Puts `account` into the queue where `account_refresh_timestamp` takes
    /// it: walking from the back, behind the first account that refreshes
    /// earlier, and at the front if none does.
    pub fn move_end(queue: &mut AccountQueue, account: Account, account_refresh_timestamp: u64)
        requires
            spec_all_authenticated(old(queue)@),
        ensures
            final(queue)@ == spec_move_end(
                old(queue)@,
                account,
                account_refresh_timestamp as int,
            ),
            account.spec_authenticated() ==> spec_all_authenticated(final(queue)@),
    {
        let ghost before = queue@;
        let mut position: usize = queue.len();
        assert(before.take(position as int) =~= before);
        while position > 0
            invariant
                queue@ == before,
                spec_all_authenticated(before),
                position <= before.len(),
                spec_landing(before, account_refresh_timestamp as int) == spec_landing(
                    before.take(position as int),
                    account_refresh_timestamp as int,
                ),
            ensures
                position == spec_landing(before, account_refresh_timestamp as int),
            decreases position,
        {
            let ghost walked = before.take(position as int);
            assert(walked.last() == before[position - 1]);
            assert(walked.drop_last() =~= before.take(position - 1));
            assert(before[position - 1].spec_authenticated());
            let queue_account_refresh = match &queue[position - 1].session {
                Some(session) => session.refresh_time(),
                None => 0,
            };
            if queue_account_refresh < account_refresh_timestamp {
                assert(spec_landing(walked, account_refresh_timestamp as int) == position);
                break ;
            }
            position = position - 1;
        }
        proof {
            lemma_landing(before, account_refresh_timestamp as int);
        }
        queue.insert(position, account);
        assert forall|i: int| 0 <= i < queue@.len() && account.spec_authenticated() implies (
        #[trigger] queue@[i]).spec_authenticated() by {
            if i < position {
                assert(queue@[i] == before[i]);
            } else if i > position {
                assert(queue@[i] == before[i - 1]);
            }
        }
    }
}

/// The queue with `session` put in the place of the session of the first
/// account that holds the credentials `account_data`; the queue itself where
/// no account holds them.
pub open spec fn spec_with_session(
    queue: Seq<Account>,
    account_data: settings::AccountView,
    session: AccountSession,
) -> Seq<Account> {
    match spec_position(queue, account_data, 0) {
        Some(at) => queue.update(at, queue[at].spec_with_session(session)),
        None => queue,
    }
}

/// Where `spec_position` finds the credentials, they are found at a place of
/// the queue, and nowhere before it.
pub proof fn lemma_position(queue: Seq<Account>, account_data: settings::AccountView, from: int)
    requires
        0 <= from,
    ensures
        match spec_position(queue, account_data, from) {
            Some(at) => {
                &&& from <= at < queue.len()
                &&& queue[at].account_data@ == account_data
                &&& forall|i: int| from <= i < at ==> (#[trigger] queue[i]).account_data@
                    != account_data
            },
            None => forall|i: int|
                from <= i < queue.len() ==> (#[trigger] queue[i]).account_data@ != account_data,
        },
    decreases queue.len() - from,
{
    if from < queue.len() && queue[from].account_data@ != account_data {
        lemma_position(queue, account_data, from + 1);
    }
}

impl AccountPool {
    /// The place in `queue` of the first account with the credentials
    /// `account_data`.
    pub fn position(queue: &AccountQueue, account_data: &settings::Account) -> (found: Option<
        usize,
    >)
        ensures
            match found {
                Some(at) => spec_position(queue@, account_data@, 0) == Some(at as int),
                None => spec_position(queue@, account_data@, 0) is None,
            },
    {
        let mut at: usize = 0;
        while at < queue.len()
            invariant
                at <= queue@.len(),
                spec_position(queue@, account_data@, 0) == spec_position(
                    queue@,
                    account_data@,
                    at as int,
                ),
            decreases queue@.len() - at,
        {
            if queue[at].account_data == *account_data {
                return Some(at);
            }
            at = at + 1;
        }
        None
    }

    /// Puts `session` in the place of the session of the account of
    /// `social_network` that holds the credentials `account_data`, and leaves
    /// the account where it stands. Tells whether there is such an account.
    pub fn replace_session(
        &mut self,
        social_network: SocialNetworkEnum,
        account_data: &settings::Account,
        session: AccountSession,
    ) -> (found: bool)
        requires
            session@.well_formed(),
        ensures
            forall|other: SocialNetworkEnum|
                other != social_network ==> final(self).spec_queue(other) == old(self).spec_queue(
                    other,
                ),
            final(self).spec_queue(social_network) == match old(self).spec_queue(social_network) {
                Some(queue) => Some(spec_with_session(queue, account_data@, session)),
                None => None,
            },
            found == (old(self).spec_queue(social_network) matches Some(queue) && spec_position(
                queue,
                account_data@,
                0,
            ) is Some),
    {
        let (mut queue, kept) = self.take_queue(social_network);
        if !kept {
            assert forall|other: SocialNetworkEnum|
                self.spec_queue(other) == old(self).spec_queue(other) by {}
            return false;
        }
        let ghost before = queue@;
        let found = match AccountPool::position(&queue, account_data) {
            Some(at) => {
                proof {
                    lemma_position(before, account_data@, 0);
                }
                let mut account = queue.remove(at);
                account.session = Some(session);
                queue.insert(at, account);
                assert(queue@ =~= before.update(
                    at as int,
                    before[at as int].spec_with_session(session),
                ));
                assert forall|i: int| 0 <= i < queue@.len() implies (
                #[trigger] queue@[i]).spec_authenticated() by {
                    if i != at {
                        assert(queue@[i] == before[i]);
                        assert(before[i].spec_authenticated());
                    }
                }
                true
            },
            None => false,
        };
        self.put_queue(social_network, queue);
        found
    }

    /// Writes what a response said of time and quota to the session of the
    /// account of `social_network` that holds the credentials `account_data`,
    /// and leaves the account where it stands. Tells whether there is such
    /// an account.
    pub fn update_session(
        &mut self,
        social_network: SocialNetworkEnum,
        account_data: &settings::Account,
        limits: (u64, u64, usize),
    ) -> (found: bool)
        requires
            limits.0 + limits.1 <= u64::MAX,
        ensures
            forall|other: SocialNetworkEnum|
                other != social_network ==> final(self).spec_queue(other) == old(self).spec_queue(
                    other,
                ),
            final(self).spec_queue(social_network) == match old(self).spec_queue(social_network) {
                Some(queue) => match spec_position(queue, account_data@, 0) {
                    Some(at) => Some(queue.update(at, queue[at].spec_with_limits(limits))),
                    None => Some(queue),
                },
                None => None,
            },
            found == (old(self).spec_queue(social_network) matches Some(queue) && spec_position(
                queue,
                account_data@,
                0,
            ) is Some),
    {
        let (mut queue, kept) = self.take_queue(social_network);
        if !kept {
            assert forall|other: SocialNetworkEnum|
                self.spec_queue(other) == old(self).spec_queue(other) by {}
            return false;
        }
        let ghost before = queue@;
        let found = match AccountPool::position(&queue, account_data) {
            Some(at) => {
                proof {
                    lemma_position(before, account_data@, 0);
                    assert(before[at as int].spec_authenticated());
                }
                let mut account = queue.remove(at);
                account.session = match account.session {
                    Some(session) => Some(
                        AccountSession {
                            token: session.token,
                            retrieve_timestamp: limits.0,
                            millis_to_refresh: limits.1,
                            requests_limit: limits.2,
                        },
                    ),
                    None => None,
                };
                queue.insert(at, account);
                assert(queue@ =~= before.update(
                    at as int,
                    before[at as int].spec_with_limits(limits),
                ));
                assert forall|i: int| 0 <= i < queue@.len() implies (
                #[trigger] queue@[i]).spec_authenticated() by {
                    if i != at {
                        assert(queue@[i] == before[i]);
                        assert(before[i].spec_authenticated());
                    }
                }
                true
            },
            None => false,
        };
        self.put_queue(social_network, queue);
        found
    }
}

} // verus!
