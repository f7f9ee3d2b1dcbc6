use vstd::prelude::*;
use vstd::string::*;
use mongodb::bson::oid::ObjectId;
use crate::client::parser_v2::account_manager::account::{
    Account,
    AccountSession,
    AccountSessionView,
};
use crate::client::db::tasks_db::StatusUpdate;
use crate::client::settings;
use crate::client::settings::{Properties, PropertyValueView, Settings, spec_lookup};
use crate::commons::entity::{Entity, EntityView};
use crate::commons::parsing_tasks::{
    ParsingTask,
    ParsingTaskParameters,
    ParsingTaskParametersView,
    ParsingTaskStatus,
    ParsingTaskView,
};
use crate::commons::social_network::{SettingsError, SocialNetwork, SocialNetworkEnum};
use crate::reddit::data_types::reddit_auth::AuthResponse;
use crate::reddit::data_types::reddit_post::PostView;
use crate::reddit::data_types::reddit_response_body::ResponseBody;
use crate::reddit::reddit_parsing_task::{RedditParsingTask, RedditParsingTaskView};
use crate::utils::number::{parse_u64, spec_parse_u64};
use crate::utils::text::{copy_text, same_text};
use crate::utils::time::{get_timestamp, parse_http_date, spec_http_date_seconds};

verus! {

/// The update number that a post found on a listing page starts with.
pub const LISTED_POST_UPDATE_NUMBER: u64 = 5;

/// The highest update number after which a post is fetched once more.
pub const LAST_REPEATED_UPDATE: u64 = 2;

/// How long after a fetch of a post its next fetch is due, in milliseconds.
pub const POST_UPDATE_DELAY: u64 = 3_600_000;

/// What is assumed of the refresh interval where a response does not tell.
pub const DEFAULT_MILLIS_TO_REFRESH: u64 = 400;

pub const STATUS_OK: u16 = 200;

pub const STATUS_FORBIDDEN: u16 = 403;

/// The handler for Reddit.
#[derive(Debug, Clone, PartialEq, Eq)]
pub struct Reddit {
    pub auth_url: String,
    pub enable_comments_parsing: bool,
}

impl Default for Reddit {
    fn default() -> (handler: Self)
        ensures
            handler.auth_url@ == "https://www.reddit.com/api/v1/access_token"@,
            handler.enable_comments_parsing,
    {
        Self {
            auth_url: String::from_str("https://www.reddit.com/api/v1/access_token"),
            enable_comments_parsing: true,
        }
    }
}

/// The three headers of a response that tell of time and quota. `remaining`
/// holds the number that the quota header writes, its fraction dropped, where
/// the header is there and writes a number.
#[derive(Debug, Clone, PartialEq, Eq)]
pub struct RateLimitHeaders {
    pub date: Option<String>,
    pub reset: Option<String>,
    pub remaining: Option<usize>,
}

/// A count of seconds in the sixty-four bits of an unsigned number: itself
/// where it is not negative, and two to the sixty-fourth more where it is.
pub open spec fn spec_seconds_as_unsigned(seconds: i64) -> u64 {
    if seconds >= 0 {
        seconds as u64
    } else {
        (seconds + 0x1_0000_0000_0000_0000) as u64
    }
}

/// The time a response was made at, given what was read out of its date.
pub open spec fn spec_response_timestamp(parsed: Option<i64>) -> u64 {
    match parsed {
        Some(seconds) => spec_seconds_as_unsigned(seconds),
        None => 0,
    }
}

/// The time, the refresh interval and the quota that the headers tell of.
pub open spec fn spec_limits(
    date: Option<Seq<char>>,
    reset: Option<Seq<char>>,
    remaining: Option<usize>,
) -> (u64, u64, usize) {
    (
        match date {
            Some(date) => spec_response_timestamp(spec_http_date_seconds(date)),
            None => 0,
        },
        match reset {
            Some(reset) => match spec_parse_u64(reset) {
                Some(millis) => millis,
                None => DEFAULT_MILLIS_TO_REFRESH,
            },
            None => DEFAULT_MILLIS_TO_REFRESH,
        },
        match remaining {
            Some(remaining) => remaining,
            None => 0,
        },
    )
}

/// The time a response was made at, given what was read out of its date.
pub fn response_timestamp(parsed: Option<i64>) -> (timestamp: u64)
    ensures
        timestamp == spec_response_timestamp(parsed),
{
    match parsed {
        Some(seconds) => {
            if seconds >= 0 {
                seconds as u64
            } else {
                u64::MAX - ((-(seconds + 1)) as u64)
            }
        },
        None => 0,
    }
}

/// The task a listed or re-fetched post is fetched by.
pub open spec fn spec_post_task(
    thread: Seq<char>,
    id: Option<Seq<char>>,
    update_number: u64,
    execution_time: u64,
) -> ParsingTaskView {
    ParsingTaskView::created(
        ParsingTaskParametersView::Reddit(
            RedditParsingTaskView::Post { thread, id, update_number },
        ),
        execution_time,
    )
}

/// What a listing page spawns: a task for each post on it, in the page's
/// order, and after them the task for the next page, where there is one.
pub open spec fn spec_thread_spawn(
    task: RedditParsingTaskView,
    after: Option<Seq<char>>,
    posts: Seq<PostView>,
    now: u64,
) -> Seq<ParsingTaskView> {
    Seq::new(
        posts.len(),
        |i: int| spec_post_task(task.thread(), Some(posts[i].id), LISTED_POST_UPDATE_NUMBER, now),
    ) + match after {
        Some(cursor) => seq![
            ParsingTaskView::created(
                ParsingTaskParametersView::Reddit(task.with_after(Some(cursor))),
                now,
            ),
        ],
        None => Seq::empty(),
    }
}

/// Whether the page of a post is fetched again after this fetch.
pub open spec fn spec_repeats(task: RedditParsingTaskView) -> bool {
    task is Post && task->update_number <= LAST_REPEATED_UPDATE
}

/// What the page of a post spawns: its next fetch, an hour later, as long as
/// the post has not been fetched often enough.
pub open spec fn spec_comments_spawn(task: RedditParsingTaskView, now: u64) -> Seq<
    ParsingTaskView,
> {
    if spec_repeats(task) {
        seq![
            spec_post_task(
                task.thread(),
                task->id,
                (task->update_number + 1) as u64,
                (now + POST_UPDATE_DELAY) as u64,
            ),
        ]
    } else {
        Seq::empty()
    }
}

/// The tasks that a page spawns for the task that fetched it.
pub open spec fn spec_spawn(task: RedditParsingTaskView, body: ResponseBody, now: u64) -> Seq<
    ParsingTaskView,
>
    recommends
        body.spec_is_ok(),
{
    match body {
        ResponseBody::Thread(page) => spec_thread_spawn(
            task,
            page->Ok_0.spec_after(),
            page->Ok_0.spec_posts(),
            now,
        ),
        ResponseBody::Comments(_) => spec_comments_spawn(task, now),
    }
}

/// The entities that a page holds.
pub open spec fn spec_entities(body: ResponseBody) -> Seq<EntityView>
    recommends
        body.spec_is_ok(),
{
    match body {
        ResponseBody::Thread(page) => {
            let posts = page->Ok_0.spec_posts();
            Seq::new(posts.len(), |i: int| EntityView::of_post(posts[i]))
        },
        ResponseBody::Comments(page) => {
            let comments = page->Ok_0.spec_comments();
            Seq::new(comments.len(), |i: int| EntityView::of_comment(comments[i]))
        },
    }
}

/// A listing page without a cursor spawns the tasks of its posts and nothing
/// else: no further page is asked for.
pub proof fn lemma_last_page_spawns_no_listing(
    task: RedditParsingTaskView,
    posts: Seq<PostView>,
    now: u64,
)
    ensures
        spec_thread_spawn(task, None, posts, now).len() == posts.len(),
        forall|i: int|
            0 <= i < posts.len() ==> (#[trigger] spec_thread_spawn(
                task,
                None,
                posts,
                now,
            )[i]).parameters.reddit() is Post,
{
}

/// A page with a cursor spawns exactly one task more than it has posts, the
/// last one: the same listing, from the cursor on.
pub proof fn lemma_next_page_is_spawned_once(
    task: RedditParsingTaskView,
    cursor: Seq<char>,
    posts: Seq<PostView>,
    now: u64,
)
    ensures
        spec_thread_spawn(task, Some(cursor), posts, now).len() == posts.len() + 1,
        spec_thread_spawn(task, Some(cursor), posts, now).last()
            == ParsingTaskView::created(
            ParsingTaskParametersView::Reddit(task.with_after(Some(cursor))),
            now,
        ),
{
}

/// A post is fetched again exactly as long as its update number is at most
/// two: then its page spawns one task, and none after that.
pub proof fn lemma_post_repeats_up_to_two(
    thread: Seq<char>,
    id: Option<Seq<char>>,
    update_number: u64,
    now: u64,
)
    ensures
        ({
            let task = RedditParsingTaskView::Post { thread, id, update_number };
            let spawned = spec_comments_spawn(task, now);
            &&& update_number <= 2 ==> spawned.len() == 1
            &&& update_number > 2 ==> spawned.len() == 0
        }),
{
}

/// Every spawned task starts new, is not stored yet, and is labelled by what
/// it asks for.
pub proof fn lemma_spawned_tasks_are_new(
    task: RedditParsingTaskView,
    body: ResponseBody,
    now: u64,
    i: int,
)
    requires
        body.spec_is_ok(),
        0 <= i < spec_spawn(task, body, now).len(),
    ensures
        spec_spawn(task, body, now)[i].status == ParsingTaskStatus::New,
        spec_spawn(task, body, now)[i].id is None,
        spec_spawn(task, body, now)[i].well_formed(),
        spec_spawn(task, body, now)[i].social_network == SocialNetworkEnum::Reddit,
{
}

/// Fetching the same page for the same task once more spawns the same tasks,
/// one for one, but for the times at which they are due.
pub proof fn lemma_rerun_spawns_same_tasks(
    task: RedditParsingTaskView,
    body: ResponseBody,
    first: u64,
    second: u64,
)
    requires
        body.spec_is_ok(),
    ensures
        spec_spawn(task, body, first).len() == spec_spawn(task, body, second).len(),
        forall|i: int|
            0 <= i < spec_spawn(task, body, first).len() ==> {
                let one = #[trigger] spec_spawn(task, body, first)[i];
                let other = spec_spawn(task, body, second)[i];
                &&& one.parameters == other.parameters
                &&& one.action_type == other.action_type
                &&& one.social_network == other.social_network
                &&& one.status == other.status
                &&& one.id == other.id
            },
{
}

impl Reddit {
    /// Reads time, refresh interval and quota out of the headers of a
    /// response. A missing or unreadable date counts as zero, a missing or
    /// unreadable interval as 400, a missing or unreadable quota as zero.
    pub fn parse_limits_from_header(headers: &RateLimitHeaders) -> (limits: (u64, u64, usize))
        ensures
            limits == spec_limits(
                headers.date.deep_view(),
                headers.reset.deep_view(),
                headers.remaining,
            ),
    {
        let timestamp = match &headers.date {
            Some(date) => response_timestamp(parse_http_date(date.as_str())),
            None => 0,
        };
        let millis_to_refresh = match &headers.reset {
            Some(reset) => match parse_u64(reset.as_str()) {
                Some(millis) => millis,
                None => DEFAULT_MILLIS_TO_REFRESH,
            },
            None => DEFAULT_MILLIS_TO_REFRESH,
        };
        let requests_limit = match headers.remaining {
            Some(remaining) => remaining,
            None => 0,
        };
        (timestamp, millis_to_refresh, requests_limit)
    }

    /// The tasks to store after `response_body` was fetched for `parsing_task`
    /// at `now`.
    pub fn spawn_new_tasks(
        parsing_task: &ParsingTask,
        response_body: &ResponseBody,
        now: u64,
    ) -> (tasks: Vec<ParsingTask>)
        requires
            response_body.spec_is_ok(),
            response_body is Comments && spec_repeats(parsing_task@.parameters.reddit()) ==> now
                + POST_UPDATE_DELAY <= u64::MAX,
        ensures
            tasks.deep_view() == spec_spawn(parsing_task@.parameters.reddit(), *response_body, now),
    {
        let parameters = parsing_task.parameters.as_ref_reddit();
        match response_body {
            ResponseBody::Thread(thread) => {
                let page = match thread {
                    Ok(page) => page,
                    Err(_) => { return Vec::new(); },
                };
                let children = &page.posts.data.children;
                let mut tasks: Vec<ParsingTask> = Vec::new();
                let mut at: usize = 0;
                while at < children.len()
                    invariant
                        at <= children@.len(),
                        tasks@.len() == at,
                        forall|i: int|
                            0 <= i < at ==> (#[trigger] tasks@[i])@ == spec_post_task(
                                parameters@.thread(),
                                Some(children@[i].data.id@),
                                LISTED_POST_UPDATE_NUMBER,
                                now,
                            ),
                    decreases children@.len() - at,
                {
                    let post = ParsingTaskParameters::Reddit(
                        RedditParsingTask::Post {
                            thread: parameters.get_thread(),
                            id: Some(copy_text(&children[at].data.id)),
                            update_number: LISTED_POST_UPDATE_NUMBER,
                        },
                    );
                    tasks.push(ParsingTask::new(post, now));
                    at = at + 1;
                }
                match &page.posts.data.after {
                    Some(after) => {
                        let next = ParsingTaskParameters::Reddit(
                            parameters.with_parameter(Some(copy_text(after))),
                        );
                        tasks.push(ParsingTask::new(next, now));
                    },
                    None => {},
                }
                assert(tasks.deep_view() =~= spec_thread_spawn(
                    parameters@,
                    page.spec_after(),
                    page.spec_posts(),
                    now,
                ));
                tasks
            },
            ResponseBody::Comments(_) => {
                let mut tasks: Vec<ParsingTask> = Vec::new();
                match parameters {
                    RedditParsingTask::Post { thread, id, update_number } => {
                        if *update_number <= LAST_REPEATED_UPDATE {
                            let next = ParsingTaskParameters::Reddit(
                                RedditParsingTask::Post {
                                    thread: copy_text(thread),
                                    id: crate::utils::text::copy_optional_text(id),
                                    update_number: *update_number + 1,
                                },
                            );
                            tasks.push(ParsingTask::new(next, now + POST_UPDATE_DELAY));
                        }
                    },
                    _ => {},
                }
                assert(tasks.deep_view() =~= spec_comments_spawn(parameters@, now));
                tasks
            },
        }
    }

    /// The entities that a page holds, in the page's order.
    pub fn get_entities(thread: &ResponseBody) -> (entities: Vec<Entity>)
        requires
            thread.spec_is_ok(),
        ensures
            entities.deep_view() == spec_entities(*thread),
    {
        let mut entities: Vec<Entity> = Vec::new();
        match thread {
            ResponseBody::Thread(thread) => {
                let page = match thread {
                    Ok(page) => page,
                    Err(_) => { return entities; },
                };
                let children = &page.posts.data.children;
                let mut at: usize = 0;
                while at < children.len()
                    invariant
                        at <= children@.len(),
                        entities@.len() == at,
                        forall|i: int|
                            0 <= i < at ==> (#[trigger] entities@[i])@ == EntityView::of_post(
                                children@[i].data@,
                            ),
                    decreases children@.len() - at,
                {
                    entities.push(Entity::of_post(&children[at].data));
                    at = at + 1;
                }
                assert(entities.deep_view() =~= spec_entities(ResponseBody::Thread(*thread)));
            },
            ResponseBody::Comments(comments) => {
                let page = match comments {
                    Ok(page) => page,
                    Err(_) => { return entities; },
                };
                let children = &page.comments.data.children;
                let mut at: usize = 0;
                while at < children.len()
                    invariant
                        at <= children@.len(),
                        entities@.len() == at,
                        forall|i: int|
                            0 <= i < at ==> (#[trigger] entities@[i])@ == EntityView::of_comment(
                                children@[i].data@,
                            ),
                    decreases children@.len() - at,
                {
                    entities.push(Entity::of_comment(&children[at].data));
                    at = at + 1;
                }
                assert(entities.deep_view() =~= spec_entities(ResponseBody::Comments(*comments)));
            },
        }
        entities
    }
}

/// What came back for a fetch: the status, the headers that tell of time and
/// quota, and the body as the page the task asked for. The body is read only
/// where the status is 200.
pub struct Fetched {
    pub status: u16,
    pub headers: RateLimitHeaders,
    pub body: Option<ResponseBody>,
}

impl Fetched {
    pub open spec fn spec_limits(&self) -> (u64, u64, usize) {
        spec_limits(
            self.headers.date.deep_view(),
            self.headers.reset.deep_view(),
            self.headers.remaining,
        )
    }

    /// The page was delivered and could be read.
    pub open spec fn spec_page_read(&self) -> bool {
        self.status == STATUS_OK && self.body is Some && self.body->0.spec_is_ok()
    }
}

/// What is to be done after a fetch: what to store, what to write back to the
/// task and to the session of the account, and what to count.
#[derive(Debug)]
pub struct ResponseActions {
    /// The tasks to insert into the task store.
    pub new_tasks: Vec<ParsingTask>,
    /// The entities to upsert into the entity store.
    pub entities: Vec<Entity>,
    /// The status to write to the task that was fetched; `None` leaves it.
    pub status_update: Option<StatusUpdate>,
    /// Time, refresh interval and quota to write to the session; `None` leaves it.
    pub session_limits: Option<(u64, u64, usize)>,
    /// Whether the fetch counts as failed.
    pub failed: bool,
    /// Whether the fetch counts as refused for want of access.
    pub access_failed: bool,
    /// Whether the account is to be authenticated anew.
    pub reauthenticate: bool,
}

/// Mathematical content of [`ResponseActions`].
pub struct ResponseActionsView {
    pub new_tasks: Seq<ParsingTaskView>,
    pub entities: Seq<EntityView>,
    pub status_update: Option<(Seq<ObjectId>, ParsingTaskStatus)>,
    pub session_limits: Option<(u64, u64, usize)>,
    pub failed: bool,
    pub access_failed: bool,
    pub reauthenticate: bool,
}

impl View for ResponseActions {
    type V = ResponseActionsView;

    open spec fn view(&self) -> ResponseActionsView {
        ResponseActionsView {
            new_tasks: self.new_tasks.deep_view(),
            entities: self.entities.deep_view(),
            status_update: match self.status_update {
                Some(update) => Some((update.ids@, update.status)),
                None => None,
            },
            session_limits: self.session_limits,
            failed: self.failed,
            access_failed: self.access_failed,
            reauthenticate: self.reauthenticate,
        }
    }
}

impl ResponseActionsView {
    /// Nothing to store, to write or to count.
    pub open spec fn nothing() -> ResponseActionsView {
        ResponseActionsView {
            new_tasks: Seq::empty(),
            entities: Seq::empty(),
            status_update: None,
            session_limits: None,
            failed: false,
            access_failed: false,
            reauthenticate: false,
        }
    }
}

/// What follows from the outcome of a fetch.
///
/// - No response at all: nothing; the task stays as it is.
/// - Status 200 and a page that could be read: the spawned tasks and the
///   entities of the page are stored, the task becomes processed, and the
///   session takes over what the headers tell.
/// - Status 200 and a page that could not be read: only the session is written.
/// - Any other status: the task becomes new again and the fetch counts as
///   failed; on 403 it also counts as refused, and the account is
///   authenticated anew.
pub open spec fn spec_process_response(
    task: ParsingTaskView,
    response: Option<Fetched>,
    now: u64,
) -> ResponseActionsView {
    match response {
        None => ResponseActionsView::nothing(),
        Some(fetched) => if fetched.status == STATUS_OK {
            if fetched.spec_page_read() {
                ResponseActionsView {
                    new_tasks: spec_spawn(task.parameters.reddit(), fetched.body->0, now),
                    entities: spec_entities(fetched.body->0),
                    status_update: Some((seq![task.id->0], ParsingTaskStatus::Processed)),
                    session_limits: Some(fetched.spec_limits()),
                    ..ResponseActionsView::nothing()
                }
            } else {
                ResponseActionsView {
                    session_limits: Some(fetched.spec_limits()),
                    ..ResponseActionsView::nothing()
                }
            }
        } else {
            ResponseActionsView {
                status_update: Some((seq![task.id->0], ParsingTaskStatus::New)),
                failed: true,
                access_failed: fetched.status == STATUS_FORBIDDEN,
                reauthenticate: fetched.status == STATUS_FORBIDDEN,
                ..ResponseActionsView::nothing()
            }
        },
    }
}

/// What [`Reddit::process_response`] asks of the outcome of a fetch.
pub open spec fn spec_can_process_response(
    task: ParsingTask,
    response: Result<Fetched, reqwest::Error>,
    now: u64,
) -> bool {
    response is Ok ==> {
        let fetched = response->Ok_0;
        &&& fetched.status == STATUS_OK ==> fetched.body is Some
        &&& fetched.status != STATUS_OK || fetched.spec_page_read() ==> task._id is Some
        &&& fetched.spec_page_read() && fetched.body->0 is Comments && spec_repeats(
            task@.parameters.reddit(),
        ) ==> now + POST_UPDATE_DELAY <= u64::MAX
    }
}

/// The kind of page that a task's address answers with.
#[derive(Debug, Clone, Copy, PartialEq, Eq, Structural)]
pub enum PageKind {
    Thread,
    Comments,
}

/// A fetch to make: the address, and the token to present as bearer.
#[derive(Debug, Clone, PartialEq, Eq)]
pub struct PageRequest {
    pub url: String,
    pub bearer_token: String,
}

/// The request for a token: a POST to `url` with basic authentication by
/// `username` and `password`, and `body` as its body.
#[derive(Debug, Clone, PartialEq, Eq)]
pub struct AuthRequest {
    pub url: String,
    pub username: String,
    pub password: Option<String>,
    pub body: String,
}

/// Mathematical content of an [`AuthRequest`].
pub struct AuthRequestView {
    pub url: Seq<char>,
    pub username: Seq<char>,
    pub password: Option<Seq<char>>,
    pub body: Seq<char>,
}

impl View for AuthRequest {
    type V = AuthRequestView;

    open spec fn view(&self) -> AuthRequestView {
        AuthRequestView {
            url: self.url@,
            username: self.username@,
            password: self.password.deep_view(),
            body: self.body@,
        }
    }
}

/// What an account lacks that a token cannot be asked for without.
#[derive(Debug, Clone, Copy, PartialEq, Eq, Structural)]
pub enum AuthError {
    NoPublicKey,
    NoLogin,
    NoPassword,
}

impl AuthError {
    pub open spec fn spec_message(self) -> Seq<char> {
        match self {
            AuthError::NoPublicKey => "no public key"@,
            AuthError::NoLogin => "no login"@,
            AuthError::NoPassword => "no password"@,
        }
    }

    pub fn to_string(&self) -> (message: String)
        ensures
            message@ == self.spec_message(),
    {
        match self {
            AuthError::NoPublicKey => String::from_str("no public key"),
            AuthError::NoLogin => String::from_str("no login"),
            AuthError::NoPassword => String::from_str("no password"),
        }
    }
}

/// The request by which `account` asks `auth_url` for a token. A missing
/// public key is reported before a missing login, and that before a missing
/// password.
pub open spec fn spec_auth_request(auth_url: Seq<char>, account: settings::AccountView) -> Result<
    AuthRequestView,
    AuthError,
> {
    if account.public_key is None {
        Err(AuthError::NoPublicKey)
    } else if account.login is None {
        Err(AuthError::NoLogin)
    } else if account.password is None {
        Err(AuthError::NoPassword)
    } else {
        Ok(
            AuthRequestView {
                url: auth_url,
                username: account.public_key->0,
                password: account.private_key,
                body: "grant_type=password&username="@ + account.login->0 + "&password="@
                    + account.password->0,
            },
        )
    }
}

impl Reddit {
    /// The kind of page to read the body of a response to `task` as.
    pub fn expected_page(task: &ParsingTask) -> (kind: PageKind)
        ensures
            kind == if task@.parameters.reddit() is Post {
                PageKind::Comments
            } else {
                PageKind::Thread
            },
    {
        match task.parameters.as_ref_reddit() {
            RedditParsingTask::Post { .. } => PageKind::Comments,
            _ => PageKind::Thread,
        }
    }

    /// The fetch that `parsing_task` asks for, made in the name of `account`.
    pub fn parse(parsing_task: &ParsingTask, account: &Account) -> (request: PageRequest)
        requires
            account.session is Some,
        ensures
            request.url@ == parsing_task@.parameters.reddit().url(),
            request.bearer_token@ == account@.session->0.token,
    {
        let token = match &account.session {
            Some(session) => copy_text(&session.token),
            None => String::new(),
        };
        PageRequest { url: parsing_task.parameters.as_ref_reddit().to_url(), bearer_token: token }
    }

    /// The request by which `account_data` asks for a token.
    pub fn auth(&self, account_data: &settings::Account) -> (request: Result<
        AuthRequest,
        AuthError,
    >)
        ensures
            match request {
                Ok(request) => spec_auth_request(self.auth_url@, account_data@) == Ok::<
                    AuthRequestView,
                    AuthError,
                >(request@),
                Err(error) => spec_auth_request(self.auth_url@, account_data@) == Err::<
                    AuthRequestView,
                    AuthError,
                >(error),
            },
    {
        let public_key = match &account_data.public_key {
            Some(public_key) => public_key,
            None => { return Err(AuthError::NoPublicKey); },
        };
        let login = match &account_data.login {
            Some(login) => login,
            None => { return Err(AuthError::NoLogin); },
        };
        let password = match &account_data.password {
            Some(password) => password,
            None => { return Err(AuthError::NoPassword); },
        };
        let mut body = String::from_str("grant_type=password&username=");
        body.append(login.as_str());
        body.append("&password=");
        body.append(password.as_str());
        Ok(
            AuthRequest {
                url: copy_text(&self.auth_url),
                username: copy_text(public_key),
                password: crate::utils::text::copy_optional_text(&account_data.private_key),
                body,
            },
        )
    }

    /// The session that a granted token opens: retrieved at `now`, with the
    /// refresh interval and the quota that the headers of the grant tell of.
    pub fn session_from_grant(
        grant: AuthResponse,
        headers: &RateLimitHeaders,
        now: u64,
    ) -> (session: AccountSession)
        ensures
            session@ == (AccountSessionView {
                token: grant.access_token@,
                retrieve_timestamp: now,
                millis_to_refresh: spec_limits(
                    headers.date.deep_view(),
                    headers.reset.deep_view(),
                    headers.remaining,
                ).1,
                requests_limit: spec_limits(
                    headers.date.deep_view(),
                    headers.reset.deep_view(),
                    headers.remaining,
                ).2,
            }),
    {
        let limits = Reddit::parse_limits_from_header(headers);
        AccountSession {
            token: grant.access_token,
            retrieve_timestamp: now,
            millis_to_refresh: limits.1,
            requests_limit: limits.2,
        }
    }

    /// Whether the outcome of a fetch is one that [`Reddit::process_response`]
    /// takes: a delivered page has been read, the task is in the store where
    /// its status is to be written, and the time of the next fetch of a post
    /// is one that the clock can show.
    pub fn can_process_response(
        task: &ParsingTask,
        response: &Result<Fetched, reqwest::Error>,
        now: u64,
    ) -> (possible: bool)
        ensures
            possible == spec_can_process_response(*task, *response, now),
    {
        match response {
            Err(_) => true,
            Ok(fetched) => {
                if fetched.status != STATUS_OK {
                    return task._id.is_some();
                }
                match &fetched.body {
                    None => false,
                    Some(body) => {
                        if !body.is_ok() {
                            return true;
                        }
                        if task._id.is_none() {
                            return false;
                        }
                        match (body, task.parameters.as_ref_reddit()) {
                            (
                                ResponseBody::Comments(_),
                                RedditParsingTask::Post { update_number, .. },
                            ) => *update_number > LAST_REPEATED_UPDATE || now <= u64::MAX
                                - POST_UPDATE_DELAY,
                            _ => true,
                        }
                    },
                }
            },
        }
    }

    /// Decides what follows from the outcome of the fetch for `task`:
    /// `response` is what came back, or the failure to get any response.
    pub fn process_response(
        task: &ParsingTask,
        response: &Result<Fetched, reqwest::Error>,
        now: u64,
    ) -> (actions: ResponseActions)
        requires
            spec_can_process_response(*task, *response, now),
        ensures
            actions@ == spec_process_response(
                task@,
                match *response {
                    Ok(fetched) => Some(fetched),
                    Err(_) => None,
                },
                now,
            ),
    {
        let mut actions = ResponseActions {
            new_tasks: Vec::new(),
            entities: Vec::new(),
            status_update: None,
            session_limits: None,
            failed: false,
            access_failed: false,
            reauthenticate: false,
        };
        assert(actions@.new_tasks =~= Seq::empty());
        assert(actions@.entities =~= Seq::empty());
        let fetched = match response {
            Ok(fetched) => fetched,
            Err(_) => { return actions; },
        };
        if fetched.status == STATUS_OK {
            let limits = Reddit::parse_limits_from_header(&fetched.headers);
            match &fetched.body {
                Some(body) => {
                    if body.is_ok() {
                        actions.new_tasks = Reddit::spawn_new_tasks(task, body, now);
                        actions.entities = Reddit::get_entities(body);
                        actions.status_update = Reddit::status_update(
                            task,
                            ParsingTaskStatus::Processed,
                        );
                    }
                },
                None => {},
            }
            actions.session_limits = Some(limits);
        } else {
            actions.failed = true;
            actions.status_update = Reddit::status_update(task, ParsingTaskStatus::New);
            if fetched.status == STATUS_FORBIDDEN {
                actions.access_failed = true;
                actions.reauthenticate = true;
            }
        }
        actions
    }

    fn status_update(task: &ParsingTask, status: ParsingTaskStatus) -> (update: Option<
        StatusUpdate,
    >)
        requires
            task._id is Some,
        ensures
            update is Some,
            update->0.ids@ == seq![task._id->0],
            update->0.status == status,
    {
        match task._id {
            Some(id) => {
                let ids = vec![id];
                assert(ids@ =~= seq![id]);
                Some(StatusUpdate { ids, status })
            },
            None => None,
        }
    }
}

/// Every status that the handler writes to a fetched task is one that a task
/// in processing may take: a task leaves processing as processed or as new.
pub proof fn lemma_written_status_follows_processing(
    task: ParsingTaskView,
    response: Option<Fetched>,
    now: u64,
)
    ensures
        spec_process_response(task, response, now).status_update matches Some(update)
            ==> ParsingTaskStatus::Processing.may_become(update.1),
{
}

/// A task becomes processed only where its page was delivered and read.
pub proof fn lemma_processed_only_after_page_read(
    task: ParsingTaskView,
    response: Option<Fetched>,
    now: u64,
)
    ensures
        spec_process_response(task, response, now).status_update matches Some(update)
            && update.1 == ParsingTaskStatus::Processed ==> response is Some
            && response->0.spec_page_read(),
{
}

/// The listings that a seed of the kind `kind` stands for on `thread`: all
/// five for `All`, the one of that name for the name of a listing. A post is
/// no seed, and any other word names nothing.
pub open spec fn spec_tasks_of_kind(kind: Seq<char>, thread: Seq<char>) -> Result<
    Seq<RedditParsingTaskView>,
    SettingsError,
> {
    if kind == "All"@ {
        Ok(RedditParsingTaskView::all(thread))
    } else if kind == "ThreadNew"@ {
        Ok(seq![RedditParsingTaskView::ThreadNew { thread, after: None }])
    } else if kind == "ThreadTopAllTimeHistory"@ {
        Ok(seq![RedditParsingTaskView::ThreadTopAllTimeHistory { thread, after: None }])
    } else if kind == "ThreadTopYearHistory"@ {
        Ok(seq![RedditParsingTaskView::ThreadTopYearHistory { thread, after: None }])
    } else if kind == "ThreadTopMonthHistory"@ {
        Ok(seq![RedditParsingTaskView::ThreadTopMonthHistory { thread, after: None }])
    } else if kind == "ThreadTopWeekHistory"@ {
        Ok(seq![RedditParsingTaskView::ThreadTopWeekHistory { thread, after: None }])
    } else if kind == "Post"@ {
        Err(SettingsError::PostSeed)
    } else {
        Err(SettingsError::UnknownTaskType)
    }
}

/// The listings that one seed stands for. A seed names its thread under
/// `thread` and may name a kind under `task_type`; without a kind it stands
/// for all five listings.
pub open spec fn spec_seed_tasks(seed: Seq<(Seq<char>, PropertyValueView)>) -> Result<
    Seq<RedditParsingTaskView>,
    SettingsError,
> {
    match spec_lookup(seed, "thread"@) {
        Some(PropertyValueView::Text(thread)) => match spec_lookup(seed, "task_type"@) {
            None => Ok(RedditParsingTaskView::all(thread)),
            Some(PropertyValueView::Text(kind)) => spec_tasks_of_kind(kind, thread),
            Some(_) => Err(SettingsError::UnknownTaskType),
        },
        _ => Err(SettingsError::NoThread),
    }
}

/// The listings that the seeds stand for, seed after seed; the error of the
/// first seed that has one.
pub open spec fn spec_seeds_tasks(seeds: Seq<Seq<(Seq<char>, PropertyValueView)>>) -> Result<
    Seq<RedditParsingTaskView>,
    SettingsError,
>
    decreases seeds.len(),
{
    if seeds.len() == 0 {
        Ok(Seq::empty())
    } else {
        match spec_seeds_tasks(seeds.drop_last()) {
            Err(error) => Err(error),
            Ok(before) => match spec_seed_tasks(seeds.last()) {
                Err(error) => Err(error),
                Ok(these) => Ok(before + these),
            },
        }
    }
}

/// The tasks that the settings seed the task store with, all of them due at `now`.
pub open spec fn spec_prepare_parsing_tasks(settings: Settings, now: u64) -> Result<
    Seq<ParsingTaskView>,
    SettingsError,
> {
    match settings.spec_network(SocialNetworkEnum::Reddit) {
        None => Err(SettingsError::NoNetworkSettings),
        Some(network) => match spec_seeds_tasks(network.parsing_tasks.deep_view()) {
            Err(error) => Err(error),
            Ok(listings) => Ok(
                Seq::new(
                    listings.len(),
                    |i: int|
                        ParsingTaskView::created(ParsingTaskParametersView::Reddit(listings[i]), now),
                ),
            ),
        },
    }
}

/// Whether the settings have comments parsed.
pub open spec fn spec_comments_parsing(settings: Settings) -> Result<bool, SettingsError> {
    match settings.spec_network(SocialNetworkEnum::Reddit) {
        None => Err(SettingsError::NoNetworkSettings),
        Some(network) => match spec_lookup(
            network.additional_properties@,
            "enable_comments_parsing"@,
        ) {
            Some(PropertyValueView::Flag(flag)) => Ok(flag),
            Some(_) => Err(SettingsError::PropertyNotFlag),
            None => Err(SettingsError::NoProperty),
        },
    }
}

/// Whether `result` is `expected`, each task taken by its content.
pub open spec fn spec_tasks_match(
    result: Result<Vec<ParsingTask>, SettingsError>,
    expected: Result<Seq<ParsingTaskView>, SettingsError>,
) -> bool {
    match result {
        Ok(tasks) => expected == Ok::<Seq<ParsingTaskView>, SettingsError>(tasks.deep_view()),
        Err(error) => expected == Err::<Seq<ParsingTaskView>, SettingsError>(error),
    }
}

fn single(task: RedditParsingTask) -> (tasks: Vec<RedditParsingTask>)
    ensures
        tasks.deep_view() == seq![task@],
{
    let tasks = vec![task];
    assert(tasks.deep_view() =~= seq![task@]);
    tasks
}

impl Reddit {
    /// The listings that a seed of the kind `kind` stands for on `thread`.
    pub fn tasks_of_kind(kind: &str, thread: &String) -> (result: Result<
        Vec<RedditParsingTask>,
        SettingsError,
    >)
        ensures
            match result {
                Ok(tasks) => spec_tasks_of_kind(kind@, thread@) == Ok::<
                    Seq<RedditParsingTaskView>,
                    SettingsError,
                >(tasks.deep_view()),
                Err(error) => spec_tasks_of_kind(kind@, thread@) == Err::<
                    Seq<RedditParsingTaskView>,
                    SettingsError,
                >(error),
            },
    {
        if same_text(kind, "All") {
            Ok(RedditParsingTask::get_all(thread))
        } else if same_text(kind, "ThreadNew") {
            Ok(single(RedditParsingTask::ThreadNew { thread: copy_text(thread), after: None }))
        } else if same_text(kind, "ThreadTopAllTimeHistory") {
            Ok(
                single(
                    RedditParsingTask::ThreadTopAllTimeHistory {
                        thread: copy_text(thread),
                        after: None,
                    },
                ),
            )
        } else if same_text(kind, "ThreadTopYearHistory") {
            Ok(
                single(
                    RedditParsingTask::ThreadTopYearHistory {
                        thread: copy_text(thread),
                        after: None,
                    },
                ),
            )
        } else if same_text(kind, "ThreadTopMonthHistory") {
            Ok(
                single(
                    RedditParsingTask::ThreadTopMonthHistory {
                        thread: copy_text(thread),
                        after: None,
                    },
                ),
            )
        } else if same_text(kind, "ThreadTopWeekHistory") {
            Ok(
                single(
                    RedditParsingTask::ThreadTopWeekHistory {
                        thread: copy_text(thread),
                        after: None,
                    },
                ),
            )
        } else if same_text(kind, "Post") {
            Err(SettingsError::PostSeed)
        } else {
            Err(SettingsError::UnknownTaskType)
        }
    }

    /// The listings that one seed stands for.
    pub fn seed_tasks(seed: &Properties) -> (result: Result<Vec<RedditParsingTask>, SettingsError>)
        ensures
            match result {
                Ok(tasks) => spec_seed_tasks(seed@) == Ok::<
                    Seq<RedditParsingTaskView>,
                    SettingsError,
                >(tasks.deep_view()),
                Err(error) => spec_seed_tasks(seed@) == Err::<
                    Seq<RedditParsingTaskView>,
                    SettingsError,
                >(error),
            },
    {
        let thread = match seed.get("thread") {
            Some(value) => match value.as_str() {
                Some(thread) => String::from_str(thread),
                None => { return Err(SettingsError::NoThread); },
            },
            None => { return Err(SettingsError::NoThread); },
        };
        match seed.get("task_type") {
            None => Ok(RedditParsingTask::get_all(&thread)),
            Some(value) => match value.as_str() {
                Some(kind) => Reddit::tasks_of_kind(kind, &thread),
                None => Err(SettingsError::UnknownTaskType),
            },
        }
    }

    /// The tasks that the settings seed the task store with, all of them due
    /// at `now`.
    pub fn prepare_parsing_tasks_at(&self, settings: &Settings, now: u64) -> (result: Result<
        Vec<ParsingTask>,
        SettingsError,
    >)
        ensures
            spec_tasks_match(result, spec_prepare_parsing_tasks(*settings, now)),
    {
        let network = match settings.network(SocialNetworkEnum::Reddit) {
            Some(network) => network,
            None => { return Err(SettingsError::NoNetworkSettings); },
        };
        let seeds = &network.parsing_tasks;
        let mut tasks: Vec<ParsingTask> = Vec::new();
        let ghost mut listings: Seq<RedditParsingTaskView> = Seq::empty();
        let mut at: usize = 0;
        assert(seeds.deep_view().take(0) =~= Seq::empty());
        while at < seeds.len()
            invariant
                settings.spec_network(SocialNetworkEnum::Reddit) == Some(*network),
                *seeds == network.parsing_tasks,
                at <= seeds@.len(),
                spec_seeds_tasks(seeds.deep_view().take(at as int)) == Ok::<
                    Seq<RedditParsingTaskView>,
                    SettingsError,
                >(listings),
                tasks@.len() == listings.len(),
                forall|i: int|
                    0 <= i < tasks@.len() ==> (#[trigger] tasks@[i])@ == ParsingTaskView::created(
                        ParsingTaskParametersView::Reddit(listings[i]),
                        now,
                    ),
            decreases seeds@.len() - at,
        {
            let ghost longer = seeds.deep_view().take(at + 1);
            assert(longer.drop_last() =~= seeds.deep_view().take(at as int));
            assert(longer.last() == seeds@[at as int]@);
            match Reddit::seed_tasks(&seeds[at]) {
                Err(error) => {
                    proof {
                        lemma_seed_error_stays(seeds.deep_view(), at + 1);
                    }
                    return Err(error);
                },
                Ok(these) => {
                    let ghost before = listings;
                    let mut next: usize = 0;
                    while next < these.len()
                        invariant
                            next <= these@.len(),
                            tasks@.len() == before.len() + next,
                            forall|i: int|
                                0 <= i < before.len() ==> (#[trigger] tasks@[i])@
                                    == ParsingTaskView::created(
                                    ParsingTaskParametersView::Reddit(before[i]),
                                    now,
                                ),
                            forall|i: int|
                                0 <= i < next ==> (#[trigger] tasks@[before.len() + i])@
                                    == ParsingTaskView::created(
                                    ParsingTaskParametersView::Reddit(these@[i]@),
                                    now,
                                ),
                        decreases these@.len() - next,
                    {
                        tasks.push(
                            ParsingTask::new(
                                ParsingTaskParameters::Reddit(these[next].clone()),
                                now,
                            ),
                        );
                        next = next + 1;
                    }
                    proof {
                        listings = before + these.deep_view();
                        assert forall|i: int| 0 <= i < tasks@.len() implies (
                        #[trigger] tasks@[i])@ == ParsingTaskView::created(
                            ParsingTaskParametersView::Reddit(listings[i]),
                            now,
                        ) by {
                            if i >= before.len() {
                                assert(tasks@[before.len() + (i - before.len())] == tasks@[i]);
                            }
                        }
                    }
                },
            }
            at = at + 1;
        }
        assert(seeds.deep_view().take(at as int) =~= seeds.deep_view());
        assert(tasks.deep_view() =~= Seq::new(
            listings.len(),
            |i: int| ParsingTaskView::created(ParsingTaskParametersView::Reddit(listings[i]), now),
        ));
        Ok(tasks)
    }
}

/// Once the seeds up to some seed have an error, all the seeds have it.
proof fn lemma_seed_error_stays(seeds: Seq<Seq<(Seq<char>, PropertyValueView)>>, upto: int)
    requires
        0 <= upto <= seeds.len(),
        spec_seeds_tasks(seeds.take(upto)) is Err,
    ensures
        spec_seeds_tasks(seeds) == spec_seeds_tasks(seeds.take(upto)),
    decreases seeds.len() - upto,
{
    if upto == seeds.len() {
        assert(seeds.take(upto) =~= seeds);
    } else {
        let longer = seeds.take(upto + 1);
        assert(longer.drop_last() =~= seeds.take(upto));
        lemma_seed_error_stays(seeds, upto + 1);
    }
}

impl SocialNetwork for Reddit {
    /// Takes over from the settings whether comments are parsed. Where the
    /// settings do not say, the handler stays as it is.
    fn apply_settings(&mut self, settings: &Settings) -> (result: Result<(), SettingsError>)
        ensures
            final(self).auth_url == old(self).auth_url,
            match spec_comments_parsing(*settings) {
                Ok(flag) => result is Ok && final(self).enable_comments_parsing == flag,
                Err(error) => result == Err::<(), SettingsError>(error)
                    && final(self).enable_comments_parsing == old(self).enable_comments_parsing,
            },
    {
        let network = match settings.network(SocialNetworkEnum::Reddit) {
            Some(network) => network,
            None => { return Err(SettingsError::NoNetworkSettings); },
        };
        match network.additional_properties.get("enable_comments_parsing") {
            Some(value) => match value.as_bool() {
                Some(flag) => {
                    self.enable_comments_parsing = flag;
                    Ok(())
                },
                None => Err(SettingsError::PropertyNotFlag),
            },
            None => Err(SettingsError::NoProperty),
        }
    }

    /// The tasks that the settings seed the task store with, all of them due
    /// at the time of the call.
    fn prepare_parsing_tasks(&self, settings: &Settings) -> (result: Result<
        Vec<ParsingTask>,
        SettingsError,
    >)
        ensures
            exists|now: u64| spec_tasks_match(result, spec_prepare_parsing_tasks(*settings, now)),
    {
        let now = get_timestamp();
        self.prepare_parsing_tasks_at(settings, now)
    }

    /// One account for each that the settings declare for Reddit, in their
    /// order, without proxy and without session.
    fn prepare_accounts(&self, settings: &Settings) -> (result: Result<
        Vec<Account>,
        SettingsError,
    >)
        ensures
            match settings.spec_network(SocialNetworkEnum::Reddit) {
                None => result == Err::<Vec<Account>, SettingsError>(
                    SettingsError::NoNetworkSettings,
                ),
                Some(network) => {
                    &&& result is Ok
                    &&& result->Ok_0@.len() == network.accounts@.len()
                    &&& forall|i: int|
                        0 <= i < network.accounts@.len() ==> {
                            let account = #[trigger] result->Ok_0@[i];
                            &&& account.account_data@ == network.accounts@[i]@
                            &&& account.proxy is None
                            &&& account.session is None
                        }
                },
            },
    {
        let network = match settings.network(SocialNetworkEnum::Reddit) {
            Some(network) => network,
            None => { return Err(SettingsError::NoNetworkSettings); },
        };
        let mut accounts: Vec<Account> = Vec::new();
        let mut at: usize = 0;
        while at < network.accounts.len()
            invariant
                at <= network.accounts@.len(),
                accounts@.len() == at,
                forall|i: int|
                    0 <= i < at ==> {
                        let account = #[trigger] accounts@[i];
                        &&& account.account_data@ == network.accounts@[i]@
                        &&& account.proxy is None
                        &&& account.session is None
                    },
            decreases network.accounts@.len() - at,
        {
            accounts.push(Account::new(network.accounts[at].clone(), None));
            at = at + 1;
        }
        Ok(accounts)
    }
}

} // verus!
