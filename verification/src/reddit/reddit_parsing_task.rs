use vstd::prelude::*;
use vstd::string::*;
use crate::utils::text::{copy_optional_text, copy_text};

verus! {

/// What one Reddit fetch asks for: a listing of a thread, or the comments of a post.
#[derive(Debug, PartialEq, Eq, Hash)]
pub enum RedditParsingTask {
    ThreadNew { thread: String, after: Option<String> },
    ThreadTopAllTimeHistory { thread: String, after: Option<String> },
    ThreadTopYearHistory { thread: String, after: Option<String> },
    ThreadTopMonthHistory { thread: String, after: Option<String> },
    ThreadTopWeekHistory { thread: String, after: Option<String> },
    Post { thread: String, id: Option<String>, update_number: u64 },
}

/// Mathematical content of a [`RedditParsingTask`].
pub enum RedditParsingTaskView {
    ThreadNew { thread: Seq<char>, after: Option<Seq<char>> },
    ThreadTopAllTimeHistory { thread: Seq<char>, after: Option<Seq<char>> },
    ThreadTopYearHistory { thread: Seq<char>, after: Option<Seq<char>> },
    ThreadTopMonthHistory { thread: Seq<char>, after: Option<Seq<char>> },
    ThreadTopWeekHistory { thread: Seq<char>, after: Option<Seq<char>> },
    Post { thread: Seq<char>, id: Option<Seq<char>>, update_number: u64 },
}

impl View for RedditParsingTask {
    type V = RedditParsingTaskView;

    open spec fn view(&self) -> RedditParsingTaskView {
        match *self {
            RedditParsingTask::ThreadNew { thread, after } => RedditParsingTaskView::ThreadNew {
                thread: thread@,
                after: after.deep_view(),
            },
            RedditParsingTask::ThreadTopAllTimeHistory { thread, after } => {
                RedditParsingTaskView::ThreadTopAllTimeHistory {
                    thread: thread@,
                    after: after.deep_view(),
                }
            },
            RedditParsingTask::ThreadTopYearHistory { thread, after } => {
                RedditParsingTaskView::ThreadTopYearHistory {
                    thread: thread@,
                    after: after.deep_view(),
                }
            },
            RedditParsingTask::ThreadTopMonthHistory { thread, after } => {
                RedditParsingTaskView::ThreadTopMonthHistory {
                    thread: thread@,
                    after: after.deep_view(),
                }
            },
            RedditParsingTask::ThreadTopWeekHistory { thread, after } => {
                RedditParsingTaskView::ThreadTopWeekHistory {
                    thread: thread@,
                    after: after.deep_view(),
                }
            },
            RedditParsingTask::Post { thread, id, update_number } => RedditParsingTaskView::Post {
                thread: thread@,
                id: id.deep_view(),
                update_number,
            },
        }
    }
}

impl DeepView for RedditParsingTask {
    type V = RedditParsingTaskView;

    open spec fn deep_view(&self) -> RedditParsingTaskView {
        self@
    }
}

/// The marker Reddit puts in front of a post's identifier.
pub open spec fn spec_post_prefix() -> Seq<char> {
    seq!['t', '3', '_']
}

/// `id` without a leading post marker; `id` itself where it carries none.
pub open spec fn spec_strip_post_prefix(id: Seq<char>) -> Seq<char> {
    if id.len() >= 3 && id.subrange(0, 3) == spec_post_prefix() {
        id.skip(3)
    } else {
        id
    }
}

/// The pagination part of a listing request.
pub open spec fn spec_after_filter(after: Option<Seq<char>>) -> Seq<char> {
    match after {
        Some(cursor) => "&after="@ + cursor + "&limit=100"@,
        None => Seq::empty(),
    }
}

impl RedditParsingTaskView {
    pub open spec fn is_post(self) -> bool {
        self is Post
    }

    pub open spec fn thread(self) -> Seq<char> {
        match self {
            RedditParsingTaskView::ThreadNew { thread, .. } => thread,
            RedditParsingTaskView::ThreadTopAllTimeHistory { thread, .. } => thread,
            RedditParsingTaskView::ThreadTopYearHistory { thread, .. } => thread,
            RedditParsingTaskView::ThreadTopMonthHistory { thread, .. } => thread,
            RedditParsingTaskView::ThreadTopWeekHistory { thread, .. } => thread,
            RedditParsingTaskView::Post { thread, .. } => thread,
        }
    }

    /// The pagination cursor of a listing task; a post task has none.
    pub open spec fn after(self) -> Option<Seq<char>> {
        match self {
            RedditParsingTaskView::ThreadNew { after, .. } => after,
            RedditParsingTaskView::ThreadTopAllTimeHistory { after, .. } => after,
            RedditParsingTaskView::ThreadTopYearHistory { after, .. } => after,
            RedditParsingTaskView::ThreadTopMonthHistory { after, .. } => after,
            RedditParsingTaskView::ThreadTopWeekHistory { after, .. } => after,
            RedditParsingTaskView::Post { .. } => None,
        }
    }

    /// The same listing with its cursor replaced; a post task is left as it is.
    pub open spec fn with_after(self, parameter: Option<Seq<char>>) -> RedditParsingTaskView {
        match self {
            RedditParsingTaskView::ThreadNew { thread, .. } => RedditParsingTaskView::ThreadNew {
                thread,
                after: parameter,
            },
            RedditParsingTaskView::ThreadTopAllTimeHistory { thread, .. } => {
                RedditParsingTaskView::ThreadTopAllTimeHistory { thread, after: parameter }
            },
            RedditParsingTaskView::ThreadTopYearHistory { thread, .. } => {
                RedditParsingTaskView::ThreadTopYearHistory { thread, after: parameter }
            },
            RedditParsingTaskView::ThreadTopMonthHistory { thread, .. } => {
                RedditParsingTaskView::ThreadTopMonthHistory { thread, after: parameter }
            },
            RedditParsingTaskView::ThreadTopWeekHistory { thread, .. } => {
                RedditParsingTaskView::ThreadTopWeekHistory { thread, after: parameter }
            },
            RedditParsingTaskView::Post { .. } => self,
        }
    }

    /// The variant's name, which is also the task's action type.
    pub open spec fn name(self) -> Seq<char> {
        match self {
            RedditParsingTaskView::ThreadNew { .. } => "ThreadNew"@,
            RedditParsingTaskView::ThreadTopAllTimeHistory { .. } => "ThreadTopAllTimeHistory"@,
            RedditParsingTaskView::ThreadTopYearHistory { .. } => "ThreadTopYearHistory"@,
            RedditParsingTaskView::ThreadTopMonthHistory { .. } => "ThreadTopMonthHistory"@,
            RedditParsingTaskView::ThreadTopWeekHistory { .. } => "ThreadTopWeekHistory"@,
            RedditParsingTaskView::Post { .. } => "Post"@,
        }
    }

    /// Path and fixed filter of a listing request.
    pub open spec fn base_request(self) -> Seq<char>
        recommends
            !self.is_post(),
    {
        match self {
            RedditParsingTaskView::ThreadNew { .. } => "new.json?"@,
            RedditParsingTaskView::ThreadTopAllTimeHistory { .. } => "top.json?t=all"@,
            RedditParsingTaskView::ThreadTopYearHistory { .. } => "top.json?t=year"@,
            RedditParsingTaskView::ThreadTopMonthHistory { .. } => "top.json?t=month"@,
            RedditParsingTaskView::ThreadTopWeekHistory { .. } => "top.json?t=week"@,
            RedditParsingTaskView::Post { .. } => Seq::empty(),
        }
    }

    pub open spec fn request_string(self) -> Seq<char>
        recommends
            !self.is_post(),
    {
        self.base_request() + spec_after_filter(self.after())
    }

    /// The address the task is fetched from.
    pub open spec fn url(self) -> Seq<char> {
        match self {
            RedditParsingTaskView::Post { thread, id, .. } => {
                let stripped = match id {
                    Some(id) => spec_strip_post_prefix(id),
                    None => Seq::empty(),
                };
                "https://oauth.reddit.com/"@ + thread + "/comments/"@ + stripped
                    + "?sort=top.json"@
            },
            _ => "https://oauth.reddit.com/"@ + self.thread() + "/"@ + self.request_string(),
        }
    }

    /// The five listings a thread is seeded with, none of them paginated yet.
    pub open spec fn all(thread: Seq<char>) -> Seq<RedditParsingTaskView> {
        seq![
            RedditParsingTaskView::ThreadNew { thread, after: None },
            RedditParsingTaskView::ThreadTopWeekHistory { thread, after: None },
            RedditParsingTaskView::ThreadTopMonthHistory { thread, after: None },
            RedditParsingTaskView::ThreadTopYearHistory { thread, after: None },
            RedditParsingTaskView::ThreadTopAllTimeHistory { thread, after: None },
        ]
    }
}

/// Removes the post marker from the front of `id`, if it is there.
pub fn strip_post_prefix(id: &str) -> (stripped: String)
    ensures
        stripped@ == spec_strip_post_prefix(id@),
{
    let length = id.unicode_len();
    if length >= 3 && id.get_char(0) == 't' && id.get_char(1) == '3' && id.get_char(2) == '_' {
        assert(id@.subrange(0, 3) =~= spec_post_prefix());
        let rest = id.substring_char(3, length);
        assert(rest@ =~= id@.skip(3));
        String::from_str(rest)
    } else {
        proof {
            if id@.len() >= 3 {
                let head = id@.subrange(0, 3);
                assert(head[0] == id@[0] && head[1] == id@[1] && head[2] == id@[2]);
                assert(spec_post_prefix()[0] == 't' && spec_post_prefix()[1] == '3'
                    && spec_post_prefix()[2] == '_');
            }
        }
        String::from_str(id)
    }
}

impl Clone for RedditParsingTask {
    fn clone(&self) -> (copy: Self)
        ensures
            copy == *self,
            copy@ == self@,
    {
        match self {
            RedditParsingTask::ThreadNew { thread, after } => RedditParsingTask::ThreadNew {
                thread: copy_text(thread),
                after: copy_optional_text(after),
            },
            RedditParsingTask::ThreadTopAllTimeHistory { thread, after } => {
                RedditParsingTask::ThreadTopAllTimeHistory {
                    thread: copy_text(thread),
                    after: copy_optional_text(after),
                }
            },
            RedditParsingTask::ThreadTopYearHistory { thread, after } => {
                RedditParsingTask::ThreadTopYearHistory {
                    thread: copy_text(thread),
                    after: copy_optional_text(after),
                }
            },
            RedditParsingTask::ThreadTopMonthHistory { thread, after } => {
                RedditParsingTask::ThreadTopMonthHistory {
                    thread: copy_text(thread),
                    after: copy_optional_text(after),
                }
            },
            RedditParsingTask::ThreadTopWeekHistory { thread, after } => {
                RedditParsingTask::ThreadTopWeekHistory {
                    thread: copy_text(thread),
                    after: copy_optional_text(after),
                }
            },
            RedditParsingTask::Post { thread, id, update_number } => RedditParsingTask::Post {
                thread: copy_text(thread),
                id: copy_optional_text(id),
                update_number: *update_number,
            },
        }
    }
}

impl RedditParsingTask {
    pub fn get_all(thread: &String) -> (all: Vec<RedditParsingTask>)
        ensures
            all.deep_view() == RedditParsingTaskView::all(thread@),
    {
        let all = vec![
            RedditParsingTask::ThreadNew { thread: copy_text(thread), after: None },
            RedditParsingTask::ThreadTopWeekHistory { thread: copy_text(thread), after: None },
            RedditParsingTask::ThreadTopMonthHistory { thread: copy_text(thread), after: None },
            RedditParsingTask::ThreadTopYearHistory { thread: copy_text(thread), after: None },
            RedditParsingTask::ThreadTopAllTimeHistory { thread: copy_text(thread), after: None },
        ];
        assert(all.deep_view() =~= RedditParsingTaskView::all(thread@));
        all
    }

    pub fn to_url(&self) -> (url: String)
        ensures
            url@ == self@.url(),
    {
        match self {
            RedditParsingTask::Post { thread, id, .. } => {
                let stripped = match id {
                    Some(id) => strip_post_prefix(id.as_str()),
                    None => String::new(),
                };
                let mut url = String::from_str("https://oauth.reddit.com/");
                url.append(thread.as_str());
                url.append("/comments/");
                url.append(stripped.as_str());
                url.append("?sort=top.json");
                url
            },
            _ => {
                let thread = self.get_thread();
                let request = self.get_url_request_string();
                let mut url = String::from_str("https://oauth.reddit.com/");
                url.append(thread.as_str());
                url.append("/");
                url.append(request.as_str());
                assert(url@ =~= "https://oauth.reddit.com/"@ + self@.thread() + "/"@
                    + self@.request_string());
                url
            },
        }
    }

    pub fn get_url_request_string(&self) -> (request: String)
        requires
            !self@.is_post(),
        ensures
            request@ == self@.request_string(),
    {
        let mut request = match self {
            RedditParsingTask::ThreadNew { .. } => String::from_str("new.json?"),
            RedditParsingTask::ThreadTopAllTimeHistory { .. } => String::from_str("top.json?t=all"),
            RedditParsingTask::ThreadTopYearHistory { .. } => String::from_str("top.json?t=year"),
            RedditParsingTask::ThreadTopMonthHistory { .. } => String::from_str(
                "top.json?t=month",
            ),
            RedditParsingTask::ThreadTopWeekHistory { .. } => String::from_str("top.json?t=week"),
            RedditParsingTask::Post { .. } => String::new(),
        };
        match self.get_after() {
            Some(cursor) => {
                request.append("&after=");
                request.append(cursor.as_str());
                request.append("&limit=100");
                assert(request@ =~= self@.request_string());
            },
            None => {
                assert(request@ =~= self@.request_string());
            },
        }
        request
    }

    pub fn get_after(&self) -> (after: Option<String>)
        requires
            !self@.is_post(),
        ensures
            after.deep_view() == self@.after(),
    {
        match self {
            RedditParsingTask::ThreadNew { after, .. } => copy_optional_text(after),
            RedditParsingTask::ThreadTopAllTimeHistory { after, .. } => copy_optional_text(after),
            RedditParsingTask::ThreadTopYearHistory { after, .. } => copy_optional_text(after),
            RedditParsingTask::ThreadTopMonthHistory { after, .. } => copy_optional_text(after),
            RedditParsingTask::ThreadTopWeekHistory { after, .. } => copy_optional_text(after),
            RedditParsingTask::Post { .. } => None,
        }
    }

    pub fn get_thread(&self) -> (thread: String)
        ensures
            thread@ == self@.thread(),
    {
        match self {
            RedditParsingTask::ThreadNew { thread, .. } => copy_text(thread),
            RedditParsingTask::ThreadTopAllTimeHistory { thread, .. } => copy_text(thread),
            RedditParsingTask::ThreadTopYearHistory { thread, .. } => copy_text(thread),
            RedditParsingTask::ThreadTopMonthHistory { thread, .. } => copy_text(thread),
            RedditParsingTask::ThreadTopWeekHistory { thread, .. } => copy_text(thread),
            RedditParsingTask::Post { thread, .. } => copy_text(thread),
        }
    }

    pub fn with_parameter(&self, parameter: Option<String>) -> (task: RedditParsingTask)
        ensures
            task@ == self@.with_after(parameter.deep_view()),
    {
        match self {
            RedditParsingTask::ThreadNew { thread, .. } => RedditParsingTask::ThreadNew {
                thread: copy_text(thread),
                after: parameter,
            },
            RedditParsingTask::ThreadTopAllTimeHistory { thread, .. } => {
                RedditParsingTask::ThreadTopAllTimeHistory {
                    thread: copy_text(thread),
                    after: parameter,
                }
            },
            RedditParsingTask::ThreadTopYearHistory { thread, .. } => {
                RedditParsingTask::ThreadTopYearHistory {
                    thread: copy_text(thread),
                    after: parameter,
                }
            },
            RedditParsingTask::ThreadTopMonthHistory { thread, .. } => {
                RedditParsingTask::ThreadTopMonthHistory {
                    thread: copy_text(thread),
                    after: parameter,
                }
            },
            RedditParsingTask::ThreadTopWeekHistory { thread, .. } => {
                RedditParsingTask::ThreadTopWeekHistory {
                    thread: copy_text(thread),
                    after: parameter,
                }
            },
            RedditParsingTask::Post { thread, id, update_number } => RedditParsingTask::Post {
                thread: copy_text(thread),
                id: copy_optional_text(id),
                update_number: *update_number,
            },
        }
    }

    /// The variant's name.
    pub fn to_string(&self) -> (name: String)
        ensures
            name@ == self@.name(),
    {
        match self {
            RedditParsingTask::ThreadNew { .. } => String::from_str("ThreadNew"),
            RedditParsingTask::ThreadTopAllTimeHistory { .. } => String::from_str(
                "ThreadTopAllTimeHistory",
            ),
            RedditParsingTask::ThreadTopYearHistory { .. } => String::from_str(
                "ThreadTopYearHistory",
            ),
            RedditParsingTask::ThreadTopMonthHistory { .. } => String::from_str(
                "ThreadTopMonthHistory",
            ),
            RedditParsingTask::ThreadTopWeekHistory { .. } => String::from_str(
                "ThreadTopWeekHistory",
            ),
            RedditParsingTask::Post { .. } => String::from_str("Post"),
        }
    }
}

} // verus!
