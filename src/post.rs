//! Marketplace listings and their lifecycle.
use vstd::prelude::*;

verus! {

/// Seconds between a post's creation and its expiry.
pub const EXPIRY_WINDOW_SECS: u64 = 86400;

/// The karma change a post carries from creation.
pub const INITIAL_KARMA_DIFF: i32 = -1;

/// Listing direction: offering (`ISO`) or requesting (`OSI`).
#[derive(Clone, Copy, Debug, Default, PartialEq, Eq, Structural)]
pub enum PostType {
    #[default]
    ISO,
    OSI,
}

/// Lifecycle of a post. `Draft` is the state at creation and counts as live.
#[derive(Clone, Copy, Debug, Default, PartialEq, Eq, Structural)]
pub enum PostState {
    #[default]
    Draft,
    Posted,
    Accepted,
    Expired,
}

/// Urgency and duration of what a post offers; informational only.
#[derive(Clone, Copy, Debug, Default, PartialEq, Eq, Structural)]
pub enum TimeType {
    ServiceNow,
    ServiceFuture,
    #[default]
    ItemPermanant,
    ItemLoan,
}

/// A listing in the feed.
#[derive(Clone, Debug, Default)]
pub struct Post {
    pub uuid: String,
    pub title: String,
    pub iso_or_osi: PostType,
    pub state: PostState,
    pub location_string: String,
    pub time_posted: u64,
    pub time_expires: u64,
    pub time_accepted: Option<u64>,
    pub user_owner: String,
    pub user_acceptor: Option<String>,
    pub karma_diff: i32,
    pub views: u64,
    pub time_type: TimeType,
    pub tags: Vec<String>,
}

/// The mathematical value of a `Post`.
pub struct PostView {
    pub uuid: Seq<char>,
    pub title: Seq<char>,
    pub iso_or_osi: PostType,
    pub state: PostState,
    pub location_string: Seq<char>,
    pub time_posted: u64,
    pub time_expires: u64,
    pub time_accepted: Option<u64>,
    pub user_owner: Seq<char>,
    pub user_acceptor: Option<Seq<char>>,
    pub karma_diff: i32,
    pub views: u64,
    pub time_type: TimeType,
    pub tags: Seq<Seq<char>>,
}

pub open spec fn string_views(v: Seq<String>) -> Seq<Seq<char>> {
    v.map_values(|s: String| s@)
}

pub open spec fn opt_string_view(o: Option<String>) -> Option<Seq<char>> {
    match o {
        Some(s) => Some(s@),
        None => None,
    }
}

impl View for Post {
    type V = PostView;

    open spec fn view(&self) -> PostView {
        PostView {
            uuid: self.uuid@,
            title: self.title@,
            iso_or_osi: self.iso_or_osi,
            state: self.state,
            location_string: self.location_string@,
            time_posted: self.time_posted,
            time_expires: self.time_expires,
            time_accepted: self.time_accepted,
            user_owner: self.user_owner@,
            user_acceptor: opt_string_view(self.user_acceptor),
            karma_diff: self.karma_diff,
            views: self.views,
            time_type: self.time_type,
            tags: string_views(self.tags@),
        }
    }
}

/// The post that creation yields from its inputs, a fresh id and the time.
pub open spec fn new_post_view(
    uuid: Seq<char>,
    title: Seq<char>,
    post_type: PostType,
    owner_uuid: Seq<char>,
    time_type: TimeType,
    tags: Seq<Seq<char>>,
    location_string: Seq<char>,
    now: u64,
) -> PostView {
    PostView {
        uuid,
        title,
        iso_or_osi: post_type,
        state: PostState::Draft,
        location_string,
        time_posted: now,
        time_expires: (now + EXPIRY_WINDOW_SECS) as u64,
        time_accepted: None,
        user_owner: owner_uuid,
        user_acceptor: None,
        karma_diff: INITIAL_KARMA_DIFF,
        views: 0,
        time_type,
        tags,
    }
}

/// The post after `acceptor` claimed it at time `now`.
pub open spec fn claimed_view(p: PostView, acceptor: Seq<char>, now: u64) -> PostView {
    PostView { state: PostState::Accepted, user_acceptor: Some(acceptor), time_accepted: Some(now), ..p }
}

/// Copies a list of strings element by element.
pub fn copy_strings(v: &Vec<String>) -> (r: Vec<String>)
    ensures
        r@ == v@,
{
    let mut r: Vec<String> = Vec::new();
    let mut i: usize = 0;
    while i < v.len()
        invariant
            i <= v@.len(),
            r@ == v@.subrange(0, i as int),
        decreases v@.len() - i,
    {
        r.push(v[i].clone());
        i += 1;
        assert(r@ =~= v@.subrange(0, i as int));
    }
    assert(r@ =~= v@);
    r
}

fn copy_opt_string(o: &Option<String>) -> (r: Option<String>)
    ensures
        r == *o,
{
    match o {
        Some(s) => Some(s.clone()),
        None => None,
    }
}

impl Post {
    /// The id of the user who created the post.
    pub fn get_owner(&self) -> (r: String)
        ensures
            r@ == self.user_owner@,
    {
        self.user_owner.clone()
    }

    /// A copy of this post with every field equal.
    pub fn copied(&self) -> (r: Post)
        ensures
            r@ == self@,
    {
        Post {
            uuid: self.uuid.clone(),
            title: self.title.clone(),
            iso_or_osi: self.iso_or_osi,
            state: self.state,
            location_string: self.location_string.clone(),
            time_posted: self.time_posted,
            time_expires: self.time_expires,
            time_accepted: self.time_accepted,
            user_owner: self.user_owner.clone(),
            user_acceptor: copy_opt_string(&self.user_acceptor),
            karma_diff: self.karma_diff,
            views: self.views,
            time_type: self.time_type,
            tags: copy_strings(&self.tags),
        }
    }

    /// A new post with the given id, created at time `now` (seconds since
    /// the Unix epoch): in `Draft` state, unclaimed, expiring a day later.
    pub fn new(
        uuid: String,
        title: String,
        post_type: PostType,
        owner_uuid: String,
        time_type: TimeType,
        tags: Vec<String>,
        location_string: String,
        now: u64,
    ) -> (r: Post)
        requires
            now <= u64::MAX - EXPIRY_WINDOW_SECS,
        ensures
            r@ == new_post_view(
                uuid@,
                title@,
                post_type,
                owner_uuid@,
                time_type,
                string_views(tags@),
                location_string@,
                now,
            ),
    {
        Post {
            uuid,
            title,
            iso_or_osi: post_type,
            state: PostState::Draft,
            location_string,
            time_posted: now,
            time_expires: now + EXPIRY_WINDOW_SECS,
            time_accepted: None,
            user_owner: owner_uuid,
            user_acceptor: None,
            karma_diff: INITIAL_KARMA_DIFF,
            views: 0,
            time_type,
            tags,
        }
    }

    /// Marks the post as accepted by `user_uuid` at time `now`; every other
    /// field keeps its value.
    pub fn claim(&mut self, user_uuid: String, now: u64)
        ensures
            final(self)@ == claimed_view(old(self)@, user_uuid@, now),
    {
        self.user_acceptor = Some(user_uuid);
        self.state = PostState::Accepted;
        self.time_accepted = Some(now);
    }
}

} // verus!
