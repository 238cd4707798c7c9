//! The store: the feed of posts and the registered users.
use vstd::prelude::*;
use crate::error::StoreError;
use crate::post::{claimed_view, new_post_view, string_views, Post, PostState, PostType, PostView, TimeType, EXPIRY_WINDOW_SECS};
use crate::trusted::now_secs;
use crate::user::fresh_uuid;
use crate::user::{User, UserView};

verus! {

/// Posts returned by one feed page at most.
pub const FEED_PAGE_SIZE: usize = 25;

/// All users and posts. The feed is newest first; user ids are unique.
#[derive(Clone, Debug, Default)]
pub struct Data {
    pub feed: Vec<Post>,
    pub users: Vec<User>,
    /// Ids of posts flagged for promotion.
    pub pinned_posts: Vec<String>,
}

/// The mathematical value of a `Data`.
pub struct DataView {
    pub feed: Seq<PostView>,
    pub users: Seq<UserView>,
    pub pinned_posts: Seq<Seq<char>>,
}

impl View for Data {
    type V = DataView;

    open spec fn view(&self) -> DataView {
        DataView {
            feed: self.feed@.map_values(|p: Post| p@),
            users: self.users@.map_values(|u: User| u@),
            pinned_posts: string_views(self.pinned_posts@),
        }
    }
}

/// Number of posts on the page that starts at `index` of a feed of `len` posts.
pub open spec fn page_len(len: int, index: int) -> int {
    if len - index < FEED_PAGE_SIZE {
        len - index
    } else {
        FEED_PAGE_SIZE as int
    }
}

/// The posts of `s` that nobody has claimed, in order.
pub open spec fn open_posts(s: Seq<PostView>) -> Seq<PostView> {
    s.filter(|p: PostView| p.time_accepted is None)
}

/// The user `u` with `pid` appended to its post list.
pub open spec fn with_post(u: UserView, pid: Seq<char>) -> UserView {
    UserView { posts: u.posts.push(pid), ..u }
}

impl DataView {
    /// No two users share an id.
    pub open spec fn wf(self) -> bool {
        forall|i: int, j: int|
            0 <= i < self.users.len() && 0 <= j < self.users.len() && i != j
                ==> #[trigger] self.users[i].uuid != #[trigger] self.users[j].uuid
    }

    /// The user at index `i` has id `id`.
    pub open spec fn user_at(self, id: Seq<char>, i: int) -> bool {
        0 <= i < self.users.len() && self.users[i].uuid == id
    }

    pub open spec fn has_user(self, id: Seq<char>) -> bool {
        exists|i: int| #[trigger] self.user_at(id, i)
    }

    /// Index of the user with id `id`, where there is one.
    pub open spec fn user_index(self, id: Seq<char>) -> int {
        choose|i: int| #[trigger] self.user_at(id, i)
    }

    /// The stored user with id `id`, where there is one.
    pub open spec fn user_of(self, id: Seq<char>) -> UserView {
        self.users[self.user_index(id)]
    }

    /// Index `i` holds the first user with phone number `phone`.
    pub open spec fn first_phone_at(self, phone: Seq<char>, i: int) -> bool {
        &&& 0 <= i < self.users.len()
        &&& self.users[i].phone_number == phone
        &&& forall|j: int| 0 <= j < i ==> #[trigger] self.users[j].phone_number != phone
    }

    pub open spec fn has_phone(self, phone: Seq<char>) -> bool {
        exists|i: int| 0 <= i < self.users.len() && #[trigger] self.users[i].phone_number == phone
    }

    /// Index `k` holds the first post of the feed with id `id`.
    pub open spec fn first_post_at(self, id: Seq<char>, k: int) -> bool {
        &&& 0 <= k < self.feed.len()
        &&& self.feed[k].uuid == id
        &&& forall|j: int| 0 <= j < k ==> #[trigger] self.feed[j].uuid != id
    }

    pub open spec fn has_post(self, id: Seq<char>) -> bool {
        exists|k: int| 0 <= k < self.feed.len() && #[trigger] self.feed[k].uuid == id
    }

    /// Index of the first post with id `id`, where there is one.
    pub open spec fn post_index(self, id: Seq<char>) -> int {
        choose|k: int| #[trigger] self.first_post_at(id, k)
    }

    /// The user list after inserting `u`, or replacing the user with its id.
    pub open spec fn upserted(self, u: UserView) -> Seq<UserView> {
        if self.has_user(u.uuid) {
            self.users.update(self.user_index(u.uuid), u)
        } else {
            self.users.push(u)
        }
    }

    /// The store after inserting `u`, unchanged when its id is taken.
    pub open spec fn inserted(self, u: UserView) -> DataView {
        if self.has_user(u.uuid) {
            self
        } else {
            DataView { users: self.users.push(u), ..self }
        }
    }

    /// The store after post `p` was created: it heads the feed, and its id
    /// is added to its owner's posts where the owner exists.
    pub open spec fn after_post(self, p: PostView) -> DataView {
        DataView {
            feed: seq![p] + self.feed,
            users: if self.has_user(p.user_owner) {
                self.upserted(with_post(self.user_of(p.user_owner), p.uuid))
            } else {
                self.users
            },
            ..self
        }
    }

    /// The store after user `uid` claimed post `pid` at time `now`.
    pub open spec fn after_claim(self, pid: Seq<char>, uid: Seq<char>, now: u64) -> DataView {
        DataView {
            feed: self.feed.update(self.post_index(pid), claimed_view(self.feed[self.post_index(pid)], uid, now)),
            users: self.upserted(with_post(self.user_of(uid), pid)),
            ..self
        }
    }
}

/// Outcome of inserting user `u` into `old`: `r` is the result, `new` the store after.
pub open spec fn add_user_spec(old: DataView, u: UserView, r: Result<(), StoreError>, new: DataView) -> bool {
    if old.has_user(u.uuid) {
        r == Err::<(), StoreError>(StoreError::Conflict) && new == old
    } else {
        r == Ok::<(), StoreError>(()) && new == (DataView { users: old.users.push(u), ..old })
    }
}

/// The checks a claim makes before changing anything: the user exists and
/// carries the stored token, and the post exists.
pub open spec fn claim_precheck(old: DataView, pid: Seq<char>, u: UserView) -> Result<(), StoreError> {
    if !old.has_user(u.uuid) {
        Err(StoreError::NotFound)
    } else if old.user_of(u.uuid).token != u.token {
        Err(StoreError::Unauthorized)
    } else if !old.has_post(pid) {
        Err(StoreError::NotFound)
    } else {
        Ok(())
    }
}

/// Outcome of user `u` claiming post `pid` at time `now`.
pub open spec fn claim_spec(
    old: DataView,
    pid: Seq<char>,
    u: UserView,
    now: u64,
    r: Result<(), StoreError>,
    new: DataView,
) -> bool {
    if !old.has_user(u.uuid) {
        r == Err::<(), StoreError>(StoreError::NotFound) && new == old
    } else if old.user_of(u.uuid).token != u.token {
        r == Err::<(), StoreError>(StoreError::Unauthorized) && new == old
    } else if !old.has_post(pid) {
        r == Err::<(), StoreError>(StoreError::NotFound) && new == old
    } else {
        r == Ok::<(), StoreError>(()) && new == old.after_claim(pid, u.uuid, now)
    }
}

/// In a well-formed store an id is held at one index only.
pub proof fn lemma_user_index(d: DataView, id: Seq<char>, i: int)
    requires
        d.wf(),
        d.user_at(id, i),
    ensures
        d.has_user(id),
        d.user_index(id) == i,
        d.user_of(id) == d.users[i],
{
    let k = d.user_index(id);
    assert(d.user_at(id, k));
}

/// The first post with a given id is held at one index only.
pub proof fn lemma_post_index(d: DataView, id: Seq<char>, k: int)
    requires
        d.first_post_at(id, k),
    ensures
        d.has_post(id),
        d.post_index(id) == k,
{
    let j = d.post_index(id);
    assert(d.first_post_at(id, j));
    if j < k {
        assert(d.feed[j].uuid != id);
    }
    if k < j {
        assert(d.feed[k].uuid != id);
    }
}

/// Replacing or adding a user by id keeps the ids unique.
pub proof fn lemma_upsert_wf(d: DataView, u: UserView)
    requires
        d.wf(),
    ensures
        (DataView { users: d.upserted(u), ..d }).wf(),
{
    if d.has_user(u.uuid) {
        let k = d.user_index(u.uuid);
        assert(d.user_at(u.uuid, k));
    } else {
        assert forall|i: int| 0 <= i < d.users.len() implies d.users[i].uuid != u.uuid by {
            if d.users[i].uuid == u.uuid {
                assert(d.user_at(u.uuid, i));
            }
        }
    }
}

/// Claiming a post never moves a post: the feed keeps its length, and every
/// index holds a post with the same id as before.
pub proof fn lemma_claim_keeps_positions(
    old: DataView,
    pid: Seq<char>,
    u: UserView,
    now: u64,
    r: Result<(), StoreError>,
    new: DataView,
)
    requires
        claim_spec(old, pid, u, now, r, new),
    ensures
        new.feed.len() == old.feed.len(),
        forall|j: int| 0 <= j < old.feed.len() ==> #[trigger] new.feed[j].uuid == old.feed[j].uuid,
{
    if r is Ok {
        let k = old.post_index(pid);
        let w = choose|k: int| 0 <= k < old.feed.len() && #[trigger] old.feed[k].uuid == pid;
        assert(old.first_post_at(pid, k)) by {
            assert(old.has_post(pid));
            lemma_first_post_exists(old, pid, w);
        }
    }
}

/// The store `d` after the posts of `ps` were created in order.
pub open spec fn after_posts(d: DataView, ps: Seq<PostView>) -> DataView
    decreases ps.len(),
{
    if ps.len() == 0 {
        d
    } else {
        after_posts(d, ps.drop_last()).after_post(ps.last())
    }
}

/// After any sequence of post creations the feed holds the new posts newest
/// first, followed by the earlier feed: after each creation, the post it
/// made is at the head of the feed.
pub proof fn lemma_posts_newest_first(d: DataView, ps: Seq<PostView>)
    ensures
        after_posts(d, ps).feed.len() == d.feed.len() + ps.len(),
        forall|j: int| 0 <= j < ps.len() ==> #[trigger] after_posts(d, ps).feed[j] == ps[ps.len() - 1 - j],
        after_posts(d, ps).feed.subrange(ps.len() as int, after_posts(d, ps).feed.len() as int) == d.feed,
        ps.len() > 0 ==> after_posts(d, ps).feed[0] == ps.last(),
    decreases ps.len(),
{
    if ps.len() > 0 {
        let prev = ps.drop_last();
        lemma_posts_newest_first(d, prev);
        let a = after_posts(d, prev);
        let b = after_posts(d, ps);
        assert(b.feed == seq![ps.last()] + a.feed);
        assert forall|j: int| 0 <= j < ps.len() implies #[trigger] b.feed[j] == ps[ps.len() - 1 - j] by {
            if j > 0 {
                assert(b.feed[j] == a.feed[j - 1]);
                assert(a.feed[j - 1] == prev[prev.len() - 1 - (j - 1)]);
            }
        }
        assert(b.feed.subrange(ps.len() as int, b.feed.len() as int)
            =~= a.feed.subrange(prev.len() as int, a.feed.len() as int));
    }
}

/// Creating a post puts it at the head of the feed, followed by the
/// earlier feed in its order.
pub proof fn lemma_after_post_heads_feed(d: DataView, p: PostView)
    ensures
        d.after_post(p).feed.len() == d.feed.len() + 1,
        d.after_post(p).feed[0] == p,
        d.after_post(p).feed.subrange(1, d.feed.len() + 1 as int) == d.feed,
{
    assert(d.after_post(p).feed.subrange(1, d.feed.len() + 1 as int) =~= d.feed);
}

/// The store `d` after upserting each user of `us` in turn.
pub open spec fn upsert_all(d: DataView, us: Seq<UserView>) -> DataView
    decreases us.len(),
{
    if us.len() == 0 {
        d
    } else {
        let prev = upsert_all(d, us.drop_last());
        DataView { users: prev.upserted(us.last()), ..prev }
    }
}

/// Rebuilding a well-formed store from its feed, its pinned posts and its
/// users, upserted in order into an empty user list, gives the same store.
pub proof fn lemma_rebuild_from_parts(d: DataView)
    requires
        d.wf(),
    ensures
        upsert_all(DataView { users: Seq::empty(), ..d }, d.users) == d,
{
    lemma_rebuild_prefix(d, d.users.len() as int);
    assert(d.users.subrange(0, d.users.len() as int) =~= d.users);
}

proof fn lemma_rebuild_prefix(d: DataView, k: int)
    requires
        d.wf(),
        0 <= k <= d.users.len(),
    ensures
        upsert_all(DataView { users: Seq::empty(), ..d }, d.users.subrange(0, k))
            == (DataView { users: d.users.subrange(0, k), ..d }),
    decreases k,
{
    let base = DataView { users: Seq::empty(), ..d };
    if k == 0 {
        assert(d.users.subrange(0, 0) =~= Seq::<UserView>::empty());
        assert(base == (DataView { users: d.users.subrange(0, 0), ..d }));
    } else {
        let us = d.users.subrange(0, k);
        assert(us.drop_last() =~= d.users.subrange(0, k - 1));
        lemma_rebuild_prefix(d, k - 1);
        let prev = DataView { users: d.users.subrange(0, k - 1), ..d };
        assert(!prev.has_user(d.users[k - 1].uuid)) by {
            if prev.has_user(d.users[k - 1].uuid) {
                let i = choose|i: int| #[trigger] prev.user_at(d.users[k - 1].uuid, i);
                assert(d.users[i].uuid == d.users[k - 1].uuid);
            }
        }
        assert(prev.users.push(us.last()) =~= us);
    }
}

/// After a successful claim of post `pid` by user `u`, looking the post up
/// gives a post accepted by `u`, and `u`'s stored post list ends with `pid`.
pub proof fn lemma_claim_then_lookup(old: DataView, pid: Seq<char>, u: UserView, now: u64, new: DataView)
    requires
        old.wf(),
        claim_spec(old, pid, u, now, Ok(()), new),
    ensures
        new.has_post(pid),
        new.feed[new.post_index(pid)].user_acceptor == Some(u.uuid),
        new.feed[new.post_index(pid)].state == PostState::Accepted,
        new.has_user(u.uuid),
        new.user_of(u.uuid).posts.len() > 0,
        new.user_of(u.uuid).posts.last() == pid,
        new.user_of(u.uuid).posts.contains(pid),
{
    let w = choose|k: int| 0 <= k < old.feed.len() && #[trigger] old.feed[k].uuid == pid;
    lemma_first_post_exists(old, pid, w);
    let k = old.post_index(pid);
    assert(new.first_post_at(pid, k)) by {
        assert forall|j: int| 0 <= j < k implies #[trigger] new.feed[j].uuid != pid by {
            assert(old.feed[j].uuid != pid);
        }
    }
    lemma_post_index(new, pid, k);
    let i = old.user_index(u.uuid);
    assert(old.user_at(u.uuid, i));
    lemma_upsert_wf(old, with_post(old.user_of(u.uuid), pid));
    assert(new.user_at(u.uuid, i));
    lemma_user_index(new, u.uuid, i);
    let posts = new.user_of(u.uuid).posts;
    assert(posts[posts.len() - 1] == pid);
}

/// Adding a user whose id is already present fails with `Conflict` and
/// leaves the store as the first insert left it, the first user included.
pub proof fn lemma_add_user_twice(
    s0: DataView,
    u1: UserView,
    r1: Result<(), StoreError>,
    s1: DataView,
    u2: UserView,
    r2: Result<(), StoreError>,
    s2: DataView,
)
    requires
        s0.wf(),
        add_user_spec(s0, u1, r1, s1),
        add_user_spec(s1, u2, r2, s2),
        u1.uuid == u2.uuid,
    ensures
        r2 == Err::<(), StoreError>(StoreError::Conflict),
        s2 == s1,
        s2.has_user(u1.uuid),
        r1 is Ok ==> s2.user_of(u1.uuid) == u1,
{
    if !s0.has_user(u1.uuid) {
        lemma_upsert_wf(s0, u1);
        assert(s1.user_at(u1.uuid, s0.users.len() as int));
        lemma_user_index(s1, u1.uuid, s0.users.len() as int);
    }
}

/// Where some post has id `pid`, a first such post exists.
pub proof fn lemma_first_post_exists(d: DataView, pid: Seq<char>, w: int)
    requires
        0 <= w < d.feed.len(),
        d.feed[w].uuid == pid,
    ensures
        d.first_post_at(pid, d.post_index(pid)),
    decreases w,
{
    if exists|j: int| 0 <= j < w && #[trigger] d.feed[j].uuid == pid {
        let j = choose|j: int| 0 <= j < w && #[trigger] d.feed[j].uuid == pid;
        lemma_first_post_exists(d, pid, j);
    } else {
        assert(d.first_post_at(pid, w));
    }
}

impl Data {
    /// An empty store.
    pub fn new() -> (r: Data)
        ensures
            r@.feed.len() == 0,
            r@.users.len() == 0,
            r@.pinned_posts.len() == 0,
            r@.wf(),
    {
        Data { feed: Vec::new(), users: Vec::new(), pinned_posts: Vec::new() }
    }

    /// The page of up to `FEED_PAGE_SIZE` consecutive posts that starts at
    /// `index`, in feed order; `OutOfRange` when `index` is past the end.
    pub fn get_feed_page(&self, index: usize) -> (r: Result<Vec<Post>, StoreError>)
        ensures
            index >= self@.feed.len() ==> r == Err::<Vec<Post>, StoreError>(StoreError::OutOfRange),
            index < self@.feed.len() ==> r is Ok,
            r matches Ok(page) ==> page@.len() == page_len(self@.feed.len() as int, index as int)
                && page@.map_values(|p: Post| p@)
                == self@.feed.subrange(index as int, index + page@.len()),
    {
        if index >= self.feed.len() {
            return Err(StoreError::OutOfRange);
        }
        let end: usize = if self.feed.len() - index < FEED_PAGE_SIZE {
            self.feed.len()
        } else {
            index + FEED_PAGE_SIZE
        };
        let mut page: Vec<Post> = Vec::new();
        let mut i: usize = index;
        while i < end
            invariant
                index <= i <= end <= self.feed@.len(),
                page@.len() == i - index,
                page@.map_values(|p: Post| p@) == self@.feed.subrange(index as int, i as int),
            decreases end - i,
        {
            page.push(self.feed[i].copied());
            i += 1;
            assert(page@.map_values(|p: Post| p@) =~= self@.feed.subrange(index as int, i as int));
        }
        Ok(page)
    }

    /// A page of up to `FEED_PAGE_SIZE` unclaimed posts, scanning the feed
    /// from `index` until the page is full or the feed ends, together with
    /// the index where the next page starts; `OutOfRange` when `index` is
    /// past the end.
    pub fn open_feed_page(&self, index: usize) -> (r: Result<(Vec<Post>, usize), StoreError>)
        ensures
            index >= self@.feed.len() ==> r == Err::<(Vec<Post>, usize), StoreError>(StoreError::OutOfRange),
            index < self@.feed.len() ==> r is Ok,
            r matches Ok((page, next)) ==> {
                &&& index <= next <= self@.feed.len()
                &&& page@.map_values(|p: Post| p@) == open_posts(self@.feed.subrange(index as int, next as int))
                &&& page@.len() <= FEED_PAGE_SIZE
                &&& page@.len() < FEED_PAGE_SIZE ==> next == self@.feed.len()
                &&& page@.len() == FEED_PAGE_SIZE ==> index < next && self@.feed[next - 1].time_accepted is None
            },
    {
        if index >= self.feed.len() {
            return Err(StoreError::OutOfRange);
        }
        let mut page: Vec<Post> = Vec::new();
        let mut i: usize = index;
        proof {
            reveal(Seq::filter);
            assert(self@.feed.subrange(index as int, index as int) =~= Seq::<PostView>::empty());
            assert(page@.map_values(|p: Post| p@) =~= open_posts(self@.feed.subrange(index as int, i as int)));
        }
        while page.len() < FEED_PAGE_SIZE && i < self.feed.len()
            invariant
                index <= i <= self.feed@.len(),
                page@.len() <= FEED_PAGE_SIZE,
                page@.map_values(|p: Post| p@) == open_posts(self@.feed.subrange(index as int, i as int)),
                page@.len() == FEED_PAGE_SIZE ==> index < i && self@.feed[i - 1].time_accepted is None,
            decreases self.feed@.len() - i,
        {
            if self.feed[i].time_accepted.is_none() {
                page.push(self.feed[i].copied());
            }
            proof {
                reveal(Seq::filter);
                let s = self@.feed.subrange(index as int, i + 1);
                assert(s.drop_last() =~= self@.feed.subrange(index as int, i as int));
                assert(s.last() == self@.feed[i as int]);
                assert(page@.map_values(|p: Post| p@) =~= open_posts(s));
            }
            i += 1;
        }
        Ok((page, i))
    }

    /// The user with id `uuid`, when `token` is that user's token.
    pub fn get_user_by_token(&self, uuid: &str, token: &str) -> (r: Result<User, StoreError>)
        requires
            self@.wf(),
        ensures
            !self@.has_user(uuid@) ==> r == Err::<User, StoreError>(StoreError::NotFound),
            self@.has_user(uuid@) && self@.user_of(uuid@).token != token@
                ==> r == Err::<User, StoreError>(StoreError::Unauthorized),
            self@.has_user(uuid@) && self@.user_of(uuid@).token == token@
                ==> (r matches Ok(u) && u@ == self@.user_of(uuid@)),
    {
        let id = uuid.to_owned();
        match self.find_user(&id) {
            Some(i) => {
                let t = token.to_owned();
                if self.users[i].token == t {
                    Ok(self.users[i].copied())
                } else {
                    Err(StoreError::Unauthorized)
                }
            },
            None => Err(StoreError::NotFound),
        }
    }

    /// The first user whose phone number is `phone_number`.
    pub fn get_user_by_number(&self, phone_number: &str) -> (r: Result<User, StoreError>)
        ensures
            !self@.has_phone(phone_number@) ==> r == Err::<User, StoreError>(StoreError::NotFound),
            self@.has_phone(phone_number@) ==> r is Ok,
            r matches Ok(u) ==> exists|i: int|
                #[trigger] self@.first_phone_at(phone_number@, i) && u@ == self@.users[i],
    {
        let phone = phone_number.to_owned();
        match self.find_phone(&phone) {
            Some(i) => {
                let u = self.users[i].copied();
                assert(self@.first_phone_at(phone_number@, i as int));
                Ok(u)
            },
            None => Err(StoreError::NotFound),
        }
    }

    /// Inserts `user`; `Conflict` when its id is already present.
    pub fn add_user(&mut self, user: User) -> (r: Result<(), StoreError>)
        requires
            old(self)@.wf(),
        ensures
            final(self)@.wf(),
            add_user_spec(old(self)@, user@, r, final(self)@),
    {
        match self.find_user(&user.uuid) {
            Some(_) => Err(StoreError::Conflict),
            None => {
                proof {
                    lemma_upsert_wf(self@, user@);
                }
                let ghost u = user@;
                self.users.push(user);
                assert(self@.users =~= old(self)@.users.push(u));
                Ok(())
            },
        }
    }

    /// Inserts `user`, or replaces the user with the same id.
    pub fn add_update_user(&mut self, user: User)
        requires
            old(self)@.wf(),
        ensures
            final(self)@.wf(),
            final(self)@ == (DataView { users: old(self)@.upserted(user@), ..old(self)@ }),
    {
        proof {
            lemma_upsert_wf(self@, user@);
        }
        let ghost u = user@;
        match self.find_user(&user.uuid) {
            Some(i) => {
                self.users.set(i, user);
                assert(self@.users =~= old(self)@.users.update(i as int, u));
            },
            None => {
                self.users.push(user);
                assert(self@.users =~= old(self)@.users.push(u));
            },
        }
    }

    /// A store holding `feed` and `pinned_posts`, with `users` added one by
    /// one so that a later user replaces an earlier one with the same id.
    pub fn from_parts(feed: Vec<Post>, users: Vec<User>, pinned_posts: Vec<String>) -> (r: Data)
        ensures
            r@.wf(),
            r@.feed == feed@.map_values(|p: Post| p@),
            r@.pinned_posts == string_views(pinned_posts@),
            r@ == upsert_all(
                DataView {
                    feed: feed@.map_values(|p: Post| p@),
                    users: Seq::empty(),
                    pinned_posts: string_views(pinned_posts@),
                },
                users@.map_values(|u: User| u@),
            ),
            forall|i: int| 0 <= i < users@.len() ==> r@.has_user(#[trigger] users@[i]@.uuid),
    {
        let ghost base = DataView {
            feed: feed@.map_values(|p: Post| p@),
            users: Seq::empty(),
            pinned_posts: string_views(pinned_posts@),
        };
        let ghost uv = users@.map_values(|u: User| u@);
        let mut d = Data { feed, users: Vec::new(), pinned_posts };
        assert(d@.users =~= Seq::<UserView>::empty());
        assert(uv.subrange(0, 0) =~= Seq::<UserView>::empty());
        assert(uv.len() == users@.len());
        let mut i: usize = 0;
        while i < users.len()
            invariant
                i <= users@.len(),
                d@.wf(),
                d@.feed == feed@.map_values(|p: Post| p@),
                d@.pinned_posts == string_views(pinned_posts@),
                forall|j: int| 0 <= j < i ==> d@.has_user(#[trigger] users@[j]@.uuid),
                uv == users@.map_values(|u: User| u@),
                uv.len() == users@.len(),
                d@ == upsert_all(base, uv.subrange(0, i as int)),
            decreases users@.len() - i,
        {
            let ghost prev = d@;
            d.add_update_user(users[i].copied());
            proof {
                assert forall|j: int| 0 <= j <= i implies d@.has_user(#[trigger] users@[j]@.uuid) by {
                    let id = users@[j]@.uuid;
                    if j < i {
                        let k = prev.user_index(id);
                        assert(prev.user_at(id, k));
                        if prev.has_user(users@[i as int]@.uuid) {
                            assert(d@.user_at(id, k));
                        } else {
                            assert(d@.users[k] == prev.users[k]);
                            assert(d@.user_at(id, k));
                        }
                    } else {
                        if prev.has_user(id) {
                            let k = prev.user_index(id);
                            assert(d@.user_at(id, k));
                        } else {
                            assert(d@.user_at(id, prev.users.len() as int));
                        }
                    }
                }
                assert(uv.subrange(0, i + 1).drop_last() =~= uv.subrange(0, i as int));
                assert(uv.subrange(0, i + 1).last() == users@[i as int]@);
            }
            i += 1;
        }
        assert(uv.subrange(0, i as int) =~= uv);
        d
    }

    /// The first post of the feed with id `uuid`.
    pub fn get_post_by_uuid(&self, uuid: &str) -> (r: Result<Post, StoreError>)
        ensures
            !self@.has_post(uuid@) ==> r == Err::<Post, StoreError>(StoreError::NotFound),
            self@.has_post(uuid@) ==> (r matches Ok(p) && p@ == self@.feed[self@.post_index(uuid@)]),
    {
        let id = uuid.to_owned();
        match self.find_post(&id) {
            Some(k) => Ok(self.feed[k].copied()),
            None => Err(StoreError::NotFound),
        }
    }

    /// Creates a post with id `uuid` at time `now` and puts it at the head of
    /// the feed. When `owner_uuid` names a user, the post id is appended to
    /// that user's posts; a post whose owner does not exist is still listed.
    pub fn add_post_at(
        &mut self,
        uuid: String,
        now: u64,
        title: String,
        post_type: PostType,
        owner_uuid: String,
        time_type: TimeType,
        tags: Vec<String>,
        location_string: String,
    ) -> (r: Post)
        requires
            old(self)@.wf(),
            now <= u64::MAX - EXPIRY_WINDOW_SECS,
        ensures
            final(self)@.wf(),
            r@ == new_post_view(
                uuid@,
                title@,
                post_type,
                owner_uuid@,
                time_type,
                string_views(tags@),
                location_string@,
                now,
            ),
            final(self)@ == old(self)@.after_post(r@),
    {
        let post = Post::new(uuid, title, post_type, owner_uuid, time_type, tags, location_string, now);
        match self.find_user(&post.user_owner) {
            Some(i) => {
                let mut user = self.users[i].copied();
                user.add_post(post.uuid.clone());
                self.add_update_user(user);
            },
            None => {},
        }
        let ghost before = self@;
        self.feed.insert(0, post.copied());
        assert(self@.feed =~= seq![post@] + before.feed);
        assert(self@.users == before.users);
        post
    }

    /// Creates a post with a fresh random id, stamped with the current time,
    /// as `add_post_at` does. Fails with `SystemFailure`, leaving the store
    /// as it was, when the clock or the random source cannot be read, or
    /// when the clock reads so late that the expiry time would not fit a `u64`.
    pub fn add_post(
        &mut self,
        title: String,
        post_type: PostType,
        owner_uuid: String,
        time_type: TimeType,
        tags: Vec<String>,
        location_string: String,
    ) -> (r: Result<Post, StoreError>)
        requires
            old(self)@.wf(),
        ensures
            final(self)@.wf(),
            r matches Ok(p) ==> p@ == new_post_view(
                p.uuid@,
                title@,
                post_type,
                owner_uuid@,
                time_type,
                string_views(tags@),
                location_string@,
                p.time_posted,
            ) && p.time_posted <= u64::MAX - EXPIRY_WINDOW_SECS && p.uuid@.len() == 36
                && final(self)@ == old(self)@.after_post(p@) && final(self)@.feed[0] == p@,
            r matches Err(e) ==> e == StoreError::SystemFailure && final(self)@ == old(self)@,
    {
        let now = match now_secs() {
            Some(now) => now,
            None => return Err(StoreError::SystemFailure),
        };
        if now > u64::MAX - EXPIRY_WINDOW_SECS {
            return Err(StoreError::SystemFailure);
        }
        let uuid = match fresh_uuid() {
            Some(id) => id,
            None => return Err(StoreError::SystemFailure),
        };
        let p = self.add_post_at(uuid, now, title, post_type, owner_uuid, time_type, tags, location_string);
        assert(self@.feed[0] == p@);
        Ok(p)
    }

    /// User `user` claims post `uuid` at time `now`: the user must exist and
    /// carry the stored token, and the post must exist. The post becomes
    /// `Accepted` in place, and its id is appended to the user's posts.
    /// An owner may claim their own post, and a claimed post may be claimed again.
    pub fn claim_post_at(&mut self, uuid: String, user: User, now: u64) -> (r: Result<(), StoreError>)
        requires
            old(self)@.wf(),
        ensures
            final(self)@.wf(),
            claim_spec(old(self)@, uuid@, user@, now, r, final(self)@),
    {
        let i = match self.find_user(&user.uuid) {
            Some(i) => i,
            None => return Err(StoreError::NotFound),
        };
        let mut db_user = self.users[i].copied();
        if db_user.token != user.token {
            return Err(StoreError::Unauthorized);
        }
        let k = match self.find_post(&uuid) {
            Some(k) => k,
            None => return Err(StoreError::NotFound),
        };
        let mut post = self.feed[k].copied();
        post.claim(user.uuid.clone(), now);
        db_user.add_claimed_post(post.uuid.clone());
        self.add_update_user(db_user);
        let ghost before = self@.feed;
        self.feed.set(k, post);
        assert(self@.feed =~= before.update(k as int, claimed_view(before[k as int], user@.uuid, now)));
        Ok(())
    }

    /// `claim_post_at` at the current time. The user, its token and the post
    /// are checked first, so their errors come whatever the clock does; once
    /// they pass, `SystemFailure` when the clock cannot be read.
    pub fn claim_post(&mut self, uuid: String, user: User) -> (r: Result<(), StoreError>)
        requires
            old(self)@.wf(),
        ensures
            final(self)@.wf(),
            claim_precheck(old(self)@, uuid@, user@) matches Err(e) ==> r == Err::<(), StoreError>(e)
                && final(self)@ == old(self)@,
            claim_precheck(old(self)@, uuid@, user@) is Ok ==> (r == Err::<(), StoreError>(StoreError::SystemFailure)
                && final(self)@ == old(self)@) || (r is Ok && exists|now: u64|
                final(self)@ == #[trigger] old(self)@.after_claim(uuid@, user@.uuid, now)),
            final(self)@.feed.len() == old(self)@.feed.len(),
            forall|j: int| 0 <= j < old(self)@.feed.len() ==> #[trigger] final(self)@.feed[j].uuid == old(self)@.feed[j].uuid,
    {
        let i = match self.find_user(&user.uuid) {
            Some(i) => i,
            None => return Err(StoreError::NotFound),
        };
        if self.users[i].token != user.token {
            return Err(StoreError::Unauthorized);
        }
        if self.find_post(&uuid).is_none() {
            return Err(StoreError::NotFound);
        }
        match now_secs() {
            Some(now) => {
                let r = self.claim_post_at(uuid, user, now);
                proof {
                    lemma_claim_keeps_positions(old(self)@, uuid@, user@, now, r, self@);
                }
                r
            },
            None => Err(StoreError::SystemFailure),
        }
    }

    /// A copy of the user with id `id`, if any.
    pub fn get_user_by_id(&self, id: &String) -> (r: Option<User>)
        requires
            self@.wf(),
        ensures
            !self@.has_user(id@) ==> r is None,
            self@.has_user(id@) ==> (r matches Some(u) && u@ == self@.user_of(id@)),
    {
        match self.find_user(id) {
            Some(i) => Some(self.users[i].copied()),
            None => None,
        }
    }

    /// Index of the user with id `id`, if any.
    fn find_user(&self, id: &String) -> (r: Option<usize>)
        requires
            self@.wf(),
        ensures
            r matches Some(i) ==> self@.user_at(id@, i as int) && self@.user_index(id@) == i
                && self@.user_of(id@) == self@.users[i as int],
            r is None ==> !self@.has_user(id@),
    {
        let mut i: usize = 0;
        while i < self.users.len()
            invariant
                i <= self.users@.len(),
                self@.wf(),
                forall|j: int| 0 <= j < i ==> self@.users[j].uuid != id@,
            decreases self.users@.len() - i,
        {
            if self.users[i].uuid == *id {
                proof {
                    lemma_user_index(self@, id@, i as int);
                }
                return Some(i);
            }
            i += 1;
        }
        assert forall|j: int| !(#[trigger] self@.user_at(id@, j)) by {
            if 0 <= j < self.users@.len() {
                assert(self@.users[j].uuid != id@);
            }
        }
        None
    }

    /// Index of the first post with id `id`, if any.
    fn find_post(&self, id: &String) -> (r: Option<usize>)
        ensures
            r matches Some(k) ==> self@.first_post_at(id@, k as int) && self@.post_index(id@) == k,
            r is None ==> !self@.has_post(id@),
    {
        let mut k: usize = 0;
        while k < self.feed.len()
            invariant
                k <= self.feed@.len(),
                forall|j: int| 0 <= j < k ==> #[trigger] self@.feed[j].uuid != id@,
            decreases self.feed@.len() - k,
        {
            if self.feed[k].uuid == *id {
                proof {
                    lemma_post_index(self@, id@, k as int);
                }
                return Some(k);
            }
            k += 1;
        }
        None
    }

    /// Index of the first user with phone number `phone`, if any.
    pub(crate) fn find_phone(&self, phone: &String) -> (r: Option<usize>)
        ensures
            r matches Some(i) ==> self@.first_phone_at(phone@, i as int),
            r is None ==> !self@.has_phone(phone@),
    {
        let mut i: usize = 0;
        while i < self.users.len()
            invariant
                i <= self.users@.len(),
                forall|j: int| 0 <= j < i ==> #[trigger] self@.users[j].phone_number != phone@,
            decreases self.users@.len() - i,
        {
            if self.users[i].phone_number == *phone {
                return Some(i);
            }
            i += 1;
        }
        None
    }
}

} // verus!
