//! Users: identity, bearer token, phone number and owned or claimed posts.
use vstd::prelude::*;
use crate::error::StoreError;
use crate::post::{copy_strings, string_views};
use crate::trusted::{random_bytes, uuid_from_random};

verus! {

/// Characters of a generated token or code.
pub const TOKEN_LEN: usize = 256;

/// Characters of a generated verification code.
pub const CODE_LEN: usize = 6;

/// The alphabet that tokens and codes are drawn from.
pub open spec fn code_alphabet() -> Seq<char> {
    seq!['2', '3', '4', '6', '7', '9', 'Q', 'W', 'E', 'R', 'T', 'Y', 'U', 'P', 'A', 'D', 'F', 'G', 'H', 'X']
}

/// The character that a random byte selects.
pub open spec fn code_char(b: u8) -> char {
    code_alphabet()[(b % 20) as int]
}

/// The marker stored once a phone number is confirmed.
pub open spec fn confirmed_marker() -> Seq<char> {
    "true"@
}

/// A registered user.
#[derive(Clone, Debug, Default)]
pub struct User {
    pub uuid: String,
    /// Bearer secret that authenticates the user.
    pub token: String,
    /// E.164 phone number.
    pub phone_number: String,
    pub karma: i32,
    /// Ids of the posts the user created or claimed, oldest first.
    pub posts: Vec<String>,
    /// A pending verification reference, or the confirmed marker.
    pub verified: String,
}

/// The mathematical value of a `User`.
pub struct UserView {
    pub uuid: Seq<char>,
    pub token: Seq<char>,
    pub phone_number: Seq<char>,
    pub karma: i32,
    pub posts: Seq<Seq<char>>,
    pub verified: Seq<char>,
}

impl View for User {
    type V = UserView;

    open spec fn view(&self) -> UserView {
        UserView {
            uuid: self.uuid@,
            token: self.token@,
            phone_number: self.phone_number@,
            karma: self.karma,
            posts: string_views(self.posts@),
            verified: self.verified@,
        }
    }
}

/// A user as first created: no karma, no posts, nothing verified.
pub open spec fn fresh_user_view(uuid: Seq<char>, token: Seq<char>, phone_number: Seq<char>) -> UserView {
    UserView { uuid, token, phone_number, karma: 0, posts: Seq::empty(), verified: Seq::empty() }
}

/// Whether every character of `s` is drawn from the code alphabet.
pub open spec fn is_code(s: Seq<char>) -> bool {
    forall|i: int| 0 <= i < s.len() ==> code_alphabet().contains(#[trigger] s[i])
}

/// The character of the code alphabet that `b` selects.
pub fn code_char_of(b: u8) -> (c: char)
    ensures
        c == code_char(b),
{
    let alphabet: [char; 20] = ['2', '3', '4', '6', '7', '9', 'Q', 'W', 'E', 'R', 'T', 'Y', 'U', 'P', 'A', 'D', 'F', 'G', 'H', 'X'];
    assert(alphabet@ =~= code_alphabet());
    alphabet[(b % 20) as usize]
}

/// Maps each random byte to a character of the code alphabet.
pub fn code_from_bytes(bytes: &Vec<u8>) -> (r: String)
    ensures
        r@ == bytes@.map_values(|b: u8| code_char(b)),
{
    let mut r = String::new();
    let mut i: usize = 0;
    while i < bytes.len()
        invariant
            i <= bytes@.len(),
            r@ == bytes@.subrange(0, i as int).map_values(|b: u8| code_char(b)),
        decreases bytes@.len() - i,
    {
        let c = code_char_of(bytes[i]);
        r.push(c);
        i += 1;
        assert(r@ =~= bytes@.subrange(0, i as int).map_values(|b: u8| code_char(b)));
    }
    assert(bytes@.subrange(0, i as int) =~= bytes@);
    r
}

/// `n` random characters of the code alphabet; `None` when the random
/// source fails.
fn random_code(n: usize) -> (r: Option<String>)
    requires
        n <= i32::MAX,
    ensures
        r matches Some(t) ==> t@.len() == n && is_code(t@),
{
    match random_bytes(n) {
        Some(bytes) => {
            let t = code_from_bytes(&bytes);
            assert forall|i: int| 0 <= i < t@.len() implies code_alphabet().contains(#[trigger] t@[i]) by {
                assert(t@[i] == code_alphabet()[(bytes@[i] % 20) as int]);
            }
            Some(t)
        },
        None => None,
    }
}

/// A random version-4 id in hyphenated form; `None` when the random source
/// fails.
pub fn fresh_uuid() -> (r: Option<String>)
    ensures
        r matches Some(s) ==> s@.len() == 36,
{
    match random_bytes(16) {
        Some(bytes) => Some(uuid_from_random(&bytes)),
        None => None,
    }
}

impl User {
    /// A new user with the given id and a freshly generated token; fails
    /// with `SystemFailure` when the random source is unavailable.
    pub fn new(uuid: String, phone_number: String) -> (r: Result<User, StoreError>)
        ensures
            r matches Ok(u) ==> u@ == fresh_user_view(uuid@, u.token@, phone_number@)
                && u.token@.len() == TOKEN_LEN && is_code(u.token@),
            r matches Err(e) ==> e == StoreError::SystemFailure,
    {
        match User::generate_token() {
            Some(token) => Ok(User::with_token(uuid, token, phone_number)),
            None => Err(StoreError::SystemFailure),
        }
    }

    /// A new user with the given id, token and phone number.
    pub fn with_token(uuid: String, token: String, phone_number: String) -> (r: User)
        ensures
            r@ == fresh_user_view(uuid@, token@, phone_number@),
    {
        let r = User { uuid, token, phone_number, karma: 0, posts: Vec::new(), verified: String::new() };
        assert(r@.posts =~= Seq::<Seq<char>>::empty());
        r
    }

    /// A random authentication token; `None` when the random source fails.
    pub fn generate_token() -> (r: Option<String>)
        ensures
            r matches Some(t) ==> t@.len() == TOKEN_LEN && is_code(t@),
    {
        random_code(TOKEN_LEN)
    }

    /// A random verification code; `None` when the random source fails.
    pub fn generate_code() -> (r: Option<String>)
        ensures
            r matches Some(t) ==> t@.len() == CODE_LEN && is_code(t@),
    {
        random_code(CODE_LEN)
    }

    /// A copy of this user with every field equal.
    pub fn copied(&self) -> (r: User)
        ensures
            r@ == self@,
    {
        User {
            uuid: self.uuid.clone(),
            token: self.token.clone(),
            phone_number: self.phone_number.clone(),
            karma: self.karma,
            posts: copy_strings(&self.posts),
            verified: self.verified.clone(),
        }
    }

    /// Stores a pending verification reference (or the confirmed marker).
    pub fn set_verification_code(&mut self, code: String)
        ensures
            final(self)@ == (UserView { verified: code@, ..old(self)@ }),
    {
        self.verified = code;
    }

    pub fn get_token(&self) -> (r: String)
        ensures
            r@ == self.token@,
    {
        self.token.clone()
    }

    pub fn get_phone_number(&self) -> (r: String)
        ensures
            r@ == self.phone_number@,
    {
        self.phone_number.clone()
    }

    /// Records a post the user created.
    pub fn add_post(&mut self, post: String)
        ensures
            final(self)@ == (UserView { posts: old(self)@.posts.push(post@), ..old(self)@ }),
    {
        self.posts.push(post);
        assert(final(self)@.posts =~= old(self)@.posts.push(post@));
    }

    /// Records a post the user claimed.
    pub fn add_claimed_post(&mut self, post: String)
        ensures
            final(self)@ == (UserView { posts: old(self)@.posts.push(post@), ..old(self)@ }),
    {
        self.posts.push(post);
        assert(final(self)@.posts =~= old(self)@.posts.push(post@));
    }
}

} // verus!
