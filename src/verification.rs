//! Phone-number verification: normalising numbers, reading the provider's
//! replies, and recording the outcome in the store.
use vstd::prelude::*;
use crate::data::{Data, DataView};
use crate::error::StoreError;
use crate::post::opt_string_view;
use crate::trusted::{e164_of, json_string_field, parse_valid_e164, read_json_string_field};
use crate::user::fresh_uuid;
use crate::user::{confirmed_marker, fresh_user_view, is_code, User, UserView, TOKEN_LEN};

verus! {

/// Credentials for the SMS verification provider.
#[derive(Clone, Debug, Default)]
pub struct Config {
    pub twilio_sid: String,
    pub twilio_service: String,
    pub twilio_token: String,
}

/// What a verification check yields for the `status` field of the
/// provider's reply: approval, a rejected code, or a malformed reply.
pub open spec fn status_outcome(status: Option<Seq<char>>) -> Result<(), StoreError> {
    match status {
        Some(s) => if s == "approved"@ {
            Ok(())
        } else {
            Err(StoreError::VerificationFailed)
        },
        None => Err(StoreError::ProviderError),
    }
}

/// The user with its phone number marked as confirmed.
pub open spec fn confirmed(u: UserView) -> UserView {
    UserView { verified: confirmed_marker(), ..u }
}

/// The user at index `i` with `reference` stored as its pending verification.
pub open spec fn with_pending(d: DataView, i: int, reference: Seq<char>) -> DataView {
    DataView { users: d.users.update(i, UserView { verified: reference, ..d.users[i] }), ..d }
}

/// Decides a verification check from the `status` field of the provider's reply.
pub fn check_status(status: &Option<String>) -> (r: Result<(), StoreError>)
    ensures
        r == status_outcome(opt_string_view(*status)),
{
    match status {
        Some(s) => {
            let approved = String::from_str("approved");
            if *s == approved {
                Ok(())
            } else {
                Err(StoreError::VerificationFailed)
            }
        },
        None => Err(StoreError::ProviderError),
    }
}

/// The provider's pending-verification reference, read from the `url` field
/// of its reply; `ProviderError` when the reply has no such string field.
pub fn pending_reference(reply: &str) -> (r: Result<String, StoreError>)
    ensures
        match json_string_field(reply@, "url"@) {
            Some(reference) => r matches Ok(s) && s@ == reference,
            None => r == Err::<String, StoreError>(StoreError::ProviderError),
        },
{
    match read_json_string_field(reply, "url") {
        Some(s) => Ok(s),
        None => Err(StoreError::ProviderError),
    }
}

/// The E.164 form of `phone_number`, read with `country` as a region hint;
/// `InvalidPhoneNumber` when it cannot be parsed or is not a valid number.
pub fn normalize_phone_number(phone_number: &str, country: &str) -> (r: Result<String, StoreError>)
    ensures
        match e164_of(country@, phone_number@) {
            Some(e) => r matches Ok(s) && s@ == e && e.len() >= 1 && e[0] == '+',
            None => r == Err::<String, StoreError>(StoreError::InvalidPhoneNumber),
        },
{
    match parse_valid_e164(country, phone_number) {
        Some(s) => Ok(s),
        None => Err(StoreError::InvalidPhoneNumber),
    }
}

impl User {
    /// Applies the provider's reply to a verification check of this user's
    /// code: on approval the user is marked as confirmed and a copy of it is
    /// returned; otherwise the user is left as it was.
    pub fn check_verification(&mut self, reply: &str) -> (r: Result<User, StoreError>)
        ensures
            status_outcome(json_string_field(reply@, "status"@)) matches Err(e) ==> r == Err::<User, StoreError>(e)
                && final(self)@ == old(self)@,
            status_outcome(json_string_field(reply@, "status"@)) is Ok ==> final(self)@ == confirmed(old(self)@)
                && (r matches Ok(u) && u@ == final(self)@),
    {
        let status = read_json_string_field(reply, "status");
        match check_status(&status) {
            Ok(()) => {
                self.set_verification_code(String::from_str("true"));
                Ok(self.copied())
            },
            Err(e) => Err(e),
        }
    }

    /// Records the start of a verification for the E.164 number
    /// `phone_number`, from the provider's reply to the start request. The
    /// first user with that number gets the pending reference; where there is
    /// none, a new user with a fresh id and token is created with it. Returns
    /// the user's id. Creating a user fails with `SystemFailure` when the
    /// random source fails, and with `Conflict` when the random id is taken;
    /// the store is then left as it was.
    pub fn start_verification(data: &mut Data, phone_number: String, reply: &str) -> (r: Result<String, StoreError>)
        requires
            old(data)@.wf(),
        ensures
            final(data)@.wf(),
            json_string_field(reply@, "url"@) is None
                ==> r == Err::<String, StoreError>(StoreError::ProviderError) && final(data)@ == old(data)@,
            json_string_field(reply@, "url"@) is Some && old(data)@.has_phone(phone_number@)
                ==> exists|i: int| #[trigger] old(data)@.first_phone_at(phone_number@, i)
                    && final(data)@ == with_pending(old(data)@, i, json_string_field(reply@, "url"@)->Some_0)
                    && (r matches Ok(id) && id@ == old(data)@.users[i].uuid),
            json_string_field(reply@, "url"@) is Some && !old(data)@.has_phone(phone_number@)
                ==> ((r == Err::<String, StoreError>(StoreError::SystemFailure)
                    || r == Err::<String, StoreError>(StoreError::Conflict)) && final(data)@ == old(data)@)
                    || (r matches Ok(id) && !old(data)@.has_user(id@) && id@.len() == 36 && exists|token: Seq<char>|
                        token.len() == TOKEN_LEN && #[trigger] is_code(token) && final(data)@ == (DataView {
                            users: old(data)@.users.push(UserView {
                                verified: json_string_field(reply@, "url"@)->Some_0,
                                ..fresh_user_view(id@, token, phone_number@)
                            }),
                            ..old(data)@
                        })),
    {
        let reference = match pending_reference(reply) {
            Ok(s) => s,
            Err(e) => return Err(e),
        };
        match data.find_phone(&phone_number) {
            Some(i) => {
                let ghost before = data@;
                let mut user = data.users[i].copied();
                let id = user.uuid.clone();
                user.set_verification_code(reference);
                data.users.set(i, user);
                assert(data@ == with_pending(before, i as int, reference@)) by {
                    assert(data@.users =~= with_pending(before, i as int, reference@).users);
                }
                proof {
                    assert forall|a: int, b: int|
                        0 <= a < data@.users.len() && 0 <= b < data@.users.len() && a != b
                        implies #[trigger] data@.users[a].uuid != #[trigger] data@.users[b].uuid by {
                        assert(before.users[a].uuid != before.users[b].uuid);
                    }
                }
                Ok(id)
            },
            None => {
                let id = match fresh_uuid() {
                    Some(id) => id,
                    None => return Err(StoreError::SystemFailure),
                };
                let mut user = match User::new(id, phone_number) {
                    Ok(u) => u,
                    Err(e) => return Err(e),
                };
                user.set_verification_code(reference);
                let uid = user.uuid.clone();
                match data.add_user(user) {
                    Ok(()) => Ok(uid),
                    Err(e) => Err(e),
                }
            },
        }
    }
}

impl Data {
    /// Applies the provider's reply to a verification check for user `uuid`:
    /// on approval the stored user is marked as confirmed and returned.
    pub fn check_verification(&mut self, uuid: &str, reply: &str) -> (r: Result<User, StoreError>)
        requires
            old(self)@.wf(),
        ensures
            final(self)@.wf(),
            !old(self)@.has_user(uuid@) ==> r == Err::<User, StoreError>(StoreError::NotFound)
                && final(self)@ == old(self)@,
            old(self)@.has_user(uuid@) ==> (status_outcome(json_string_field(reply@, "status"@)) matches Err(e)
                ==> r == Err::<User, StoreError>(e) && final(self)@ == old(self)@),
            old(self)@.has_user(uuid@) && status_outcome(json_string_field(reply@, "status"@)) is Ok
                ==> final(self)@ == (DataView {
                    users: old(self)@.upserted(confirmed(old(self)@.user_of(uuid@))),
                    ..old(self)@
                }) && (r matches Ok(u) && u@ == confirmed(old(self)@.user_of(uuid@))),
    {
        let id = uuid.to_owned();
        match self.get_user_by_id(&id) {
            Some(mut user) => {
                match user.check_verification(reply) {
                    Ok(confirmed_user) => {
                        self.add_update_user(user);
                        Ok(confirmed_user)
                    },
                    Err(e) => Err(e),
                }
            },
            None => Err(StoreError::NotFound),
        }
    }
}

} // verus!
