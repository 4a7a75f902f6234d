//! The handlers: they shape what came in, ask the use case, and hand the
//! outcome to the response mapping.

use crate::domain::dto::{
    add_message, Envelope, FieldErrors, FieldMap, HttpReply, STATUS_BAD_REQUEST, STATUS_CREATED,
    STATUS_INTERNAL_SERVER_ERROR, STATUS_NOT_FOUND, STATUS_OK,
};
use crate::domain::response_helpers::{
    error_envelope, map_app_error_to_response, success_response,
};
use crate::domain::{insert_answer, lookup_answer, User, UserRepository};
use crate::errors::{status_of, AppError, AppErrorView};
use crate::use_case::UserUseCase;
use validator::{ValidateEmail, ValidateLength};
use vstd::prelude::*;

verus! {

/// Whether a text has the form of an e-mail address, as the `validator`
/// crate judges it.
pub uninterp spec fn email_syntax(text: Seq<char>) -> bool;

/// `validator::ValidateEmail::validate_email` on a `String`: whether the
/// text has the form of an e-mail address. The answer depends on the
/// text alone. All that is claimed of it beyond that: a text without an
/// `@` is turned down.
#[verifier::external_body]
fn is_email(text: &String) -> (ok: bool)
    ensures
        ok == email_syntax(text@),
        ok ==> text@.contains('@'),
{
    text.validate_email()
}

/// `validator::ValidateLength::validate_length` on a `String`, with a
/// lower bound alone: whether the text counts at least `min` characters.
#[verifier::external_body]
fn has_min_length(text: &String, min: u64) -> (ok: bool)
    ensures
        ok == (text@.len() >= min),
{
    text.validate_length(Some(min), None, None)
}

/// One rule that a field broke, with the rule's message where it has one.
#[derive(Debug)]
pub struct Violation {
    pub field: String,
    pub message: Option<String>,
}

/// What a `Violation` holds, as mathematical values.
pub struct ViolationView {
    pub field: Seq<char>,
    pub message: Option<Seq<char>>,
}

impl View for Violation {
    type V = ViolationView;

    open spec fn view(&self) -> ViolationView {
        ViolationView {
            field: self.field@,
            message: match self.message {
                Some(message) => Some(message@),
                None => None,
            },
        }
    }
}

/// Each violation of a list, as mathematical values.
pub open spec fn views(violations: Seq<Violation>) -> Seq<ViolationView> {
    violations.map_values(|v: Violation| v@)
}

/// The message that reports a violation: the rule's own, or a general one.
pub open spec fn message_text(violation: ViolationView) -> Seq<char> {
    match violation.message {
        Some(message) => message,
        None => "Invalid input"@,
    }
}

/// The messages of all violations, gathered under their fields in the
/// order in which the violations stand.
pub open spec fn messages_by_field(violations: Seq<ViolationView>) -> FieldMap
    decreases violations.len(),
{
    if violations.len() == 0 {
        Map::empty()
    } else {
        add_message(
            messages_by_field(violations.drop_last()),
            violations.last().field,
            message_text(violations.last()),
        )
    }
}

/// Every violation is reported: its field has an entry, and its message
/// stands among that field's messages.
pub proof fn lemma_each_violation_is_reported(violations: Seq<ViolationView>, i: int)
    requires
        0 <= i < violations.len(),
    ensures
        messages_by_field(violations).contains_key(violations[i].field),
        messages_by_field(violations)[violations[i].field].contains(message_text(violations[i])),
    decreases violations.len(),
{
    let front = violations.drop_last();
    let last = violations.last();
    let had = if messages_by_field(front).contains_key(last.field) {
        messages_by_field(front)[last.field]
    } else {
        Seq::empty()
    };
    if i == violations.len() - 1 {
        assert(had.push(message_text(last))[had.len() as int] == message_text(last));
    } else {
        lemma_each_violation_is_reported(front, i);
        assert(front[i] == violations[i]);
        if violations[i].field == last.field {
            let k = choose|k: int| 0 <= k < had.len() && had[k] == message_text(violations[i]);
            assert(had.push(message_text(last))[k] == message_text(violations[i]));
        }
    }
}

/// Only violated fields are reported: a field with an entry has a
/// violation.
pub proof fn lemma_each_entry_is_a_violation(violations: Seq<ViolationView>, field: Seq<char>)
    requires
        messages_by_field(violations).contains_key(field),
    ensures
        exists|i: int| 0 <= i < violations.len() && (#[trigger] violations[i]).field == field,
    decreases violations.len(),
{
    if violations.len() > 0 {
        let front = violations.drop_last();
        if violations.last().field == field {
            assert(violations[violations.len() - 1].field == field);
        } else {
            lemma_each_entry_is_a_violation(front, field);
            let i = choose|i: int| 0 <= i < front.len() && (#[trigger] front[i]).field == field;
            assert(violations[i].field == field);
        }
    }
}

/// Gathers the messages of the violations under their fields.
pub fn collect_messages(violations: &Vec<Violation>) -> (errors: FieldErrors)
    ensures
        errors@ == messages_by_field(views(violations@)),
{
    let mut errors = FieldErrors::new();
    let mut i: usize = 0;
    while i < violations.len()
        invariant
            i <= violations.len(),
            errors@ == messages_by_field(views(violations@).take(i as int)),
        decreases violations.len() - i,
    {
        let violation = &violations[i];
        let message = match &violation.message {
            Some(message) => message.clone(),
            None => "Invalid input".to_owned(),
        };
        proof {
            let upto = views(violations@).take(i + 1);
            assert(upto.drop_last() =~= views(violations@).take(i as int));
            assert(upto.last() == violation@);
        }
        errors.add(violation.field.clone(), message);
        i += 1;
    }
    assert(views(violations@).take(i as int) =~= views(violations@));
    errors
}

/// The rules that a request breaks whose name and address were judged so:
/// the name's before the address's.
pub open spec fn violations_given(name_ok: bool, email_ok: bool) -> Seq<ViolationView> {
    let name: Seq<ViolationView> = if name_ok {
        seq![]
    } else {
        seq![ViolationView { field: "username"@, message: Some("Username cannot be empty"@) }]
    };
    let address: Seq<ViolationView> = if email_ok {
        seq![]
    } else {
        seq![ViolationView { field: "email"@, message: Some("Invalid email format"@) }]
    };
    name + address
}

/// Lists the rules that a request breaks, given how its name and its
/// address were judged.
pub fn list_violations(name_ok: bool, email_ok: bool) -> (found: Vec<Violation>)
    ensures
        views(found@) == violations_given(name_ok, email_ok),
{
    let mut found: Vec<Violation> = Vec::new();
    if !name_ok {
        found.push(
            Violation {
                field: "username".to_owned(),
                message: Some("Username cannot be empty".to_owned()),
            },
        );
    }
    if !email_ok {
        found.push(
            Violation {
                field: "email".to_owned(),
                message: Some("Invalid email format".to_owned()),
            },
        );
    }
    assert(views(found@) =~= violations_given(name_ok, email_ok));
    found
}

/// What a client sends to have a user created.
#[derive(Debug)]
pub struct CreateUserRequest {
    pub username: String,
    pub email: String,
}

impl CreateUserRequest {
    /// The rules that the request breaks, the name's before the
    /// address's: the name must not be empty, the address must have the
    /// form of one.
    pub open spec fn violations(&self) -> Seq<ViolationView> {
        violations_given(self.username@.len() >= 1, email_syntax(self.email@))
    }

    /// The request breaks no rule.
    pub open spec fn is_valid(&self) -> bool {
        self.username@.len() >= 1 && email_syntax(self.email@)
    }

    /// The messages by field that report what the request breaks.
    pub open spec fn field_errors(&self) -> FieldMap {
        messages_by_field(self.violations())
    }

    /// The user that a valid request asks for, before the store has
    /// given it an identifier: name and address as they came, and zero in
    /// the identifier's place.
    pub open spec fn new_user(&self) -> User {
        User { id: 0, username: self.username, email: self.email }
    }

    /// The report on a request names each field that breaks its rule,
    /// with that rule's message, and no other field.
    pub proof fn lemma_field_errors(&self)
        ensures
            self.is_valid() <==> self.field_errors() == FieldMap::empty(),
            self.field_errors().contains_key("username"@) <==> self.username@.len() == 0,
            self.field_errors().contains_key("email"@) <==> !email_syntax(self.email@),
            self.username@.len() == 0 ==> self.field_errors()["username"@]
                == seq!["Username cannot be empty"@],
            !email_syntax(self.email@) ==> self.field_errors()["email"@]
                == seq!["Invalid email format"@],
            forall|field: Seq<char>| #[trigger]
                self.field_errors().contains_key(field) ==> field == "username"@ || field
                    == "email"@,
    {
        reveal_strlit("username");
        reveal_strlit("email");
        assert("username"@.len() != "email"@.len());
        let all = self.violations();
        reveal_with_fuel(messages_by_field, 3);
        if all.len() == 0 {
        } else if all.len() == 1 {
            assert(all.drop_last() =~= Seq::empty());
            assert(self.field_errors() =~= FieldMap::empty().insert(
                all[0].field,
                seq![message_text(all[0])],
            ));
            assert(self.field_errors().contains_key(all[0].field));
        } else {
            assert(all.len() == 2);
            assert(all.drop_last().drop_last() =~= Seq::empty());
            assert(all.drop_last()[0] == all[0]);
            assert(self.field_errors() =~= FieldMap::empty().insert(
                "username"@,
                seq!["Username cannot be empty"@],
            ).insert("email"@, seq!["Invalid email format"@]));
            assert(self.field_errors().contains_key("email"@));
        }
    }

    /// Holds the request to its rules and lists every one it breaks. An
    /// address without an `@` always breaks its rule.
    pub fn validate(&self) -> (checked: Result<(), Vec<Violation>>)
        ensures
            match checked {
                Ok(_) => self.is_valid(),
                Err(found) => !self.is_valid() && views(found@) == self.violations(),
            },
            email_syntax(self.email@) ==> self.email@.contains('@'),
    {
        let name_ok = has_min_length(&self.username, 1);
        let email_ok = is_email(&self.email);
        let found = list_violations(name_ok, email_ok);
        assert(views(found@).len() == found@.len());
        if found.len() == 0 {
            Ok(())
        } else {
            Err(found)
        }
    }

    /// The user that the request asks for, with no identifier yet; or, where
    /// the request breaks a rule, the report on all that it breaks. An
    /// address without an `@` always breaks its rule.
    pub fn into_user(self) -> (shaped: Result<User, AppError>)
        ensures
            match shaped {
                Ok(user) => self.is_valid() && user == self.new_user(),
                Err(e) => !self.is_valid() && e@ == AppErrorView::InvalidInput(
                    self.field_errors(),
                ),
            },
            email_syntax(self.email@) ==> self.email@.contains('@'),
    {
        let mut validation_errors = FieldErrors::new();
        if let Err(violations) = self.validate() {
            validation_errors = collect_messages(&violations);
        }
        proof {
            self.lemma_field_errors();
        }
        if !validation_errors.is_empty() {
            return Err(AppError::InvalidInput(validation_errors));
        }
        Ok(User { id: 0, username: self.username, email: self.email })
    }
}

/// The reply is the one that answers a lookup which ended as `found`.
pub open spec fn is_found_reply(found: Result<User, AppError>, reply: HttpReply) -> bool {
    match found {
        Ok(user) => {
            &&& reply.status == STATUS_OK
            &&& reply.body matches Envelope::Success(body)
            &&& body.status@ == "success"@
            &&& body.message@ == "User found"@
            &&& body.data == Some(user)
        },
        Err(e) => {
            &&& reply.status == status_of(e@)
            &&& reply.body matches Envelope::Failure(body)
            &&& body@ == error_envelope(e@)
        },
    }
}

/// The reply is the one that answers a creation which ended as `created`.
pub open spec fn is_created_reply(created: Result<User, AppError>, reply: HttpReply) -> bool {
    match created {
        Ok(user) => {
            &&& reply.status == STATUS_CREATED
            &&& reply.body matches Envelope::Success(body)
            &&& body.status@ == "success"@
            &&& body.message@ == "User created successfully"@
            &&& body.data == Some(user)
        },
        Err(e) => {
            &&& reply.status == status_of(e@)
            &&& reply.body matches Envelope::Failure(body)
            &&& body@ == error_envelope(e@)
        },
    }
}

/// The reply to a lookup, given how it ended.
pub fn found_reply(found: Result<User, AppError>) -> (reply: HttpReply)
    ensures
        is_found_reply(found, reply),
        reply.well_formed(),
{
    match found {
        Ok(user) => {
            let response = success_response("User found", user);
            HttpReply { status: STATUS_OK, body: Envelope::Success(response) }
        },
        Err(e) => map_app_error_to_response(e),
    }
}

/// The reply to a creation, given how it ended.
pub fn created_reply(created: Result<User, AppError>) -> (reply: HttpReply)
    ensures
        is_created_reply(created, reply),
        reply.well_formed(),
{
    match created {
        Ok(created_user) => {
            let response = success_response("User created successfully", created_user);
            HttpReply { status: STATUS_CREATED, body: Envelope::Success(response) }
        },
        Err(e) => map_app_error_to_response(e),
    }
}

/// Answers a request for the user of an identifier. The use case is asked
/// once, for that identifier, and the reply is the one that answers what
/// it said: the user that the store holds; "not found", and only where no
/// row matches; or the failure of a store that could not be asked. Where
/// no row matches, the reply is never a success.
pub fn get_user<R: UserRepository>(user_id: i32, user_use_case: &UserUseCase<R>) -> (reply:
    HttpReply)
    ensures
        reply.well_formed(),
        exists|found: Result<User, AppError>|
            {
                &&& #[trigger] call_ensures(
                    UserUseCase::<R>::get_user,
                    (user_use_case, user_id),
                    found,
                )
                &&& lookup_answer(user_use_case.rows(), user_id, found)
                &&& is_found_reply(found, reply)
            },
        !user_use_case.rows().contains_key(user_id) ==> {
            &&& reply.body matches Envelope::Failure(body)
            &&& {
                ||| reply.status == STATUS_NOT_FOUND && body@ == error_envelope(
                    AppErrorView::NotFound,
                )
                ||| reply.status == STATUS_INTERNAL_SERVER_ERROR && exists|detail: Seq<char>|
                    body@ == #[trigger] error_envelope(AppErrorView::DatabaseError(detail))
            }
        },
        reply.status == STATUS_NOT_FOUND ==> !user_use_case.rows().contains_key(user_id),
        reply.body matches Envelope::Success(body) ==> {
            &&& reply.status == STATUS_OK
            &&& user_use_case.rows().contains_key(user_id)
            &&& body.data matches Some(user)
            &&& user@ == user_use_case.rows()[user_id]
        },
{
    let found = user_use_case.get_user(user_id);
    let ghost answer = found;
    let reply = found_reply(found);
    proof {
        assert(call_ensures(UserUseCase::<R>::get_user, (user_use_case, user_id), answer));
        if let Err(e) = answer {
            if let AppError::DatabaseError(detail) = e {
                assert(e@ == AppErrorView::DatabaseError(detail@));
            }
        }
    }
    reply
}

/// Answers a request to create a user. A request that breaks a rule is
/// answered with the report on all it breaks, and the use case is left as
/// it was. A valid one is handed to the use case once, with zero in the
/// identifier's place, and the reply is the one that answers what the use
/// case said. An address without an `@` always breaks its rule.
pub fn create_user<R: UserRepository>(
    user: CreateUserRequest,
    user_use_case: &mut UserUseCase<R>,
) -> (reply: HttpReply)
    ensures
        reply.well_formed(),
        email_syntax(user.email@) ==> user.email@.contains('@'),
        !user.is_valid() ==> {
            &&& reply.status == STATUS_BAD_REQUEST
            &&& reply.body matches Envelope::Failure(body)
            &&& body@ == error_envelope(AppErrorView::InvalidInput(user.field_errors()))
            &&& *final(user_use_case) == *old(user_use_case)
        },
        user.is_valid() ==> exists|created: Result<User, AppError>, asked: &mut UserUseCase<R>|
            {
                &&& #[trigger] call_ensures(
                    UserUseCase::<R>::create_user,
                    (asked, user.new_user()),
                    created,
                )
                &&& mut_ref_current(asked) == *old(user_use_case)
                &&& mut_ref_future(asked) == *final(user_use_case)
                &&& insert_answer(
                    old(user_use_case).rows(),
                    final(user_use_case).rows(),
                    user.new_user()@,
                    created,
                )
                &&& is_created_reply(created, reply)
            },
        reply.body matches Envelope::Success(body) ==> {
            &&& user.is_valid()
            &&& reply.status == STATUS_CREATED
            &&& body.data matches Some(stored)
            &&& stored.id != 0
            &&& stored.username@ == user.username@
            &&& stored.email@ == user.email@
            &&& final(user_use_case).rows() == old(user_use_case).rows().insert(
                stored.id,
                stored@,
            )
        },
{
    match user.into_user() {
        Err(e) => map_app_error_to_response(e),
        Ok(new_user) => {
            let created = user_use_case.create_user(new_user);
            created_reply(created)
        },
    }
}

} // verus!
