use vstd::prelude::*;
use vstd::string::StringExecFns;

use crate::dto::CreateUserRequest;
use crate::dto::UpdateUserRequest;
use crate::dto::UserRecord;
use crate::dto::UserResponse;
use crate::dto::spec_response_of;
use crate::error::AppError;
use crate::text::i32_to_string;
use crate::text::is_blank;
use crate::text::spec_decimal_int;
use crate::text::spec_is_blank;

verus! {

/// The not-found message for a user id.
pub open spec fn spec_not_found_message(id: int) -> Seq<char> {
    "User with id "@ + spec_decimal_int(id) + " not found"@
}

fn not_found_message(id: i32) -> (r: String)
    ensures
        r@ == spec_not_found_message(id as int),
{
    let mut m = "User with id ".to_owned();
    let digits = i32_to_string(id);
    m.append(digits.as_str());
    m.append(" not found");
    m
}

/// The duplicate-username message.
pub open spec fn spec_username_exists_message(username: Seq<char>) -> Seq<char> {
    "Username '"@ + username + "' already exists"@
}

fn username_exists_message(username: &str) -> (r: String)
    ensures
        r@ == spec_username_exists_message(username@),
{
    let mut m = "Username '".to_owned();
    m.append(username);
    m.append("' already exists");
    m
}

/// The values a validated creation inserts into the store.
pub struct NewUser {
    pub username: String,
    pub email: String,
}

/// The service's decision rules. Each function decides from the request and
/// from what the store reported; the store itself is driven by the caller.
pub struct UserService;

impl UserService {
    /// Maps every stored row to its client-facing response, in order.
    pub fn list_users(users: Vec<UserRecord>) -> (r: Vec<UserResponse>)
        ensures
            r@.len() == users@.len(),
            forall|i: int|
                0 <= i < users@.len() ==> #[trigger] r@[i] == spec_response_of(users@[i]),
    {
        let ghost orig = users@;
        let mut rest = users;
        let mut out: Vec<UserResponse> = Vec::new();
        while rest.len() > 0
            invariant
                out@.len() + rest@.len() == orig.len(),
                forall|i: int| 0 <= i < out@.len() ==> #[trigger] out@[i] == spec_response_of(
                    orig[i],
                ),
                forall|j: int| 0 <= j < rest@.len() ==> #[trigger] rest@[j] == orig[out@.len() + j],
            decreases rest@.len(),
        {
            let m = rest.remove(0);
            out.push(UserResponse::from(m));
        }
        out
    }

    /// What looking a user up yields: the row's response, or the not-found
    /// error exactly when the store had no such row.
    pub fn get_user(id: i32, found: Option<UserRecord>) -> (r: Result<UserResponse, AppError>)
        ensures
            found matches Some(u) ==> r matches Ok(resp) && resp == spec_response_of(u),
            found is None ==> {
                &&& r matches Err(e)
                &&& e matches AppError::NotFound(m) && m@ == spec_not_found_message(id as int)
            },
    {
        match found {
            Some(u) => Ok(UserResponse::from(u)),
            None => Err(AppError::NotFound(not_found_message(id))),
        }
    }

    /// Validates a creation: the username must not be blank, then the email
    /// must not be blank, then the username must be free; only then do the
    /// request's values go to the store, unchanged.
    pub fn create_user(req: CreateUserRequest, username_taken: bool) -> (r: Result<
        NewUser,
        AppError,
    >)
        ensures
            spec_is_blank(req.username@) ==> {
                &&& r matches Err(e)
                &&& e matches AppError::Validation(m) && m@ == "Username cannot be empty"@
            },
            !spec_is_blank(req.username@) && spec_is_blank(req.email@) ==> {
                &&& r matches Err(e)
                &&& e matches AppError::Validation(m) && m@ == "Email cannot be empty"@
            },
            !spec_is_blank(req.username@) && !spec_is_blank(req.email@) && username_taken ==> {
                &&& r matches Err(e)
                &&& e matches AppError::Validation(m) && m@ == spec_username_exists_message(
                    req.username@,
                )
            },
            !spec_is_blank(req.username@) && !spec_is_blank(req.email@) && !username_taken ==> {
                &&& r matches Ok(nu)
                &&& nu.username@ == req.username@
                &&& nu.email@ == req.email@
            },
    {
        if is_blank(req.username.as_str()) {
            Err(AppError::Validation("Username cannot be empty".to_owned()))
        } else if is_blank(req.email.as_str()) {
            Err(AppError::Validation("Email cannot be empty".to_owned()))
        } else if username_taken {
            Err(AppError::Validation(username_exists_message(req.username.as_str())))
        } else {
            Ok(NewUser { username: req.username, email: req.email })
        }
    }

    /// Decides an update. The row must exist; a requested username must not
    /// be blank and — when it differs from the current one — must be free.
    /// The result is the row as it should be written: requested fields
    /// changed, absent fields kept.
    pub fn update_user(
        id: i32,
        req: UpdateUserRequest,
        existing: Option<UserRecord>,
        username_taken: bool,
    ) -> (r: Result<UserRecord, AppError>)
        ensures
            existing is None ==> {
                &&& r matches Err(e)
                &&& e matches AppError::NotFound(m) && m@ == spec_not_found_message(id as int)
            },
            existing matches Some(cur) ==> (match req.username {
                Some(u) => {
                    &&& spec_is_blank(u@) ==> {
                        &&& r matches Err(e)
                        &&& e matches AppError::Validation(m) && m@ == "Username cannot be empty"@
                    }
                    &&& !spec_is_blank(u@) && u@ != cur.username@ && username_taken ==> {
                        &&& r matches Err(e)
                        &&& e matches AppError::Validation(m) && m@ == spec_username_exists_message(
                            u@,
                        )
                    }
                    &&& !spec_is_blank(u@) && (u@ == cur.username@ || !username_taken) ==> {
                        &&& r matches Ok(rec)
                        &&& rec.id == cur.id
                        &&& rec.username@ == u@
                        &&& rec.email@ == (match req.email {
                            Some(em) => em@,
                            None => cur.email@,
                        })
                    }
                },
                None => {
                    &&& r matches Ok(rec)
                    &&& rec.id == cur.id
                    &&& rec.username@ == cur.username@
                    &&& rec.email@ == (match req.email {
                        Some(em) => em@,
                        None => cur.email@,
                    })
                },
            }),
    {
        match existing {
            None => Err(AppError::NotFound(not_found_message(id))),
            Some(cur) => {
                match req.username {
                    Some(u) => {
                        if is_blank(u.as_str()) {
                            Err(AppError::Validation("Username cannot be empty".to_owned()))
                        } else if u != cur.username && username_taken {
                            Err(AppError::Validation(username_exists_message(u.as_str())))
                        } else {
                            let email = match req.email {
                                Some(em) => em,
                                None => cur.email,
                            };
                            Ok(UserRecord { id: cur.id, username: u, email })
                        }
                    },
                    None => {
                        let email = match req.email {
                            Some(em) => em,
                            None => cur.email,
                        };
                        Ok(UserRecord { id: cur.id, username: cur.username, email })
                    },
                }
            },
        }
    }

    /// Deleting succeeds exactly when the store removed a row; removing
    /// nothing means the user was not there.
    pub fn delete_user(id: i32, rows_affected: u64) -> (r: Result<(), AppError>)
        ensures
            rows_affected == 0 ==> {
                &&& r matches Err(e)
                &&& e matches AppError::NotFound(m) && m@ == spec_not_found_message(id as int)
            },
            rows_affected != 0 ==> r matches Ok(u),
    {
        if rows_affected == 0 {
            Err(AppError::NotFound(not_found_message(id)))
        } else {
            Ok(())
        }
    }
}

} // verus!
