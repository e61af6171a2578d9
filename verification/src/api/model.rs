//! Requests and responses of the API, and the validation of requests.

use vstd::prelude::*;
use crate::decimal::Dec;
use crate::model::{AssetId, Contract, Network, Symbol};

verus! {

/// Whether validator's `ValidateEmail::validate_email` accepts `s` as an
/// email address.
pub uninterp spec fn validator_accepts_email(s: Seq<char>) -> bool;

/// Whether `s` is an email address, by validator's `ValidateEmail` for
/// `&str`. The crate's source rejects outright an empty text and one
/// without `@`; the rest of its rules are left to the name.
#[verifier::external_body]
fn is_valid_email(s: &str) -> (b: bool)
    ensures
        b == validator_accepts_email(s@),
        s@.len() == 0 || !s@.contains('@') ==> !b,
{
    validator::ValidateEmail::validate_email(&s)
}

/// A field of a request that fails validation.
#[derive(Debug, PartialEq, Eq)]
pub struct FieldViolation {
    pub field: String,
    pub code: String,
    pub message: String,
}

/// The fields of a request that fail validation, in declaration order.
#[derive(Debug, PartialEq, Eq)]
pub struct Violations {
    pub errors: Vec<FieldViolation>,
}

/// The lines `field: message`, one per violation, joined with newlines.
pub open spec fn violations_text(errors: Seq<FieldViolation>) -> Seq<char>
    decreases errors.len(),
{
    if errors.len() == 0 {
        Seq::empty()
    } else if errors.len() == 1 {
        errors[0].field@ + ": "@ + errors[0].message@
    } else {
        violations_text(errors.drop_last()) + "\n"@ + errors.last().field@ + ": "@ + errors.last().message@
    }
}

impl Violations {
    /// The violations as text, one line `field: message` per field.
    pub fn to_text(&self) -> (t: String)
        ensures
            t@ == violations_text(self.errors@),
    {
        let mut t = String::new();
        let mut i: usize = 0;
        while i < self.errors.len()
            invariant
                i <= self.errors@.len(),
                t@ == violations_text(self.errors@.take(i as int)),
            decreases self.errors.len() - i,
        {
            proof {
                assert(self.errors@.take(i + 1).drop_last() =~= self.errors@.take(i as int));
            }
            if i > 0 {
                t.append("\n");
            }
            t.append(self.errors[i].field.as_str());
            t.append(": ");
            t.append(self.errors[i].message.as_str());
            i = i + 1;
        }
        assert(self.errors@.take(self.errors@.len() as int) =~= self.errors@);
        t
    }
}

/// A violation of the email rule of `field`.
fn email_violation(field: &str, message: &str) -> (v: FieldViolation)
    ensures
        v.field@ == field@,
        v.code@ == "email"@,
        v.message@ == message@,
{
    FieldViolation { field: field.to_owned(), code: "email".to_owned(), message: message.to_owned() }
}

/// A violation of the length rule of `field`.
fn length_violation(field: &str, message: &str) -> (v: FieldViolation)
    ensures
        v.field@ == field@,
        v.code@ == "length"@,
        v.message@ == message@,
{
    FieldViolation { field: field.to_owned(), code: "length".to_owned(), message: message.to_owned() }
}

/// The smallest number of characters a password may have.
pub const MIN_PASSWORD_CHARS: usize = 8;

/// Whether a violation is the email violation with `message`.
pub open spec fn is_email_violation(v: FieldViolation, message: Seq<char>) -> bool {
    v.field@ == "email"@ && v.code@ == "email"@ && v.message@ == message
}

/// Whether a violation is the password length violation with `message`.
pub open spec fn is_password_violation(v: FieldViolation, message: Seq<char>) -> bool {
    v.field@ == "password"@ && v.code@ == "length"@ && v.message@ == message
}

/// Whether `errors` lists, in order, the email violation when the email is
/// not valid and the password violation when the password is too short.
pub open spec fn credential_violations(
    errors: Seq<FieldViolation>,
    email: Seq<char>,
    password: Seq<char>,
    email_message: Seq<char>,
    password_message: Seq<char>,
) -> bool {
    let bad_email = !validator_accepts_email(email);
    let bad_password = password.len() < MIN_PASSWORD_CHARS;
    &&& errors.len() == (if bad_email { 1int } else { 0int }) + (if bad_password { 1int } else { 0int })
    &&& bad_email ==> is_email_violation(errors[0], email_message)
    &&& bad_password ==> is_password_violation(errors[errors.len() - 1], password_message)
}

/// Checks an email and a password against the email and length rules.
fn validate_credentials(
    email: &String,
    password: &String,
    email_message: &str,
    password_message: &str,
) -> (r: Result<(), Violations>)
    ensures
        r is Ok <==> validator_accepts_email(email@) && password@.len() >= MIN_PASSWORD_CHARS,
        email@.len() == 0 || !email@.contains('@') ==> r is Err,
        r matches Err(v) ==> credential_violations(v.errors@, email@, password@, email_message@, password_message@),
{
    let mut errors: Vec<FieldViolation> = Vec::new();
    if !is_valid_email(email.as_str()) {
        errors.push(email_violation("email", email_message));
    }
    if password.as_str().unicode_len() < MIN_PASSWORD_CHARS {
        errors.push(length_violation("password", password_message));
    }
    if errors.len() == 0 {
        Ok(())
    } else {
        Err(Violations { errors })
    }
}

/// A request to register a user.
#[derive(Debug)]
pub struct RegisterRequest {
    pub email: String,
    pub password: String,
}

impl RegisterRequest {
    /// Accepts the request when the email is an email address and the
    /// password has at least 8 characters; otherwise lists what fails.
    pub fn validate(&self) -> (r: Result<(), Violations>)
        ensures
            r is Ok <==> validator_accepts_email(self.email@) && self.password@.len() >= MIN_PASSWORD_CHARS,
            self.email@.len() == 0 || !self.email@.contains('@') ==> r is Err,
            r matches Err(v) ==> credential_violations(
                v.errors@,
                self.email@,
                self.password@,
                "Invalid email format"@,
                "Password must be at least 8 characters"@,
            ),
    {
        validate_credentials(&self.email, &self.password, "Invalid email format", "Password must be at least 8 characters")
    }
}

/// A request to log in.
#[derive(Debug)]
pub struct LoginRequest {
    pub email: String,
    pub password: String,
}

impl LoginRequest {
    /// Accepts the request when the email is an email address and the
    /// password has at least 8 characters, since no shorter password can be
    /// right; otherwise lists what fails.
    pub fn validate(&self) -> (r: Result<(), Violations>)
        ensures
            r is Ok <==> validator_accepts_email(self.email@) && self.password@.len() >= MIN_PASSWORD_CHARS,
            self.email@.len() == 0 || !self.email@.contains('@') ==> r is Err,
            r matches Err(v) ==> credential_violations(
                v.errors@,
                self.email@,
                self.password@,
                "Invalid email format"@,
                "Wrong password"@,
            ),
    {
        validate_credentials(&self.email, &self.password, "Invalid email format", "Wrong password")
    }
}

/// The token returned on registration and login.
#[derive(Debug)]
pub struct TokenResponse {
    pub token: String,
    /// Always `Bearer`.
    pub token_type: String,
}

impl TokenResponse {
    pub fn new(token: String) -> (r: Self)
        ensures
            r.token == token,
            r.token_type@ == "Bearer"@,
    {
        Self { token, token_type: "Bearer".to_owned() }
    }
}

/// A request to add an asset.
#[derive(Debug)]
pub struct AddAssetRequest {
    pub symbol: Symbol,
    pub name: String,
    pub network: Network,
    pub contract_address: Contract,
}

/// A request to set the expected allocation of an asset.
#[derive(Debug)]
pub struct AddExpectedAllocationRequest {
    pub expected_allocation_pct: Dec,
}

/// A request to add a holding.
#[derive(Debug)]
pub struct AddHoldingRequest {
    pub asset_id: AssetId,
    pub amount: Dec,
    pub description: Option<String>,
}

/// A request to change a holding.
#[derive(Debug)]
pub struct UpdateHoldingRequest {
    pub amount: Dec,
    pub description: Option<String>,
}

} // verus!
