use vstd::prelude::*;

verus! {

/// The two roles a caller can hold.
#[derive(Debug, Clone, Copy, PartialEq, Eq, Structural)]
pub enum Role {
    Admin,
    User,
}

impl Role {
    /// Name of the role as shown in payloads.
    pub fn name(&self) -> (r: &'static str)
        ensures
            *self == Role::Admin ==> r@ == "Admin"@,
            *self == Role::User ==> r@ == "User"@,
    {
        match self {
            Role::Admin => "Admin",
            Role::User => "User",
        }
    }
}

/// A registered account. `password` holds the password hash, never the plaintext.
#[derive(Debug, Clone)]
pub struct User {
    pub id: i32,
    pub email: String,
    pub first_name: String,
    pub last_name: String,
    pub password: String,
    pub role: Role,
}

impl User {
    /// A field-by-field copy of the record.
    pub fn copy_record(&self) -> (r: User)
        ensures
            r == *self,
    {
        User {
            id: self.id,
            email: self.email.clone(),
            first_name: self.first_name.clone(),
            last_name: self.last_name.clone(),
            password: self.password.clone(),
            role: self.role,
        }
    }

    /// The public part of the record: everything but the password hash.
    pub fn summary(&self) -> (r: UserSummary)
        ensures
            r.id == self.id,
            r.email@ == self.email@,
            r.first_name@ == self.first_name@,
            r.last_name@ == self.last_name@,
            r.role == self.role,
    {
        UserSummary {
            id: self.id,
            email: self.email.clone(),
            first_name: self.first_name.clone(),
            last_name: self.last_name.clone(),
            role: self.role,
        }
    }
}

/// What a user may see of an account.
#[derive(Debug, Clone)]
pub struct UserSummary {
    pub id: i32,
    pub email: String,
    pub first_name: String,
    pub last_name: String,
    pub role: Role,
}

/// The fields of a registration.
#[derive(Debug, Clone)]
pub struct RegisterRequest {
    pub first_name: String,
    pub last_name: String,
    pub email: String,
    pub password: String,
}

/// The created account, without its password or hash.
#[derive(Debug, Clone)]
pub struct RegisterResponse {
    pub id: u32,
    pub first_name: String,
    pub last_name: String,
    pub email: String,
}

/// The credentials of a login.
#[derive(Debug, Clone)]
pub struct LoginRequest {
    pub email: String,
    pub password: String,
}

/// The token handed out on a successful login.
#[derive(Debug, Clone)]
pub struct LoginResponse {
    pub token: String,
}

/// What the admin dashboard shows: the number of accounts and their summaries.
#[derive(Debug, Clone)]
pub struct Dashboard {
    pub user_count: usize,
    pub users: Vec<UserSummary>,
}

} // verus!
