use vstd::prelude::*;
use vstd::rwlock::{RwLock, RwLockPredicate};
use std::sync::Arc;
use crate::config::{decimal_of, Config};
use crate::error::ApiError;
use crate::hasher::{bcrypt_verifies, hash_password, verify_password, HASH_COST, MAX_COST, MIN_COST};
use crate::model::{
    Dashboard, LoginRequest, LoginResponse, RegisterRequest, RegisterResponse, Role, User,
    UserSummary,
};
use crate::registry::{added, has_email, insert_outcome, summarizes, InsertError, Registry};
use crate::token::{
    check_token, expiry_at, issue_token, token_text, verify_token, Claims, ClaimsView,
};

verus! {

/// The registry behind the lock is always well formed.
pub struct RegistryInv;

impl RwLockPredicate<Registry> for RegistryInv {
    open spec fn inv(self, v: Registry) -> bool {
        v.wf()
    }
}

/// What every request shares: the settings, and the registry behind a lock.
#[derive(Clone)]
pub struct AppState {
    pub config: Arc<Config>,
    pub users: Arc<RwLock<Registry, RegistryInv>>,
    /// Work factor for the passwords of new accounts.
    pub hash_cost: u32,
}

pub open spec fn header_view(h: Option<&str>) -> Option<Seq<char>> {
    match h {
        Some(s) => Some(s@),
        None => None,
    }
}

/// The token of an `Authorization` header value of the form `Bearer <token>`.
pub open spec fn bearer_of(h: Seq<char>) -> Option<Seq<char>> {
    if h.len() >= 7 && h.subrange(0, 7) == "Bearer "@ {
        Some(h.subrange(7, h.len() as int))
    } else {
        None
    }
}

/// Outcome of authenticating a request by its header: every failure, whatever its
/// cause, is the same authentication failure.
pub open spec fn auth_outcome(header: Option<Seq<char>>, secret: Seq<char>, salt: Seq<char>, now: u64) -> Result<
    ClaimsView,
    ApiError,
> {
    match header {
        None => Err(ApiError::AuthenticationFailure),
        Some(h) => match bearer_of(h) {
            None => Err(ApiError::AuthenticationFailure),
            Some(t) => match check_token(t, secret, salt, now) {
                Ok(c) => Ok(c),
                Err(_) => Err(ApiError::AuthenticationFailure),
            },
        },
    }
}

/// Outcome of a request to an endpoint reserved to `required`: authentication first,
/// then the role check.
pub open spec fn access_outcome(
    header: Option<Seq<char>>,
    secret: Seq<char>,
    salt: Seq<char>,
    now: u64,
    required: Role,
) -> Result<ClaimsView, ApiError> {
    match auth_outcome(header, secret, salt, now) {
        Err(e) => Err(e),
        Ok(c) => if c.role == required {
            Ok(c)
        } else {
            Err(ApiError::AuthorizationFailure(required))
        },
    }
}

/// A request that carries a valid token of the `User` role is refused at an
/// admin-only endpoint as unauthorized by role, not as unauthenticated.
pub proof fn lemma_user_token_forbidden_for_admin(
    token: Seq<char>,
    secret: Seq<char>,
    salt: Seq<char>,
    now: u64,
)
    requires
        check_token(token, secret, salt, now) is Ok,
        check_token(token, secret, salt, now)->Ok_0.role == Role::User,
    ensures
        access_outcome(Some("Bearer "@ + token), secret, salt, now, Role::Admin) == Err::<
            ClaimsView,
            ApiError,
        >(ApiError::AuthorizationFailure(Role::Admin)),
{
    lemma_bearer_of_prefixed(token);
}

/// A request without a header, with a header that is not a bearer token, or with a
/// token that is malformed, forged or expired is refused as unauthenticated, at
/// every protected endpoint.
pub proof fn lemma_unauthenticated_rejected(
    header: Option<Seq<char>>,
    secret: Seq<char>,
    salt: Seq<char>,
    now: u64,
    required: Role,
)
    requires
        header is None || bearer_of(header->Some_0) is None || check_token(
            bearer_of(header->Some_0)->Some_0,
            secret,
            salt,
            now,
        ) is Err,
    ensures
        access_outcome(header, secret, salt, now, required) == Err::<ClaimsView, ApiError>(
            ApiError::AuthenticationFailure,
        ),
{
}

/// The bearer token of `Bearer <t>` is `t`.
pub proof fn lemma_bearer_of_prefixed(t: Seq<char>)
    ensures
        bearer_of("Bearer "@ + t) == Some(t),
{
    reveal_strlit("Bearer ");
    let h = "Bearer "@ + t;
    assert(h.subrange(0, 7) =~= "Bearer "@);
    assert(h.subrange(7, h.len() as int) =~= t);
}

/// Whether every field of a registration is filled in.
pub open spec fn fields_present(req: RegisterRequest) -> bool {
    &&& req.first_name@.len() > 0
    &&& req.last_name@.len() > 0
    &&& req.email@.len() > 0
    &&& req.password@.len() > 0
}

/// Reads the bearer token of a request and checks it. A missing header, a value not
/// of the form `Bearer <token>`, a malformed or forged token and an expired one all
/// give `AuthenticationFailure`.
pub fn authenticate(header: Option<&str>, config: &Config, now: u64) -> (r: Result<Claims, ApiError>)
    ensures
        r matches Ok(c) ==> auth_outcome(
            header_view(header),
            config.jwt_secret@,
            config.jwt_salt@,
            now,
        ) == Ok::<ClaimsView, ApiError>(c@),
        r matches Err(e) ==> auth_outcome(
            header_view(header),
            config.jwt_secret@,
            config.jwt_salt@,
            now,
        ) == Err::<ClaimsView, ApiError>(e),
{
    let h = match header {
        Some(h) => h,
        None => {
            return Err(ApiError::AuthenticationFailure);
        },
    };
    let n = h.unicode_len();
    proof {
        reveal_strlit("Bearer ");
    }
    if n < 7 {
        return Err(ApiError::AuthenticationFailure);
    }
    let prefix = h.substring_char(0, 7).to_owned();
    let expected = "Bearer ".to_owned();
    if prefix != expected {
        return Err(ApiError::AuthenticationFailure);
    }
    let token = h.substring_char(7, n);
    match verify_token(token, now, config.jwt_secret.as_str(), config.jwt_salt.as_str()) {
        Ok(c) => Ok(c),
        Err(_) => Err(ApiError::AuthenticationFailure),
    }
}

/// Admits a request only if its claims carry `required`.
pub fn require_role(claims: &Claims, required: Role) -> (r: Result<(), ApiError>)
    ensures
        claims.role == required <==> r is Ok,
        r is Err ==> r == Err::<(), ApiError>(ApiError::AuthorizationFailure(required)),
{
    if claims.role == required {
        Ok(())
    } else {
        Err(ApiError::AuthorizationFailure(required))
    }
}

/// Finds the account that verified claims name. An account that is gone leaves the
/// request unauthenticated.
pub fn resolve_user(claims: &Claims, registry: &Registry) -> (r: Result<User, ApiError>)
    requires
        registry.wf(),
    ensures
        r is Err <==> !has_email(registry@.users, claims.sub@),
        r is Err ==> r == Err::<User, ApiError>(ApiError::AuthenticationFailure),
        r matches Ok(u) ==> exists|i: int|
            0 <= i < registry@.users.len() && registry@.users[i] == u && u.email@ == claims.sub@,
{
    match registry.find_by_email(claims.sub.as_str()) {
        Some(u) => Ok(u),
        None => Err(ApiError::AuthenticationFailure),
    }
}

/// The admin endpoint: shows the caller's own record, to admins only.
pub fn admin_route(user: &User) -> (r: Result<User, ApiError>)
    ensures
        user.role == Role::Admin ==> r == Ok::<User, ApiError>(*user),
        user.role != Role::Admin ==> r == Err::<User, ApiError>(ApiError::AuthorizationFailure(Role::Admin)),
{
    if user.role == Role::Admin {
        Ok(user.copy_record())
    } else {
        Err(ApiError::AuthorizationFailure(Role::Admin))
    }
}

/// The admin dashboard: the number of accounts and a summary of each, to admins only.
pub fn admin_dashboard(claims: &Claims, registry: &Registry) -> (r: Result<Dashboard, ApiError>)
    ensures
        claims.role != Role::Admin ==> r == Err::<Dashboard, ApiError>(
            ApiError::AuthorizationFailure(Role::Admin),
        ),
        claims.role == Role::Admin ==> (r matches Ok(d) && d.user_count == registry@.users.len()
            && d.users@.len() == registry@.users.len() && forall|i: int|
            0 <= i < d.users@.len() ==> summarizes(#[trigger] d.users@[i], registry@.users[i])),
{
    if claims.role != Role::Admin {
        return Err(ApiError::AuthorizationFailure(Role::Admin));
    }
    let users = registry.list();
    Ok(Dashboard { user_count: registry.len(), users })
}

/// The caller's own profile, to users of the `User` role only.
pub fn user_profile(claims: &Claims, registry: &Registry) -> (r: Result<UserSummary, ApiError>)
    requires
        registry.wf(),
    ensures
        claims.role != Role::User ==> r == Err::<UserSummary, ApiError>(
            ApiError::AuthorizationFailure(Role::User),
        ),
        claims.role == Role::User && !has_email(registry@.users, claims.sub@) ==> r == Err::<
            UserSummary,
            ApiError,
        >(ApiError::NotFound),
        claims.role == Role::User && has_email(registry@.users, claims.sub@) ==> (r matches Ok(s)
            && exists|i: int|
            0 <= i < registry@.users.len() && registry@.users[i].email@ == claims.sub@
                && summarizes(s, registry@.users[i])),
{
    if claims.role != Role::User {
        return Err(ApiError::AuthorizationFailure(Role::User));
    }
    match registry.find_by_email(claims.sub.as_str()) {
        Some(u) => Ok(u.summary()),
        None => Err(ApiError::NotFound),
    }
}

/// Rejects a registration with an empty field.
pub fn validate_registration(req: &RegisterRequest) -> (r: Result<(), ApiError>)
    ensures
        fields_present(*req) <==> r is Ok,
        r is Err ==> r == Err::<(), ApiError>(ApiError::Validation),
{
    if req.first_name.as_str().unicode_len() == 0 || req.last_name.as_str().unicode_len() == 0
        || req.email.as_str().unicode_len() == 0 || req.password.as_str().unicode_len() == 0 {
        Err(ApiError::Validation)
    } else {
        Ok(())
    }
}

/// Adds a registration, with its password already hashed, as a `User` account.
/// The response repeats the names and email under the new identifier and holds no
/// password.
pub fn register_into(registry: &mut Registry, req: RegisterRequest, password_hash: String) -> (r:
    Result<RegisterResponse, ApiError>)
    requires
        old(registry).wf(),
    ensures
        final(registry).wf(),
        insert_outcome(old(registry)@, req.email@) == Err::<i32, InsertError>(
            InsertError::DuplicateEmail,
        ) ==> r == Err::<RegisterResponse, ApiError>(ApiError::DuplicateEmail),
        insert_outcome(old(registry)@, req.email@) == Err::<i32, InsertError>(
            InsertError::IdsExhausted,
        ) ==> r == Err::<RegisterResponse, ApiError>(ApiError::Internal),
        r is Err ==> final(registry)@ == old(registry)@,
        insert_outcome(old(registry)@, req.email@) is Ok ==> (r matches Ok(resp) && resp.id
            == old(registry)@.next_id as u32 && resp.first_name@ == req.first_name@ && resp.last_name@
            == req.last_name@ && resp.email@ == req.email@ && final(registry)@ == added(
            old(registry)@,
            (User {
                id: old(registry)@.next_id,
                email: req.email,
                first_name: req.first_name,
                last_name: req.last_name,
                password: password_hash,
                role: Role::User,
            }),
        )),
{
    let first_name = req.first_name.clone();
    let last_name = req.last_name.clone();
    let email = req.email.clone();
    match registry.insert(req.email, req.first_name, req.last_name, password_hash, Role::User) {
        Ok(id) => Ok(RegisterResponse { id: id as u32, first_name, last_name, email }),
        Err(InsertError::DuplicateEmail) => Err(ApiError::DuplicateEmail),
        Err(InsertError::IdsExhausted) => Err(ApiError::Internal),
    }
}

/// Finishes a login from the account found under the given email. No account and a
/// wrong password give the same failure; otherwise a token for the account's email
/// and role is issued, valid for the configured lifetime from `now`.
pub fn complete_login(found: Option<User>, req: &LoginRequest, config: &Config, now: u64) -> (r:
    Result<LoginResponse, ApiError>)
    ensures
        found is None ==> r == Err::<LoginResponse, ApiError>(ApiError::AuthenticationFailure),
        found is Some && !bcrypt_verifies(req.password@, found->Some_0.password@) ==> r == Err::<
            LoginResponse,
            ApiError,
        >(ApiError::AuthenticationFailure),
        found is Some && bcrypt_verifies(req.password@, found->Some_0.password@) && decimal_of(
            config.jwt_expiration@,
        ) is None ==> r == Err::<LoginResponse, ApiError>(ApiError::Internal),
        found is Some && bcrypt_verifies(req.password@, found->Some_0.password@) && decimal_of(
            config.jwt_expiration@,
        ) is Some ==> (r matches Ok(resp) && resp.token@ == token_text(
            config.jwt_secret@,
            config.jwt_salt@,
            (ClaimsView {
                sub: found->Some_0.email@,
                role: found->Some_0.role,
                exp: expiry_at(now, decimal_of(config.jwt_expiration@)->Some_0),
            }),
        )),
{
    let u = match found {
        Some(u) => u,
        None => {
            return Err(ApiError::AuthenticationFailure);
        },
    };
    if !verify_password(req.password.as_str(), u.password.as_str()) {
        return Err(ApiError::AuthenticationFailure);
    }
    let window = match config.expiration_seconds() {
        Some(w) => w,
        None => {
            return Err(ApiError::Internal);
        },
    };
    let token = issue_token(
        u.email.as_str(),
        u.role,
        now,
        window,
        config.jwt_secret.as_str(),
        config.jwt_salt.as_str(),
    );
    Ok(LoginResponse { token })
}


impl AppState {
    /// Shares the settings and the registry with every request; new passwords are
    /// hashed at the default work factor.
    pub fn new(config: Config, registry: Registry) -> (r: AppState)
        requires
            registry.wf(),
        ensures
            *r.config == config,
            r.hash_cost == HASH_COST,
    {
        Self::with_hash_cost(config, registry, HASH_COST)
    }

    /// As `new`, with the work factor given.
    pub fn with_hash_cost(config: Config, registry: Registry, hash_cost: u32) -> (r: AppState)
        requires
            registry.wf(),
        ensures
            *r.config == config,
            r.hash_cost == hash_cost,
    {
        let lock = RwLock::new(registry, Ghost(RegistryInv));
        AppState { config: Arc::new(config), users: Arc::new(lock), hash_cost }
    }

    /// Registers an account of the `User` role; a work factor outside what bcrypt
    /// takes gives `Internal`. The password is hashed before the
    /// registry is locked; the email check and the insertion happen under one write
    /// lock, so of two registrations of one email at most one succeeds.
    pub fn register(&self, req: RegisterRequest) -> (r: Result<RegisterResponse, ApiError>)
        ensures
            !fields_present(req) ==> r == Err::<RegisterResponse, ApiError>(ApiError::Validation),
            r == Err::<RegisterResponse, ApiError>(ApiError::Validation) ==> !fields_present(req),
            fields_present(req) && (self.hash_cost < MIN_COST || self.hash_cost > MAX_COST) ==> r
                == Err::<RegisterResponse, ApiError>(ApiError::Internal),
            r matches Ok(resp) ==> resp.first_name@ == req.first_name@ && resp.last_name@
                == req.last_name@ && resp.email@ == req.email@ && resp.id >= 1,
            r matches Err(e) ==> e == ApiError::Validation || e == ApiError::DuplicateEmail || e
                == ApiError::Internal,
    {
        if validate_registration(&req).is_err() {
            return Err(ApiError::Validation);
        }
        let hash = match hash_password(req.password.as_str(), self.hash_cost) {
            Some(h) => h,
            None => {
                return Err(ApiError::Internal);
            },
        };
        let (mut registry, handle) = self.users.acquire_write();
        let ghost before = registry@;
        let r = register_into(&mut registry, req, hash);
        handle.release_write(registry);
        proof {
            if r is Ok {
                assert(before.next_id >= 1);
            }
        }
        r
    }

    /// Logs in: the account is looked up under a read lock, and the password is
    /// checked after the lock is released. An unknown email and a wrong password give
    /// the same failure.
    pub fn login(&self, req: &LoginRequest, now: u64) -> (r: Result<LoginResponse, ApiError>)
        ensures
            r matches Ok(resp) ==> exists|role: Role|
                resp.token@ == token_text(
                    self.config.jwt_secret@,
                    self.config.jwt_salt@,
                    (ClaimsView {
                        sub: req.email@,
                        role,
                        exp: expiry_at(now, decimal_of(self.config.jwt_expiration@)->Some_0),
                    }),
                ),
            r matches Err(e) ==> e == ApiError::AuthenticationFailure || e == ApiError::Internal,
    {
        let handle = self.users.acquire_read();
        let found = handle.borrow().find_by_email(req.email.as_str());
        handle.release_read();
        let config: &Config = &self.config;
        let r = complete_login(found, req, config, now);
        proof {
            if r is Ok {
                let u = found->Some_0;
                assert(u.email@ == req.email@);
            }
        }
        r
    }

    /// Authenticates a request by its `Authorization` header value.
    pub fn authenticate(&self, header: Option<&str>, now: u64) -> (r: Result<Claims, ApiError>)
        ensures
            r matches Ok(c) ==> auth_outcome(
                header_view(header),
                self.config.jwt_secret@,
                self.config.jwt_salt@,
                now,
            ) == Ok::<ClaimsView, ApiError>(c@),
            r matches Err(e) ==> auth_outcome(
                header_view(header),
                self.config.jwt_secret@,
                self.config.jwt_salt@,
                now,
            ) == Err::<ClaimsView, ApiError>(e),
    {
        let config: &Config = &self.config;
        authenticate(header, config, now)
    }

    /// The account that verified claims name, read under a read lock.
    pub fn resolve(&self, claims: &Claims) -> (r: Result<User, ApiError>)
        ensures
            r matches Ok(u) ==> u.email@ == claims.sub@,
            r matches Err(e) ==> e == ApiError::AuthenticationFailure,
    {
        let handle = self.users.acquire_read();
        let r = resolve_user(claims, handle.borrow());
        handle.release_read();
        r
    }

    /// The admin dashboard, read under a read lock.
    pub fn dashboard(&self, claims: &Claims) -> (r: Result<Dashboard, ApiError>)
        ensures
            claims.role != Role::Admin ==> r == Err::<Dashboard, ApiError>(
                ApiError::AuthorizationFailure(Role::Admin),
            ),
            claims.role == Role::Admin ==> (r matches Ok(d) && d.user_count == d.users@.len()),
    {
        let handle = self.users.acquire_read();
        let r = admin_dashboard(claims, handle.borrow());
        handle.release_read();
        r
    }

    /// The caller's own profile, read under a read lock.
    pub fn profile(&self, claims: &Claims) -> (r: Result<UserSummary, ApiError>)
        ensures
            claims.role != Role::User ==> r == Err::<UserSummary, ApiError>(
                ApiError::AuthorizationFailure(Role::User),
            ),
            r matches Ok(s) ==> s.email@ == claims.sub@,
            r matches Err(e) ==> e == ApiError::AuthorizationFailure(Role::User) || e == ApiError::NotFound,
    {
        let handle = self.users.acquire_read();
        let r = user_profile(claims, handle.borrow());
        handle.release_read();
        r
    }
}

} // verus!
