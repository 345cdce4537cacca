use vstd::prelude::*;
use hmac::Mac;
use crate::decimal::{
    all_digits, digits_value, fixed_digits, lemma_fixed_digits_shape, lemma_fixed_digits_value,
    lemma_pow10_20, parse_digits, push_fixed_digits, U64_WIDTH,
};
use crate::model::Role;

verus! {

/// Number of hex characters of a signature.
pub const SIG_LEN: usize = 64;

/// Position of the first character after the expiry digits: the role letter.
pub const ROLE_POS: usize = 85;

/// Shortest well-formed token: signature, dot, expiry digits, role letter.
pub const MIN_TOKEN_LEN: usize = 86;

/// What a verified token says: who, with which role, until when.
#[derive(Debug, Clone)]
pub struct Claims {
    pub sub: String,
    pub role: Role,
    pub exp: u64,
}

pub ghost struct ClaimsView {
    pub sub: Seq<char>,
    pub role: Role,
    pub exp: u64,
}

impl View for Claims {
    type V = ClaimsView;

    open spec fn view(&self) -> ClaimsView {
        ClaimsView { sub: self.sub@, role: self.role, exp: self.exp }
    }
}

/// Why a token was rejected.
#[derive(Debug, Clone, Copy, PartialEq, Eq, Structural)]
pub enum TokenError {
    /// Malformed, or the signature does not match.
    Invalid,
    /// Signed correctly, but its expiry has passed.
    Expired,
}

/// HMAC-SHA256 of `msg` under `key`, both taken as their UTF-8 bytes.
pub uninterp spec fn hmac_sha256_of(key: Seq<char>, msg: Seq<char>) -> Seq<u8>;

/// Relies on `hmac::Hmac<sha2::Sha256>`: any key length is accepted, and the tag
/// is the 32-byte SHA-256 output.
#[verifier::external_body]
fn hmac_sha256(key: &str, msg: &str) -> (r: Vec<u8>)
    ensures
        r@ == hmac_sha256_of(key@, msg@),
        r@.len() == 32,
{
    match hmac::Hmac::<sha2::Sha256>::new_from_slice(key.as_bytes()) {
        Ok(mut m) => {
            m.update(msg.as_bytes());
            m.finalize().into_bytes().to_vec()
        },
        Err(_) => Vec::new(),
    }
}

pub open spec fn hex_digit(v: int) -> char {
    if v < 10 {
        (v + '0' as int) as char
    } else {
        (v - 10 + 'a' as int) as char
    }
}

/// Lower-case hex of a byte string, two characters per byte.
pub open spec fn hex_of(b: Seq<u8>) -> Seq<char>
    decreases b.len(),
{
    if b.len() == 0 {
        Seq::empty()
    } else {
        hex_of(b.drop_last()).push(hex_digit(b.last() as int / 16)).push(
            hex_digit(b.last() as int % 16),
        )
    }
}

pub proof fn lemma_hex_len(b: Seq<u8>)
    ensures
        hex_of(b).len() == 2 * b.len(),
    decreases b.len(),
{
    if b.len() > 0 {
        lemma_hex_len(b.drop_last());
    }
}

pub open spec fn role_char(r: Role) -> char {
    match r {
        Role::Admin => 'A',
        Role::User => 'U',
    }
}

pub open spec fn role_of_char(c: char) -> Option<Role> {
    if c == 'A' {
        Some(Role::Admin)
    } else if c == 'U' {
        Some(Role::User)
    } else {
        None
    }
}

/// The signed part of a token: expiry in fixed width, role letter, subject.
pub open spec fn payload_of(c: ClaimsView) -> Seq<char> {
    fixed_digits(c.exp as nat, U64_WIDTH as nat).push(role_char(c.role)) + c.sub
}

/// Hex signature of a payload under the secret, bound to the salt.
pub open spec fn signature_of(secret: Seq<char>, salt: Seq<char>, payload: Seq<char>) -> Seq<char> {
    hex_of(hmac_sha256_of(secret, salt.push('.') + payload))
}

/// The token issued for `c`: signature, a dot, payload.
pub open spec fn token_text(secret: Seq<char>, salt: Seq<char>, c: ClaimsView) -> Seq<char> {
    signature_of(secret, salt, payload_of(c)).push('.') + payload_of(c)
}

pub open spec fn expiry_digits(t: Seq<char>) -> Seq<char> {
    t.subrange(SIG_LEN as int + 1, ROLE_POS as int)
}

/// Shape of a token: long enough, a dot after the signature, twenty digits that fit
/// in a `u64`, a role letter.
pub open spec fn well_formed(t: Seq<char>) -> bool {
    &&& t.len() >= MIN_TOKEN_LEN
    &&& t[SIG_LEN as int] == '.'
    &&& all_digits(expiry_digits(t))
    &&& digits_value(expiry_digits(t)) <= u64::MAX
    &&& role_of_char(t[ROLE_POS as int]) is Some
}

/// Outcome of checking token text `t` at time `now`: shape and signature first,
/// then expiry.
pub open spec fn check_token(t: Seq<char>, secret: Seq<char>, salt: Seq<char>, now: u64) -> Result<
    ClaimsView,
    TokenError,
> {
    if !well_formed(t) {
        Err(TokenError::Invalid)
    } else if t.subrange(0, SIG_LEN as int) != signature_of(
        secret,
        salt,
        t.subrange(SIG_LEN as int + 1, t.len() as int),
    ) {
        Err(TokenError::Invalid)
    } else if digits_value(expiry_digits(t)) <= now {
        Err(TokenError::Expired)
    } else {
        Ok(
            ClaimsView {
                sub: t.subrange(MIN_TOKEN_LEN as int, t.len() as int),
                role: role_of_char(t[ROLE_POS as int])->Some_0,
                exp: digits_value(expiry_digits(t)) as u64,
            },
        )
    }
}

/// Expiry of a token issued at `now` for `window` seconds, capped at the largest time.
pub open spec fn expiry_at(now: u64, window: u64) -> u64 {
    if now + window > u64::MAX {
        u64::MAX
    } else {
        (now + window) as u64
    }
}

proof fn lemma_token_parts(secret: Seq<char>, salt: Seq<char>, c: ClaimsView)
    requires
        hmac_sha256_of(secret, salt.push('.') + payload_of(c)).len() == 32,
    ensures
        well_formed(token_text(secret, salt, c)),
        ({
            let t = token_text(secret, salt, c);
            &&& t.subrange(0, SIG_LEN as int) == signature_of(secret, salt, payload_of(c))
            &&& t.subrange(SIG_LEN as int + 1, t.len() as int) == payload_of(c)
            &&& digits_value(expiry_digits(t)) == c.exp
            &&& role_of_char(t[ROLE_POS as int]) == Some(c.role)
            &&& t.subrange(MIN_TOKEN_LEN as int, t.len() as int) == c.sub
        }),
{
    let sig = signature_of(secret, salt, payload_of(c));
    lemma_hex_len(hmac_sha256_of(secret, salt.push('.') + payload_of(c)));
    let d = fixed_digits(c.exp as nat, U64_WIDTH as nat);
    lemma_fixed_digits_shape(c.exp as nat, U64_WIDTH as nat);
    lemma_pow10_20();
    lemma_fixed_digits_value(c.exp as nat, U64_WIDTH as nat);
    let p = payload_of(c);
    let t = token_text(secret, salt, c);
    assert(t.subrange(0, SIG_LEN as int) =~= sig);
    assert(t.subrange(SIG_LEN as int + 1, t.len() as int) =~= p);
    assert(expiry_digits(t) =~= d);
    assert(t[ROLE_POS as int] == role_char(c.role));
    assert(t.subrange(MIN_TOKEN_LEN as int, t.len() as int) =~= c.sub);
}


/// Checking the token issued for `c` at time `now` gives back `c` before its
/// expiry, and `Expired` from then on, for a tag of the SHA-256 length.
pub proof fn lemma_check_issued(secret: Seq<char>, salt: Seq<char>, c: ClaimsView, now: u64)
    requires
        hmac_sha256_of(secret, salt.push('.') + payload_of(c)).len() == 32,
    ensures
        now < c.exp ==> check_token(token_text(secret, salt, c), secret, salt, now) == Ok::<
            ClaimsView,
            TokenError,
        >(c),
        c.exp <= now ==> check_token(token_text(secret, salt, c), secret, salt, now) == Err::<
            ClaimsView,
            TokenError,
        >(TokenError::Expired),
{
    lemma_token_parts(secret, salt, c);
}

/// Lower-case hex of `b`.
fn hex_encode(b: &Vec<u8>) -> (r: String)
    ensures
        r@ == hex_of(b@),
{
    let mut out = String::new();
    let mut i: usize = 0;
    while i < b.len()
        invariant
            i <= b@.len(),
            out@ == hex_of(b@.subrange(0, i as int)),
        decreases b@.len() - i,
    {
        let v = b[i];
        let hi = v / 16;
        let lo = v % 16;
        let ch = if hi < 10 { (48u8 + hi) as char } else { (87u8 + hi) as char };
        let cl = if lo < 10 { (48u8 + lo) as char } else { (87u8 + lo) as char };
        out.push(ch);
        out.push(cl);
        proof {
            let s = b@.subrange(0, i + 1);
            assert(s.drop_last() =~= b@.subrange(0, i as int));
            assert(s.last() == v);
        }
        i = i + 1;
    }
    assert(b@.subrange(0, i as int) =~= b@);
    out
}

/// The signed payload of a token.
fn payload(sub: &str, role: Role, exp: u64) -> (r: String)
    ensures
        r@ == payload_of(ClaimsView { sub: sub@, role, exp }),
{
    let mut p = String::new();
    push_fixed_digits(&mut p, exp, U64_WIDTH);
    let c = match role {
        Role::Admin => 'A',
        Role::User => 'U',
    };
    p.push(c);
    p.append(sub);
    assert(p@ =~= Seq::<char>::empty() + fixed_digits(exp as nat, U64_WIDTH as nat).push(c) + sub@);
    p
}

/// Hex HMAC-SHA256 of the salted payload under the secret.
fn sign(secret: &str, salt: &str, payload: &str) -> (r: (String, Ghost<Seq<u8>>))
    ensures
        r.0@ == signature_of(secret@, salt@, payload@),
        r.1@ == hmac_sha256_of(secret@, salt@.push('.') + payload@),
        r.1@.len() == 32,
{
    let mut msg = salt.to_owned();
    proof {
        reveal_strlit(".");
    }
    msg.append(".");
    msg.append(payload);
    assert(msg@ =~= salt@.push('.') + payload@);
    let tag = hmac_sha256(secret, msg.as_str());
    (hex_encode(&tag), Ghost(tag@))
}

/// Issues a token for `sub` with `role`, valid from `now` for `window` seconds (the
/// expiry is capped at the largest time). Checking it before its expiry gives back
/// the same subject and role; from its expiry on, it is `Expired`.
pub fn issue_token(sub: &str, role: Role, now: u64, window: u64, secret: &str, salt: &str) -> (r:
    String)
    ensures
        r@ == token_text(secret@, salt@, ClaimsView { sub: sub@, role, exp: expiry_at(now, window) }),
        now + window <= u64::MAX ==> expiry_at(now, window) == now + window,
        forall|t: u64|
            t < expiry_at(now, window) ==> #[trigger] check_token(r@, secret@, salt@, t) == Ok::<
                ClaimsView,
                TokenError,
            >(ClaimsView { sub: sub@, role, exp: expiry_at(now, window) }),
        forall|t: u64|
            expiry_at(now, window) <= t ==> #[trigger] check_token(r@, secret@, salt@, t) == Err::<
                ClaimsView,
                TokenError,
            >(TokenError::Expired),
{
    let exp: u64 = if now > u64::MAX - window {
        u64::MAX
    } else {
        now + window
    };
    let ghost c = ClaimsView { sub: sub@, role, exp };
    let p = payload(sub, role, exp);
    let (sig, Ghost(tag)) = sign(secret, salt, p.as_str());
    let mut token = sig;
    token.push('.');
    token.append(p.as_str());
    assert(token@ =~= token_text(secret@, salt@, c));
    assert forall|t: u64| true implies {
        &&& t < exp ==> check_token(token@, secret@, salt@, t) == Ok::<ClaimsView, TokenError>(c)
        &&& exp <= t ==> check_token(token@, secret@, salt@, t) == Err::<ClaimsView, TokenError>(
            TokenError::Expired,
        )
    } by {
        lemma_check_issued(secret@, salt@, c, t);
    }
    token
}

/// Checks a token at time `now`: shape and signature first, then expiry.
pub fn verify_token(token: &str, now: u64, secret: &str, salt: &str) -> (r: Result<Claims, TokenError>)
    ensures
        r matches Ok(c) ==> check_token(token@, secret@, salt@, now) == Ok::<ClaimsView, TokenError>(
            c@,
        ),
        r matches Err(e) ==> check_token(token@, secret@, salt@, now) == Err::<ClaimsView, TokenError>(
            e,
        ),
{
    let n = token.unicode_len();
    if n < MIN_TOKEN_LEN {
        return Err(TokenError::Invalid);
    }
    if token.get_char(SIG_LEN) != '.' {
        return Err(TokenError::Invalid);
    }
    let exp = match parse_digits(token, SIG_LEN + 1, ROLE_POS) {
        Some(v) => v,
        None => {
            return Err(TokenError::Invalid);
        },
    };
    let rc = token.get_char(ROLE_POS);
    let role = if rc == 'A' {
        Role::Admin
    } else if rc == 'U' {
        Role::User
    } else {
        return Err(TokenError::Invalid);
    };
    let payload = token.substring_char(SIG_LEN + 1, n);
    let (expected, _) = sign(secret, salt, payload);
    let presented = token.substring_char(0, SIG_LEN).to_owned();
    if presented != expected {
        return Err(TokenError::Invalid);
    }
    if exp <= now {
        return Err(TokenError::Expired);
    }
    let sub = token.substring_char(MIN_TOKEN_LEN, n).to_owned();
    Ok(Claims { sub, role, exp })
}

} // verus!
