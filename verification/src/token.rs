//! Ephemeral single-use tokens for email verification and password reset.
//!
//! Per user and purpose at most one token is live.  Issuing hashes a fresh
//! cleartext value and stores only the hash with its creation and expiry
//! instants; a new request inside the five-minute cooldown window is
//! refused, outside it the old token is superseded.  Verification finds
//! the stored token, rejects it when expired or when the candidate does
//! not match the hash, and on success the caller consumes (deletes) it, so
//! it can never be used twice.

use vstd::prelude::*;

use crate::error::{AppError, BadRequestError, CryptoError, HashingError};
use crate::hashing::{argon2_digest_wf, argon2_matches, hash_secret, verify_secret};

verus! {

/// Seconds from issuance to expiry: 30 minutes.
pub const TOKEN_TTL_SECONDS: i64 = 1800;

/// Seconds that must pass before a token for the same user and purpose
/// can be issued again: 5 minutes.
pub const TOKEN_COOLDOWN_SECONDS: i64 = 300;

/// The purpose a token is bound to.
#[derive(Clone, Copy, Debug, PartialEq, Eq, Structural)]
pub enum TokenType {
    /// Confirms ownership of a registered email address.
    EmailVerification,
    /// Authorizes a password reset.
    ForgotPassword,
}

impl TokenType {
    /// A stable label for the purpose.
    pub fn as_str(&self) -> (r: &'static str)
        ensures
            self == TokenType::EmailVerification ==> r@ == "EmailVerification"@,
            self == TokenType::ForgotPassword ==> r@ == "ForgotPassword"@,
    {
        match self {
            TokenType::EmailVerification => "EmailVerification",
            TokenType::ForgotPassword => "ForgotPassword",
        }
    }
}

/// The cleartext side of a token, before hashing: what is embedded in the
/// outbound link and never persisted.
pub struct TokenInfo {
    /// The owning user.
    pub user_id: u64,
    /// The cleartext token value, exposed exactly once.
    pub token: String,
    /// The purpose the token is bound to.
    pub token_type: TokenType,
}

/// A stored token: only the hash of the cleartext value is kept.
pub struct TokenCollection {
    /// The record id.
    pub id: u64,
    /// The purpose the token is bound to.
    pub token_type: TokenType,
    /// The Argon2 digest of the cleartext value.
    pub hashed_token: String,
    /// The owning user.
    pub user_id: u64,
    /// The issuance instant, as a Unix timestamp.
    pub created_at: i64,
    /// The expiry instant: issuance plus 30 minutes.
    pub expires_at: i64,
}

/// The mathematical image of a stored token.
pub struct TokenModel {
    /// The record id.
    pub id: u64,
    /// The purpose the token is bound to.
    pub token_type: TokenType,
    /// The digest of the cleartext value.
    pub hashed_token: Seq<char>,
    /// The owning user.
    pub user_id: u64,
    /// The issuance instant.
    pub created_at: i64,
    /// The expiry instant.
    pub expires_at: i64,
}

impl View for TokenCollection {
    type V = TokenModel;

    open spec fn view(&self) -> TokenModel {
        TokenModel {
            id: self.id,
            token_type: self.token_type,
            hashed_token: self.hashed_token@,
            user_id: self.user_id,
            created_at: self.created_at,
            expires_at: self.expires_at,
        }
    }
}

/// Whether a token belongs to the given user and purpose.
pub open spec fn token_matches(tok: TokenModel, user_id: u64, token_type: TokenType) -> bool {
    tok.user_id == user_id && tok.token_type == token_type
}

/// Whether some token for the user and purpose is live.
pub open spec fn has_token_for(
    tokens: Seq<TokenModel>,
    user_id: u64,
    token_type: TokenType,
) -> bool {
    exists|i: int| 0 <= i < tokens.len() && #[trigger] token_matches(tokens[i], user_id, token_type)
}

/// The live token for the user and purpose; meaningful when exactly one
/// exists.
pub open spec fn token_for(
    tokens: Seq<TokenModel>,
    user_id: u64,
    token_type: TokenType,
) -> TokenModel {
    tokens[choose|i: int|
        0 <= i < tokens.len() && #[trigger] token_matches(tokens[i], user_id, token_type)]
}

/// At most one token per user and purpose.
pub open spec fn tokens_unique(tokens: Seq<TokenModel>) -> bool {
    forall|i: int, j: int|
        0 <= i < tokens.len() && 0 <= j < tokens.len() && i != j ==> !(
        #[trigger] tokens[i].user_id == #[trigger] tokens[j].user_id && tokens[i].token_type
            == tokens[j].token_type)
}

/// A stored token is internally consistent: a well-formed digest and an
/// expiry exactly 30 minutes after issuance.
pub open spec fn token_wf(tok: TokenModel) -> bool {
    argon2_digest_wf(tok.hashed_token) && tok.expires_at == tok.created_at + TOKEN_TTL_SECONDS
}

/// Every stored token is internally consistent.
pub open spec fn tokens_wf(tokens: Seq<TokenModel>) -> bool {
    forall|i: int| 0 <= i < tokens.len() ==> token_wf(#[trigger] tokens[i])
}

/// Whether issuing for the user and purpose at `now` is inside the
/// cooldown window of the live token.
pub open spec fn issue_blocked(
    tokens: Seq<TokenModel>,
    user_id: u64,
    token_type: TokenType,
    now: i64,
) -> bool {
    has_token_for(tokens, user_id, token_type) && now < token_for(
        tokens,
        user_id,
        token_type,
    ).created_at + TOKEN_COOLDOWN_SECONDS
}

/// The outcome of checking a candidate cleartext against the stored
/// tokens: absent, expired, and mismatching tokens are rejected in that
/// order, and nothing is consumed.
pub open spec fn spec_check_token(
    tokens: Seq<TokenModel>,
    user_id: u64,
    token_type: TokenType,
    candidate: Seq<char>,
    now: i64,
) -> Result<(), BadRequestError> {
    if !has_token_for(tokens, user_id, token_type) {
        Err(BadRequestError::NoSuchToken)
    } else if token_for(tokens, user_id, token_type).expires_at < now {
        Err(BadRequestError::TokenExpired)
    } else if !argon2_matches(token_for(tokens, user_id, token_type).hashed_token, candidate) {
        Err(BadRequestError::InvalidToken)
    } else {
        Ok(())
    }
}

/// The store of live tokens, with at most one per user and purpose.
pub struct TokenStore {
    tokens: Vec<TokenCollection>,
    next_id: u64,
}

/// The token images of a sequence of stored tokens.
pub open spec fn token_views(tokens: Seq<TokenCollection>) -> Seq<TokenModel> {
    Seq::new(tokens.len(), |i: int| tokens[i]@)
}

impl View for TokenStore {
    type V = Seq<TokenModel>;

    closed spec fn view(&self) -> Seq<TokenModel> {
        token_views(self.tokens@)
    }
}

impl TokenStore {
    /// The store's invariant: unique user-purpose pairs and well-formed
    /// records.
    pub open spec fn wf(&self) -> bool {
        tokens_unique(self@) && tokens_wf(self@)
    }

    /// An empty store.
    pub fn new() -> (r: TokenStore)
        ensures
            r.wf(),
            r@.len() == 0,
    {
        let r = TokenStore { tokens: Vec::new(), next_id: 0 };
        proof {
            assert(r@ =~= Seq::<TokenModel>::empty());
        }
        r
    }

    /// How many tokens are live.
    pub fn len(&self) -> (r: usize)
        ensures
            r == self@.len(),
    {
        self.tokens.len()
    }

    fn find_index(&self, user_id: u64, token_type: TokenType) -> (r: Option<usize>)
        ensures
            match r {
                Some(i) => i < self@.len() && token_matches(self@[i as int], user_id, token_type),
                None => !has_token_for(self@, user_id, token_type),
            },
    {
        let n = self.tokens.len();
        let mut k: usize = 0;
        while k < n
            invariant
                n == self@.len(),
                k <= n,
                forall|j: int| 0 <= j < k ==> !token_matches(self@[j], user_id, token_type),
            decreases n - k,
        {
            let tok = &self.tokens[k];
            if tok.user_id == user_id && tok.token_type == token_type {
                return Some(k);
            }
            k += 1;
        }
        None
    }

    /// Issues a token for the user and purpose: refused with
    /// `CooldownActive` inside the five-minute window of the live token;
    /// otherwise the old token is superseded and a record with the hash of
    /// the cleartext, created at `now` and expiring 30 minutes later, is
    /// stored.
    pub fn issue_token(&mut self, info: &TokenInfo, now: i64) -> (r: Result<(), AppError>)
        requires
            old(self).wf(),
            now + TOKEN_TTL_SECONDS <= i64::MAX,
        ensures
            final(self).wf(),
            r == Err::<(), AppError>(AppError::BadRequest(BadRequestError::CooldownActive))
                <==> issue_blocked(old(self)@, info.user_id, info.token_type, now),
            r matches Err(e) ==> final(self)@ == old(self)@ && (e == AppError::BadRequest(
                BadRequestError::CooldownActive,
            ) || e == AppError::Hashing(HashingError::HashFailure)),
            r is Ok ==> {
                &&& has_token_for(final(self)@, info.user_id, info.token_type)
                &&& ({
                    let tok = token_for(final(self)@, info.user_id, info.token_type);
                    &&& tok.created_at == now
                    &&& tok.expires_at == now + TOKEN_TTL_SECONDS
                    &&& argon2_matches(tok.hashed_token, info.token@)
                })
            },
            forall|u: u64, t: TokenType|
                !(u == info.user_id && t == info.token_type) ==> (#[trigger] has_token_for(
                    final(self)@,
                    u,
                    t,
                ) <==> has_token_for(old(self)@, u, t)),
            forall|u: u64, t: TokenType|
                !(u == info.user_id && t == info.token_type) && has_token_for(old(self)@, u, t)
                    ==> #[trigger] token_for(final(self)@, u, t) == token_for(old(self)@, u, t),
    {
        let idx = self.find_index(info.user_id, info.token_type);
        if let Some(i) = idx {
            let ghost pre = self@;
            proof {
                lemma_token_for_unique(pre, info.user_id, info.token_type, i as int);
                assert(pre[i as int] == self.tokens@[i as int]@);
                assert(token_wf(pre[i as int]));
            }
            let created_at = self.tokens[i].created_at;
            if now < created_at + TOKEN_COOLDOWN_SECONDS {
                return Err(AppError::BadRequest(BadRequestError::CooldownActive));
            }
            let hashed = match hash_secret(info.token.as_str()) {
                Ok(h) => h,
                Err(e) => { return Err(e); },
            };
            self.tokens.remove(i);
            proof {
                lemma_token_views_remove(old(self).tokens@, i as int);
                lemma_remove_pair_effects(pre, i as int);
            }
            self.push_fresh(info, hashed, now);
            Ok(())
        } else {
            let hashed = match hash_secret(info.token.as_str()) {
                Ok(h) => h,
                Err(e) => { return Err(e); },
            };
            self.push_fresh(info, hashed, now);
            Ok(())
        }
    }

    fn push_fresh(&mut self, info: &TokenInfo, hashed: String, now: i64)
        requires
            old(self).wf(),
            !has_token_for(old(self)@, info.user_id, info.token_type),
            argon2_digest_wf(hashed@),
            argon2_matches(hashed@, info.token@),
            now + TOKEN_TTL_SECONDS <= i64::MAX,
        ensures
            final(self).wf(),
            has_token_for(final(self)@, info.user_id, info.token_type),
            ({
                let tok = token_for(final(self)@, info.user_id, info.token_type);
                &&& tok.created_at == now
                &&& tok.expires_at == now + TOKEN_TTL_SECONDS
                &&& argon2_matches(tok.hashed_token, info.token@)
            }),
            forall|u: u64, t: TokenType|
                !(u == info.user_id && t == info.token_type) ==> (#[trigger] has_token_for(
                    final(self)@,
                    u,
                    t,
                ) <==> has_token_for(old(self)@, u, t)),
            forall|u: u64, t: TokenType|
                !(u == info.user_id && t == info.token_type) && has_token_for(old(self)@, u, t)
                    ==> #[trigger] token_for(final(self)@, u, t) == token_for(old(self)@, u, t),
    {
        let tok = TokenCollection {
            id: self.next_id,
            token_type: info.token_type,
            hashed_token: hashed,
            user_id: info.user_id,
            created_at: now,
            expires_at: now + TOKEN_TTL_SECONDS,
        };
        if self.next_id < u64::MAX {
            self.next_id = self.next_id + 1;
        }
        let ghost pre = self@;
        let ghost tokv = tok@;
        self.tokens.push(tok);
        proof {
            assert(self@ =~= pre.push(tokv));
            lemma_push_pair_effects(pre, tokv);
            lemma_token_for_unique(self@, info.user_id, info.token_type, pre.len() as int);
        }
    }

    /// Whether issuing for the user and purpose at `now` would fall inside
    /// the cooldown window of the live token.
    pub fn cooldown_active(&self, user_id: u64, token_type: TokenType, now: i64) -> (r: bool)
        requires
            self.wf(),
        ensures
            r == issue_blocked(self@, user_id, token_type, now),
    {
        match self.find_index(user_id, token_type) {
            Some(i) => {
                proof {
                    lemma_token_for_unique(self@, user_id, token_type, i as int);
                    assert(self@[i as int] == self.tokens@[i as int]@);
                    assert(token_wf(self@[i as int]));
                }
                now < self.tokens[i].created_at + TOKEN_COOLDOWN_SECONDS
            },
            None => false,
        }
    }

    /// The live token for the user and purpose, if any; its digest is
    /// well-formed by the store invariant.
    pub fn get_token(&self, user_id: u64, token_type: TokenType) -> (r: Option<&TokenCollection>)
        requires
            self.wf(),
        ensures
            match r {
                Some(t) => has_token_for(self@, user_id, token_type) && t@ == token_for(
                    self@,
                    user_id,
                    token_type,
                ) && argon2_digest_wf(t@.hashed_token),
                None => !has_token_for(self@, user_id, token_type),
            },
    {
        match self.find_index(user_id, token_type) {
            Some(i) => {
                proof {
                    lemma_token_for_unique(self@, user_id, token_type, i as int);
                    assert(self@[i as int] == self.tokens@[i as int]@);
                    assert(token_wf(self@[i as int]));
                }
                Some(&self.tokens[i])
            },
            None => None,
        }
    }

    /// Checks a candidate cleartext against the live token for the user
    /// and purpose, without consuming anything: absent tokens, expired
    /// tokens, and mismatches are rejected in that order.
    pub fn check_token(
        &self,
        user_id: u64,
        token_type: TokenType,
        candidate: &str,
        now: i64,
    ) -> (r: Result<(), AppError>)
        requires
            self.wf(),
        ensures
            match spec_check_token(self@, user_id, token_type, candidate@, now) {
                Ok(()) => r == Ok::<(), AppError>(()),
                Err(b) => r == Err::<(), AppError>(AppError::BadRequest(b)),
            },
    {
        let idx = match self.find_index(user_id, token_type) {
            Some(i) => i,
            None => { return Err(AppError::BadRequest(BadRequestError::NoSuchToken)); },
        };
        proof {
            lemma_token_for_unique(self@, user_id, token_type, idx as int);
            assert(self@[idx as int] == self.tokens@[idx as int]@);
            assert(token_wf(self@[idx as int]));
        }
        let tok = &self.tokens[idx];
        if tok.expires_at < now {
            return Err(AppError::BadRequest(BadRequestError::TokenExpired));
        }
        let matches = match verify_secret(tok.hashed_token.as_str(), candidate) {
            Ok(b) => b,
            Err(e) => { return Err(e); },
        };
        if !matches {
            return Err(AppError::BadRequest(BadRequestError::InvalidToken));
        }
        Ok(())
    }

    /// Consumes (deletes) the live token for the user and purpose; absent
    /// tokens are reported as `NoSuchToken` and nothing changes.
    pub fn consume_token(&mut self, user_id: u64, token_type: TokenType) -> (r: Result<
        (),
        AppError,
    >)
        requires
            old(self).wf(),
        ensures
            final(self).wf(),
            r is Ok <==> has_token_for(old(self)@, user_id, token_type),
            !has_token_for(final(self)@, user_id, token_type),
            r is Err ==> final(self)@ == old(self)@ && r == Err::<(), AppError>(
                AppError::BadRequest(BadRequestError::NoSuchToken),
            ),
            forall|u: u64, t: TokenType|
                !(u == user_id && t == token_type) ==> (#[trigger] has_token_for(
                    final(self)@,
                    u,
                    t,
                ) <==> has_token_for(old(self)@, u, t)),
            forall|u: u64, t: TokenType|
                !(u == user_id && t == token_type) && has_token_for(old(self)@, u, t)
                    ==> #[trigger] token_for(final(self)@, u, t) == token_for(old(self)@, u, t),
    {
        let idx = match self.find_index(user_id, token_type) {
            Some(i) => i,
            None => { return Err(AppError::BadRequest(BadRequestError::NoSuchToken)); },
        };
        let ghost pre = self@;
        self.tokens.remove(idx);
        proof {
            lemma_token_views_remove(old(self).tokens@, idx as int);
            lemma_remove_pair_effects(pre, idx as int);
        }
        Ok(())
    }
}

/// The hyphenated form of the UUID built from 16 random bytes, with the
/// version and variant bits set.
pub uninterp spec fn uuid_of(bytes: Seq<u8>) -> Seq<char>;

/// Relies on `uuid::Builder::from_random_bytes` and the `Display` form of
/// `Uuid`: a function of the 16 input bytes alone, 36 characters long.
#[verifier::external_body]
fn uuid_format(bytes: &[u8]) -> (r: String)
    requires
        bytes@.len() == 16,
    ensures
        r@ == uuid_of(bytes@),
        r@.len() == 36,
{
    let arr: [u8; 16] = bytes.try_into().expect("length checked by the caller");
    uuid::Builder::from_random_bytes(arr).into_uuid().to_string()
}

/// A fresh random opaque token value in UUID form; fails only when the
/// randomness source fails.
pub fn new_token_value() -> (r: Result<String, AppError>)
    ensures
        r matches Ok(t) ==> t@.len() == 36,
        r matches Err(e) ==> e == AppError::Crypto(CryptoError::RandomSource),
{
    let bytes = match crate::cipher::os_random_bytes(16) {
        Ok(b) => b,
        Err(_) => { return Err(AppError::Crypto(CryptoError::RandomSource)); },
    };
    Ok(uuid_format(bytes.as_slice()))
}

/// Under uniqueness, any index whose token matches the user and purpose
/// holds exactly the token `token_for` denotes.
pub proof fn lemma_token_for_unique(
    tokens: Seq<TokenModel>,
    user_id: u64,
    token_type: TokenType,
    i: int,
)
    requires
        tokens_unique(tokens),
        0 <= i < tokens.len(),
        token_matches(tokens[i], user_id, token_type),
    ensures
        has_token_for(tokens, user_id, token_type),
        token_for(tokens, user_id, token_type) == tokens[i],
{
    assert(has_token_for(tokens, user_id, token_type));
    let j = choose|j: int|
        0 <= j < tokens.len() && #[trigger] token_matches(tokens[j], user_id, token_type);
    if i != j {
        assert(!(tokens[i].user_id == tokens[j].user_id && tokens[i].token_type
            == tokens[j].token_type));
    }
}

proof fn lemma_token_views_remove(tokens: Seq<TokenCollection>, i: int)
    requires
        0 <= i < tokens.len(),
    ensures
        token_views(tokens.remove(i)) =~= token_views(tokens).remove(i),
{
    tokens.remove_ensures(i);
    token_views(tokens).remove_ensures(i);
}

proof fn lemma_remove_pair_effects(tokens: Seq<TokenModel>, i: int)
    requires
        tokens_unique(tokens),
        tokens_wf(tokens),
        0 <= i < tokens.len(),
    ensures
        tokens_unique(tokens.remove(i)),
        tokens_wf(tokens.remove(i)),
        !has_token_for(tokens.remove(i), tokens[i].user_id, tokens[i].token_type),
        forall|u: u64, t: TokenType|
            !(u == tokens[i].user_id && t == tokens[i].token_type) ==> (#[trigger] has_token_for(
                tokens.remove(i),
                u,
                t,
            ) <==> has_token_for(tokens, u, t)),
        forall|u: u64, t: TokenType|
            !(u == tokens[i].user_id && t == tokens[i].token_type) && has_token_for(tokens, u, t)
                ==> #[trigger] token_for(tokens.remove(i), u, t) == token_for(tokens, u, t),
{
    let rem = tokens.remove(i);
    tokens.remove_ensures(i);
    assert forall|u: u64, t: TokenType|
        !(u == tokens[i].user_id && t == tokens[i].token_type) && has_token_for(
            tokens,
            u,
            t,
        ) implies #[trigger] has_token_for(rem, u, t) by {
        let j = choose|j: int|
            0 <= j < tokens.len() && #[trigger] token_matches(tokens[j], u, t);
        if j < i {
            assert(token_matches(rem[j], u, t));
        } else {
            assert(j != i);
            assert(token_matches(rem[j - 1], u, t));
        }
    }
    assert forall|u: u64, t: TokenType| has_token_for(rem, u, t) implies has_token_for(
        tokens,
        u,
        t,
    ) by {
        let j = choose|j: int| 0 <= j < rem.len() && #[trigger] token_matches(rem[j], u, t);
        if j < i {
            assert(token_matches(tokens[j], u, t));
        } else {
            assert(token_matches(tokens[j + 1], u, t));
        }
    }
    assert forall|j: int| 0 <= j < rem.len() implies !token_matches(
        rem[j],
        tokens[i].user_id,
        tokens[i].token_type,
    ) by {
        let k: int = if j < i {
            j
        } else {
            j + 1
        };
        assert(rem[j] == tokens[k]);
        assert(k != i);
    }
    assert forall|u: u64, t: TokenType|
        !(u == tokens[i].user_id && t == tokens[i].token_type) && has_token_for(
            tokens,
            u,
            t,
        ) implies #[trigger] token_for(rem, u, t) == token_for(tokens, u, t) by {
        assert(has_token_for(rem, u, t));
        let j = choose|j: int| 0 <= j < rem.len() && #[trigger] token_matches(rem[j], u, t);
        let k: int = if j < i {
            j
        } else {
            j + 1
        };
        assert(rem[j] == tokens[k]);
        lemma_token_for_unique(tokens, u, t, k);
        assert(tokens_unique(rem));
        lemma_token_for_unique(rem, u, t, j);
    }
}

proof fn lemma_push_pair_effects(tokens: Seq<TokenModel>, tok: TokenModel)
    requires
        tokens_unique(tokens),
        tokens_wf(tokens),
        !has_token_for(tokens, tok.user_id, tok.token_type),
        argon2_digest_wf(tok.hashed_token),
        tok.expires_at == tok.created_at + TOKEN_TTL_SECONDS,
    ensures
        tokens_unique(tokens.push(tok)),
        tokens_wf(tokens.push(tok)),
        forall|u: u64, t: TokenType|
            !(u == tok.user_id && t == tok.token_type) ==> (#[trigger] has_token_for(
                tokens.push(tok),
                u,
                t,
            ) <==> has_token_for(tokens, u, t)),
        forall|u: u64, t: TokenType|
            !(u == tok.user_id && t == tok.token_type) && has_token_for(tokens, u, t)
                ==> #[trigger] token_for(tokens.push(tok), u, t) == token_for(tokens, u, t),
{
    let pushed = tokens.push(tok);
    assert(pushed.len() == tokens.len() + 1);
    assert(pushed[tokens.len() as int] == tok);
    assert forall|j: int| 0 <= j < tokens.len() implies #[trigger] pushed[j] == tokens[j] by {}
    assert forall|i: int, j: int|
        0 <= i < pushed.len() && 0 <= j < pushed.len() && i != j implies !(
    #[trigger] pushed[i].user_id == #[trigger] pushed[j].user_id && pushed[i].token_type
        == pushed[j].token_type) by {
        if i < tokens.len() && j < tokens.len() {
        } else if i == tokens.len() {
            if pushed[i].user_id == pushed[j].user_id && pushed[i].token_type
                == pushed[j].token_type {
                assert(token_matches(tokens[j], tok.user_id, tok.token_type));
            }
        } else {
            if pushed[i].user_id == pushed[j].user_id && pushed[i].token_type
                == pushed[j].token_type {
                assert(token_matches(tokens[i], tok.user_id, tok.token_type));
            }
        }
    }
    assert forall|u: u64, t: TokenType|
        !(u == tok.user_id && t == tok.token_type) && has_token_for(
            tokens,
            u,
            t,
        ) implies #[trigger] has_token_for(pushed, u, t) by {
        let j = choose|j: int| 0 <= j < tokens.len() && #[trigger] token_matches(tokens[j], u, t);
        assert(token_matches(pushed[j], u, t));
    }
    assert forall|u: u64, t: TokenType|
        !(u == tok.user_id && t == tok.token_type) && has_token_for(
            pushed,
            u,
            t,
        ) implies has_token_for(tokens, u, t) by {
        let j = choose|j: int| 0 <= j < pushed.len() && #[trigger] token_matches(pushed[j], u, t);
        assert(j != tokens.len());
        assert(token_matches(tokens[j], u, t));
    }
    assert forall|u: u64, t: TokenType|
        !(u == tok.user_id && t == tok.token_type) && has_token_for(
            tokens,
            u,
            t,
        ) implies #[trigger] token_for(pushed, u, t) == token_for(tokens, u, t) by {
        let j = choose|j: int| 0 <= j < tokens.len() && #[trigger] token_matches(tokens[j], u, t);
        lemma_token_for_unique(tokens, u, t, j);
        assert(token_matches(pushed[j], u, t));
        lemma_token_for_unique(pushed, u, t, j);
    }
}

/// Law (cooldown): while a live token for a user and purpose was created
/// less than five minutes before `now`, issuing again for that pair is
/// blocked, which `issue_token` reports as `CooldownActive`.
pub proof fn lemma_cooldown_blocks_reissue(
    tokens: Seq<TokenModel>,
    user_id: u64,
    token_type: TokenType,
    now: i64,
)
    requires
        has_token_for(tokens, user_id, token_type),
        now < token_for(tokens, user_id, token_type).created_at + TOKEN_COOLDOWN_SECONDS,
    ensures
        issue_blocked(tokens, user_id, token_type, now),
{
}

/// Law (single use): once the token for a user and purpose has been
/// consumed, any further check for that pair fails with `NoSuchToken`,
/// whatever candidate value and instant are supplied.
pub proof fn lemma_token_single_use(
    tokens: Seq<TokenModel>,
    user_id: u64,
    token_type: TokenType,
    candidate: Seq<char>,
    now: i64,
)
    requires
        !has_token_for(tokens, user_id, token_type),
    ensures
        spec_check_token(tokens, user_id, token_type, candidate, now) == Err::<
            (),
            BadRequestError,
        >(BadRequestError::NoSuchToken),
{
}

/// Law (expiry): a token whose expiry instant has passed always fails
/// verification, regardless of the correctness of the candidate value.
pub proof fn lemma_expired_token_rejected(
    tokens: Seq<TokenModel>,
    user_id: u64,
    token_type: TokenType,
    candidate: Seq<char>,
    now: i64,
)
    requires
        has_token_for(tokens, user_id, token_type),
        token_for(tokens, user_id, token_type).expires_at < now,
    ensures
        spec_check_token(tokens, user_id, token_type, candidate, now) == Err::<
            (),
            BadRequestError,
        >(BadRequestError::TokenExpired),
{
}

} // verus!
