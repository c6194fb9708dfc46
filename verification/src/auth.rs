//! Who may pass: the bearer token of a request, the paths that need none,
//! and the claims that a token carries.

use crate::records::AuthUser;
use vstd::prelude::*;
use vstd::slice::{slice_subrange, slice_to_vec};

verus! {

/// The bytes of a text that is plain ASCII.
pub open spec fn ascii(text: Seq<char>) -> Seq<u8> {
    Seq::new(text.len(), |i: int| text[i] as u8)
}

/// Whether `text` starts with `prefix`.
pub open spec fn begins_with(text: Seq<u8>, prefix: Seq<u8>) -> bool {
    prefix.len() <= text.len() && text.subrange(0, prefix.len() as int) == prefix
}

/// Whether `word` stands in `text` at `at`.
pub open spec fn stands_at(text: Seq<u8>, word: Seq<u8>, at: int) -> bool {
    0 <= at && at + word.len() <= text.len() && text.subrange(at, at + word.len()) == word
}

fn has_at(text: &[u8], word: &[u8], at: usize) -> (found: bool)
    requires
        at <= text.len(),
    ensures
        found == stands_at(text@, word@, at as int),
{
    if word.len() > text.len() - at {
        return false;
    }
    let mut k: usize = 0;
    while k < word.len()
        invariant
            at + word.len() <= text.len(),
            k <= word.len(),
            forall|j: int| 0 <= j < k ==> text@[at + j] == word@[j],
        decreases word.len() - k,
    {
        if text[at + k] != word[k] {
            assert(text@.subrange(at as int, at + word.len())[k as int] != word@[k as int]);
            return false;
        }
        k = k + 1;
    }
    assert(text@.subrange(at as int, at + word.len()) =~= word@);
    true
}

pub fn starts_with(text: &[u8], prefix: &[u8]) -> (found: bool)
    ensures
        found == begins_with(text@, prefix@),
{
    has_at(text, prefix, 0)
}

/// The bytes of the word `Bearer` and the blank after it.
fn bearer() -> (word: &'static [u8])
    ensures
        word@ == ascii("Bearer "@),
{
    let word = "Bearer ";
    proof {
        reveal_strlit("Bearer ");
        vstd::string::is_ascii_spec_bytes(word);
    }
    word.as_bytes()
}

/// Where `word` next stands in `text` at or after `from`; the length of
/// `text` if it does not.
pub open spec fn next_stand(text: Seq<u8>, word: Seq<u8>, from: int) -> int
    decreases text.len() - from,
{
    if from >= text.len() {
        text.len() as int
    } else if stands_at(text, word, from) {
        from
    } else {
        next_stand(text, word, from + 1)
    }
}

/// `next_stand` lies between `from` and the end of the text, `word` stands
/// there unless it is the end, and it stands nowhere from `from` up to there.
pub proof fn lemma_next_stand(text: Seq<u8>, word: Seq<u8>, from: int)
    requires
        0 <= from <= text.len(),
    ensures
        from <= next_stand(text, word, from) <= text.len(),
        next_stand(text, word, from) < text.len() ==> stands_at(
            text,
            word,
            next_stand(text, word, from),
        ),
        forall|at: int| from <= at < next_stand(text, word, from) ==> !stands_at(text, word, at),
    decreases text.len() - from,
{
    if from < text.len() && !stands_at(text, word, from) {
        lemma_next_stand(text, word, from + 1);
    }
}

fn find(text: &[u8], word: &[u8], from: usize) -> (at: usize)
    requires
        from <= text.len(),
    ensures
        at == next_stand(text@, word@, from as int),
        from <= at <= text.len(),
{
    let mut at: usize = from;
    while at < text.len()
        invariant
            from <= at <= text.len(),
            next_stand(text@, word@, from as int) == next_stand(text@, word@, at as int),
        decreases text.len() - at,
    {
        if has_at(text, word, at) {
            return at;
        }
        at = at + 1;
    }
    at
}

/// The token in the value of an `Authorization` header: what follows the
/// first `Bearer ` up to the next one, or up to the end. None if the value
/// holds no `Bearer `.
pub open spec fn spec_get_auth_header(header: Seq<u8>) -> Option<Seq<u8>> {
    let word = ascii("Bearer "@);
    let first = next_stand(header, word, 0);
    if first >= header.len() {
        None
    } else {
        Some(header.subrange(first + 7, next_stand(header, word, first + 7)))
    }
}

pub fn get_auth_header(header: &[u8]) -> (token: Option<Vec<u8>>)
    ensures
        match token {
            Some(bytes) => spec_get_auth_header(header@) == Some(bytes@),
            None => spec_get_auth_header(header@) is None,
        },
{
    let word = bearer();
    proof {
        reveal_strlit("Bearer ");
        lemma_next_stand(header@, word@, 0);
    }
    let first = find(header, word, 0);
    if first >= header.len() {
        return None;
    }
    let start = first + 7;
    let end = find(header, word, start);
    Some(slice_to_vec(slice_subrange(header, start, end)))
}

/// Whether requests to `path` pass without a token: those that sign a
/// user in, and those that register one.
pub open spec fn spec_is_open(path: Seq<u8>) -> bool {
    begins_with(path, ascii("/api/auth/login"@)) || begins_with(path, ascii("/api/auth/register"@))
}

pub fn is_open(path: &[u8]) -> (open: bool)
    ensures
        open == spec_is_open(path@),
{
    let login = "/api/auth/login";
    let register = "/api/auth/register";
    proof {
        reveal_strlit("/api/auth/login");
        reveal_strlit("/api/auth/register");
        vstd::string::is_ascii_spec_bytes(login);
        vstd::string::is_ascii_spec_bytes(register);
    }
    starts_with(path, login.as_bytes()) || starts_with(path, register.as_bytes())
}

/// Seconds that a token's claims give as its expiry.
pub const TOKEN_LIFESPAN: u64 = 120;

/// What a token says of its bearer.
#[derive(Debug, Clone, PartialEq, Eq)]
pub struct Claims {
    pub username: String,
    pub expiration: u64,
    pub id: i32,
}

impl Claims {
    /// The claims of a token for a user that the database knows by an id.
    pub fn of(auth_user: &AuthUser) -> (claims: Self)
        requires
            auth_user.id is Some,
        ensures
            claims.username == auth_user.username,
            claims.expiration == TOKEN_LIFESPAN,
            auth_user.id == Some(claims.id),
    {
        let id = match auth_user.id {
            Some(id) => id,
            None => 0,
        };
        Claims { username: auth_user.username.clone(), expiration: TOKEN_LIFESPAN, id }
    }
}

/// What the guard does with a request before any token is checked.
#[derive(Debug, Clone, PartialEq, Eq)]
pub enum Screening {
    /// The path needs no token: pass the request on.
    Open,
    /// Check this token.
    Verify(Vec<u8>),
    /// The path needs a token and the request brought none.
    Unauthorized,
}

/// What the guard does with a request in the end.
#[derive(Debug, Clone, PartialEq, Eq)]
pub enum Admission {
    /// Pass the request on, with the claims of its token if one was checked.
    Forward(Option<Claims>),
    /// Answer that the request is not authorized.
    Unauthorized,
}

/// The guard in front of the API.
#[derive(Debug, Clone, Copy, PartialEq, Eq)]
pub struct Auth;

/// The guard, set before a service.
#[derive(Debug, Clone, PartialEq, Eq)]
pub struct AuthMiddleware<S> {
    service: S,
}

impl Auth {
    pub fn new_transform<S>(&self, service: S) -> (guard: AuthMiddleware<S>)
        ensures
            guard.service() == service,
    {
        AuthMiddleware { service }
    }
}

impl<S> AuthMiddleware<S> {
    /// The service behind the guard.
    pub closed spec fn service(&self) -> S {
        self.service
    }

    pub fn get_service(&self) -> (service: &S)
        ensures
            *service == self.service(),
    {
        &self.service
    }

    /// What is to be done with a request, by its path and the value of its
    /// `Authorization` header, if it has one.
    pub open spec fn spec_screen(path: Seq<u8>, header: Option<Seq<u8>>) -> Option<Option<Seq<u8>>> {
        if spec_is_open(path) {
            None
        } else {
            Some(
                match header {
                    Some(value) => spec_get_auth_header(value),
                    None => None,
                },
            )
        }
    }

    /// Looks at a request before any token is checked: an open path passes,
    /// any other needs the token from its header.
    pub fn screen(&self, path: &[u8], header: Option<&[u8]>) -> (verdict: Screening)
        ensures
            match verdict {
                Screening::Open => Self::spec_screen(path@, Self::value_of(header)) is None,
                Screening::Verify(token) => Self::spec_screen(path@, Self::value_of(header)) == Some(
                    Some(token@),
                ),
                Screening::Unauthorized => Self::spec_screen(path@, Self::value_of(header)) == Some(
                    None::<Seq<u8>>,
                ),
            },
    {
        if is_open(path) {
            return Screening::Open;
        }
        let token = match header {
            Some(value) => get_auth_header(value),
            None => None,
        };
        match token {
            Some(token) => Screening::Verify(token),
            None => Screening::Unauthorized,
        }
    }

    pub open spec fn value_of(header: Option<&[u8]>) -> Option<Seq<u8>> {
        match header {
            Some(value) => Some(value@),
            None => None,
        }
    }

    /// What the guard does once the screening is done and the token, where
    /// one had to be checked, has been: `checked` holds its claims, or nothing
    /// if it was not valid.
    pub open spec fn spec_call(verdict: Screening, checked: Option<Claims>) -> Admission {
        match verdict {
            Screening::Open => Admission::Forward(None),
            Screening::Verify(_) => match checked {
                Some(claims) => Admission::Forward(Some(claims)),
                None => Admission::Unauthorized,
            },
            Screening::Unauthorized => Admission::Unauthorized,
        }
    }

    pub fn call(&self, verdict: Screening, checked: Option<Claims>) -> (admission: Admission)
        ensures
            admission == Self::spec_call(verdict, checked),
    {
        match verdict {
            Screening::Open => Admission::Forward(None),
            Screening::Verify(_) => match checked {
                Some(claims) => Admission::Forward(Some(claims)),
                None => Admission::Unauthorized,
            },
            Screening::Unauthorized => Admission::Unauthorized,
        }
    }
}

} // verus!
