use chat_gateway::auth::{
    get_auth_header, is_open, starts_with, Admission, Auth, AuthMiddleware, Claims, Screening,
    TOKEN_LIFESPAN,
};
use chat_gateway::records::AuthUser;

fn token(header: &str) -> Option<String> {
    get_auth_header(header.as_bytes()).map(|bytes| String::from_utf8(bytes).unwrap())
}

/// What the standard library's split gives for the same header.
fn by_split(header: &str) -> Option<String> {
    header.split("Bearer ").skip(1).collect::<Vec<&str>>().first().map(|t| t.to_string())
}

#[test]
fn bearer_token_is_what_follows_the_word() {
    assert_eq!(token("Bearer abc.def.ghi"), Some("abc.def.ghi".to_string()));
    assert_eq!(token("Bearer "), Some(String::new()));
    assert_eq!(token("xyzBearer t"), Some("t".to_string()));
}

#[test]
fn header_without_the_word_has_no_token() {
    assert_eq!(token(""), None);
    assert_eq!(token("Basic dXNlcjpwYXNz"), None);
    assert_eq!(token("Bearer"), None);
    assert_eq!(token("bearer abc"), None);
    assert_eq!(token("Bearerabc"), None);
}

#[test]
fn token_ends_at_the_next_word() {
    assert_eq!(token("Bearer a Bearer b"), Some("a ".to_string()));
    assert_eq!(token("Bearer Bearer b"), Some(String::new()));
    assert_eq!(token("Bearer aBearer "), Some("a".to_string()));
}

#[test]
fn token_agrees_with_split() {
    for header in [
        "",
        "Bearer ",
        "Bearer x",
        " Bearer x",
        "Bearer  x",
        "BearerBearer x",
        "Bearer Bearer Bearer ",
        "Bearer xBearer yBearer z",
        "Bear Bearer er",
        "Token abc",
        "BBearer earer ",
    ] {
        assert_eq!(token(header), by_split(header), "{:?}", header);
    }
}

#[test]
fn prefixes() {
    assert!(starts_with(b"abc", b""));
    assert!(starts_with(b"abc", b"ab"));
    assert!(starts_with(b"abc", b"abc"));
    assert!(!starts_with(b"abc", b"abcd"));
    assert!(!starts_with(b"abc", b"b"));
    assert!(!starts_with(b"", b"a"));
}

#[test]
fn only_sign_in_and_registration_are_open() {
    assert!(is_open(b"/api/auth/login"));
    assert!(is_open(b"/api/auth/login/"));
    assert!(is_open(b"/api/auth/loginx?y=1"));
    assert!(is_open(b"/api/auth/register"));
    assert!(is_open(b"/api/auth/register/now"));
    assert!(!is_open(b"/api/auth/logi"));
    assert!(!is_open(b"/api/auth/refresh/abc"));
    assert!(!is_open(b"/api/guild/"));
    assert!(!is_open(b"api/auth/login"));
    assert!(!is_open(b"/API/auth/login"));
    assert!(!is_open(b""));
}

fn guard() -> AuthMiddleware<u8> {
    Auth.new_transform(7u8)
}

#[test]
fn gate_keeps_its_service() {
    assert_eq!(*guard().get_service(), 7);
}

#[test]
fn screening_by_path_and_header() {
    let guard = guard();
    assert_eq!(guard.screen(b"/api/auth/login", None), Screening::Open);
    assert_eq!(guard.screen(b"/api/auth/register", Some(b"junk")), Screening::Open);
    assert_eq!(guard.screen(b"/api/guild/", None), Screening::Unauthorized);
    assert_eq!(guard.screen(b"/api/guild/", Some(b"Basic abc")), Screening::Unauthorized);
    assert_eq!(
        guard.screen(b"/api/guild/", Some(b"Bearer tok")),
        Screening::Verify(b"tok".to_vec())
    );
}

fn claims() -> Claims {
    Claims { username: "ann".to_string(), expiration: 120, id: 9 }
}

#[test]
fn admission_after_the_check() {
    let guard = guard();
    assert_eq!(guard.call(Screening::Open, None), Admission::Forward(None));
    assert_eq!(guard.call(Screening::Open, Some(claims())), Admission::Forward(None));
    assert_eq!(
        guard.call(Screening::Verify(b"t".to_vec()), Some(claims())),
        Admission::Forward(Some(claims()))
    );
    assert_eq!(guard.call(Screening::Verify(b"t".to_vec()), None), Admission::Unauthorized);
    assert_eq!(guard.call(Screening::Unauthorized, None), Admission::Unauthorized);
    assert_eq!(guard.call(Screening::Unauthorized, Some(claims())), Admission::Unauthorized);
}

#[test]
fn claims_of_a_user() {
    let user = AuthUser { id: Some(9), username: "ann".to_string(), ..AuthUser::default() };
    assert_eq!(Claims::of(&user), claims());
    assert_eq!(TOKEN_LIFESPAN, 120);
}
