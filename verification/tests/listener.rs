use session_signals::listener::{answer, status_code, Admission};

#[test]
fn only_local_requests_with_the_secret_come_in() {
    let good = Some("open sesame".to_string());
    assert_eq!(answer(true, &good, "open sesame"), Admission::Accepted);
    assert_eq!(answer(false, &good, "open sesame"), Admission::Forbidden);
    assert_eq!(
        answer(true, &Some("other".to_string()), "open sesame"),
        Admission::Unauthorized
    );
    assert_eq!(answer(true, &None, "open sesame"), Admission::Unauthorized);
}

#[test]
fn without_a_secret_nothing_comes_in() {
    assert_eq!(
        answer(true, &Some(String::new()), ""),
        Admission::Unauthorized
    );
}

#[test]
fn answers_have_their_codes() {
    assert_eq!(status_code(Admission::Accepted), 200);
    assert_eq!(status_code(Admission::Unauthorized), 401);
    assert_eq!(status_code(Admission::Forbidden), 403);
}
