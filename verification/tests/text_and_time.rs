use conduit::article::Article;
use conduit::error::AppError;
use conduit::timestamp::Timestamp;
use conduit::user::User;

fn ts(year: u64, month: u64, day: u64, hour: u64, minute: u64, second: u64) -> Timestamp {
    Timestamp { year, month, day, hour, minute, second }
}

#[test]
fn slug_lowers_and_hyphenates() {
    assert_eq!(Article::convert_title_to_slug("Hello World"), "hello-world");
}

#[test]
fn slug_keeps_other_characters() {
    assert_eq!(Article::convert_title_to_slug("Rust 101: Zero To Hero!"), "rust-101:-zero-to-hero!");
}

#[test]
fn slug_of_empty_title_is_empty() {
    assert_eq!(Article::convert_title_to_slug(""), "");
}

#[test]
fn timestamp_display_is_zero_padded() {
    assert_eq!(ts(2020, 1, 2, 3, 4, 5).to_display_string(), "2020-01-02 03:04:05");
}

#[test]
fn timestamp_display_matches_chrono_default_display() {
    let mine = ts(2023, 11, 30, 23, 59, 8).to_display_string();
    let theirs = chrono::NaiveDate::from_ymd_opt(2023, 11, 30)
        .unwrap()
        .and_hms_opt(23, 59, 8)
        .unwrap()
        .to_string();
    assert_eq!(mine, theirs);
}

#[test]
fn timestamp_display_small_year_matches_chrono() {
    let mine = ts(800, 6, 1, 0, 0, 0).to_display_string();
    let theirs = chrono::NaiveDate::from_ymd_opt(800, 6, 1)
        .unwrap()
        .and_hms_opt(0, 0, 0)
        .unwrap()
        .to_string();
    assert_eq!(mine, theirs);
}

#[test]
fn token_carries_the_user_id() {
    let u = User {
        id: 42,
        email: "a@b.c".to_string(),
        username: "ann".to_string(),
        password: "pw".to_string(),
        bio: None,
        image: None,
    };
    assert_eq!(u.generate_token(), "token-42");
}

#[test]
fn token_of_single_digit_id() {
    let u = User {
        id: 7,
        email: "a@b.c".to_string(),
        username: "ann".to_string(),
        password: "pw".to_string(),
        bio: None,
        image: None,
    };
    assert_eq!(u.generate_token(), "token-7");
}

#[test]
fn error_messages() {
    assert_eq!(AppError::NotFound.message(), "not found");
    assert_eq!(AppError::Unauthorized.message(), "unauthorized");
    assert_eq!(AppError::UnprocessableEntity.message(), "unprocessable entity");
}
