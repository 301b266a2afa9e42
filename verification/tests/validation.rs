use account_core::errors::AppError;
use account_core::text::normalize_email;
use account_core::update::{apply_patch, validate_patch, ProfilePatch};
use account_core::validate::{
    validate_login, validate_registration, OLDEST_OFFSET_SECONDS, YOUNGEST_OFFSET_SECONDS,
};
use account_core::profile::Profile;
use account_core::views::{LoginParams, RegisterParams};

const NOW: i64 = 1_700_000_000;

fn params(email: &str, password: &str, first: &str, last: &str, birth_date: i64) -> RegisterParams {
    RegisterParams {
        email: String::from(email),
        password: String::from(password),
        first_name: String::from(first),
        last_name: String::from(last),
        birth_date,
    }
}

fn twenty_years_ago() -> i64 {
    NOW - 20 * 365 * 86_400
}

#[test]
fn registration_accepts_and_normalizes() {
    let p = params("  A@B.Com ", " secret123 ", " Ann ", " Lee ", twenty_years_ago());
    let v = validate_registration(&p, NOW).expect("valid input should pass");
    assert_eq!(v.email, "a@b.com");
    assert_eq!(v.password, "secret123");
    assert_eq!(v.first_name, "Ann");
    assert_eq!(v.last_name, "Lee");
    assert_eq!(v.birth_date, twenty_years_ago());
}

#[test]
fn registration_rejects_empty_email() {
    let p = params("   ", "secret123", "Ann", "Lee", twenty_years_ago());
    assert!(matches!(validate_registration(&p, NOW), Err(AppError::WrongCredential)));
}

#[test]
fn registration_rejects_overlong_fields() {
    let long = "x".repeat(256);
    let p = params(&long, "secret123", "Ann", "Lee", twenty_years_ago());
    assert!(matches!(validate_registration(&p, NOW), Err(AppError::WrongCredential)));
    let p = params("a@b.com", &long, "Ann", "Lee", twenty_years_ago());
    assert!(matches!(validate_registration(&p, NOW), Err(AppError::WrongCredential)));
    let p = params("a@b.com", "secret123", &long, "Lee", twenty_years_ago());
    assert!(matches!(validate_registration(&p, NOW), Err(AppError::WrongCredential)));
    let p = params("a@b.com", "secret123", "Ann", &long, twenty_years_ago());
    assert!(matches!(validate_registration(&p, NOW), Err(AppError::WrongCredential)));
}

#[test]
fn registration_accepts_255_byte_fields() {
    let edge = "x".repeat(255);
    let p = params(&edge, "secret123", &edge, &edge, twenty_years_ago());
    assert!(validate_registration(&p, NOW).is_ok());
}

#[test]
fn registration_rejects_birth_date_outside_window() {
    let too_young = NOW - YOUNGEST_OFFSET_SECONDS + 1;
    let p = params("a@b.com", "secret123", "Ann", "Lee", too_young);
    assert!(matches!(validate_registration(&p, NOW), Err(AppError::WrongCredential)));
    let too_old = NOW - OLDEST_OFFSET_SECONDS - 1;
    let p = params("a@b.com", "secret123", "Ann", "Lee", too_old);
    assert!(matches!(validate_registration(&p, NOW), Err(AppError::WrongCredential)));
    let oldest_allowed = NOW - OLDEST_OFFSET_SECONDS;
    let p = params("a@b.com", "secret123", "Ann", "Lee", oldest_allowed);
    assert!(validate_registration(&p, NOW).is_ok());
    let youngest_allowed = NOW - YOUNGEST_OFFSET_SECONDS;
    let p = params("a@b.com", "secret123", "Ann", "Lee", youngest_allowed);
    assert!(validate_registration(&p, NOW).is_ok());
}

#[test]
fn login_validation_normalizes_and_requires_both_fields() {
    let ok = validate_login(&LoginParams {
        email: String::from(" A@B.com "),
        password: String::from(" pw "),
    })
    .expect("both fields present");
    assert_eq!(ok.0, "a@b.com");
    assert_eq!(ok.1, "pw");
    let missing = validate_login(&LoginParams {
        email: String::from("a@b.com"),
        password: String::from("   "),
    });
    assert!(matches!(missing, Err(AppError::MissingCredential)));
}

#[test]
fn email_normalization_lowers_and_trims() {
    assert_eq!(normalize_email("  JanE@Example.COM  "), "jane@example.com");
    assert_eq!(normalize_email(""), "");
}

fn empty_patch() -> ProfilePatch {
    ProfilePatch { location: None, first_name: None, last_name: None, is_visible: None, birth_date: None }
}

fn stored_profile() -> Profile {
    Profile {
        id: Some(9),
        pid: Some(vec![3u8; 16]),
        user_id: Some(4),
        birth_date: Some(1_000_000),
        first_name: Some(String::from("Ann")),
        last_name: Some(String::from("Lee")),
        profile_video_id: None,
        location: Some(String::from("JPN")),
        is_visible: Some(false),
        created_at: Some(1),
        updated_at: Some(2),
    }
}

#[test]
fn empty_patch_is_refused() {
    assert!(matches!(validate_patch(&empty_patch()), Err(AppError::WrongCredential)));
}

#[test]
fn single_field_patch_changes_only_that_field() {
    let mut patch = empty_patch();
    patch.first_name = Some(String::from("Iris"));
    let valid = validate_patch(&patch).expect("a single valid field passes");
    let before = stored_profile();
    let after = apply_patch(&before, &valid);
    assert_eq!(after.first_name, Some(String::from("Iris")));
    assert_eq!(after.last_name, before.last_name);
    assert_eq!(after.location, before.location);
    assert_eq!(after.birth_date, before.birth_date);
    assert_eq!(after.is_visible, before.is_visible);
    assert_eq!(after.id, before.id);
    assert_eq!(after.user_id, before.user_id);
}

#[test]
fn patch_location_is_trimmed_and_uppercased() {
    let mut patch = empty_patch();
    patch.location = Some(String::from(" usa "));
    let valid = validate_patch(&patch).expect("a valid location passes");
    assert_eq!(valid.location, Some(String::from("USA")));
}

#[test]
fn patch_bounds_are_enforced() {
    let mut patch = empty_patch();
    patch.location = Some("x".repeat(256));
    assert!(matches!(validate_patch(&patch), Err(AppError::WrongCredential)));
    let mut patch = empty_patch();
    patch.first_name = Some("x".repeat(25));
    assert!(matches!(validate_patch(&patch), Err(AppError::WrongCredential)));
    let mut patch = empty_patch();
    patch.last_name = Some(String::new());
    assert!(matches!(validate_patch(&patch), Err(AppError::WrongCredential)));
}

#[test]
fn patch_bounds_hold_of_the_trimmed_value() {
    // All-whitespace names trim to nothing and are refused, never stored.
    let mut patch = empty_patch();
    patch.first_name = Some(String::from("    "));
    assert!(matches!(validate_patch(&patch), Err(AppError::WrongCredential)));
    // Surrounding whitespace does not count against the name bound.
    let mut patch = empty_patch();
    patch.last_name = Some(format!("  {}  ", "x".repeat(24)));
    let valid = validate_patch(&patch).expect("24 bytes once trimmed pass");
    assert_eq!(valid.last_name, Some("x".repeat(24)));
}

#[test]
fn patch_birth_date_beyond_oldest_bound_is_refused() {
    let mut patch = empty_patch();
    patch.birth_date = Some(-3_000_000_000);
    assert!(matches!(validate_patch(&patch), Err(AppError::WrongCredential)));
    let mut patch = empty_patch();
    patch.birth_date = Some(2_000_000_000);
    assert!(matches!(validate_patch(&patch), Err(AppError::WrongCredential)));
    let mut patch = empty_patch();
    patch.birth_date = Some(1_000_000_000);
    assert!(validate_patch(&patch).is_ok());
}

#[test]
fn visibility_patch_applies() {
    let mut patch = empty_patch();
    patch.is_visible = Some(true);
    let valid = validate_patch(&patch).expect("a visibility flag passes");
    let after = apply_patch(&stored_profile(), &valid);
    assert_eq!(after.is_visible, Some(true));
}
