use league_store::errors::{ApiError, ErrorClass, ErrorKind, StoreError};
use league_store::models::users::{
    AuthUser, CreateUserRequest, NewUser, UpdateUser, UpdateUserRequest, User,
};
use league_store::time::Timestamp;

fn satoshi() -> NewUser {
    NewUser {
        id: "a-1".to_string(),
        first_name: "Satoshi".to_string(),
        last_name: "Nakamoto".to_string(),
        email: "satoshi@example.org".to_string(),
        password: "123456".to_string(),
    }
}

#[test]
fn stamped_user_keeps_fields_and_takes_the_given_password() {
    let user = User::stamped(
        satoshi(),
        "hashed".to_string(),
        Timestamp::new(100, 1),
        Timestamp::new(200, 2),
    );
    assert_eq!(
        user,
        User {
            id: "a-1".to_string(),
            first_name: "Satoshi".to_string(),
            last_name: "Nakamoto".to_string(),
            email: "satoshi@example.org".to_string(),
            password: "hashed".to_string(),
            created_at: Timestamp::new(100, 1),
            updated_at: Timestamp::new(200, 2),
        }
    );
}

#[test]
fn registered_user_is_stamped_with_the_clock() {
    let before = chrono::Utc::now().timestamp();
    let user = User::registered(satoshi(), "hashed".to_string());
    let after = chrono::Utc::now().timestamp();
    assert_eq!(user.id, "a-1");
    assert_eq!(user.first_name, "Satoshi");
    assert_eq!(user.last_name, "Nakamoto");
    assert_eq!(user.email, "satoshi@example.org");
    assert_eq!(user.password, "hashed");
    assert!(before <= user.created_at.secs && user.created_at.secs <= after);
    assert!(user.created_at.secs <= user.updated_at.secs && user.updated_at.secs <= after);
    assert!(user.created_at.nanos < 2_000_000_000);
}

#[test]
fn clock_moves_forward() {
    let first = Timestamp::now();
    let second = Timestamp::now();
    assert!((first.secs, first.nanos) <= (second.secs, second.nanos));
    assert!(first.secs > 1_600_000_000);
    assert!(first.nanos < 1_000_000_000);
    assert!(second.nanos < 1_000_000_000);
}

#[test]
fn user_records_hold_their_fields() {
    let update = UpdateUser {
        id: "a-1".to_string(),
        first_name: "S".to_string(),
        last_name: "N".to_string(),
        email: "s@example.org".to_string(),
    };
    assert_eq!(update.id, "a-1");
    let auth = AuthUser { id: "a-1".to_string(), email: "s@example.org".to_string() };
    assert_eq!(auth.email, update.email);
    let create = CreateUserRequest {
        first_name: "Satoshi".to_string(),
        last_name: "Nakamoto".to_string(),
        email: "satoshi@example.org".to_string(),
        password: "123456".to_string(),
    };
    assert_eq!(create.password.len(), 6);
    let change = UpdateUserRequest {
        first_name: "Satoshi".to_string(),
        last_name: "Nakamoto".to_string(),
        email: "satoshi@example.org".to_string(),
    };
    assert_eq!(change.first_name, create.first_name);
}

#[test]
fn every_kind_of_failure_has_its_class() {
    let cases = [
        (ApiError::NotFound("a".to_string()), ErrorKind::NotFound, ErrorClass::Missing),
        (ApiError::Conflict("b".to_string()), ErrorKind::Conflict, ErrorClass::Rejected),
        (ApiError::ParseFailure("c".to_string()), ErrorKind::ParseFailure, ErrorClass::Rejected),
        (
            ApiError::ConnectionFailure("d".to_string()),
            ErrorKind::ConnectionFailure,
            ErrorClass::Internal,
        ),
        (ApiError::StoreFailure("e".to_string()), ErrorKind::StoreFailure, ErrorClass::Internal),
    ];
    for (failure, kind, class) in cases {
        assert_eq!(failure.kind(), kind);
        assert_eq!(failure.class(), class);
    }
    assert_eq!(ApiError::NotFound("a".to_string()).message(), "a");
    assert_eq!(ApiError::StoreFailure("e".to_string()).message(), "e");
}

#[test]
fn store_failure_keeps_its_message_as_an_operation_failure() {
    assert_eq!(
        ApiError::from_store(StoreError::Constraint("x".to_string())),
        ApiError::Conflict("x".to_string())
    );
    assert_eq!(
        ApiError::from_store(StoreError::Unavailable("y".to_string())),
        ApiError::ConnectionFailure("y".to_string())
    );
    assert_eq!(
        ApiError::from_store(StoreError::Failure("z".to_string())),
        ApiError::StoreFailure("z".to_string())
    );
}
