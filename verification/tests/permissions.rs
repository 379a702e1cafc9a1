use r_auth_api::claims::{Claims, Identity};
use r_auth_api::permissions::{
    has_permission, ADMIN, CREATE_USERS, DELETE_MYSELF, DELETE_USERS, READ_MYSELF, READ_USERS,
    UPDATE_MYSELF, UPDATE_USERS, USER_PERMISSIONS,
};
use r_auth_api::user::User;

#[test]
fn required_bit_grants_access() {
    assert!(has_permission(READ_USERS, READ_USERS));
    assert!(has_permission(READ_USERS | CREATE_USERS, CREATE_USERS));
    assert!(has_permission(USER_PERMISSIONS, READ_MYSELF));
    assert!(has_permission(USER_PERMISSIONS, UPDATE_MYSELF));
    assert!(has_permission(USER_PERMISSIONS, DELETE_MYSELF));
}

#[test]
fn admin_bit_grants_everything() {
    assert!(has_permission(ADMIN, READ_USERS));
    assert!(has_permission(ADMIN, UPDATE_USERS));
    assert!(has_permission(ADMIN, DELETE_USERS));
    assert!(has_permission(ADMIN, READ_MYSELF | UPDATE_MYSELF | DELETE_MYSELF));
    assert!(has_permission(ADMIN | READ_MYSELF, CREATE_USERS));
}

#[test]
fn missing_bit_denies_access() {
    assert!(!has_permission(0, READ_MYSELF));
    assert!(!has_permission(USER_PERMISSIONS, CREATE_USERS));
    assert!(!has_permission(READ_USERS, UPDATE_USERS));
    // all required bits must be present, not just one of them
    assert!(!has_permission(READ_USERS, READ_USERS | UPDATE_USERS));
}

#[test]
fn granting_more_bits_never_removes_access() {
    let grants = [READ_MYSELF, UPDATE_MYSELF, READ_USERS, UPDATE_USERS];
    for &required in grants.iter() {
        for extra in 0i64..256 {
            if has_permission(required, required) {
                assert!(has_permission(required | extra, required));
            }
        }
    }
}

#[test]
fn default_signup_grant_is_self_service_only() {
    assert_eq!(USER_PERMISSIONS, READ_MYSELF | UPDATE_MYSELF | DELETE_MYSELF);
    assert!(!has_permission(USER_PERMISSIONS, ADMIN));
    assert!(!has_permission(USER_PERMISSIONS, READ_USERS));
}

#[test]
fn require_permission_gates_by_resolved_user_bits() {
    let claims = Claims::new("1".to_string(), 60);
    let mut user = User::new(1, "gatekeeper".to_string(), "gate@example.com".to_string());
    user.permissions = USER_PERMISSIONS;
    let identity = Identity::new(claims, user);

    assert!(identity.require_permission(READ_MYSELF).is_ok());
    let err = identity.require_permission(CREATE_USERS).unwrap_err();
    assert_eq!(err.status, 403);
    assert_eq!(err.key, "client");
    assert_eq!(err.message, "Permisos de usuario insuficientes");

    let claims = Claims::new("2".to_string(), 60);
    let mut admin = User::new(2, "root_user".to_string(), "root@example.com".to_string());
    admin.permissions = ADMIN;
    let identity = Identity::new(claims, admin);
    assert!(identity.require_permission(CREATE_USERS).is_ok());
    assert!(identity.require_permission(DELETE_USERS).is_ok());
}
