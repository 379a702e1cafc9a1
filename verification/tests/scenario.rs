use r_auth_api::claims::decode_jwt;
use r_auth_api::config::{AppConfig, AuthConfig, DbConfig, Environment, PasswordHashingConfig};
use r_auth_api::dto::{ChangePasswordDto, CreateUserDto, LoginRequest};
use r_auth_api::resolver::authenticate_request;
use r_auth_api::service::UsersService;

/// The full account lifecycle, end to end: signup, login, token
/// verification, a rejected password change, deactivation, and the
/// conflict on a duplicate email.
#[test]
fn account_lifecycle() {
    let mut service = UsersService::new(AppConfig {
        password: PasswordHashingConfig { hash_length: 32, mem_cost: 1024, time_cost: 1, lanes: 1 },
        auth: AuthConfig { secret: "lifecycle-secret".to_string() },
        db: DbConfig { database_url: String::new() },
        environment: Environment::Development,
    });
    let secret = service.config.auth.secret.as_bytes().to_vec();

    // signup succeeds; the returned record is redacted and active
    let created = service
        .create(CreateUserDto {
            username: "alice".to_string(),
            email: "alice@x.com".to_string(),
            password: "Secret@123".to_string(),
        })
        .expect("create should succeed");
    assert!(created.password.is_none(), "no password field may be returned");
    assert_eq!(created.status, 1);

    // login returns a non-empty token whose subject is the created id
    let token = service
        .login(LoginRequest {
            email: "alice@x.com".to_string(),
            password: "Secret@123".to_string(),
        })
        .expect("login should succeed");
    assert!(!token.is_empty());
    let claims = decode_jwt(&token, &secret, 0).expect("fresh token should verify");
    assert_eq!(claims.user_id, created.id.to_string());

    // a password change with the wrong previous password is unauthorized
    let err = service
        .change_password(
            created.id.to_string(),
            ChangePasswordDto {
                previous_password: "Wrong@12345".to_string(),
                new_password: "Another@456".to_string(),
            },
        )
        .unwrap_err();
    assert_eq!(err.status, 401);

    // deactivate, then resolve the still-unexpired token: forbidden
    service.inactive(created.id).expect("deactivation should succeed");
    let header = format!("Bearer {}", token);
    let err = authenticate_request(Some(&header), &secret, 0, &service.store).unwrap_err();
    assert_eq!(err.status, 403);
    assert_eq!(err.message, "Usuario inactivo");

    // a second account with the same email conflicts
    let err = service
        .create(CreateUserDto {
            username: "alice2".to_string(),
            email: "alice@x.com".to_string(),
            password: "Secret@123".to_string(),
        })
        .unwrap_err();
    assert_eq!(err.status, 409);
}
