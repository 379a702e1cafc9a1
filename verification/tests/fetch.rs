use r_auth_api::auth::verify_password;
use r_auth_api::config::{AppConfig, AuthConfig, DbConfig, Environment, PasswordHashingConfig};
use r_auth_api::dto::CreateUserDto;
use r_auth_api::service::UsersService;

fn test_service() -> UsersService {
    UsersService::new(AppConfig {
        password: PasswordHashingConfig { hash_length: 32, mem_cost: 1024, time_cost: 1, lanes: 1 },
        auth: AuthConfig { secret: "test-signing-secret".to_string() },
        db: DbConfig { database_url: String::new() },
        environment: Environment::Development,
    })
}

/// ---
///
/// ## Test Case 1: Fetch exitoso por ID (incluyendo password)
///
#[test]
fn test_fetch_user_success() {
    let mut users_service = test_service();

    let password = "StrongPassword@123".to_string();

    let user_dto = CreateUserDto {
        username: "fetch_success".to_string(),
        email: "fetch_success@example.com".to_string(),
        password: password.clone(),
    };

    let created_user = users_service.create(user_dto).expect("Fallo al crear usuario de prueba");

    let result = users_service.fetch(created_user.id);

    assert!(result.is_ok(), "El fetch por ID debería ser exitoso.");

    let fetched_user = result.unwrap();
    assert_eq!(fetched_user.id, created_user.id);
    assert_eq!(fetched_user.username, "fetch_success");
    assert_eq!(fetched_user.email, "fetch_success@example.com");
    assert!(
        fetched_user.password.is_some(),
        "El usuario obtenido debe incluir el campo password"
    );
    assert!(
        verify_password(&password, &fetched_user.password.clone().unwrap()),
        "El password almacenado no coincide al verificar"
    );
}

/// ---
///
/// ## Test Case 2: Fetch falla por ID inexistente (Not Found)
///
#[test]
fn test_fetch_user_not_found() {
    let users_service = test_service();

    let result = users_service.fetch(99999);

    assert!(result.is_err(), "El fetch de un ID inexistente debería fallar.");

    let http_error = result.unwrap_err();
    assert_eq!(http_error.status, 404);
    assert_eq!(http_error.key, "client");
    assert_eq!(http_error.message, "Usuario no encontrado");
}
