use r_auth_api::config::{AppConfig, AuthConfig, DbConfig, Environment, PasswordHashingConfig};
use r_auth_api::dto::{CreateUserDto, LoginRequest};
use r_auth_api::service::UsersService;

fn test_service() -> UsersService {
    UsersService::new(AppConfig {
        password: PasswordHashingConfig { hash_length: 32, mem_cost: 1024, time_cost: 1, lanes: 1 },
        auth: AuthConfig { secret: "test-signing-secret".to_string() },
        db: DbConfig { database_url: String::new() },
        environment: Environment::Development,
    })
}

/// ---
///
/// ## Test Case 1: Login exitoso con credenciales válidas
///
#[test]
fn test_login_success() {
    let mut users_service = test_service();

    let password = "StrongPassword@123".to_string();

    let user_dto = CreateUserDto {
        username: "login_success".to_string(),
        email: "login_success@example.com".to_string(),
        password: password.clone(),
    };

    users_service.create(user_dto).expect("Fallo al crear usuario de prueba");

    let login_request = LoginRequest {
        email: "login_success@example.com".to_string(),
        password: password.clone(),
    };

    let result = users_service.login(login_request);

    assert!(result.is_ok(), "El login debería ser exitoso.");

    let token = result.unwrap();
    assert!(!token.is_empty(), "El token JWT devuelto no debería estar vacío");
}

/// ---
///
/// ## Test Case 2: Error por email inexistente (Credenciales inválidas)
///
#[test]
fn test_login_email_not_found() {
    let users_service = test_service();

    let login_request = LoginRequest {
        email: "nonexistent@example.com".to_string(),
        password: "AnyPassword123!".to_string(),
    };

    let result = users_service.login(login_request);

    assert!(result.is_err(), "El login con email inexistente debería fallar");

    let http_error = result.unwrap_err();
    assert_eq!(http_error.status, 401);
    assert_eq!(http_error.key, "client");
    assert_eq!(http_error.message, "Credenciales inválidas");
}

/// ---
///
/// ## Test Case 3: Error por contraseña incorrecta
///
#[test]
fn test_login_wrong_password() {
    let mut users_service = test_service();

    let user_dto = CreateUserDto {
        username: "login_wrong_pwd".to_string(),
        email: "login_wrong_pwd@example.com".to_string(),
        password: "CorrectPassword@123".to_string(),
    };

    users_service.create(user_dto).expect("Fallo al crear usuario de prueba");

    let login_request = LoginRequest {
        email: "login_wrong_pwd@example.com".to_string(),
        password: "WrongPassword!".to_string(),
    };

    let result = users_service.login(login_request);

    assert!(result.is_err(), "El login con contraseña incorrecta debería fallar");

    let http_error = result.unwrap_err();
    assert_eq!(http_error.status, 401);
    assert_eq!(http_error.key, "client");
    assert_eq!(http_error.message, "Credenciales inválidas");
}
