use r_auth_api::config::{AppConfig, AuthConfig, DbConfig, Environment, PasswordHashingConfig};
use r_auth_api::dto::{ChangePasswordDto, CreateUserDto};
use r_auth_api::service::UsersService;

fn test_service() -> UsersService {
    UsersService::new(AppConfig {
        password: PasswordHashingConfig { hash_length: 32, mem_cost: 1024, time_cost: 1, lanes: 1 },
        auth: AuthConfig { secret: "test-signing-secret".to_string() },
        db: DbConfig { database_url: String::new() },
        environment: Environment::Development,
    })
}

/// ---
///
/// ## Test Case 1: Cambio exitoso de contraseña
///
#[test]
fn test_change_password_success() {
    let mut users_service = test_service();

    let user_dto = CreateUserDto {
        username: "change_pwd".to_string(),
        email: "change_pwd@example.com".to_string(),
        password: "OldPassword@123".to_string(),
    };

    let created_user = users_service.create(user_dto).expect("Error creando usuario");

    let change_pwd_dto = ChangePasswordDto {
        previous_password: "OldPassword@123".to_string(),
        new_password: "NewPassword@456".to_string(),
    };

    let result = users_service.change_password(created_user.id.to_string(), change_pwd_dto);

    assert!(result.is_ok(), "El cambio de contraseña debería ser exitoso");
}

/// ---
///
/// ## Test Case 2: Fallo por ID de usuario inválido (parseo fallido)
///
#[test]
fn test_change_password_invalid_user_id() {
    let mut users_service = test_service();

    let change_pwd_dto = ChangePasswordDto {
        previous_password: "AnyPassword@123".to_string(),
        new_password: "NewPassword@456".to_string(),
    };

    let result = users_service.change_password("invalid_id".to_string(), change_pwd_dto);

    assert!(result.is_err(), "Debería fallar por ID inválido");
    let http_error = result.unwrap_err();
    assert_eq!(http_error.status, 400);
    assert_eq!(http_error.key, "client");
    assert_eq!(http_error.message, "Id de usuario inválido");
}

/// ---
///
/// ## Test Case 3: Fallo cuando la nueva contraseña es igual a la antigua
///
#[test]
fn test_change_password_new_equals_old() {
    let mut users_service = test_service();

    let user_dto = CreateUserDto {
        username: "same_pwd".to_string(),
        email: "same_pwd@example.com".to_string(),
        password: "Password@123".to_string(),
    };

    let created_user = users_service.create(user_dto).expect("Error creando usuario");

    let change_pwd_dto = ChangePasswordDto {
        previous_password: "Password@123".to_string(),
        new_password: "Password@123".to_string(),
    };

    let result = users_service.change_password(created_user.id.to_string(), change_pwd_dto);

    assert!(
        result.is_err(),
        "Debería fallar si la nueva contraseña es igual a la antigua"
    );
    let http_error = result.unwrap_err();
    assert_eq!(http_error.status, 400);
    assert_eq!(http_error.key, "client");
    assert_eq!(
        http_error.message,
        "La contraseña nueva no puede ser igual a la contraseña antigua"
    );
}

/// ---
///
/// ## Test Case 4: Fallo por contraseña anterior incorrecta
///
#[test]
fn test_change_password_wrong_previous_password() {
    let mut users_service = test_service();

    let user_dto = CreateUserDto {
        username: "wrong_prev".to_string(),
        email: "wrong_prev@example.com".to_string(),
        password: "CorrectPassword@123".to_string(),
    };

    let created_user = users_service.create(user_dto).expect("Error creando usuario");

    let change_pwd_dto = ChangePasswordDto {
        previous_password: "WrongPassword@123".to_string(),
        new_password: "NewPassword@456".to_string(),
    };

    let result = users_service.change_password(created_user.id.to_string(), change_pwd_dto);

    assert!(result.is_err(), "Debería fallar por contraseña anterior incorrecta");
    let http_error = result.unwrap_err();
    assert_eq!(http_error.status, 401);
    assert_eq!(http_error.key, "client");
    assert_eq!(http_error.message, "Credenciales inválidas");
}

/// ---
///
/// ## Test Case 5: Fallo por nueva contraseña débil o inválida (validation falla)
///
#[test]
fn test_change_password_weak_new_password() {
    let mut users_service = test_service();

    let user_dto = CreateUserDto {
        username: "weak_new_pwd".to_string(),
        email: "weak_new_pwd@example.com".to_string(),
        password: "OldStrongPwd@123".to_string(),
    };

    let created_user = users_service.create(user_dto).expect("Error creando usuario");

    let change_pwd_dto = ChangePasswordDto {
        previous_password: "OldStrongPwd@123".to_string(),
        new_password: "weakpassword".to_string(),
    };

    let result = users_service.change_password(created_user.id.to_string(), change_pwd_dto);

    assert!(result.is_err(), "Debería fallar por nueva contraseña débil");
    let http_error = result.unwrap_err();
    assert_eq!(http_error.status, 400);
    assert_eq!(http_error.key, "client");
    assert_eq!(
        http_error.message,
        "La contraseña debe tener al menos: 1 minúscula, 1 mayúscula, 1 número y 1 caracter especial"
    );
}
