use r_auth_api::config::{AppConfig, AuthConfig, DbConfig, Environment, PasswordHashingConfig};
use r_auth_api::dto::CreateUserDto;
use r_auth_api::auth::verify_password;
use r_auth_api::service::UsersService;

fn test_service() -> UsersService {
    UsersService::new(AppConfig {
        password: PasswordHashingConfig { hash_length: 32, mem_cost: 1024, time_cost: 1, lanes: 1 },
        auth: AuthConfig { secret: "test-signing-secret".to_string() },
        db: DbConfig { database_url: String::new() },
        environment: Environment::Development,
    })
}

/// ---
///
/// ## Test Case 1: Creación exitosa de un nuevo usuario
///
#[test]
fn test_create_user_success() {
    let mut users_service = test_service();

    let username = "testuser".to_string();
    let email = "test@example.com".to_string();
    let password = "SecurePassword@123".to_string();

    let new_user_dto = CreateUserDto {
        username: username.clone(),
        email: email.clone(),
        password: password.clone(),
    };

    let result = users_service.create(new_user_dto);

    assert!(result.is_ok(), "La creación del usuario debería ser exitosa.");

    let created_user = result.unwrap();
    assert_eq!(created_user.username, username.clone());
    assert_eq!(created_user.email, email.clone());
    assert!(created_user.id > 0, "El ID del usuario debería ser mayor que 0");
    assert!(
        created_user.password.is_none(),
        "La contraseña no debería estar presente en la respuesta al usuario (por seguridad)"
    );

    let stored = users_service
        .fetch(created_user.id)
        .expect("Fallo al consultar el usuario creado");
    assert_eq!(stored.username, username.clone());
    assert_eq!(stored.email, email.clone());

    let password_hash = stored.password.expect("El hash de la contraseña debería estar almacenado");
    assert!(
        !password_hash.is_empty(),
        "El hash de la contraseña no debería estar vacío en la base de datos."
    );
    assert!(
        verify_password(&password, &password_hash),
        "La contraseña almacenada no coincide con la original."
    )
}

/// ---
///
/// ## Test Case 2: Intentar crear un usuario con un nombre de usuario duplicado
///
#[test]
fn test_create_user_duplicate_username() {
    let mut users_service = test_service();

    let username = "testuser_existing".to_string();
    let email = "testexisting@example.com".to_string();
    let password = "SecurePassword@123!".to_string();

    let first_user_dto = CreateUserDto {
        username: username.clone(),
        email: email.clone(),
        password: password.clone(),
    };

    users_service
        .create(first_user_dto)
        .expect("Fallo al crear usuario de pruebas");

    let duplicate_user_dto = CreateUserDto {
        username: username.clone(),
        email: "anotheremail@example.com".to_string(),
        password: password.clone(),
    };

    let result = users_service.create(duplicate_user_dto);

    assert!(
        result.is_err(),
        "La creación del usuario debería fallar debido a un nombre de usuario duplicado."
    );
    let http_error = result.unwrap_err();

    assert_eq!(http_error.status, 409);
    assert_eq!(http_error.key, "client");
    assert_eq!(
        http_error.message,
        "Ya existe un usuario con ese nombre de usuario o email"
    );
}

/// ---
///
/// ## Test Case 3: Intentar crear un usuario con un email duplicado
///
#[test]
fn test_create_user_duplicate_email() {
    let mut users_service = test_service();

    let username = "testuser_existing2".to_string();
    let email = "testexisting2@example.com".to_string();
    let password = "SecurePassword@123!".to_string();

    let first_user_dto = CreateUserDto {
        username: username.clone(),
        email: email.clone(),
        password: password.clone(),
    };

    users_service
        .create(first_user_dto)
        .expect("Fallo al crear usuario de pruebas");

    let duplicate_user_dto = CreateUserDto {
        username: "anotheruser2".to_string(),
        email: email.clone(),
        password: password.clone(),
    };

    let result = users_service.create(duplicate_user_dto);

    assert!(
        result.is_err(),
        "La creación del usuario debería fallar debido a un eail duplicado."
    );
    let http_error = result.unwrap_err();
    assert_eq!(http_error.status, 409);
    assert_eq!(http_error.key, "client");
    assert_eq!(
        http_error.message,
        "Ya existe un usuario con ese nombre de usuario o email"
    );
}

/// ---
///
/// ## Test Case 4: Intentar crear un usuario con una contraseña débil
///
#[test]
fn test_create_user_weak_password() {
    let mut users_service = test_service();

    let username = "weakpwduser".to_string();
    let email = "weaktest@example.com".to_string();
    let password = "shortpwd".to_string();

    let user_dto = CreateUserDto {
        username: username.clone(),
        email: email.clone(),
        password: password.clone(),
    };

    let result = users_service.create(user_dto);

    assert!(
        result.is_err(),
        "La creación del usuario debería fallar por contraseña débil."
    );
    let http_error = result.unwrap_err();
    assert_eq!(http_error.status, 400);
    assert_eq!(http_error.key, "client");
    assert_eq!(
        http_error.message,
        "La contraseña debe tener al menos: 1 minúscula, 1 mayúscula, 1 número y 1 caracter especial"
    );
}

/// ---
///
/// ## Test Case 5: Intentar crear un usuario con DTO inválido (ej. email mal formateado)
///
#[test]
fn test_create_user_invalid_dto() {
    let mut users_service = test_service();

    let username = "invalidemail".to_string();
    let email = "invalid-email".to_string();
    let password = "ValidPassword@123".to_string();

    let user_dto = CreateUserDto {
        username: username.clone(),
        email: email.clone(),
        password: password.clone(),
    };

    let result = users_service.create(user_dto);

    assert!(
        result.is_err(),
        "La creación del usuario debería fallar por DTO inválido."
    );
    let http_error = result.unwrap_err();
    assert_eq!(http_error.status, 400);
    assert_eq!(http_error.key, "validation");
    assert_eq!(
        http_error.message,
        "email: El correo electrónico es obligatorio"
    );
}
