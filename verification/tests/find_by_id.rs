use r_auth_api::config::{AppConfig, AuthConfig, DbConfig, Environment, PasswordHashingConfig};
use r_auth_api::dto::CreateUserDto;
use r_auth_api::service::UsersService;

fn test_service() -> UsersService {
    UsersService::new(AppConfig {
        password: PasswordHashingConfig { hash_length: 32, mem_cost: 1024, time_cost: 1, lanes: 1 },
        auth: AuthConfig { secret: "test-signing-secret".to_string() },
        db: DbConfig { database_url: String::new() },
        environment: Environment::Development,
    })
}

/// ---
///
/// ## Test Case 1: Búsqueda exitosa por ID existente
///
#[test]
fn test_find_by_id_success() {
    let mut users_service = test_service();

    let user_dto = CreateUserDto {
        username: "findbyid_success".to_string(),
        email: "findbyid_success@example.com".to_string(),
        password: "StrongPassword@123".to_string(),
    };

    let created_user = users_service.create(user_dto).expect("Fallo al crear usuario de prueba");

    let result = users_service.find_by_id(created_user.id);

    assert!(result.is_ok(), "La búsqueda por ID debería ser exitosa.");

    let found_user = result.unwrap();
    assert_eq!(found_user.id, created_user.id);
    assert_eq!(found_user.username, "findbyid_success");
    assert_eq!(found_user.email, "findbyid_success@example.com");
}

/// ---
///
/// ## Test Case 2: Error al buscar ID inexistente (Not Found)
///
#[test]
fn test_find_by_id_not_found() {
    let users_service = test_service();

    let result = users_service.find_by_id(99999);

    assert!(
        result.is_err(),
        "La búsqueda de un ID inexistente debería fallar con NotFound."
    );

    let http_error = result.unwrap_err();
    assert_eq!(http_error.status, 404);
    assert_eq!(http_error.key, "client");
    assert_eq!(http_error.message, "Usuario no encontrado");
}
