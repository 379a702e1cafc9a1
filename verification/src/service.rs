use vstd::prelude::*;
use crate::auth::{
    argon2_verifies, hash_password, spec_hashing_config_ok, validate_password, verify_password,
};
use crate::claims::{generate_jwt, jwt_payload, jwt_token, Claims};
use crate::clock::now_timestamp;
use crate::config::AppConfig;
use crate::dto::{ChangePasswordDto, CreateUserDto, LoginRequest, UpdateUserDto};
use crate::errors::{
    HttpError, STATUS_BAD_REQUEST, STATUS_CONFLICT, STATUS_NOT_FOUND, STATUS_UNAUTHORIZED,
};
use crate::models::{FindQuery, FindResult};
use crate::permissions::USER_PERMISSIONS;
use crate::store::{
    spec_apply_update, spec_column_of, spec_contains_email, spec_contains_id,
    spec_duplicate_exists, spec_idx_of_id, spec_other_has_column, spec_search_results,
    spec_user_by_email, spec_user_by_id, UserColumn, UserStore,
};
use crate::text::{
    id_to_string, parse_i64, spec_dec_str, spec_parse_i64, spec_strong_password, str_eq,
};
use crate::user::{User, STATUS_DELETED, STATUS_INACTIVE};

verus! {

/// Checks a caller-supplied column name against a fixed allow-list, so
/// no unvetted name ever reaches the store layer.
pub fn validate_query_key(allowed_keys: &[&str], key: &str) -> (r: Result<(), HttpError>)
    ensures
        r is Ok <==> exists|i: int|
            0 <= i < allowed_keys@.len() && (#[trigger] allowed_keys@[i])@ == key@,
        r matches Err(e) ==> e.status == STATUS_BAD_REQUEST && e.key@ == "client"@ && e.message@
            == key@ + ": Opción inválida"@,
{
    let n = allowed_keys.len();
    let mut i: usize = 0;
    while i < n
        invariant
            n == allowed_keys@.len(),
            0 <= i <= n,
            forall|j: int| 0 <= j < i ==> (#[trigger] allowed_keys@[j])@ != key@,
        decreases n - i,
    {
        if str_eq(allowed_keys[i], key) {
            return Ok(());
        }
        i += 1;
    }
    let mut message = key.to_owned();
    message.append(": Opción inválida");
    Err(HttpError::bad_request(message.as_str()))
}

/// The user-account service: the verified core of every account
/// operation, working over the store model and the process
/// configuration.
pub struct UsersService {
    pub config: AppConfig,
    pub store: UserStore,
}

impl UsersService {
    pub open spec fn wf(self) -> bool {
        self.store.wf()
    }

    /// The store is untouched between the two service states.
    pub open spec fn store_unchanged(self, pre: UsersService) -> bool {
        self.store.users@ == pre.store.users@ && self.store.next_id == pre.store.next_id
    }

    /// The bytes of the signing secret, as the token codec consumes
    /// them.
    pub open spec fn spec_secret(self) -> Seq<u8> {
        vstd::utf8::encode_utf8(self.config.auth.secret@)
    }

    pub fn new(config: AppConfig) -> (r: UsersService)
        ensures
            r.wf(),
            r.store.users@.len() == 0,
            r.store.next_id == 1,
            r.config == config,
    {
        UsersService { config, store: UserStore::new() }
    }

    /// Loads one record by id, credential hash redacted.
    pub fn find_by_id(&self, id: i64) -> (r: Result<User, HttpError>)
        requires
            self.wf(),
        ensures
            r is Ok <==> spec_contains_id(self.store.users@, id),
            r matches Ok(u) ==> u == spec_user_by_id(self.store.users@, id).spec_without_password()
                && u.id == id,
            r matches Err(e) ==> e.is(STATUS_NOT_FOUND, "client"@, "Usuario no encontrado"@),
    {
        match self.store.find_by_id(id) {
            Some(u) => Ok(u.without_password()),
            None => Err(HttpError::not_found("Usuario no encontrado")),
        }
    }

    /// Loads one record by id, credential hash included: the lookup the
    /// password-change path uses for re-verification.
    pub fn fetch(&self, id: i64) -> (r: Result<User, HttpError>)
        requires
            self.wf(),
        ensures
            r is Ok <==> spec_contains_id(self.store.users@, id),
            r matches Ok(u) ==> u == spec_user_by_id(self.store.users@, id) && u.id == id,
            r matches Err(e) ==> e.is(STATUS_NOT_FOUND, "client"@, "Usuario no encontrado"@),
    {
        match self.store.find_by_id(id) {
            Some(u) => Ok(u),
            None => Err(HttpError::not_found("Usuario no encontrado")),
        }
    }

    /// Loads one record by email, credential hash included: the lookup
    /// behind a login attempt. An unknown email is reported with the
    /// same uniform message as a wrong password, so the error never
    /// reveals whether the address exists.
    pub fn find_by_email(&self, email: &str) -> (r: Result<User, HttpError>)
        requires
            self.wf(),
        ensures
            r is Ok <==> spec_contains_email(self.store.users@, email@),
            r matches Ok(u) ==> u == spec_user_by_email(self.store.users@, email@) && u.email@
                == email@,
            r matches Err(e) ==> e.is(STATUS_UNAUTHORIZED, "client"@, "Credenciales inválidas"@),
    {
        match self.store.find_by_email(email) {
            Some(u) => Ok(u),
            None => Err(HttpError::unauthorized("Credenciales inválidas")),
        }
    }

    /// Creates an account inside one critical section: field validation,
    /// the password-strength policy, the uniqueness probe, hashing, and
    /// only then the insert, so that two concurrent creates with the
    /// same username or email can never both pass the check. The
    /// returned record has its credential hash redacted and starts
    /// active with the self-service permission grant.
    pub fn create(&mut self, dto: CreateUserDto) -> (r: Result<User, HttpError>)
        requires
            old(self).wf(),
        ensures
            final(self).wf(),
            final(self).config == old(self).config,
            r is Err ==> final(self).store_unchanged(*old(self)),
            !dto.spec_valid() ==> (r matches Err(e) && e.is(
                STATUS_BAD_REQUEST,
                "validation"@,
                dto.spec_error_message(),
            )),
            dto.spec_valid() && !spec_strong_password(dto.password@) ==> (r matches Err(e)
                && e.is(
                STATUS_BAD_REQUEST,
                "client"@,
                "La contraseña debe tener al menos: 1 minúscula, 1 mayúscula, 1 número y 1 caracter especial"@,
            )),
            dto.spec_valid() && spec_strong_password(dto.password@) && spec_duplicate_exists(
                old(self).store.users@,
                dto.username@,
                dto.email@,
            ) ==> (r matches Err(e) && e.is(
                STATUS_CONFLICT,
                "client"@,
                "Ya existe un usuario con ese nombre de usuario o email"@,
            )),
            dto.spec_valid() && spec_strong_password(dto.password@) && !spec_duplicate_exists(
                old(self).store.users@,
                dto.username@,
                dto.email@,
            ) && old(self).store.next_id < 0x7fffffffffffffff ==> (r is Ok || (r matches Err(e)
                && e.status == 500)),
            dto.spec_valid() && spec_strong_password(dto.password@) && !spec_duplicate_exists(
                old(self).store.users@,
                dto.username@,
                dto.email@,
            ) && old(self).store.next_id < 0x7fffffffffffffff && spec_hashing_config_ok(
                old(self).config.password,
            ) ==> r is Ok,
            r matches Ok(u) ==> ({
                let rec = final(self).store.users@.last();
                &&& dto.spec_valid()
                &&& spec_strong_password(dto.password@)
                &&& !spec_duplicate_exists(old(self).store.users@, dto.username@, dto.email@)
                &&& final(self).store.users@ == old(self).store.users@.push(rec)
                &&& final(self).store.next_id == old(self).store.next_id + 1
                &&& rec.id == old(self).store.next_id
                &&& rec.username == dto.username
                &&& rec.email == dto.email
                &&& rec.permissions == USER_PERMISSIONS
                &&& rec.status == 1
                &&& (rec.password matches Some(h) && argon2_verifies(h@, dto.password@))
                &&& u == rec.spec_without_password()
            }),
    {
        if let Err(e) = dto.validate() {
            return Err(e);
        }
        if let Err(e) = validate_password(dto.password.as_str()) {
            return Err(e);
        }
        if self.store.exists_by_username_or_email(dto.username.as_str(), dto.email.as_str()) {
            return Err(
                HttpError::conflict("Ya existe un usuario con ese nombre de usuario o email"),
            );
        }
        let password_hash = match hash_password(dto.password.as_str(), &self.config.password) {
            Ok(h) => h,
            Err(_) => {
                return Err(HttpError::internal_server_error());
            },
        };
        if self.store.next_id >= 0x7fffffffffffffff {
            return Err(HttpError::internal_server_error());
        }
        let now = now_timestamp();
        let id = self.store.insert(
            dto.username,
            dto.email,
            password_hash,
            USER_PERMISSIONS,
            now,
        );
        proof {
            let us = self.store.users@;
            assert(us.last() == us[us.len() - 1]);
            assert(us.last().id == id);
            assert(spec_contains_id(us, id));
            let k = spec_idx_of_id(us, id);
            assert(0 <= k < us.len() && us[k].id == id);
            assert(k == us.len() - 1);
        }
        match self.store.find_by_id(id) {
            Some(u) => Ok(u.without_password()),
            None => Err(HttpError::internal_server_error()),
        }
    }

    /// A login attempt: loads the account by email, re-verifies the
    /// password against the stored hash, and issues a token for one
    /// hour. Unknown email and wrong password are indistinguishable to
    /// the caller.
    pub fn login(&self, dto: LoginRequest) -> (r: Result<String, HttpError>)
        requires
            self.wf(),
        ensures
            !dto.spec_valid() ==> (r matches Err(e) && e.is(
                STATUS_BAD_REQUEST,
                "validation"@,
                dto.spec_error_message(),
            )),
            dto.spec_valid() && !spec_contains_email(self.store.users@, dto.email@)
                ==> (r matches Err(e) && e.is(
                STATUS_UNAUTHORIZED,
                "client"@,
                "Credenciales inválidas"@,
            )),
            dto.spec_valid() && spec_contains_email(self.store.users@, dto.email@) && ({
                let stored = spec_user_by_email(self.store.users@, dto.email@).password;
                stored matches Some(h) && !argon2_verifies(h@, dto.password@)
            }) ==> (r matches Err(e) && e.is(
                STATUS_UNAUTHORIZED,
                "client"@,
                "Credenciales inválidas"@,
            )),
            dto.spec_valid() && spec_contains_email(self.store.users@, dto.email@) && ({
                let stored = spec_user_by_email(self.store.users@, dto.email@).password;
                stored matches Some(h) && argon2_verifies(h@, dto.password@)
            }) ==> r is Ok,
            r matches Ok(t) ==> ({
                let user = spec_user_by_email(self.store.users@, dto.email@);
                &&& dto.spec_valid()
                &&& spec_contains_email(self.store.users@, dto.email@)
                &&& (user.password matches Some(h) && argon2_verifies(h@, dto.password@))
                &&& t@.len() > 0
                &&& exists|iat: u64, exp: u64|
                    #![trigger jwt_token(self.spec_secret(), spec_dec_str(user.id as int), iat, exp)]
                    t@ == jwt_token(self.spec_secret(), spec_dec_str(user.id as int), iat, exp)
                        && jwt_payload(self.spec_secret(), t@) == Some(
                        (spec_dec_str(user.id as int), iat, exp),
                    ) && exp == iat + 3600
            }),
    {
        if let Err(e) = dto.validate() {
            return Err(e);
        }
        let user = match self.find_by_email(dto.email.as_str()) {
            Ok(u) => u,
            Err(e) => {
                return Err(e);
            },
        };
        let hash = match &user.password {
            Some(h) => h,
            None => {
                return Err(HttpError::unauthorized("Credenciales inválidas"));
            },
        };
        if !verify_password(dto.password.as_str(), hash.as_str()) {
            return Err(HttpError::unauthorized("Credenciales inválidas"));
        }
        proof {
            let k = crate::store::spec_idx_of_email(self.store.users@, dto.email@);
            assert(0 <= k < self.store.users@.len() && self.store.users@[k].email@ == dto.email@);
            assert(self.store.users@[k].id > 0);
        }
        let subject = id_to_string(user.id);
        let claims = Claims::new(subject, 60);
        let result = generate_jwt(&claims, self.config.auth.secret.as_str().as_bytes());
        proof {
            match result {
                Ok(ref t) => {
                    assert(t@ == jwt_token(
                        self.spec_secret(),
                        spec_dec_str(user.id as int),
                        claims.iat,
                        claims.exp,
                    ));
                },
                Err(_) => {},
            }
        }
        result
    }

    /// Updates the supplied fields of one record inside one critical
    /// section: existence check, then a per-column duplicate probe
    /// excluding the record itself, and only then the write. A request
    /// that supplies no field at all is rejected without touching the
    /// store.
    pub fn update(&mut self, dto: UpdateUserDto) -> (r: Result<User, HttpError>)
        requires
            old(self).wf(),
        ensures
            final(self).wf(),
            final(self).config == old(self).config,
            r is Err ==> final(self).store_unchanged(*old(self)),
            !dto.spec_valid() ==> (r matches Err(e) && e.is(
                STATUS_BAD_REQUEST,
                "validation"@,
                dto.spec_error_message(),
            )),
            dto.spec_valid() && dto.id is None ==> (r matches Err(e) && e.is(
                STATUS_UNAUTHORIZED,
                "client"@,
                "Id de usuario inválido"@,
            )),
            dto.id matches Some(id) ==> ((dto.spec_valid() && !spec_contains_id(
                old(self).store.users@,
                id,
            )) ==> (r matches Err(e) && e.is(
                STATUS_NOT_FOUND,
                "client"@,
                "Usuario no encontrado"@,
            ))),
            dto.id matches Some(id) ==> (dto.username matches Some(u) ==> ((dto.spec_valid()
                && spec_contains_id(old(self).store.users@, id) && spec_other_has_column(
                old(self).store.users@,
                UserColumn::Username,
                u@,
                id,
            )) ==> (r matches Err(e) && e.is(
                STATUS_CONFLICT,
                "client"@,
                "Ya existe otro usuario con ese username"@,
            )))),
            dto.id matches Some(id) ==> (dto.email matches Some(em) ==> ((dto.spec_valid()
                && spec_contains_id(old(self).store.users@, id) && (match dto.username {
                Some(u) => !spec_other_has_column(
                    old(self).store.users@,
                    UserColumn::Username,
                    u@,
                    id,
                ),
                None => true,
            }) && spec_other_has_column(
                old(self).store.users@,
                UserColumn::Email,
                em@,
                id,
            )) ==> (r matches Err(e) && e.is(
                STATUS_CONFLICT,
                "client"@,
                "Ya existe otro usuario con ese email"@,
            )))),
            dto.id matches Some(id) ==> ((dto.spec_valid() && spec_contains_id(
                old(self).store.users@,
                id,
            ) && dto.username is None && dto.email is None && dto.permissions is None) ==> (
            r matches Err(e) && e.is(
                STATUS_BAD_REQUEST,
                "client"@,
                "No hay campos para actualizar"@,
            ))),
            dto.id matches Some(id) ==> ((dto.spec_valid() && spec_contains_id(
                old(self).store.users@,
                id,
            ) && (match dto.username {
                Some(un) => !spec_other_has_column(
                    old(self).store.users@,
                    UserColumn::Username,
                    un@,
                    id,
                ),
                None => true,
            }) && (match dto.email {
                Some(em) => !spec_other_has_column(
                    old(self).store.users@,
                    UserColumn::Email,
                    em@,
                    id,
                ),
                None => true,
            }) && (dto.username is Some || dto.email is Some || dto.permissions is Some))
                ==> r is Ok),
            r matches Ok(u) ==> ({
                let id = dto.id->0;
                let i = spec_idx_of_id(old(self).store.users@, id);
                &&& dto.spec_valid()
                &&& dto.id is Some
                &&& spec_contains_id(old(self).store.users@, id)
                &&& (dto.username is Some || dto.email is Some || dto.permissions is Some)
                &&& (match dto.username {
                    Some(un) => !spec_other_has_column(
                        old(self).store.users@,
                        UserColumn::Username,
                        un@,
                        id,
                    ),
                    None => true,
                })
                &&& (match dto.email {
                    Some(em) => !spec_other_has_column(
                        old(self).store.users@,
                        UserColumn::Email,
                        em@,
                        id,
                    ),
                    None => true,
                })
                &&& exists|ts: u64|
                    {
                        let updated = #[trigger] spec_apply_update(
                            old(self).store.users@[i],
                            dto.username,
                            dto.email,
                            dto.permissions,
                            ts,
                        );
                        final(self).store.users@ == old(self).store.users@.update(i, updated) && u
                            == updated.spec_without_password()
                    }
                &&& final(self).store.next_id == old(self).store.next_id
            }),
    {
        if let Err(e) = dto.validate() {
            return Err(e);
        }
        let id = match dto.id {
            Some(i) => i,
            None => {
                return Err(HttpError::unauthorized("Id de usuario inválido"));
            },
        };
        if !self.store.contains_id(id) {
            return Err(HttpError::not_found("Usuario no encontrado"));
        }
        match &dto.username {
            Some(username) => {
                if self.store.exists_by_column_excluding_id(
                    &UserColumn::Username,
                    username.as_str(),
                    id,
                ) {
                    return Err(HttpError::conflict("Ya existe otro usuario con ese username"));
                }
            },
            None => {},
        }
        match &dto.email {
            Some(email) => {
                if self.store.exists_by_column_excluding_id(&UserColumn::Email, email.as_str(), id)
                    {
                    return Err(HttpError::conflict("Ya existe otro usuario con ese email"));
                }
            },
            None => {},
        }
        if dto.username.is_none() && dto.email.is_none() && dto.permissions.is_none() {
            return Err(HttpError::bad_request("No hay campos para actualizar"));
        }
        let now = now_timestamp();
        match self.store.update_fields(id, dto.username, dto.email, dto.permissions, now) {
            Some(u) => Ok(u.without_password()),
            None => Err(HttpError::not_found("Usuario no encontrado")),
        }
    }

    /// Changes the account password: never a blind write. The previous
    /// password is re-verified against the stored hash, reuse of the
    /// identical password is rejected, the strength policy is enforced
    /// on the new value, and only then is the hash replaced.
    pub fn change_password(&mut self, user_id: String, dto: ChangePasswordDto) -> (r: Result<
        (),
        HttpError,
    >)
        requires
            old(self).wf(),
        ensures
            final(self).wf(),
            final(self).config == old(self).config,
            r is Err ==> final(self).store_unchanged(*old(self)),
            !dto.spec_valid() ==> (r matches Err(e) && e.is(
                STATUS_BAD_REQUEST,
                "validation"@,
                "new_password: La nueva contraseña debe tener entre 8 y 64 caracteres"@,
            )),
            dto.spec_valid() && spec_parse_i64(user_id@) is None ==> (r matches Err(e) && e.is(
                STATUS_BAD_REQUEST,
                "client"@,
                "Id de usuario inválido"@,
            )),
            dto.spec_valid() && spec_parse_i64(user_id@) is Some && dto.previous_password@
                == dto.new_password@ ==> (r matches Err(e) && e.is(
                STATUS_BAD_REQUEST,
                "client"@,
                "La contraseña nueva no puede ser igual a la contraseña antigua"@,
            )),
            spec_parse_i64(user_id@) matches Some(id) ==> ((dto.spec_valid()
                && dto.previous_password@ != dto.new_password@ && !spec_contains_id(
                old(self).store.users@,
                id,
            )) ==> (r matches Err(e) && e.is(
                STATUS_NOT_FOUND,
                "client"@,
                "Usuario no encontrado"@,
            ))),
            spec_parse_i64(user_id@) matches Some(id) ==> ((dto.spec_valid()
                && dto.previous_password@ != dto.new_password@ && spec_contains_id(
                old(self).store.users@,
                id,
            ) && ({
                let stored = spec_user_by_id(old(self).store.users@, id).password;
                stored matches Some(h) && !argon2_verifies(h@, dto.previous_password@)
            })) ==> (r matches Err(e) && e.is(
                STATUS_UNAUTHORIZED,
                "client"@,
                "Credenciales inválidas"@,
            ))),
            spec_parse_i64(user_id@) matches Some(id) ==> ((dto.spec_valid()
                && dto.previous_password@ != dto.new_password@ && spec_contains_id(
                old(self).store.users@,
                id,
            ) && ({
                let stored = spec_user_by_id(old(self).store.users@, id).password;
                stored matches Some(h) && argon2_verifies(h@, dto.previous_password@)
            }) && !spec_strong_password(dto.new_password@)) ==> (r matches Err(e) && e.is(
                STATUS_BAD_REQUEST,
                "client"@,
                "La contraseña debe tener al menos: 1 minúscula, 1 mayúscula, 1 número y 1 caracter especial"@,
            ))),
            spec_parse_i64(user_id@) matches Some(id) ==> ((dto.spec_valid()
                && dto.previous_password@ != dto.new_password@ && spec_contains_id(
                old(self).store.users@,
                id,
            ) && ({
                let stored = spec_user_by_id(old(self).store.users@, id).password;
                stored matches Some(h) && argon2_verifies(h@, dto.previous_password@)
            }) && spec_strong_password(dto.new_password@)) ==> (r is Ok || (r matches Err(e)
                && e.status == 500))),
            spec_parse_i64(user_id@) matches Some(id) ==> ((dto.spec_valid()
                && dto.previous_password@ != dto.new_password@ && spec_contains_id(
                old(self).store.users@,
                id,
            ) && ({
                let stored = spec_user_by_id(old(self).store.users@, id).password;
                stored matches Some(h) && argon2_verifies(h@, dto.previous_password@)
            }) && spec_strong_password(dto.new_password@) && spec_hashing_config_ok(
                old(self).config.password,
            )) ==> r is Ok),
            r is Ok ==> ({
                let id = spec_parse_i64(user_id@)->0;
                let i = spec_idx_of_id(old(self).store.users@, id);
                &&& dto.spec_valid()
                &&& spec_parse_i64(user_id@) is Some
                &&& dto.previous_password@ != dto.new_password@
                &&& spec_contains_id(old(self).store.users@, id)
                &&& spec_strong_password(dto.new_password@)
                &&& final(self).store.users@ == old(self).store.users@.update(
                    i,
                    (User {
                        password: final(self).store.users@[i].password,
                        ..old(self).store.users@[i]
                    }),
                )
                &&& (final(self).store.users@[i].password matches Some(h) && argon2_verifies(
                    h@,
                    dto.new_password@,
                ))
                &&& final(self).store.next_id == old(self).store.next_id
            }),
    {
        if let Err(e) = dto.validate() {
            return Err(e);
        }
        let id = match parse_i64(user_id.as_str()) {
            Some(i) => i,
            None => {
                return Err(HttpError::bad_request("Id de usuario inválido"));
            },
        };
        if str_eq(dto.previous_password.as_str(), dto.new_password.as_str()) {
            return Err(
                HttpError::bad_request(
                    "La contraseña nueva no puede ser igual a la contraseña antigua",
                ),
            );
        }
        let user = match self.fetch(id) {
            Ok(u) => u,
            Err(e) => {
                return Err(e);
            },
        };
        let hash = match &user.password {
            Some(h) => h,
            None => {
                return Err(HttpError::internal_server_error());
            },
        };
        if !verify_password(dto.previous_password.as_str(), hash.as_str()) {
            return Err(HttpError::unauthorized("Credenciales inválidas"));
        }
        if let Err(e) = validate_password(dto.new_password.as_str()) {
            return Err(e);
        }
        let new_hash = match hash_password(dto.new_password.as_str(), &self.config.password) {
            Ok(h) => h,
            Err(_) => {
                return Err(HttpError::internal_server_error());
            },
        };
        self.store.update_password(id, new_hash);
        Ok(())
    }

    /// The paginated search: matches one allow-listed column, rendered
    /// as text, against the query value as a case-insensitive substring,
    /// and returns the requested page together with the total count.
    /// Returned records carry neither credential hash nor permission
    /// bits.
    pub fn find(&self, dto: FindQuery) -> (r: Result<FindResult<User>, HttpError>)
        requires
            self.wf(),
        ensures
            !dto.spec_valid() ==> (r matches Err(e) && e.is(
                STATUS_BAD_REQUEST,
                "validation"@,
                dto.spec_error_message(),
            )),
            dto.spec_valid() ==> ({
                let key = match dto.query_key {
                    Some(k) => k@,
                    None => "id"@,
                };
                match spec_column_of(key) {
                    None => (r matches Err(e) && e.status == STATUS_BAD_REQUEST && e.key@
                        == "client"@ && e.message@ == key + ": Opción inválida"@),
                    Some(col) => ({
                        let value = match dto.query_value {
                            Some(v) => v@,
                            None => ""@,
                        };
                        let limit = match dto.limit {
                            Some(l) => l as int,
                            None => 100,
                        };
                        let page = match dto.page {
                            Some(p) => p as int,
                            None => 1,
                        };
                        let offset = limit * (page - 1);
                        let all = spec_search_results(self.store.users@, col, value);
                        r matches Ok(fr) && fr.total == all.len() && fr.results@ == all.subrange(
                            vstd::math::min(offset, all.len() as int),
                            vstd::math::min(offset + limit, all.len() as int),
                        )
                    }),
                }
            }),
    {
        if let Err(e) = dto.validate() {
            return Err(e);
        }
        let key: &str = match &dto.query_key {
            Some(k) => k.as_str(),
            None => "id",
        };
        let value: &str = match &dto.query_value {
            Some(v) => v.as_str(),
            None => "",
        };
        let col: UserColumn = if str_eq(key, "id") {
            UserColumn::Id
        } else if str_eq(key, "username") {
            UserColumn::Username
        } else if str_eq(key, "email") {
            UserColumn::Email
        } else {
            let mut message = key.to_owned();
            message.append(": Opción inválida");
            return Err(HttpError::bad_request(message.as_str()));
        };
        let limit: i32 = match dto.limit {
            Some(l) => l,
            None => 100,
        };
        let page: i32 = match dto.page {
            Some(p) => p,
            None => 1,
        };
        proof {
            assert(0 <= (limit as int) * ((page as int) - 1) <= 0x100000000000000)
                by (nonlinear_arith)
                requires
                    1 <= limit <= 100,
                    1 <= page <= 0x7fffffff,
            ;
        }
        let offset: i64 = (limit as i64) * ((page as i64) - 1);
        let (results, total) = self.store.search(&col, value, offset, limit as i64);
        Ok(FindResult { results, total })
    }

    /// The status-transition write shared by deactivation and deletion:
    /// an existence check, then a single-field status write.
    fn set_user_status(&mut self, id: i64, status: i32) -> (r: Result<(), HttpError>)
        requires
            old(self).wf(),
        ensures
            final(self).wf(),
            final(self).config == old(self).config,
            r is Ok <==> spec_contains_id(old(self).store.users@, id),
            r matches Err(e) ==> e.is(STATUS_NOT_FOUND, "client"@, "Usuario no encontrado"@)
                && final(self).store_unchanged(*old(self)),
            r is Ok ==> ({
                let i = spec_idx_of_id(old(self).store.users@, id);
                final(self).store.users@ == old(self).store.users@.update(
                    i,
                    (User { status: status, ..old(self).store.users@[i] }),
                ) && final(self).store.next_id == old(self).store.next_id
            }),
    {
        if !self.store.contains_id(id) {
            return Err(HttpError::not_found("Usuario no encontrado"));
        }
        self.store.update_status(id, status);
        Ok(())
    }

    /// Deactivates the account: a one-way transition to the inactive
    /// status in the exposed operations.
    pub fn inactive(&mut self, id: i64) -> (r: Result<(), HttpError>)
        requires
            old(self).wf(),
        ensures
            final(self).wf(),
            final(self).config == old(self).config,
            r is Ok <==> spec_contains_id(old(self).store.users@, id),
            r matches Err(e) ==> e.is(STATUS_NOT_FOUND, "client"@, "Usuario no encontrado"@)
                && final(self).store_unchanged(*old(self)),
            r is Ok ==> ({
                let i = spec_idx_of_id(old(self).store.users@, id);
                final(self).store.users@ == old(self).store.users@.update(
                    i,
                    (User { status: 2, ..old(self).store.users@[i] }),
                ) && final(self).store.next_id == old(self).store.next_id
            }),
    {
        self.set_user_status(id, STATUS_INACTIVE)
    }

    /// Marks the account deleted: to every later lookup it is
    /// indistinguishable from a nonexistent one.
    pub fn delete(&mut self, id: i64) -> (r: Result<(), HttpError>)
        requires
            old(self).wf(),
        ensures
            final(self).wf(),
            final(self).config == old(self).config,
            r is Ok <==> spec_contains_id(old(self).store.users@, id),
            r matches Err(e) ==> e.is(STATUS_NOT_FOUND, "client"@, "Usuario no encontrado"@)
                && final(self).store_unchanged(*old(self)),
            r is Ok ==> ({
                let i = spec_idx_of_id(old(self).store.users@, id);
                final(self).store.users@ == old(self).store.users@.update(
                    i,
                    (User { status: 3, ..old(self).store.users@[i] }),
                ) && final(self).store.next_id == old(self).store.next_id
            }),
    {
        self.set_user_status(id, STATUS_DELETED)
    }
}

/// Exactly-once duplicate detection under concurrent creates. The
/// store's transaction isolation serializes two concurrent creates of
/// the same username (or email) in some order; whichever commits first
/// appends its record, and this lemma shows that the other's uniqueness
/// probe then finds a duplicate, which `create` reports as a conflict —
/// so the two requests yield exactly one success and one conflict,
/// never two successes.
pub proof fn lemma_concurrent_create_conflicts(
    users: Seq<User>,
    rec: User,
    username: Seq<char>,
    email: Seq<char>,
)
    requires
        rec.username@ == username || rec.email@ == email,
    ensures
        spec_duplicate_exists(users.push(rec), username, email),
{
    assert(users.push(rec)[users.len() as int] == rec);
}

} // verus!
