//! Registration and login decisions, with password hashing by `bcrypt`.
use vstd::prelude::*;
use bcrypt::BcryptError;
use crate::application::dto::{CreateUsuarioDto, UpdateUsuarioDto};
use crate::domain::entities::usuario::Usuario;
use crate::texto::{entero_a_texto, texto_entero};

verus! {

#[verifier::external_type_specification]
#[verifier::external_body]
pub struct ExBcryptError(BcryptError);

/// What `bcrypt::verify` returns for a password and a stored hash
/// (`None` where it fails, for a malformed hash).
pub uninterp spec fn verificacion_bcrypt(password: Seq<char>, hash: Seq<char>) -> Option<bool>;

/// `bcrypt::verify`: whether `password` matches the stored `hash`. The
/// result is named by `verificacion_bcrypt`.
#[verifier::external_body]
fn verificar_bcrypt(password: &str, hash: &str) -> (r: Result<bool, BcryptError>)
    ensures
        match r {
            Ok(b) => verificacion_bcrypt(password@, hash@) == Some(b),
            Err(_) => verificacion_bcrypt(password@, hash@) is None,
        },
{
    bcrypt::verify(password, hash)
}

/// The shape of a hash that `bcrypt::hash` writes at the default cost:
/// `$2b$12$`, then 22 chars of salt and 31 of hash (60 chars in all).
pub open spec fn es_hash_bcrypt(h: Seq<char>) -> bool {
    h.len() == 60 && h.take(7) == "$2b$12$"@
}

/// `bcrypt::hash` with `bcrypt::DEFAULT_COST`. The salt is random, so the
/// hash itself is not named; stated is what the source shows of it: a
/// hash that it returns verifies with the same password, and is written
/// `$2b$12$` followed by the salt and the hash in 53 chars.
#[verifier::external_body]
fn hashear_bcrypt(password: &str) -> (r: Result<String, BcryptError>)
    ensures
        r matches Ok(h) ==> verificacion_bcrypt(password@, h@) == Some(true),
        r matches Ok(h) ==> es_hash_bcrypt(h@),
{
    bcrypt::hash(password, bcrypt::DEFAULT_COST)
}

/// `Display` of a `BcryptError`: its message. Nothing is stated of the text.
#[verifier::external_body]
fn texto_error_bcrypt(e: &BcryptError) -> (r: String) {
    e.to_string()
}

/// A registration request.
#[derive(Clone, Debug)]
pub struct RegisterDto {
    pub username: String,
    pub email: String,
    pub nombre_completo: String,
    pub password: String,
}

/// The claims of a session token: the user's id as text, name, role and
/// expiry (a UNIX timestamp).
#[derive(Clone, Debug)]
pub struct Claims {
    pub sub: String,
    pub username: String,
    pub rol: String,
    pub exp: usize,
}

/// What a successful login returns.
#[derive(Clone, Debug)]
pub struct LoginResponse {
    pub token: String,
    pub usuario: UsuarioInfo,
}

/// The public data of a user.
#[derive(Clone, Debug)]
pub struct UsuarioInfo {
    pub id: i64,
    pub username: String,
    pub email: String,
    pub nombre_completo: String,
    pub rol: String,
}

/// Why registration or login was refused.
#[derive(Clone, Debug)]
pub enum ErrorAuth {
    /// No such user, or a wrong password.
    CredencialesInvalidas,
    /// The account awaits activation by an administrator.
    CuentaInactiva,
    /// Too many failed logins.
    CuentaBloqueada,
    /// The stored hash could not be checked; `bcrypt`'s message.
    ErrorVerificacion(String),
    /// The user name is taken.
    NombreEnUso(String),
    /// The password could not be hashed; `bcrypt`'s message.
    ErrorHash(String),
}

impl ErrorAuth {
    /// The message shown to the user.
    pub fn mensaje(&self) -> (r: String)
        ensures
            match self {
                ErrorAuth::CredencialesInvalidas => r@ == "Credenciales inválidas"@,
                ErrorAuth::CuentaInactiva => r@
                    == "La cuenta no está activa. Contacte al administrador para activarla."@,
                ErrorAuth::CuentaBloqueada => r@
                    == "La cuenta está bloqueada temporalmente por intentos fallidos."@,
                ErrorAuth::ErrorVerificacion(e) => r@ == "Error al verificar la contraseña: "@
                    + e@,
                ErrorAuth::NombreEnUso(u) => r@ == "El nombre de usuario '"@ + u@
                    + "' ya está en uso"@,
                ErrorAuth::ErrorHash(e) => r@ == "Error al hashear la contraseña: "@ + e@,
            },
    {
        match self {
            ErrorAuth::CredencialesInvalidas => String::from_str("Credenciales inválidas"),
            ErrorAuth::CuentaInactiva => String::from_str(
                "La cuenta no está activa. Contacte al administrador para activarla.",
            ),
            ErrorAuth::CuentaBloqueada => String::from_str(
                "La cuenta está bloqueada temporalmente por intentos fallidos.",
            ),
            ErrorAuth::ErrorVerificacion(e) => {
                let mut r = String::from_str("Error al verificar la contraseña: ");
                r.append(e.as_str());
                r
            },
            ErrorAuth::NombreEnUso(u) => {
                let mut r = String::from_str("El nombre de usuario '");
                r.append(u.as_str());
                r.append("' ya está en uso");
                r
            },
            ErrorAuth::ErrorHash(e) => {
                let mut r = String::from_str("Error al hashear la contraseña: ");
                r.append(e.as_str());
                r
            },
        }
    }
}

/// The public data of `u`.
pub open spec fn info_de(u: Usuario) -> UsuarioInfo {
    UsuarioInfo {
        id: u.id,
        username: u.username,
        email: u.email,
        nombre_completo: u.nombre_completo,
        rol: u.rol,
    }
}

/// The kind of outcome of a login, as `autenticar` decides it.
#[derive(Clone, Copy, Debug, PartialEq, Eq, Structural)]
pub enum DesenlaceLogin {
    Aceptado,
    SinCredenciales,
    Inactiva,
    Bloqueada,
    HashIlegible,
}

/// How a login of `usuario` (as found by name) with `password` ends: an
/// unknown user or a wrong password is refused alike; an inactive account,
/// then a locked one, is refused before the password is checked.
pub open spec fn desenlace_login(usuario: Option<Usuario>, password: Seq<char>) -> DesenlaceLogin {
    match usuario {
        None => DesenlaceLogin::SinCredenciales,
        Some(u) => if !u.activo {
            DesenlaceLogin::Inactiva
        } else if u.bloqueado() {
            DesenlaceLogin::Bloqueada
        } else {
            match verificacion_bcrypt(password, u.password@) {
                None => DesenlaceLogin::HashIlegible,
                Some(false) => DesenlaceLogin::SinCredenciales,
                Some(true) => DesenlaceLogin::Aceptado,
            }
        },
    }
}

/// Checks a login of `usuario` (the user found by name, if any) with
/// `password`; on success returns the user's public data.
pub fn autenticar(usuario: Option<Usuario>, password: &str) -> (r: Result<UsuarioInfo, ErrorAuth>)
    ensures
        match desenlace_login(usuario, password@) {
            DesenlaceLogin::Aceptado => r == Ok::<UsuarioInfo, ErrorAuth>(info_de(usuario.unwrap())) && (r matches Ok(
                info,
            ) && info.id == usuario.unwrap().id && info.username == usuario.unwrap().username && info.email
                == usuario.unwrap().email && info.nombre_completo == usuario.unwrap().nombre_completo
                && info.rol == usuario.unwrap().rol),
            DesenlaceLogin::SinCredenciales => r matches Err(ErrorAuth::CredencialesInvalidas),
            DesenlaceLogin::Inactiva => r matches Err(ErrorAuth::CuentaInactiva),
            DesenlaceLogin::Bloqueada => r matches Err(ErrorAuth::CuentaBloqueada),
            DesenlaceLogin::HashIlegible => r matches Err(ErrorAuth::ErrorVerificacion(_)),
        },
{
    let u = match usuario {
        Some(u) => u,
        None => {
            return Err(ErrorAuth::CredencialesInvalidas);
        },
    };
    if !u.activo {
        return Err(ErrorAuth::CuentaInactiva);
    }
    if u.is_locked() {
        return Err(ErrorAuth::CuentaBloqueada);
    }
    match verificar_bcrypt(password, u.password.as_str()) {
        Err(e) => Err(ErrorAuth::ErrorVerificacion(texto_error_bcrypt(&e))),
        Ok(false) => Err(ErrorAuth::CredencialesInvalidas),
        Ok(true) => Ok(
            UsuarioInfo {
                id: u.id,
                username: u.username,
                email: u.email,
                nombre_completo: u.nombre_completo,
                rol: u.rol,
            },
        ),
    }
}

/// A user created from `dto`, with role `usuario` and the password hashed.
pub open spec fn es_alta_de(c: CreateUsuarioDto, dto: RegisterDto) -> bool {
    &&& c.username == dto.username
    &&& c.email == dto.email
    &&& c.nombre_completo == dto.nombre_completo
    &&& c.rol@ == "usuario"@
    &&& verificacion_bcrypt(dto.password@, c.password@) == Some(true)
    &&& es_hash_bcrypt(c.password@)
}

/// The user to create for a registration: refused when the name is taken;
/// otherwise with role `usuario` and the password hashed (so that it
/// verifies with the password given).
pub fn preparar_registro(dto: RegisterDto, nombre_en_uso: bool) -> (r: Result<CreateUsuarioDto, ErrorAuth>)
    ensures
        nombre_en_uso ==> (r matches Err(ErrorAuth::NombreEnUso(u)) && u == dto.username),
        !nombre_en_uso ==> match r {
            Ok(c) => es_alta_de(c, dto),
            Err(e) => e is ErrorHash,
        },
{
    if nombre_en_uso {
        return Err(ErrorAuth::NombreEnUso(dto.username));
    }
    match hashear_bcrypt(dto.password.as_str()) {
        Err(e) => Err(ErrorAuth::ErrorHash(texto_error_bcrypt(&e))),
        Ok(hash) => Ok(
            CreateUsuarioDto {
                username: dto.username,
                email: dto.email,
                nombre_completo: dto.nombre_completo,
                password: hash,
                rol: String::from_str("usuario"),
            },
        ),
    }
}

/// The administrator created at start-up when none exists: `admin`, with
/// password `Admin123!` hashed.
pub fn admin_inicial() -> (r: Result<CreateUsuarioDto, ErrorAuth>)
    ensures
        match r {
            Ok(c) => c.username@ == "admin"@ && c.email@ == "admin@masfinance.com"@
                && c.nombre_completo@ == "Administrador del Sistema"@ && c.rol@ == "admin"@
                && verificacion_bcrypt("Admin123!"@, c.password@) == Some(true) && es_hash_bcrypt(c.password@),
            Err(e) => e is ErrorHash,
        },
{
    let password = "Admin123!";
    match hashear_bcrypt(password) {
        Err(e) => Err(ErrorAuth::ErrorHash(texto_error_bcrypt(&e))),
        Ok(hash) => Ok(
            CreateUsuarioDto {
                username: String::from_str("admin"),
                email: String::from_str("admin@masfinance.com"),
                nombre_completo: String::from_str("Administrador del Sistema"),
                password: hash,
                rol: String::from_str("admin"),
            },
        ),
    }
}

/// The change that activates (`true`) or deactivates a user and keeps the
/// rest.
pub fn cambio_de_activacion(activo: bool) -> (r: UpdateUsuarioDto)
    ensures
        r.username is None,
        r.email is None,
        r.nombre_completo is None,
        r.rol is None,
        r.activo == Some(activo),
{
    UpdateUsuarioDto { username: None, email: None, nombre_completo: None, rol: None, activo: Some(activo) }
}

/// The claims of a token for `u` that expires at `exp`.
pub fn claims_de(u: &Usuario, exp: usize) -> (r: Claims)
    ensures
        r.sub@ == texto_entero(u.id as int),
        r.username == u.username,
        r.rol == u.rol,
        r.exp == exp,
{
    Claims { sub: entero_a_texto(u.id), username: u.username.clone(), rol: u.rol.clone(), exp }
}

/// A user registered with `password` (and so holding its hash), once
/// active and not locked, logs in with that password.
pub proof fn ley_registro_permite_login(u: Usuario, password: Seq<char>)
    requires
        verificacion_bcrypt(password, u.password@) == Some(true),
        u.activo,
        !u.bloqueado(),
    ensures
        desenlace_login(Some(u), password) == DesenlaceLogin::Aceptado,
{
}

/// A login is accepted only for an active, unlocked user whose stored hash
/// verifies with the password.
pub proof fn ley_login_solo_con_password(usuario: Option<Usuario>, password: Seq<char>)
    requires
        desenlace_login(usuario, password) == DesenlaceLogin::Aceptado,
    ensures
        usuario matches Some(u) && u.activo && !u.bloqueado() && verificacion_bcrypt(
            password,
            u.password@,
        ) == Some(true),
{
}

/// The first user named `nombre` among `usuarios`, as a lookup by name
/// finds it.
pub open spec fn buscar_usuario(usuarios: Seq<Usuario>, nombre: Seq<char>) -> Option<Usuario>
    decreases usuarios.len(),
{
    if usuarios.len() == 0 {
        None
    } else if usuarios[0].username@ == nombre {
        Some(usuarios[0])
    } else {
        buscar_usuario(usuarios.drop_first(), nombre)
    }
}

/// At start-up, whether to create the administrator, given what a lookup
/// of the name `admin` found: only where it found none; then the user to
/// create is `admin_inicial`'s.
pub fn admin_a_crear(existente: &Option<Usuario>) -> (r: Option<Result<CreateUsuarioDto, ErrorAuth>>)
    ensures
        existente is Some ==> r is None,
        existente is None ==> (r matches Some(x) && match x {
            Ok(c) => c.username@ == "admin"@ && c.rol@ == "admin"@ && verificacion_bcrypt(
                "Admin123!"@,
                c.password@,
            ) == Some(true) && es_hash_bcrypt(c.password@),
            Err(e) => e is ErrorHash,
        }),
{
    match existente {
        Some(_) => None,
        None => Some(admin_inicial()),
    }
}

/// Once the administrator is stored, a lookup of `admin` finds a user, so
/// a later start-up creates no second one: whatever the other users, at
/// most one administrator is ever created.
pub proof fn ley_admin_una_sola_vez(usuarios: Seq<Usuario>, creado: Usuario)
    requires
        creado.username@ == "admin"@,
    ensures
        buscar_usuario(usuarios.push(creado), "admin"@) is Some,
    decreases usuarios.len(),
{
    if usuarios.len() > 0 && usuarios[0].username@ != "admin"@ {
        assert(usuarios.push(creado).drop_first() =~= usuarios.drop_first().push(creado));
        ley_admin_una_sola_vez(usuarios.drop_first(), creado);
    } else if usuarios.len() == 0 {
        assert(usuarios.push(creado)[0] == creado);
    } else {
        assert(usuarios.push(creado)[0] == usuarios[0]);
    }
}

/// An inactive account (a new registration, or a deactivated user) is
/// refused whatever the password, until it is activated.
pub proof fn ley_inactivo_no_entra(u: Usuario, password: Seq<char>)
    requires
        !u.activo,
    ensures
        desenlace_login(Some(u), password) == DesenlaceLogin::Inactiva,
{
}

/// A registration never stores the password itself, but its bcrypt hash:
/// the stored text differs from any password that is not itself written
/// as such a hash.
pub proof fn ley_alta_no_guarda_la_clave(c: CreateUsuarioDto, dto: RegisterDto)
    requires
        es_alta_de(c, dto),
        !es_hash_bcrypt(dto.password@),
    ensures
        c.password@ != dto.password@,
{
}

/// An accepted login returns the stored user's own public data: its id,
/// name, e-mail, full name and role, each in its own field.
pub proof fn ley_login_devuelve_sus_datos(u: Usuario, password: Seq<char>)
    requires
        desenlace_login(Some(u), password) == DesenlaceLogin::Aceptado,
    ensures
        info_de(u).id == u.id,
        info_de(u).username == u.username,
        info_de(u).email == u.email,
        info_de(u).nombre_completo == u.nombre_completo,
        info_de(u).rol == u.rol,
{
}

} // verus!
