//! The data of the login, registration and user-administration pages.
use vstd::prelude::*;
use crate::application::services::auth_service::RegisterDto;
use crate::domain::entities::usuario::Usuario;

verus! {

/// The login page, with the error of a failed attempt.
#[derive(Clone, Debug)]
pub struct LoginTemplate {
    pub login_error: Option<String>,
}

/// The registration page, with its outcome.
#[derive(Clone, Debug)]
pub struct RegisterTemplate {
    pub register_error: Option<String>,
    pub register_success: Option<String>,
}

/// The page where an administrator activates users.
#[derive(Clone, Debug)]
pub struct AdminUsersTemplate {
    pub title: String,
    pub users: Vec<Usuario>,
}

/// The login form.
#[derive(Clone, Debug)]
pub struct LoginForm {
    pub username: String,
    pub password: String,
}

/// The registration form.
#[derive(Clone, Debug)]
pub struct RegisterForm {
    pub username: String,
    pub email: String,
    pub nombre_completo: String,
    pub password: String,
}

impl RegisterForm {
    /// The registration request of the form, field by field.
    pub fn a_dto(self) -> (r: RegisterDto)
        ensures
            r.username == self.username,
            r.email == self.email,
            r.nombre_completo == self.nombre_completo,
            r.password == self.password,
    {
        RegisterDto {
            username: self.username,
            email: self.email,
            nombre_completo: self.nombre_completo,
            password: self.password,
        }
    }
}

/// The query of the login page.
#[derive(Clone, Debug)]
pub struct LoginQuery {
    pub redirect: Option<String>,
}

/// The message shown after a successful registration.
pub fn mensaje_registro_exitoso() -> (r: String)
    ensures
        r@ == "¡Registro exitoso! Un administrador debe activar tu cuenta antes de poder iniciar sesión."@,
{
    String::from_str(
        "¡Registro exitoso! Un administrador debe activar tu cuenta antes de poder iniciar sesión.",
    )
}

/// The registration page after an attempt: the success message, or the error.
pub fn pagina_tras_registro(error: Option<String>) -> (r: RegisterTemplate)
    ensures
        error is Some ==> r.register_error == error && r.register_success is None,
        error is None ==> r.register_error is None && (r.register_success matches Some(m) && m@
            == "¡Registro exitoso! Un administrador debe activar tu cuenta antes de poder iniciar sesión."@),
{
    match error {
        Some(e) => RegisterTemplate { register_error: Some(e), register_success: None },
        None => RegisterTemplate { register_error: None, register_success: Some(mensaje_registro_exitoso()) },
    }
}

} // verus!
