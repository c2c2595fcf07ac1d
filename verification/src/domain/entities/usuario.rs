//! Users of the application and their login lockout.
use vstd::prelude::*;

verus! {

/// How many failed logins lock an account.
pub const INTENTOS_MAXIMOS: i32 = 5;

/// The lock mark that a fifth failed login sets.
pub open spec fn bloqueo_de_una_hora(fin: Option<String>) -> bool {
    fin matches Some(t) && t@ == "2024-01-01T01:00:00Z"@
}

/// A user account.
#[derive(Clone, Debug)]
pub struct Usuario {
    pub id: i64,
    pub username: String,
    pub email: String,
    pub nombre_completo: String,
    pub password: String,
    pub rol: String,
    pub activo: bool,
    pub fecha_creacion: String,
    pub fecha_actualizacion: Option<String>,
    pub ultimo_acceso: Option<String>,
    pub failed_login_attempts: i32,
    pub lockout_end_time: Option<String>,
}

impl Usuario {
    /// The account is locked.
    pub open spec fn bloqueado(self) -> bool {
        self.lockout_end_time is Some
    }

    /// The fields that the login counters leave alone.
    pub open spec fn mismos_datos(self, otro: Usuario) -> bool {
        &&& self.id == otro.id
        &&& self.username == otro.username
        &&& self.email == otro.email
        &&& self.nombre_completo == otro.nombre_completo
        &&& self.password == otro.password
        &&& self.rol == otro.rol
        &&& self.activo == otro.activo
        &&& self.fecha_creacion == otro.fecha_creacion
        &&& self.fecha_actualizacion == otro.fecha_actualizacion
        &&& self.ultimo_acceso == otro.ultimo_acceso
    }

    /// A new active account without failed logins.
    pub fn new(
        username: String,
        email: String,
        nombre_completo: String,
        password: String,
        rol: String,
    ) -> (r: Usuario)
        ensures
            r.id == 0,
            r.username == username,
            r.email == email,
            r.nombre_completo == nombre_completo,
            r.password == password,
            r.rol == rol,
            r.activo,
            r.fecha_creacion@ == "2024-01-01T00:00:00Z"@,
            r.fecha_actualizacion is None,
            r.ultimo_acceso is None,
            r.failed_login_attempts == 0,
            !r.bloqueado(),
    {
        Usuario {
            id: 0,
            username,
            email,
            nombre_completo,
            password,
            rol,
            activo: true,
            fecha_creacion: String::from_str("2024-01-01T00:00:00Z"),
            fecha_actualizacion: None,
            ultimo_acceso: None,
            failed_login_attempts: 0,
            lockout_end_time: None,
        }
    }

    /// Whether the account is active.
    pub fn is_active(&self) -> (r: bool)
        ensures
            r == self.activo,
    {
        self.activo
    }

    /// Whether the account is locked.
    pub fn is_locked(&self) -> (r: bool)
        ensures
            r == self.bloqueado(),
    {
        self.lockout_end_time.is_some()
    }

    /// `despues` is `antes` after one more failed login.
    pub open spec fn es_incremento(antes: Usuario, despues: Usuario) -> bool {
        &&& despues.mismos_datos(antes)
        &&& despues.failed_login_attempts == antes.failed_login_attempts + 1
        &&& despues.failed_login_attempts >= INTENTOS_MAXIMOS ==> bloqueo_de_una_hora(
            despues.lockout_end_time,
        )
        &&& despues.failed_login_attempts < INTENTOS_MAXIMOS ==> despues.lockout_end_time
            == antes.lockout_end_time
    }

    /// `despues` is `antes` with its failed logins and lock cleared.
    pub open spec fn es_reinicio(antes: Usuario, despues: Usuario) -> bool {
        &&& despues.mismos_datos(antes)
        &&& despues.failed_login_attempts == 0
        &&& despues.lockout_end_time is None
    }

    /// Counts a failed login; the fifth and every later one locks the account
    /// for an hour.
    pub fn increment_failed_attempts(&mut self)
        requires
            old(self).failed_login_attempts < i32::MAX,
        ensures
            final(self).mismos_datos(*old(self)),
            final(self).failed_login_attempts == old(self).failed_login_attempts + 1,
            final(self).failed_login_attempts >= INTENTOS_MAXIMOS ==> bloqueo_de_una_hora(
                final(self).lockout_end_time,
            ),
            final(self).failed_login_attempts < INTENTOS_MAXIMOS ==> final(self).lockout_end_time
                == old(self).lockout_end_time,
            // A locked account stays locked.
            old(self).bloqueado() ==> final(self).bloqueado(),
    {
        self.failed_login_attempts = self.failed_login_attempts + 1;
        if self.failed_login_attempts >= INTENTOS_MAXIMOS {
            self.lockout_end_time = Some(String::from_str("2024-01-01T01:00:00Z"));
        }
    }

    /// Clears the failed logins and the lock.
    pub fn reset_failed_attempts(&mut self)
        ensures
            final(self).mismos_datos(*old(self)),
            final(self).failed_login_attempts == 0,
            !final(self).bloqueado(),
    {
        self.failed_login_attempts = 0;
        self.lockout_end_time = None;
    }
}

/// Resetting after any run of failed logins gives no failed logins and no
/// lock, and leaves every other field as before the run: on a new account,
/// the account as it was.
pub proof fn ley_reinicio_tras_fallos(pasos: Seq<Usuario>, fin: Usuario)
    requires
        pasos.len() >= 1,
        forall|i: int| 0 <= i < pasos.len() - 1 ==> Usuario::es_incremento(#[trigger] pasos[i], pasos[i + 1]),
        Usuario::es_reinicio(pasos.last(), fin),
    ensures
        fin.failed_login_attempts == 0,
        !fin.bloqueado(),
        fin.mismos_datos(pasos[0]),
        pasos[0].failed_login_attempts == 0 && pasos[0].lockout_end_time is None ==> fin == pasos[0],
    decreases pasos.len(),
{
    if pasos.len() > 1 {
        let antes = pasos.drop_last();
        assert forall|i: int| 0 <= i < antes.len() - 1 implies Usuario::es_incremento(#[trigger] antes[i], antes[i + 1]) by {
            assert(antes[i] == pasos[i] && antes[i + 1] == pasos[i + 1]);
            assert(Usuario::es_incremento(pasos[i], pasos[i + 1]));
        }
        let medio = Usuario { failed_login_attempts: 0, lockout_end_time: None, ..antes.last() };
        ley_reinicio_tras_fallos(antes, medio);
        assert(Usuario::es_incremento(pasos[pasos.len() - 2], pasos[pasos.len() - 1]));
    }
}

} // verus!
