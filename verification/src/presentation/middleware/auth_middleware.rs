//! The decisions of the authentication middleware: where the token is
//! taken from, who the user is, and how a refused request is answered.
use vstd::prelude::*;
use crate::application::services::auth_service::Claims;
use crate::texto::{
    comienza_con, digito, digitos, empieza_con, entero_leido, es_digito, iguales, leer_entero, subtexto, texto_entero,
    todos_digitos, valor_digito, valor_digitos,
};

verus! {

/// The name of the cookie that holds the session token.
pub const AUTH_COOKIE_NAME: &'static str = "auth_token";

/// The authenticated user of a request.
#[derive(Clone, Debug)]
pub struct AuthUser {
    pub id: i64,
    pub username: String,
    pub rol: String,
}

impl AuthUser {
    /// The user that a token's claims name: the subject read as an `i64`
    /// id. `None` (unauthorized) where the subject is no such number.
    pub fn desde_claims(claims: &Claims) -> (r: Option<AuthUser>)
        ensures
            match r {
                Some(u) => entero_leido(claims.sub@, true, i64::MIN as int, i64::MAX as int) == Some(u.id as int)
                    && u.username == claims.username && u.rol == claims.rol,
                None => entero_leido(claims.sub@, true, i64::MIN as int, i64::MAX as int) is None,
            },
    {
        match leer_entero(claims.sub.as_str(), true, i64::MIN as i128, i64::MAX as i128) {
            Some(id) => Some(AuthUser { id: id as i64, username: claims.username.clone(), rol: claims.rol.clone() }),
            None => None,
        }
    }
}

/// Whether a path belongs to the JSON API.
pub fn es_ruta_api(path: &str) -> (r: bool)
    ensures
        r == empieza_con(path@, "/api/"@),
{
    comienza_con(path, "/api/")
}

/// What follows `Bearer ` in an `Authorization` header, where it starts so.
pub open spec fn token_de_cabecera(cabecera: Seq<char>) -> Option<Seq<char>> {
    if empieza_con(cabecera, "Bearer "@) {
        Some(cabecera.skip(7))
    } else {
        None
    }
}

/// The token of a request: the cookie's value where it is not empty, else
/// what follows `Bearer ` in the `Authorization` header.
pub open spec fn token_de(cookie: Option<Seq<char>>, cabecera: Option<Seq<char>>) -> Option<Seq<char>> {
    match cookie {
        Some(c) if c.len() > 0 => Some(c),
        _ => match cabecera {
            Some(h) => token_de_cabecera(h),
            None => None,
        },
    }
}

/// Takes the token from the cookie's value, else from the `Authorization`
/// header (as text).
pub fn extract_token(cookie: Option<String>, cabecera: Option<String>) -> (r: Option<String>)
    ensures
        match r {
            Some(t) => token_de(
                match cookie {
                    Some(c) => Some(c@),
                    None => None,
                },
                match cabecera {
                    Some(h) => Some(h@),
                    None => None,
                },
            ) == Some(t@),
            None => token_de(
                match cookie {
                    Some(c) => Some(c@),
                    None => None,
                },
                match cabecera {
                    Some(h) => Some(h@),
                    None => None,
                },
            ) is None,
        },
{
    if let Some(c) = cookie {
        if c.unicode_len() > 0 {
            return Some(c);
        }
    }
    match cabecera {
        Some(h) => {
            proof {
                reveal_strlit("Bearer ");
            }
            if comienza_con(h.as_str(), "Bearer ") {
                let n = h.unicode_len();
                let t = subtexto(h.as_str(), 7, n);
                assert(t@ =~= h@.skip(7));
                Some(t)
            } else {
                None
            }
        },
        None => None,
    }
}

/// How a request is refused.
#[derive(Clone, Debug)]
pub enum Rechazo {
    /// Answer 401 with a JSON body carrying `mensaje`.
    NoAutenticadoJson { mensaje: String },
    /// Answer 403 with a JSON body carrying `mensaje`.
    ProhibidoJson { mensaje: String },
    /// Redirect the browser to `destino`.
    Redirigir { destino: String },
}

/// `r` answers a request without a valid session: 401 with its message
/// for the API, else a redirect to the login page that remembers `path`.
pub open spec fn es_no_autenticado(r: Rechazo, is_api: bool, path: Seq<char>) -> bool {
    if is_api {
        r matches Rechazo::NoAutenticadoJson { mensaje } && mensaje@ == "No autenticado. Debe iniciar sesión."@
    } else {
        r matches Rechazo::Redirigir { destino } && destino@ == "/login?redirect="@ + path
    }
}

/// `r` answers a user who is not an administrator: 403 with its message for
/// the API, else a redirect to the dashboard.
pub open spec fn es_prohibido(r: Rechazo, is_api: bool) -> bool {
    if is_api {
        r matches Rechazo::ProhibidoJson { mensaje } && mensaje@ == "Acceso denegado. Se requiere rol de administrador."@
    } else {
        r matches Rechazo::Redirigir { destino } && destino@ == "/dashboard?error=acceso_denegado"@
    }
}

/// The answer to a request without a valid session.
pub fn unauthorized_response(is_api: bool, path: &str) -> (r: Rechazo)
    ensures
        es_no_autenticado(r, is_api, path@),
{
    if is_api {
        Rechazo::NoAutenticadoJson { mensaje: String::from_str("No autenticado. Debe iniciar sesión.") }
    } else {
        let mut destino = String::from_str("/login?redirect=");
        destino.append(path);
        Rechazo::Redirigir { destino }
    }
}

/// The answer to a user who is not an administrator.
pub fn forbidden_response(is_api: bool) -> (r: Rechazo)
    ensures
        es_prohibido(r, is_api),
{
    if is_api {
        Rechazo::ProhibidoJson { mensaje: String::from_str("Acceso denegado. Se requiere rol de administrador.") }
    } else {
        Rechazo::Redirigir { destino: String::from_str("/dashboard?error=acceso_denegado") }
    }
}

/// The decision of the administrators' guard on a request that went
/// through the session guard (`rol` is the role in its claims, if any):
/// go on (`None`) for the role `admin`; refuse another role as forbidden,
/// and a request without claims as unauthenticated.
pub fn decision_admin(rol: Option<&str>, is_api: bool, path: &str) -> (r: Option<Rechazo>)
    ensures
        match rol {
            Some(x) => if x@ == "admin"@ {
                r is None
            } else {
                r matches Some(rechazo) && es_prohibido(rechazo, is_api)
            },
            None => r matches Some(rechazo) && es_no_autenticado(rechazo, is_api, path@),
        },
{
    match rol {
        Some(x) => {
            if iguales(x, "admin") {
                None
            } else {
                Some(forbidden_response(is_api))
            }
        },
        None => Some(unauthorized_response(is_api, path)),
    }
}

/// The digits of a number read back as that number.
proof fn lema_digitos_se_leen(n: nat)
    ensures
        digitos(n).len() > 0,
        todos_digitos(digitos(n)),
        valor_digitos(digitos(n)) == n,
    decreases n,
{
    if n < 10 {
        assert(valor_digito(digito(n as int)) == n);
        assert(seq![digito(n as int)].drop_last() =~= Seq::<char>::empty());
        assert(valor_digitos(Seq::<char>::empty()) == 0);
        assert(seq![digito(n as int)].last() == digito(n as int));
    } else {
        lema_digitos_se_leen(n / 10);
        let d = digitos(n / 10);
        let c = digito((n % 10) as int);
        assert(valor_digito(c) == n % 10);
        assert(d.push(c).drop_last() =~= d);
        assert(d.push(c).last() == c);
        assert(valor_digitos(d.push(c)) == 10 * valor_digitos(d) + valor_digito(c));
        assert(10 * (n / 10) + n % 10 == n);
        assert forall|i: int| 0 <= i < d.push(c).len() implies es_digito(#[trigger] d.push(c)[i]) by {
            if i < d.len() {
                assert(d.push(c)[i] == d[i]);
            }
        }
    }
}

/// The subject that a token is given (a user's id in decimal) reads back
/// as that id: the session names the user it was issued for.
pub proof fn ley_sujeto_identifica_usuario(id: i64)
    ensures
        entero_leido(texto_entero(id as int), true, i64::MIN as int, i64::MAX as int) == Some(id as int),
{
    let s = texto_entero(id as int);
    if id < 0 {
        let k = (-(id as int)) as nat;
        lema_digitos_se_leen(k);
        assert(s == seq!['-'] + digitos(k));
        assert(s[0] == '-');
        assert(s.drop_first() =~= digitos(k));
    } else {
        lema_digitos_se_leen(id as nat);
        assert(es_digito(s[0]));
        assert(s[0] != '+' && s[0] != '-');
    }
}

/// A request without a non-empty session cookie (no cookie, or an empty
/// one) is authenticated by its header: with `Authorization: Bearer t`,
/// the token is `t`. A non-empty cookie's value is the token, whatever the
/// header.
pub proof fn ley_token_de_la_cabecera(cookie: Option<Seq<char>>, t: Seq<char>, cabecera: Option<Seq<char>>)
    ensures
        (cookie is None || cookie == Some(Seq::<char>::empty())) ==> token_de(cookie, Some("Bearer "@ + t))
            == Some(t),
        cookie matches Some(c) && c.len() > 0 ==> token_de(cookie, cabecera) == cookie,
{
    reveal_strlit("Bearer ");
    let h = "Bearer "@ + t;
    assert(h.subrange(0, 7) =~= "Bearer "@);
    assert(h.skip(7) =~= t);
}

} // verus!
