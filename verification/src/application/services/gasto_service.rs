//! Where the support files of expenses are stored.
use vstd::prelude::*;
use crate::texto::{entero_a_texto, texto_entero, tramo_final, ultimo_tramo};
use crate::tiempo::{es_sello, sello_utc};

verus! {

/// The storage key of the support file of expense `id`, uploaded as
/// `file_name` at time `sello`: `soportes-gastos/gasto-{id}-{sello}.{ext}`.
pub open spec fn clave_soporte(id: i32, file_name: Seq<char>, sello: Seq<char>) -> Seq<char> {
    "soportes-gastos/gasto-"@ + texto_entero(id as int) + "-"@ + sello + "."@ + ultimo_tramo(
        file_name,
        '.',
    )
}

/// The storage key of an expense's support file uploaded at time `sello`.
pub fn nombre_soporte(id: i32, file_name: &str, sello: &str) -> (r: String)
    ensures
        r@ == clave_soporte(id, file_name@, sello@),
{
    let extension = tramo_final(file_name, '.');
    let numero = entero_a_texto(id as i64);
    let mut r = String::from_str("soportes-gastos/gasto-");
    r.append(numero.as_str());
    r.append("-");
    r.append(sello);
    r.append(".");
    r.append(extension.as_str());
    r
}

/// The storage key of an expense's support file uploaded now.
pub fn nombre_soporte_ahora(id: i32, file_name: &str) -> (r: String)
    ensures
        exists|sello: Seq<char>|
            #![trigger clave_soporte(id, file_name@, sello)]
            es_sello(sello) && r@ == clave_soporte(id, file_name@, sello),
{
    let sello = sello_utc();
    nombre_soporte(id, file_name, sello.as_str())
}

} // verus!
