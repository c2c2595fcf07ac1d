//! Payment decisions: the budget check, the amount check, and where the
//! evidence files go.
use vstd::prelude::*;
use crate::dinero::{
    comparar, formatear_monto, lema_orden_con_cero, monto_cero, monto_de, resta_decimal, restar, suma_de, suma_decimal,
    sumar, sumar_todos, texto_monto, todos_bien_formados, vistas, Monto, Orden,
};
use crate::domain::entities::pago_existente::PagoExistente;
use crate::texto::{entero_a_texto, iguales, texto_entero, tramo_final, ultimo_tramo};
use crate::tiempo::{es_sello, sello_utc};

verus! {

/// A payment that would exceed its project's budget: the budget, what the
/// existing payments add up to, and what is still available.
#[derive(Clone, Copy, Debug)]
pub struct ExcesoPresupuesto {
    pub presupuesto: Monto,
    pub total_pagos: Monto,
    pub disponible: Monto,
}

impl ExcesoPresupuesto {
    /// The message shown when the payment is refused.
    pub fn mensaje(&self) -> (r: String)
        requires
            self.presupuesto.bien_formado(),
            self.total_pagos.bien_formado(),
            self.disponible.bien_formado(),
        ensures
            r@ == "El pago excede el presupuesto del proyecto. Presupuesto: $"@ + texto_monto(
                self.presupuesto,
            ) + ", Total pagos: $"@ + texto_monto(self.total_pagos) + ", Disponible: $"@
                + texto_monto(self.disponible),
    {
        let mut r = String::from_str("El pago excede el presupuesto del proyecto. Presupuesto: $");
        r.append(formatear_monto(&self.presupuesto).as_str());
        r.append(", Total pagos: $");
        r.append(formatear_monto(&self.total_pagos).as_str());
        r.append(", Disponible: $");
        r.append(formatear_monto(&self.disponible).as_str());
        r
    }
}

/// The values of a sequence of payments.
pub open spec fn valores_de(pagos: Seq<PagoExistente>) -> Seq<Monto> {
    pagos.map_values(|p: PagoExistente| p.valor)
}

/// The outcome of checking a new payment of `nuevo` against a project's
/// budget, given its existing payments: no (or a zero) budget accepts
/// anything; otherwise the payment is refused exactly when the existing
/// payments plus it exceed the budget. `None` where the `Decimal`
/// arithmetic overflows (where the check panics).
pub open spec fn veredicto_presupuesto(
    presupuesto: Option<Monto>,
    pagos: Seq<PagoExistente>,
    nuevo: Monto,
) -> Option<Result<(), ExcesoPresupuesto>> {
    let p = match presupuesto {
        Some(p) => p,
        None => monto_cero(),
    };
    if p.numerador() == 0 {
        Some(Ok(()))
    } else {
        match suma_de(vistas(valores_de(pagos))) {
            None => None,
            Some(total) => match suma_decimal(total, nuevo@) {
                None => None,
                Some(con_nuevo) => if monto_de(con_nuevo).orden_con(p) == Orden::Mayor {
                    match resta_decimal(p@, total) {
                        None => None,
                        Some(d) => Some(
                            Err(
                                ExcesoPresupuesto {
                                    presupuesto: p,
                                    total_pagos: monto_de(total),
                                    disponible: monto_de(d),
                                },
                            ),
                        ),
                    }
                } else {
                    Some(Ok(()))
                },
            },
        }
    }
}

/// The amounts of the check fit a `Decimal`.
pub open spec fn datos_de_presupuesto(presupuesto: Option<Monto>, pagos: Seq<PagoExistente>, nuevo: Monto) -> bool {
    &&& presupuesto matches Some(p) ==> p.bien_formado()
    &&& forall|i: int| 0 <= i < pagos.len() ==> (#[trigger] pagos[i]).valor.bien_formado()
    &&& nuevo.bien_formado()
}

/// Checks a new payment against the project's budget; `None` exactly where
/// the sums overflow, where the plain check could not be computed.
pub fn validar_presupuesto_comprobado(
    presupuesto: Option<Monto>,
    pagos: &Vec<PagoExistente>,
    nuevo: Monto,
) -> (r: Option<Result<(), ExcesoPresupuesto>>)
    requires
        datos_de_presupuesto(presupuesto, pagos@, nuevo),
    ensures
        r == veredicto_presupuesto(presupuesto, pagos@, nuevo),
        r matches Some(Err(e)) ==> e.presupuesto.bien_formado() && e.total_pagos.bien_formado()
            && e.disponible.bien_formado(),
{
    let p = match presupuesto {
        Some(p) => p,
        None => Monto::cero(),
    };
    if p.es_cero() {
        return Some(Ok(()));
    }
    let mut valores: Vec<Monto> = Vec::new();
    let mut i: usize = 0;
    while i < pagos.len()
        invariant
            i <= pagos.len(),
            valores@ == valores_de(pagos@).take(i as int),
            forall|k: int| 0 <= k < pagos@.len() ==> (#[trigger] pagos@[k]).valor.bien_formado(),
        decreases pagos.len() - i,
    {
        valores.push(pagos[i].valor);
        assert(valores_de(pagos@).take(i + 1) =~= valores_de(pagos@).take(i as int).push(
            pagos@[i as int].valor,
        ));
        i = i + 1;
    }
    assert(valores@ =~= valores_de(pagos@));
    assert(todos_bien_formados(valores@));
    let total = match sumar_todos(&valores) {
        Some(t) => t,
        None => {
            return None;
        },
    };
    let con_nuevo = match sumar(&total, &nuevo) {
        Some(c) => c,
        None => {
            return None;
        },
    };
    if comparar(&con_nuevo, &p) == Orden::Mayor {
        match restar(&p, &total) {
            Some(disponible) => Some(
                Err(ExcesoPresupuesto { presupuesto: p, total_pagos: total, disponible }),
            ),
            None => None,
        }
    } else {
        Some(Ok(()))
    }
}

/// Checks a new payment against the project's budget, where the sums fit a
/// `Decimal`: refused exactly when a nonzero budget would be exceeded.
pub fn validar_presupuesto(presupuesto: Option<Monto>, pagos: &Vec<PagoExistente>, nuevo: Monto) -> (r: Result<(), ExcesoPresupuesto>)
    requires
        datos_de_presupuesto(presupuesto, pagos@, nuevo),
        veredicto_presupuesto(presupuesto, pagos@, nuevo) is Some,
    ensures
        Some(r) == veredicto_presupuesto(presupuesto, pagos@, nuevo),
{
    validar_presupuesto_comprobado(presupuesto, pagos, nuevo).unwrap()
}

/// A payment is refused only for exceeding a nonzero budget: the existing
/// payments plus the new one add up to more than the budget.
pub proof fn ley_rechazo_solo_por_exceso(presupuesto: Option<Monto>, pagos: Seq<PagoExistente>, nuevo: Monto)
    requires
        veredicto_presupuesto(presupuesto, pagos, nuevo) matches Some(Err(_)),
    ensures
        presupuesto matches Some(p) && p.numerador() != 0,
        suma_de(vistas(valores_de(pagos))) matches Some(total) && suma_decimal(total, nuevo@) matches Some(
            con_nuevo,
        ) && monto_de(con_nuevo).orden_con(presupuesto.unwrap()) == Orden::Mayor,
{
}

/// Without a budget (or with a zero one) every payment is accepted.
pub proof fn ley_sin_presupuesto_acepta(pagos: Seq<PagoExistente>, nuevo: Monto)
    ensures
        veredicto_presupuesto(None, pagos, nuevo) == Some(Ok::<(), ExcesoPresupuesto>(())),
{
}

/// Checks the amount of a payment: it must be above zero.
pub fn validar_monto_pago(monto: &Monto) -> (r: Result<(), String>)
    requires
        monto.bien_formado(),
    ensures
        r is Ok <==> monto.numerador() > 0,
        r matches Err(e) ==> e@ == "El monto debe ser mayor a cero"@,
{
    let cero = Monto::cero();
    proof {
        lema_orden_con_cero(*monto);
    }
    if comparar(monto, &cero) != Orden::Mayor {
        return Err(String::from_str("El monto debe ser mayor a cero"));
    }
    Ok(())
}

/// The folder of an evidence file: the client's (`cliente`) or the builder's.
pub open spec fn carpeta_evidencia(tipo: Seq<char>) -> Seq<char> {
    if tipo == "cliente"@ {
        "evidencia-pagos"@
    } else {
        "evidencia-constructora"@
    }
}

/// The storage key of an evidence file of payment `pago_id`, uploaded as
/// `file_name` at time `sello`: `{carpeta}/pago-{id}-{sello}.{extension}`.
pub open spec fn clave_evidencia(pago_id: i32, file_name: Seq<char>, tipo: Seq<char>, sello: Seq<char>) -> Seq<char> {
    carpeta_evidencia(tipo) + "/pago-"@ + texto_entero(pago_id as int) + "-"@ + sello + "."@
        + ultimo_tramo(file_name, '.')
}

/// The storage key of an evidence file uploaded at time `sello`.
pub fn nombre_evidencia(pago_id: i32, file_name: &str, tipo: &str, sello: &str) -> (r: String)
    ensures
        r@ == clave_evidencia(pago_id, file_name@, tipo@, sello@),
{
    let extension = tramo_final(file_name, '.');
    let mut r = if iguales(tipo, "cliente") {
        String::from_str("evidencia-pagos")
    } else {
        String::from_str("evidencia-constructora")
    };
    r.append("/pago-");
    r.append(entero_a_texto(pago_id as i64).as_str());
    r.append("-");
    r.append(sello);
    r.append(".");
    r.append(extension.as_str());
    r
}

/// The storage key of an evidence file uploaded now.
pub fn nombre_evidencia_ahora(pago_id: i32, file_name: &str, tipo: &str) -> (r: String)
    ensures
        exists|sello: Seq<char>|
            #![trigger clave_evidencia(pago_id, file_name@, tipo@, sello)]
            es_sello(sello) && r@ == clave_evidencia(pago_id, file_name@, tipo@, sello),
{
    let sello = sello_utc();
    nombre_evidencia(pago_id, file_name, tipo, sello.as_str())
}

/// The evidence files of a payment, the client's first: what deleting the
/// payment removes from storage.
pub fn evidencias_de(pago: &PagoExistente) -> (r: Vec<String>)
    ensures
        r@ == (match pago.evidencia {
            Some(e) => seq![e],
            None => Seq::<String>::empty(),
        }) + (match pago.evidencia_constructora {
            Some(e) => seq![e],
            None => Seq::<String>::empty(),
        }),
{
    let mut r: Vec<String> = Vec::new();
    if let Some(e) = &pago.evidencia {
        r.push(e.clone());
    }
    if let Some(e) = &pago.evidencia_constructora {
        r.push(e.clone());
    }
    assert(r@ =~= (match pago.evidencia {
        Some(e) => seq![e],
        None => Seq::<String>::empty(),
    }) + (match pago.evidencia_constructora {
        Some(e) => seq![e],
        None => Seq::<String>::empty(),
    }));
    r
}

/// A payment that takes the payments over a nonzero budget is refused,
/// whatever the number of existing payments (none among them): where the
/// existing payments add up to `total`, `total` plus the new payment is
/// more than the budget, and the sums fit a `Decimal`, the verdict is a
/// refusal that reports the budget, `total`, and the budget minus `total`.
pub proof fn ley_exceso_se_rechaza(
    presupuesto: Monto,
    pagos: Seq<PagoExistente>,
    nuevo: Monto,
    total: (bool, nat, nat),
    con_nuevo: (bool, nat, nat),
    disponible: (bool, nat, nat),
)
    requires
        presupuesto.numerador() != 0,
        suma_de(vistas(valores_de(pagos))) == Some(total),
        suma_decimal(total, nuevo@) == Some(con_nuevo),
        monto_de(con_nuevo).orden_con(presupuesto) == Orden::Mayor,
        resta_decimal(presupuesto@, total) == Some(disponible),
    ensures
        veredicto_presupuesto(Some(presupuesto), pagos, nuevo) == Some(
            Err::<(), ExcesoPresupuesto>(
                ExcesoPresupuesto {
                    presupuesto,
                    total_pagos: monto_de(total),
                    disponible: monto_de(disponible),
                },
            ),
        ),
{
}

/// A payment that keeps the payments within the budget is accepted:
/// where the sums fit and the total with the new payment is not more than
/// the budget, the verdict is `Ok`.
pub proof fn ley_dentro_del_presupuesto_acepta(
    presupuesto: Monto,
    pagos: Seq<PagoExistente>,
    nuevo: Monto,
    total: (bool, nat, nat),
    con_nuevo: (bool, nat, nat),
)
    requires
        suma_de(vistas(valores_de(pagos))) == Some(total),
        suma_decimal(total, nuevo@) == Some(con_nuevo),
        monto_de(con_nuevo).orden_con(presupuesto) != Orden::Mayor,
    ensures
        veredicto_presupuesto(Some(presupuesto), pagos, nuevo) == Some(Ok::<(), ExcesoPresupuesto>(())),
{
}

} // verus!
