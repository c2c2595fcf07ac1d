//! Which formula gives a credit's fixed instalment.
use vstd::prelude::*;
use crate::dinero::{cociente_decimal, dividir, monto_cero, resultado, Monto};

verus! {

/// How the fixed instalment of a credit is computed.
#[derive(Clone, Copy, Debug, PartialEq, Eq, Structural)]
pub enum FormulaCuota {
    /// There are no instalments: the instalment is zero.
    SinCuotas,
    /// Without interest: the amount divided by the number of instalments.
    PartesIguales,
    /// With interest: the French amortization formula, at the monthly rate
    /// (the annual rate over 12, as a percentage).
    Amortizacion,
}

/// The formula of a credit's fixed instalment: without interest or without
/// instalments the amount is split in equal parts (zero where there are no
/// positive instalments); otherwise it is amortized.
pub fn formula_cuota(tasa_anual: &Monto, cuotas: i32) -> (r: FormulaCuota)
    ensures
        (tasa_anual.numerador() == 0 || cuotas == 0) && cuotas > 0 ==> r == FormulaCuota::PartesIguales,
        (tasa_anual.numerador() == 0 || cuotas == 0) && cuotas <= 0 ==> r == FormulaCuota::SinCuotas,
        !(tasa_anual.numerador() == 0 || cuotas == 0) ==> r == FormulaCuota::Amortizacion,
{
    if tasa_anual.es_cero() || cuotas == 0 {
        if cuotas > 0 {
            FormulaCuota::PartesIguales
        } else {
            FormulaCuota::SinCuotas
        }
    } else {
        FormulaCuota::Amortizacion
    }
}

/// The instalment of a credit without interest (the formulas `SinCuotas`
/// and `PartesIguales`): the amount divided by the number of instalments,
/// as `Decimal` divides (`monto / Decimal::from(cuotas)`), and zero where
/// there are no positive instalments. `None` where that division
/// overflows, where `/` would panic.
pub fn cuota_sin_interes(monto_total: &Monto, cuotas: i32) -> (r: Option<Monto>)
    requires
        monto_total.bien_formado(),
    ensures
        cuotas > 0 ==> resultado(r, cociente_decimal(monto_total@, (false, cuotas as nat, 0nat))),
        cuotas <= 0 ==> r == Some(monto_cero()),
{
    if cuotas > 0 {
        let divisor = Monto::desde_entero(cuotas as i64);
        assert(divisor@ == (false, cuotas as nat, 0nat));
        dividir(monto_total, &divisor)
    } else {
        Some(Monto::cero())
    }
}

} // verus!
