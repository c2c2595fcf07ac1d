//! Which expenses the recurring templates generate in a month.
use vstd::prelude::*;
use crate::application::dto::CreateGastoDto;
use crate::domain::entities::gasto_recurrente::{GastoRecurrente, TipoGastoRecurrente};
use crate::texto::{copiar_opcional, escribir_dos_cifras, escribir_entero, texto_dos_cifras, texto_entero};
use crate::tiempo::{es_fecha_valida, hoy_local, FechaCalendario};

verus! {

/// The day of the month on which a template's expense falls: its billing
/// day, but never after the 28th (so that it exists in every month).
pub open spec fn dia_de_gasto(dia_facturacion: i32) -> i32 {
    if dia_facturacion < 28 {
        dia_facturacion
    } else {
        28
    }
}

/// The date `YYYY-MM-DD` of the expense generated in month `mes` of `anio`.
pub open spec fn fecha_de_gasto(anio: i32, mes: u32, dia_facturacion: i32) -> Seq<char> {
    texto_entero(anio as int) + seq!['-'] + texto_dos_cifras(mes as int) + seq!['-']
        + texto_dos_cifras(dia_de_gasto(dia_facturacion) as int)
}

/// `d` is the expense that template `p` generates in month `mes` of `anio`.
pub open spec fn es_gasto_generado(d: CreateGastoDto, p: GastoRecurrente, anio: i32, mes: u32) -> bool {
    &&& d.descripcion == p.descripcion
    &&& d.monto == p.monto_referencia
    &&& d.categoria == p.categoria
    &&& d.responsable == p.responsable
    &&& d.fecha@ == fecha_de_gasto(anio, mes, p.dia_facturacion)
}

/// The template is of kind `tipo` and, where a day is given, is billed on
/// or before it.
pub open spec fn corresponde(p: GastoRecurrente, tipo: TipoGastoRecurrente, dia_limite: Option<i32>) -> bool {
    p.tipo == tipo && (dia_limite matches Some(d) ==> p.dia_facturacion <= d)
}

/// The templates of `s` that `corresponde`, in order.
pub open spec fn seleccion(s: Seq<GastoRecurrente>, tipo: TipoGastoRecurrente, dia_limite: Option<i32>) -> Seq<GastoRecurrente>
    decreases s.len(),
{
    if s.len() == 0 {
        s
    } else {
        let r = seleccion(s.drop_last(), tipo, dia_limite);
        if corresponde(s.last(), tipo, dia_limite) {
            r.push(s.last())
        } else {
            r
        }
    }
}

/// The templates of `s` whose expense was not generated yet, in order.
pub open spec fn pendientes(s: Seq<GastoRecurrente>, generados: Seq<i32>) -> Seq<GastoRecurrente>
    decreases s.len(),
{
    if s.len() == 0 {
        s
    } else {
        let r = pendientes(s.drop_last(), generados);
        if generados.contains(s.last().id) {
            r
        } else {
            r.push(s.last())
        }
    }
}

/// Whether `v` holds `x`.
fn contiene_id(v: &Vec<i32>, x: i32) -> (r: bool)
    ensures
        r == v@.contains(x),
{
    let mut i: usize = 0;
    while i < v.len()
        invariant
            i <= v.len(),
            forall|k: int| 0 <= k < i ==> v@[k] != x,
        decreases v.len() - i,
    {
        if v[i] == x {
            return true;
        }
        i = i + 1;
    }
    false
}

/// The templates of kind `tipo` (and, for a given day, billed on or before
/// it): the fixed ones due today, or the fixed-variable ones of a month.
pub fn seleccionar_plantillas(
    plantillas: &Vec<GastoRecurrente>,
    tipo: TipoGastoRecurrente,
    dia_limite: Option<i32>,
) -> (r: Vec<GastoRecurrente>)
    ensures
        r@ == seleccion(plantillas@, tipo, dia_limite),
{
    let mut r: Vec<GastoRecurrente> = Vec::new();
    let mut i: usize = 0;
    assert(plantillas@.take(0) =~= Seq::<GastoRecurrente>::empty());
    while i < plantillas.len()
        invariant
            i <= plantillas.len(),
            r@ == seleccion(plantillas@.take(i as int), tipo, dia_limite),
        decreases plantillas.len() - i,
    {
        let p = &plantillas[i];
        assert(plantillas@.take(i + 1).drop_last() =~= plantillas@.take(i as int));
        let cumple = match dia_limite {
            Some(d) => p.tipo == tipo && p.dia_facturacion <= d,
            None => p.tipo == tipo,
        };
        if cumple {
            r.push(p.copia());
        }
        i = i + 1;
    }
    assert(plantillas@.take(plantillas.len() as int) =~= plantillas@);
    r
}

/// The expense that a template generates in month `mes` of `anio`.
pub fn gasto_de_plantilla(p: &GastoRecurrente, anio: i32, mes: u32) -> (r: CreateGastoDto)
    ensures
        es_gasto_generado(r, *p, anio, mes),
{
    let dia: i32 = if p.dia_facturacion < 28 {
        p.dia_facturacion
    } else {
        28
    };
    let mut fecha = String::new();
    escribir_entero(&mut fecha, anio as i128);
    fecha.append("-");
    escribir_dos_cifras(&mut fecha, mes as i64);
    fecha.append("-");
    escribir_dos_cifras(&mut fecha, dia as i64);
    proof {
        reveal_strlit("-");
        assert(fecha@ =~= fecha_de_gasto(anio, mes, p.dia_facturacion));
    }
    CreateGastoDto {
        descripcion: p.descripcion.clone(),
        monto: p.monto_referencia,
        categoria: p.categoria.clone(),
        responsable: copiar_opcional(&p.responsable),
        fecha,
    }
}

/// The expenses to generate in month `mes` of `anio` from the selected
/// templates, each with its template's id: one for each template whose
/// expense is not among `ya_generados`, in order.
pub fn planificar_gastos(
    seleccionadas: &Vec<GastoRecurrente>,
    ya_generados: &Vec<i32>,
    anio: i32,
    mes: u32,
) -> (r: Vec<(CreateGastoDto, i32)>)
    ensures
        r@.len() == pendientes(seleccionadas@, ya_generados@).len(),
        forall|k: int|
            0 <= k < r@.len() ==> es_gasto_generado(
                #[trigger] r@[k].0,
                pendientes(seleccionadas@, ya_generados@)[k],
                anio,
                mes,
            ) && r@[k].1 == pendientes(seleccionadas@, ya_generados@)[k].id,
        // No template's expense is generated twice in a month.
        forall|k: int| 0 <= k < r@.len() ==> !ya_generados@.contains(#[trigger] r@[k].1),
{
    let mut r: Vec<(CreateGastoDto, i32)> = Vec::new();
    let ghost hechos = ya_generados@;
    let mut i: usize = 0;
    assert(seleccionadas@.take(0) =~= Seq::<GastoRecurrente>::empty());
    while i < seleccionadas.len()
        invariant
            i <= seleccionadas.len(),
            hechos == ya_generados@,
            r@.len() == pendientes(seleccionadas@.take(i as int), hechos).len(),
            forall|k: int|
                0 <= k < r@.len() ==> es_gasto_generado(
                    #[trigger] r@[k].0,
                    pendientes(seleccionadas@.take(i as int), hechos)[k],
                    anio,
                    mes,
                ) && r@[k].1 == pendientes(seleccionadas@.take(i as int), hechos)[k].id,
            forall|k: int| 0 <= k < r@.len() ==> !hechos.contains(#[trigger] r@[k].1),
        decreases seleccionadas.len() - i,
    {
        let p = &seleccionadas[i];
        assert(seleccionadas@.take(i + 1).drop_last() =~= seleccionadas@.take(i as int));
        assert(seleccionadas@.take(i + 1).last() == *p);
        if !contiene_id(ya_generados, p.id) {
            let d = gasto_de_plantilla(p, anio, mes);
            r.push((d, p.id));
        }
        i = i + 1;
    }
    assert(seleccionadas@.take(seleccionadas.len() as int) =~= seleccionadas@);
    r
}

/// How many fixed-variable templates still wait to be generated in a month,
/// as a `u32` (the count converted with `as`).
pub fn contar_variables_pendientes(plantillas: &Vec<GastoRecurrente>, ya_generados: &Vec<i32>) -> (r: u32)
    ensures
        r == (pendientes(
            seleccion(plantillas@, TipoGastoRecurrente::FijoVariable, None),
            ya_generados@,
        ).len() as u32),
{
    let variables = seleccionar_plantillas(plantillas, TipoGastoRecurrente::FijoVariable, None);
    let mut cuenta: usize = 0;
    let mut i: usize = 0;
    assert(variables@.take(0) =~= Seq::<GastoRecurrente>::empty());
    while i < variables.len()
        invariant
            i <= variables.len(),
            cuenta == pendientes(variables@.take(i as int), ya_generados@).len(),
            cuenta <= i,
        decreases variables.len() - i,
    {
        assert(variables@.take(i + 1).drop_last() =~= variables@.take(i as int));
        if !contiene_id(ya_generados, variables[i].id) {
            cuenta = cuenta + 1;
        }
        i = i + 1;
    }
    assert(variables@.take(variables.len() as int) =~= variables@);
    cuenta as u32
}

/// The fixed templates whose billing day has come, by today's local date:
/// the date, and those of `plantillas` (the active templates) that are
/// fixed and billed on or before its day, in order.
pub fn fijos_vencidos_hoy(plantillas: &Vec<GastoRecurrente>) -> (r: (FechaCalendario, Vec<GastoRecurrente>))
    ensures
        1 <= r.0.mes <= 12,
        1 <= r.0.dia <= 31,
        es_fecha_valida(r.0.anio as int, r.0.mes as int, r.0.dia as int),
        r.1@ == seleccion(plantillas@, TipoGastoRecurrente::Fijo, Some(r.0.dia as i32)),
{
    let hoy = hoy_local();
    let fijos = seleccionar_plantillas(plantillas, TipoGastoRecurrente::Fijo, Some(hoy.dia as i32));
    (hoy, fijos)
}

/// A template of `s` whose id is not among `generados` is pending.
proof fn lema_no_generada_pendiente(s: Seq<GastoRecurrente>, generados: Seq<i32>, k: int)
    requires
        0 <= k < s.len(),
        !generados.contains(s[k].id),
    ensures
        pendientes(s, generados).contains(s[k]),
    decreases s.len(),
{
    if k < s.len() - 1 {
        lema_no_generada_pendiente(s.drop_last(), generados, k);
        let r = pendientes(s.drop_last(), generados);
        if !generados.contains(s.last().id) {
            let j = choose|j: int| 0 <= j < r.len() && r[j] == s[k];
            assert(r.push(s.last())[j] == s[k]);
        }
    } else {
        let r = pendientes(s.drop_last(), generados);
        assert(r.push(s.last())[r.len() as int] == s[k]);
    }
}

/// Where every template of `s` has its id among `generados`, none is pending.
proof fn lema_todas_generadas(s: Seq<GastoRecurrente>, generados: Seq<i32>)
    requires
        forall|k: int| 0 <= k < s.len() ==> generados.contains(#[trigger] s[k].id),
    ensures
        pendientes(s, generados).len() == 0,
    decreases s.len(),
{
    if s.len() > 0 {
        assert(generados.contains(s[s.len() - 1].id));
        lema_todas_generadas(s.drop_last(), generados);
    }
}

/// Once the expenses planned for the pending templates are recorded (the
/// generated ids then include the earlier ones and the id of every
/// template that was pending), nothing is pending any more.
proof fn lema_generar_agota(s: Seq<GastoRecurrente>, antes: Seq<i32>, despues: Seq<i32>)
    requires
        forall|i: i32| antes.contains(i) ==> despues.contains(i),
        forall|k: int|
            0 <= k < pendientes(s, antes).len() ==> despues.contains(
                #[trigger] pendientes(s, antes)[k].id,
            ),
    ensures
        pendientes(s, despues).len() == 0,
{
    assert forall|k: int| 0 <= k < s.len() implies despues.contains(#[trigger] s[k].id) by {
        if !antes.contains(s[k].id) {
            lema_no_generada_pendiente(s, antes, k);
            let j = choose|j: int| 0 <= j < pendientes(s, antes).len() && pendientes(s, antes)[j] == s[k];
            assert(despues.contains(pendientes(s, antes)[j].id));
        }
    }
    lema_todas_generadas(s, despues);
}

/// Each fixed template is generated at most once a month: a second run on
/// the same day, over the same active templates, after the expenses that
/// the first run planned were recorded (their template ids `creados`
/// joined the month's generated ids), plans nothing.
pub proof fn ley_fijos_una_vez_por_mes(
    plantillas: Seq<GastoRecurrente>,
    dia: i32,
    antes: Seq<i32>,
    creados: Seq<i32>,
    despues: Seq<i32>,
)
    requires
        creados.len() == pendientes(seleccion(plantillas, TipoGastoRecurrente::Fijo, Some(dia)), antes).len(),
        forall|k: int|
            0 <= k < creados.len() ==> #[trigger] creados[k] == pendientes(
                seleccion(plantillas, TipoGastoRecurrente::Fijo, Some(dia)),
                antes,
            )[k].id,
        forall|i: i32| antes.contains(i) ==> despues.contains(i),
        forall|i: i32| creados.contains(i) ==> despues.contains(i),
    ensures
        pendientes(seleccion(plantillas, TipoGastoRecurrente::Fijo, Some(dia)), despues).len() == 0,
{
    let s = seleccion(plantillas, TipoGastoRecurrente::Fijo, Some(dia));
    assert forall|k: int| 0 <= k < pendientes(s, antes).len() implies despues.contains(
        #[trigger] pendientes(s, antes)[k].id,
    ) by {
        assert(creados[k] == pendientes(s, antes)[k].id);
        assert(creados.contains(creados[k]));
    }
    lema_generar_agota(s, antes, despues);
}

/// After the month's fixed-variable expenses are generated and recorded
/// (the ids `creados` of their templates joined the month's generated
/// ids), none is left pending: the count is zero.
pub proof fn ley_variables_sin_pendientes(
    plantillas: Seq<GastoRecurrente>,
    antes: Seq<i32>,
    creados: Seq<i32>,
    despues: Seq<i32>,
)
    requires
        creados.len() == pendientes(seleccion(plantillas, TipoGastoRecurrente::FijoVariable, None), antes).len(),
        forall|k: int|
            0 <= k < creados.len() ==> #[trigger] creados[k] == pendientes(
                seleccion(plantillas, TipoGastoRecurrente::FijoVariable, None),
                antes,
            )[k].id,
        forall|i: i32| antes.contains(i) ==> despues.contains(i),
        forall|i: i32| creados.contains(i) ==> despues.contains(i),
    ensures
        pendientes(seleccion(plantillas, TipoGastoRecurrente::FijoVariable, None), despues).len() == 0,
{
    let s = seleccion(plantillas, TipoGastoRecurrente::FijoVariable, None);
    assert forall|k: int| 0 <= k < pendientes(s, antes).len() implies despues.contains(
        #[trigger] pendientes(s, antes)[k].id,
    ) by {
        assert(creados[k] == pendientes(s, antes)[k].id);
        assert(creados.contains(creados[k]));
    }
    lema_generar_agota(s, antes, despues);
}

/// The expense generated from a template falls on its billing day, but
/// never after the 28th: its date is `anio-mes-dd` where `dd` is the
/// smaller of the billing day and 28, so it exists in every month. Its
/// description, amount, category and person in charge are the template's.
pub proof fn ley_dia_del_gasto(d: CreateGastoDto, p: GastoRecurrente, anio: i32, mes: u32)
    requires
        es_gasto_generado(d, p, anio, mes),
    ensures
        d.descripcion == p.descripcion,
        d.monto == p.monto_referencia,
        d.categoria == p.categoria,
        d.responsable == p.responsable,
        d.fecha@ == texto_entero(anio as int) + seq!['-'] + texto_dos_cifras(mes as int) + seq!['-']
            + texto_dos_cifras(
            if p.dia_facturacion <= 28 {
                p.dia_facturacion as int
            } else {
                28
            },
        ),
{
}

} // verus!
