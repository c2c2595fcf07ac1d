//! What the pages compute from the data that the services hand them: the
//! dashboard, the payment plan of a project, the forms and the redirects.
use vstd::prelude::*;
use crate::application::dto::{
    CreateCreditoDto, CreateDocumentoDto, CreateGastoDto, CreateGastoRecurrenteDto, CreateIngresoDto, CreatePagoDto,
    CreateProyectoDto, GenerarGastosDto, UpdateProyectoDto,
};
use crate::application::services::pago_service::valores_de;
use crate::dinero::{
    formatear_monto, leer_monto, monto_cero, monto_de_texto, resta_decimal, restar, resultado, suma_de, suma_decimal,
    sumar, sumar_todos, texto_monto, todos_bien_formados, vistas, Monto,
};
use crate::domain::entities::gasto_recurrente::GastoRecurrente;
use crate::domain::entities::pago_existente::PagoExistente;
use crate::domain::entities::credito::{Credito, EstadoCredito};
use crate::domain::entities::documento::Documento;
use crate::domain::entities::gasto::{CategoriaGasto, Gasto};
use crate::domain::entities::ingreso::Ingreso;
use crate::tiempo::{es_fecha_valida, fecha_en_dias, fecha_formateada, fecha_mas_dias, hoy_local, FechaCalendario};
use crate::texto::{
    digito, digitos, lema_primer_tramo_prefijo, lema_tras_primer_prefijo, texto_dos_cifras, valor_digito,
    valor_digitos, entero_a_texto, entero_leido, iguales, leer_entero, leer_i32, leer_u32, lex_menor_igual, segundo_tramo,
    texto_entero, texto_menor_igual, tramo_segundo,
};

verus! {

/// The page asked for in a list's query.
#[derive(Clone, Copy, Debug)]
pub struct Pagination {
    pub page: u32,
}

/// The page of a list when the query names none: the first.
pub fn default_page() -> (r: u32)
    ensures
        r == 1,
{
    1
}

/// The month (0 to 11) of a date written `YYYY-MM-DD`: the text between
/// the first and the second `-`, read as a `usize`; a number outside 1 to
/// 12 counts as January. `None` when there is no `-` or that text is no
/// number.
pub open spec fn mes_de(fecha: Seq<char>) -> Option<nat> {
    match segundo_tramo(fecha, '-') {
        Some(t) => match entero_leido(t, false, 0, usize::MAX as int) {
            Some(m) => Some(
                if 1 <= m <= 12 {
                    (m - 1) as nat
                } else {
                    0nat
                },
            ),
            None => None,
        },
        None => None,
    }
}

/// The month (0 to 11) of a date written `YYYY-MM-DD`.
pub fn extract_month(fecha: &str) -> (r: Option<usize>)
    ensures
        match r {
            Some(m) => mes_de(fecha@) == Some(m as nat) && m < 12,
            None => mes_de(fecha@) is None,
        },
{
    match tramo_segundo(fecha, '-') {
        Some(t) => match leer_entero(t.as_str(), false, 0, usize::MAX as i128) {
            Some(m) => {
                if 1 <= m && m <= 12 {
                    Some((m - 1) as usize)
                } else {
                    Some(0)
                }
            },
            None => None,
        },
        None => None,
    }
}

/// A month written with two digits reads back as that number.
proof fn lema_dos_cifras_se_leen(m: int)
    requires
        1 <= m <= 12,
    ensures
        entero_leido(texto_dos_cifras(m), false, 0, usize::MAX as int) == Some(m),
        forall|i: int| 0 <= i < texto_dos_cifras(m).len() ==> texto_dos_cifras(m)[i] != '-',
{
    let t = texto_dos_cifras(m);
    if m < 10 {
        assert(t =~= seq!['0', digito(m)]);
    } else {
        assert(digitos(m as nat) =~= digitos((m / 10) as nat).push(digito(m % 10)));
        assert(digitos((m / 10) as nat) =~= seq![digito(m / 10)]);
        assert(t =~= seq![digito(m / 10), digito(m % 10)]);
    }
    assert(t.len() == 2);
    assert(t.drop_last() =~= seq![t[0]]);
    assert(t.drop_last().drop_last() =~= Seq::<char>::empty());
    assert(valor_digitos(t.drop_last().drop_last()) == 0);
    assert(valor_digitos(t.drop_last()) == valor_digito(t[0]));
    assert(valor_digitos(t) == 10 * valor_digito(t[0]) + valor_digito(t[1]));
}

/// The month of any date written year, `-`, two-digit month, `-`, day
/// (with no `-` in the year's text, as for every year from 0 on) is that
/// month, counted from 0.
pub proof fn ley_mes_de_fecha(anio: Seq<char>, mes: int, dia: Seq<char>)
    requires
        forall|i: int| 0 <= i < anio.len() ==> anio[i] != '-',
        1 <= mes <= 12,
    ensures
        mes_de(anio + seq!['-'] + texto_dos_cifras(mes) + seq!['-'] + dia) == Some((mes - 1) as nat),
{
    let m = texto_dos_cifras(mes);
    let fecha = anio + seq!['-'] + m + seq!['-'] + dia;
    lema_dos_cifras_se_leen(mes);
    assert(fecha =~= anio + seq!['-'] + (m + seq!['-'] + dia));
    lema_tras_primer_prefijo(anio, '-', m + seq!['-'] + dia);
    lema_primer_tramo_prefijo(m, '-', dia);
}

/// The amounts of the entries whose key satisfies `p`, in order.
pub open spec fn montos_donde<A>(m: Seq<(A, (bool, nat, nat))>, p: spec_fn(A) -> bool) -> Seq<
    (bool, nat, nat),
>
    decreases m.len(),
{
    if m.len() == 0 {
        Seq::empty()
    } else {
        let previos = montos_donde(m.drop_last(), p);
        if p(m.last().0) {
            previos.push(m.last().1)
        } else {
            previos
        }
    }
}

/// Whether a date falls in month `k` (0 to 11).
pub open spec fn en_mes(k: nat) -> spec_fn(Seq<char>) -> bool {
    |f: Seq<char>| mes_de(f) == Some(k)
}

/// The amounts dated in month `k` (0 to 11), keyed by their dates.
pub open spec fn del_mes(m: Seq<(Seq<char>, (bool, nat, nat))>, k: nat) -> Seq<(bool, nat, nat)> {
    montos_donde(m, en_mes(k))
}

/// What the amounts of a prefix select is a prefix of what the whole selects.
pub proof fn lema_montos_donde_prefijo<A>(m: Seq<(A, (bool, nat, nat))>, p: spec_fn(A) -> bool, i: int)
    requires
        0 <= i <= m.len(),
    ensures
        montos_donde(m.take(i), p).len() <= montos_donde(m, p).len(),
        montos_donde(m, p).take(montos_donde(m.take(i), p).len() as int) == montos_donde(m.take(i), p),
    decreases m.len() - i,
{
    if i == m.len() {
        assert(m.take(i) =~= m);
        assert(montos_donde(m, p).take(montos_donde(m, p).len() as int) =~= montos_donde(m, p));
    } else {
        lema_montos_donde_prefijo(m, p, i + 1);
        let t = m.take(i + 1);
        assert(t.drop_last() =~= m.take(i));
        let a = montos_donde(m.take(i), p);
        let b = montos_donde(t, p);
        let c = montos_donde(m, p);
        if p(t.last().0) {
            assert(b == a.push(t.last().1));
            assert(c.take(a.len() as int) =~= b.take(a.len() as int));
            assert(b.take(a.len() as int) =~= a);
        } else {
            assert(b == a);
        }
    }
}

/// What a prefix has in month `k` is a prefix of what the whole has.
pub proof fn lema_del_mes_prefijo(m: Seq<(Seq<char>, (bool, nat, nat))>, k: nat, i: int)
    requires
        0 <= i <= m.len(),
    ensures
        del_mes(m.take(i), k).len() <= del_mes(m, k).len(),
        del_mes(m, k).take(del_mes(m.take(i), k).len() as int) == del_mes(m.take(i), k),
{
    lema_montos_donde_prefijo(m, en_mes(k), i);
}

/// A sum that overflows on a prefix overflows on the whole.
pub proof fn lema_suma_desborda_en_prefijo(s: Seq<(bool, nat, nat)>, i: int)
    requires
        0 <= i <= s.len(),
        suma_de(s.take(i)) is None,
    ensures
        suma_de(s) is None,
{
    crate::dinero::lema_suma_de_none_persiste(s, i);
}

/// Pairs each date with its amount.
pub open spec fn pares_fecha_monto(fechas: Seq<&str>, montos: Seq<Monto>) -> Seq<(Seq<char>, (bool, nat, nat))> {
    Seq::new(fechas.len(), |i: int| (fechas[i]@, montos[i]@))
}

/// Adds up the amounts of each month (as the dashboard's charts do, from
/// zero, in order). `None` exactly when the sum of some month overflows.
pub fn sumar_por_mes(fechas: &Vec<&str>, montos: &Vec<Monto>) -> (r: Option<Vec<Monto>>)
    requires
        fechas.len() == montos.len(),
        forall|i: int| 0 <= i < montos.len() ==> (#[trigger] montos@[i]).bien_formado(),
    ensures
        match r {
            Some(v) => v.len() == 12 && forall|k: int|
                0 <= k < 12 ==> (#[trigger] v@[k]).bien_formado() && suma_de(
                    del_mes(pares_fecha_monto(fechas@, montos@), k as nat),
                ) == Some(v@[k]@),
            None => exists|k: int|
                0 <= k < 12 && #[trigger] suma_de(del_mes(pares_fecha_monto(fechas@, montos@), k as nat))
                    is None,
        },
{
    let ghost m = pares_fecha_monto(fechas@, montos@);
    let mut sumas: Vec<Monto> = Vec::new();
    let mut k: usize = 0;
    while k < 12
        invariant
            k <= 12,
            sumas.len() == k,
            forall|j: int| 0 <= j < k ==> #[trigger] sumas@[j] == (Monto { negativo: false, magnitud: 0, escala: 0 }),
        decreases 12 - k,
    {
        sumas.push(Monto::cero());
        k = k + 1;
    }
    proof {
        assert(m.take(0) =~= Seq::<(Seq<char>, (bool, nat, nat))>::empty());
        assert forall|j: int| 0 <= j < 12 implies suma_de(del_mes(m.take(0), j as nat)) == Some(
            #[trigger] sumas@[j]@,
        ) by {
            assert(del_mes(m.take(0), j as nat) == Seq::<(bool, nat, nat)>::empty());
        }
    }
    let mut i: usize = 0;
    while i < fechas.len()
        invariant
            i <= fechas.len(),
            fechas.len() == montos.len(),
            m == pares_fecha_monto(fechas@, montos@),
            forall|q: int| 0 <= q < montos.len() ==> (#[trigger] montos@[q]).bien_formado(),
            sumas.len() == 12,
            forall|j: int|
                0 <= j < 12 ==> (#[trigger] sumas@[j]).bien_formado() && suma_de(
                    del_mes(m.take(i as int), j as nat),
                ) == Some(sumas@[j]@),
        decreases fechas.len() - i,
    {
        let ghost t = m.take(i + 1);
        proof {
            assert(t.drop_last() =~= m.take(i as int));
            assert(t.last() == (fechas@[i as int]@, montos@[i as int]@));
        }
        match extract_month(fechas[i]) {
            Some(mes) => {
                let x = montos[i];
                assert(montos@[i as int].bien_formado());
                let anterior = sumas[mes];
                match sumar(&anterior, &x) {
                    Some(s) => {
                        sumas.set(mes, s);
                        proof {
                            assert forall|j: int| 0 <= j < 12 implies (#[trigger] sumas@[j]).bien_formado()
                                && suma_de(del_mes(t, j as nat)) == Some(sumas@[j]@) by {
                                if j == mes {
                                    assert(del_mes(t, j as nat) == del_mes(m.take(i as int), j as nat).push(x@));
                                    assert(del_mes(t, j as nat).drop_last() =~= del_mes(m.take(i as int), j as nat));
                                } else {
                                    assert(del_mes(t, j as nat) == del_mes(m.take(i as int), j as nat));
                                }
                            }
                        }
                    },
                    None => {
                        proof {
                            let d = del_mes(t, mes as nat);
                            assert(d == del_mes(m.take(i as int), mes as nat).push(x@));
                            assert(d.drop_last() =~= del_mes(m.take(i as int), mes as nat));
                            assert(suma_de(d) is None);
                            lema_del_mes_prefijo(m, mes as nat, i + 1);
                            lema_suma_desborda_en_prefijo(del_mes(m, mes as nat), d.len() as int);
                            assert(suma_de(del_mes(m, mes as nat)) is None);
                        }
                        return None;
                    },
                }
            },
            None => {
                proof {
                    assert forall|j: int| 0 <= j < 12 implies (#[trigger] sumas@[j]).bien_formado()
                        && suma_de(del_mes(t, j as nat)) == Some(sumas@[j]@) by {
                        assert(del_mes(t, j as nat) == del_mes(m.take(i as int), j as nat));
                    }
                }
            },
        }
        i = i + 1;
    }
    assert(m.take(fechas.len() as int) =~= m);
    Some(sumas)
}

/// Whether a category is `c`.
pub open spec fn es_categoria(c: CategoriaGasto) -> spec_fn(CategoriaGasto) -> bool {
    |x: CategoriaGasto| x == c
}

/// The amounts of category `c`.
pub open spec fn de_categoria(m: Seq<(CategoriaGasto, (bool, nat, nat))>, c: CategoriaGasto) -> Seq<
    (bool, nat, nat),
> {
    montos_donde(m, es_categoria(c))
}

/// Pairs each category with its amount.
pub open spec fn pares_categoria_monto(cats: Seq<CategoriaGasto>, montos: Seq<Monto>) -> Seq<
    (CategoriaGasto, (bool, nat, nat)),
> {
    Seq::new(cats.len(), |i: int| (cats[i], montos[i]@))
}

/// What a prefix has of category `c` is a prefix of what the whole has.
pub proof fn lema_de_categoria_prefijo(m: Seq<(CategoriaGasto, (bool, nat, nat))>, c: CategoriaGasto, i: int)
    requires
        0 <= i <= m.len(),
    ensures
        de_categoria(m.take(i), c).len() <= de_categoria(m, c).len(),
        de_categoria(m, c).take(de_categoria(m.take(i), c).len() as int) == de_categoria(m.take(i), c),
{
    lema_montos_donde_prefijo(m, es_categoria(c), i);
}

/// Each entry of `v` holds the sum of its category's amounts in `m`.
#[verifier::opaque]
pub open spec fn sumas_exactas(v: Seq<(CategoriaGasto, Monto)>, m: Seq<(CategoriaGasto, (bool, nat, nat))>) -> bool {
    forall|j: int|
        0 <= j < v.len() ==> (#[trigger] v[j]).1.bien_formado() && suma_de(de_categoria(m, v[j].0))
            == Some(v[j].1@)
}

/// Each category of `v` occurs in `m`.
#[verifier::opaque]
pub open spec fn entradas_presentes(v: Seq<(CategoriaGasto, Monto)>, m: Seq<(CategoriaGasto, (bool, nat, nat))>) -> bool {
    forall|j: int| 0 <= j < v.len() ==> exists|t: int| 0 <= t < m.len() && (#[trigger] m[t]).0 == (#[trigger] v[j]).0
}

/// Each category that occurs in `m` has an entry in `v`.
#[verifier::opaque]
pub open spec fn todas_cubiertas(v: Seq<(CategoriaGasto, Monto)>, m: Seq<(CategoriaGasto, (bool, nat, nat))>) -> bool {
    forall|t: int| 0 <= t < m.len() ==> exists|j: int| 0 <= j < v.len() && (#[trigger] v[j]).0 == (#[trigger] m[t]).0
}

/// No category has two entries in `v`.
#[verifier::opaque]
pub open spec fn sin_repetir(v: Seq<(CategoriaGasto, Monto)>) -> bool {
    forall|j1: int, j2: int| 0 <= j1 < j2 < v.len() ==> (#[trigger] v[j1]).0 != (#[trigger] v[j2]).0
}

/// The sums by category of `m` as `v` holds them: one entry per category
/// that occurs, none twice, each with the sum of that category's amounts.
pub open spec fn sumas_por_categoria(
    v: Seq<(CategoriaGasto, Monto)>,
    m: Seq<(CategoriaGasto, (bool, nat, nat))>,
) -> bool {
    &&& sumas_exactas(v, m)
    &&& entradas_presentes(v, m)
    &&& todas_cubiertas(v, m)
    &&& sin_repetir(v)
}

/// Every category that `v` lacks has no amounts in `m`.
#[verifier::opaque]
pub open spec fn ausentes_sin_montos(v: Seq<(CategoriaGasto, Monto)>, m: Seq<(CategoriaGasto, (bool, nat, nat))>) -> bool {
    forall|c: CategoriaGasto|
        (forall|j: int| 0 <= j < v.len() ==> (#[trigger] v[j]).0 != c) ==> #[trigger] de_categoria(m, c)
            == Seq::<(bool, nat, nat)>::empty()
}

/// One more entry `(c, x)` adds `x` to the amounts of `c` and leaves the
/// other categories as they were.
proof fn lema_categoria_un_paso(
    p: Seq<(CategoriaGasto, (bool, nat, nat))>,
    t: Seq<(CategoriaGasto, (bool, nat, nat))>,
    c: CategoriaGasto,
    x: (bool, nat, nat),
)
    requires
        t.len() == p.len() + 1,
        t.drop_last() == p,
        t.last() == (c, x),
    ensures
        forall|d: CategoriaGasto| d != c ==> #[trigger] de_categoria(t, d) == de_categoria(p, d),
        de_categoria(t, c) == de_categoria(p, c).push(x),
        forall|q: int| 0 <= q < p.len() ==> #[trigger] t[q] == p[q],
        t[p.len() as int] == (c, x),
{
    assert forall|q: int| 0 <= q < p.len() implies #[trigger] t[q] == p[q] by {
        assert(t.drop_last()[q] == t[q]);
    }
    assert forall|d: CategoriaGasto| d != c implies #[trigger] de_categoria(t, d) == de_categoria(p, d) by {
        assert(!es_categoria(d)(t.last().0));
    }
    assert(es_categoria(c)(t.last().0));
}

/// A new entry `e0` with the same categories, where only the entry of `c`
/// changes or an entry for `c` is added, keeps the other categories' data.
proof fn lema_presentes_y_cubiertas(
    e0: Seq<(CategoriaGasto, Monto)>,
    e: Seq<(CategoriaGasto, Monto)>,
    p: Seq<(CategoriaGasto, (bool, nat, nat))>,
    t: Seq<(CategoriaGasto, (bool, nat, nat))>,
    j: int,
    c: CategoriaGasto,
)
    requires
        entradas_presentes(e0, p),
        todas_cubiertas(e0, p),
        t.len() == p.len() + 1,
        forall|q: int| 0 <= q < p.len() ==> #[trigger] t[q] == p[q],
        t[p.len() as int].0 == c,
        e0.len() <= e.len() <= e0.len() + 1,
        0 <= j < e.len(),
        e[j].0 == c,
        forall|q: int| 0 <= q < e0.len() ==> (#[trigger] e[q]).0 == e0[q].0,
        e.len() == e0.len() + 1 ==> j == e0.len(),
    ensures
        entradas_presentes(e, t),
        todas_cubiertas(e, t),
{
    reveal(entradas_presentes);
    reveal(todas_cubiertas);
    assert forall|q: int| 0 <= q < e.len() implies exists|u: int|
        0 <= u < t.len() && (#[trigger] t[u]).0 == (#[trigger] e[q]).0 by {
        if q == j {
            assert(t[p.len() as int].0 == e[q].0);
        } else {
            assert(q < e0.len());
            let u = choose|u: int| 0 <= u < p.len() && (#[trigger] p[u]).0 == (#[trigger] e0[q]).0;
            assert(t[u].0 == e[q].0);
        }
    }
    assert forall|u: int| 0 <= u < t.len() implies exists|q: int|
        0 <= q < e.len() && (#[trigger] e[q]).0 == (#[trigger] t[u]).0 by {
        if u == p.len() {
            assert(e[j].0 == t[u].0);
        } else {
            assert(p[u] == t[u]);
            let q = choose|q: int| 0 <= q < e0.len() && (#[trigger] e0[q]).0 == (#[trigger] p[u]).0;
            assert(e[q].0 == t[u].0);
        }
    }
}

/// Adding `s` to the entry of `c`, which is already there, keeps the sums
/// by category exact.
proof fn lema_categoria_existente(
    e0: Seq<(CategoriaGasto, Monto)>,
    p: Seq<(CategoriaGasto, (bool, nat, nat))>,
    t: Seq<(CategoriaGasto, (bool, nat, nat))>,
    j: int,
    c: CategoriaGasto,
    x: (bool, nat, nat),
    s: Monto,
)
    requires
        sumas_por_categoria(e0, p),
        ausentes_sin_montos(e0, p),
        t.len() == p.len() + 1,
        t.drop_last() == p,
        t.last() == (c, x),
        0 <= j < e0.len(),
        e0[j].0 == c,
        s.bien_formado(),
        suma_de(de_categoria(t, c)) == Some(s@),
    ensures
        sumas_por_categoria(e0.update(j, (c, s)), t),
        ausentes_sin_montos(e0.update(j, (c, s)), t),
{
    lema_categoria_un_paso(p, t, c, x);
    let e = e0.update(j, (c, s));
    assert(e[j] == (c, s));
    assert forall|q: int| 0 <= q < e.len() && q != j implies #[trigger] e[q] == e0[q] by {}
    assert forall|q: int| 0 <= q < e0.len() implies (#[trigger] e[q]).0 == e0[q].0 by {}
    lema_presentes_y_cubiertas(e0, e, p, t, j, c);
    assert(sin_repetir(e)) by {
        reveal(sin_repetir);
        assert forall|j1: int, j2: int| 0 <= j1 < j2 < e.len() implies (#[trigger] e[j1]).0 != (#[trigger] e[j2]).0 by {
            assert(e0[j1].0 != e0[j2].0);
        }
    }
    assert(sumas_exactas(e, t)) by {
        reveal(sumas_exactas);
        reveal(sin_repetir);
        assert forall|q: int| 0 <= q < e.len() implies (#[trigger] e[q]).1.bien_formado() && suma_de(
            de_categoria(t, e[q].0),
        ) == Some(e[q].1@) by {
            if q != j {
                if q < j {
                    assert(e0[q].0 != e0[j].0);
                } else {
                    assert(e0[j].0 != e0[q].0);
                }
                assert(e0[q].1.bien_formado() && suma_de(de_categoria(p, e0[q].0)) == Some(e0[q].1@));
            }
        }
    }
    assert(ausentes_sin_montos(e, t)) by {
        reveal(ausentes_sin_montos);
        assert forall|d: CategoriaGasto|
            (forall|q: int| 0 <= q < e.len() ==> (#[trigger] e[q]).0 != d) implies #[trigger] de_categoria(t, d)
                == Seq::<(bool, nat, nat)>::empty() by {
            assert(e[j].0 != d);
            assert forall|q: int| 0 <= q < e0.len() implies (#[trigger] e0[q]).0 != d by {
                assert(e[q].0 != d);
            }
        }
    }
}

/// A category seen for the first time gets an entry of its own amount.
proof fn lema_categoria_nueva(
    e0: Seq<(CategoriaGasto, Monto)>,
    p: Seq<(CategoriaGasto, (bool, nat, nat))>,
    t: Seq<(CategoriaGasto, (bool, nat, nat))>,
    c: CategoriaGasto,
    xm: Monto,
)
    requires
        sumas_por_categoria(e0, p),
        ausentes_sin_montos(e0, p),
        t.len() == p.len() + 1,
        t.drop_last() == p,
        t.last() == (c, xm@),
        forall|q: int| 0 <= q < e0.len() ==> (#[trigger] e0[q]).0 != c,
        xm.bien_formado(),
        suma_decimal((false, 0nat, 0nat), xm@) == Some(xm@),
    ensures
        sumas_por_categoria(e0.push((c, xm)), t),
        ausentes_sin_montos(e0.push((c, xm)), t),
{
    lema_categoria_un_paso(p, t, c, xm@);
    let e = e0.push((c, xm));
    assert(de_categoria(p, c) == Seq::<(bool, nat, nat)>::empty()) by {
        reveal(ausentes_sin_montos);
    }
    assert(de_categoria(t, c) =~= seq![xm@]);
    assert(seq![xm@].drop_last() =~= Seq::<(bool, nat, nat)>::empty());
    assert(suma_de(Seq::<(bool, nat, nat)>::empty()) == Some((false, 0nat, 0nat)));
    assert(suma_de(de_categoria(t, c)) == Some(xm@));
    assert forall|q: int| 0 <= q < e0.len() implies #[trigger] e[q] == e0[q] by {}
    assert forall|q: int| 0 <= q < e0.len() implies (#[trigger] e[q]).0 == e0[q].0 by {}
    lema_presentes_y_cubiertas(e0, e, p, t, e0.len() as int, c);
    assert(sin_repetir(e)) by {
        reveal(sin_repetir);
        assert forall|j1: int, j2: int| 0 <= j1 < j2 < e.len() implies (#[trigger] e[j1]).0 != (#[trigger] e[j2]).0 by {
            if j2 == e0.len() {
                assert(e0[j1].0 != c);
            } else {
                assert(e0[j1].0 != e0[j2].0);
            }
        }
    }
    assert(sumas_exactas(e, t)) by {
        reveal(sumas_exactas);
        assert forall|q: int| 0 <= q < e.len() implies (#[trigger] e[q]).1.bien_formado() && suma_de(
            de_categoria(t, e[q].0),
        ) == Some(e[q].1@) by {
            if q < e0.len() {
                assert(e0[q].0 != c);
                assert(e0[q].1.bien_formado() && suma_de(de_categoria(p, e0[q].0)) == Some(e0[q].1@));
            }
        }
    }
    assert(ausentes_sin_montos(e, t)) by {
        reveal(ausentes_sin_montos);
        assert forall|d: CategoriaGasto|
            (forall|q: int| 0 <= q < e.len() ==> (#[trigger] e[q]).0 != d) implies #[trigger] de_categoria(t, d)
                == Seq::<(bool, nat, nat)>::empty() by {
            assert(e[e0.len() as int].0 != d);
            assert forall|q: int| 0 <= q < e0.len() implies (#[trigger] e0[q]).0 != d by {
                assert(e[q].0 != d);
            }
        }
    }
}

/// Where the sums by category are exact, no category's sum overflows.
pub proof fn lema_categorias_sin_desborde(v: Seq<(CategoriaGasto, Monto)>, m: Seq<(CategoriaGasto, (bool, nat, nat))>)
    requires
        sumas_por_categoria(v, m),
    ensures
        forall|t: int| 0 <= t < m.len() ==> (#[trigger] suma_de(de_categoria(m, m[t].0))) is Some,
{
    reveal(sumas_exactas);
    reveal(todas_cubiertas);
    assert forall|t: int| 0 <= t < m.len() implies (#[trigger] suma_de(de_categoria(m, m[t].0))) is Some by {
        let j = choose|j: int| 0 <= j < v.len() && (#[trigger] v[j]).0 == (#[trigger] m[t]).0;
        assert(suma_de(de_categoria(m, v[j].0)) == Some(v[j].1@));
    }
}

/// Before any entry, there is no category and no amount.
proof fn lema_categorias_al_inicio(m: Seq<(CategoriaGasto, (bool, nat, nat))>)
    ensures
        sumas_por_categoria(Seq::<(CategoriaGasto, Monto)>::empty(), m.take(0)),
        ausentes_sin_montos(Seq::<(CategoriaGasto, Monto)>::empty(), m.take(0)),
{
    reveal(sumas_exactas);
    reveal(entradas_presentes);
    reveal(todas_cubiertas);
    reveal(sin_repetir);
    reveal(ausentes_sin_montos);
    assert(m.take(0) =~= Seq::<(CategoriaGasto, (bool, nat, nat))>::empty());
    assert forall|c: CategoriaGasto| true implies #[trigger] de_categoria(m.take(0), c)
        == Seq::<(bool, nat, nat)>::empty() by {}
}

/// Adds up the amounts of each category (as the dashboard's chart does,
/// from zero, in order), the categories in the order they first occur.
/// `None` exactly when the sum of some category overflows.
pub fn sumar_por_categoria(cats: &Vec<CategoriaGasto>, montos: &Vec<Monto>) -> (r: Option<
    Vec<(CategoriaGasto, Monto)>,
>)
    requires
        cats.len() == montos.len(),
        forall|i: int| 0 <= i < montos.len() ==> (#[trigger] montos@[i]).bien_formado(),
    ensures
        match r {
            Some(v) => sumas_por_categoria(v@, pares_categoria_monto(cats@, montos@)),
            None => exists|t: int|
                0 <= t < cats.len() && suma_de(
                    de_categoria(pares_categoria_monto(cats@, montos@), #[trigger] cats@[t]),
                ) is None,
        },
{
    let ghost m = pares_categoria_monto(cats@, montos@);
    let mut e: Vec<(CategoriaGasto, Monto)> = Vec::new();
    let mut i: usize = 0;
    proof {
        lema_categorias_al_inicio(m);
    }
    while i < cats.len()
        invariant
            i <= cats.len(),
            cats.len() == montos.len(),
            m == pares_categoria_monto(cats@, montos@),
            forall|q: int| 0 <= q < montos.len() ==> (#[trigger] montos@[q]).bien_formado(),
            sumas_por_categoria(e@, m.take(i as int)),
            ausentes_sin_montos(e@, m.take(i as int)),
        decreases cats.len() - i,
    {
        let c = cats[i];
        let x = montos[i];
        assert(montos@[i as int].bien_formado());
        let ghost p = m.take(i as int);
        let ghost t = m.take(i + 1);
        proof {
            assert(t.drop_last() =~= p);
            assert(t.last() == (c, x@));
        }
        let mut j: usize = 0;
        while j < e.len() && e[j].0 != c
            invariant
                j <= e.len(),
                forall|q: int| 0 <= q < j ==> (#[trigger] e@[q]).0 != c,
            decreases e.len() - j,
        {
            j = j + 1;
        }
        if j < e.len() {
            let anterior = e[j].1;
            assert(e@[j as int].1.bien_formado() && suma_de(de_categoria(p, c)) == Some(anterior@)) by {
                reveal(sumas_exactas);
            }
            match sumar(&anterior, &x) {
                Some(suma) => {
                    proof {
                        lema_categoria_un_paso(p, t, c, x@);
                        assert(de_categoria(t, c).drop_last() =~= de_categoria(p, c));
                        lema_categoria_existente(e@, p, t, j as int, c, x@, suma);
                    }
                    e.set(j, (c, suma));
                },
                None => {
                    proof {
                        lema_categoria_un_paso(p, t, c, x@);
                        assert(de_categoria(t, c).drop_last() =~= de_categoria(p, c));
                        assert(suma_de(de_categoria(t, c)) is None);
                        lema_de_categoria_prefijo(m, c, i + 1);
                        lema_suma_desborda_en_prefijo(de_categoria(m, c), de_categoria(t, c).len() as int);
                        assert(cats@[i as int] == c);
                    }
                    return None;
                },
            }
        } else {
            let uno = sumar(&Monto::cero(), &x);
            proof {
                lema_categoria_nueva(e@, p, t, c, x);
            }
            e.push((c, x));
        }
        i = i + 1;
    }
    assert(m.take(cats.len() as int) =~= m);
    Some(e)
}

/// Whether a credit still counts as active: it is not paid off.
pub open spec fn es_credito_activo(c: Credito) -> bool {
    c.estado != EstadoCredito::Pagado
}

/// The credits that are not paid off, in order.
pub open spec fn creditos_activos(s: Seq<Credito>) -> Seq<Credito> {
    s.filter(|c: Credito| es_credito_activo(c))
}

/// Keeps the credits that are not paid off.
pub fn filtrar_creditos_activos(v: &Vec<Credito>) -> (r: Vec<Credito>)
    ensures
        r@ == creditos_activos(v@),
{
    let mut r: Vec<Credito> = Vec::new();
    let mut i: usize = 0;
    proof {
        reveal(Seq::filter);
        assert(v@.take(0) =~= Seq::<Credito>::empty());
    }
    while i < v.len()
        invariant
            i <= v.len(),
            r@ == creditos_activos(v@.take(i as int)),
        decreases v.len() - i,
    {
        proof {
            reveal(Seq::filter);
            assert(v@.take(i + 1).drop_last() =~= v@.take(i as int));
        }
        if v[i].estado != EstadoCredito::Pagado {
            r.push(v[i].copia());
        }
        i = i + 1;
    }
    assert(v@.take(v.len() as int) =~= v@);
    r
}

/// Whether a document expires between two dates written `YYYY-MM-DD`
/// (compared as texts), both included.
pub open spec fn vence_entre(d: Documento, desde: Seq<char>, hasta: Seq<char>) -> bool {
    d.fecha_vencimiento matches Some(f) && lex_menor_igual(desde, f@) && lex_menor_igual(f@, hasta)
}

/// The documents that expire between two dates, in order.
pub open spec fn documentos_que_vencen(s: Seq<Documento>, desde: Seq<char>, hasta: Seq<char>) -> Seq<Documento> {
    s.filter(|d: Documento| vence_entre(d, desde, hasta))
}

/// Keeps the documents that expire between `desde` and `hasta`.
pub fn filtrar_por_vencer(v: &Vec<Documento>, desde: &str, hasta: &str) -> (r: Vec<Documento>)
    ensures
        r@ == documentos_que_vencen(v@, desde@, hasta@),
{
    let mut r: Vec<Documento> = Vec::new();
    let mut i: usize = 0;
    proof {
        reveal(Seq::filter);
        assert(v@.take(0) =~= Seq::<Documento>::empty());
    }
    while i < v.len()
        invariant
            i <= v.len(),
            r@ == documentos_que_vencen(v@.take(i as int), desde@, hasta@),
        decreases v.len() - i,
    {
        proof {
            reveal(Seq::filter);
            assert(v@.take(i + 1).drop_last() =~= v@.take(i as int));
        }
        let entra = match &v[i].fecha_vencimiento {
            Some(f) => texto_menor_igual(desde, f.as_str()) && texto_menor_igual(f.as_str(), hasta),
            None => false,
        };
        if entra {
            r.push(v[i].copia());
        }
        i = i + 1;
    }
    assert(v@.take(v.len() as int) =~= v@);
    r
}

// ───── The dashboard ─────

/// What the dashboard shows, computed from the user's data: the totals,
/// the balance, the debt, the sums by month (January first) and by
/// category, the documents about to expire, the first five incomes and
/// expenses as listed, and the credits that are not paid off.
#[derive(Clone, Debug)]
pub struct DatosTablero {
    pub total_ingresos: Monto,
    pub total_gastos: Monto,
    pub balance: Monto,
    pub deuda_total: Monto,
    pub ingresos_por_mes: Vec<Monto>,
    pub gastos_por_mes: Vec<Monto>,
    pub gastos_por_categoria: Vec<(CategoriaGasto, Monto)>,
    pub documentos_por_vencer: Vec<Documento>,
    pub ultimos_ingresos: Vec<Ingreso>,
    pub ultimos_gastos: Vec<Gasto>,
    pub creditos_activos: Vec<Credito>,
}

/// The dates and amounts of incomes.
pub open spec fn movimientos_ingresos(s: Seq<Ingreso>) -> Seq<(Seq<char>, (bool, nat, nat))> {
    Seq::new(s.len(), |i: int| (s[i].fecha@, s[i].monto@))
}

/// The dates and amounts of expenses.
pub open spec fn movimientos_gastos(s: Seq<Gasto>) -> Seq<(Seq<char>, (bool, nat, nat))> {
    Seq::new(s.len(), |i: int| (s[i].fecha@, s[i].monto@))
}

/// The categories and amounts of expenses.
pub open spec fn categorias_gastos(s: Seq<Gasto>) -> Seq<(CategoriaGasto, (bool, nat, nat))> {
    Seq::new(s.len(), |i: int| (s[i].categoria, s[i].monto@))
}

/// The amounts of incomes.
pub open spec fn montos_ingresos(s: Seq<Ingreso>) -> Seq<Monto> {
    s.map_values(|i: Ingreso| i.monto)
}

/// The amounts of expenses.
pub open spec fn montos_gastos(s: Seq<Gasto>) -> Seq<Monto> {
    s.map_values(|g: Gasto| g.monto)
}

/// What is still owed on each credit.
pub open spec fn saldos_creditos(s: Seq<Credito>) -> Seq<Monto> {
    s.map_values(|c: Credito| c.saldo_pendiente)
}

/// The first `n` items, or all of them where there are fewer.
pub open spec fn los_primeros<A>(s: Seq<A>, n: nat) -> Seq<A> {
    if s.len() <= n {
        s
    } else {
        s.take(n as int)
    }
}

/// The amounts of the dashboard fit a `Decimal`.
pub open spec fn montos_del_tablero(ingresos: Seq<Ingreso>, gastos: Seq<Gasto>, creditos: Seq<Credito>) -> bool {
    &&& forall|i: int| 0 <= i < ingresos.len() ==> (#[trigger] ingresos[i]).monto.bien_formado()
    &&& forall|i: int| 0 <= i < gastos.len() ==> (#[trigger] gastos[i]).monto.bien_formado()
    &&& forall|i: int| 0 <= i < creditos.len() ==> (#[trigger] creditos[i]).saldo_pendiente.bien_formado()
}

/// No sum of the dashboard overflows a `Decimal` (where one does, the
/// dashboard cannot be computed).
pub open spec fn tablero_sin_desborde(ingresos: Seq<Ingreso>, gastos: Seq<Gasto>, creditos: Seq<Credito>) -> bool {
    let ti = suma_de(vistas(montos_ingresos(ingresos)));
    let tg = suma_de(vistas(montos_gastos(gastos)));
    &&& ti is Some
    &&& tg is Some
    &&& resta_decimal(ti.unwrap(), tg.unwrap()) is Some
    &&& suma_de(vistas(saldos_creditos(creditos))) is Some
    &&& forall|k: nat| k < 12 ==> (#[trigger] suma_de(del_mes(movimientos_ingresos(ingresos), k))) is Some
    &&& forall|k: nat| k < 12 ==> (#[trigger] suma_de(del_mes(movimientos_gastos(gastos), k))) is Some
    &&& forall|t: int|
        0 <= t < gastos.len() ==> (#[trigger] suma_de(de_categoria(categorias_gastos(gastos), gastos[t].categoria)))
            is Some
}

/// `d` is the dashboard of the given data, with the documents that expire
/// between `hoy` and `limite`.
pub open spec fn es_tablero_de(
    d: DatosTablero,
    ingresos: Seq<Ingreso>,
    gastos: Seq<Gasto>,
    creditos: Seq<Credito>,
    documentos: Seq<Documento>,
    hoy: Seq<char>,
    limite: Seq<char>,
) -> bool {
    &&& d.total_ingresos.bien_formado() && suma_de(vistas(montos_ingresos(ingresos))) == Some(d.total_ingresos@)
    &&& d.total_gastos.bien_formado() && suma_de(vistas(montos_gastos(gastos))) == Some(d.total_gastos@)
    &&& d.balance.bien_formado() && resta_decimal(d.total_ingresos@, d.total_gastos@) == Some(d.balance@)
    &&& d.deuda_total.bien_formado() && suma_de(vistas(saldos_creditos(creditos))) == Some(d.deuda_total@)
    &&& d.ingresos_por_mes.len() == 12
    &&& forall|k: int|
        0 <= k < 12 ==> (#[trigger] d.ingresos_por_mes@[k]).bien_formado() && suma_de(
            del_mes(movimientos_ingresos(ingresos), k as nat),
        ) == Some(d.ingresos_por_mes@[k]@)
    &&& d.gastos_por_mes.len() == 12
    &&& forall|k: int|
        0 <= k < 12 ==> (#[trigger] d.gastos_por_mes@[k]).bien_formado() && suma_de(
            del_mes(movimientos_gastos(gastos), k as nat),
        ) == Some(d.gastos_por_mes@[k]@)
    &&& sumas_por_categoria(d.gastos_por_categoria@, categorias_gastos(gastos))
    &&& d.documentos_por_vencer@ == documentos_que_vencen(documentos, hoy, limite)
    &&& d.ultimos_ingresos@ == los_primeros(ingresos, 5)
    &&& d.ultimos_gastos@ == los_primeros(gastos, 5)
    &&& d.creditos_activos@ == creditos_activos(creditos)
}

/// The dates and amounts of incomes, as vectors.
pub(crate) fn fechas_y_montos_de_ingresos<'a>(v: &'a Vec<Ingreso>) -> (r: (Vec<&'a str>, Vec<Monto>))
    ensures
        r.0.len() == v.len(),
        r.1@ == montos_ingresos(v@),
        pares_fecha_monto(r.0@, r.1@) == movimientos_ingresos(v@),
{
    let mut fechas: Vec<&'a str> = Vec::new();
    let mut montos: Vec<Monto> = Vec::new();
    let mut i: usize = 0;
    while i < v.len()
        invariant
            i <= v.len(),
            fechas.len() == i,
            montos@ == montos_ingresos(v@).take(i as int),
            forall|q: int| 0 <= q < i ==> (#[trigger] fechas@[q])@ == v@[q].fecha@,
        decreases v.len() - i,
    {
        fechas.push(v[i].fecha.as_str());
        montos.push(v[i].monto);
        assert(montos_ingresos(v@).take(i + 1) =~= montos_ingresos(v@).take(i as int).push(v@[i as int].monto));
        i = i + 1;
    }
    assert(montos@ =~= montos_ingresos(v@));
    assert(pares_fecha_monto(fechas@, montos@) =~= movimientos_ingresos(v@));
    (fechas, montos)
}

/// The dates, categories and amounts of expenses, as vectors.
pub(crate) fn datos_de_gastos<'a>(v: &'a Vec<Gasto>) -> (r: (Vec<&'a str>, Vec<CategoriaGasto>, Vec<Monto>))
    ensures
        r.0.len() == v.len(),
        r.1.len() == v.len(),
        r.2@ == montos_gastos(v@),
        pares_fecha_monto(r.0@, r.2@) == movimientos_gastos(v@),
        pares_categoria_monto(r.1@, r.2@) == categorias_gastos(v@),
{
    let mut fechas: Vec<&'a str> = Vec::new();
    let mut cats: Vec<CategoriaGasto> = Vec::new();
    let mut montos: Vec<Monto> = Vec::new();
    let mut i: usize = 0;
    while i < v.len()
        invariant
            i <= v.len(),
            fechas.len() == i,
            cats.len() == i,
            montos@ == montos_gastos(v@).take(i as int),
            forall|q: int| 0 <= q < i ==> (#[trigger] fechas@[q])@ == v@[q].fecha@,
            forall|q: int| 0 <= q < i ==> #[trigger] cats@[q] == v@[q].categoria,
        decreases v.len() - i,
    {
        fechas.push(v[i].fecha.as_str());
        cats.push(v[i].categoria);
        montos.push(v[i].monto);
        assert(montos_gastos(v@).take(i + 1) =~= montos_gastos(v@).take(i as int).push(v@[i as int].monto));
        i = i + 1;
    }
    assert(montos@ =~= montos_gastos(v@));
    assert(pares_fecha_monto(fechas@, montos@) =~= movimientos_gastos(v@));
    assert(pares_categoria_monto(cats@, montos@) =~= categorias_gastos(v@));
    (fechas, cats, montos)
}

/// What is still owed on each credit, as a vector.
pub(crate) fn saldos_de(v: &Vec<Credito>) -> (r: Vec<Monto>)
    ensures
        r@ == saldos_creditos(v@),
{
    let mut r: Vec<Monto> = Vec::new();
    let mut i: usize = 0;
    while i < v.len()
        invariant
            i <= v.len(),
            r@ == saldos_creditos(v@).take(i as int),
        decreases v.len() - i,
    {
        r.push(v[i].saldo_pendiente);
        assert(saldos_creditos(v@).take(i + 1) =~= saldos_creditos(v@).take(i as int).push(v@[i as int].saldo_pendiente));
        i = i + 1;
    }
    assert(r@ =~= saldos_creditos(v@));
    r
}

/// The dashboard of the given data, with the documents that expire between
/// `hoy` and `limite` (dates `YYYY-MM-DD`, both included). `None` exactly
/// where one of its sums overflows a `Decimal`.
pub fn datos_tablero(
    ingresos: Vec<Ingreso>,
    gastos: Vec<Gasto>,
    creditos: Vec<Credito>,
    documentos: Vec<Documento>,
    hoy: &str,
    limite: &str,
) -> (r: Option<DatosTablero>)
    requires
        montos_del_tablero(ingresos@, gastos@, creditos@),
    ensures
        match r {
            Some(d) => tablero_sin_desborde(ingresos@, gastos@, creditos@) && es_tablero_de(
                d,
                ingresos@,
                gastos@,
                creditos@,
                documentos@,
                hoy@,
                limite@,
            ),
            None => !tablero_sin_desborde(ingresos@, gastos@, creditos@),
        },
{
    let ghost vi = ingresos@;
    let ghost vg = gastos@;
    let mut ingresos = ingresos;
    let mut gastos = gastos;
    let (fechas_i, montos_i) = fechas_y_montos_de_ingresos(&ingresos);
    let (fechas_g, cats_g, montos_g) = datos_de_gastos(&gastos);
    let saldos = saldos_de(&creditos);
    assert(todos_bien_formados(montos_i@));
    assert(todos_bien_formados(montos_g@));
    assert(todos_bien_formados(saldos@));
    let total_ingresos = match sumar_todos(&montos_i) {
        Some(t) => t,
        None => {
            return None;
        },
    };
    let total_gastos = match sumar_todos(&montos_g) {
        Some(t) => t,
        None => {
            return None;
        },
    };
    let balance = match restar(&total_ingresos, &total_gastos) {
        Some(b) => b,
        None => {
            return None;
        },
    };
    let deuda_total = match sumar_todos(&saldos) {
        Some(t) => t,
        None => {
            return None;
        },
    };
    let ingresos_por_mes = match sumar_por_mes(&fechas_i, &montos_i) {
        Some(v) => v,
        None => {
            assert(!tablero_sin_desborde(vi, vg, creditos@)) by {
                let k = choose|k: int| 0 <= k < 12 && #[trigger] suma_de(del_mes(movimientos_ingresos(vi), k as nat)) is None;
                assert(suma_de(del_mes(movimientos_ingresos(vi), k as nat)) is None);
            }
            return None;
        },
    };
    let gastos_por_mes = match sumar_por_mes(&fechas_g, &montos_g) {
        Some(v) => v,
        None => {
            assert(!tablero_sin_desborde(vi, vg, creditos@)) by {
                let k = choose|k: int| 0 <= k < 12 && #[trigger] suma_de(del_mes(movimientos_gastos(vg), k as nat)) is None;
                assert(suma_de(del_mes(movimientos_gastos(vg), k as nat)) is None);
            }
            return None;
        },
    };
    let gastos_por_categoria = match sumar_por_categoria(&cats_g, &montos_g) {
        Some(v) => v,
        None => {
            assert(!tablero_sin_desborde(vi, vg, creditos@)) by {
                let t = choose|t: int| 0 <= t < cats_g.len() && suma_de(
                    de_categoria(categorias_gastos(vg), #[trigger] cats_g@[t]),
                ) is None;
                assert(categorias_gastos(vg)[t].0 == cats_g@[t]);
                assert(suma_de(de_categoria(categorias_gastos(vg), vg[t].categoria)) is None);
            }
            return None;
        },
    };
    let documentos_por_vencer = filtrar_por_vencer(&documentos, hoy, limite);
    let creditos_activos = filtrar_creditos_activos(&creditos);
    ingresos.truncate(5);
    gastos.truncate(5);
    assert(ingresos@ =~= los_primeros(vi, 5));
    assert(gastos@ =~= los_primeros(vg, 5));
    let d = DatosTablero {
        total_ingresos,
        total_gastos,
        balance,
        deuda_total,
        ingresos_por_mes,
        gastos_por_mes,
        gastos_por_categoria,
        documentos_por_vencer,
        ultimos_ingresos: ingresos,
        ultimos_gastos: gastos,
        creditos_activos,
    };
    assert(es_tablero_de(d, vi, vg, creditos@, documentos@, hoy@, limite@));
    proof {
        assert forall|k: nat| k < 12 implies (#[trigger] suma_de(del_mes(movimientos_ingresos(vi), k))) is Some by {
            assert(d.ingresos_por_mes@[k as int].bien_formado());
        }
        assert forall|k: nat| k < 12 implies (#[trigger] suma_de(del_mes(movimientos_gastos(vg), k))) is Some by {
            assert(d.gastos_por_mes@[k as int].bien_formado());
        }
        lema_categorias_sin_desborde(d.gastos_por_categoria@, categorias_gastos(vg));
        assert forall|t: int| 0 <= t < vg.len() implies (#[trigger] suma_de(
            de_categoria(categorias_gastos(vg), vg[t].categoria),
        )) is Some by {
            assert(categorias_gastos(vg)[t].0 == vg[t].categoria);
        }
    }
    Some(d)
}

/// The dashboard as of today, by the local clock (read once): the date
/// read, and the dashboard whose documents shown are those that expire
/// between today and 30 days from now. No dashboard where the sums
/// overflow, or where the date 30 days on leaves `chrono`'s calendar
/// (past the year 262000 at the earliest).
pub fn tablero_de_hoy(
    ingresos: Vec<Ingreso>,
    gastos: Vec<Gasto>,
    creditos: Vec<Credito>,
    documentos: Vec<Documento>,
) -> (r: (FechaCalendario, Option<DatosTablero>))
    requires
        montos_del_tablero(ingresos@, gastos@, creditos@),
    ensures
        es_fecha_valida(r.0.anio as int, r.0.mes as int, r.0.dia as int),
        match r.1 {
            Some(d) => tablero_sin_desborde(ingresos@, gastos@, creditos@) && (fecha_mas_dias(
                r.0.anio as int,
                r.0.mes as int,
                r.0.dia as int,
                30,
            ) matches Some(limite) && es_tablero_de(
                d,
                ingresos@,
                gastos@,
                creditos@,
                documentos@,
                fecha_formateada(r.0.anio as int, r.0.mes as int, r.0.dia as int),
                limite,
            )),
            None => !tablero_sin_desborde(ingresos@, gastos@, creditos@) || fecha_mas_dias(
                r.0.anio as int,
                r.0.mes as int,
                r.0.dia as int,
                30,
            ) is None,
        },
        r.0.anio <= 262000 ==> (r.1 is Some <==> tablero_sin_desborde(ingresos@, gastos@, creditos@)),
{
    let fecha = hoy_local();
    let hoy = fecha_en_dias(&fecha, 0);
    let limite = fecha_en_dias(&fecha, 30);
    match (hoy, limite) {
        (Some(hoy), Some(limite)) => {
            let d = datos_tablero(ingresos, gastos, creditos, documentos, hoy.as_str(), limite.as_str());
            (fecha, d)
        },
        _ => (fecha, None),
    }
}

// ───── A project's payments ─────

/// What has been paid of a project's payments (their value minus what is
/// still owed), and what remains of the budget (none counts as zero)
/// after that. `None` where the `Decimal` arithmetic overflows.
pub fn abonado_y_pendiente(presupuesto: Option<Monto>, total_valor: Monto, total_saldo: Monto) -> (r: Option<
    (Monto, Monto),
>)
    requires
        presupuesto matches Some(p) ==> p.bien_formado(),
        total_valor.bien_formado(),
        total_saldo.bien_formado(),
    ensures
        ({
            let p = match presupuesto {
                Some(p) => p,
                None => monto_cero(),
            };
            match r {
                Some((abonado, pendiente)) => abonado.bien_formado() && pendiente.bien_formado() && resta_decimal(
                    total_valor@,
                    total_saldo@,
                ) == Some(abonado@) && resta_decimal(p@, abonado@) == Some(pendiente@),
                None => match resta_decimal(total_valor@, total_saldo@) {
                    Some(a) => resta_decimal(p@, a) is None,
                    None => true,
                },
            }
        }),
{
    let p = match presupuesto {
        Some(p) => p,
        None => Monto::cero(),
    };
    let abonado = match restar(&total_valor, &total_saldo) {
        Some(a) => a,
        None => {
            return None;
        },
    };
    match restar(&p, &abonado) {
        Some(pendiente) => Some((abonado, pendiente)),
        None => None,
    }
}

/// What the budget (none counts as zero) leaves for new payments after the
/// values of the existing ones. `None` where the `Decimal` arithmetic
/// overflows.
pub fn saldo_disponible(presupuesto: Option<Monto>, pagos: &Vec<PagoExistente>) -> (r: Option<Monto>)
    requires
        presupuesto matches Some(p) ==> p.bien_formado(),
        forall|i: int| 0 <= i < pagos.len() ==> (#[trigger] pagos@[i]).valor.bien_formado(),
    ensures
        ({
            let p = match presupuesto {
                Some(p) => p,
                None => monto_cero(),
            };
            match r {
                Some(s) => s.bien_formado() && (suma_de(vistas(valores_de(pagos@))) matches Some(t)
                    && resta_decimal(p@, t) == Some(s@)),
                None => match suma_de(vistas(valores_de(pagos@))) {
                    Some(t) => resta_decimal(p@, t) is None,
                    None => true,
                },
            }
        }),
{
    let p = match presupuesto {
        Some(p) => p,
        None => Monto::cero(),
    };
    let mut valores: Vec<Monto> = Vec::new();
    let mut i: usize = 0;
    while i < pagos.len()
        invariant
            i <= pagos.len(),
            valores@ == valores_de(pagos@).take(i as int),
        decreases pagos.len() - i,
    {
        valores.push(pagos[i].valor);
        assert(valores_de(pagos@).take(i + 1) =~= valores_de(pagos@).take(i as int).push(pagos@[i as int].valor));
        i = i + 1;
    }
    assert(valores@ =~= valores_de(pagos@));
    assert(todos_bien_formados(valores@));
    let total = match sumar_todos(&valores) {
        Some(t) => t,
        None => {
            return None;
        },
    };
    restar(&p, &total)
}

/// The query of the new-payment form.
#[derive(Clone, Debug)]
pub struct NewPagoQuery {
    pub error: Option<String>,
}

/// The error shown on the new-payment form: only where the query says the
/// last payment exceeded the budget, with what is still available.
pub fn error_de_nuevo_pago(error: &Option<String>, disponible: &Monto) -> (r: Option<String>)
    requires
        disponible.bien_formado(),
    ensures
        (error matches Some(e) && e@ == "excede_presupuesto"@) ==> (r matches Some(m) && m@
            == "El pago excede el presupuesto disponible. Máximo permitido: $"@ + texto_monto(*disponible)),
        !(error matches Some(e) && e@ == "excede_presupuesto"@) ==> r is None,
{
    match error {
        Some(e) => {
            if iguales(e.as_str(), "excede_presupuesto") {
                let mut m = String::from_str("El pago excede el presupuesto disponible. Máximo permitido: $");
                m.append(formatear_monto(disponible).as_str());
                Some(m)
            } else {
                None
            }
        },
        None => None,
    }
}

// ───── Redirects ─────

/// The page of a project's payments: `/proyectos/{id}/pagos`.
pub fn ruta_pagos_de_proyecto(id: i32) -> (r: String)
    ensures
        r@ == "/proyectos/"@ + texto_entero(id as int) + "/pagos"@,
{
    let mut r = String::from_str("/proyectos/");
    r.append(entero_a_texto(id as i64).as_str());
    r.append("/pagos");
    r
}

/// The new-payment form of a project, told that the budget was exceeded.
pub fn ruta_pago_excedido(id: i32) -> (r: String)
    ensures
        r@ == "/proyectos/"@ + texto_entero(id as int) + "/pagos/new?error=excede_presupuesto"@,
{
    let mut r = String::from_str("/proyectos/");
    r.append(entero_a_texto(id as i64).as_str());
    r.append("/pagos/new?error=excede_presupuesto");
    r
}

/// Where to go after acting on a payment: its project's payments, or the
/// list of projects where the form names no project.
pub fn ruta_tras_pago(proyecto_id: Option<i32>) -> (r: String)
    ensures
        match proyecto_id {
            Some(id) => r@ == "/proyectos/"@ + texto_entero(id as int) + "/pagos"@,
            None => r@ == "/proyectos"@,
        },
{
    match proyecto_id {
        Some(id) => ruta_pagos_de_proyecto(id),
        None => String::from_str("/proyectos"),
    }
}

/// A field of a multipart form: its name, and the name of the file it
/// carries, where it carries one.
#[derive(Clone, Debug)]
pub struct CampoFormulario {
    pub nombre: String,
    pub archivo: Option<String>,
}

/// A field that carries an evidence file, the client's or the builder's.
pub open spec fn es_campo_evidencia(nombre: Seq<char>) -> bool {
    nombre == "evidencia_cliente"@ || nombre == "evidencia_constructora"@
}

/// The index of the last evidence field among the first `n` fields.
pub open spec fn ultima_evidencia_hasta(campos: Seq<CampoFormulario>, n: int) -> Option<int>
    decreases n,
{
    if n <= 0 {
        None
    } else if es_campo_evidencia(campos[n - 1].nombre@) {
        Some(n - 1)
    } else {
        ultima_evidencia_hasta(campos, n - 1)
    }
}

/// The index of the last evidence field of a form: each one replaces the
/// ones before it.
pub open spec fn ultima_evidencia(campos: Seq<CampoFormulario>) -> Option<int> {
    ultima_evidencia_hasta(campos, campos.len() as int)
}

/// The kind of evidence that a field carries: `cliente` for the client's,
/// `constructora` for the builder's.
pub open spec fn tipo_de_evidencia(nombre: Seq<char>) -> Seq<char> {
    if nombre == "evidencia_cliente"@ {
        "cliente"@
    } else {
        "constructora"@
    }
}

proof fn lema_ultima_evidencia_rango(campos: Seq<CampoFormulario>, n: int)
    requires
        n <= campos.len(),
    ensures
        ultima_evidencia_hasta(campos, n) matches Some(i) ==> 0 <= i < n && es_campo_evidencia(
            campos[i].nombre@,
        ),
    decreases n,
{
    if n > 0 {
        lema_ultima_evidencia_rango(campos, n - 1);
    }
}

/// The evidence file that an upload form gives: the last evidence field,
/// with its kind. `None` (the request is refused) where the form has no
/// evidence field, or the last one carries no file name.
pub fn evidencia_elegida(campos: &Vec<CampoFormulario>) -> (r: Option<(usize, String)>)
    ensures
        match r {
            Some((i, tipo)) => ultima_evidencia(campos@) == Some(i as int) && campos@[i as int].archivo is Some
                && tipo@ == tipo_de_evidencia(campos@[i as int].nombre@),
            None => match ultima_evidencia(campos@) {
                Some(i) => campos@[i].archivo is None,
                None => true,
            },
        },
{
    let mut ultima: Option<usize> = None;
    let mut k: usize = 0;
    while k < campos.len()
        invariant
            k <= campos.len(),
            match ultima {
                Some(i) => ultima_evidencia_hasta(campos@, k as int) == Some(i as int),
                None => ultima_evidencia_hasta(campos@, k as int) is None,
            },
        decreases campos.len() - k,
    {
        let nombre = campos[k].nombre.as_str();
        proof {
            reveal_strlit("evidencia_cliente");
            reveal_strlit("evidencia_constructora");
        }
        if iguales(nombre, "evidencia_cliente") || iguales(nombre, "evidencia_constructora") {
            ultima = Some(k);
        }
        k = k + 1;
    }
    proof {
        lema_ultima_evidencia_rango(campos@, campos@.len() as int);
    }
    match ultima {
        Some(i) => {
            if campos[i].archivo.is_none() {
                None
            } else {
                let tipo = if iguales(campos[i].nombre.as_str(), "evidencia_cliente") {
                    String::from_str("cliente")
                } else {
                    String::from_str("constructora")
                };
                proof {
                    reveal_strlit("cliente");
                    reveal_strlit("constructora");
                    reveal_strlit("evidencia_cliente");
                }
                Some((i, tipo))
            }
        },
        None => None,
    }
}

/// A project's page: `/proyectos/{id}`.
pub fn ruta_proyecto(id: i32) -> (r: String)
    ensures
        r@ == "/proyectos/"@ + texto_entero(id as int),
{
    let mut r = String::from_str("/proyectos/");
    r.append(entero_a_texto(id as i64).as_str());
    r
}

// ───── Forms ─────

/// A text that is given and not empty.
pub open spec fn no_vacio(o: Option<String>) -> Option<String> {
    match o {
        Some(t) => if t@.len() > 0 {
            Some(t)
        } else {
            None
        },
        None => None,
    }
}

/// Keeps a text only where it is not empty.
pub fn filtrar_vacio(o: Option<String>) -> (r: Option<String>)
    ensures
        r == no_vacio(o),
{
    match o {
        Some(t) => if t.unicode_len() > 0 {
            Some(t)
        } else {
            None
        },
        None => None,
    }
}

/// `r` is what `Decimal::from_str` gives for the optional text, where one
/// is given (`.and_then(|p| p.parse().ok())`).
pub open spec fn monto_opcional(r: Option<Monto>, texto: Option<String>) -> bool {
    match texto {
        Some(t) => resultado(r, monto_de_texto(t@)),
        None => r is None,
    }
}

/// Reads an optional amount; a text that is no amount gives none.
pub fn leer_monto_opcional(texto: &Option<String>) -> (r: Option<Monto>)
    ensures
        monto_opcional(r, *texto),
{
    match texto {
        Some(t) => leer_monto(t.as_str()),
        None => None,
    }
}

/// The form that changes a project's state.
#[derive(Clone, Debug)]
pub struct CambiarEstadoForm {
    pub estado: String,
}

/// The form of a new payment of a project.
#[derive(Clone, Debug)]
pub struct CreatePagoProyectoForm {
    pub descripcion: String,
    pub valor: String,
    pub mes: String,
    pub anio: String,
}

/// The fields of a payment (new or edited): all required, the value an
/// amount. `None` (a bad request) where one is missing or the value does
/// not read.
pub fn pago_de_campos(
    descripcion: Option<String>,
    valor: Option<String>,
    mes: Option<String>,
    anio: Option<String>,
    proyecto_id: Option<i32>,
) -> (r: Option<CreatePagoDto>)
    ensures
        match r {
            Some(d) => descripcion == Some(d.descripcion) && mes == Some(d.mes) && anio == Some(d.anio)
                && d.proyecto_id == proyecto_id && (valor matches Some(v) && resultado(
                Some(d.valor),
                monto_de_texto(v@),
            )),
            None => descripcion is None || mes is None || anio is None || (match valor {
                Some(v) => monto_de_texto(v@) is None,
                None => true,
            }),
        },
{
    let descripcion = match descripcion {
        Some(d) => d,
        None => {
            return None;
        },
    };
    let valor = match valor {
        Some(v) => match leer_monto(v.as_str()) {
            Some(m) => m,
            None => {
                return None;
            },
        },
        None => {
            return None;
        },
    };
    let mes = match mes {
        Some(m) => m,
        None => {
            return None;
        },
    };
    let anio = match anio {
        Some(a) => a,
        None => {
            return None;
        },
    };
    Some(CreatePagoDto { descripcion, valor, mes, anio, proyecto_id })
}

impl CreatePagoProyectoForm {
    /// The new payment of project `proyecto_id`; `None` where the value
    /// does not read.
    pub fn a_dto(self, proyecto_id: i32) -> (r: Option<CreatePagoDto>)
        ensures
            match r {
                Some(d) => d.descripcion == self.descripcion && d.mes == self.mes && d.anio == self.anio
                    && d.proyecto_id == Some(proyecto_id) && resultado(Some(d.valor), monto_de_texto(self.valor@)),
                None => monto_de_texto(self.valor@) is None,
            },
    {
        pago_de_campos(Some(self.descripcion), Some(self.valor), Some(self.mes), Some(self.anio), Some(proyecto_id))
    }
}

/// The form of a new project.
#[derive(Clone, Debug)]
pub struct CreateProyectoForm {
    pub nombre: String,
    pub descripcion: Option<String>,
    pub presupuesto: Option<String>,
    pub cliente: Option<String>,
    pub responsable: Option<String>,
}

impl CreateProyectoForm {
    /// The new project: a budget that does not read counts as none.
    pub fn a_dto(self) -> (r: CreateProyectoDto)
        ensures
            r.nombre == self.nombre,
            r.descripcion == self.descripcion,
            monto_opcional(r.presupuesto, self.presupuesto),
            r.fecha_fin_estimada is None,
            r.cliente == self.cliente,
            r.responsable == self.responsable,
    {
        let presupuesto = leer_monto_opcional(&self.presupuesto);
        CreateProyectoDto {
            nombre: self.nombre,
            descripcion: self.descripcion,
            presupuesto,
            fecha_fin_estimada: None,
            cliente: self.cliente,
            responsable: self.responsable,
        }
    }
}

/// The form that edits a project.
#[derive(Clone, Debug)]
pub struct UpdateProyectoForm {
    pub nombre: Option<String>,
    pub descripcion: Option<String>,
    pub presupuesto: Option<String>,
    pub cliente: Option<String>,
    pub responsable: Option<String>,
}

impl UpdateProyectoForm {
    /// The changes: a budget that does not read counts as none.
    pub fn a_dto(self) -> (r: UpdateProyectoDto)
        ensures
            r.nombre == self.nombre,
            r.descripcion == self.descripcion,
            monto_opcional(r.presupuesto, self.presupuesto),
            r.fecha_fin_estimada is None,
            r.cliente == self.cliente,
            r.responsable == self.responsable,
    {
        let presupuesto = leer_monto_opcional(&self.presupuesto);
        UpdateProyectoDto {
            nombre: self.nombre,
            descripcion: self.descripcion,
            presupuesto,
            fecha_fin_estimada: None,
            cliente: self.cliente,
            responsable: self.responsable,
        }
    }
}

/// The form of an action on a payment, with the project to go back to.
#[derive(Clone, Copy, Debug)]
pub struct PagoRedirectForm {
    pub proyecto_id: Option<i32>,
}

/// The form of an income (new or edited).
#[derive(Clone, Debug)]
pub struct CreateIngresoForm {
    pub descripcion: String,
    pub monto: String,
    pub categoria: String,
    pub fuente: Option<String>,
    pub fecha: String,
    pub recurrente: Option<String>,
}

impl CreateIngresoForm {
    /// The income; recurring where the box was ticked. `None` (a bad
    /// request) where the amount does not read.
    pub fn a_dto(self) -> (r: Option<CreateIngresoDto>)
        ensures
            match r {
                Some(d) => d.descripcion == self.descripcion && resultado(Some(d.monto), monto_de_texto(self.monto@))
                    && d.categoria == self.categoria && d.fuente == self.fuente && d.fecha == self.fecha
                    && d.recurrente == self.recurrente is Some,
                None => monto_de_texto(self.monto@) is None,
            },
    {
        let monto = match leer_monto(self.monto.as_str()) {
            Some(m) => m,
            None => {
                return None;
            },
        };
        let recurrente = self.recurrente.is_some();
        Some(
            CreateIngresoDto {
                descripcion: self.descripcion,
                monto,
                categoria: self.categoria,
                fuente: self.fuente,
                fecha: self.fecha,
                recurrente,
            },
        )
    }
}

/// The fields of an expense (new or edited): description, amount, category
/// and date required, the amount an amount; an empty person in charge
/// counts as none. `None` (a bad request) where a required field is
/// missing or the amount does not read.
pub fn gasto_de_campos(
    descripcion: Option<String>,
    monto: Option<String>,
    categoria: Option<String>,
    responsable: Option<String>,
    fecha: Option<String>,
) -> (r: Option<CreateGastoDto>)
    ensures
        match r {
            Some(d) => descripcion == Some(d.descripcion) && categoria == Some(d.categoria) && fecha == Some(d.fecha)
                && d.responsable == no_vacio(responsable) && (monto matches Some(m) && resultado(
                Some(d.monto),
                monto_de_texto(m@),
            )),
            None => descripcion is None || categoria is None || fecha is None || (match monto {
                Some(m) => monto_de_texto(m@) is None,
                None => true,
            }),
        },
{
    let descripcion = match descripcion {
        Some(d) => d,
        None => {
            return None;
        },
    };
    let monto = match monto {
        Some(m) => match leer_monto(m.as_str()) {
            Some(x) => x,
            None => {
                return None;
            },
        },
        None => {
            return None;
        },
    };
    let categoria = match categoria {
        Some(c) => c,
        None => {
            return None;
        },
    };
    let fecha = match fecha {
        Some(f) => f,
        None => {
            return None;
        },
    };
    Some(CreateGastoDto { descripcion, monto, categoria, responsable: filtrar_vacio(responsable), fecha })
}

/// The fields of a new document: name and category required; an empty
/// description or expiry date counts as none. `None` (a bad request) where
/// a required field is missing.
pub fn documento_de_campos(
    nombre: Option<String>,
    descripcion: Option<String>,
    categoria: Option<String>,
    fecha_vencimiento: Option<String>,
) -> (r: Option<CreateDocumentoDto>)
    ensures
        match r {
            Some(d) => nombre == Some(d.nombre) && categoria == Some(d.categoria) && d.descripcion == no_vacio(
                descripcion,
            ) && d.fecha_vencimiento == no_vacio(fecha_vencimiento),
            None => nombre is None || categoria is None,
        },
{
    let nombre = match nombre {
        Some(n) => n,
        None => {
            return None;
        },
    };
    let categoria = match categoria {
        Some(c) => c,
        None => {
            return None;
        },
    };
    Some(
        CreateDocumentoDto {
            nombre,
            descripcion: filtrar_vacio(descripcion),
            categoria,
            fecha_vencimiento: filtrar_vacio(fecha_vencimiento),
        },
    )
}

/// The form of a recurring expense (new or edited).
#[derive(Clone, Debug)]
pub struct CreateGastoRecurrenteForm {
    pub descripcion: String,
    pub monto_referencia: String,
    pub categoria: String,
    pub tipo: String,
    pub responsable: Option<String>,
    pub dia_facturacion: String,
}

impl CreateGastoRecurrenteForm {
    /// The recurring expense: an empty person in charge counts as none, a
    /// billing day that does not read as an `i32` counts as the first.
    /// `None` (a bad request) where the amount does not read.
    pub fn a_dto(self) -> (r: Option<CreateGastoRecurrenteDto>)
        ensures
            match r {
                Some(d) => d.descripcion == self.descripcion && resultado(
                    Some(d.monto_referencia),
                    monto_de_texto(self.monto_referencia@),
                ) && d.categoria == self.categoria && d.tipo == self.tipo && d.responsable == no_vacio(
                    self.responsable,
                ) && d.dia_facturacion == (match entero_leido(
                    self.dia_facturacion@,
                    true,
                    i32::MIN as int,
                    i32::MAX as int,
                ) {
                    Some(v) => v,
                    None => 1,
                }),
                None => monto_de_texto(self.monto_referencia@) is None,
            },
    {
        let monto_referencia = match leer_monto(self.monto_referencia.as_str()) {
            Some(m) => m,
            None => {
                return None;
            },
        };
        let dia_facturacion = match leer_i32(self.dia_facturacion.as_str()) {
            Some(d) => d,
            None => 1,
        };
        Some(
            CreateGastoRecurrenteDto {
                descripcion: self.descripcion,
                monto_referencia,
                categoria: self.categoria,
                tipo: self.tipo,
                responsable: filtrar_vacio(self.responsable),
                dia_facturacion,
            },
        )
    }
}

/// The form that generates the variable expenses of a month.
#[derive(Clone, Debug)]
pub struct GenerarGastosForm {
    pub mes: String,
    pub anio: String,
}

impl GenerarGastosForm {
    /// The month (a `u32`) and year (an `i32`); `None` (a bad request)
    /// where either does not read.
    pub fn a_dto(&self) -> (r: Option<GenerarGastosDto>)
        ensures
            match r {
                Some(d) => entero_leido(self.mes@, false, 0, u32::MAX as int) == Some(d.mes as int)
                    && entero_leido(self.anio@, true, i32::MIN as int, i32::MAX as int) == Some(d.anio as int),
                None => entero_leido(self.mes@, false, 0, u32::MAX as int) is None || entero_leido(
                    self.anio@,
                    true,
                    i32::MIN as int,
                    i32::MAX as int,
                ) is None,
            },
    {
        let mes = match leer_u32(self.mes.as_str()) {
            Some(m) => m,
            None => {
                return None;
            },
        };
        let anio = match leer_i32(self.anio.as_str()) {
            Some(a) => a,
            None => {
                return None;
            },
        };
        Some(GenerarGastosDto { mes, anio })
    }
}

/// The form of a credit (new or edited).
#[derive(Clone, Debug)]
pub struct CreateCreditoForm {
    pub entidad: String,
    pub descripcion: String,
    pub monto_total: String,
    pub tasa_interes: String,
    pub tipo_tasa: String,
    pub cuotas_totales: String,
    pub valor_cuota: String,
    pub fecha_inicio: String,
    pub fecha_fin_estimada: Option<String>,
}

impl CreateCreditoForm {
    /// The credit: an empty end date counts as none. `None` (a bad request)
    /// where an amount, the rate or the number of instalments does not
    /// read.
    pub fn a_dto(self) -> (r: Option<CreateCreditoDto>)
        ensures
            match r {
                Some(d) => d.entidad == self.entidad && d.descripcion == self.descripcion && resultado(
                    Some(d.monto_total),
                    monto_de_texto(self.monto_total@),
                ) && resultado(Some(d.tasa_interes), monto_de_texto(self.tasa_interes@)) && d.tipo_tasa
                    == self.tipo_tasa && entero_leido(self.cuotas_totales@, true, i32::MIN as int, i32::MAX as int)
                    == Some(d.cuotas_totales as int) && resultado(Some(d.valor_cuota), monto_de_texto(self.valor_cuota@))
                    && d.fecha_inicio == self.fecha_inicio && d.fecha_fin_estimada == no_vacio(self.fecha_fin_estimada),
                None => monto_de_texto(self.monto_total@) is None || monto_de_texto(self.tasa_interes@) is None
                    || entero_leido(self.cuotas_totales@, true, i32::MIN as int, i32::MAX as int) is None
                    || monto_de_texto(self.valor_cuota@) is None,
            },
    {
        let monto_total = match leer_monto(self.monto_total.as_str()) {
            Some(m) => m,
            None => {
                return None;
            },
        };
        let tasa_interes = match leer_monto(self.tasa_interes.as_str()) {
            Some(m) => m,
            None => {
                return None;
            },
        };
        let cuotas_totales = match leer_i32(self.cuotas_totales.as_str()) {
            Some(c) => c,
            None => {
                return None;
            },
        };
        let valor_cuota = match leer_monto(self.valor_cuota.as_str()) {
            Some(m) => m,
            None => {
                return None;
            },
        };
        Some(
            CreateCreditoDto {
                entidad: self.entidad,
                descripcion: self.descripcion,
                monto_total,
                tasa_interes,
                tipo_tasa: self.tipo_tasa,
                cuotas_totales,
                valor_cuota,
                fecha_inicio: self.fecha_inicio,
                fecha_fin_estimada: filtrar_vacio(self.fecha_fin_estimada),
            },
        )
    }
}

// ───── Recurring expenses ─────

/// The reference amounts of the active templates, in order.
pub open spec fn referencias_activas(s: Seq<GastoRecurrente>) -> Seq<Monto>
    decreases s.len(),
{
    if s.len() == 0 {
        Seq::empty()
    } else {
        let previas = referencias_activas(s.drop_last());
        if s.last().activo {
            previas.push(s.last().monto_referencia)
        } else {
            previas
        }
    }
}

/// What the active templates add up to in a month: the sum of their
/// reference amounts. `None` where that sum overflows.
pub fn monto_mensual_estimado(v: &Vec<GastoRecurrente>) -> (r: Option<Monto>)
    requires
        forall|i: int| 0 <= i < v.len() ==> (#[trigger] v@[i]).monto_referencia.bien_formado(),
    ensures
        resultado(r, suma_de(vistas(referencias_activas(v@)))),
{
    let mut activos: Vec<Monto> = Vec::new();
    let mut i: usize = 0;
    assert(v@.take(0) =~= Seq::<GastoRecurrente>::empty());
    while i < v.len()
        invariant
            i <= v.len(),
            activos@ == referencias_activas(v@.take(i as int)),
            forall|q: int| 0 <= q < v.len() ==> (#[trigger] v@[q]).monto_referencia.bien_formado(),
            todos_bien_formados(activos@),
        decreases v.len() - i,
    {
        assert(v@.take(i + 1).drop_last() =~= v@.take(i as int));
        if v[i].activo {
            activos.push(v[i].monto_referencia);
        }
        i = i + 1;
    }
    assert(v@.take(v.len() as int) =~= v@);
    sumar_todos(&activos)
}

/// The monthly estimate counts exactly the active templates, of every
/// kind: the amounts summed are the reference amounts of the templates
/// with `activo`, in order, and none other.
pub proof fn ley_estimado_de_activos(s: Seq<GastoRecurrente>)
    ensures
        referencias_activas(s) == s.filter(|p: GastoRecurrente| p.activo).map_values(
            |p: GastoRecurrente| p.monto_referencia,
        ),
    decreases s.len(),
{
    reveal(Seq::filter);
    if s.len() > 0 {
        ley_estimado_de_activos(s.drop_last());
        let f = s.drop_last().filter(|p: GastoRecurrente| p.activo);
        if s.last().activo {
            assert(f.push(s.last()).map_values(|p: GastoRecurrente| p.monto_referencia) =~= f.map_values(
                |p: GastoRecurrente| p.monto_referencia,
            ).push(s.last().monto_referencia));
        }
    } else {
        assert(s.filter(|p: GastoRecurrente| p.activo).map_values(|p: GastoRecurrente| p.monto_referencia)
            =~= Seq::<Monto>::empty());
    }
}

} // verus!
