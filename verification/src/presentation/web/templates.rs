//! The data of the HTML pages, and how money is shown on them.
use vstd::prelude::*;
use crate::application::dto::ProyectoSummaryDto;
use crate::dinero::{formatear_sin_decimales, texto_truncado, Monto};
use crate::domain::entities::credito::Credito;
use crate::domain::entities::documento::Documento;
use crate::domain::entities::gasto::Gasto;
use crate::domain::entities::gasto_recurrente::GastoRecurrente;
use crate::domain::entities::ingreso::Ingreso;
use crate::domain::entities::pago_existente::PagoExistente;
use crate::domain::entities::proyecto::Proyecto;
use crate::texto::{comienza_con, empieza_con, subtexto};

verus! {

/// Digits grouped by thousands from the right, with `.` between groups.
pub open spec fn con_puntos(d: Seq<char>) -> Seq<char>
    decreases d.len(),
{
    if d.len() <= 3 {
        d
    } else {
        con_puntos(d.take(d.len() - 3)) + seq!['.'] + d.skip(d.len() - 3)
    }
}

/// A number's text with thousands separated by `.`, its leading `-` kept
/// in front.
pub open spec fn separado_por_miles(s: Seq<char>) -> Seq<char> {
    if empieza_con(s, "-"@) {
        seq!['-'] + con_puntos(s.skip(1))
    } else {
        con_puntos(s)
    }
}

/// Appends `con_puntos` of the first `n` chars of `s`.
fn escribir_con_puntos(out: &mut String, s: &str, desde: usize, n: usize)
    requires
        desde + n <= s@.len(),
        s@.len() <= usize::MAX,
    ensures
        final(out)@ == old(out)@ + con_puntos(s@.subrange(desde as int, desde + n)),
    decreases n,
{
    let ghost d = s@.subrange(desde as int, desde + n);
    if n <= 3 {
        let t = subtexto(s, desde, desde + n);
        out.append(t.as_str());
    } else {
        escribir_con_puntos(out, s, desde, n - 3);
        out.append(".");
        let t = subtexto(s, desde + n - 3, desde + n);
        out.append(t.as_str());
        proof {
            reveal_strlit(".");
            assert(d.take(d.len() - 3) =~= s@.subrange(desde as int, desde + n - 3));
            assert(d.skip(d.len() - 3) =~= s@.subrange(desde + n - 3, desde + n));
        }
    }
}

/// Separates thousands with `.` (a leading `-` stays in front).
pub fn add_thousands_separator(s: &str) -> (r: String)
    ensures
        r@ == separado_por_miles(s@),
{
    let n = s.unicode_len();
    let mut r = String::new();
    if comienza_con(s, "-") {
        proof {
            reveal_strlit("-");
        }
        r.append("-");
        escribir_con_puntos(&mut r, s, 1, n - 1);
        assert(s@.subrange(1, n as int) =~= s@.skip(1));
        assert(Seq::<char>::empty() + "-"@ + con_puntos(s@.skip(1)) =~= seq!['-'] + con_puntos(
            s@.skip(1),
        ));
    } else {
        escribir_con_puntos(&mut r, s, 0, n);
        assert(s@.subrange(0, n as int) =~= s@);
        assert(Seq::<char>::empty() + con_puntos(s@) =~= con_puntos(s@));
    }
    r
}

/// How an amount is shown: `$`, then its whole part (truncated) with
/// thousands separated by `.`.
pub open spec fn dinero_mostrado(m: Monto) -> Seq<char> {
    seq!['$'] + separado_por_miles(texto_truncado(m))
}

/// Shows an amount of money, e.g. `$1.234.567`.
pub fn format_money(value: &Monto) -> (r: String)
    requires
        value.bien_formado(),
    ensures
        r@ == dinero_mostrado(*value),
{
    let s = formatear_sin_decimales(value);
    let separado = add_thousands_separator(s.as_str());
    let mut r = String::from_str("$");
    r.append(separado.as_str());
    proof {
        reveal_strlit("$");
        assert(r@ =~= seq!['$'] + separado_por_miles(texto_truncado(*value)));
    }
    r
}

/// Removing the separators gives back the digits.
pub open spec fn sin_puntos(s: Seq<char>) -> Seq<char>
    decreases s.len(),
{
    if s.len() == 0 {
        s
    } else if s.last() == '.' {
        sin_puntos(s.drop_last())
    } else {
        sin_puntos(s.drop_last()).push(s.last())
    }
}

proof fn lema_sin_puntos_concat(a: Seq<char>, b: Seq<char>)
    ensures
        sin_puntos(a + b) == sin_puntos(a) + sin_puntos(b),
    decreases b.len(),
{
    if b.len() == 0 {
        assert(a + b =~= a);
        assert(sin_puntos(a) + sin_puntos(b) =~= sin_puntos(a));
    } else {
        assert((a + b).drop_last() =~= a + b.drop_last());
        lema_sin_puntos_concat(a, b.drop_last());
        if b.last() == '.' {
        } else {
            assert(sin_puntos(a) + sin_puntos(b.drop_last()).push(b.last()) =~= (sin_puntos(a)
                + sin_puntos(b.drop_last())).push(b.last()));
        }
    }
}

proof fn lema_sin_puntos_identidad(d: Seq<char>)
    requires
        forall|i: int| 0 <= i < d.len() ==> d[i] != '.',
    ensures
        sin_puntos(d) == d,
    decreases d.len(),
{
    if d.len() > 0 {
        lema_sin_puntos_identidad(d.drop_last());
        assert(sin_puntos(d.drop_last()).push(d.last()) =~= d);
    }
}

/// Separating thousands only inserts `.`: removing them gives back the
/// digits, and no group holds more than three of them.
pub proof fn ley_separar_miles_conserva_cifras(d: Seq<char>)
    requires
        forall|i: int| 0 <= i < d.len() ==> d[i] != '.',
    ensures
        sin_puntos(con_puntos(d)) == d,
    decreases d.len(),
{
    if d.len() > 3 {
        let a = d.take(d.len() - 3);
        let b = d.skip(d.len() - 3);
        ley_separar_miles_conserva_cifras(a);
        lema_sin_puntos_concat(con_puntos(a) + seq!['.'], b);
        lema_sin_puntos_concat(con_puntos(a), seq!['.']);
        assert(sin_puntos(seq!['.']) =~= Seq::<char>::empty()) by {
            assert(seq!['.'].drop_last() =~= Seq::<char>::empty());
            assert(sin_puntos(Seq::<char>::empty()) =~= Seq::<char>::empty());
            assert(seq!['.'].last() == '.');
        }
        lema_sin_puntos_identidad(b);
        assert(a + b =~= d);
        assert(sin_puntos(con_puntos(a)) + Seq::<char>::empty() =~= sin_puntos(con_puntos(a)));
    } else {
        lema_sin_puntos_identidad(d);
    }
}

/// The length of the first group of a number of `n` digits (`n > 0`):
/// what is left after the groups of three.
pub open spec fn primer_grupo(n: int) -> int {
    n - 3 * ((n - 1) / 3)
}

/// Separating thousands puts a `.` after a first group of one to three
/// digits and then after every third digit: the text is `(n - 1) / 3`
/// chars longer than the `n` digits, and a char is a `.` exactly where
/// it follows the first group by a multiple of four.
pub proof fn ley_grupos_de_tres(d: Seq<char>)
    requires
        d.len() > 0,
        forall|i: int| 0 <= i < d.len() ==> d[i] != '.',
    ensures
        1 <= primer_grupo(d.len() as int) <= 3,
        con_puntos(d).len() == d.len() + (d.len() - 1) / 3,
        forall|i: int|
            0 <= i < con_puntos(d).len() ==> ((#[trigger] con_puntos(d)[i] == '.') <==> (i
                >= primer_grupo(d.len() as int) && (i - primer_grupo(d.len() as int)) % 4 == 0)),
    decreases d.len(),
{
    let n = d.len() as int;
    let k = (n - 1) / 3;
    let f = primer_grupo(n);
    assert(0 <= (n - 1) % 3 < 3);
    assert(n - 1 == 3 * k + (n - 1) % 3);
    if n > 3 {
        let a = d.take(n - 3);
        let b = d.skip(n - 3);
        ley_grupos_de_tres(a);
        let ka = (n - 4) / 3;
        assert(ka == k - 1) by {
            assert(n - 4 == 3 * (k - 1) + (n - 1) % 3);
        }
        assert(primer_grupo(n - 3) == f);
        let ca = con_puntos(a);
        let la = ca.len() as int;
        assert(la == n - 3 + ka);
        assert(con_puntos(d) =~= ca + seq!['.'] + b);
        assert forall|i: int| 0 <= i < con_puntos(d).len() implies ((#[trigger] con_puntos(d)[i]
            == '.') <==> (i >= f && (i - f) % 4 == 0)) by {
            if i < la {
                assert(con_puntos(d)[i] == ca[i]);
            } else if i == la {
                assert(i - f == 4 * ka);
                assert((4 * ka) % 4 == 0) by (nonlinear_arith)
                    requires ka >= 0;
            } else {
                let j = i - la;
                assert(con_puntos(d)[i] == b[j - 1]);
                assert(b[j - 1] == d[n - 3 + j - 1]);
                assert(i - f == 4 * ka + j);
                assert((4 * ka + j) % 4 == j) by (nonlinear_arith)
                    requires ka >= 0, 1 <= j <= 3;
            }
        }
    } else {
        assert(k == 0);
    }
}

// ───── Page data ─────

/// The home page.
#[derive(Clone, Debug)]
pub struct HomeTemplate {
    pub title: String,
}

/// The dashboard page. The chart series are JSON texts for Chart.js.
#[derive(Clone, Debug)]
pub struct DashboardTemplate {
    pub title: String,
    pub balance: Monto,
    pub total_ingresos: Monto,
    pub total_gastos: Monto,
    pub deuda_total: Monto,
    pub num_ingresos: usize,
    pub num_gastos: usize,
    pub num_creditos: usize,
    pub proyectos_activos: i64,
    pub ultimos_ingresos: Vec<Ingreso>,
    pub ultimos_gastos: Vec<Gasto>,
    pub creditos_activos: Vec<Credito>,
    pub chart_labels_json: String,
    pub chart_ingresos_json: String,
    pub chart_gastos_json: String,
    pub chart_categorias_gastos_labels_json: String,
    pub chart_categorias_gastos_data_json: String,
    pub documentos_por_vencer: Vec<Documento>,
}

/// The list of projects.
#[derive(Clone, Debug)]
pub struct ProyectosListTemplate {
    pub title: String,
    pub proyectos: Vec<Proyecto>,
    pub summary: ProyectoSummaryDto,
}

/// The form for a new project.
#[derive(Clone, Debug)]
pub struct NewProyectoTemplate {
    pub title: String,
}

/// A project's page.
#[derive(Clone, Debug)]
pub struct ShowProyectoTemplate {
    pub title: String,
    pub proyecto: Proyecto,
}

/// The form to edit a project.
#[derive(Clone, Debug)]
pub struct EditProyectoTemplate {
    pub title: String,
    pub proyecto: Proyecto,
}

/// A project's payment plan, one page of it.
#[derive(Clone, Debug)]
pub struct PagosProyectoTemplate {
    pub title: String,
    pub proyecto: Proyecto,
    pub pagos: Vec<PagoExistente>,
    pub total_valor: Monto,
    pub total_abonado: Monto,
    pub saldo_pendiente_proyecto: Monto,
    pub total_pagos: usize,
    pub pagos_completados: usize,
    pub current_page: u32,
    pub total_pages: u32,
}

/// The form for a new payment of a project.
#[derive(Clone, Debug)]
pub struct NewPagoProyectoTemplate {
    pub title: String,
    pub proyecto: Proyecto,
    pub error: Option<String>,
    pub saldo_disponible: Monto,
}

/// The form to edit a payment.
#[derive(Clone, Debug)]
pub struct EditPagoTemplate {
    pub title: String,
    pub pago: PagoExistente,
}

/// The list of incomes, one page of it.
#[derive(Clone, Debug)]
pub struct IngresosListTemplate {
    pub title: String,
    pub ingresos: Vec<Ingreso>,
    pub total_ingresos: usize,
    pub monto_total: Monto,
    pub current_page: u32,
    pub total_pages: u32,
}

/// The form for a new income.
#[derive(Clone, Debug)]
pub struct NewIngresoTemplate {
    pub title: String,
}

/// The list of expenses, one page of it.
#[derive(Clone, Debug)]
pub struct GastosListTemplate {
    pub title: String,
    pub gastos: Vec<Gasto>,
    pub total_gastos: usize,
    pub monto_total: Monto,
    pub current_page: u32,
    pub total_pages: u32,
}

/// The form for a new expense.
#[derive(Clone, Debug)]
pub struct NewGastoTemplate {
    pub title: String,
}

/// The form to edit an income.
#[derive(Clone, Debug)]
pub struct EditIngresoTemplate {
    pub title: String,
    pub ingreso: Ingreso,
}

/// The form to edit an expense.
#[derive(Clone, Debug)]
pub struct EditGastoTemplate {
    pub title: String,
    pub gasto: Gasto,
}

/// The list of credits, one page of it.
#[derive(Clone, Debug)]
pub struct CreditosListTemplate {
    pub title: String,
    pub creditos: Vec<Credito>,
    pub total_creditos: usize,
    pub deuda_total: Monto,
    pub current_page: u32,
    pub total_pages: u32,
}

/// The form for a new credit.
#[derive(Clone, Debug)]
pub struct NewCreditoTemplate {
    pub title: String,
}

/// The form to edit a credit.
#[derive(Clone, Debug)]
pub struct EditCreditoTemplate {
    pub title: String,
    pub credito: Credito,
}

/// The list of documents, one page of it.
#[derive(Clone, Debug)]
pub struct DocumentosListTemplate {
    pub title: String,
    pub documentos: Vec<Documento>,
    pub total_documentos: usize,
    pub current_page: u32,
    pub total_pages: u32,
}

/// The form for a new document.
#[derive(Clone, Debug)]
pub struct NewDocumentoTemplate {
    pub title: String,
}

/// The list of recurring expense templates.
#[derive(Clone, Debug)]
pub struct GastosRecurrentesListTemplate {
    pub title: String,
    pub gastos_recurrentes: Vec<GastoRecurrente>,
    pub total_recurrentes: usize,
    pub monto_mensual_estimado: Monto,
    pub pendientes_generar: u32,
    pub mes_actual: String,
}

/// The form for a new recurring expense.
#[derive(Clone, Debug)]
pub struct NewGastoRecurrenteTemplate {
    pub title: String,
}

/// The form to edit a recurring expense.
#[derive(Clone, Debug)]
pub struct EditGastoRecurrenteTemplate {
    pub title: String,
    pub gasto_recurrente: GastoRecurrente,
}

} // verus!
