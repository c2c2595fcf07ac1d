//! What the JSON API computes: its envelopes, its paging defaults and the
//! dashboard totals.
use vstd::prelude::*;
use crate::dinero::{resta_decimal, restar, suma_de, sumar_todos, todos_bien_formados, vistas, Monto};
use crate::domain::entities::credito::Credito;
use crate::domain::entities::gasto::Gasto;
use crate::domain::entities::ingreso::Ingreso;
use crate::presentation::web::handlers::{
    datos_de_gastos, fechas_y_montos_de_ingresos, montos_del_tablero, montos_gastos, montos_ingresos, saldos_creditos,
    saldos_de,
};

verus! {

/// The envelope of every answer of the API.
#[derive(Clone, Debug)]
pub struct ApiResponse<T> {
    pub success: bool,
    pub data: Option<T>,
    pub message: Option<String>,
}

impl<T> ApiResponse<T> {
    /// A successful answer carrying `data`.
    pub fn ok(data: T) -> (r: Self)
        ensures
            r.success,
            r.data == Some(data),
            r.message is None,
    {
        ApiResponse { success: true, data: Some(data), message: None }
    }

    /// A failed answer carrying a message.
    pub fn error(msg: &str) -> (r: Self)
        ensures
            !r.success,
            r.data is None,
            r.message matches Some(m) && m@ == msg@,
    {
        ApiResponse { success: false, data: None, message: Some(String::from_str(msg)) }
    }
}

/// The paging of a list: which page, and how many items per page.
#[derive(Clone, Copy, Debug)]
pub struct PaginationQuery {
    pub page: u32,
    pub page_size: u32,
}

/// The page when the query names none: the first.
pub fn default_page() -> (r: u32)
    ensures
        r == 1,
{
    1
}

/// The page size when the query names none.
pub fn default_page_size() -> (r: u32)
    ensures
        r == 20,
{
    20
}

/// One page of a list, with the total number of items.
#[derive(Clone, Debug)]
pub struct PaginatedResponse<T> {
    pub items: Vec<T>,
    pub total: i64,
    pub page: u32,
    pub page_size: u32,
}

/// The totals of the API's dashboard.
#[derive(Clone, Copy, Debug)]
pub struct DashboardData {
    pub total_ingresos: Monto,
    pub total_gastos: Monto,
    pub balance: Monto,
    pub deuda_total: Monto,
    pub proyectos_activos: i64,
}

/// No total of the API's dashboard overflows a `Decimal`.
pub open spec fn totales_sin_desborde(ingresos: Seq<Ingreso>, gastos: Seq<Gasto>, creditos: Seq<Credito>) -> bool {
    let ti = suma_de(vistas(montos_ingresos(ingresos)));
    let tg = suma_de(vistas(montos_gastos(gastos)));
    &&& ti is Some
    &&& tg is Some
    &&& suma_de(vistas(saldos_creditos(creditos))) is Some
    &&& resta_decimal(ti.unwrap(), tg.unwrap()) is Some
}

/// The totals of the API's dashboard: what the incomes and the expenses add
/// up to, their difference, what the credits still owe, and the number of
/// active projects as given. `None` exactly where one of them overflows.
pub fn datos_dashboard(
    ingresos: &Vec<Ingreso>,
    gastos: &Vec<Gasto>,
    creditos: &Vec<Credito>,
    proyectos_activos: i64,
) -> (r: Option<DashboardData>)
    requires
        montos_del_tablero(ingresos@, gastos@, creditos@),
    ensures
        match r {
            Some(d) => totales_sin_desborde(ingresos@, gastos@, creditos@) && d.total_ingresos.bien_formado()
                && suma_de(vistas(montos_ingresos(ingresos@))) == Some(d.total_ingresos@)
                && d.total_gastos.bien_formado() && suma_de(vistas(montos_gastos(gastos@))) == Some(d.total_gastos@)
                && d.deuda_total.bien_formado() && suma_de(vistas(saldos_creditos(creditos@))) == Some(d.deuda_total@)
                && d.balance.bien_formado() && resta_decimal(d.total_ingresos@, d.total_gastos@) == Some(d.balance@)
                && d.proyectos_activos == proyectos_activos,
            None => !totales_sin_desborde(ingresos@, gastos@, creditos@),
        },
{
    let (_, montos_i) = fechas_y_montos_de_ingresos(ingresos);
    let (_, _, montos_g) = datos_de_gastos(gastos);
    let saldos = saldos_de(creditos);
    assert(todos_bien_formados(montos_i@));
    assert(todos_bien_formados(montos_g@));
    assert(todos_bien_formados(saldos@));
    let total_ingresos = match sumar_todos(&montos_i) {
        Some(t) => t,
        None => {
            return None;
        },
    };
    let total_gastos = match sumar_todos(&montos_g) {
        Some(t) => t,
        None => {
            return None;
        },
    };
    let deuda_total = match sumar_todos(&saldos) {
        Some(t) => t,
        None => {
            return None;
        },
    };
    let balance = match restar(&total_ingresos, &total_gastos) {
        Some(b) => b,
        None => {
            return None;
        },
    };
    Some(DashboardData { total_ingresos, total_gastos, balance, deuda_total, proyectos_activos })
}

} // verus!
