//! The data that the services receive and return.
use vstd::prelude::*;
use crate::dinero::Monto;

verus! {

// ───── Files ─────

/// A file to register.
#[derive(Clone, Debug)]
pub struct CreateArchivoDto {
    pub nombre_original: String,
    pub tipo_contenido: String,
    pub tamanio: i64,
    pub pago_id: Option<i64>,
}

/// A file to upload, with its bytes.
#[derive(Clone, Debug)]
pub struct UploadFileDto {
    pub file_data: Vec<u8>,
    pub nombre_original: String,
    pub tipo_contenido: String,
    pub pago_id: Option<i64>,
}

// ───── Credits ─────

/// A credit to create or edit.
#[derive(Clone, Debug)]
pub struct CreateCreditoDto {
    pub entidad: String,
    pub descripcion: String,
    pub monto_total: Monto,
    pub tasa_interes: Monto,
    pub tipo_tasa: String,
    pub cuotas_totales: i32,
    pub valor_cuota: Monto,
    pub fecha_inicio: String,
    pub fecha_fin_estimada: Option<String>,
}

// ───── Documents ─────

/// A document to create.
#[derive(Clone, Debug)]
pub struct CreateDocumentoDto {
    pub nombre: String,
    pub descripcion: Option<String>,
    pub categoria: String,
    pub fecha_vencimiento: Option<String>,
}

// ───── Expenses ─────

/// An expense to create or edit; `fecha` is `YYYY-MM-DD`.
#[derive(Clone, Debug)]
pub struct CreateGastoDto {
    pub descripcion: String,
    pub monto: Monto,
    pub categoria: String,
    pub responsable: Option<String>,
    pub fecha: String,
}

/// Totals of expenses.
#[derive(Clone, Debug)]
pub struct GastoSummaryDto {
    pub total_gastos: i64,
    pub monto_total: Monto,
    pub por_categoria: Vec<(String, Monto)>,
}

/// A recurring expense template to create or edit.
#[derive(Clone, Debug)]
pub struct CreateGastoRecurrenteDto {
    pub descripcion: String,
    pub monto_referencia: Monto,
    pub categoria: String,
    pub tipo: String,
    pub responsable: Option<String>,
    pub dia_facturacion: i32,
}

/// The month for which to generate the fixed-variable expenses.
#[derive(Clone, Copy, Debug)]
pub struct GenerarGastosDto {
    pub mes: u32,
    pub anio: i32,
}

// ───── Incomes ─────

/// An income to create or edit; `fecha` is `YYYY-MM-DD`.
#[derive(Clone, Debug)]
pub struct CreateIngresoDto {
    pub descripcion: String,
    pub monto: Monto,
    pub categoria: String,
    pub fuente: Option<String>,
    pub fecha: String,
    pub recurrente: bool,
}

/// Totals of incomes.
#[derive(Clone, Debug)]
pub struct IngresoSummaryDto {
    pub total_ingresos: i64,
    pub monto_total: Monto,
    pub por_categoria: Vec<(String, Monto)>,
}

// ───── Payments ─────

/// A payment to create.
#[derive(Clone, Debug)]
pub struct CreatePagoDto {
    pub descripcion: String,
    pub valor: Monto,
    pub mes: String,
    pub anio: String,
    pub proyecto_id: Option<i32>,
}

/// Changes to a payment.
#[derive(Clone, Debug)]
pub struct UpdatePagoDto {
    pub descripcion: Option<String>,
    pub estado: Option<String>,
    pub evidencia: Option<String>,
    pub evidencia_constructora: Option<String>,
}

/// A payment of an amount, with its optional evidence.
#[derive(Clone, Debug)]
pub struct RegistrarPagoDto {
    pub monto: Monto,
    pub evidencia: Option<String>,
}

/// Totals of payments.
#[derive(Clone, Debug)]
pub struct PagosSummaryDto {
    pub total_pagos: i64,
    pub total_valor: Monto,
    pub total_saldo: Monto,
    pub pagos_completados: i64,
    pub pagos_pendientes: i64,
}

// ───── Projects ─────

/// A project to create.
#[derive(Clone, Debug)]
pub struct CreateProyectoDto {
    pub nombre: String,
    pub descripcion: Option<String>,
    pub presupuesto: Option<Monto>,
    pub fecha_fin_estimada: Option<String>,
    pub cliente: Option<String>,
    pub responsable: Option<String>,
}

/// Changes to a project (`None` keeps a field).
#[derive(Clone, Debug)]
pub struct UpdateProyectoDto {
    pub nombre: Option<String>,
    pub descripcion: Option<String>,
    pub presupuesto: Option<Monto>,
    pub fecha_fin_estimada: Option<String>,
    pub cliente: Option<String>,
    pub responsable: Option<String>,
}

/// Totals of projects.
#[derive(Clone, Debug)]
pub struct ProyectoSummaryDto {
    pub total_proyectos: i64,
    pub proyectos_activos: i64,
    pub proyectos_completados: i64,
    pub presupuesto_total: Monto,
    pub costo_total: Monto,
    pub proyectos_sobre_presupuesto: i64,
}

// ───── Users ─────

/// A user to create; `password` is already hashed.
#[derive(Clone, Debug)]
pub struct CreateUsuarioDto {
    pub username: String,
    pub email: String,
    pub nombre_completo: String,
    pub password: String,
    pub rol: String,
}

/// Changes to a user (`None` keeps a field).
#[derive(Clone, Debug)]
pub struct UpdateUsuarioDto {
    pub username: Option<String>,
    pub email: Option<String>,
    pub nombre_completo: Option<String>,
    pub rol: Option<String>,
    pub activo: Option<bool>,
}

/// A user as shown to clients.
#[derive(Clone, Debug)]
pub struct UsuarioResponseDto {
    pub id: i64,
    pub username: String,
    pub email: String,
    pub nombre_completo: String,
    pub rol: String,
    pub activo: bool,
    pub fecha_creacion: String,
    pub ultimo_acceso: Option<String>,
}

/// Login credentials.
#[derive(Clone, Debug)]
pub struct LoginDto {
    pub username: String,
    pub password: String,
}

} // verus!
