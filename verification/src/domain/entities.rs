pub mod archivo;
pub mod credito;
pub mod documento;
pub mod gasto;
pub mod gasto_recurrente;
pub mod ingreso;
pub mod pago_existente;
pub mod proyecto;
pub mod usuario;
