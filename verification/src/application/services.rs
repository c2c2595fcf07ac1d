pub mod gasto_recurrente_service;
pub mod auth_service;
pub mod credito_service;
pub mod documento_service;
pub mod gasto_service;
pub mod pago_service;
