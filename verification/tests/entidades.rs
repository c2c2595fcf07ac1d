use mas_project_advanced::dinero::Monto;
use mas_project_advanced::domain::entities::archivo::Archivo;
use mas_project_advanced::domain::entities::credito::{EstadoCredito, TipoTasa};
use mas_project_advanced::domain::entities::documento::CategoriaDocumento;
use mas_project_advanced::domain::entities::gasto::{CategoriaGasto, EstadoGasto};
use mas_project_advanced::domain::entities::gasto_recurrente::TipoGastoRecurrente;
use mas_project_advanced::domain::entities::ingreso::CategoriaIngreso;
use mas_project_advanced::domain::entities::pago_existente::{EstadoPago, PagoExistente};
use mas_project_advanced::domain::entities::proyecto::{EstadoProyecto, Proyecto};
use mas_project_advanced::domain::entities::usuario::Usuario;

fn monto(magnitud: u128, escala: u32) -> Monto {
    Monto { negativo: false, magnitud, escala }
}

fn usuario() -> Usuario {
    Usuario::new(
        "ana".to_string(),
        "ana@example.com".to_string(),
        "Ana Pérez".to_string(),
        "hash".to_string(),
        "usuario".to_string(),
    )
}

#[test]
fn usuario_nuevo_activo_y_sin_bloqueo() {
    let u = usuario();
    assert!(u.is_active());
    assert!(!u.is_locked());
    assert_eq!(u.failed_login_attempts, 0);
    assert_eq!(u.id, 0);
}

#[test]
fn usuario_se_bloquea_al_quinto_intento() {
    let mut u = usuario();
    for _ in 0..4 {
        u.increment_failed_attempts();
        assert!(!u.is_locked());
    }
    u.increment_failed_attempts();
    assert_eq!(u.failed_login_attempts, 5);
    assert!(u.is_locked());
    u.increment_failed_attempts();
    assert!(u.is_locked());
    u.reset_failed_attempts();
    assert_eq!(u.failed_login_attempts, 0);
    assert!(!u.is_locked());
    assert_eq!(u.username, "ana");
}

#[test]
fn pago_parcial_y_luego_completo() {
    let mut p = PagoExistente::new("Cuota".to_string(), monto(1000, 0), "03".to_string(), "2024".to_string(), Some(7));
    assert_eq!(p.estado, EstadoPago::Pendiente);
    assert!(!p.is_pagado_completo());
    assert_eq!(p.monto_pagado().magnitud, 0);
    p.registrar_pago(monto(400, 0));
    assert_eq!(p.estado, EstadoPago::Parcial);
    let s = p.saldo.unwrap();
    assert_eq!((s.negativo, s.magnitud, s.escala), (false, 600, 0));
    let pagado = p.monto_pagado();
    assert_eq!((pagado.negativo, pagado.magnitud), (false, 400));
    p.registrar_pago(monto(600, 0));
    assert!(p.is_pagado_completo());
    assert_eq!(p.saldo.unwrap().magnitud, 0);
}

#[test]
fn pago_que_excede_el_saldo_lo_deja_en_cero() {
    let mut p = PagoExistente::new("Cuota".to_string(), monto(100, 0), "01".to_string(), "2024".to_string(), None);
    p.registrar_pago(monto(150, 0));
    assert_eq!(p.estado, EstadoPago::Pagado);
    let s = p.saldo.unwrap();
    assert_eq!((s.negativo, s.magnitud, s.escala), (false, 0, 0));
}

#[test]
fn pago_que_desborda_no_se_registra() {
    let mut p = PagoExistente::new("x".to_string(), monto(1, 0), "01".to_string(), "2024".to_string(), None);
    p.saldo = Some(Monto { negativo: true, magnitud: (1u128 << 96) - 1, escala: 0 });
    assert!(!p.intentar_registrar_pago(monto((1u128 << 96) - 1, 0)));
    assert_eq!(p.estado, EstadoPago::Pendiente);
    assert!(p.fecha_actualizacion.is_none());
}

#[test]
fn evidencias_de_un_pago() {
    let mut p = PagoExistente::new("x".to_string(), monto(1, 0), "01".to_string(), "2024".to_string(), None);
    p.agregar_evidencia("a.png".to_string());
    p.agregar_evidencia_constructora("b.pdf".to_string());
    assert_eq!(p.evidencia.as_deref(), Some("a.png"));
    assert_eq!(p.evidencia_constructora.as_deref(), Some("b.pdf"));
    assert!(p.fecha_actualizacion.is_some());
}

#[test]
fn proyecto_cambia_de_estado() {
    let mut p = Proyecto::new("Casa".to_string(), None, Some(monto(500, 0)), None);
    assert_eq!(p.estado, EstadoProyecto::Planificacion);
    assert!(p.is_activo());
    p.iniciar();
    assert_eq!(p.estado, EstadoProyecto::EnProgreso);
    assert!(p.fecha_inicio.is_some());
    assert!(p.is_activo());
    p.pausar();
    assert!(!p.is_activo());
    p.completar();
    assert_eq!(p.estado, EstadoProyecto::Completado);
    assert!(p.fecha_fin_real.is_some());
    assert!(!p.is_activo());
}

#[test]
fn proyecto_sobre_presupuesto() {
    let mut p = Proyecto::new("Casa".to_string(), None, Some(monto(500, 0)), None);
    assert!(!p.esta_sobre_presupuesto());
    p.costo_actual = Some(monto(50001, 2));
    assert!(p.esta_sobre_presupuesto());
    p.costo_actual = Some(monto(50000, 2));
    assert!(!p.esta_sobre_presupuesto());
    p.presupuesto = None;
    assert!(!p.esta_sobre_presupuesto());
}

#[test]
fn archivo_y_su_tipo() {
    let a = Archivo::new(
        "f.png".to_string(),
        "Foto.PNG".to_string(),
        "pagos/f.png".to_string(),
        "image/png".to_string(),
        2048,
        1,
        Some(3),
    );
    assert_eq!(a.tipo_archivo.as_deref(), Some("imagen"));
    assert!(a.is_imagen());
    assert!(!a.is_pdf());
    assert_eq!(a.extension().as_deref(), Some("png"));
    assert_eq!(a.url_completa("https://cdn.example.com//"), "https://cdn.example.com/pagos/f.png");
    assert!(a.esta_asociado_a_pago());
    assert_eq!(Archivo::determinar_tipo_archivo("application/pdf"), "pdf");
    assert_eq!(Archivo::determinar_tipo_archivo("application/vnd.ms-excel"), "hoja_calculo");
    assert_eq!(Archivo::determinar_tipo_archivo("application/msword"), "documento");
    assert_eq!(Archivo::determinar_tipo_archivo("video/mp4"), "video");
    assert_eq!(Archivo::determinar_tipo_archivo("audio/ogg"), "audio");
    assert_eq!(Archivo::determinar_tipo_archivo("application/zip"), "otro");
    let b = Archivo::new("x".to_string(), "sin_extension".to_string(), "r".to_string(), "text/plain".to_string(), 1, 1, None);
    assert!(b.is_documento());
    assert_eq!(b.extension().as_deref(), Some("sin_extension"));
    assert!(!b.esta_asociado_a_pago());
}

#[test]
fn nombres_de_los_estados_se_leen_de_vuelta() {
    for e in [EstadoProyecto::Planificacion, EstadoProyecto::EnProgreso, EstadoProyecto::Pausado, EstadoProyecto::Completado, EstadoProyecto::Cancelado] {
        assert_eq!(EstadoProyecto::from(e.to_string()), e);
    }
}

#[test]
fn textos_de_las_enumeraciones() {
    assert_eq!(EstadoProyecto::EnProgreso.to_string(), "En_Progreso");
    assert_eq!(EstadoProyecto::from("EN_PROGRESO".to_string()), EstadoProyecto::EnProgreso);
    assert_eq!(EstadoProyecto::from("desconocido".to_string()), EstadoProyecto::Planificacion);
    assert_eq!(EstadoPago::from("  Pagado ".to_string()), EstadoPago::Pagado);
    assert_eq!(EstadoPago::from("otro".to_string()), EstadoPago::Pendiente);
    for e in [EstadoPago::Pendiente, EstadoPago::Pagado, EstadoPago::Vencido, EstadoPago::Parcial] {
        assert_eq!(EstadoPago::from(e.to_string()), e);
    }
    for e in [EstadoCredito::Activo, EstadoCredito::Pagado, EstadoCredito::Mora, EstadoCredito::Refinanciado] {
        assert_eq!(EstadoCredito::from(e.to_string()), e);
    }
    for e in [TipoTasa::Fija, TipoTasa::Variable] {
        assert_eq!(TipoTasa::from(e.to_string()), e);
    }
    for e in [CategoriaDocumento::Contrato, CategoriaDocumento::Poliza, CategoriaDocumento::Escritura, CategoriaDocumento::Certificado, CategoriaDocumento::Factura, CategoriaDocumento::Legal, CategoriaDocumento::Personal, CategoriaDocumento::Otro] {
        assert_eq!(CategoriaDocumento::from(e.to_string()), e);
    }
    for e in [CategoriaGasto::Alimentacion, CategoriaGasto::Transporte, CategoriaGasto::Servicios, CategoriaGasto::Vivienda, CategoriaGasto::Salud, CategoriaGasto::Educacion, CategoriaGasto::Entretenimiento, CategoriaGasto::Mantenimiento, CategoriaGasto::Impuestos, CategoriaGasto::Otro] {
        assert_eq!(CategoriaGasto::from(e.to_string()), e);
    }
    for e in [EstadoGasto::Pendiente, EstadoGasto::Pagado, EstadoGasto::Anulado] {
        assert_eq!(EstadoGasto::from(e.to_string()), e);
    }
    for e in [TipoGastoRecurrente::Fijo, TipoGastoRecurrente::FijoVariable] {
        assert_eq!(TipoGastoRecurrente::from(e.to_string()), e);
    }
    for e in [CategoriaIngreso::Salario, CategoriaIngreso::Freelance, CategoriaIngreso::Inversiones, CategoriaIngreso::Arriendo, CategoriaIngreso::Venta, CategoriaIngreso::Otro] {
        assert_eq!(CategoriaIngreso::from(e.to_string()), e);
    }
    assert_eq!(CategoriaGasto::from("cualquier cosa".to_string()), CategoriaGasto::Otro);
}
