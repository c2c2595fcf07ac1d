use mas_project_advanced::application::services::documento_service::nombre_almacenamiento_documento_ahora;
use mas_project_advanced::application::services::gasto_service::nombre_soporte_ahora;
use mas_project_advanced::application::services::pago_service::nombre_evidencia_ahora;
use mas_project_advanced::presentation::middleware::auth_middleware::AuthUser;
use mas_project_advanced::application::services::credito_service::{formula_cuota, FormulaCuota};
use mas_project_advanced::domain::entities::proyecto::Proyecto;
use mas_project_advanced::application::dto::CreateUsuarioDto;
use mas_project_advanced::application::services::auth_service::{
    admin_inicial, autenticar, cambio_de_activacion, claims_de, preparar_registro, ErrorAuth, RegisterDto,
};
use mas_project_advanced::application::services::documento_service::{nombre_almacenamiento_documento, DocumentoService};
use mas_project_advanced::application::services::gasto_recurrente_service::{
    contar_variables_pendientes, fijos_vencidos_hoy, gasto_de_plantilla, planificar_gastos, seleccionar_plantillas,
};
use mas_project_advanced::application::services::gasto_service::nombre_soporte;
use mas_project_advanced::application::services::pago_service::{
    evidencias_de, nombre_evidencia, validar_monto_pago, validar_presupuesto, validar_presupuesto_comprobado,
};
use mas_project_advanced::dinero::Monto;
use mas_project_advanced::domain::entities::gasto_recurrente::{GastoRecurrente, TipoGastoRecurrente};
use mas_project_advanced::domain::entities::pago_existente::PagoExistente;
use mas_project_advanced::domain::entities::usuario::Usuario;

fn monto(magnitud: u128) -> Monto {
    Monto { negativo: false, magnitud, escala: 0 }
}

fn pago(valor: u128) -> PagoExistente {
    PagoExistente::new("p".to_string(), monto(valor), "01".to_string(), "2024".to_string(), Some(1))
}

fn plantilla(id: i32, tipo: TipoGastoRecurrente, dia: i32, activo: bool) -> GastoRecurrente {
    GastoRecurrente {
        id,
        descripcion: format!("plantilla {}", id),
        monto_referencia: monto(100 * id as u128),
        categoria: "Servicios".to_string(),
        tipo,
        responsable: None,
        activo,
        dia_facturacion: dia,
        fecha_creacion: "2024-01-01".to_string(),
    }
}

#[test]
fn presupuesto_acepta_hasta_el_limite() {
    let pagos = vec![pago(300), pago(200)];
    assert!(validar_presupuesto(Some(monto(1000)), &pagos, monto(500)).is_ok());
    let e = validar_presupuesto(Some(monto(1000)), &pagos, monto(501)).unwrap_err();
    assert_eq!(e.presupuesto.magnitud, 1000);
    assert_eq!(e.total_pagos.magnitud, 500);
    assert_eq!(e.disponible.magnitud, 500);
    assert_eq!(
        e.mensaje(),
        "El pago excede el presupuesto del proyecto. Presupuesto: $1000, Total pagos: $500, Disponible: $500"
    );
}

#[test]
fn sin_presupuesto_todo_se_acepta() {
    let pagos = vec![pago(300)];
    assert!(validar_presupuesto(None, &pagos, monto(1_000_000)).is_ok());
    assert!(validar_presupuesto(Some(monto(0)), &pagos, monto(1_000_000)).is_ok());
}

#[test]
fn presupuesto_que_desborda() {
    let max = Monto { negativo: false, magnitud: (1u128 << 96) - 1, escala: 0 };
    let pagos = vec![PagoExistente::new("p".to_string(), max, "01".to_string(), "2024".to_string(), None)];
    assert!(validar_presupuesto_comprobado(Some(monto(1)), &pagos, max).is_none());
}

#[test]
fn monto_de_pago_debe_ser_positivo() {
    assert!(validar_monto_pago(&monto(1)).is_ok());
    assert_eq!(validar_monto_pago(&monto(0)).unwrap_err(), "El monto debe ser mayor a cero");
    assert!(validar_monto_pago(&Monto { negativo: true, magnitud: 5, escala: 1 }).is_err());
}

#[test]
fn claves_de_almacenamiento() {
    assert_eq!(
        nombre_evidencia(12, "foto.final.JPG", "cliente", "20240102030405"),
        "evidencia-pagos/pago-12-20240102030405.JPG"
    );
    assert_eq!(
        nombre_evidencia(12, "acta.pdf", "constructora", "20240102030405"),
        "evidencia-constructora/pago-12-20240102030405.pdf"
    );
    assert_eq!(nombre_soporte(7, "recibo.png", "20240102030405"), "soportes-gastos/gasto-7-20240102030405.png");
    assert_eq!(
        nombre_almacenamiento_documento("Póliza de Seguro 2024", "poliza.pdf", "20240102030405"),
        "documentos/poliza-de-seguro-2024-20240102030405.pdf"
    );
    assert_eq!(DocumentoService::new("docs".to_string()).bucket, "docs");
}

#[test]
fn evidencias_al_eliminar_un_pago() {
    let mut p = pago(10);
    assert!(evidencias_de(&p).is_empty());
    p.agregar_evidencia_constructora("b".to_string());
    p.agregar_evidencia("a".to_string());
    assert_eq!(evidencias_de(&p), vec!["a".to_string(), "b".to_string()]);
}

#[test]
fn gastos_generados_de_las_plantillas() {
    let plantillas = vec![
        plantilla(1, TipoGastoRecurrente::Fijo, 5, true),
        plantilla(2, TipoGastoRecurrente::FijoVariable, 10, true),
        plantilla(3, TipoGastoRecurrente::Fijo, 31, true),
        plantilla(4, TipoGastoRecurrente::Fijo, 20, true),
    ];
    let fijos = seleccionar_plantillas(&plantillas, TipoGastoRecurrente::Fijo, Some(20));
    assert_eq!(fijos.iter().map(|p| p.id).collect::<Vec<_>>(), vec![1, 4]);
    let todos_fijos = seleccionar_plantillas(&plantillas, TipoGastoRecurrente::Fijo, None);
    assert_eq!(todos_fijos.iter().map(|p| p.id).collect::<Vec<_>>(), vec![1, 3, 4]);
    let plan = planificar_gastos(&todos_fijos, &vec![4], 2024, 2);
    assert_eq!(plan.len(), 2);
    assert_eq!(plan[0].1, 1);
    assert_eq!(plan[0].0.fecha, "2024-02-05");
    assert_eq!(plan[0].0.descripcion, "plantilla 1");
    assert_eq!(plan[0].0.monto.magnitud, 100);
    assert_eq!(plan[1].1, 3);
    // A billing day after the 28th falls on the 28th.
    assert_eq!(plan[1].0.fecha, "2024-02-28");
    assert_eq!(gasto_de_plantilla(&plantillas[1], 2025, 11).fecha, "2025-11-10");
    assert_eq!(contar_variables_pendientes(&plantillas, &vec![]), 1);
    assert_eq!(contar_variables_pendientes(&plantillas, &vec![2]), 0);
    let (hoy, vencidos) = fijos_vencidos_hoy(&plantillas);
    assert!(1 <= hoy.mes && hoy.mes <= 12 && 1 <= hoy.dia && hoy.dia <= 31);
    assert!(vencidos.iter().all(|p| p.tipo == TipoGastoRecurrente::Fijo && p.dia_facturacion <= hoy.dia as i32));
}

fn registro() -> RegisterDto {
    RegisterDto {
        username: "luis".to_string(),
        email: "luis@example.com".to_string(),
        nombre_completo: "Luis".to_string(),
        password: "secreto-123".to_string(),
    }
}

fn usuario_de(c: &CreateUsuarioDto) -> Usuario {
    let mut u = Usuario::new(c.username.clone(), c.email.clone(), c.nombre_completo.clone(), c.password.clone(), c.rol.clone());
    u.id = 9;
    u
}

#[test]
fn registro_y_login() {
    let c = preparar_registro(registro(), false).unwrap();
    assert_eq!(c.username, "luis");
    assert_eq!(c.rol, "usuario");
    assert_ne!(c.password, "secreto-123");
    let mut u = usuario_de(&c);
    let info = autenticar(Some(u.clone()), "secreto-123").unwrap();
    assert_eq!(info.id, 9);
    assert_eq!(info.username, "luis");
    assert!(matches!(autenticar(Some(u.clone()), "otra"), Err(ErrorAuth::CredencialesInvalidas)));
    assert!(matches!(autenticar(None, "secreto-123"), Err(ErrorAuth::CredencialesInvalidas)));
    u.activo = false;
    assert!(matches!(autenticar(Some(u.clone()), "secreto-123"), Err(ErrorAuth::CuentaInactiva)));
    u.activo = true;
    u.lockout_end_time = Some("2024-01-01T01:00:00Z".to_string());
    assert!(matches!(autenticar(Some(u.clone()), "secreto-123"), Err(ErrorAuth::CuentaBloqueada)));
    u.lockout_end_time = None;
    u.password = "no es un hash".to_string();
    let e = autenticar(Some(u), "secreto-123").unwrap_err();
    assert!(matches!(e, ErrorAuth::ErrorVerificacion(_)));
    assert!(e.mensaje().starts_with("Error al verificar la contraseña: "));
}

#[test]
fn registro_con_nombre_en_uso() {
    let e = preparar_registro(registro(), true).unwrap_err();
    assert!(matches!(&e, ErrorAuth::NombreEnUso(n) if n == "luis"));
    assert_eq!(e.mensaje(), "El nombre de usuario 'luis' ya está en uso");
    assert_eq!(ErrorAuth::CredencialesInvalidas.mensaje(), "Credenciales inválidas");
}

#[test]
fn administrador_inicial() {
    let c = admin_inicial().unwrap();
    assert_eq!(c.username, "admin");
    assert_eq!(c.rol, "admin");
    assert_eq!(c.email, "admin@masfinance.com");
    let u = usuario_de(&c);
    assert!(autenticar(Some(u), "Admin123!").is_ok());
}

#[test]
fn activacion_y_claims() {
    let d = cambio_de_activacion(true);
    assert_eq!(d.activo, Some(true));
    assert!(d.username.is_none() && d.rol.is_none());
    let c = admin_inicial().unwrap();
    let u = usuario_de(&c);
    let claims = claims_de(&u, 1_700_000_000);
    assert_eq!(claims.sub, "9");
    assert_eq!(claims.rol, "admin");
    assert_eq!(claims.exp, 1_700_000_000);
}

#[test]
fn claves_con_la_hora_actual() {
    let k = nombre_evidencia_ahora(3, "a.png", "cliente");
    assert!(k.starts_with("evidencia-pagos/pago-3-"));
    assert!(k.ends_with(".png"));
    let sello = &k["evidencia-pagos/pago-3-".len()..k.len() - ".png".len()];
    assert_eq!(sello.len(), 14);
    assert!(sello.chars().all(|c| c.is_ascii_digit()));
    let s = nombre_soporte_ahora(4, "r.pdf");
    assert!(s.starts_with("soportes-gastos/gasto-4-") && s.ends_with(".pdf"));
    let d = nombre_almacenamiento_documento_ahora("Mi Contrato", "c.docx");
    assert!(d.starts_with("documentos/mi-contrato-") && d.ends_with(".docx"));
}

#[test]
fn la_sesion_nombra_al_usuario_del_token() {
    let c = admin_inicial().unwrap();
    let mut u = usuario_de(&c);
    for id in [0i64, 9, -3, i64::MAX, i64::MIN] {
        u.id = id;
        let claims = claims_de(&u, 5);
        let sesion = AuthUser::desde_claims(&claims).unwrap();
        assert_eq!(sesion.id, id);
        assert_eq!(sesion.username, "admin");
    }
}

#[test]
fn formula_de_la_cuota() {
    let cero = Monto { negativo: false, magnitud: 0, escala: 2 };
    let tasa = Monto { negativo: false, magnitud: 125, escala: 1 };
    assert_eq!(formula_cuota(&cero, 12), FormulaCuota::PartesIguales);
    assert_eq!(formula_cuota(&cero, 0), FormulaCuota::SinCuotas);
    assert_eq!(formula_cuota(&tasa, 0), FormulaCuota::SinCuotas);
    assert_eq!(formula_cuota(&tasa, 12), FormulaCuota::Amortizacion);
    assert_eq!(formula_cuota(&cero, -1), FormulaCuota::SinCuotas);
}

#[test]
fn proyecto_nuevo_con_fecha_de_creacion() {
    let p = Proyecto::new("n".to_string(), None, None, None);
    assert!(p.fecha_creacion.starts_with("20"));
    assert!(p.fecha_creacion.len() >= 19);
}
