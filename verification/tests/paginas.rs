use mas_project_advanced::dinero::Monto;
use mas_project_advanced::domain::entities::credito::{Credito, EstadoCredito, TipoTasa};
use mas_project_advanced::domain::entities::documento::{CategoriaDocumento, Documento};
use mas_project_advanced::domain::entities::gasto::{CategoriaGasto, EstadoGasto, Gasto};
use mas_project_advanced::domain::entities::gasto_recurrente::{GastoRecurrente, TipoGastoRecurrente};
use mas_project_advanced::domain::entities::ingreso::{CategoriaIngreso, Ingreso};
use mas_project_advanced::domain::entities::pago_existente::PagoExistente;
use mas_project_advanced::presentation::api::handlers::{
    datos_dashboard, default_page as api_default_page, default_page_size, ApiResponse,
};
use mas_project_advanced::presentation::web::auth_handlers::{mensaje_registro_exitoso, pagina_tras_registro};
use mas_project_advanced::presentation::web::handlers::{
    abonado_y_pendiente, datos_tablero, default_page, documento_de_campos, error_de_nuevo_pago, filtrar_creditos_activos,
    filtrar_por_vencer, gasto_de_campos, monto_mensual_estimado, pago_de_campos, ruta_pago_excedido,
    ruta_pagos_de_proyecto, ruta_proyecto, ruta_tras_pago, saldo_disponible, sumar_por_categoria, sumar_por_mes,
    tablero_de_hoy, CreateCreditoForm, CreateGastoRecurrenteForm, CreateIngresoForm, CreatePagoProyectoForm,
    CreateProyectoForm, GenerarGastosForm, UpdateProyectoForm,
};

fn monto(magnitud: u128) -> Monto {
    Monto { negativo: false, magnitud, escala: 0 }
}

fn ingreso(id: i32, fecha: &str, valor: u128) -> Ingreso {
    Ingreso {
        id,
        descripcion: format!("ingreso {}", id),
        monto: monto(valor),
        categoria: CategoriaIngreso::Salario,
        fuente: None,
        fecha: fecha.to_string(),
        recurrente: false,
        fecha_creacion: "2024-01-01".to_string(),
    }
}

fn gasto(id: i32, fecha: &str, valor: u128, categoria: CategoriaGasto) -> Gasto {
    Gasto {
        id,
        descripcion: format!("gasto {}", id),
        monto: monto(valor),
        categoria,
        estado: EstadoGasto::Pendiente,
        responsable: None,
        soporte: None,
        fecha: fecha.to_string(),
        fecha_creacion: "2024-01-01".to_string(),
    }
}

fn credito(id: i32, saldo: u128, estado: EstadoCredito) -> Credito {
    Credito {
        id,
        entidad: "Banco".to_string(),
        descripcion: "Crédito".to_string(),
        monto_total: monto(1000),
        saldo_pendiente: monto(saldo),
        tasa_interes: Monto { negativo: false, magnitud: 15, escala: 1 },
        tipo_tasa: TipoTasa::Fija,
        cuotas_totales: 12,
        cuotas_pagadas: 2,
        valor_cuota: monto(90),
        estado,
        fecha_inicio: "2024-01-01".to_string(),
        fecha_fin_estimada: None,
        fecha_creacion: "2024-01-01".to_string(),
    }
}

fn documento(id: i32, vence: Option<&str>) -> Documento {
    Documento {
        id,
        nombre: format!("doc {}", id),
        descripcion: None,
        categoria: CategoriaDocumento::Poliza,
        archivo_url: "u".to_string(),
        nombre_archivo: "d.pdf".to_string(),
        fecha_vencimiento: vence.map(|s| s.to_string()),
        fecha_creacion: "2024-01-01".to_string(),
    }
}

fn magnitudes(v: &[Monto]) -> Vec<u128> {
    v.iter().map(|m| m.magnitud).collect()
}

#[test]
fn tablero_con_datos() {
    let ingresos: Vec<Ingreso> = (1..=6).map(|i| ingreso(i, "2024-03-10", 100)).chain([ingreso(7, "2024-12-01", 50)]).collect();
    let gastos = vec![
        gasto(1, "2024-03-02", 30, CategoriaGasto::Vivienda),
        gasto(2, "2024-04-02", 20, CategoriaGasto::Salud),
        gasto(3, "fecha rara", 5, CategoriaGasto::Vivienda),
    ];
    let creditos = vec![credito(1, 400, EstadoCredito::Activo), credito(2, 0, EstadoCredito::Pagado), credito(3, 100, EstadoCredito::Mora)];
    let documentos = vec![
        documento(1, Some("2024-06-15")),
        documento(2, Some("2024-08-01")),
        documento(3, None),
        documento(4, Some("2024-06-01")),
        documento(5, Some("2024-07-01")),
    ];
    let d = datos_tablero(ingresos, gastos, creditos, documentos, "2024-06-01", "2024-07-01").unwrap();
    assert_eq!(d.total_ingresos.magnitud, 650);
    assert_eq!(d.total_gastos.magnitud, 55);
    assert_eq!((d.balance.negativo, d.balance.magnitud), (false, 595));
    assert_eq!(d.deuda_total.magnitud, 500);
    let mut esperado_i = vec![0u128; 12];
    esperado_i[2] = 600;
    esperado_i[11] = 50;
    assert_eq!(magnitudes(&d.ingresos_por_mes), esperado_i);
    let mut esperado_g = vec![0u128; 12];
    esperado_g[2] = 30;
    esperado_g[3] = 20;
    assert_eq!(magnitudes(&d.gastos_por_mes), esperado_g);
    let cats: Vec<(CategoriaGasto, u128)> = d.gastos_por_categoria.iter().map(|(c, m)| (*c, m.magnitud)).collect();
    assert_eq!(cats, vec![(CategoriaGasto::Vivienda, 35), (CategoriaGasto::Salud, 20)]);
    assert_eq!(d.documentos_por_vencer.iter().map(|x| x.id).collect::<Vec<_>>(), vec![1, 4, 5]);
    assert_eq!(d.ultimos_ingresos.iter().map(|x| x.id).collect::<Vec<_>>(), vec![1, 2, 3, 4, 5]);
    assert_eq!(d.ultimos_gastos.len(), 3);
    assert_eq!(d.creditos_activos.iter().map(|c| c.id).collect::<Vec<_>>(), vec![1, 3]);
}

#[test]
fn tablero_vacio_y_con_desborde() {
    let d = datos_tablero(vec![], vec![], vec![], vec![], "2024-01-01", "2024-01-31").unwrap();
    assert_eq!(d.total_ingresos.magnitud, 0);
    assert_eq!(d.ingresos_por_mes.len(), 12);
    assert!(d.gastos_por_categoria.is_empty());
    let grande = (1u128 << 96) - 1;
    let r = datos_tablero(vec![ingreso(1, "2024-01-01", grande), ingreso(2, "2024-01-01", grande)], vec![], vec![], vec![], "a", "b");
    assert!(r.is_none());
    let (_, hoy) = tablero_de_hoy(vec![ingreso(1, "2024-05-05", 10)], vec![], vec![credito(1, 3, EstadoCredito::Activo)], vec![documento(1, None)]);
    let hoy = hoy.unwrap();
    assert_eq!(hoy.total_ingresos.magnitud, 10);
    assert!(hoy.documentos_por_vencer.is_empty());
}

#[test]
fn tablero_de_hoy_avisa_los_proximos_treinta_dias() {
    let hoy = chrono::Local::now().date_naive();
    let en = |dias: i64| (hoy + chrono::Duration::days(dias)).format("%Y-%m-%d").to_string();
    let (d10, d29, d40, ayer) = (en(10), en(29), en(40), en(-1));
    let documentos = vec![documento(1, Some(&d10)), documento(2, Some(&d40)), documento(3, Some(&ayer)), documento(4, Some(&d29))];
    let (fecha, tablero) = tablero_de_hoy(vec![], vec![], vec![], documentos);
    let leida = chrono::NaiveDate::from_ymd_opt(fecha.anio, fecha.mes, fecha.dia).unwrap();
    assert!((leida - hoy).num_days().abs() <= 1);
    let ids: Vec<i32> = tablero.unwrap().documentos_por_vencer.iter().map(|d| d.id).collect();
    assert_eq!(ids, vec![1, 4]);
}

#[test]
fn sumas_por_mes_y_por_categoria() {
    let fechas = vec!["2024-01-05", "2024-01-06", "2024-13-01", "x"];
    let montos = vec![monto(1), monto(2), monto(4), monto(8)];
    let v = sumar_por_mes(&fechas, &montos).unwrap();
    assert_eq!(v[0].magnitud, 7);
    assert!(v[1..].iter().all(|m| m.magnitud == 0));
    let cats = vec![CategoriaGasto::Salud, CategoriaGasto::Otro, CategoriaGasto::Salud];
    let r = sumar_por_categoria(&cats, &montos[..3].to_vec()).unwrap();
    let r: Vec<(CategoriaGasto, u128)> = r.iter().map(|(c, m)| (*c, m.magnitud)).collect();
    assert_eq!(r, vec![(CategoriaGasto::Salud, 5), (CategoriaGasto::Otro, 2)]);
    let grande = monto((1u128 << 96) - 1);
    assert!(sumar_por_categoria(&vec![CategoriaGasto::Otro, CategoriaGasto::Otro], &vec![grande, grande]).is_none());
    assert!(sumar_por_mes(&vec!["2024-02-01", "2024-02-02"], &vec![grande, grande]).is_none());
}

#[test]
fn filtros_del_tablero() {
    let c = filtrar_creditos_activos(&vec![credito(1, 1, EstadoCredito::Pagado), credito(2, 1, EstadoCredito::Refinanciado)]);
    assert_eq!(c.iter().map(|x| x.id).collect::<Vec<_>>(), vec![2]);
    let d = filtrar_por_vencer(&vec![documento(1, Some("2024-01-01")), documento(2, Some("2023-12-31"))], "2024-01-01", "2024-01-31");
    assert_eq!(d.iter().map(|x| x.id).collect::<Vec<_>>(), vec![1]);
}

#[test]
fn pagos_del_proyecto() {
    let (abonado, pendiente) = abonado_y_pendiente(Some(monto(1000)), monto(700), monto(200)).unwrap();
    assert_eq!(abonado.magnitud, 500);
    assert_eq!(pendiente.magnitud, 500);
    let (abonado, pendiente) = abonado_y_pendiente(None, monto(700), monto(200)).unwrap();
    assert_eq!(abonado.magnitud, 500);
    assert_eq!((pendiente.negativo, pendiente.magnitud), (true, 500));
    let pagos = vec![
        PagoExistente::new("a".to_string(), monto(300), "01".to_string(), "2024".to_string(), Some(1)),
        PagoExistente::new("b".to_string(), monto(200), "02".to_string(), "2024".to_string(), Some(1)),
    ];
    assert_eq!(saldo_disponible(Some(monto(1000)), &pagos).unwrap().magnitud, 500);
    let s = saldo_disponible(None, &pagos).unwrap();
    assert_eq!((s.negativo, s.magnitud), (true, 500));
    assert_eq!(
        error_de_nuevo_pago(&Some("excede_presupuesto".to_string()), &monto(500)),
        Some("El pago excede el presupuesto disponible. Máximo permitido: $500".to_string())
    );
    assert_eq!(error_de_nuevo_pago(&Some("otro".to_string()), &monto(500)), None);
    assert_eq!(error_de_nuevo_pago(&None, &monto(500)), None);
}

#[test]
fn rutas_de_redireccion() {
    assert_eq!(ruta_pagos_de_proyecto(15), "/proyectos/15/pagos");
    assert_eq!(ruta_pago_excedido(15), "/proyectos/15/pagos/new?error=excede_presupuesto");
    assert_eq!(ruta_tras_pago(Some(3)), "/proyectos/3/pagos");
    assert_eq!(ruta_tras_pago(None), "/proyectos");
    assert_eq!(ruta_proyecto(-2), "/proyectos/-2");
}

#[test]
fn formularios_a_dto() {
    assert_eq!(default_page(), 1);
    let p = CreatePagoProyectoForm { descripcion: "d".to_string(), valor: "12.50".to_string(), mes: "03".to_string(), anio: "2024".to_string() }
        .a_dto(4)
        .unwrap();
    assert_eq!((p.valor.magnitud, p.valor.escala), (1250, 2));
    assert_eq!(p.proyecto_id, Some(4));
    assert!(CreatePagoProyectoForm { descripcion: "d".to_string(), valor: "mucho".to_string(), mes: "03".to_string(), anio: "2024".to_string() }
        .a_dto(4)
        .is_none());
    assert!(pago_de_campos(Some("d".to_string()), Some("1".to_string()), None, Some("2024".to_string()), None).is_none());
    let pr = CreateProyectoForm { nombre: "n".to_string(), descripcion: None, presupuesto: Some("abc".to_string()), cliente: None, responsable: None }.a_dto();
    assert!(pr.presupuesto.is_none());
    let up = UpdateProyectoForm { nombre: None, descripcion: None, presupuesto: Some("100".to_string()), cliente: None, responsable: None }.a_dto();
    assert_eq!(up.presupuesto.unwrap().magnitud, 100);
    let ing = CreateIngresoForm {
        descripcion: "s".to_string(),
        monto: "2500".to_string(),
        categoria: "salario".to_string(),
        fuente: None,
        fecha: "2024-01-31".to_string(),
        recurrente: Some("on".to_string()),
    }
    .a_dto()
    .unwrap();
    assert!(ing.recurrente);
    assert_eq!(ing.monto.magnitud, 2500);
    let gr = CreateGastoRecurrenteForm {
        descripcion: "luz".to_string(),
        monto_referencia: "80".to_string(),
        categoria: "Servicios".to_string(),
        tipo: "Fijo".to_string(),
        responsable: Some("".to_string()),
        dia_facturacion: "quince".to_string(),
    }
    .a_dto()
    .unwrap();
    assert_eq!(gr.dia_facturacion, 1);
    assert!(gr.responsable.is_none());
    let gg = GenerarGastosForm { mes: "7".to_string(), anio: "2024".to_string() }.a_dto().unwrap();
    assert_eq!((gg.mes, gg.anio), (7, 2024));
    assert!(GenerarGastosForm { mes: "-7".to_string(), anio: "2024".to_string() }.a_dto().is_none());
    let cr = CreateCreditoForm {
        entidad: "B".to_string(),
        descripcion: "c".to_string(),
        monto_total: "1000".to_string(),
        tasa_interes: "1.5".to_string(),
        tipo_tasa: "Fija".to_string(),
        cuotas_totales: "12".to_string(),
        valor_cuota: "90".to_string(),
        fecha_inicio: "2024-01-01".to_string(),
        fecha_fin_estimada: Some("".to_string()),
    }
    .a_dto()
    .unwrap();
    assert_eq!(cr.cuotas_totales, 12);
    assert!(cr.fecha_fin_estimada.is_none());
    let g = gasto_de_campos(Some("g".to_string()), Some("10".to_string()), Some("Salud".to_string()), Some("".to_string()), Some("2024-01-01".to_string())).unwrap();
    assert!(g.responsable.is_none());
    assert!(gasto_de_campos(Some("g".to_string()), Some("x".to_string()), Some("Salud".to_string()), None, Some("2024-01-01".to_string())).is_none());
    let d = documento_de_campos(Some("n".to_string()), Some("".to_string()), Some("Poliza".to_string()), Some("2025-01-01".to_string())).unwrap();
    assert!(d.descripcion.is_none());
    assert_eq!(d.fecha_vencimiento.as_deref(), Some("2025-01-01"));
    assert!(documento_de_campos(None, None, Some("Poliza".to_string()), None).is_none());
}

#[test]
fn monto_mensual_de_las_plantillas_activas() {
    let p = |id: i32, valor: u128, activo: bool| GastoRecurrente {
        id,
        descripcion: "p".to_string(),
        monto_referencia: monto(valor),
        categoria: "c".to_string(),
        tipo: TipoGastoRecurrente::Fijo,
        responsable: None,
        activo,
        dia_facturacion: 1,
        fecha_creacion: "x".to_string(),
    };
    assert_eq!(monto_mensual_estimado(&vec![p(1, 10, true), p(2, 20, false), p(3, 5, true)]).unwrap().magnitud, 15);
}

#[test]
fn api_y_registro() {
    assert_eq!(api_default_page(), 1);
    assert_eq!(default_page_size(), 20);
    let ok = ApiResponse::ok(5);
    assert!(ok.success && ok.data == Some(5) && ok.message.is_none());
    let e: ApiResponse<i32> = ApiResponse::error("Ingreso no encontrado");
    assert!(!e.success && e.data.is_none());
    assert_eq!(e.message.as_deref(), Some("Ingreso no encontrado"));
    let d = datos_dashboard(&vec![ingreso(1, "2024-01-01", 100)], &vec![gasto(1, "2024-01-01", 150, CategoriaGasto::Otro)], &vec![credito(1, 7, EstadoCredito::Activo)], 3).unwrap();
    assert_eq!((d.balance.negativo, d.balance.magnitud), (true, 50));
    assert_eq!(d.deuda_total.magnitud, 7);
    assert_eq!(d.proyectos_activos, 3);
    let t = pagina_tras_registro(None);
    assert_eq!(t.register_success, Some(mensaje_registro_exitoso()));
    let t = pagina_tras_registro(Some("mal".to_string()));
    assert_eq!(t.register_error.as_deref(), Some("mal"));
    assert!(t.register_success.is_none());
}
