use mas_project_advanced::application::services::auth_service::{
    admin_a_crear, autenticar, preparar_registro, ErrorAuth, RegisterDto,
};
use mas_project_advanced::domain::entities::usuario::Usuario;
use mas_project_advanced::application::services::credito_service::cuota_sin_interes;
use mas_project_advanced::application::services::gasto_recurrente_service::{
    contar_variables_pendientes, planificar_gastos, seleccionar_plantillas,
};
use mas_project_advanced::dinero::Monto;
use mas_project_advanced::domain::entities::gasto_recurrente::{GastoRecurrente, TipoGastoRecurrente};
use mas_project_advanced::domain::entities::proyecto::Proyecto;
use mas_project_advanced::infrastructure::storage::ContaboStorageService;
use mas_project_advanced::presentation::web::handlers::{evidencia_elegida, extract_month, CampoFormulario};
use mas_project_advanced::presentation::web::templates::add_thousands_separator;
use mas_project_advanced::texto::es_espacio;

fn monto(magnitud: u128, escala: u32) -> Monto {
    Monto { negativo: false, magnitud, escala }
}

fn plantilla(id: i32, tipo: TipoGastoRecurrente, dia: i32) -> GastoRecurrente {
    GastoRecurrente {
        id,
        descripcion: format!("plantilla {}", id),
        monto_referencia: monto(100, 0),
        categoria: "Servicios".to_string(),
        tipo,
        responsable: None,
        activo: true,
        dia_facturacion: dia,
        fecha_creacion: "2024-01-01".to_string(),
    }
}

fn campo(nombre: &str, archivo: Option<&str>) -> CampoFormulario {
    CampoFormulario { nombre: nombre.to_string(), archivo: archivo.map(|a| a.to_string()) }
}

#[test]
fn separador_con_grupos_de_tres() {
    for (entrada, salida) in [("1", "1"), ("123", "123"), ("1234", "1.234"), ("12345678", "12.345.678")] {
        let r = add_thousands_separator(entrada);
        assert_eq!(r, salida);
        assert_eq!(r.len(), entrada.len() + (entrada.len() - 1) / 3);
        assert_eq!(r.replace('.', ""), entrada);
    }
}

#[test]
fn mes_de_fechas_formateadas() {
    for mes in 1..=12u32 {
        let fecha = format!("2024-{:02}-28", mes);
        assert_eq!(extract_month(&fecha), Some((mes - 1) as usize));
    }
    assert_eq!(extract_month("987-03-x"), Some(2));
}

#[test]
fn fijos_se_generan_una_vez_por_mes() {
    let plantillas = vec![
        plantilla(1, TipoGastoRecurrente::Fijo, 5),
        plantilla(2, TipoGastoRecurrente::Fijo, 20),
        plantilla(3, TipoGastoRecurrente::FijoVariable, 1),
    ];
    let fijos = seleccionar_plantillas(&plantillas, TipoGastoRecurrente::Fijo, Some(10));
    let mut generados = vec![7];
    let primera = planificar_gastos(&fijos, &generados, 2024, 5);
    assert_eq!(primera.len(), 1);
    generados.extend(primera.iter().map(|(_, id)| *id));
    let segunda = planificar_gastos(&fijos, &generados, 2024, 5);
    assert!(segunda.is_empty());
}

#[test]
fn variables_sin_pendientes_tras_generar() {
    let plantillas = vec![
        plantilla(1, TipoGastoRecurrente::FijoVariable, 5),
        plantilla(2, TipoGastoRecurrente::Fijo, 5),
        plantilla(3, TipoGastoRecurrente::FijoVariable, 9),
    ];
    let mut generados: Vec<i32> = Vec::new();
    assert_eq!(contar_variables_pendientes(&plantillas, &generados), 2);
    let variables = seleccionar_plantillas(&plantillas, TipoGastoRecurrente::FijoVariable, None);
    let creados = planificar_gastos(&variables, &generados, 2024, 5);
    generados.extend(creados.iter().map(|(_, id)| *id));
    assert_eq!(contar_variables_pendientes(&plantillas, &generados), 0);
}

#[test]
fn url_construida_se_lee_de_vuelta() {
    let s = ContaboStorageService {
        endpoint: "https://eu2.contabostorage.com".to_string(),
        tenant_id: "abc123".to_string(),
    };
    let url = s.build_url("docs", "carpeta/archivo.pdf");
    assert_eq!(s.parse_url(&url), Some(("docs".to_string(), "carpeta/archivo.pdf".to_string())));
    assert_eq!(s.parse_url("https://otro.com/docs/a.pdf"), None);
    assert_eq!(s.parse_url("https://eu2.contabostorage.com/abc123:docs"), None);
}

#[test]
fn evidencia_es_el_ultimo_campo_de_evidencia() {
    let campos = vec![
        campo("evidencia_constructora", Some("c.pdf")),
        campo("proyecto_id", None),
        campo("evidencia_cliente", Some("a.png")),
    ];
    assert_eq!(evidencia_elegida(&campos), Some((2, "cliente".to_string())));
    let campos = vec![campo("evidencia_cliente", Some("a.png")), campo("evidencia_constructora", Some(""))];
    assert_eq!(evidencia_elegida(&campos), Some((1, "constructora".to_string())));
    let campos = vec![campo("evidencia_cliente", Some("a.png")), campo("evidencia_constructora", None)];
    assert_eq!(evidencia_elegida(&campos), None);
    assert_eq!(evidencia_elegida(&vec![campo("proyecto_id", None)]), None);
}

#[test]
fn cuota_en_partes_iguales() {
    let c = cuota_sin_interes(&monto(1200, 0), 12).unwrap();
    assert_eq!((c.negativo, c.magnitud, c.escala), (false, 100, 0));
    let c = cuota_sin_interes(&monto(1000, 0), 3).unwrap();
    let valor = c.magnitud as f64 / 10f64.powi(c.escala as i32);
    assert!((valor - 1000.0 / 3.0).abs() < 1e-9);
    let c = cuota_sin_interes(&monto(1200, 0), 0).unwrap();
    assert_eq!((c.negativo, c.magnitud, c.escala), (false, 0, 0));
}

#[test]
fn espacios_como_los_ve_std() {
    for c in [' ', '\t', '\n', '\u{a0}', '\u{2003}', '\u{3000}'] {
        assert!(es_espacio(c));
    }
    for c in ['a', '0', '\u{200b}', '-'] {
        assert!(!es_espacio(c));
    }
}

#[test]
fn fecha_de_creacion_con_forma_de_instante() {
    let p = Proyecto::new("Casa".to_string(), None, None, None);
    let f = p.fecha_creacion.as_bytes();
    assert!(f.len() >= 19);
    assert_eq!((f[4], f[7], f[10], f[13], f[16]), (b'-', b'-', b' ', b':', b':'));
}

fn usuario_nuevo() -> Usuario {
    Usuario::new("ana".to_string(), "a@x.com".to_string(), "Ana".to_string(), "h".to_string(), "usuario".to_string())
}

#[test]
fn reinicio_tras_varios_fallos() {
    let inicial = usuario_nuevo();
    let mut u = inicial.clone();
    for _ in 0..7 {
        u.increment_failed_attempts();
    }
    assert!(u.is_locked());
    u.reset_failed_attempts();
    assert_eq!(u.failed_login_attempts, 0);
    assert!(!u.is_locked());
    assert_eq!(format!("{:?}", u), format!("{:?}", inicial));
}

#[test]
fn cuenta_inactiva_no_entra_con_ninguna_clave() {
    let mut u = usuario_nuevo();
    u.activo = false;
    for clave in ["h", "otra", ""] {
        assert!(matches!(autenticar(Some(u.clone()), clave), Err(ErrorAuth::CuentaInactiva)));
    }
}

#[test]
fn administrador_se_crea_una_sola_vez() {
    let alta = admin_a_crear(&None).unwrap().ok().unwrap();
    assert_eq!(alta.username, "admin");
    assert!(alta.password.starts_with("$2b$12$") && alta.password.len() == 60);
    let mut admin = usuario_nuevo();
    admin.username = alta.username.clone();
    assert!(admin_a_crear(&Some(admin)).is_none());
}

#[test]
fn el_registro_no_guarda_la_clave() {
    let dto = RegisterDto {
        username: "ana".to_string(),
        email: "a@x.com".to_string(),
        nombre_completo: "Ana".to_string(),
        password: "secreta123".to_string(),
    };
    let c = preparar_registro(dto, false).ok().unwrap();
    assert_ne!(c.password, "secreta123");
    assert!(c.password.starts_with("$2b$12$") && c.password.len() == 60);
}
