use mas_project_advanced::dinero::{sumar_todos, Monto};
use mas_project_advanced::presentation::web::handlers::{extract_month, leer_monto_opcional};
use mas_project_advanced::presentation::web::templates::{add_thousands_separator, format_money};
use mas_project_advanced::texto::{entero_a_texto, leer_entero, leer_i32, leer_u32, texto_menor, texto_menor_igual};

fn monto(negativo: bool, magnitud: u128, escala: u32) -> Monto {
    Monto { negativo, magnitud, escala }
}

fn valor(m: &Monto) -> (bool, u128, u32) {
    (m.negativo, m.magnitud, m.escala)
}

#[test]
fn separador_de_miles_agrupa_de_a_tres() {
    assert_eq!(add_thousands_separator("1234567"), "1.234.567");
    assert_eq!(add_thousands_separator("123"), "123");
    assert_eq!(add_thousands_separator("1000"), "1.000");
    assert_eq!(add_thousands_separator("-1234"), "-1.234");
    assert_eq!(add_thousands_separator(""), "");
    assert_eq!(add_thousands_separator("-"), "-");
}

#[test]
fn formato_de_dinero_trunca_y_separa() {
    // 1234567.89
    assert_eq!(format_money(&monto(false, 123456789, 2)), "$1.234.567");
    // 1234.99 is truncated, not rounded.
    assert_eq!(format_money(&monto(false, 123499, 2)), "$1.234");
    assert_eq!(format_money(&monto(false, 0, 0)), "$0");
    // -2500000
    assert_eq!(format_money(&monto(true, 2500000, 0)), "$-2.500.000");
}

#[test]
fn mes_de_una_fecha() {
    assert_eq!(extract_month("2024-03-15"), Some(2));
    assert_eq!(extract_month("2024-12-01"), Some(11));
    assert_eq!(extract_month("2024-01"), Some(0));
    // Out of range counts as January.
    assert_eq!(extract_month("2024-13-01"), Some(0));
    assert_eq!(extract_month("2024-00-01"), Some(0));
    assert_eq!(extract_month("2024"), None);
    assert_eq!(extract_month("2024-xx-01"), None);
    assert_eq!(extract_month("2024--01"), None);
}

#[test]
fn enteros_como_los_lee_std() {
    assert_eq!(leer_i32("42"), Some(42));
    assert_eq!(leer_i32("-7"), Some(-7));
    assert_eq!(leer_i32("+7"), Some(7));
    assert_eq!(leer_i32("2147483648"), None);
    assert_eq!(leer_i32("-2147483648"), Some(i32::MIN));
    assert_eq!(leer_i32(""), None);
    assert_eq!(leer_i32("-"), None);
    assert_eq!(leer_i32("1a"), None);
    assert_eq!(leer_u32("-1"), None);
    assert_eq!(leer_u32("4294967295"), Some(u32::MAX));
    assert_eq!(leer_entero("99999999999999999999999", false, 0, 100), None);
    for n in [0i64, 5, -5, 1234567890, i64::MAX, i64::MIN + 1] {
        assert_eq!(n.to_string(), entero_a_texto(n));
        assert_eq!(leer_entero(&entero_a_texto(n), true, i64::MIN as i128, i64::MAX as i128), Some(n as i128));
    }
}

#[test]
fn orden_de_textos_como_string() {
    assert!(texto_menor("2024-01-01", "2024-01-02"));
    assert!(!texto_menor("2024-01-02", "2024-01-02"));
    assert!(texto_menor_igual("2024-01-02", "2024-01-02"));
    assert!(texto_menor("abc", "abcd"));
    assert!(!texto_menor("b", "abc"));
}

#[test]
fn sumas_de_decimales() {
    let v = vec![monto(false, 1050, 2), monto(false, 25, 1), monto(true, 3, 0)];
    // 10.50 + 2.5 - 3 = 10.00
    let s = sumar_todos(&v).unwrap();
    assert_eq!(s.negativo, false);
    assert_eq!((s.magnitud as i128) * 10i128.pow(2) / 10i128.pow(s.escala), 1000);
    assert_eq!(valor(&sumar_todos(&vec![]).unwrap()), (false, 0, 0));
    let grande = monto(false, (1u128 << 96) - 1, 0);
    assert!(sumar_todos(&vec![grande, grande]).is_none());
}

#[test]
fn montos_opcionales_de_formularios() {
    assert_eq!(leer_monto_opcional(&None).map(|m| valor(&m)), None);
    assert_eq!(leer_monto_opcional(&Some("12.5".to_string())).map(|m| valor(&m)), Some((false, 125, 1)));
    assert!(leer_monto_opcional(&Some("doce".to_string())).is_none());
}
