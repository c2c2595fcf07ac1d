//! The clock, through `chrono`.
use vstd::prelude::*;
use chrono::Datelike;
use crate::texto::{digito, digitos, es_digito, texto_dos_cifras};

verus! {

/// A calendar date.
#[derive(Clone, Copy, Debug)]
pub struct FechaCalendario {
    pub anio: i32,
    pub mes: u32,
    pub dia: u32,
}

/// `d` padded with zeros on the left to four chars.
pub open spec fn a_cuatro_cifras(d: Seq<char>) -> Seq<char> {
    if d.len() < 4 {
        Seq::new((4 - d.len()) as nat, |i: int| '0') + d
    } else {
        d
    }
}

/// How `chrono` writes a year (`%Y`, and `Display` of a date): four digits,
/// zero-padded, for the years 0 to 9999; otherwise a sign and at least
/// four digits.
pub open spec fn anio_formateado(y: int) -> Seq<char> {
    if 0 <= y <= 9999 {
        a_cuatro_cifras(digitos(y as nat))
    } else if y > 9999 {
        seq!['+'] + a_cuatro_cifras(digitos(y as nat))
    } else {
        seq!['-'] + a_cuatro_cifras(digitos((-y) as nat))
    }
}

/// The date `y-m-d` as `chrono` writes it: `%Y-%m-%d`, which is also how
/// `Display` writes a date.
pub open spec fn fecha_formateada(y: int, m: int, d: int) -> Seq<char> {
    anio_formateado(y) + seq!['-'] + texto_dos_cifras(m) + seq!['-'] + texto_dos_cifras(d)
}

/// `s` is some calendar date written `%Y-%m-%d`.
pub open spec fn es_fecha_formateada(s: Seq<char>) -> bool {
    exists|y: int, m: int, d: int|
        #![trigger fecha_formateada(y, m, d)]
        1 <= m <= 12 && 1 <= d <= 31 && s == fecha_formateada(y, m, d)
}

/// A time written `%Y%m%d%H%M%S`.
pub open spec fn sello_de(y: int, mo: int, d: int, h: int, mi: int, se: int) -> Seq<char> {
    anio_formateado(y) + texto_dos_cifras(mo) + texto_dos_cifras(d) + texto_dos_cifras(h) + texto_dos_cifras(
        mi,
    ) + texto_dos_cifras(se)
}

/// `s` is some time written `%Y%m%d%H%M%S` (a leap second reads 60).
pub open spec fn es_sello(s: Seq<char>) -> bool {
    exists|y: int, mo: int, d: int, h: int, mi: int, se: int|
        #![trigger sello_de(y, mo, d, h, mi, se)]
        1 <= mo <= 12 && 1 <= d <= 31 && 0 <= h <= 23 && 0 <= mi <= 59 && 0 <= se <= 60 && s == sello_de(
            y,
            mo,
            d,
            h,
            mi,
            se,
        )
}

/// The fraction of a second as `Display` of a time writes it: nothing, or
/// `.` and three, six or nine digits.
pub open spec fn es_fraccion(f: Seq<char>) -> bool {
    f.len() == 0 || (f[0] == '.' && (f.len() == 4 || f.len() == 7 || f.len() == 10) && forall|i: int|
        1 <= i < f.len() ==> es_digito(#[trigger] f[i]))
}

/// A date and time as `Display` of `NaiveDateTime` writes it:
/// `%Y-%m-%d %H:%M:%S` and the fraction.
pub open spec fn instante_de(y: int, mo: int, d: int, h: int, mi: int, se: int, f: Seq<char>) -> Seq<char> {
    fecha_formateada(y, mo, d) + seq![' '] + texto_dos_cifras(h) + seq![':'] + texto_dos_cifras(mi) + seq![
        ':',
    ] + texto_dos_cifras(se) + f
}

/// `s` is some date and time as `Display` of `NaiveDateTime` writes it.
pub open spec fn es_instante(s: Seq<char>) -> bool {
    exists|y: int, mo: int, d: int, h: int, mi: int, se: int, f: Seq<char>|
        #![trigger instante_de(y, mo, d, h, mi, se, f)]
        1 <= mo <= 12 && 1 <= d <= 31 && 0 <= h <= 23 && 0 <= mi <= 59 && 0 <= se <= 60 && es_fraccion(f)
            && s == instante_de(y, mo, d, h, mi, se, f)
}

/// `chrono::Utc::now().naive_utc().to_string()`: the current UTC time as
/// text. Which time it is depends on the clock; its shape is stated.
#[verifier::external_body]
pub(crate) fn ahora_utc_texto() -> (r: String)
    ensures
        es_instante(r@),
{
    chrono::Utc::now().naive_utc().to_string()
}

/// `chrono::Utc::now().format("%Y%m%d%H%M%S")`: the current UTC time as a
/// stamp for file names. Which time it is depends on the clock; its shape
/// is stated.
#[verifier::external_body]
pub(crate) fn sello_utc() -> (r: String)
    ensures
        es_sello(r@),
{
    chrono::Utc::now().format("%Y%m%d%H%M%S").to_string()
}

/// A leap year of the proleptic Gregorian calendar.
pub open spec fn es_bisiesto(anio: int) -> bool {
    anio % 4 == 0 && (anio % 100 != 0 || anio % 400 == 0)
}

/// How many days month `mes` of `anio` has.
pub open spec fn dias_del_mes(anio: int, mes: int) -> int {
    if mes == 2 {
        if es_bisiesto(anio) {
            29
        } else {
            28
        }
    } else if mes == 4 || mes == 6 || mes == 9 || mes == 11 {
        30
    } else {
        31
    }
}

/// A date that exists in the calendar, within the years that `chrono`'s
/// dates hold (262144 BCE, written -262143, to 262142 CE).
pub open spec fn es_fecha_valida(anio: int, mes: int, dia: int) -> bool {
    &&& -262143 <= anio <= 262142
    &&& 1 <= mes <= 12
    &&& 1 <= dia <= dias_del_mes(anio, mes)
}

/// `chrono::Local::now()` as year, month and day: a date of the calendar.
/// Which date it is depends on the clock.
#[verifier::external_body]
pub(crate) fn hoy_local() -> (r: FechaCalendario)
    ensures
        es_fecha_valida(r.anio as int, r.mes as int, r.dia as int),
{
    let ahora = chrono::Local::now();
    FechaCalendario { anio: ahora.year(), mes: ahora.month(), dia: ahora.day() }
}

/// The text of an optional `String`.
pub open spec fn texto_opcional(t: Option<String>) -> Option<Seq<char>> {
    match t {
        Some(t) => Some(t@),
        None => None,
    }
}

/// What `NaiveDate::from_ymd_opt(anio, mes, dia)`, moved `dias` days on by
/// `checked_add_signed` and written `%Y-%m-%d`, gives (`None` where the
/// date does not exist or the result leaves `chrono`'s range).
pub uninterp spec fn fecha_mas_dias(anio: int, mes: int, dia: int, dias: int) -> Option<Seq<char>>;

/// The date `dias` days after `fecha`, written `%Y-%m-%d`, through
/// `NaiveDate::from_ymd_opt`, `checked_add_signed(Duration::days(dias))`
/// and `format`. The result is named by `fecha_mas_dias`. Stated besides,
/// for a date of the calendar: zero days on it is the date itself; it is
/// `Some` where the year is at most 262000 (a hundred years stay inside
/// `chrono`'s range); a result is a date written `%Y-%m-%d`.
#[verifier::external_body]
pub(crate) fn fecha_en_dias(fecha: &FechaCalendario, dias: i64) -> (r: Option<String>)
    requires
        0 <= dias <= 36500,
    ensures
        texto_opcional(r) == fecha_mas_dias(fecha.anio as int, fecha.mes as int, fecha.dia as int, dias as int),
        r matches Some(t) ==> es_fecha_formateada(t@),
        es_fecha_valida(fecha.anio as int, fecha.mes as int, fecha.dia as int) && fecha.anio <= 262000 ==> r is Some,
        es_fecha_valida(fecha.anio as int, fecha.mes as int, fecha.dia as int) && dias == 0 ==> texto_opcional(r)
            == Some(fecha_formateada(fecha.anio as int, fecha.mes as int, fecha.dia as int)),
{
    match chrono::NaiveDate::from_ymd_opt(fecha.anio, fecha.mes, fecha.dia) {
        Some(d) => match d.checked_add_signed(chrono::Duration::days(dias)) {
            Some(n) => Some(n.format("%Y-%m-%d").to_string()),
            None => None,
        },
        None => None,
    }
}

proof fn lema_digito(k: int)
    requires
        0 <= k <= 9,
    ensures
        es_digito(digito(k)),
{
}

/// The decimal digits of `n`: at least one, and at most four below 10000.
proof fn lema_digitos(n: nat)
    ensures
        digitos(n).len() >= 1,
        n >= 10 ==> digitos(n).len() >= 2,
        n < 10 ==> digitos(n).len() == 1,
        n < 100 ==> digitos(n).len() <= 2,
        n < 1000 ==> digitos(n).len() <= 3,
        n < 10000 ==> digitos(n).len() <= 4,
        forall|i: int| 0 <= i < digitos(n).len() ==> es_digito(#[trigger] digitos(n)[i]),
    decreases n,
{
    if n < 10 {
        lema_digito(n as int);
    } else {
        lema_digitos(n / 10);
        lema_digito((n % 10) as int);
    }
}

/// A number below 100 written with two digits is two digits.
proof fn lema_dos_cifras(n: int)
    requires
        0 <= n <= 99,
    ensures
        texto_dos_cifras(n).len() == 2,
        forall|i: int| 0 <= i < 2 ==> es_digito(#[trigger] texto_dos_cifras(n)[i]),
{
    if n < 10 {
        lema_digito(n);
    } else {
        lema_digitos(n as nat);
    }
}

/// A year from 0 to 9999 is written with four digits.
proof fn lema_anio_cuatro_cifras(y: int)
    requires
        0 <= y <= 9999,
    ensures
        anio_formateado(y).len() == 4,
        forall|i: int| 0 <= i < 4 ==> es_digito(#[trigger] anio_formateado(y)[i]),
{
    let d = digitos(y as nat);
    lema_digitos(y as nat);
    let a = anio_formateado(y);
    assert forall|i: int| 0 <= i < 4 implies es_digito(#[trigger] a[i]) by {
        if d.len() < 4 && i < 4 - d.len() {
        } else if d.len() < 4 {
            assert(a[i] == d[i - (4 - d.len())]);
        }
    }
}

/// For a year from 0 to 9999, a stamp is fourteen ASCII digits.
pub proof fn lema_sello_de_catorce_cifras(s: Seq<char>, y: int, mo: int, d: int, h: int, mi: int, se: int)
    requires
        0 <= y <= 9999,
        1 <= mo <= 12 && 1 <= d <= 31 && 0 <= h <= 23 && 0 <= mi <= 59 && 0 <= se <= 60,
        s == sello_de(y, mo, d, h, mi, se),
    ensures
        s.len() == 14,
        forall|i: int| 0 <= i < 14 ==> es_digito(#[trigger] s[i]),
{
    lema_anio_cuatro_cifras(y);
    lema_dos_cifras(mo);
    lema_dos_cifras(d);
    lema_dos_cifras(h);
    lema_dos_cifras(mi);
    lema_dos_cifras(se);
    let a = anio_formateado(y);
    assert forall|i: int| 0 <= i < 14 implies es_digito(#[trigger] s[i]) by {
        if i < 4 {
            assert(s[i] == a[i]);
        } else if i < 6 {
            assert(s[i] == texto_dos_cifras(mo)[i - 4]);
        } else if i < 8 {
            assert(s[i] == texto_dos_cifras(d)[i - 6]);
        } else if i < 10 {
            assert(s[i] == texto_dos_cifras(h)[i - 8]);
        } else if i < 12 {
            assert(s[i] == texto_dos_cifras(mi)[i - 10]);
        } else {
            assert(s[i] == texto_dos_cifras(se)[i - 12]);
        }
    }
}

/// For a year from 0 to 9999, a date is ten chars `YYYY-MM-DD`: digits,
/// with `-` at the fifth and the eighth.
pub proof fn lema_fecha_de_diez_caracteres(s: Seq<char>, y: int, m: int, d: int)
    requires
        0 <= y <= 9999,
        1 <= m <= 12 && 1 <= d <= 31,
        s == fecha_formateada(y, m, d),
    ensures
        s.len() == 10,
        s[4] == '-' && s[7] == '-',
        forall|i: int| 0 <= i < 10 && i != 4 && i != 7 ==> es_digito(#[trigger] s[i]),
{
    lema_anio_cuatro_cifras(y);
    lema_dos_cifras(m);
    lema_dos_cifras(d);
    let a = anio_formateado(y);
    assert forall|i: int| 0 <= i < 10 && i != 4 && i != 7 implies es_digito(#[trigger] s[i]) by {
        if i < 4 {
            assert(s[i] == a[i]);
        } else if i < 7 {
            assert(s[i] == texto_dos_cifras(m)[i - 5]);
        } else {
            assert(s[i] == texto_dos_cifras(d)[i - 8]);
        }
    }
}

} // verus!
