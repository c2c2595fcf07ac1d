//! Money amounts. `Monto` holds the data of a `rust_decimal::Decimal` as
//! plain values; the arithmetic is `rust_decimal`'s, reached through the
//! wrappers of this module.
use vstd::prelude::*;
use vstd::arithmetic::power::pow;
use rust_decimal::Decimal;
use crate::texto::{digitos, todos_digitos, valor_digitos};

verus! {

/// 2^96: every magnitude of a `Decimal` is below it.
pub const LIMITE_MAGNITUD: u128 = 0x1_0000_0000_0000_0000_0000_0000;

/// The largest scale of a `Decimal`.
pub const ESCALA_MAXIMA: u32 = 28;

/// A decimal amount: sign, magnitude and scale, as a `Decimal` holds them.
/// Its value is ±`magnitud` / 10^`escala`.
#[derive(Clone, Copy, Debug)]
pub struct Monto {
    pub negativo: bool,
    pub magnitud: u128,
    pub escala: u32,
}

impl View for Monto {
    type V = (bool, nat, nat);

    open spec fn view(&self) -> (bool, nat, nat) {
        (self.negativo, self.magnitud as nat, self.escala as nat)
    }
}

/// The outcome of comparing two amounts by value.
#[derive(Clone, Copy, Debug, PartialEq, Eq, Structural)]
pub enum Orden {
    Menor,
    Igual,
    Mayor,
}

impl Monto {
    /// The data fits a `Decimal`.
    pub open spec fn bien_formado(self) -> bool {
        self.magnitud < LIMITE_MAGNITUD && self.escala <= ESCALA_MAXIMA
    }

    /// The signed magnitude: the value times 10^escala.
    pub open spec fn numerador(self) -> int {
        if self.negativo {
            -(self.magnitud as int)
        } else {
            self.magnitud as int
        }
    }

    /// How the value of `self` compares with the value of `otro`.
    pub open spec fn orden_con(self, otro: Monto) -> Orden {
        let x = self.numerador() * pow(10, otro.escala as nat);
        let y = otro.numerador() * pow(10, self.escala as nat);
        if x < y {
            Orden::Menor
        } else if x == y {
            Orden::Igual
        } else {
            Orden::Mayor
        }
    }

    /// The amount zero, as `Decimal::ZERO`.
    pub fn cero() -> (r: Monto)
        ensures
            r == (Monto { negativo: false, magnitud: 0, escala: 0 }),
            r.bien_formado(),
    {
        Monto { negativo: false, magnitud: 0, escala: 0 }
    }

    /// The whole number `n`, as `Decimal::from(n)`.
    pub fn desde_entero(n: i64) -> (r: Monto)
        ensures
            r.bien_formado(),
            r.escala == 0,
            r.numerador() == n as int,
            r.negativo == (n < 0),
    {
        if n < 0 {
            Monto { negativo: true, magnitud: (0 - (n as i128)) as u128, escala: 0 }
        } else {
            Monto { negativo: false, magnitud: n as u128, escala: 0 }
        }
    }

    /// The value is zero.
    pub fn es_cero(&self) -> (r: bool)
        ensures
            r == (self.numerador() == 0),
    {
        self.magnitud == 0
    }
}

/// Compares by value: `Decimal`'s `PartialOrd::lt`, which is exact.
#[verifier::external_body]
pub(crate) fn es_menor(a: &Monto, b: &Monto) -> (r: bool)
    requires
        a.bien_formado(),
        b.bien_formado(),
    ensures
        r == (a.orden_con(*b) == Orden::Menor),
{
    let mut x = Decimal::from_i128_with_scale(a.magnitud as i128, a.escala);
    x.set_sign_negative(a.negativo);
    let mut y = Decimal::from_i128_with_scale(b.magnitud as i128, b.escala);
    y.set_sign_negative(b.negativo);
    x < y
}

/// Equality of values: `Decimal`'s `PartialEq::eq`, which is exact.
#[verifier::external_body]
pub(crate) fn es_igual(a: &Monto, b: &Monto) -> (r: bool)
    requires
        a.bien_formado(),
        b.bien_formado(),
    ensures
        r == (a.orden_con(*b) == Orden::Igual),
{
    let mut x = Decimal::from_i128_with_scale(a.magnitud as i128, a.escala);
    x.set_sign_negative(a.negativo);
    let mut y = Decimal::from_i128_with_scale(b.magnitud as i128, b.escala);
    y.set_sign_negative(b.negativo);
    x == y
}

/// The order of the values of `a` and `b`.
pub fn comparar(a: &Monto, b: &Monto) -> (r: Orden)
    requires
        a.bien_formado(),
        b.bien_formado(),
    ensures
        r == a.orden_con(*b),
{
    if es_menor(a, b) {
        Orden::Menor
    } else if es_igual(a, b) {
        Orden::Igual
    } else {
        Orden::Mayor
    }
}

/// The amount zero, as `Decimal::ZERO` holds it.
pub open spec fn monto_cero() -> Monto {
    Monto { negativo: false, magnitud: 0, escala: 0 }
}

/// The amount that the data of a `Decimal` result describe.
pub open spec fn monto_de(v: (bool, nat, nat)) -> Monto {
    Monto { negativo: v.0, magnitud: v.1 as u128, escala: v.2 as u32 }
}

/// An amount compares with zero as its signed magnitude does.
pub proof fn lema_orden_con_cero(m: Monto)
    ensures
        (m.orden_con(monto_cero()) == Orden::Mayor) == (m.numerador() > 0),
        (m.orden_con(monto_cero()) == Orden::Igual) == (m.numerador() == 0),
        (m.orden_con(monto_cero()) == Orden::Menor) == (m.numerador() < 0),
{
    vstd::arithmetic::power::lemma_pow0(10);
    assert(m.numerador() * pow(10, 0) == m.numerador());
    assert(0 * pow(10, m.escala as nat) == 0);
}

/// A signed magnitude that a `Decimal` can hold.
pub open spec fn cabe_en_decimal(n: int) -> bool {
    -(LIMITE_MAGNITUD as int) < n && n < LIMITE_MAGNITUD as int
}

/// `r` holds exactly the signed magnitude `numerador` at scale `escala`.
pub open spec fn es_exacto(r: Option<Monto>, numerador: int, escala: u32) -> bool {
    r matches Some(m) && m.escala == escala && m.numerador() == numerador
}

/// What `Decimal::checked_add` returns for two amounts (`None` on overflow).
pub uninterp spec fn suma_decimal(a: (bool, nat, nat), b: (bool, nat, nat)) -> Option<
    (bool, nat, nat),
>;

/// What `Decimal::checked_sub` returns for two amounts (`None` on overflow).
pub uninterp spec fn resta_decimal(a: (bool, nat, nat), b: (bool, nat, nat)) -> Option<
    (bool, nat, nat),
>;

/// The result of a `Decimal` operation, as data.
pub open spec fn resultado(r: Option<Monto>, esperado: Option<(bool, nat, nat)>) -> bool {
    match r {
        Some(m) => m.bien_formado() && esperado == Some(m@),
        None => esperado is None,
    }
}

/// `Decimal::checked_add`. The result is named by `suma_decimal`. Stated
/// besides: adding zero gives back the other operand unchanged, and with
/// equal scales a sum whose magnitude stays below 2^96 is exact at that
/// scale. (`+` of `Decimal` panics exactly where this returns `None`.)
#[verifier::external_body]
pub(crate) fn sumar(a: &Monto, b: &Monto) -> (r: Option<Monto>)
    requires
        a.bien_formado(),
        b.bien_formado(),
    ensures
        resultado(r, suma_decimal(a@, b@)),
        a.magnitud == 0 ==> r == Some(*b),
        a.magnitud != 0 && b.magnitud == 0 ==> r == Some(*a),
        a.escala == b.escala && cabe_en_decimal(a.numerador() + b.numerador()) ==> es_exacto(
            r,
            a.numerador() + b.numerador(),
            a.escala,
        ),
{
    let mut x = Decimal::from_i128_with_scale(a.magnitud as i128, a.escala);
    x.set_sign_negative(a.negativo);
    let mut y = Decimal::from_i128_with_scale(b.magnitud as i128, b.escala);
    y.set_sign_negative(b.negativo);
    x.checked_add(y).map(|d| Monto { negativo: d.is_sign_negative(), magnitud: d.mantissa().unsigned_abs(), escala: d.scale() })
}

/// `Decimal::checked_sub`. The result is named by `resta_decimal`. Stated
/// besides: subtracting zero gives back the minuend unchanged, and with
/// equal scales a difference whose magnitude stays below 2^96 is exact at
/// that scale. (`-` of `Decimal` panics exactly where this returns `None`.)
#[verifier::external_body]
pub(crate) fn restar(a: &Monto, b: &Monto) -> (r: Option<Monto>)
    requires
        a.bien_formado(),
        b.bien_formado(),
    ensures
        resultado(r, resta_decimal(a@, b@)),
        a.magnitud != 0 && b.magnitud == 0 ==> r == Some(*a),
        a.escala == b.escala && cabe_en_decimal(a.numerador() - b.numerador()) ==> es_exacto(
            r,
            a.numerador() - b.numerador(),
            a.escala,
        ),
{
    let mut x = Decimal::from_i128_with_scale(a.magnitud as i128, a.escala);
    x.set_sign_negative(a.negativo);
    let mut y = Decimal::from_i128_with_scale(b.magnitud as i128, b.escala);
    y.set_sign_negative(b.negativo);
    x.checked_sub(y).map(|d| Monto { negativo: d.is_sign_negative(), magnitud: d.mantissa().unsigned_abs(), escala: d.scale() })
}

/// What `Decimal::checked_div` returns for two amounts (`None` where the
/// divisor is zero or the quotient overflows).
pub uninterp spec fn cociente_decimal(a: (bool, nat, nat), b: (bool, nat, nat)) -> Option<
    (bool, nat, nat),
>;

/// `Decimal::checked_div`. The result is named by `cociente_decimal`.
/// (`/` of `Decimal` panics exactly where this returns `None`.)
#[verifier::external_body]
pub(crate) fn dividir(a: &Monto, b: &Monto) -> (r: Option<Monto>)
    requires
        a.bien_formado(),
        b.bien_formado(),
    ensures
        resultado(r, cociente_decimal(a@, b@)),
{
    let mut x = Decimal::from_i128_with_scale(a.magnitud as i128, a.escala);
    x.set_sign_negative(a.negativo);
    let mut y = Decimal::from_i128_with_scale(b.magnitud as i128, b.escala);
    y.set_sign_negative(b.negativo);
    x.checked_div(y).map(|d| Monto { negativo: d.is_sign_negative(), magnitud: d.mantissa().unsigned_abs(), escala: d.scale() })
}

/// What `Decimal::from_str` gives for a text (`None` where it fails).
pub uninterp spec fn monto_de_texto(s: Seq<char>) -> Option<(bool, nat, nat)>;

/// `Decimal::from_str` (what `str::parse::<Decimal>` calls). The result is
/// named by `monto_de_texto`. Stated besides: a text of 1 to 17 decimal
/// digits reads as that whole number.
#[verifier::external_body]
pub(crate) fn leer_monto(s: &str) -> (r: Option<Monto>)
    ensures
        resultado(r, monto_de_texto(s@)),
        1 <= s@.len() <= 17 && todos_digitos(s@) ==> r == Some(
            Monto { negativo: false, magnitud: valor_digitos(s@) as u128, escala: 0 },
        ),
{
    <Decimal as std::str::FromStr>::from_str(s).ok().map(|d| Monto { negativo: d.is_sign_negative(), magnitud: d.mantissa().unsigned_abs(), escala: d.scale() })
}

/// The digits of the whole part of an amount, as `format!("{:.0}", d)`
/// writes them: the integer part is truncated, not rounded, and a negative
/// sign (also of a negative zero) is kept.
pub open spec fn texto_truncado(m: Monto) -> Seq<char> {
    let entero = (m.magnitud as nat) / (pow(10, m.escala as nat) as nat);
    if m.negativo {
        seq!['-'] + digitos(entero)
    } else {
        digitos(entero)
    }
}

/// `format!("{:.0}", d)` for a `Decimal` (its `Display` with precision 0).
#[verifier::external_body]
pub(crate) fn formatear_sin_decimales(m: &Monto) -> (r: String)
    requires
        m.bien_formado(),
    ensures
        r@ == texto_truncado(*m),
{
    let mut x = Decimal::from_i128_with_scale(m.magnitud as i128, m.escala);
    x.set_sign_negative(m.negativo);
    format!("{:.0}", x)
}

/// `n` zeros.
pub open spec fn ceros(n: nat) -> Seq<char> {
    Seq::new(n, |i: int| '0')
}

/// The digits of a `Decimal`'s magnitude, padded with zeros on the left to
/// at least `escala` digits (none for a zero magnitude before padding).
pub open spec fn cifras_rellenas(magnitud: nat, escala: nat) -> Seq<char> {
    let d = if magnitud == 0 {
        Seq::<char>::empty()
    } else {
        digitos(magnitud)
    };
    if d.len() < escala {
        ceros((escala - d.len()) as nat) + d
    } else {
        d
    }
}

/// How `Display` writes a `Decimal`: sign, whole digits (at least `0`), and
/// for a positive scale a point followed by exactly `escala` digits.
pub open spec fn texto_monto(m: Monto) -> Seq<char> {
    let c = cifras_rellenas(m.magnitud as nat, m.escala as nat);
    let k = c.len() - m.escala;
    let entero = if k == 0 {
        seq!['0']
    } else {
        c.take(k)
    };
    let signo = if m.negativo {
        seq!['-']
    } else {
        Seq::<char>::empty()
    };
    if m.escala == 0 {
        signo + entero
    } else {
        signo + entero + seq!['.'] + c.skip(k)
    }
}

/// `format!("{}", d)` for a `Decimal`.
#[verifier::external_body]
pub(crate) fn formatear_monto(m: &Monto) -> (r: String)
    requires
        m.bien_formado(),
    ensures
        r@ == texto_monto(*m),
{
    let mut x = Decimal::from_i128_with_scale(m.magnitud as i128, m.escala);
    x.set_sign_negative(m.negativo);
    format!("{}", x)
}

/// What folding `Decimal` additions over a sequence from zero gives, as
/// `Iterator::sum` does (`None` once an addition overflows).
pub open spec fn suma_de(s: Seq<(bool, nat, nat)>) -> Option<(bool, nat, nat)>
    decreases s.len(),
{
    if s.len() == 0 {
        Some((false, 0nat, 0nat))
    } else {
        match suma_de(s.drop_last()) {
            Some(parcial) => suma_decimal(parcial, s.last()),
            None => None,
        }
    }
}

/// The views of a sequence of amounts.
pub open spec fn vistas(s: Seq<Monto>) -> Seq<(bool, nat, nat)> {
    s.map_values(|m: Monto| m@)
}

/// Every amount fits a `Decimal`.
pub open spec fn todos_bien_formados(s: Seq<Monto>) -> bool {
    forall|i: int| 0 <= i < s.len() ==> #[trigger] s[i].bien_formado()
}

/// The sum of amounts, as `Iterator::sum` of `Decimal` computes it; `None`
/// exactly where that sum overflows (and `sum` panics).
pub fn sumar_todos(v: &Vec<Monto>) -> (r: Option<Monto>)
    requires
        todos_bien_formados(v@),
    ensures
        resultado(r, suma_de(vistas(v@))),
{
    let mut total = Monto::cero();
    let mut i: usize = 0;
    assert(vistas(v@).take(0) =~= Seq::<(bool, nat, nat)>::empty());
    while i < v.len()
        invariant
            i <= v.len(),
            todos_bien_formados(v@),
            total.bien_formado(),
            suma_de(vistas(v@).take(i as int)) == Some(total@),
        decreases v.len() - i,
    {
        let x = v[i];
        assert(v@[i as int].bien_formado());
        let siguiente = sumar(&total, &x);
        assert(vistas(v@).take(i + 1).drop_last() =~= vistas(v@).take(i as int));
        assert(vistas(v@).take(i + 1).last() == x@);
        match siguiente {
            Some(m) => {
                total = m;
            },
            None => {
                proof {
                    lema_suma_de_none_persiste(vistas(v@), i + 1);
                }
                assert(vistas(v@).take(v@.len() as int) =~= vistas(v@));
                return None;
            },
        }
        i = i + 1;
    }
    assert(vistas(v@).take(v@.len() as int) =~= vistas(v@));
    Some(total)
}

/// Once a prefix sum overflows, every longer one does.
pub proof fn lema_suma_de_none_persiste(s: Seq<(bool, nat, nat)>, i: int)
    requires
        0 <= i <= s.len(),
        suma_de(s.take(i)) is None,
    ensures
        suma_de(s) is None,
    decreases s.len() - i,
{
    if i < s.len() {
        assert(s.take(i + 1).drop_last() =~= s.take(i));
        lema_suma_de_none_persiste(s, i + 1);
    } else {
        assert(s.take(i) =~= s);
    }
}

} // verus!
