//! Scheduled payments of a project and their settlement.
use vstd::prelude::*;
use crate::texto::{en_minusculas, iguales, lema_recorte_sin_espacios, minusculas, recortar, recorte};
use crate::dinero::{comparar, monto_cero, monto_de, restar, resta_decimal, Monto, Orden};

verus! {

/// The state of a payment.
#[derive(Clone, Copy, Debug, PartialEq, Eq, Structural)]
pub enum EstadoPago {
    Pendiente,
    Pagado,
    Vencido,
    Parcial,
}

impl EstadoPago {
    /// The value that a text in lower case denotes (`Pendiente` for any other text).
    pub open spec fn de_minusculas(t: Seq<char>) -> EstadoPago {
        if t == "pagado"@ {
            EstadoPago::Pagado
        } else if t == "vencido"@ {
            EstadoPago::Vencido
        } else if t == "parcial"@ {
            EstadoPago::Parcial
        } else {
            EstadoPago::Pendiente
        }
    }

    /// The value that a stored text denotes: trimmed, then compared in lower case.
    pub open spec fn leer(s: Seq<char>) -> EstadoPago {
        Self::de_minusculas(en_minusculas(recorte(s)))
    }

    /// Reads a value from its text (as `From<String>`).
    pub fn desde_texto(s: &str) -> (r: EstadoPago)
        ensures
            r == Self::leer(s@),
    {
        let u = recortar(s);
        let t = minusculas(u.as_str());
        if iguales(t.as_str(), "pagado") {
            EstadoPago::Pagado
        } else if iguales(t.as_str(), "vencido") {
            EstadoPago::Vencido
        } else if iguales(t.as_str(), "parcial") {
            EstadoPago::Parcial
        } else {
            EstadoPago::Pendiente
        }
    }

    /// The name under which the value is stored and shown.
    pub open spec fn nombre(self) -> Seq<char> {
        match self {
            EstadoPago::Pendiente => "Pendiente"@,
            EstadoPago::Pagado => "Pagado"@,
            EstadoPago::Vencido => "Vencido"@,
            EstadoPago::Parcial => "Parcial"@,
        }
    }

    /// The value's name (as `ToString`).
    pub fn to_string(&self) -> (r: String)
        ensures
            r@ == self.nombre(),
    {
        match self {
            EstadoPago::Pendiente => String::from_str("Pendiente"),
            EstadoPago::Pagado => String::from_str("Pagado"),
            EstadoPago::Vencido => String::from_str("Vencido"),
            EstadoPago::Parcial => String::from_str("Parcial"),
        }
    }

    /// Reading the name of a value gives the value back.
    pub proof fn ley_nombre_se_lee(e: EstadoPago)
        ensures
            Self::leer(e.nombre()) == e,
    {
        reveal_strlit("Pagado");
        reveal_strlit("Parcial");
        reveal_strlit("Pendiente");
        reveal_strlit("Vencido");
        reveal_strlit("pagado");
        reveal_strlit("parcial");
        reveal_strlit("pendiente");
        reveal_strlit("vencido");
        match e {
            EstadoPago::Pendiente => {
                lema_recorte_sin_espacios("Pendiente"@);
                assert(en_minusculas("Pendiente"@) =~= "pendiente"@);
            },
            EstadoPago::Pagado => {
                lema_recorte_sin_espacios("Pagado"@);
                assert(en_minusculas("Pagado"@) =~= "pagado"@);
            },
            EstadoPago::Vencido => {
                lema_recorte_sin_espacios("Vencido"@);
                assert(en_minusculas("Vencido"@) =~= "vencido"@);
                assert("vencido"@[0] != "parcial"@[0]);
            },
            EstadoPago::Parcial => {
                lema_recorte_sin_espacios("Parcial"@);
                assert(en_minusculas("Parcial"@) =~= "parcial"@);
                assert("parcial"@[0] != "vencido"@[0]);
            },
        }
    }
}

impl From<String> for EstadoPago {
    fn from(s: String) -> (r: EstadoPago) {
        EstadoPago::desde_texto(s.as_str())
    }
}

impl vstd::std_specs::convert::FromSpecImpl<String> for EstadoPago {
    open spec fn obeys_from_spec() -> bool {
        true
    }

    open spec fn from_spec(s: String) -> EstadoPago {
        EstadoPago::leer(s@)
    }
}
/// The date that the payment records carry.
pub open spec fn fecha_fija() -> Seq<char> {
    "2024-01-01T00:00:00Z"@
}

/// A scheduled payment: its value, what is still owed (`saldo`) and its
/// evidence files.
#[derive(Clone, Debug)]
pub struct PagoExistente {
    pub id: i32,
    pub descripcion: String,
    pub valor: Monto,
    pub saldo: Option<Monto>,
    pub estado: EstadoPago,
    pub mes: String,
    pub anio: String,
    pub proyecto_id: Option<i32>,
    pub evidencia: Option<String>,
    pub evidencia_constructora: Option<String>,
    pub fecha_creacion: String,
    pub fecha_actualizacion: Option<String>,
}

impl PagoExistente {
    /// The amounts fit a `Decimal`.
    pub open spec fn bien_formado(self) -> bool {
        &&& self.valor.bien_formado()
        &&& self.saldo matches Some(s) ==> s.bien_formado()
    }

    /// The fields that registering a payment or attaching evidence keeps.
    pub open spec fn mismos_datos(self, otro: PagoExistente) -> bool {
        &&& self.id == otro.id
        &&& self.descripcion == otro.descripcion
        &&& self.valor == otro.valor
        &&& self.mes == otro.mes
        &&& self.anio == otro.anio
        &&& self.proyecto_id == otro.proyecto_id
        &&& self.fecha_creacion == otro.fecha_creacion
    }

    /// The update date is the fixed record date.
    pub open spec fn actualizado(self) -> bool {
        self.fecha_actualizacion matches Some(f) && f@ == fecha_fija()
    }

    /// A new payment of `valor`: nothing paid yet, so the balance is the value.
    pub fn new(
        descripcion: String,
        valor: Monto,
        mes: String,
        anio: String,
        proyecto_id: Option<i32>,
    ) -> (r: PagoExistente)
        ensures
            r.id == 0,
            r.descripcion == descripcion,
            r.valor == valor,
            r.saldo == Some(valor),
            r.estado == EstadoPago::Pendiente,
            r.mes == mes,
            r.anio == anio,
            r.proyecto_id == proyecto_id,
            r.evidencia is None,
            r.evidencia_constructora is None,
            r.fecha_creacion@ == fecha_fija(),
            r.fecha_actualizacion is None,
    {
        PagoExistente {
            id: 0,
            descripcion,
            valor,
            saldo: Some(valor),
            estado: EstadoPago::Pendiente,
            mes,
            anio,
            proyecto_id,
            evidencia: None,
            evidencia_constructora: None,
            fecha_creacion: String::from_str("2024-01-01T00:00:00Z"),
            fecha_actualizacion: None,
        }
    }

    /// The state and balance after a payment that leaves `nuevo` owed:
    /// nothing owed settles it (balance zero); less than the value makes it
    /// partial; otherwise the state stays.
    pub open spec fn tras_pago(self, nuevo: Monto) -> (EstadoPago, Monto) {
        if nuevo.orden_con(monto_cero()) != Orden::Mayor {
            (EstadoPago::Pagado, monto_cero())
        } else if nuevo.orden_con(self.valor) == Orden::Menor {
            (EstadoPago::Parcial, nuevo)
        } else {
            (self.estado, nuevo)
        }
    }

    /// Paying `monto` can be computed: the balance minus `monto` fits a
    /// `Decimal` (the subtraction panics otherwise).
    pub open spec fn puede_registrar(self, monto: Monto) -> bool {
        self.saldo matches Some(s) ==> resta_decimal(s@, monto@) is Some
    }

    /// `despues` is `antes` after paying `monto`.
    pub open spec fn es_registro(antes: PagoExistente, despues: PagoExistente, monto: Monto) -> bool {
        &&& despues.mismos_datos(antes)
        &&& despues.evidencia == antes.evidencia
        &&& despues.evidencia_constructora == antes.evidencia_constructora
        &&& despues.actualizado()
        &&& match antes.saldo {
            None => despues.saldo is None && despues.estado == antes.estado,
            Some(s) => {
                let par = antes.tras_pago(monto_de(resta_decimal(s@, monto@).unwrap()));
                despues.estado == par.0 && despues.saldo == Some(par.1)
            },
        }
    }

    /// Registers a payment of `monto_pagado` against the balance.
    pub fn registrar_pago(&mut self, monto_pagado: Monto)
        requires
            old(self).bien_formado(),
            monto_pagado.bien_formado(),
            old(self).puede_registrar(monto_pagado),
        ensures
            final(self).bien_formado(),
            PagoExistente::es_registro(*old(self), *final(self), monto_pagado),
            // The balance is never left below zero.
            final(self).saldo matches Some(s) ==> s.orden_con(monto_cero()) != Orden::Menor,
            // Paying the whole balance settles the payment.
            old(self).saldo == Some(monto_pagado) ==> final(self).estado == EstadoPago::Pagado
                && final(self).saldo == Some(monto_cero()),
    {
        if let Some(saldo_actual) = self.saldo {
            let nuevo = restar(&saldo_actual, &monto_pagado).unwrap();
            self.saldo = Some(nuevo);
            let cero = Monto::cero();
            if comparar(&nuevo, &cero) != Orden::Mayor {
                self.estado = EstadoPago::Pagado;
                self.saldo = Some(cero);
            } else if comparar(&nuevo, &self.valor) == Orden::Menor {
                self.estado = EstadoPago::Parcial;
            }
            proof {
                assert(nuevo == monto_de(resta_decimal(saldo_actual@, monto_pagado@).unwrap()));
                assert(monto_cero().orden_con(monto_cero()) == Orden::Igual) by {
                    vstd::arithmetic::power::lemma_pow0(10);
                }
                if nuevo.orden_con(monto_cero()) == Orden::Mayor {
                    vstd::arithmetic::power::lemma_pow0(10);
                    vstd::arithmetic::power::lemma_pow_positive(10, nuevo.escala as nat);
                    assert(nuevo.numerador() > 0);
                    assert(monto_cero().orden_con(nuevo) == Orden::Menor);
                }
                if old(self).saldo == Some(monto_pagado) {
                    assert(nuevo.numerador() == 0);
                    vstd::arithmetic::power::lemma_pow0(10);
                    assert(nuevo.orden_con(monto_cero()) == Orden::Igual);
                }
            }
        }
        self.fecha_actualizacion = Some(String::from_str("2024-01-01T00:00:00Z"));
    }

    /// Registers the payment where `puede_registrar` holds and returns true;
    /// otherwise (where the subtraction would overflow) leaves the payment
    /// unchanged and returns false.
    pub fn intentar_registrar_pago(&mut self, monto_pagado: Monto) -> (r: bool)
        requires
            old(self).bien_formado(),
            monto_pagado.bien_formado(),
        ensures
            r == old(self).puede_registrar(monto_pagado),
            r ==> PagoExistente::es_registro(*old(self), *final(self), monto_pagado),
            !r ==> *final(self) == *old(self),
            final(self).bien_formado(),
    {
        if let Some(saldo_actual) = self.saldo {
            if restar(&saldo_actual, &monto_pagado).is_none() {
                return false;
            }
        }
        self.registrar_pago(monto_pagado);
        true
    }

    /// Attaches the client's evidence file.
    pub fn agregar_evidencia(&mut self, evidencia: String)
        ensures
            final(self).mismos_datos(*old(self)),
            final(self).saldo == old(self).saldo,
            final(self).estado == old(self).estado,
            final(self).evidencia == Some(evidencia),
            final(self).evidencia_constructora == old(self).evidencia_constructora,
            final(self).actualizado(),
    {
        self.evidencia = Some(evidencia);
        self.fecha_actualizacion = Some(String::from_str("2024-01-01T00:00:00Z"));
    }

    /// Attaches the builder's evidence file.
    pub fn agregar_evidencia_constructora(&mut self, evidencia: String)
        ensures
            final(self).mismos_datos(*old(self)),
            final(self).saldo == old(self).saldo,
            final(self).estado == old(self).estado,
            final(self).evidencia == old(self).evidencia,
            final(self).evidencia_constructora == Some(evidencia),
            final(self).actualizado(),
    {
        self.evidencia_constructora = Some(evidencia);
        self.fecha_actualizacion = Some(String::from_str("2024-01-01T00:00:00Z"));
    }

    /// The payment is settled.
    pub fn is_pagado_completo(&self) -> (r: bool)
        ensures
            r == (self.estado == EstadoPago::Pagado),
    {
        match self.estado {
            EstadoPago::Pagado => true,
            _ => false,
        }
    }

    /// What has been paid: the value minus the balance (zero without a
    /// balance) can be computed.
    pub open spec fn puede_calcular_pagado(self) -> bool {
        self.saldo matches Some(s) ==> resta_decimal(self.valor@, s@) is Some
    }

    /// What has been paid, as `monto_pagado` computes it.
    pub open spec fn pagado(self) -> Monto {
        match self.saldo {
            Some(s) => monto_de(resta_decimal(self.valor@, s@).unwrap()),
            None => monto_cero(),
        }
    }

    /// What has been paid: the value minus the balance; zero without a balance.
    pub fn monto_pagado(&self) -> (r: Monto)
        requires
            self.bien_formado(),
            self.puede_calcular_pagado(),
        ensures
            r == self.pagado(),
            r.bien_formado(),
            // Nothing is paid while the balance is the whole value.
            self.saldo == Some(self.valor) ==> r.numerador() == 0,
    {
        match self.saldo {
            Some(saldo) => restar(&self.valor, &saldo).unwrap(),
            None => Monto::cero(),
        }
    }

    /// What has been paid, where it can be computed (`None` where the
    /// subtraction would overflow).
    pub fn monto_pagado_comprobado(&self) -> (r: Option<Monto>)
        requires
            self.bien_formado(),
        ensures
            r is Some <==> self.puede_calcular_pagado(),
            r matches Some(m) ==> m == self.pagado(),
    {
        match self.saldo {
            Some(saldo) => restar(&self.valor, &saldo),
            None => Some(Monto::cero()),
        }
    }
}

} // verus!
