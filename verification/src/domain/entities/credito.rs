//! Credits (loans) and their states.
use vstd::prelude::*;
use crate::texto::{copiar_opcional, en_minusculas, iguales, minusculas};
use crate::dinero::Monto;

verus! {

/// The state of a credit.
#[derive(Clone, Copy, Debug, PartialEq, Eq, Structural)]
pub enum EstadoCredito {
    Activo,
    Pagado,
    Mora,
    Refinanciado,
}

impl EstadoCredito {
    /// The value that a text in lower case denotes (`Activo` for any other text).
    pub open spec fn de_minusculas(t: Seq<char>) -> EstadoCredito {
        if t == "pagado"@ {
            EstadoCredito::Pagado
        } else if t == "mora"@ {
            EstadoCredito::Mora
        } else if t == "refinanciado"@ {
            EstadoCredito::Refinanciado
        } else {
            EstadoCredito::Activo
        }
    }

    /// The value that a stored text denotes, compared in lower case.
    pub open spec fn leer(s: Seq<char>) -> EstadoCredito {
        Self::de_minusculas(en_minusculas(s))
    }

    /// Reads a value from its text (as `From<String>`).
    pub fn desde_texto(s: &str) -> (r: EstadoCredito)
        ensures
            r == Self::leer(s@),
    {
        let t = minusculas(s);
        if iguales(t.as_str(), "pagado") {
            EstadoCredito::Pagado
        } else if iguales(t.as_str(), "mora") {
            EstadoCredito::Mora
        } else if iguales(t.as_str(), "refinanciado") {
            EstadoCredito::Refinanciado
        } else {
            EstadoCredito::Activo
        }
    }

    /// The name under which the value is stored and shown.
    pub open spec fn nombre(self) -> Seq<char> {
        match self {
            EstadoCredito::Activo => "Activo"@,
            EstadoCredito::Pagado => "Pagado"@,
            EstadoCredito::Mora => "Mora"@,
            EstadoCredito::Refinanciado => "Refinanciado"@,
        }
    }

    /// The value's name (as `ToString`).
    pub fn to_string(&self) -> (r: String)
        ensures
            r@ == self.nombre(),
    {
        match self {
            EstadoCredito::Activo => String::from_str("Activo"),
            EstadoCredito::Pagado => String::from_str("Pagado"),
            EstadoCredito::Mora => String::from_str("Mora"),
            EstadoCredito::Refinanciado => String::from_str("Refinanciado"),
        }
    }

    /// Reading the name of a value gives the value back.
    pub proof fn ley_nombre_se_lee(e: EstadoCredito)
        ensures
            Self::leer(e.nombre()) == e,
    {
        reveal_strlit("Activo");
        reveal_strlit("Mora");
        reveal_strlit("Pagado");
        reveal_strlit("Refinanciado");
        reveal_strlit("activo");
        reveal_strlit("mora");
        reveal_strlit("pagado");
        reveal_strlit("refinanciado");
        match e {
            EstadoCredito::Activo => {
                assert(en_minusculas("Activo"@) =~= "activo"@);
                assert("activo"@[0] != "pagado"@[0]);
            },
            EstadoCredito::Pagado => {
                assert(en_minusculas("Pagado"@) =~= "pagado"@);
            },
            EstadoCredito::Mora => {
                assert(en_minusculas("Mora"@) =~= "mora"@);
            },
            EstadoCredito::Refinanciado => {
                assert(en_minusculas("Refinanciado"@) =~= "refinanciado"@);
            },
        }
    }
}

impl From<String> for EstadoCredito {
    fn from(s: String) -> (r: EstadoCredito) {
        EstadoCredito::desde_texto(s.as_str())
    }
}

impl vstd::std_specs::convert::FromSpecImpl<String> for EstadoCredito {
    open spec fn obeys_from_spec() -> bool {
        true
    }

    open spec fn from_spec(s: String) -> EstadoCredito {
        EstadoCredito::leer(s@)
    }
}

/// Whether a credit's interest rate is fixed or variable.
#[derive(Clone, Copy, Debug, PartialEq, Eq, Structural)]
pub enum TipoTasa {
    Fija,
    Variable,
}

impl TipoTasa {
    /// The value that a text in lower case denotes (`Fija` for any other text).
    pub open spec fn de_minusculas(t: Seq<char>) -> TipoTasa {
        if t == "variable"@ {
            TipoTasa::Variable
        } else {
            TipoTasa::Fija
        }
    }

    /// The value that a stored text denotes, compared in lower case.
    pub open spec fn leer(s: Seq<char>) -> TipoTasa {
        Self::de_minusculas(en_minusculas(s))
    }

    /// Reads a value from its text (as `From<String>`).
    pub fn desde_texto(s: &str) -> (r: TipoTasa)
        ensures
            r == Self::leer(s@),
    {
        let t = minusculas(s);
        if iguales(t.as_str(), "variable") {
            TipoTasa::Variable
        } else {
            TipoTasa::Fija
        }
    }

    /// The name under which the value is stored and shown.
    pub open spec fn nombre(self) -> Seq<char> {
        match self {
            TipoTasa::Fija => "Fija"@,
            TipoTasa::Variable => "Variable"@,
        }
    }

    /// The value's name (as `ToString`).
    pub fn to_string(&self) -> (r: String)
        ensures
            r@ == self.nombre(),
    {
        match self {
            TipoTasa::Fija => String::from_str("Fija"),
            TipoTasa::Variable => String::from_str("Variable"),
        }
    }

    /// Reading the name of a value gives the value back.
    pub proof fn ley_nombre_se_lee(e: TipoTasa)
        ensures
            Self::leer(e.nombre()) == e,
    {
        reveal_strlit("Fija");
        reveal_strlit("Variable");
        reveal_strlit("fija");
        reveal_strlit("variable");
        match e {
            TipoTasa::Fija => {
                assert(en_minusculas("Fija"@) =~= "fija"@);
            },
            TipoTasa::Variable => {
                assert(en_minusculas("Variable"@) =~= "variable"@);
            },
        }
    }
}

impl From<String> for TipoTasa {
    fn from(s: String) -> (r: TipoTasa) {
        TipoTasa::desde_texto(s.as_str())
    }
}

impl vstd::std_specs::convert::FromSpecImpl<String> for TipoTasa {
    open spec fn obeys_from_spec() -> bool {
        true
    }

    open spec fn from_spec(s: String) -> TipoTasa {
        TipoTasa::leer(s@)
    }
}
/// A credit: what was borrowed, what is still owed and how it is paid.
#[derive(Clone, Debug)]
pub struct Credito {
    pub id: i32,
    pub entidad: String,
    pub descripcion: String,
    pub monto_total: Monto,
    pub saldo_pendiente: Monto,
    pub tasa_interes: Monto,
    pub tipo_tasa: TipoTasa,
    pub cuotas_totales: i32,
    pub cuotas_pagadas: i32,
    pub valor_cuota: Monto,
    pub estado: EstadoCredito,
    pub fecha_inicio: String,
    pub fecha_fin_estimada: Option<String>,
    pub fecha_creacion: String,
}

impl Credito {
    /// The instalments still to be paid.
    pub fn cuotas_restantes(&self) -> (r: i32)
        requires
            i32::MIN <= self.cuotas_totales - self.cuotas_pagadas <= i32::MAX,
        ensures
            r == self.cuotas_totales - self.cuotas_pagadas,
    {
        self.cuotas_totales - self.cuotas_pagadas
    }

    /// A copy of the credit, field by field.
    pub fn copia(&self) -> (r: Credito)
        ensures
            r == *self,
    {
        Credito {
            id: self.id,
            entidad: self.entidad.clone(),
            descripcion: self.descripcion.clone(),
            monto_total: self.monto_total,
            saldo_pendiente: self.saldo_pendiente,
            tasa_interes: self.tasa_interes,
            tipo_tasa: self.tipo_tasa,
            cuotas_totales: self.cuotas_totales,
            cuotas_pagadas: self.cuotas_pagadas,
            valor_cuota: self.valor_cuota,
            estado: self.estado,
            fecha_inicio: self.fecha_inicio.clone(),
            fecha_fin_estimada: copiar_opcional(&self.fecha_fin_estimada),
            fecha_creacion: self.fecha_creacion.clone(),
        }
    }
}

} // verus!
