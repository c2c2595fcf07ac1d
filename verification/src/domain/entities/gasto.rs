//! Expenses.
use vstd::prelude::*;
use crate::texto::{en_minusculas, iguales, minusculas};
use crate::dinero::Monto;

verus! {

/// The category of an expense.
#[derive(Clone, Copy, Debug, PartialEq, Eq, Structural)]
pub enum CategoriaGasto {
    Alimentacion,
    Transporte,
    Servicios,
    Vivienda,
    Salud,
    Educacion,
    Entretenimiento,
    Mantenimiento,
    Impuestos,
    Otro,
}

impl CategoriaGasto {
    /// The value that a text in lower case denotes (`Otro` for any other text).
    pub open spec fn de_minusculas(t: Seq<char>) -> CategoriaGasto {
        if t == "alimentacion"@ {
            CategoriaGasto::Alimentacion
        } else if t == "transporte"@ {
            CategoriaGasto::Transporte
        } else if t == "servicios"@ {
            CategoriaGasto::Servicios
        } else if t == "vivienda"@ {
            CategoriaGasto::Vivienda
        } else if t == "salud"@ {
            CategoriaGasto::Salud
        } else if t == "educacion"@ {
            CategoriaGasto::Educacion
        } else if t == "entretenimiento"@ {
            CategoriaGasto::Entretenimiento
        } else if t == "mantenimiento"@ {
            CategoriaGasto::Mantenimiento
        } else if t == "impuestos"@ {
            CategoriaGasto::Impuestos
        } else {
            CategoriaGasto::Otro
        }
    }

    /// The value that a stored text denotes, compared in lower case.
    pub open spec fn leer(s: Seq<char>) -> CategoriaGasto {
        Self::de_minusculas(en_minusculas(s))
    }

    /// Reads a value from its text (as `From<String>`).
    pub fn desde_texto(s: &str) -> (r: CategoriaGasto)
        ensures
            r == Self::leer(s@),
    {
        let t = minusculas(s);
        if iguales(t.as_str(), "alimentacion") {
            CategoriaGasto::Alimentacion
        } else if iguales(t.as_str(), "transporte") {
            CategoriaGasto::Transporte
        } else if iguales(t.as_str(), "servicios") {
            CategoriaGasto::Servicios
        } else if iguales(t.as_str(), "vivienda") {
            CategoriaGasto::Vivienda
        } else if iguales(t.as_str(), "salud") {
            CategoriaGasto::Salud
        } else if iguales(t.as_str(), "educacion") {
            CategoriaGasto::Educacion
        } else if iguales(t.as_str(), "entretenimiento") {
            CategoriaGasto::Entretenimiento
        } else if iguales(t.as_str(), "mantenimiento") {
            CategoriaGasto::Mantenimiento
        } else if iguales(t.as_str(), "impuestos") {
            CategoriaGasto::Impuestos
        } else {
            CategoriaGasto::Otro
        }
    }

    /// The name under which the value is stored and shown.
    pub open spec fn nombre(self) -> Seq<char> {
        match self {
            CategoriaGasto::Alimentacion => "Alimentacion"@,
            CategoriaGasto::Transporte => "Transporte"@,
            CategoriaGasto::Servicios => "Servicios"@,
            CategoriaGasto::Vivienda => "Vivienda"@,
            CategoriaGasto::Salud => "Salud"@,
            CategoriaGasto::Educacion => "Educacion"@,
            CategoriaGasto::Entretenimiento => "Entretenimiento"@,
            CategoriaGasto::Mantenimiento => "Mantenimiento"@,
            CategoriaGasto::Impuestos => "Impuestos"@,
            CategoriaGasto::Otro => "Otro"@,
        }
    }

    /// The value's name (as `ToString`).
    pub fn to_string(&self) -> (r: String)
        ensures
            r@ == self.nombre(),
    {
        match self {
            CategoriaGasto::Alimentacion => String::from_str("Alimentacion"),
            CategoriaGasto::Transporte => String::from_str("Transporte"),
            CategoriaGasto::Servicios => String::from_str("Servicios"),
            CategoriaGasto::Vivienda => String::from_str("Vivienda"),
            CategoriaGasto::Salud => String::from_str("Salud"),
            CategoriaGasto::Educacion => String::from_str("Educacion"),
            CategoriaGasto::Entretenimiento => String::from_str("Entretenimiento"),
            CategoriaGasto::Mantenimiento => String::from_str("Mantenimiento"),
            CategoriaGasto::Impuestos => String::from_str("Impuestos"),
            CategoriaGasto::Otro => String::from_str("Otro"),
        }
    }

    /// Reading the name of a value gives the value back.
    pub proof fn ley_nombre_se_lee(e: CategoriaGasto)
        ensures
            Self::leer(e.nombre()) == e,
    {
        reveal_strlit("Alimentacion");
        reveal_strlit("Educacion");
        reveal_strlit("Entretenimiento");
        reveal_strlit("Impuestos");
        reveal_strlit("Mantenimiento");
        reveal_strlit("Otro");
        reveal_strlit("Salud");
        reveal_strlit("Servicios");
        reveal_strlit("Transporte");
        reveal_strlit("Vivienda");
        reveal_strlit("alimentacion");
        reveal_strlit("educacion");
        reveal_strlit("entretenimiento");
        reveal_strlit("impuestos");
        reveal_strlit("mantenimiento");
        reveal_strlit("otro");
        reveal_strlit("salud");
        reveal_strlit("servicios");
        reveal_strlit("transporte");
        reveal_strlit("vivienda");
        match e {
            CategoriaGasto::Alimentacion => {
                assert(en_minusculas("Alimentacion"@) =~= "alimentacion"@);
            },
            CategoriaGasto::Transporte => {
                assert(en_minusculas("Transporte"@) =~= "transporte"@);
            },
            CategoriaGasto::Servicios => {
                assert(en_minusculas("Servicios"@) =~= "servicios"@);
                assert("servicios"@[0] != "educacion"@[0]);
                assert("servicios"@[0] != "impuestos"@[0]);
            },
            CategoriaGasto::Vivienda => {
                assert(en_minusculas("Vivienda"@) =~= "vivienda"@);
            },
            CategoriaGasto::Salud => {
                assert(en_minusculas("Salud"@) =~= "salud"@);
            },
            CategoriaGasto::Educacion => {
                assert(en_minusculas("Educacion"@) =~= "educacion"@);
                assert("educacion"@[0] != "servicios"@[0]);
                assert("educacion"@[0] != "impuestos"@[0]);
            },
            CategoriaGasto::Entretenimiento => {
                assert(en_minusculas("Entretenimiento"@) =~= "entretenimiento"@);
            },
            CategoriaGasto::Mantenimiento => {
                assert(en_minusculas("Mantenimiento"@) =~= "mantenimiento"@);
            },
            CategoriaGasto::Impuestos => {
                assert(en_minusculas("Impuestos"@) =~= "impuestos"@);
                assert("impuestos"@[0] != "servicios"@[0]);
                assert("impuestos"@[0] != "educacion"@[0]);
            },
            CategoriaGasto::Otro => {
                assert(en_minusculas("Otro"@) =~= "otro"@);
            },
        }
    }
}

impl From<String> for CategoriaGasto {
    fn from(s: String) -> (r: CategoriaGasto) {
        CategoriaGasto::desde_texto(s.as_str())
    }
}

impl vstd::std_specs::convert::FromSpecImpl<String> for CategoriaGasto {
    open spec fn obeys_from_spec() -> bool {
        true
    }

    open spec fn from_spec(s: String) -> CategoriaGasto {
        CategoriaGasto::leer(s@)
    }
}

/// The state of an expense.
#[derive(Clone, Copy, Debug, PartialEq, Eq, Structural)]
pub enum EstadoGasto {
    Pendiente,
    Pagado,
    Anulado,
}

impl EstadoGasto {
    /// The value that a text in lower case denotes (`Pendiente` for any other text).
    pub open spec fn de_minusculas(t: Seq<char>) -> EstadoGasto {
        if t == "pagado"@ {
            EstadoGasto::Pagado
        } else if t == "anulado"@ {
            EstadoGasto::Anulado
        } else {
            EstadoGasto::Pendiente
        }
    }

    /// The value that a stored text denotes, compared in lower case.
    pub open spec fn leer(s: Seq<char>) -> EstadoGasto {
        Self::de_minusculas(en_minusculas(s))
    }

    /// Reads a value from its text (as `From<String>`).
    pub fn desde_texto(s: &str) -> (r: EstadoGasto)
        ensures
            r == Self::leer(s@),
    {
        let t = minusculas(s);
        if iguales(t.as_str(), "pagado") {
            EstadoGasto::Pagado
        } else if iguales(t.as_str(), "anulado") {
            EstadoGasto::Anulado
        } else {
            EstadoGasto::Pendiente
        }
    }

    /// The name under which the value is stored and shown.
    pub open spec fn nombre(self) -> Seq<char> {
        match self {
            EstadoGasto::Pendiente => "Pendiente"@,
            EstadoGasto::Pagado => "Pagado"@,
            EstadoGasto::Anulado => "Anulado"@,
        }
    }

    /// The value's name (as `ToString`).
    pub fn to_string(&self) -> (r: String)
        ensures
            r@ == self.nombre(),
    {
        match self {
            EstadoGasto::Pendiente => String::from_str("Pendiente"),
            EstadoGasto::Pagado => String::from_str("Pagado"),
            EstadoGasto::Anulado => String::from_str("Anulado"),
        }
    }

    /// Reading the name of a value gives the value back.
    pub proof fn ley_nombre_se_lee(e: EstadoGasto)
        ensures
            Self::leer(e.nombre()) == e,
    {
        reveal_strlit("Anulado");
        reveal_strlit("Pagado");
        reveal_strlit("Pendiente");
        reveal_strlit("anulado");
        reveal_strlit("pagado");
        reveal_strlit("pendiente");
        match e {
            EstadoGasto::Pendiente => {
                assert(en_minusculas("Pendiente"@) =~= "pendiente"@);
            },
            EstadoGasto::Pagado => {
                assert(en_minusculas("Pagado"@) =~= "pagado"@);
            },
            EstadoGasto::Anulado => {
                assert(en_minusculas("Anulado"@) =~= "anulado"@);
            },
        }
    }
}

impl From<String> for EstadoGasto {
    fn from(s: String) -> (r: EstadoGasto) {
        EstadoGasto::desde_texto(s.as_str())
    }
}

impl vstd::std_specs::convert::FromSpecImpl<String> for EstadoGasto {
    open spec fn obeys_from_spec() -> bool {
        true
    }

    open spec fn from_spec(s: String) -> EstadoGasto {
        EstadoGasto::leer(s@)
    }
}
/// An expense; `fecha` is a date `YYYY-MM-DD`.
#[derive(Clone, Debug)]
pub struct Gasto {
    pub id: i32,
    pub descripcion: String,
    pub monto: Monto,
    pub categoria: CategoriaGasto,
    pub estado: EstadoGasto,
    pub responsable: Option<String>,
    pub soporte: Option<String>,
    pub fecha: String,
    pub fecha_creacion: String,
}

} // verus!
