//! Incomes.
use vstd::prelude::*;
use crate::texto::{en_minusculas, iguales, minusculas};
use crate::dinero::Monto;

verus! {

/// The category of an income.
#[derive(Clone, Copy, Debug, PartialEq, Eq, Structural)]
pub enum CategoriaIngreso {
    Salario,
    Freelance,
    Inversiones,
    Arriendo,
    Venta,
    Otro,
}

impl CategoriaIngreso {
    /// The value that a text in lower case denotes (`Otro` for any other text).
    pub open spec fn de_minusculas(t: Seq<char>) -> CategoriaIngreso {
        if t == "salario"@ {
            CategoriaIngreso::Salario
        } else if t == "freelance"@ {
            CategoriaIngreso::Freelance
        } else if t == "inversiones"@ {
            CategoriaIngreso::Inversiones
        } else if t == "arriendo"@ {
            CategoriaIngreso::Arriendo
        } else if t == "venta"@ {
            CategoriaIngreso::Venta
        } else {
            CategoriaIngreso::Otro
        }
    }

    /// The value that a stored text denotes, compared in lower case.
    pub open spec fn leer(s: Seq<char>) -> CategoriaIngreso {
        Self::de_minusculas(en_minusculas(s))
    }

    /// Reads a value from its text (as `From<String>`).
    pub fn desde_texto(s: &str) -> (r: CategoriaIngreso)
        ensures
            r == Self::leer(s@),
    {
        let t = minusculas(s);
        if iguales(t.as_str(), "salario") {
            CategoriaIngreso::Salario
        } else if iguales(t.as_str(), "freelance") {
            CategoriaIngreso::Freelance
        } else if iguales(t.as_str(), "inversiones") {
            CategoriaIngreso::Inversiones
        } else if iguales(t.as_str(), "arriendo") {
            CategoriaIngreso::Arriendo
        } else if iguales(t.as_str(), "venta") {
            CategoriaIngreso::Venta
        } else {
            CategoriaIngreso::Otro
        }
    }

    /// The name under which the value is stored and shown.
    pub open spec fn nombre(self) -> Seq<char> {
        match self {
            CategoriaIngreso::Salario => "Salario"@,
            CategoriaIngreso::Freelance => "Freelance"@,
            CategoriaIngreso::Inversiones => "Inversiones"@,
            CategoriaIngreso::Arriendo => "Arriendo"@,
            CategoriaIngreso::Venta => "Venta"@,
            CategoriaIngreso::Otro => "Otro"@,
        }
    }

    /// The value's name (as `ToString`).
    pub fn to_string(&self) -> (r: String)
        ensures
            r@ == self.nombre(),
    {
        match self {
            CategoriaIngreso::Salario => String::from_str("Salario"),
            CategoriaIngreso::Freelance => String::from_str("Freelance"),
            CategoriaIngreso::Inversiones => String::from_str("Inversiones"),
            CategoriaIngreso::Arriendo => String::from_str("Arriendo"),
            CategoriaIngreso::Venta => String::from_str("Venta"),
            CategoriaIngreso::Otro => String::from_str("Otro"),
        }
    }

    /// Reading the name of a value gives the value back.
    pub proof fn ley_nombre_se_lee(e: CategoriaIngreso)
        ensures
            Self::leer(e.nombre()) == e,
    {
        reveal_strlit("Arriendo");
        reveal_strlit("Freelance");
        reveal_strlit("Inversiones");
        reveal_strlit("Otro");
        reveal_strlit("Salario");
        reveal_strlit("Venta");
        reveal_strlit("arriendo");
        reveal_strlit("freelance");
        reveal_strlit("inversiones");
        reveal_strlit("otro");
        reveal_strlit("salario");
        reveal_strlit("venta");
        match e {
            CategoriaIngreso::Salario => {
                assert(en_minusculas("Salario"@) =~= "salario"@);
            },
            CategoriaIngreso::Freelance => {
                assert(en_minusculas("Freelance"@) =~= "freelance"@);
            },
            CategoriaIngreso::Inversiones => {
                assert(en_minusculas("Inversiones"@) =~= "inversiones"@);
            },
            CategoriaIngreso::Arriendo => {
                assert(en_minusculas("Arriendo"@) =~= "arriendo"@);
            },
            CategoriaIngreso::Venta => {
                assert(en_minusculas("Venta"@) =~= "venta"@);
            },
            CategoriaIngreso::Otro => {
                assert(en_minusculas("Otro"@) =~= "otro"@);
            },
        }
    }
}

impl From<String> for CategoriaIngreso {
    fn from(s: String) -> (r: CategoriaIngreso) {
        CategoriaIngreso::desde_texto(s.as_str())
    }
}

impl vstd::std_specs::convert::FromSpecImpl<String> for CategoriaIngreso {
    open spec fn obeys_from_spec() -> bool {
        true
    }

    open spec fn from_spec(s: String) -> CategoriaIngreso {
        CategoriaIngreso::leer(s@)
    }
}
/// An income; `fecha` is a date `YYYY-MM-DD`.
#[derive(Clone, Debug)]
pub struct Ingreso {
    pub id: i32,
    pub descripcion: String,
    pub monto: Monto,
    pub categoria: CategoriaIngreso,
    pub fuente: Option<String>,
    pub fecha: String,
    pub recurrente: bool,
    pub fecha_creacion: String,
}

} // verus!
