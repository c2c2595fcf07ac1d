//! Recurring expense templates.
use vstd::prelude::*;
use crate::texto::{en_minusculas, iguales, minusculas};
use crate::dinero::Monto;
use crate::texto::copiar_opcional;

verus! {

/// Whether a recurring expense is fixed (generated by itself) or fixed-variable (generated on request).
#[derive(Clone, Copy, Debug, PartialEq, Eq, Structural)]
pub enum TipoGastoRecurrente {
    Fijo,
    FijoVariable,
}

impl TipoGastoRecurrente {
    /// The value that a text in lower case denotes (`Fijo` for any other text).
    pub open spec fn de_minusculas(t: Seq<char>) -> TipoGastoRecurrente {
        if t == "fijovariable"@ || t == "fijo_variable"@ {
            TipoGastoRecurrente::FijoVariable
        } else {
            TipoGastoRecurrente::Fijo
        }
    }

    /// The value that a stored text denotes, compared in lower case.
    pub open spec fn leer(s: Seq<char>) -> TipoGastoRecurrente {
        Self::de_minusculas(en_minusculas(s))
    }

    /// Reads a value from its text (as `From<String>`).
    pub fn desde_texto(s: &str) -> (r: TipoGastoRecurrente)
        ensures
            r == Self::leer(s@),
    {
        let t = minusculas(s);
        if iguales(t.as_str(), "fijovariable") || iguales(t.as_str(), "fijo_variable") {
            TipoGastoRecurrente::FijoVariable
        } else {
            TipoGastoRecurrente::Fijo
        }
    }

    /// The name under which the value is stored and shown.
    pub open spec fn nombre(self) -> Seq<char> {
        match self {
            TipoGastoRecurrente::Fijo => "Fijo"@,
            TipoGastoRecurrente::FijoVariable => "FijoVariable"@,
        }
    }

    /// The value's name (as `ToString`).
    pub fn to_string(&self) -> (r: String)
        ensures
            r@ == self.nombre(),
    {
        match self {
            TipoGastoRecurrente::Fijo => String::from_str("Fijo"),
            TipoGastoRecurrente::FijoVariable => String::from_str("FijoVariable"),
        }
    }

    /// Reading the name of a value gives the value back.
    pub proof fn ley_nombre_se_lee(e: TipoGastoRecurrente)
        ensures
            Self::leer(e.nombre()) == e,
    {
        reveal_strlit("Fijo");
        reveal_strlit("FijoVariable");
        reveal_strlit("fijo");
        reveal_strlit("fijo_variable");
        reveal_strlit("fijovariable");
        match e {
            TipoGastoRecurrente::Fijo => {
                assert(en_minusculas("Fijo"@) =~= "fijo"@);
            },
            TipoGastoRecurrente::FijoVariable => {
                assert(en_minusculas("FijoVariable"@) =~= "fijovariable"@);
            },
        }
    }
}

impl From<String> for TipoGastoRecurrente {
    fn from(s: String) -> (r: TipoGastoRecurrente) {
        TipoGastoRecurrente::desde_texto(s.as_str())
    }
}

impl vstd::std_specs::convert::FromSpecImpl<String> for TipoGastoRecurrente {
    open spec fn obeys_from_spec() -> bool {
        true
    }

    open spec fn from_spec(s: String) -> TipoGastoRecurrente {
        TipoGastoRecurrente::leer(s@)
    }
}
/// A template from which an expense is generated each month.
#[derive(Clone, Debug)]
pub struct GastoRecurrente {
    pub id: i32,
    pub descripcion: String,
    pub monto_referencia: Monto,
    pub categoria: String,
    pub tipo: TipoGastoRecurrente,
    pub responsable: Option<String>,
    pub activo: bool,
    pub dia_facturacion: i32,
    pub fecha_creacion: String,
}

impl GastoRecurrente {
    /// An exact copy of the template.
    pub fn copia(&self) -> (r: GastoRecurrente)
        ensures
            r == *self,
    {
        GastoRecurrente {
            id: self.id,
            descripcion: self.descripcion.clone(),
            monto_referencia: self.monto_referencia,
            categoria: self.categoria.clone(),
            tipo: self.tipo,
            responsable: copiar_opcional(&self.responsable),
            activo: self.activo,
            dia_facturacion: self.dia_facturacion,
            fecha_creacion: self.fecha_creacion.clone(),
        }
    }
}

} // verus!
