//! Important documents.
use vstd::prelude::*;
use crate::texto::{copiar_opcional, en_minusculas, iguales, minusculas};

verus! {

/// The category of a document.
#[derive(Clone, Copy, Debug, PartialEq, Eq, Structural)]
pub enum CategoriaDocumento {
    Contrato,
    Poliza,
    Escritura,
    Certificado,
    Factura,
    Legal,
    Personal,
    Otro,
}

impl CategoriaDocumento {
    /// The value that a text in lower case denotes (`Otro` for any other text).
    pub open spec fn de_minusculas(t: Seq<char>) -> CategoriaDocumento {
        if t == "contrato"@ {
            CategoriaDocumento::Contrato
        } else if t == "poliza"@ {
            CategoriaDocumento::Poliza
        } else if t == "escritura"@ {
            CategoriaDocumento::Escritura
        } else if t == "certificado"@ {
            CategoriaDocumento::Certificado
        } else if t == "factura"@ {
            CategoriaDocumento::Factura
        } else if t == "legal"@ {
            CategoriaDocumento::Legal
        } else if t == "personal"@ {
            CategoriaDocumento::Personal
        } else {
            CategoriaDocumento::Otro
        }
    }

    /// The value that a stored text denotes, compared in lower case.
    pub open spec fn leer(s: Seq<char>) -> CategoriaDocumento {
        Self::de_minusculas(en_minusculas(s))
    }

    /// Reads a value from its text (as `From<String>`).
    pub fn desde_texto(s: &str) -> (r: CategoriaDocumento)
        ensures
            r == Self::leer(s@),
    {
        let t = minusculas(s);
        if iguales(t.as_str(), "contrato") {
            CategoriaDocumento::Contrato
        } else if iguales(t.as_str(), "poliza") {
            CategoriaDocumento::Poliza
        } else if iguales(t.as_str(), "escritura") {
            CategoriaDocumento::Escritura
        } else if iguales(t.as_str(), "certificado") {
            CategoriaDocumento::Certificado
        } else if iguales(t.as_str(), "factura") {
            CategoriaDocumento::Factura
        } else if iguales(t.as_str(), "legal") {
            CategoriaDocumento::Legal
        } else if iguales(t.as_str(), "personal") {
            CategoriaDocumento::Personal
        } else {
            CategoriaDocumento::Otro
        }
    }

    /// The name under which the value is stored and shown.
    pub open spec fn nombre(self) -> Seq<char> {
        match self {
            CategoriaDocumento::Contrato => "Contrato"@,
            CategoriaDocumento::Poliza => "Poliza"@,
            CategoriaDocumento::Escritura => "Escritura"@,
            CategoriaDocumento::Certificado => "Certificado"@,
            CategoriaDocumento::Factura => "Factura"@,
            CategoriaDocumento::Legal => "Legal"@,
            CategoriaDocumento::Personal => "Personal"@,
            CategoriaDocumento::Otro => "Otro"@,
        }
    }

    /// The value's name (as `ToString`).
    pub fn to_string(&self) -> (r: String)
        ensures
            r@ == self.nombre(),
    {
        match self {
            CategoriaDocumento::Contrato => String::from_str("Contrato"),
            CategoriaDocumento::Poliza => String::from_str("Poliza"),
            CategoriaDocumento::Escritura => String::from_str("Escritura"),
            CategoriaDocumento::Certificado => String::from_str("Certificado"),
            CategoriaDocumento::Factura => String::from_str("Factura"),
            CategoriaDocumento::Legal => String::from_str("Legal"),
            CategoriaDocumento::Personal => String::from_str("Personal"),
            CategoriaDocumento::Otro => String::from_str("Otro"),
        }
    }

    /// Reading the name of a value gives the value back.
    pub proof fn ley_nombre_se_lee(e: CategoriaDocumento)
        ensures
            Self::leer(e.nombre()) == e,
    {
        reveal_strlit("Certificado");
        reveal_strlit("Contrato");
        reveal_strlit("Escritura");
        reveal_strlit("Factura");
        reveal_strlit("Legal");
        reveal_strlit("Otro");
        reveal_strlit("Personal");
        reveal_strlit("Poliza");
        reveal_strlit("certificado");
        reveal_strlit("contrato");
        reveal_strlit("escritura");
        reveal_strlit("factura");
        reveal_strlit("legal");
        reveal_strlit("otro");
        reveal_strlit("personal");
        reveal_strlit("poliza");
        match e {
            CategoriaDocumento::Contrato => {
                assert(en_minusculas("Contrato"@) =~= "contrato"@);
                assert("contrato"@[0] != "personal"@[0]);
            },
            CategoriaDocumento::Poliza => {
                assert(en_minusculas("Poliza"@) =~= "poliza"@);
            },
            CategoriaDocumento::Escritura => {
                assert(en_minusculas("Escritura"@) =~= "escritura"@);
            },
            CategoriaDocumento::Certificado => {
                assert(en_minusculas("Certificado"@) =~= "certificado"@);
            },
            CategoriaDocumento::Factura => {
                assert(en_minusculas("Factura"@) =~= "factura"@);
            },
            CategoriaDocumento::Legal => {
                assert(en_minusculas("Legal"@) =~= "legal"@);
            },
            CategoriaDocumento::Personal => {
                assert(en_minusculas("Personal"@) =~= "personal"@);
                assert("personal"@[0] != "contrato"@[0]);
            },
            CategoriaDocumento::Otro => {
                assert(en_minusculas("Otro"@) =~= "otro"@);
            },
        }
    }
}

impl From<String> for CategoriaDocumento {
    fn from(s: String) -> (r: CategoriaDocumento) {
        CategoriaDocumento::desde_texto(s.as_str())
    }
}

impl vstd::std_specs::convert::FromSpecImpl<String> for CategoriaDocumento {
    open spec fn obeys_from_spec() -> bool {
        true
    }

    open spec fn from_spec(s: String) -> CategoriaDocumento {
        CategoriaDocumento::leer(s@)
    }
}
/// A stored document with its optional expiry date (`YYYY-MM-DD`).
#[derive(Clone, Debug)]
pub struct Documento {
    pub id: i32,
    pub nombre: String,
    pub descripcion: Option<String>,
    pub categoria: CategoriaDocumento,
    pub archivo_url: String,
    pub nombre_archivo: String,
    pub fecha_vencimiento: Option<String>,
    pub fecha_creacion: String,
}

impl Documento {
    /// A copy of the document, field by field.
    pub fn copia(&self) -> (r: Documento)
        ensures
            r == *self,
    {
        Documento {
            id: self.id,
            nombre: self.nombre.clone(),
            descripcion: copiar_opcional(&self.descripcion),
            categoria: self.categoria,
            archivo_url: self.archivo_url.clone(),
            nombre_archivo: self.nombre_archivo.clone(),
            fecha_vencimiento: copiar_opcional(&self.fecha_vencimiento),
            fecha_creacion: self.fecha_creacion.clone(),
        }
    }
}

} // verus!
