//! Projects, their budget and their life cycle.
use vstd::prelude::*;
use crate::texto::{en_minusculas, iguales, minusculas};
use crate::dinero::{es_menor, monto_cero, Monto, Orden};
use crate::tiempo::{ahora_utc_texto, es_instante};

verus! {

/// The state of a project.
#[derive(Clone, Copy, Debug, PartialEq, Eq, Structural)]
pub enum EstadoProyecto {
    Planificacion,
    EnProgreso,
    Pausado,
    Completado,
    Cancelado,
}

impl EstadoProyecto {
    /// The value that a text in lower case denotes (`Planificacion` for any other text).
    pub open spec fn de_minusculas(t: Seq<char>) -> EstadoProyecto {
        if t == "en_progreso"@ {
            EstadoProyecto::EnProgreso
        } else if t == "pausado"@ {
            EstadoProyecto::Pausado
        } else if t == "completado"@ {
            EstadoProyecto::Completado
        } else if t == "cancelado"@ {
            EstadoProyecto::Cancelado
        } else {
            EstadoProyecto::Planificacion
        }
    }

    /// The value that a stored text denotes, compared in lower case.
    pub open spec fn leer(s: Seq<char>) -> EstadoProyecto {
        Self::de_minusculas(en_minusculas(s))
    }

    /// Reads a value from its text (as `From<String>`).
    pub fn desde_texto(s: &str) -> (r: EstadoProyecto)
        ensures
            r == Self::leer(s@),
    {
        let t = minusculas(s);
        if iguales(t.as_str(), "en_progreso") {
            EstadoProyecto::EnProgreso
        } else if iguales(t.as_str(), "pausado") {
            EstadoProyecto::Pausado
        } else if iguales(t.as_str(), "completado") {
            EstadoProyecto::Completado
        } else if iguales(t.as_str(), "cancelado") {
            EstadoProyecto::Cancelado
        } else {
            EstadoProyecto::Planificacion
        }
    }

    /// The name under which the value is stored and shown.
    pub open spec fn nombre(self) -> Seq<char> {
        match self {
            EstadoProyecto::Planificacion => "Planificacion"@,
            EstadoProyecto::EnProgreso => "En_Progreso"@,
            EstadoProyecto::Pausado => "Pausado"@,
            EstadoProyecto::Completado => "Completado"@,
            EstadoProyecto::Cancelado => "Cancelado"@,
        }
    }

    /// The value's name (as `ToString`).
    pub fn to_string(&self) -> (r: String)
        ensures
            r@ == self.nombre(),
    {
        match self {
            EstadoProyecto::Planificacion => String::from_str("Planificacion"),
            EstadoProyecto::EnProgreso => String::from_str("En_Progreso"),
            EstadoProyecto::Pausado => String::from_str("Pausado"),
            EstadoProyecto::Completado => String::from_str("Completado"),
            EstadoProyecto::Cancelado => String::from_str("Cancelado"),
        }
    }

    /// Reading the name of a value gives the value back.
    pub proof fn ley_nombre_se_lee(e: EstadoProyecto)
        ensures
            Self::leer(e.nombre()) == e,
    {
        reveal_strlit("Cancelado");
        reveal_strlit("Completado");
        reveal_strlit("En_Progreso");
        reveal_strlit("Pausado");
        reveal_strlit("Planificacion");
        reveal_strlit("cancelado");
        reveal_strlit("completado");
        reveal_strlit("en_progreso");
        reveal_strlit("pausado");
        reveal_strlit("planificacion");
        match e {
            EstadoProyecto::Planificacion => {
                assert(en_minusculas("Planificacion"@) =~= "planificacion"@);
            },
            EstadoProyecto::EnProgreso => {
                assert(en_minusculas("En_Progreso"@) =~= "en_progreso"@);
            },
            EstadoProyecto::Pausado => {
                assert(en_minusculas("Pausado"@) =~= "pausado"@);
            },
            EstadoProyecto::Completado => {
                assert(en_minusculas("Completado"@) =~= "completado"@);
            },
            EstadoProyecto::Cancelado => {
                assert(en_minusculas("Cancelado"@) =~= "cancelado"@);
            },
        }
    }
}

impl From<String> for EstadoProyecto {
    fn from(s: String) -> (r: EstadoProyecto) {
        EstadoProyecto::desde_texto(s.as_str())
    }
}

impl vstd::std_specs::convert::FromSpecImpl<String> for EstadoProyecto {
    open spec fn obeys_from_spec() -> bool {
        true
    }

    open spec fn from_spec(s: String) -> EstadoProyecto {
        EstadoProyecto::leer(s@)
    }
}
/// A project with its budget, its running cost and its dates.
#[derive(Clone, Debug)]
pub struct Proyecto {
    pub id: i32,
    pub nombre: String,
    pub descripcion: Option<String>,
    pub presupuesto: Option<Monto>,
    pub costo_actual: Option<Monto>,
    pub estado: EstadoProyecto,
    pub fecha_inicio: Option<String>,
    pub fecha_fin_estimada: Option<String>,
    pub fecha_fin_real: Option<String>,
    pub cliente: Option<String>,
    pub responsable: Option<String>,
    pub fecha_creacion: String,
    pub fecha_actualizacion: Option<String>,
}

impl Proyecto {
    /// The project is still active: being planned or in progress.
    pub open spec fn activo(self) -> bool {
        self.estado == EstadoProyecto::Planificacion || self.estado == EstadoProyecto::EnProgreso
    }

    /// The fields that a change of state keeps.
    pub open spec fn mismos_datos(self, otro: Proyecto) -> bool {
        &&& self.id == otro.id
        &&& self.nombre == otro.nombre
        &&& self.descripcion == otro.descripcion
        &&& self.presupuesto == otro.presupuesto
        &&& self.costo_actual == otro.costo_actual
        &&& self.fecha_fin_estimada == otro.fecha_fin_estimada
        &&& self.cliente == otro.cliente
        &&& self.responsable == otro.responsable
        &&& self.fecha_creacion == otro.fecha_creacion
    }

    /// A new project, being planned, with no cost yet; created now.
    pub fn new(
        nombre: String,
        descripcion: Option<String>,
        presupuesto: Option<Monto>,
        cliente: Option<String>,
    ) -> (r: Proyecto)
        ensures
            r.id == 0,
            r.nombre == nombre,
            r.descripcion == descripcion,
            r.presupuesto == presupuesto,
            r.costo_actual == Some(monto_cero()),
            r.estado == EstadoProyecto::Planificacion,
            r.fecha_inicio is None,
            r.fecha_fin_estimada is None,
            r.fecha_fin_real is None,
            r.cliente == cliente,
            r.responsable is None,
            r.fecha_actualizacion is None,
            es_instante(r.fecha_creacion@),
            r.activo(),
    {
        Proyecto {
            id: 0,
            nombre,
            descripcion,
            presupuesto,
            costo_actual: Some(Monto::cero()),
            estado: EstadoProyecto::Planificacion,
            fecha_inicio: None,
            fecha_fin_estimada: None,
            fecha_fin_real: None,
            cliente,
            responsable: None,
            fecha_creacion: ahora_utc_texto(),
            fecha_actualizacion: None,
        }
    }

    /// Starts the project now.
    pub fn iniciar(&mut self)
        ensures
            final(self).mismos_datos(*old(self)),
            final(self).estado == EstadoProyecto::EnProgreso,
            final(self).fecha_inicio matches Some(t) && es_instante(t@),
            final(self).fecha_fin_real == old(self).fecha_fin_real,
            final(self).fecha_actualizacion matches Some(t) && es_instante(t@),
            final(self).activo(),
    {
        self.estado = EstadoProyecto::EnProgreso;
        self.fecha_inicio = Some(ahora_utc_texto());
        self.fecha_actualizacion = Some(ahora_utc_texto());
    }

    /// Completes the project now.
    pub fn completar(&mut self)
        ensures
            final(self).mismos_datos(*old(self)),
            final(self).estado == EstadoProyecto::Completado,
            final(self).fecha_inicio == old(self).fecha_inicio,
            final(self).fecha_fin_real matches Some(t) && es_instante(t@),
            final(self).fecha_actualizacion matches Some(t) && es_instante(t@),
            !final(self).activo(),
    {
        self.estado = EstadoProyecto::Completado;
        self.fecha_fin_real = Some(ahora_utc_texto());
        self.fecha_actualizacion = Some(ahora_utc_texto());
    }

    /// Pauses the project.
    pub fn pausar(&mut self)
        ensures
            final(self).mismos_datos(*old(self)),
            final(self).estado == EstadoProyecto::Pausado,
            final(self).fecha_inicio == old(self).fecha_inicio,
            final(self).fecha_fin_real == old(self).fecha_fin_real,
            final(self).fecha_actualizacion matches Some(t) && es_instante(t@),
            !final(self).activo(),
    {
        self.estado = EstadoProyecto::Pausado;
        self.fecha_actualizacion = Some(ahora_utc_texto());
    }

    /// The cost exceeds the budget (both must be known).
    pub open spec fn sobre_presupuesto(self) -> bool {
        match (self.presupuesto, self.costo_actual) {
            (Some(p), Some(c)) => c.orden_con(p) == Orden::Mayor,
            _ => false,
        }
    }

    /// Whether the cost exceeds the budget.
    pub fn esta_sobre_presupuesto(&self) -> (r: bool)
        requires
            self.presupuesto matches Some(p) ==> p.bien_formado(),
            self.costo_actual matches Some(c) ==> c.bien_formado(),
        ensures
            r == self.sobre_presupuesto(),
    {
        match (&self.presupuesto, &self.costo_actual) {
            (Some(presupuesto), Some(costo)) => es_menor(presupuesto, costo),
            _ => false,
        }
    }

    /// Whether the project is still active.
    pub fn is_activo(&self) -> (r: bool)
        ensures
            r == self.activo(),
    {
        match self.estado {
            EstadoProyecto::Planificacion | EstadoProyecto::EnProgreso => true,
            _ => false,
        }
    }
}

} // verus!
