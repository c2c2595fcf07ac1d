//! Uploaded files and what kind of content they hold.
use vstd::prelude::*;
use crate::texto::{
    comienza_con, contiene, empieza_con, en_minusculas, iguales, incluye, minusculas,
    quitar_finales, sin_finales, tramo_final, ultimo_tramo, a_texto,
};

verus! {

/// An uploaded file.
#[derive(Clone, Debug)]
pub struct Archivo {
    pub id: i32,
    pub nombre_archivo: String,
    pub nombre_original: String,
    pub ruta: String,
    pub tipo_archivo: Option<String>,
    pub tipo_contenido: String,
    pub tamanio: i64,
    pub fecha_subida: String,
    pub pago_id: Option<i32>,
    pub usuario_id: i32,
}

/// The kind of file that a MIME content type denotes.
pub open spec fn tipo_de_contenido(ct: Seq<char>) -> Seq<char> {
    if empieza_con(ct, "image/"@) {
        "imagen"@
    } else if ct == "application/pdf"@ {
        "pdf"@
    } else if empieza_con(ct, "video/"@) {
        "video"@
    } else if empieza_con(ct, "audio/"@) {
        "audio"@
    } else if contiene(ct, "document"@) || contiene(ct, "word"@) {
        "documento"@
    } else if contiene(ct, "spreadsheet"@) || contiene(ct, "excel"@) {
        "hoja_calculo"@
    } else {
        "otro"@
    }
}

impl Archivo {
    /// A new file record; its kind follows from the content type.
    pub fn new(
        nombre_archivo: String,
        nombre_original: String,
        ruta: String,
        tipo_contenido: String,
        tamanio: i64,
        usuario_id: i32,
        pago_id: Option<i32>,
    ) -> (r: Archivo)
        ensures
            r.id == 0,
            r.nombre_archivo == nombre_archivo,
            r.nombre_original == nombre_original,
            r.ruta == ruta,
            r.tipo_archivo matches Some(t) && t@ == tipo_de_contenido(tipo_contenido@),
            r.tipo_contenido == tipo_contenido,
            r.tamanio == tamanio,
            r.fecha_subida@ == "2024-01-01T00:00:00Z"@,
            r.pago_id == pago_id,
            r.usuario_id == usuario_id,
    {
        let tipo_archivo = Self::determinar_tipo_archivo(tipo_contenido.as_str());
        Archivo {
            id: 0,
            nombre_archivo,
            nombre_original,
            ruta,
            tipo_archivo: Some(tipo_archivo),
            tipo_contenido,
            tamanio,
            fecha_subida: String::from_str("2024-01-01T00:00:00Z"),
            pago_id,
            usuario_id,
        }
    }

    /// The kind of file that a MIME content type denotes.
    pub fn determinar_tipo_archivo(tipo_contenido: &str) -> (r: String)
        ensures
            r@ == tipo_de_contenido(tipo_contenido@),
    {
        if comienza_con(tipo_contenido, "image/") {
            String::from_str("imagen")
        } else if iguales(tipo_contenido, "application/pdf") {
            String::from_str("pdf")
        } else if comienza_con(tipo_contenido, "video/") {
            String::from_str("video")
        } else if comienza_con(tipo_contenido, "audio/") {
            String::from_str("audio")
        } else if incluye(tipo_contenido, "document") || incluye(tipo_contenido, "word") {
            String::from_str("documento")
        } else if incluye(tipo_contenido, "spreadsheet") || incluye(tipo_contenido, "excel") {
            String::from_str("hoja_calculo")
        } else {
            String::from_str("otro")
        }
    }

    /// The content is an image.
    pub fn is_imagen(&self) -> (r: bool)
        ensures
            r == empieza_con(self.tipo_contenido@, "image/"@),
    {
        comienza_con(self.tipo_contenido.as_str(), "image/")
    }

    /// The content is a PDF.
    pub fn is_pdf(&self) -> (r: bool)
        ensures
            r == (self.tipo_contenido@ == "application/pdf"@),
    {
        iguales(self.tipo_contenido.as_str(), "application/pdf")
    }

    /// The content is a text document.
    pub fn is_documento(&self) -> (r: bool)
        ensures
            r == (contiene(self.tipo_contenido@, "document"@) || contiene(
                self.tipo_contenido@,
                "word"@,
            ) || contiene(self.tipo_contenido@, "text"@)),
    {
        incluye(self.tipo_contenido.as_str(), "document") || incluye(
            self.tipo_contenido.as_str(),
            "word",
        ) || incluye(self.tipo_contenido.as_str(), "text")
    }

    /// The original name's extension in lower case: the text after its
    /// last `.` (the whole name where it has none).
    pub fn extension(&self) -> (r: Option<String>)
        ensures
            r matches Some(e) && e@ == en_minusculas(ultimo_tramo(self.nombre_original@, '.')),
    {
        let ultimo = tramo_final(self.nombre_original.as_str(), '.');
        Some(minusculas(ultimo.as_str()))
    }

    /// The file's URL under `base_url` (its trailing slashes dropped).
    pub fn url_completa(&self, base_url: &str) -> (r: String)
        ensures
            r@ == sin_finales(base_url@, '/') + seq!['/'] + self.ruta@,
    {
        let mut r = quitar_finales(base_url, '/');
        r.append("/");
        r.append(self.ruta.as_str());
        proof {
            reveal_strlit("/");
        }
        r
    }

    /// The file belongs to a payment.
    pub fn esta_asociado_a_pago(&self) -> (r: bool)
        ensures
            r == (self.pago_id is Some),
    {
        self.pago_id.is_some()
    }
}

} // verus!
