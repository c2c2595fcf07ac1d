//! Where documents are stored, with names made by `slug`.
use vstd::prelude::*;
use crate::texto::{a_texto, tramo_final, ultimo_tramo};
use crate::tiempo::{es_sello, sello_utc};

verus! {

/// What `slug::slugify` returns for a text.
pub uninterp spec fn slug_de(s: Seq<char>) -> Seq<char>;

/// The shape that `slug::slugify` documents for its result: only `a`-`z`,
/// `0`-`9` and `-`; never two `-` in a row; no `-` at either end.
pub open spec fn es_slug(t: Seq<char>) -> bool {
    &&& forall|i: int|
        0 <= i < t.len() ==> ('a' <= #[trigger] t[i] && t[i] <= 'z') || ('0' <= t[i] && t[i]
            <= '9') || t[i] == '-'
    &&& forall|i: int| 0 <= i < t.len() - 1 ==> !(#[trigger] t[i] == '-' && t[i + 1] == '-')
    &&& t.len() > 0 ==> t[0] != '-' && t.last() != '-'
}

/// `slug::slugify`. The result is named by `slug_de`; its documented shape
/// (`es_slug`) is stated besides.
#[verifier::external_body]
fn slugificar(s: &str) -> (r: String)
    ensures
        r@ == slug_de(s@),
        es_slug(r@),
{
    slug::slugify(s)
}

/// The documents' service as far as its logic reads it: the bucket where
/// the documents are stored. Its repository and storage client are the
/// caller's.
#[derive(Clone, Debug)]
pub struct DocumentoService {
    pub bucket: String,
}

impl DocumentoService {
    /// The service that stores documents in `bucket`.
    pub fn new(bucket: String) -> (r: DocumentoService)
        ensures
            r.bucket == bucket,
    {
        DocumentoService { bucket }
    }
}

/// The storage key of a document named `nombre`, uploaded as `file_name` at
/// time `sello`: `documentos/{slug}-{sello}.{extension}`, where the
/// extension is the text after the file name's last `.`.
pub open spec fn clave_documento(nombre: Seq<char>, file_name: Seq<char>, sello: Seq<char>) -> Seq<char> {
    "documentos/"@ + slug_de(nombre) + "-"@ + sello + "."@ + ultimo_tramo(file_name, '.')
}

/// The storage key of a document uploaded at time `sello`.
pub fn nombre_almacenamiento_documento(nombre: &str, file_name: &str, sello: &str) -> (r: String)
    ensures
        r@ == clave_documento(nombre@, file_name@, sello@),
{
    let extension = tramo_final(file_name, '.');
    let limpio = slugificar(nombre);
    let mut r = String::from_str("documentos/");
    r.append(limpio.as_str());
    r.append("-");
    r.append(sello);
    r.append(".");
    r.append(extension.as_str());
    r
}

/// The storage key of a document uploaded now (stamped with the UTC time).
pub fn nombre_almacenamiento_documento_ahora(nombre: &str, file_name: &str) -> (r: String)
    ensures
        exists|sello: Seq<char>|
            #![trigger clave_documento(nombre@, file_name@, sello)]
            es_sello(sello) && r@ == clave_documento(nombre@, file_name@, sello),
{
    let sello = sello_utc();
    nombre_almacenamiento_documento(nombre, file_name, sello.as_str())
}

} // verus!
