//! The public URLs of files in Contabo's S3-compatible object storage:
//! `{endpoint}/{tenant_id}:{bucket}/{key}`.
use vstd::prelude::*;
use crate::shared::config::app_config::StorageConfig;
use crate::texto::{aparece_en, buscar, contiene, primera_aparicion, subtexto};

verus! {

/// Where the storage's files are: its endpoint and tenant. The S3 client
/// that uploads and deletes them is the caller's.
#[derive(Clone, Debug)]
pub struct ContaboStorageService {
    pub endpoint: String,
    pub tenant_id: String,
}

/// The URL of `key` in `bucket`: `{endpoint}/{tenant}:{bucket}/{key}`.
pub open spec fn url_de(endpoint: Seq<char>, tenant: Seq<char>, bucket: Seq<char>, key: Seq<char>) -> Seq<char> {
    endpoint + seq!['/'] + tenant + seq![':'] + bucket + seq!['/'] + key
}

/// The bucket and key that a URL names: after the first `{tenant}:`, the
/// text up to the next `/` is the bucket and the rest the key. `None`
/// where there is no `{tenant}:` or no `/` after it.
pub open spec fn partes_de_url(url: Seq<char>, tenant: Seq<char>) -> Option<(Seq<char>, Seq<char>)> {
    let patron = tenant + seq![':'];
    if contiene(url, patron) {
        let pos = choose|k: int| primera_aparicion(url, patron, k);
        let resto = url.skip(pos + patron.len());
        if contiene(resto, seq!['/']) {
            let b = choose|k: int| primera_aparicion(resto, seq!['/'], k);
            Some((resto.take(b), resto.skip(b + 1)))
        } else {
            None
        }
    } else {
        None
    }
}

/// The first occurrence is unique.
proof fn lema_primera_unica(s: Seq<char>, p: Seq<char>, k: int)
    requires
        primera_aparicion(s, p, k),
    ensures
        contiene(s, p),
        (choose|j: int| primera_aparicion(s, p, j)) == k,
{
    let j = choose|j: int| primera_aparicion(s, p, j);
    assert(primera_aparicion(s, p, j));
    if j < k {
        assert(!aparece_en(s, p, j));
    } else if k < j {
        assert(!aparece_en(s, p, k));
    }
}

impl ContaboStorageService {
    /// The addresses of the configured storage.
    pub fn new(config: &StorageConfig) -> (r: ContaboStorageService)
        ensures
            r.endpoint == config.endpoint,
            r.tenant_id == config.tenant_id,
    {
        ContaboStorageService { endpoint: config.endpoint.clone(), tenant_id: config.tenant_id.clone() }
    }

    /// The public URL of `key` in `bucket`.
    pub fn build_url(&self, bucket: &str, key: &str) -> (r: String)
        ensures
            r@ == url_de(self.endpoint@, self.tenant_id@, bucket@, key@),
    {
        let mut r = self.endpoint.clone();
        r.append("/");
        r.append(self.tenant_id.as_str());
        r.append(":");
        r.append(bucket);
        r.append("/");
        r.append(key);
        proof {
            reveal_strlit("/");
            reveal_strlit(":");
        }
        r
    }

    /// The bucket and key of a file, from its URL.
    pub fn parse_url(&self, file_url: &str) -> (r: Option<(String, String)>)
        ensures
            match r {
                Some((b, k)) => partes_de_url(file_url@, self.tenant_id@) == Some((b@, k@)),
                None => partes_de_url(file_url@, self.tenant_id@) is None,
            },
    {
        let mut patron = self.tenant_id.clone();
        patron.append(":");
        proof {
            reveal_strlit(":");
            reveal_strlit("/");
        }
        assert(patron@ =~= self.tenant_id@ + seq![':']);
        assert("/"@ =~= seq!['/']);
        match buscar(file_url, patron.as_str()) {
            Some(pos) => {
                proof {
                    lema_primera_unica(file_url@, patron@, pos as int);
                }
                let n = file_url.unicode_len();
                let m = patron.unicode_len();
                let resto = subtexto(file_url, pos + m, n);
                assert(resto@ =~= file_url@.skip(pos + m));
                match buscar(resto.as_str(), "/") {
                    Some(b) => {
                        proof {
                            lema_primera_unica(resto@, seq!['/'], b as int);
                        }
                        let l = resto.unicode_len();
                        let bucket = subtexto(resto.as_str(), 0, b);
                        let key = subtexto(resto.as_str(), b + 1, l);
                        assert(bucket@ =~= resto@.take(b as int));
                        assert(key@ =~= resto@.skip(b + 1));
                        Some((bucket, key))
                    },
                    None => None,
                }
            },
            None => None,
        }
    }
}

/// What `parse_url` reads from a URL that `build_url` made for a bucket
/// and key: that bucket and key. It holds where the tenant has no `:`, the
/// endpoint holds no `{tenant}:`, and the bucket has no `/` (a key may
/// hold anything).
pub proof fn ley_url_se_lee(servicio: ContaboStorageService, bucket: Seq<char>, key: Seq<char>)
    requires
        forall|i: int| 0 <= i < servicio.tenant_id@.len() ==> servicio.tenant_id@[i] != ':',
        !contiene(servicio.endpoint@, servicio.tenant_id@ + seq![':']),
        forall|i: int| 0 <= i < bucket.len() ==> bucket[i] != '/',
    ensures
        partes_de_url(url_de(servicio.endpoint@, servicio.tenant_id@, bucket, key), servicio.tenant_id@)
            == Some((bucket, key)),
{
    let endpoint = servicio.endpoint@;
    let tenant = servicio.tenant_id@;
    let url = url_de(endpoint, tenant, bucket, key);
    let patron = tenant + seq![':'];
    let e = endpoint.len() as int;
    let t = tenant.len() as int;
    let pos = e + 1;
    assert(url.subrange(pos, pos + patron.len()) =~= patron);
    assert(aparece_en(url, patron, pos));
    assert forall|j: int| 0 <= j < pos implies !aparece_en(url, patron, j) by {
        if aparece_en(url, patron, j) {
            assert(url.subrange(j, j + t + 1)[t] == ':');
            assert(url[j + t] == ':');
            if j + t < e {
                assert(url.subrange(j, j + t + 1) =~= endpoint.subrange(j, j + t + 1));
                assert(aparece_en(endpoint, patron, j));
            } else if j + t == e {
                assert(url[e] == '/');
            } else {
                assert(url[j + t] == tenant[j + t - e - 1]);
            }
        }
    }
    assert(primera_aparicion(url, patron, pos));
    lema_primera_unica(url, patron, pos);
    let resto = url.skip(pos + patron.len());
    assert(resto =~= bucket + seq!['/'] + key);
    let b = bucket.len() as int;
    assert(resto.subrange(b, b + 1) =~= seq!['/']);
    assert(aparece_en(resto, seq!['/'], b));
    assert forall|j: int| 0 <= j < b implies !aparece_en(resto, seq!['/'], j) by {
        if aparece_en(resto, seq!['/'], j) {
            assert(resto.subrange(j, j + 1)[0] == '/');
            assert(resto[j] == bucket[j]);
        }
    }
    assert(primera_aparicion(resto, seq!['/'], b));
    lema_primera_unica(resto, seq!['/'], b);
    assert(resto.take(b) =~= bucket);
    assert(resto.skip(b + 1) =~= key);
}

/// `parse_url` reads nothing from a URL without `{tenant}:`, nor from one
/// with no `/` after its first `{tenant}:`.
pub proof fn ley_url_sin_partes(url: Seq<char>, tenant: Seq<char>)
    ensures
        !contiene(url, tenant + seq![':']) ==> partes_de_url(url, tenant) is None,
        forall|pos: int|
            #![trigger primera_aparicion(url, tenant + seq![':'], pos)]
            primera_aparicion(url, tenant + seq![':'], pos) && !contiene(
                url.skip(pos + tenant.len() + 1),
                seq!['/'],
            ) ==> partes_de_url(url, tenant) is None,
{
    assert forall|pos: int|
        #![trigger primera_aparicion(url, tenant + seq![':'], pos)]
        primera_aparicion(url, tenant + seq![':'], pos) && !contiene(
            url.skip(pos + tenant.len() + 1),
            seq!['/'],
        ) implies partes_de_url(url, tenant) is None by {
        lema_primera_unica(url, tenant + seq![':'], pos);
    }
}

} // verus!
