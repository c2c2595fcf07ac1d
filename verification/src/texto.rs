//! Text helpers with exact specifications over `Seq<char>`.
use vstd::prelude::*;

verus! {

/// Appends one character: `String::push` of std.
#[verifier::external_body]
pub(crate) fn empujar_caracter(s: &mut String, c: char)
    ensures
        final(s)@ == old(s)@.push(c),
{
    s.push(c);
}

/// `s` begins with `p`.
pub open spec fn empieza_con(s: Seq<char>, p: Seq<char>) -> bool {
    p.len() <= s.len() && s.subrange(0, p.len() as int) == p
}

/// `p` occurs in `s` at index `k`.
pub open spec fn aparece_en(s: Seq<char>, p: Seq<char>, k: int) -> bool {
    0 <= k && k + p.len() <= s.len() && s.subrange(k, k + p.len()) == p
}

/// `p` occurs somewhere in `s`.
pub open spec fn contiene(s: Seq<char>, p: Seq<char>) -> bool {
    exists|k: int| aparece_en(s, p, k)
}

/// `k` is the first index at which `p` occurs in `s`.
pub open spec fn primera_aparicion(s: Seq<char>, p: Seq<char>, k: int) -> bool {
    aparece_en(s, p, k) && forall|j: int| 0 <= j < k ==> !aparece_en(s, p, j)
}

/// Whether `p` is a prefix of `s` (as `str::starts_with`).
pub fn comienza_con(s: &str, p: &str) -> (r: bool)
    ensures
        r == empieza_con(s@, p@),
{
    let n = s.unicode_len();
    let m = p.unicode_len();
    if m > n {
        return false;
    }
    let mut i: usize = 0;
    while i < m
        invariant
            i <= m <= n,
            n == s@.len(),
            m == p@.len(),
            forall|j: int| 0 <= j < i ==> s@[j] == p@[j],
        decreases m - i,
    {
        if s.get_char(i) != p.get_char(i) {
            assert(s@.subrange(0, m as int)[i as int] != p@[i as int]);
            return false;
        }
        i = i + 1;
    }
    assert(s@.subrange(0, m as int) =~= p@);
    true
}

/// Whether `p` occurs in `s` at index `k`, for `k + |p| <= |s|`.
fn aparece_en_posicion(s: &str, n: usize, p: &str, m: usize, k: usize) -> (r: bool)
    requires
        n == s@.len(),
        m == p@.len(),
        k + m <= n,
    ensures
        r == aparece_en(s@, p@, k as int),
{
    let mut i: usize = 0;
    while i < m
        invariant
            i <= m,
            k + m <= n,
            n == s@.len(),
            m == p@.len(),
            forall|j: int| 0 <= j < i ==> s@[k + j] == p@[j],
        decreases m - i,
    {
        if s.get_char(k + i) != p.get_char(i) {
            assert(s@.subrange(k as int, k + m)[i as int] != p@[i as int]);
            return false;
        }
        i = i + 1;
    }
    assert(s@.subrange(k as int, k + m) =~= p@);
    true
}

/// The index of the first occurrence of `p` in `s` (as `str::find`, counted in chars).
pub fn buscar(s: &str, p: &str) -> (r: Option<usize>)
    ensures
        match r {
            Some(k) => primera_aparicion(s@, p@, k as int),
            None => !contiene(s@, p@),
        },
{
    let n = s.unicode_len();
    let m = p.unicode_len();
    if m > n {
        assert forall|k: int| !aparece_en(s@, p@, k) by {}
        return None;
    }
    let mut k: usize = 0;
    loop
        invariant
            m <= n,
            k <= n - m,
            n == s@.len(),
            m == p@.len(),
            forall|j: int| 0 <= j < k ==> !aparece_en(s@, p@, j),
        decreases n - m - k,
    {
        if aparece_en_posicion(s, n, p, m, k) {
            return Some(k);
        }
        if k == n - m {
            assert forall|j: int| !aparece_en(s@, p@, j) by {
                if 0 <= j <= k {
                }
            }
            return None;
        }
        k = k + 1;
    }
}

/// Whether `p` occurs in `s` (as `str::contains`).
pub fn incluye(s: &str, p: &str) -> (r: bool)
    ensures
        r == contiene(s@, p@),
{
    match buscar(s, p) {
        Some(_) => true,
        None => false,
    }
}

/// Equality of two texts.
pub fn iguales(a: &str, b: &str) -> (r: bool)
    ensures
        r == (a@ == b@),
{
    let n = a.unicode_len();
    if n != b.unicode_len() {
        return false;
    }
    let r = comienza_con(a, b);
    assert(a@ =~= a@.subrange(0, n as int));
    r
}


/// A copy of a text slice as an owned `String`.
pub fn a_texto(s: &str) -> (r: String)
    ensures
        r@ == s@,
{
    String::from_str(s)
}

/// The chars of `s` from index `desde` to index `hasta`, as an owned `String`.
pub fn subtexto(s: &str, desde: usize, hasta: usize) -> (r: String)
    requires
        desde <= hasta <= s@.len(),
    ensures
        r@ == s@.subrange(desde as int, hasta as int),
{
    String::from_str(s.substring_char(desde, hasta))
}

// ───── Character classes ─────

/// The chars with the Unicode property White_Space.
pub open spec fn espacio_unicode(c: char) -> bool {
    ||| ('\u{9}' <= c && c <= '\u{d}')
    ||| c == ' '
    ||| c == '\u{85}'
    ||| c == '\u{a0}'
    ||| c == '\u{1680}'
    ||| ('\u{2000}' <= c && c <= '\u{200a}')
    ||| c == '\u{2028}'
    ||| c == '\u{2029}'
    ||| c == '\u{202f}'
    ||| c == '\u{205f}'
    ||| c == '\u{3000}'
}

/// Whether `c` is white space, as `char::is_whitespace` of std decides it:
/// the chars with the Unicode property White_Space.
pub fn es_espacio(c: char) -> (r: bool)
    ensures
        r == espacio_unicode(c),
{
    ('\u{9}' <= c && c <= '\u{d}') || c == ' ' || c == '\u{85}' || c == '\u{a0}' || c == '\u{1680}' || (
    '\u{2000}' <= c && c <= '\u{200a}') || c == '\u{2028}' || c == '\u{2029}' || c == '\u{202f}' || c
        == '\u{205f}' || c == '\u{3000}'
}

/// ASCII lower case of one char.
pub open spec fn minuscula_ascii(c: char) -> char {
    if 'A' <= c && c <= 'Z' {
        ((c as u32) + 32) as char
    } else {
        c
    }
}

/// Every char of `s` is ASCII.
pub open spec fn solo_ascii(s: Seq<char>) -> bool {
    forall|i: int| 0 <= i < s.len() ==> (s[i] as u32) < 128
}

/// What `str::to_lowercase` returns for a text.
pub uninterp spec fn minusculas_de(s: Seq<char>) -> Seq<char>;

/// A text in lower case: char by char for ASCII text; otherwise what
/// `str::to_lowercase` returns.
pub open spec fn en_minusculas(s: Seq<char>) -> Seq<char> {
    if solo_ascii(s) {
        s.map_values(|c: char| minuscula_ascii(c))
    } else {
        minusculas_de(s)
    }
}

/// `str::to_lowercase` of std. The result is named by `minusculas_de`; for
/// ASCII text the contract states the documented mapping, char by char
/// (`A`-`Z` to `a`-`z`). What it does to other scripts (Unicode case
/// tables, final sigma) is left to the name.
#[verifier::external_body]
pub(crate) fn minusculas(s: &str) -> (r: String)
    ensures
        r@ == minusculas_de(s@),
        r@ == en_minusculas(s@),
{
    s.to_lowercase()
}

// ───── Trimming and splitting ─────

/// `r` is `s` without its leading and trailing White_Space chars.
pub open spec fn es_recorte(s: Seq<char>, r: Seq<char>) -> bool {
    exists|i: int, j: int|
        #![trigger s.subrange(i, j)]
        0 <= i <= j <= s.len() && (forall|k: int| 0 <= k < i ==> espacio_unicode(s[k])) && (
        forall|k: int| j <= k < s.len() ==> espacio_unicode(s[k])) && (i < j ==> !espacio_unicode(
            s[i],
        ) && !espacio_unicode(s[j - 1])) && r == s.subrange(i, j)
}

/// `s` without its leading and trailing White_Space chars.
pub open spec fn recorte(s: Seq<char>) -> Seq<char> {
    choose|r: Seq<char>| es_recorte(s, r)
}

/// A text has exactly one trimmed form.
pub proof fn lema_recorte_unico(s: Seq<char>, r: Seq<char>)
    requires
        es_recorte(s, r),
    ensures
        recorte(s) == r,
{
    let q = recorte(s);
    assert(es_recorte(s, q));
    let (i1, j1) = choose|i: int, j: int|
        #![trigger s.subrange(i, j)]
        0 <= i <= j <= s.len() && (forall|k: int| 0 <= k < i ==> espacio_unicode(s[k])) && (
        forall|k: int| j <= k < s.len() ==> espacio_unicode(s[k])) && (i < j ==> !espacio_unicode(
            s[i],
        ) && !espacio_unicode(s[j - 1])) && r == s.subrange(i, j);
    let (i2, j2) = choose|i: int, j: int|
        #![trigger s.subrange(i, j)]
        0 <= i <= j <= s.len() && (forall|k: int| 0 <= k < i ==> espacio_unicode(s[k])) && (
        forall|k: int| j <= k < s.len() ==> espacio_unicode(s[k])) && (i < j ==> !espacio_unicode(
            s[i],
        ) && !espacio_unicode(s[j - 1])) && q == s.subrange(i, j);
    if i1 < j1 && i2 < j2 {
        if i1 < i2 {
            assert(espacio_unicode(s[i1]));
        }
        if i2 < i1 {
            assert(espacio_unicode(s[i2]));
        }
        if j1 < j2 {
            assert(espacio_unicode(s[j2 - 1]));
        }
        if j2 < j1 {
            assert(espacio_unicode(s[j1 - 1]));
        }
    } else if i1 < j1 {
        if i1 < i2 {
            assert(espacio_unicode(s[i1]));
        } else {
            assert(espacio_unicode(s[i1]));
        }
    } else if i2 < j2 {
        if i2 < i1 {
            assert(espacio_unicode(s[i2]));
        } else {
            assert(espacio_unicode(s[i2]));
        }
    } else {
        assert(r =~= q);
    }
}

/// A text that neither begins nor ends with White_Space is its own trimmed form.
pub proof fn lema_recorte_sin_espacios(s: Seq<char>)
    requires
        s.len() > 0,
        !espacio_unicode(s[0]),
        !espacio_unicode(s.last()),
    ensures
        recorte(s) == s,
{
    assert(s.subrange(0, s.len() as int) =~= s);
    assert(es_recorte(s, s));
    lema_recorte_unico(s, s);
}

/// `str::trim`: removes leading and trailing White_Space chars.
pub fn recortar(s: &str) -> (r: String)
    ensures
        es_recorte(s@, r@),
        r@ == recorte(s@),
{
    let n = s.unicode_len();
    let mut i: usize = 0;
    while i < n && es_espacio(s.get_char(i))
        invariant
            i <= n,
            n == s@.len(),
            forall|k: int| 0 <= k < i ==> espacio_unicode(s@[k]),
        decreases n - i,
    {
        i = i + 1;
    }
    let mut j: usize = n;
    while j > i && es_espacio(s.get_char(j - 1))
        invariant
            i <= j <= n,
            n == s@.len(),
            forall|k: int| j <= k < n ==> espacio_unicode(s@[k]),
        decreases j,
    {
        j = j - 1;
    }
    let r = subtexto(s, i, j);
    assert(es_recorte(s@, r@)) by {
        assert(0 <= i <= j <= s@.len());
    }
    proof {
        lema_recorte_unico(s@, r@);
    }
    r
}

/// `s` without its trailing `c` chars (as `str::trim_end_matches(c)`).
pub open spec fn sin_finales(s: Seq<char>, c: char) -> Seq<char>
    decreases s.len(),
{
    if s.len() > 0 && s.last() == c {
        sin_finales(s.drop_last(), c)
    } else {
        s
    }
}

/// `str::trim_end_matches` with one char as the pattern.
pub fn quitar_finales(s: &str, c: char) -> (r: String)
    ensures
        r@ == sin_finales(s@, c),
{
    let n = s.unicode_len();
    let mut j: usize = n;
    assert(s@.subrange(0, n as int) =~= s@);
    while j > 0 && s.get_char(j - 1) == c
        invariant
            j <= n,
            n == s@.len(),
            sin_finales(s@, c) == sin_finales(s@.subrange(0, j as int), c),
        decreases j,
    {
        assert(s@.subrange(0, j as int).drop_last() =~= s@.subrange(0, j - 1));
        j = j - 1;
    }
    subtexto(s, 0, j)
}

/// The text after the last `sep` of `s`, or all of `s` where it has none:
/// the last item of `str::split(sep)`.
pub open spec fn ultimo_tramo(s: Seq<char>, sep: char) -> Seq<char>
    decreases s.len(),
{
    if s.len() == 0 {
        s
    } else if s.last() == sep {
        Seq::empty()
    } else {
        ultimo_tramo(s.drop_last(), sep).push(s.last())
    }
}

/// The last piece of `s.split(sep)` (which always has one).
pub fn tramo_final(s: &str, sep: char) -> (r: String)
    ensures
        r@ == ultimo_tramo(s@, sep),
{
    let n = s.unicode_len();
    let mut j: usize = n;
    assert(s@.subrange(n as int, n as int) =~= Seq::<char>::empty());
    assert(s@.subrange(0, n as int) =~= s@);
    while j > 0 && s.get_char(j - 1) != sep
        invariant
            j <= n,
            n == s@.len(),
            ultimo_tramo(s@, sep) == ultimo_tramo(s@.subrange(0, j as int), sep) + s@.subrange(
                j as int,
                n as int,
            ),
        decreases j,
    {
        let ghost pre = s@.subrange(0, j as int);
        assert(pre.drop_last() =~= s@.subrange(0, j - 1));
        assert(ultimo_tramo(pre, sep) == ultimo_tramo(s@.subrange(0, j - 1), sep).push(
            s@[j - 1],
        ));
        assert(ultimo_tramo(s@.subrange(0, j - 1), sep).push(s@[j - 1]) + s@.subrange(
            j as int,
            n as int,
        ) =~= ultimo_tramo(s@.subrange(0, j - 1), sep) + s@.subrange(j - 1, n as int));
        j = j - 1;
    }
    proof {
        if j > 0 {
            assert(s@.subrange(0, j as int).last() == sep);
        }
        assert(ultimo_tramo(s@.subrange(0, j as int), sep) =~= Seq::<char>::empty());
        assert(Seq::<char>::empty() + s@.subrange(j as int, n as int) =~= s@.subrange(
            j as int,
            n as int,
        ));
    }
    subtexto(s, j, n)
}

/// The text after the first `sep` of `s`, if `s` has one.
pub open spec fn tras_primer(s: Seq<char>, sep: char) -> Option<Seq<char>>
    decreases s.len(),
{
    if s.len() == 0 {
        None
    } else if s[0] == sep {
        Some(s.drop_first())
    } else {
        tras_primer(s.drop_first(), sep)
    }
}

/// The text of `s` before its first `sep` (all of `s` where it has none):
/// the first item of `str::split(sep)`.
pub open spec fn primer_tramo(s: Seq<char>, sep: char) -> Seq<char>
    decreases s.len(),
{
    if s.len() == 0 {
        s
    } else if s[0] == sep {
        Seq::empty()
    } else {
        seq![s[0]] + primer_tramo(s.drop_first(), sep)
    }
}

/// The index of the first `sep` in `s` at or after `desde`, or `|s|`.
fn siguiente_separador(s: &str, n: usize, sep: char, desde: usize) -> (r: usize)
    requires
        n == s@.len(),
        desde <= n,
    ensures
        desde <= r <= n,
        forall|k: int| desde <= k < r ==> s@[k] != sep,
        r < n ==> s@[r as int] == sep,
        tras_primer(s@.subrange(desde as int, n as int), sep) == (if r < n {
            Some(s@.subrange(r + 1, n as int))
        } else {
            None::<Seq<char>>
        }),
        primer_tramo(s@.subrange(desde as int, n as int), sep) == s@.subrange(desde as int, r as int),
{
    let mut i: usize = desde;
    while i < n && s.get_char(i) != sep
        invariant
            desde <= i <= n,
            n == s@.len(),
            forall|k: int| desde <= k < i ==> s@[k] != sep,
            tras_primer(s@.subrange(desde as int, n as int), sep) == tras_primer(
                s@.subrange(i as int, n as int),
                sep,
            ),
            primer_tramo(s@.subrange(desde as int, n as int), sep) == s@.subrange(
                desde as int,
                i as int,
            ) + primer_tramo(s@.subrange(i as int, n as int), sep),
        decreases n - i,
    {
        let ghost t = s@.subrange(i as int, n as int);
        assert(t.drop_first() =~= s@.subrange(i + 1, n as int));
        assert(s@.subrange(desde as int, i as int) + (seq![t[0]] + primer_tramo(
            t.drop_first(),
            sep,
        )) =~= s@.subrange(desde as int, i + 1) + primer_tramo(t.drop_first(), sep));
        i = i + 1;
    }
    proof {
        let t = s@.subrange(i as int, n as int);
        if i < n {
            assert(t[0] == sep);
            assert(t.drop_first() =~= s@.subrange(i + 1, n as int));
        }
        assert(primer_tramo(t, sep) =~= Seq::<char>::empty());
        assert(s@.subrange(desde as int, i as int) + Seq::<char>::empty() =~= s@.subrange(
            desde as int,
            i as int,
        ));
    }
    i
}

/// After a prefix without `sep`, the text following the first `sep` is
/// the rest.
pub proof fn lema_tras_primer_prefijo(pre: Seq<char>, sep: char, resto: Seq<char>)
    requires
        forall|i: int| 0 <= i < pre.len() ==> pre[i] != sep,
    ensures
        tras_primer(pre + seq![sep] + resto, sep) == Some(resto),
    decreases pre.len(),
{
    let s = pre + seq![sep] + resto;
    if pre.len() == 0 {
        assert(s[0] == sep);
        assert(s.drop_first() =~= resto);
    } else {
        assert(s[0] == pre[0]);
        assert(s.drop_first() =~= pre.drop_first() + seq![sep] + resto);
        lema_tras_primer_prefijo(pre.drop_first(), sep, resto);
    }
}

/// The text before the first `sep` of `t + sep + resto`, where `t` holds
/// no `sep`, is `t`.
pub proof fn lema_primer_tramo_prefijo(t: Seq<char>, sep: char, resto: Seq<char>)
    requires
        forall|i: int| 0 <= i < t.len() ==> t[i] != sep,
    ensures
        primer_tramo(t + seq![sep] + resto, sep) == t,
    decreases t.len(),
{
    let s = t + seq![sep] + resto;
    if t.len() == 0 {
        assert(s[0] == sep);
    } else {
        assert(s[0] == t[0]);
        assert(s.drop_first() =~= t.drop_first() + seq![sep] + resto);
        lema_primer_tramo_prefijo(t.drop_first(), sep, resto);
        assert(seq![t[0]] + t.drop_first() =~= t);
    }
}

/// The second item of `s.split(sep)`, if there is one.
pub open spec fn segundo_tramo(s: Seq<char>, sep: char) -> Option<Seq<char>> {
    match tras_primer(s, sep) {
        Some(resto) => Some(primer_tramo(resto, sep)),
        None => None,
    }
}

/// The second item of `s.split(sep)`, which exists exactly when `s` holds `sep`.
pub fn tramo_segundo(s: &str, sep: char) -> (r: Option<String>)
    ensures
        match r {
            Some(t) => segundo_tramo(s@, sep) == Some(t@),
            None => segundo_tramo(s@, sep) is None,
        },
{
    let n = s.unicode_len();
    assert(s@.subrange(0, n as int) =~= s@);
    let i = siguiente_separador(s, n, sep, 0);
    if i == n {
        return None;
    }
    let j = siguiente_separador(s, n, sep, i + 1);
    Some(subtexto(s, i + 1, j))
}


// ───── Decimal notation of integers ─────

/// The char of a decimal digit.
pub open spec fn digito(d: int) -> char {
    if d == 0 {
        '0'
    } else if d == 1 {
        '1'
    } else if d == 2 {
        '2'
    } else if d == 3 {
        '3'
    } else if d == 4 {
        '4'
    } else if d == 5 {
        '5'
    } else if d == 6 {
        '6'
    } else if d == 7 {
        '7'
    } else if d == 8 {
        '8'
    } else {
        '9'
    }
}

/// The decimal digits of `n`, without leading zeros.
pub open spec fn digitos(n: nat) -> Seq<char>
    decreases n,
{
    if n < 10 {
        seq![digito(n as int)]
    } else {
        digitos(n / 10).push(digito((n % 10) as int))
    }
}

/// The decimal notation of an integer, as `Display` writes it.
pub open spec fn texto_entero(n: int) -> Seq<char> {
    if n < 0 {
        seq!['-'] + digitos((-n) as nat)
    } else {
        digitos(n as nat)
    }
}

/// The notation of `n` padded with zeros to width two (as `{:02}`).
pub open spec fn texto_dos_cifras(n: int) -> Seq<char> {
    if 0 <= n < 10 {
        seq!['0', digito(n)]
    } else {
        texto_entero(n)
    }
}

fn caracter_digito(d: u128) -> (c: char)
    requires
        d < 10,
    ensures
        c == digito(d as int),
{
    if d == 0 {
        '0'
    } else if d == 1 {
        '1'
    } else if d == 2 {
        '2'
    } else if d == 3 {
        '3'
    } else if d == 4 {
        '4'
    } else if d == 5 {
        '5'
    } else if d == 6 {
        '6'
    } else if d == 7 {
        '7'
    } else if d == 8 {
        '8'
    } else {
        '9'
    }
}

/// Appends the decimal digits of `n`.
pub fn escribir_natural(s: &mut String, n: u128)
    ensures
        final(s)@ == old(s)@ + digitos(n as nat),
    decreases n,
{
    if n >= 10 {
        escribir_natural(s, n / 10);
    }
    empujar_caracter(s, caracter_digito(n % 10));
    proof {
        if n >= 10 {
            assert(old(s)@ + digitos((n / 10) as nat) + seq![digito((n % 10) as int)] =~= old(
                s,
            )@ + digitos(n as nat));
        } else {
            assert(old(s)@.push(digito((n % 10) as int)) =~= old(s)@ + digitos(n as nat));
        }
    }
}

/// Appends the decimal notation of `n`.
pub fn escribir_entero(s: &mut String, n: i128)
    requires
        n > i128::MIN,
    ensures
        final(s)@ == old(s)@ + texto_entero(n as int),
{
    if n < 0 {
        empujar_caracter(s, '-');
        let m: u128 = (0 - n) as u128;
        escribir_natural(s, m);
        assert(old(s)@.push('-') + digitos(m as nat) =~= old(s)@ + (seq!['-'] + digitos(
            m as nat,
        )));
    } else {
        escribir_natural(s, n as u128);
    }
}

/// The decimal notation of an integer (as `to_string`).
pub fn entero_a_texto(n: i64) -> (r: String)
    ensures
        r@ == texto_entero(n as int),
{
    let mut s = String::new();
    escribir_entero(&mut s, n as i128);
    assert(Seq::<char>::empty() + texto_entero(n as int) =~= texto_entero(n as int));
    s
}

/// Appends `n` padded with zeros to width two (as `{:02}`).
pub fn escribir_dos_cifras(s: &mut String, n: i64)
    ensures
        final(s)@ == old(s)@ + texto_dos_cifras(n as int),
{
    if 0 <= n && n < 10 {
        empujar_caracter(s, '0');
        empujar_caracter(s, caracter_digito(n as u128));
        assert(old(s)@.push('0').push(digito(n as int)) =~= old(s)@ + seq!['0', digito(n as int)]);
    } else {
        escribir_entero(s, n as i128);
    }
}

// ───── Reading integers ─────

pub open spec fn es_digito(c: char) -> bool {
    '0' <= c && c <= '9'
}

pub open spec fn todos_digitos(s: Seq<char>) -> bool {
    forall|i: int| 0 <= i < s.len() ==> es_digito(s[i])
}

pub open spec fn valor_digito(c: char) -> int {
    (c as u32) - ('0' as u32)
}

/// The number that a string of decimal digits denotes.
pub open spec fn valor_digitos(s: Seq<char>) -> int
    decreases s.len(),
{
    if s.len() == 0 {
        0
    } else {
        10 * valor_digitos(s.drop_last()) + valor_digito(s.last())
    }
}

/// What the integer parsers of std (`FromStr` of the integer types) accept:
/// an optional `+` (or `-`, for a signed type) and at least one decimal digit.
pub open spec fn literal_entero(s: Seq<char>, con_signo: bool) -> Option<int> {
    let negativo = s.len() > 0 && s[0] == '-' && con_signo;
    let cuerpo = if s.len() > 0 && (s[0] == '+' || negativo) {
        s.drop_first()
    } else {
        s
    };
    if cuerpo.len() > 0 && todos_digitos(cuerpo) {
        Some(
            if negativo {
                -valor_digitos(cuerpo)
            } else {
                valor_digitos(cuerpo)
            },
        )
    } else {
        None
    }
}

/// The result of parsing `s` as an integer type with range `[minimo, maximo]`.
pub open spec fn entero_leido(s: Seq<char>, con_signo: bool, minimo: int, maximo: int) -> Option<
    int,
> {
    match literal_entero(s, con_signo) {
        Some(v) => if minimo <= v <= maximo {
            Some(v)
        } else {
            None
        },
        None => None,
    }
}

proof fn lema_valor_digitos_no_negativo(s: Seq<char>)
    requires
        todos_digitos(s),
    ensures
        valor_digitos(s) >= 0,
    decreases s.len(),
{
    if s.len() > 0 {
        lema_valor_digitos_no_negativo(s.drop_last());
    }
}

proof fn lema_valor_digitos_crece(s: Seq<char>, i: int)
    requires
        todos_digitos(s),
        0 <= i <= s.len(),
    ensures
        valor_digitos(s.take(i)) <= valor_digitos(s),
    decreases s.len(),
{
    if i < s.len() {
        assert(s.take(i) =~= s.drop_last().take(i));
        lema_valor_digitos_crece(s.drop_last(), i);
        lema_valor_digitos_no_negativo(s.drop_last());
    } else {
        assert(s.take(i) =~= s);
    }
}

/// Parses an integer as the `FromStr` of an integer type with range
/// `[minimo, maximo]` does: `Some` exactly for an accepted literal in range.
pub fn leer_entero(s: &str, con_signo: bool, minimo: i128, maximo: i128) -> (r: Option<i128>)
    requires
        -0x1_0000_0000_0000_0000 < minimo,
        maximo < 0x1_0000_0000_0000_0000,
    ensures
        match r {
            Some(v) => entero_leido(s@, con_signo, minimo as int, maximo as int) == Some(v as int),
            None => entero_leido(s@, con_signo, minimo as int, maximo as int) is None,
        },
{
    let n = s.unicode_len();
    if n == 0 {
        return None;
    }
    let primero = s.get_char(0);
    let negativo = primero == '-' && con_signo;
    let inicio: usize = if primero == '+' || negativo {
        1
    } else {
        0
    };
    let ghost cuerpo = s@.subrange(inicio as int, n as int);
    assert(cuerpo =~= (if s@.len() > 0 && (s@[0] == '+' || negativo) {
        s@.drop_first()
    } else {
        s@
    }));
    if inicio == n {
        return None;
    }
    let tope: u128 = 0x1_0000_0000_0000_0000;
    let mut acumulado: u128 = 0;
    let mut i: usize = inicio;
    while i < n
        invariant
            inicio <= i <= n,
            n == s@.len(),
            cuerpo == s@.subrange(inicio as int, n as int),
            forall|k: int| 0 <= k < i - inicio ==> es_digito(cuerpo[k]),
            acumulado as int == valor_digitos(cuerpo.take(i - inicio)),
            acumulado <= tope,
            tope == 0x1_0000_0000_0000_0000,
            -0x1_0000_0000_0000_0000 < minimo,
            maximo < 0x1_0000_0000_0000_0000,
            negativo == (s@.len() > 0 && s@[0] == '-' && con_signo),
            cuerpo == (if s@.len() > 0 && (s@[0] == '+' || negativo) {
                s@.drop_first()
            } else {
                s@
            }),
        decreases n - i,
    {
        let c = s.get_char(i);
        if !('0' <= c && c <= '9') {
            assert(!es_digito(cuerpo[i - inicio]));
            assert(!todos_digitos(cuerpo));
            assert(literal_entero(s@, con_signo) is None);
            return None;
        }
        let d: u128 = ((c as u32) - ('0' as u32)) as u128;
        assert(d <= 9);
        assert(cuerpo.take(i - inicio + 1).drop_last() =~= cuerpo.take(i - inicio));
        assert(cuerpo.take(i - inicio + 1).last() == c);
        if acumulado > (tope - d) / 10 {
            proof {
                let t = cuerpo.take(i - inicio + 1);
                assert(todos_digitos(t));
                assert(valor_digitos(t) == 10 * acumulado + d);
                assert(10 * acumulado + d > tope) by (nonlinear_arith)
                    requires
                        acumulado > (tope - d) / 10,
                        d <= 9,
                        tope == 0x1_0000_0000_0000_0000,
                ;
            }
            // Too large for the range: keep checking that the rest is digits.
            let mut k: usize = i + 1;
            while k < n
                invariant
                    inicio <= i < k <= n,
                    n == s@.len(),
                    negativo == (s@.len() > 0 && s@[0] == '-' && con_signo),
                    cuerpo == (if s@.len() > 0 && (s@[0] == '+' || negativo) {
                        s@.drop_first()
                    } else {
                        s@
                    }),
                    cuerpo == s@.subrange(inicio as int, n as int),
                    forall|q: int| 0 <= q < k - inicio ==> es_digito(cuerpo[q]),
                decreases n - k,
            {
                let c2 = s.get_char(k);
                if !('0' <= c2 && c2 <= '9') {
                    assert(!es_digito(cuerpo[k - inicio]));
                    assert(!todos_digitos(cuerpo));
                    assert(literal_entero(s@, con_signo) is None);
                    return None;
                }
                k = k + 1;
            }
            proof {
                assert(todos_digitos(cuerpo));
                lema_valor_digitos_crece(cuerpo, i - inicio + 1);
                assert(valor_digitos(cuerpo) > tope);
            }
            return None;
        }
        acumulado = acumulado * 10 + d;
        i = i + 1;
    }
    assert(cuerpo.take(n - inicio) =~= cuerpo);
    assert(todos_digitos(cuerpo));
    let valor: i128 = if negativo {
        0 - (acumulado as i128)
    } else {
        acumulado as i128
    };
    if valor < minimo || valor > maximo {
        return None;
    }
    Some(valor)
}

/// `str::parse::<i32>`.
pub fn leer_i32(s: &str) -> (r: Option<i32>)
    ensures
        match r {
            Some(v) => entero_leido(s@, true, i32::MIN as int, i32::MAX as int) == Some(v as int),
            None => entero_leido(s@, true, i32::MIN as int, i32::MAX as int) is None,
        },
{
    match leer_entero(s, true, i32::MIN as i128, i32::MAX as i128) {
        Some(v) => Some(v as i32),
        None => None,
    }
}

/// `str::parse::<u32>`.
pub fn leer_u32(s: &str) -> (r: Option<u32>)
    ensures
        match r {
            Some(v) => entero_leido(s@, false, 0, u32::MAX as int) == Some(v as int),
            None => entero_leido(s@, false, 0, u32::MAX as int) is None,
        },
{
    match leer_entero(s, false, 0, u32::MAX as i128) {
        Some(v) => Some(v as u32),
        None => None,
    }
}

// ───── Ordering of texts ─────

/// `a < b` in the order of `String` (lexicographic by code point).
pub open spec fn lex_menor(a: Seq<char>, b: Seq<char>) -> bool
    decreases a.len(),
{
    if a.len() == 0 {
        b.len() > 0
    } else if b.len() == 0 {
        false
    } else if a[0] != b[0] {
        (a[0] as u32) < (b[0] as u32)
    } else {
        lex_menor(a.drop_first(), b.drop_first())
    }
}

/// `a <= b` in the order of `String`.
pub open spec fn lex_menor_igual(a: Seq<char>, b: Seq<char>) -> bool {
    a == b || lex_menor(a, b)
}

/// Whether `a < b` in the order of `String`.
pub fn texto_menor(a: &str, b: &str) -> (r: bool)
    ensures
        r == lex_menor(a@, b@),
{
    let n = a.unicode_len();
    let m = b.unicode_len();
    let mut i: usize = 0;
    assert(a@.subrange(0, n as int) =~= a@);
    assert(b@.subrange(0, m as int) =~= b@);
    while i < n && i < m && a.get_char(i) == b.get_char(i)
        invariant
            i <= n,
            i <= m,
            n == a@.len(),
            m == b@.len(),
            lex_menor(a@, b@) == lex_menor(a@.subrange(i as int, n as int), b@.subrange(i as int, m as int)),
        decreases n - i,
    {
        assert(a@.subrange(i as int, n as int).drop_first() =~= a@.subrange(i + 1, n as int));
        assert(b@.subrange(i as int, m as int).drop_first() =~= b@.subrange(i + 1, m as int));
        i = i + 1;
    }
    if i == n {
        i < m
    } else if i == m {
        false
    } else {
        (a.get_char(i) as u32) < (b.get_char(i) as u32)
    }
}

/// Whether `a <= b` in the order of `String`.
pub fn texto_menor_igual(a: &str, b: &str) -> (r: bool)
    ensures
        r == lex_menor_igual(a@, b@),
{
    iguales(a, b) || texto_menor(a, b)
}


/// A copy of an optional text.
pub fn copiar_opcional(o: &Option<String>) -> (r: Option<String>)
    ensures
        r == *o,
{
    match o {
        Some(t) => Some(t.clone()),
        None => None,
    }
}

} // verus!
