//! Operaciones de texto que usan las reglas de negocio: recorte de
//! espacios, comparación, búsqueda de subcadenas, normalización para
//! comparar nombres/códigos y números en decimal.
use vstd::prelude::*;

verus! {

/// Caracteres con la propiedad Unicode `White_Space` (la que usan
/// `char::is_whitespace`, `str::trim` y `str::split_whitespace`).
pub open spec fn es_espacio(c: char) -> bool {
    ||| ('\u{9}' <= c && c <= '\u{d}')
    ||| c == ' '
    ||| c == '\u{85}'
    ||| c == '\u{a0}'
    ||| c == '\u{1680}'
    ||| ('\u{2000}' <= c && c <= '\u{200a}')
    ||| c == '\u{2028}'
    ||| c == '\u{2029}'
    ||| c == '\u{202f}'
    ||| c == '\u{205f}'
    ||| c == '\u{3000}'
}

pub fn es_espacio_exec(c: char) -> (r: bool)
    ensures
        r == es_espacio(c),
{
    ('\u{9}' <= c && c <= '\u{d}') || c == ' ' || c == '\u{85}' || c == '\u{a0}' || c == '\u{1680}'
        || ('\u{2000}' <= c && c <= '\u{200a}') || c == '\u{2028}' || c == '\u{2029}' || c
        == '\u{202f}' || c == '\u{205f}' || c == '\u{3000}'
}

/// Quita los espacios del principio.
pub open spec fn sin_iniciales(s: Seq<char>) -> Seq<char>
    decreases s.len(),
{
    if s.len() > 0 && es_espacio(s[0]) {
        sin_iniciales(s.drop_first())
    } else {
        s
    }
}

/// Quita los espacios del final.
pub open spec fn sin_finales(s: Seq<char>) -> Seq<char>
    decreases s.len(),
{
    if s.len() > 0 && es_espacio(s.last()) {
        sin_finales(s.drop_last())
    } else {
        s
    }
}

/// El texto sin espacios al principio ni al final (`str::trim`).
pub open spec fn recorte(s: Seq<char>) -> Seq<char> {
    sin_finales(sin_iniciales(s))
}

/// Todo el texto es espacio (o está vacío).
pub open spec fn solo_espacios(s: Seq<char>) -> bool {
    forall|i: int| 0 <= i < s.len() ==> es_espacio(#[trigger] s[i])
}

proof fn lema_sin_iniciales(s: Seq<char>, i: int)
    requires
        0 <= i <= s.len(),
        forall|j: int| 0 <= j < i ==> es_espacio(#[trigger] s[j]),
    ensures
        sin_iniciales(s) == sin_iniciales(s.subrange(i, s.len() as int)),
    decreases i,
{
    if i > 0 {
        assert(es_espacio(s[0]));
        let t = s.drop_first();
        assert forall|j: int| 0 <= j < i - 1 implies es_espacio(#[trigger] t[j]) by {
            assert(t[j] == s[j + 1]);
        }
        lema_sin_iniciales(t, i - 1);
        assert(t.subrange(i - 1, t.len() as int) =~= s.subrange(i, s.len() as int));
    } else {
        assert(s.subrange(0, s.len() as int) =~= s);
    }
}

proof fn lema_sin_finales(s: Seq<char>, j: int)
    requires
        0 <= j <= s.len(),
        forall|k: int| j <= k < s.len() ==> es_espacio(#[trigger] s[k]),
    ensures
        sin_finales(s) == sin_finales(s.subrange(0, j)),
    decreases s.len() - j,
{
    if j < s.len() {
        assert(es_espacio(s[s.len() - 1]));
        let t = s.drop_last();
        lema_sin_finales(t, j);
        assert(t.subrange(0, j) =~= s.subrange(0, j));
    } else {
        assert(s.subrange(0, j) =~= s);
    }
}

proof fn lema_forma_sin_iniciales(s: Seq<char>)
    ensures
        sin_iniciales(s).len() > 0 ==> !es_espacio(sin_iniciales(s)[0]),
    decreases s.len(),
{
    if s.len() > 0 && es_espacio(s[0]) {
        lema_forma_sin_iniciales(s.drop_first());
    }
}

proof fn lema_forma_sin_finales(s: Seq<char>)
    ensures
        sin_finales(s).len() <= s.len(),
        sin_finales(s) == s.take(sin_finales(s).len() as int),
        sin_finales(s).len() > 0 ==> !es_espacio(sin_finales(s).last()),
    decreases s.len(),
{
    if s.len() > 0 && es_espacio(s.last()) {
        lema_forma_sin_finales(s.drop_last());
        let r = sin_finales(s.drop_last());
        assert(s.drop_last().take(r.len() as int) =~= s.take(r.len() as int));
    } else {
        assert(s.take(s.len() as int) =~= s);
    }
}

/// Recortar un texto ya recortado lo deja igual.
pub proof fn lema_recorte_idempotente(s: Seq<char>)
    ensures
        recorte(recorte(s)) == recorte(s),
{
    let x = sin_iniciales(s);
    let y = sin_finales(x);
    lema_forma_sin_iniciales(s);
    lema_forma_sin_finales(x);
    if y.len() > 0 {
        assert(y[0] == x[0]);
        assert(sin_iniciales(y) == y);
        assert(sin_finales(y) == y);
    } else {
        assert(sin_iniciales(y) == y);
        assert(sin_finales(y) == y);
    }
}

pub proof fn lema_recorte_vacio(s: Seq<char>)
    ensures
        recorte(s).len() == 0 <==> solo_espacios(s),
    decreases s.len(),
{
    if s.len() > 0 && es_espacio(s[0]) {
        let t = s.drop_first();
        lema_recorte_vacio(t);
        assert(solo_espacios(s) <==> solo_espacios(t)) by {
            if solo_espacios(t) {
                assert forall|i: int| 0 <= i < s.len() implies es_espacio(#[trigger] s[i]) by {
                    if i > 0 {
                        assert(s[i] == t[i - 1]);
                    }
                }
            }
            if solo_espacios(s) {
                assert forall|i: int| 0 <= i < t.len() implies es_espacio(#[trigger] t[i]) by {
                    assert(t[i] == s[i + 1]);
                }
            }
        }
    } else if s.len() > 0 {
        lema_sin_finales_no_vacio(s);
    }
}

proof fn lema_sin_finales_no_vacio(s: Seq<char>)
    requires
        s.len() > 0,
        !es_espacio(s[0]),
    ensures
        sin_finales(s).len() > 0,
    decreases s.len(),
{
    if es_espacio(s.last()) {
        lema_sin_finales_no_vacio(s.drop_last());
    }
}

/// Los caracteres del texto, en orden.
pub fn caracteres(s: &str) -> (v: Vec<char>)
    ensures
        v@ == s@,
{
    let mut v: Vec<char> = Vec::new();
    for c in it: s.chars()
        invariant
            v@ == it.seq().take(it.index() as int),
    {
        v.push(c);
    }
    v
}

/// Arma un `String` con los caracteres dados (`FromIterator<char>` de std).
#[verifier::external_body]
pub(crate) fn cadena_de_caracteres(v: &[char]) -> (r: String)
    ensures
        r@ == v@,
{
    v.iter().collect()
}

/// Igualdad de textos, carácter por carácter.
pub fn mismo_texto(a: &str, b: &str) -> (r: bool)
    ensures
        r == (a@ == b@),
{
    a.to_owned() == b.to_owned()
}

/// `str::trim`: el texto sin los espacios de los extremos.
pub fn recortar(s: &str) -> (r: &str)
    ensures
        r@ == recorte(s@),
{
    let v = caracteres(s);
    let n = v.len();
    let mut i: usize = 0;
    while i < n && es_espacio_exec(v[i])
        invariant
            n == v@.len(),
            v@ == s@,
            i <= n,
            forall|j: int| 0 <= j < i ==> es_espacio(#[trigger] v@[j]),
        decreases n - i,
    {
        i = i + 1;
    }
    let mut j: usize = n;
    while j > i && es_espacio_exec(v[j - 1])
        invariant
            n == v@.len(),
            v@ == s@,
            i <= j <= n,
            forall|k: int| j <= k < n ==> es_espacio(#[trigger] v@[k]),
        decreases j,
    {
        j = j - 1;
    }
    proof {
        lema_sin_iniciales(s@, i as int);
        let t = s@.subrange(i as int, n as int);
        if i < n {
            assert(t[0] == s@[i as int]);
            assert(sin_iniciales(t) == t);
        } else {
            assert(t.len() == 0);
        }
        assert forall|k: int| (j - i) <= k < t.len() implies es_espacio(#[trigger] t[k]) by {
            assert(t[k] == s@[k + i]);
        }
        lema_sin_finales(t, j - i);
        let u = t.subrange(0, (j - i) as int);
        if j > i {
            assert(u.last() == s@[j - 1]);
        }
        assert(sin_finales(u) == u);
        assert(u =~= s@.subrange(i as int, j as int));
    }
    s.substring_char(i, j)
}

/// `s.trim().is_empty()`: el texto no tiene nada más que espacios.
pub fn esta_en_blanco(s: &str) -> (r: bool)
    ensures
        r == solo_espacios(s@),
        r == (recorte(s@).len() == 0),
{
    let t = recortar(s);
    proof {
        lema_recorte_vacio(s@);
    }
    t.unicode_len() == 0
}

/// `s.trim().to_string()`.
pub fn recortado(s: &str) -> (r: String)
    ensures
        r@ == recorte(s@),
{
    recortar(s).to_owned()
}

/// El texto pasado a minúsculas con las reglas de Unicode
/// (`str::to_lowercase`).
pub uninterp spec fn minusculas(s: Seq<char>) -> Seq<char>;

/// Llama a `str::to_lowercase`; lo que devuelve queda nombrado por
/// `minusculas`, sin repetir acá las tablas de Unicode.
#[verifier::external_body]
pub(crate) fn a_minusculas(s: &str) -> (r: String)
    ensures
        r@ == minusculas(s@),
{
    s.to_lowercase()
}

/// Vocales acentuadas, diéresis y eñe pasan a su letra simple.
pub open spec fn quitar_acento(c: char) -> char {
    if c == 'á' {
        'a'
    } else if c == 'é' {
        'e'
    } else if c == 'í' {
        'i'
    } else if c == 'ó' {
        'o'
    } else if c == 'ú' {
        'u'
    } else if c == 'ü' {
        'u'
    } else if c == 'ñ' {
        'n'
    } else {
        c
    }
}

pub fn quitar_acento_exec(c: char) -> (r: char)
    ensures
        r == quitar_acento(c),
{
    if c == 'á' {
        'a'
    } else if c == 'é' {
        'e'
    } else if c == 'í' {
        'i'
    } else if c == 'ó' {
        'o'
    } else if c == 'ú' {
        'u'
    } else if c == 'ü' {
        'u'
    } else if c == 'ñ' {
        'n'
    } else {
        c
    }
}

pub open spec fn sin_acentos(s: Seq<char>) -> Seq<char> {
    s.map_values(|c: char| quitar_acento(c))
}

/// Palabras separadas por un único espacio, sin espacios en los extremos
/// (`split_whitespace` seguido de `join(" ")`).
pub open spec fn colapsar(s: Seq<char>) -> Seq<char>
    decreases s.len(),
{
    if s.len() == 0 {
        seq![]
    } else {
        let previo = colapsar(s.drop_last());
        let c = s.last();
        if es_espacio(c) {
            previo
        } else if s.len() >= 2 && es_espacio(s[s.len() - 2]) && previo.len() > 0 {
            previo.push(' ').push(c)
        } else {
            previo.push(c)
        }
    }
}

/// Normalización de encabezados: recorte, minúsculas y sin acentos.
pub open spec fn texto_normalizado(s: Seq<char>) -> Seq<char> {
    sin_acentos(minusculas(recorte(s)))
}

/// Normalización de nombres para comparar: como `texto_normalizado`, y
/// además con los espacios internos colapsados.
pub open spec fn texto_para_comparar(s: Seq<char>) -> Seq<char> {
    colapsar(texto_normalizado(s))
}

/// Normalización de códigos: recorte y minúsculas.
pub open spec fn codigo_normalizado(s: Seq<char>) -> Seq<char> {
    minusculas(recorte(s))
}

/// Las letras que la normalización reemplaza.
pub open spec fn es_acentuada(c: char) -> bool {
    c == 'á' || c == 'é' || c == 'í' || c == 'ó' || c == 'ú' || c == 'ü' || c == 'ñ'
}

proof fn lema_colapsar(s: Seq<char>)
    ensures
        colapsar(s).len() > 0 ==> !es_espacio(colapsar(s)[0]) && !es_espacio(
            colapsar(s)[colapsar(s).len() - 1],
        ),
        forall|i: int|
            0 <= i && i + 1 < colapsar(s).len() ==> !(es_espacio(#[trigger] colapsar(s)[i])
                && es_espacio(colapsar(s)[i + 1])),
        (forall|j: int| 0 <= j < s.len() ==> !es_acentuada(#[trigger] s[j])) ==> forall|i: int|
            0 <= i < colapsar(s).len() ==> !es_acentuada(#[trigger] colapsar(s)[i]),
        forall|i: int|
            0 <= i < colapsar(s).len() && es_espacio(#[trigger] colapsar(s)[i]) ==> colapsar(s)[i]
                == ' ',
    decreases s.len(),
{
    if s.len() > 0 {
        let previo = colapsar(s.drop_last());
        let c = s.last();
        lema_colapsar(s.drop_last());
        let t = colapsar(s);
        if forall|j: int| 0 <= j < s.len() ==> !es_acentuada(#[trigger] s[j]) {
            assert forall|j: int| 0 <= j < s.drop_last().len() implies !es_acentuada(
                #[trigger] s.drop_last()[j],
            ) by {
                assert(s.drop_last()[j] == s[j]);
            }
            assert(!es_acentuada(s[s.len() - 1]));
        }
        if es_espacio(c) {
            assert(t == previo);
        } else if s.len() >= 2 && es_espacio(s[s.len() - 2]) && previo.len() > 0 {
            assert(t == previo.push(' ').push(c));
            assert(t.len() == previo.len() + 2);
            assert forall|i: int| 0 <= i < previo.len() implies #[trigger] t[i] == previo[i] by {}
            assert(t[previo.len() as int] == ' ');
            assert(t[previo.len() + 1int] == c);
        } else {
            assert(t == previo.push(c));
            assert forall|i: int| 0 <= i < previo.len() implies #[trigger] t[i] == previo[i] by {}
            assert(t[previo.len() as int] == c);
        }
    }
}

/// Un nombre normalizado para comparar no tiene espacios en los extremos
/// ni dos espacios seguidos, y no le queda ninguna vocal acentuada,
/// diéresis ni eñe.
pub proof fn ley_forma_para_comparar(s: Seq<char>)
    ensures
        texto_para_comparar(s).len() > 0 ==> !es_espacio(texto_para_comparar(s)[0]) && !es_espacio(
            texto_para_comparar(s)[texto_para_comparar(s).len() - 1],
        ),
        forall|i: int|
            0 <= i && i + 1 < texto_para_comparar(s).len() ==> !(es_espacio(
                #[trigger] texto_para_comparar(s)[i],
            ) && es_espacio(texto_para_comparar(s)[i + 1])),
        forall|i: int|
            0 <= i < texto_para_comparar(s).len() ==> !es_acentuada(
                #[trigger] texto_para_comparar(s)[i],
            ),
{
    let n = texto_normalizado(s);
    assert forall|j: int| 0 <= j < n.len() implies !es_acentuada(#[trigger] n[j]) by {
        let m = minusculas(recorte(s));
        assert(n[j] == quitar_acento(m[j]));
    }
    lema_colapsar(n);
}

/// Un texto sin espacios al principio, sin dos espacios seguidos y cuyos
/// únicos espacios son ' ' queda igual al colapsarlo, salvo un espacio
/// final, que se va.
proof fn lema_colapsar_ya_colapsado(t: Seq<char>)
    requires
        t.len() > 0 ==> !es_espacio(t[0]),
        forall|i: int| 0 <= i && i + 1 < t.len() ==> !(es_espacio(#[trigger] t[i]) && es_espacio(t[i + 1])),
        forall|i: int| 0 <= i < t.len() && es_espacio(#[trigger] t[i]) ==> t[i] == ' ',
    ensures
        colapsar(t) == (if t.len() > 0 && es_espacio(t.last()) {
            t.drop_last()
        } else {
            t
        }),
    decreases t.len(),
{
    if t.len() > 0 {
        let previa = t.drop_last();
        assert forall|i: int| 0 <= i && i + 1 < previa.len() implies !(es_espacio(
            #[trigger] previa[i],
        ) && es_espacio(previa[i + 1])) by {
            assert(previa[i] == t[i] && previa[i + 1] == t[i + 1]);
        }
        assert forall|i: int| 0 <= i < previa.len() && es_espacio(#[trigger] previa[i]) implies previa[i]
            == ' ' by {
            assert(previa[i] == t[i]);
        }
        if previa.len() > 0 {
            assert(previa[0] == t[0]);
        }
        lema_colapsar_ya_colapsado(previa);
        let c = t.last();
        let n = t.len() as int;
        if n >= 2 {
            assert(t[n - 2] == previa.last());
            assert(!(es_espacio(t[n - 2]) && es_espacio(t[n - 1])));
        }
        if es_espacio(c) {
            assert(n >= 2);
        } else if n >= 2 && es_espacio(t[n - 2]) {
            assert(previa.len() >= 2);
            assert(t[n - 2] == ' ');
            assert(previa.drop_last().push(' ') =~= previa);
            assert(previa.push(c) =~= t);
        } else {
            assert(previa.push(c) =~= t);
        }
    }
}

/// Normalizar para comparar un texto ya normalizado no lo cambia, siempre
/// que pasar a minúsculas deje igual a ese texto (lo que la documentación
/// de `str::to_lowercase` no promete por sí sola).
pub proof fn ley_normalizar_dos_veces(s: Seq<char>)
    requires
        minusculas(texto_para_comparar(s)) == texto_para_comparar(s),
    ensures
        texto_para_comparar(texto_para_comparar(s)) == texto_para_comparar(s),
{
    let t = texto_para_comparar(s);
    ley_forma_para_comparar(s);
    lema_colapsar(texto_normalizado(s));
    // El recorte no cambia nada: no hay espacios en los extremos.
    if t.len() > 0 {
        assert(sin_iniciales(t) == t);
        assert(sin_finales(t) == t);
    }
    assert(recorte(t) == t);
    // Ya no hay letras acentuadas.
    assert(sin_acentos(t) =~= t) by {
        assert forall|i: int| 0 <= i < t.len() implies sin_acentos(t)[i] == t[i] by {
            assert(!es_acentuada(t[i]));
        }
    }
    lema_colapsar_ya_colapsado(t);
}

fn sin_acentos_vec(v: &Vec<char>) -> (r: Vec<char>)
    ensures
        r@ == sin_acentos(v@),
{
    let mut r: Vec<char> = Vec::new();
    let mut i: usize = 0;
    while i < v.len()
        invariant
            i <= v.len(),
            r@ == sin_acentos(v@.take(i as int)),
        decreases v.len() - i,
    {
        r.push(quitar_acento_exec(v[i]));
        proof {
            assert(v@.take(i + 1) =~= v@.take(i as int).push(v@[i as int]));
            assert(sin_acentos(v@.take(i + 1)) =~= sin_acentos(v@.take(i as int)).push(
                quitar_acento(v@[i as int]),
            ));
        }
        i = i + 1;
    }
    assert(v@.take(v.len() as int) =~= v@);
    r
}

fn colapsar_vec(v: &Vec<char>) -> (r: Vec<char>)
    ensures
        r@ == colapsar(v@),
{
    let mut r: Vec<char> = Vec::new();
    let mut i: usize = 0;
    while i < v.len()
        invariant
            i <= v.len(),
            r@ == colapsar(v@.take(i as int)),
        decreases v.len() - i,
    {
        let c = v[i];
        let t = Ghost(v@.take(i + 1));
        proof {
            assert(t@.drop_last() =~= v@.take(i as int));
            assert(t@.last() == c);
            if i >= 1 {
                assert(t@[t@.len() - 2] == v@[i - 1]);
            }
        }
        if es_espacio_exec(c) {
        } else if i >= 1 && es_espacio_exec(v[i - 1]) && r.len() > 0 {
            r.push(' ');
            r.push(c);
        } else {
            r.push(c);
        }
        i = i + 1;
    }
    assert(v@.take(v.len() as int) =~= v@);
    r
}

/// Recorte, minúsculas y sin acentos (normalización de encabezados).
pub fn normalizar_texto(s: &str) -> (r: String)
    ensures
        r@ == texto_normalizado(s@),
{
    let minus = a_minusculas(recortar(s));
    let v = caracteres(minus.as_str());
    let w = sin_acentos_vec(&v);
    cadena_de_caracteres(w.as_slice())
}

/// Normalización de nombres para detectar duplicados: recorte,
/// minúsculas, sin acentos y con un solo espacio entre palabras.
pub fn normalizar_para_comparar(texto: &str) -> (r: String)
    ensures
        r@ == texto_para_comparar(texto@),
{
    let minus = a_minusculas(recortar(texto));
    let v = caracteres(minus.as_str());
    let w = sin_acentos_vec(&v);
    let x = colapsar_vec(&w);
    cadena_de_caracteres(x.as_slice())
}

/// Normalización de códigos para comparar: recorte y minúsculas.
pub fn normalizar_codigo(codigo: &str) -> (r: String)
    ensures
        r@ == codigo_normalizado(codigo@),
{
    a_minusculas(recortar(codigo))
}

/// `aguja` aparece como subcadena contigua de `pajar`.
pub open spec fn contiene(pajar: Seq<char>, aguja: Seq<char>) -> bool {
    exists|i: int|
        0 <= i && i + aguja.len() <= pajar.len() && #[trigger] pajar.subrange(i, i + aguja.len())
            == aguja
}

fn coincide_en(pajar: &Vec<char>, aguja: &Vec<char>, i: usize) -> (r: bool)
    requires
        i + aguja.len() <= pajar.len(),
    ensures
        r == (pajar@.subrange(i as int, i + aguja.len()) == aguja@),
{
    let mut k: usize = 0;
    while k < aguja.len()
        invariant
            k <= aguja.len(),
            i + aguja.len() <= pajar.len(),
            forall|m: int| 0 <= m < k ==> pajar@[i + m] == aguja@[m],
        decreases aguja.len() - k,
    {
        if pajar[i + k] != aguja[k] {
            assert(pajar@.subrange(i as int, i + aguja.len())[k as int] != aguja@[k as int]);
            return false;
        }
        k = k + 1;
    }
    assert(pajar@.subrange(i as int, i + aguja.len()) =~= aguja@);
    true
}

/// `str::contains` sobre las secuencias de caracteres.
pub fn contiene_vec(pajar: &Vec<char>, aguja: &Vec<char>) -> (r: bool)
    ensures
        r == contiene(pajar@, aguja@),
{
    if aguja.len() > pajar.len() {
        return false;
    }
    let tope = pajar.len() - aguja.len();
    let mut i: usize = 0;
    loop
        invariant
            tope + aguja.len() == pajar.len(),
            i <= tope,
            forall|j: int|
                0 <= j < i ==> #[trigger] pajar@.subrange(j, j + aguja.len()) != aguja@,
        decreases tope - i,
    {
        if coincide_en(pajar, aguja, i) {
            return true;
        }
        if i == tope {
            return false;
        }
        i = i + 1;
    }
}

/// `pajar.contains(aguja)`.
pub fn contiene_texto(pajar: &str, aguja: &str) -> (r: bool)
    ensures
        r == contiene(pajar@, aguja@),
{
    let p = caracteres(pajar);
    let a = caracteres(aguja);
    contiene_vec(&p, &a)
}

/// Un dígito decimal.
pub open spec fn digito(d: int) -> char {
    if d == 0 {
        '0'
    } else if d == 1 {
        '1'
    } else if d == 2 {
        '2'
    } else if d == 3 {
        '3'
    } else if d == 4 {
        '4'
    } else if d == 5 {
        '5'
    } else if d == 6 {
        '6'
    } else if d == 7 {
        '7'
    } else if d == 8 {
        '8'
    } else {
        '9'
    }
}

/// Los dígitos decimales de un natural, sin ceros a la izquierda.
pub open spec fn decimal(n: nat) -> Seq<char>
    decreases n,
{
    if n < 10 {
        seq![digito(n as int)]
    } else {
        decimal(n / 10).push(digito((n % 10) as int))
    }
}

/// Un entero en decimal, con signo si es negativo (`{}` de std).
pub open spec fn decimal_con_signo(n: int) -> Seq<char> {
    if n < 0 {
        seq!['-'] + decimal((-n) as nat)
    } else {
        decimal(n as nat)
    }
}

/// `n` ceros.
pub open spec fn ceros(n: int) -> Seq<char> {
    Seq::new(if n > 0 { n as nat } else { 0 }, |i: int| '0')
}

/// Un entero con ceros a la izquierda hasta el ancho pedido; el signo,
/// si lo hay, va primero y cuenta en el ancho (`{:0w}` de std).
pub open spec fn decimal_con_ceros(n: int, ancho: int) -> Seq<char> {
    if n < 0 {
        let d = decimal((-n) as nat);
        seq!['-'] + ceros(ancho - 1 - d.len()) + d
    } else {
        let d = decimal(n as nat);
        ceros(ancho - d.len()) + d
    }
}

proof fn lema_digito(d: int, e: int)
    requires
        0 <= d <= 9,
        0 <= e <= 9,
    ensures
        digito(d) == digito(e) ==> d == e,
        digito(d) == '0' <==> d == 0,
{
}

/// Forma de un número en decimal: al menos una cifra, y sin cero a la
/// izquierda si tiene más de una.
pub proof fn lema_decimal_forma(n: nat)
    ensures
        decimal(n).len() >= 1,
        decimal(n).len() == 1 <==> n < 10,
        decimal(n).len() > 1 ==> decimal(n)[0] != '0',
        n > 0 ==> decimal(n)[0] != '0',
    decreases n,
{
    if n >= 10 {
        lema_decimal_forma(n / 10);
        let p = decimal(n / 10);
        assert(decimal(n)[0] == p[0]);
        if p.len() == 1 {
            lema_digito((n / 10) as int, 0);
        }
    } else {
        lema_digito(n as int, 0);
    }
}

/// Dos números distintos nunca se escriben igual en decimal.
pub proof fn lema_decimal_inyectiva(n: nat, m: nat)
    requires
        decimal(n) == decimal(m),
    ensures
        n == m,
    decreases n,
{
    lema_decimal_forma(n);
    lema_decimal_forma(m);
    if n < 10 {
        lema_digito(n as int, m as int);
    } else {
        let a = decimal(n);
        let b = decimal(m);
        assert(a.drop_last() =~= decimal(n / 10));
        assert(b.drop_last() =~= decimal(m / 10));
        lema_decimal_inyectiva(n / 10, m / 10);
        assert(a.last() == b.last());
        lema_digito((n % 10) as int, (m % 10) as int);
        assert(n == (n / 10) * 10 + n % 10);
        assert(m == (m / 10) * 10 + m % 10);
    }
}

/// Con ceros a la izquierda hasta un ancho fijo, dos naturales distintos
/// siguen dando textos distintos.
pub proof fn lema_ceros_inyectiva(n: int, m: int, ancho: int)
    requires
        n >= 0,
        m >= 0,
        decimal_con_ceros(n, ancho) == decimal_con_ceros(m, ancho),
    ensures
        n == m,
{
    let d1 = decimal(n as nat);
    let d2 = decimal(m as nat);
    lema_decimal_forma(n as nat);
    lema_decimal_forma(m as nat);
    let c1 = ceros(ancho - d1.len());
    let c2 = ceros(ancho - d2.len());
    let s = c1 + d1;
    assert(s == c2 + d2);
    if c1.len() == c2.len() {
        assert(d1 =~= s.skip(c1.len() as int));
        assert(d2 =~= s.skip(c2.len() as int));
        lema_decimal_inyectiva(n as nat, m as nat);
    } else if c1.len() < c2.len() {
        assert(s[c1.len() as int] == d1[0]);
        assert(s[c1.len() as int] == c2[c1.len() as int]);
        assert(d1.len() == 1);
        assert(false);
    } else {
        assert(s[c2.len() as int] == d2[0]);
        assert(s[c2.len() as int] == c1[c2.len() as int]);
        assert(d2.len() == 1);
        assert(false);
    }
}

fn digito_exec(d: u64) -> (c: char)
    requires
        d < 10,
    ensures
        c == digito(d as int),
{
    if d == 0 {
        '0'
    } else if d == 1 {
        '1'
    } else if d == 2 {
        '2'
    } else if d == 3 {
        '3'
    } else if d == 4 {
        '4'
    } else if d == 5 {
        '5'
    } else if d == 6 {
        '6'
    } else if d == 7 {
        '7'
    } else if d == 8 {
        '8'
    } else {
        '9'
    }
}

fn decimal_u64(n: u64) -> (r: Vec<char>)
    ensures
        r@ == decimal(n as nat),
    decreases n,
{
    if n < 10 {
        let mut v: Vec<char> = Vec::new();
        v.push(digito_exec(n));
        v
    } else {
        let mut v = decimal_u64(n / 10);
        v.push(digito_exec(n % 10));
        v
    }
}

fn valor_absoluto(n: i64) -> (r: u64)
    ensures
        r as int == if n < 0 { -n } else { n as int },
{
    if n >= 0 {
        n as u64
    } else if n == i64::MIN {
        9223372036854775808u64
    } else {
        (-n) as u64
    }
}

/// Un entero en decimal, como `format!("{n}")`.
pub fn entero_a_texto(n: i64) -> (r: String)
    ensures
        r@ == decimal_con_signo(n as int),
{
    let d = decimal_u64(valor_absoluto(n));
    if n < 0 {
        let mut v: Vec<char> = Vec::new();
        v.push('-');
        let mut i: usize = 0;
        while i < d.len()
            invariant
                i <= d.len(),
                v@ == seq!['-'] + d@.take(i as int),
            decreases d.len() - i,
        {
            v.push(d[i]);
            proof {
                assert(d@.take(i + 1) =~= d@.take(i as int).push(d@[i as int]));
            }
            i = i + 1;
            assert(v@ =~= seq!['-'] + d@.take(i as int));
        }
        assert(d@.take(d.len() as int) =~= d@);
        cadena_de_caracteres(v.as_slice())
    } else {
        cadena_de_caracteres(d.as_slice())
    }
}

/// Un entero con ceros a la izquierda, como `format!("{n:06}")` con el
/// ancho dado.
pub fn entero_con_ceros(n: i64, ancho: usize) -> (r: String)
    ensures
        r@ == decimal_con_ceros(n as int, ancho as int),
{
    let d = decimal_u64(valor_absoluto(n));
    let mut v: Vec<char> = Vec::new();
    if n < 0 {
        v.push('-');
    }
    let faltan: usize = if n < 0 {
        if ancho > d.len() && ancho - d.len() > 1 { ancho - d.len() - 1 } else { 0 }
    } else {
        if ancho > d.len() { ancho - d.len() } else { 0 }
    };
    let ghost inicio = v@;
    let mut k: usize = 0;
    while k < faltan
        invariant
            k <= faltan,
            v@ == inicio + ceros(k as int),
        decreases faltan - k,
    {
        v.push('0');
        k = k + 1;
        assert(v@ =~= inicio + ceros(k as int));
    }
    let ghost medio = v@;
    let mut i: usize = 0;
    while i < d.len()
        invariant
            i <= d.len(),
            v@ == medio + d@.take(i as int),
        decreases d.len() - i,
    {
        v.push(d[i]);
        proof {
            assert(d@.take(i + 1) =~= d@.take(i as int).push(d@[i as int]));
        }
        i = i + 1;
        assert(v@ =~= medio + d@.take(i as int));
    }
    assert(d@.take(d.len() as int) =~= d@);
    proof {
        if n < 0 {
            assert(ceros(faltan as int) =~= ceros(ancho - 1 - d@.len()));
            assert(inicio =~= seq!['-']);
            assert(v@ =~= seq!['-'] + ceros(ancho - 1 - d@.len()) + d@);
        } else {
            assert(ceros(faltan as int) =~= ceros(ancho - d@.len()));
            assert(inicio =~= seq![]);
            assert(v@ =~= ceros(ancho - d@.len()) + d@);
        }
    }
    cadena_de_caracteres(v.as_slice())
}

/// Concatena textos (`String + &str`).
pub fn concatenar(a: &str, b: &str) -> (r: String)
    ensures
        r@ == a@ + b@,
{
    a.to_owned().concat(b)
}

/// Un mensaje con un número en el medio, como `format!("{antes}{n}{despues}")`.
pub fn con_numero(antes: &str, n: i64, despues: &str) -> (r: String)
    ensures
        r@ == antes@ + decimal_con_signo(n as int) + despues@,
{
    let numero = entero_a_texto(n);
    let a = concatenar(antes, numero.as_str());
    concatenar(a.as_str(), despues)
}

/// Un texto opcional visto como secuencia de caracteres.
pub open spec fn vista(o: Option<String>) -> Option<Seq<char>> {
    match o {
        Some(s) => Some(s@),
        None => None,
    }
}

/// Una copia de un texto opcional.
pub fn copiar_opcional(o: &Option<String>) -> (r: Option<String>)
    ensures
        r == *o,
{
    match o {
        Some(s) => Some(s.clone()),
        None => None,
    }
}

} // verus!
