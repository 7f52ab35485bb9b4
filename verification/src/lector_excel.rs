//! Detección dinámica de la estructura de una lista de precios: en qué
//! hoja, en qué fila de encabezado y en qué columnas están el código, el
//! nombre y el precio. Nada se asume fijo: todo sale del texto de los
//! encabezados, y entre varios candidatos gana el que tiene más filas de
//! datos debajo.
use vstd::prelude::*;

use crate::error::{validacion, AppError, TipoError};
use crate::modelos::{ColumnaDetectada, ColumnasDetectadas, EstructuraDetectada, FilaCruda};
use crate::texto::{contiene, contiene_texto, normalizar_texto, recortado, recorte, texto_normalizado, vista};

verus! {

/// Una celda de la planilla, con lo que de ella leen las reglas.
#[derive(Debug, Clone, PartialEq, Eq)]
pub struct Celda {
    /// La celda no tiene nada.
    pub vacia: bool,
    /// Su contenido como texto (texto, o número escrito en decimal), si lo tiene.
    pub texto: Option<String>,
    /// Su valor numérico en centavos (×100, redondeado), si es un número o
    /// un texto que se lee como número.
    pub centavos: Option<i64>,
}

/// Una hoja del libro.
#[derive(Debug, Clone, PartialEq, Eq)]
pub struct Hoja {
    pub nombre: String,
    /// Se pudo leer como tabla (las hojas de gráficos no).
    pub legible: bool,
    /// Fila real (desde 0) donde empieza el rango usado; `None` si la hoja está vacía.
    pub inicio: Option<u32>,
    pub filas: Vec<Vec<Celda>>,
}

/// Cuántas filas de cada hoja se revisan buscando el encabezado.
pub const FILAS_A_REVISAR: usize = 30;

pub open spec fn texto_de(o: Option<String>) -> Seq<char> {
    match o {
        Some(s) => s@,
        None => seq![],
    }
}

/// El texto recortado de la celda, si tiene algo.
pub open spec fn texto_de_celda(c: Celda) -> Option<Seq<char>> {
    if c.vacia {
        None
    } else if recorte(texto_de(c.texto)).len() == 0 {
        None
    } else {
        Some(recorte(texto_de(c.texto)))
    }
}

/// El texto recortado de la celda, si tiene algo.
pub fn texto_celda(celda: &Celda) -> (r: Option<String>)
    ensures
        r matches Some(s) ==> texto_de_celda(*celda) == Some(s@),
        r is None ==> texto_de_celda(*celda) is None,
{
    if celda.vacia {
        return None;
    }
    let limpio = match &celda.texto {
        Some(t) => recortado(t.as_str()),
        None => recortado(""),
    };
    proof {
        reveal_strlit("");
    }
    if limpio.as_str().unicode_len() == 0 {
        None
    } else {
        Some(limpio)
    }
}

pub open spec fn es_derivada(n: Seq<char>) -> bool {
    contiene(n, seq!['%']) || contiene(n, "pp+"@)
}

pub open spec fn es_codigo(n: Seq<char>) -> bool {
    contiene(n, "codigo"@)
}

/// Prioridad como columna de nombre (menor es mejor; 6 = no es de nombre).
pub open spec fn prioridad_nombre(n: Seq<char>) -> int {
    if contiene(n, "mercaderia"@) {
        0
    } else if contiene(n, "descripcion"@) {
        1
    } else if contiene(n, "nombre"@) {
        2
    } else if contiene(n, "producto"@) {
        3
    } else if contiene(n, "detalle"@) {
        4
    } else if contiene(n, "articulo"@) {
        5
    } else {
        6
    }
}

/// Prioridad como columna de precio (0 = precio de lista o base, 1 =
/// costo o precio a secas, 2 = no es de precio).
pub open spec fn prioridad_precio(n: Seq<char>) -> int {
    if contiene(n, "precio lista"@) || contiene(n, "precio base"@) {
        0
    } else if contiene(n, "costo"@) || contiene(n, "precio"@) {
        1
    } else {
        2
    }
}

/// El encabezado normalizado de una celda con texto.
pub open spec fn normal_de(c: Celda) -> Seq<char> {
    texto_normalizado(texto_de_celda(c)->0)
}

/// Una celda con texto que no es columna de porcentaje.
pub open spec fn candidata(c: Celda) -> bool {
    texto_de_celda(c) is Some && !es_derivada(normal_de(c))
}

pub open spec fn derivada(c: Celda) -> bool {
    texto_de_celda(c) is Some && es_derivada(normal_de(c))
}

/// La primera columna de código entre las primeras `k` (−1 si no hay).
pub open spec fn primer_codigo(fila: Seq<Celda>, k: int) -> int
    decreases k,
{
    if k <= 0 {
        -1
    } else {
        let previo = primer_codigo(fila, k - 1);
        if previo == -1 && candidata(fila[k - 1]) && es_codigo(normal_de(fila[k - 1])) {
            k - 1
        } else {
            previo
        }
    }
}

/// La mejor columna de nombre entre las primeras `k`: la de menor
/// prioridad y, a igual prioridad, la primera (−1 si no hay).
pub open spec fn mejor_nombre(fila: Seq<Celda>, k: int) -> int
    decreases k,
{
    if k <= 0 {
        -1
    } else {
        let previo = mejor_nombre(fila, k - 1);
        let c = fila[k - 1];
        if candidata(c) && prioridad_nombre(normal_de(c)) < 6 && (previo == -1 || prioridad_nombre(
            normal_de(c),
        ) < prioridad_nombre(normal_de(fila[previo]))) {
            k - 1
        } else {
            previo
        }
    }
}

/// La mejor columna de precio entre las primeras `k` (−1 si no hay).
pub open spec fn mejor_precio(fila: Seq<Celda>, k: int) -> int
    decreases k,
{
    if k <= 0 {
        -1
    } else {
        let previo = mejor_precio(fila, k - 1);
        let c = fila[k - 1];
        if candidata(c) && prioridad_precio(normal_de(c)) < 2 && (previo == -1 || prioridad_precio(
            normal_de(c),
        ) < prioridad_precio(normal_de(fila[previo]))) {
            k - 1
        } else {
            previo
        }
    }
}

/// Los índices de las columnas de porcentaje entre las primeras `k`, en orden.
pub open spec fn indices_derivadas(fila: Seq<Celda>, k: int) -> Seq<usize>
    decreases k,
{
    if k <= 0 {
        seq![]
    } else if derivada(fila[k - 1]) {
        indices_derivadas(fila, k - 1).push((k - 1) as usize)
    } else {
        indices_derivadas(fila, k - 1)
    }
}

/// La fila sirve de encabezado: tiene columna de nombre y de precio.
pub open spec fn detecta(fila: Seq<Celda>) -> bool {
    mejor_nombre(fila, fila.len() as int) >= 0 && mejor_precio(fila, fila.len() as int) >= 0
}

pub open spec fn columna_es(col: ColumnaDetectada, fila: Seq<Celda>, i: int) -> bool {
    &&& col.indice == i
    &&& 0 <= i < fila.len()
    &&& texto_de_celda(fila[i]) == Some(col.encabezado@)
}

/// Las columnas detectadas son las que elige la regla para esta fila.
pub open spec fn columnas_de(c: ColumnasDetectadas, fila: Seq<Celda>) -> bool {
    let n = fila.len() as int;
    &&& columna_es(c.nombre, fila, mejor_nombre(fila, n))
    &&& columna_es(c.precio, fila, mejor_precio(fila, n))
    &&& (c.codigo is None <==> primer_codigo(fila, n) == -1)
    &&& (c.codigo matches Some(col) ==> columna_es(col, fila, primer_codigo(fila, n)))
    &&& c.derivadas@.map_values(|d: ColumnaDetectada| d.indice) == indices_derivadas(fila, n)
    &&& forall|j: int|
        0 <= j < c.derivadas@.len() ==> columna_es(
            #[trigger] c.derivadas@[j],
            fila,
            c.derivadas@[j].indice as int,
        )
}

proof fn lema_primer_codigo_rango(fila: Seq<Celda>, k: int)
    requires
        0 <= k <= fila.len(),
    ensures
        -1 <= primer_codigo(fila, k) < k,
        primer_codigo(fila, k) >= 0 ==> candidata(fila[primer_codigo(fila, k)]),
    decreases k,
{
    if k > 0 {
        lema_primer_codigo_rango(fila, k - 1);
    }
}

proof fn lema_mejor_rango(fila: Seq<Celda>, k: int)
    requires
        0 <= k <= fila.len(),
    ensures
        -1 <= mejor_nombre(fila, k) < k,
        -1 <= mejor_precio(fila, k) < k,
        mejor_nombre(fila, k) >= 0 ==> candidata(fila[mejor_nombre(fila, k)]),
        mejor_precio(fila, k) >= 0 ==> candidata(fila[mejor_precio(fila, k)]),
    decreases k,
{
    if k > 0 {
        lema_mejor_rango(fila, k - 1);
    }
}

/// Un encabezado de precio de lista o base.
pub open spec fn es_precio_de_lista(n: Seq<char>) -> bool {
    contiene(n, "precio lista"@) || contiene(n, "precio base"@)
}

/// Un encabezado de precio de lista o base es siempre mejor columna de
/// precio que uno de costo o de precio a secas que no lo sea.
pub proof fn ley_precio_de_lista_antes_que_costo(lista: Seq<char>, otra: Seq<char>)
    requires
        es_precio_de_lista(lista),
        !es_precio_de_lista(otra),
    ensures
        prioridad_precio(lista) < prioridad_precio(otra),
        contiene(otra, "costo"@) || contiene(otra, "precio"@) ==> prioridad_precio(otra) < 2,
{
}

proof fn lema_mejor_precio_de_lista(fila: Seq<Celda>, k: int, m: int)
    requires
        0 <= k < m <= fila.len(),
        candidata(fila[k]),
        es_precio_de_lista(normal_de(fila[k])),
        forall|j: int| 0 <= j < k && candidata(#[trigger] fila[j]) ==> !es_precio_de_lista(normal_de(fila[j])),
    ensures
        mejor_precio(fila, m) == k,
    decreases m,
{
    lema_mejor_rango(fila, m);
    if m == k + 1 {
        lema_mejor_rango(fila, k);
        let previo = mejor_precio(fila, k);
        if previo >= 0 {
            assert(!es_precio_de_lista(normal_de(fila[previo])));
        }
    } else {
        lema_mejor_precio_de_lista(fila, k, m - 1);
    }
}

/// Si la fila de encabezado tiene una columna de precio de lista o base,
/// la columna de precio elegida es la primera de ellas: nunca una de costo
/// ni de precio a secas.
pub proof fn ley_columna_de_precio_es_la_de_lista(fila: Seq<Celda>, c: ColumnasDetectadas, k: int)
    requires
        columnas_de(c, fila),
        0 <= k < fila.len(),
        candidata(fila[k]),
        es_precio_de_lista(normal_de(fila[k])),
        forall|j: int| 0 <= j < k && candidata(#[trigger] fila[j]) ==> !es_precio_de_lista(normal_de(fila[j])),
    ensures
        c.precio.indice == k,
        es_precio_de_lista(normal_de(fila[c.precio.indice as int])),
{
    lema_mejor_precio_de_lista(fila, k, fila.len() as int);
}

/// Un encabezado de costo o de precio a secas.
pub open spec fn es_precio_comun(n: Seq<char>) -> bool {
    contiene(n, "costo"@) || contiene(n, "precio"@)
}

proof fn lema_mejor_precio_comun(fila: Seq<Celda>, k: int, m: int)
    requires
        0 <= k < m <= fila.len(),
        candidata(fila[k]),
        es_precio_comun(normal_de(fila[k])),
        forall|j: int| 0 <= j < m && candidata(#[trigger] fila[j]) ==> !es_precio_de_lista(normal_de(fila[j])),
        forall|j: int| 0 <= j < k && candidata(#[trigger] fila[j]) ==> !es_precio_comun(normal_de(fila[j])),
    ensures
        mejor_precio(fila, m) == k,
    decreases m,
{
    lema_mejor_rango(fila, m);
    if m == k + 1 {
        lema_mejor_rango(fila, k);
        let previo = mejor_precio(fila, k);
        if previo >= 0 {
            assert(!es_precio_de_lista(normal_de(fila[previo])));
            assert(!es_precio_comun(normal_de(fila[previo])));
        }
    } else {
        lema_mejor_precio_comun(fila, k, m - 1);
        assert(!es_precio_de_lista(normal_de(fila[m - 1])) || !candidata(fila[m - 1]));
    }
}

/// Sin columnas de precio de lista o base, la columna de precio elegida es
/// la primera de costo o de precio a secas.
pub proof fn ley_columna_de_precio_comun(fila: Seq<Celda>, c: ColumnasDetectadas, k: int)
    requires
        columnas_de(c, fila),
        0 <= k < fila.len(),
        candidata(fila[k]),
        es_precio_comun(normal_de(fila[k])),
        forall|j: int|
            0 <= j < fila.len() && candidata(#[trigger] fila[j]) ==> !es_precio_de_lista(normal_de(fila[j])),
        forall|j: int| 0 <= j < k && candidata(#[trigger] fila[j]) ==> !es_precio_comun(normal_de(fila[j])),
    ensures
        c.precio.indice == k,
{
    lema_mejor_precio_comun(fila, k, fila.len() as int);
}

proof fn lema_mejor_nombre_primero(fila: Seq<Celda>, k: int, m: int, clave: Seq<char>)
    requires
        0 <= k < m <= fila.len(),
        candidata(fila[k]),
        contiene(normal_de(fila[k]), clave),
        prioridad_nombre(normal_de(fila[k])) < 6,
        forall|j: int|
            0 <= j < m && candidata(#[trigger] fila[j]) ==> prioridad_nombre(normal_de(fila[j]))
                >= prioridad_nombre(normal_de(fila[k])),
        forall|j: int|
            0 <= j < k && candidata(#[trigger] fila[j]) ==> prioridad_nombre(normal_de(fila[j]))
                > prioridad_nombre(normal_de(fila[k])),
    ensures
        mejor_nombre(fila, m) == k,
    decreases m,
{
    lema_mejor_rango(fila, m);
    if m == k + 1 {
        lema_mejor_rango(fila, k);
    } else {
        lema_mejor_nombre_primero(fila, k, m - 1, clave);
    }
}

/// La columna de nombre: si algún encabezado dice "mercaderia", gana el
/// primero de ellos; si ninguno lo dice pero alguno dice "descripcion",
/// gana el primero de esos.
pub proof fn ley_columna_de_nombre(fila: Seq<Celda>, c: ColumnasDetectadas, k: int)
    requires
        columnas_de(c, fila),
        0 <= k < fila.len(),
        candidata(fila[k]),
    ensures
        contiene(normal_de(fila[k]), "mercaderia"@) && (forall|j: int|
            0 <= j < k && candidata(#[trigger] fila[j]) ==> !contiene(normal_de(fila[j]), "mercaderia"@))
            ==> c.nombre.indice == k,
        contiene(normal_de(fila[k]), "descripcion"@) && (forall|j: int|
            0 <= j < fila.len() && candidata(#[trigger] fila[j]) ==> !contiene(
                normal_de(fila[j]),
                "mercaderia"@,
            )) && (forall|j: int|
            0 <= j < k && candidata(#[trigger] fila[j]) ==> !contiene(normal_de(fila[j]), "descripcion"@))
            ==> c.nombre.indice == k,
{
    let n = fila.len() as int;
    if contiene(normal_de(fila[k]), "mercaderia"@) && (forall|j: int|
        0 <= j < k && candidata(#[trigger] fila[j]) ==> !contiene(normal_de(fila[j]), "mercaderia"@)) {
        lema_mejor_nombre_primero(fila, k, n, "mercaderia"@);
    }
    if contiene(normal_de(fila[k]), "descripcion"@) && (forall|j: int|
        0 <= j < n && candidata(#[trigger] fila[j]) ==> !contiene(normal_de(fila[j]), "mercaderia"@))
        && (forall|j: int|
        0 <= j < k && candidata(#[trigger] fila[j]) ==> !contiene(normal_de(fila[j]), "descripcion"@)) {
        lema_mejor_nombre_primero(fila, k, n, "descripcion"@);
    }
}

fn prioridad_nombre_exec(n: &str) -> (r: usize)
    ensures
        r == prioridad_nombre(n@),
{
    if contiene_texto(n, "mercaderia") {
        0
    } else if contiene_texto(n, "descripcion") {
        1
    } else if contiene_texto(n, "nombre") {
        2
    } else if contiene_texto(n, "producto") {
        3
    } else if contiene_texto(n, "detalle") {
        4
    } else if contiene_texto(n, "articulo") {
        5
    } else {
        6
    }
}

fn prioridad_precio_exec(n: &str) -> (r: usize)
    ensures
        r == prioridad_precio(n@),
{
    if contiene_texto(n, "precio lista") || contiene_texto(n, "precio base") {
        0
    } else if contiene_texto(n, "costo") || contiene_texto(n, "precio") {
        1
    } else {
        2
    }
}

/// El encabezado normalizado contiene '%' o "pp+": es una columna de
/// precio calculado, que solo se guarda como referencia.
pub fn es_columna_derivada(encabezado_normalizado: &str) -> (r: bool)
    ensures
        r == es_derivada(encabezado_normalizado@),
{
    let porcentaje = "%";
    proof {
        reveal_strlit("%");
        assert(porcentaje@ =~= seq!['%']);
    }
    contiene_texto(encabezado_normalizado, porcentaje) || contiene_texto(
        encabezado_normalizado,
        "pp+",
    )
}

/// Intenta leer la fila como encabezado: la columna de nombre y la de
/// precio son obligatorias, la de código es opcional, y las de porcentaje
/// se anotan aparte.
pub fn intentar_detectar_columnas(fila: &Vec<Celda>) -> (r: Option<ColumnasDetectadas>)
    ensures
        r is Some <==> detecta(fila@),
        r matches Some(c) ==> columnas_de(c, fila@),
{
    let mut codigo: Option<ColumnaDetectada> = None;
    let mut nombre: Option<(usize, ColumnaDetectada)> = None;
    let mut precio: Option<(usize, ColumnaDetectada)> = None;
    let mut derivadas: Vec<ColumnaDetectada> = Vec::new();
    let mut indice: usize = 0;
    while indice < fila.len()
        invariant
            indice <= fila@.len(),
            (codigo is None <==> primer_codigo(fila@, indice as int) == -1),
            codigo matches Some(col) ==> columna_es(col, fila@, primer_codigo(fila@, indice as int)),
            (nombre is None <==> mejor_nombre(fila@, indice as int) == -1),
            nombre matches Some((p, col)) ==> columna_es(col, fila@, mejor_nombre(fila@, indice as int))
                && p == prioridad_nombre(normal_de(fila@[col.indice as int])),
            (precio is None <==> mejor_precio(fila@, indice as int) == -1),
            precio matches Some((p, col)) ==> columna_es(col, fila@, mejor_precio(fila@, indice as int))
                && p == prioridad_precio(normal_de(fila@[col.indice as int])),
            derivadas@.map_values(|d: ColumnaDetectada| d.indice) == indices_derivadas(
                fila@,
                indice as int,
            ),
            forall|j: int|
                0 <= j < derivadas@.len() ==> columna_es(
                    #[trigger] derivadas@[j],
                    fila@,
                    derivadas@[j].indice as int,
                ),
        decreases fila@.len() - indice,
    {
        proof {
            lema_primer_codigo_rango(fila@, indice as int);
            lema_mejor_rango(fila@, indice as int);
        }
        let ghost k = indice + 1;
        let celda = &fila[indice];
        let encabezado = match texto_celda(celda) {
            Some(e) => e,
            None => {
                proof {
                    assert(!candidata(fila@[indice as int]));
                    assert(!derivada(fila@[indice as int]));
                    assert(indices_derivadas(fila@, k) == indices_derivadas(fila@, indice as int));
                }
                indice = indice + 1;
                continue ;
            },
        };
        let normalizado = normalizar_texto(encabezado.as_str());
        assert(normalizado@ == normal_de(fila@[indice as int]));
        if es_columna_derivada(normalizado.as_str()) {
            let ghost antes = derivadas@;
            derivadas.push(ColumnaDetectada { encabezado, indice });
            proof {
                assert(derivada(fila@[indice as int]));
                assert(derivadas@.map_values(|d: ColumnaDetectada| d.indice) =~= antes.map_values(
                    |d: ColumnaDetectada| d.indice,
                ).push(indice));
            }
            indice = indice + 1;
            continue ;
        }
        assert(candidata(fila@[indice as int]));
        assert(indices_derivadas(fila@, k) == indices_derivadas(fila@, indice as int));
        if codigo.is_none() && contiene_texto(normalizado.as_str(), "codigo") {
            codigo = Some(ColumnaDetectada { encabezado: encabezado.clone(), indice });
        }
        let pn = prioridad_nombre_exec(normalizado.as_str());
        if pn < 6 {
            let mejora = match &nombre {
                None => true,
                Some((mejor, _)) => pn < *mejor,
            };
            if mejora {
                nombre = Some((pn, ColumnaDetectada { encabezado: encabezado.clone(), indice }));
            }
        }
        let pp = prioridad_precio_exec(normalizado.as_str());
        if pp < 2 {
            let mejora = match &precio {
                None => true,
                Some((mejor, _)) => pp < *mejor,
            };
            if mejora {
                precio = Some((pp, ColumnaDetectada { encabezado: encabezado.clone(), indice }));
            }
        }
        indice = indice + 1;
    }
    let (_, col_nombre) = nombre?;
    let (_, col_precio) = precio?;
    Some(ColumnasDetectadas { codigo, nombre: col_nombre, precio: col_precio, derivadas })
}

/// La celda `i` de la fila existe y no está vacía.
pub open spec fn tiene_dato(fila: Seq<Celda>, i: int) -> bool {
    0 <= i < fila.len() && !fila[i].vacia
}

/// Con la columna de nombre `n` y la de precio `p`, la fila tiene datos.
pub open spec fn parece_datos(fila: Seq<Celda>, n: int, p: int) -> bool {
    tiene_dato(fila, n) || tiene_dato(fila, p)
}

/// La fila parece una fila de datos real: nombre o precio con algo cargado.
pub fn parece_fila_de_datos(fila: &Vec<Celda>, columnas: &ColumnasDetectadas) -> (r: bool)
    ensures
        r == parece_datos(fila@, columnas.nombre.indice as int, columnas.precio.indice as int),
{
    let tiene_nombre = columnas.nombre.indice < fila.len() && !fila[columnas.nombre.indice].vacia;
    let tiene_precio = columnas.precio.indice < fila.len() && !fila[columnas.precio.indice].vacia;
    tiene_nombre || tiene_precio
}

pub open spec fn filas_de(h: Hoja) -> Seq<Seq<Celda>> {
    h.filas@.map_values(|f: Vec<Celda>| f@)
}

/// Cuántas de las filas en [desde, hasta) parecen datos.
pub open spec fn cuenta_datos(filas: Seq<Seq<Celda>>, desde: int, hasta: int, n: int, p: int) -> int
    decreases hasta - desde,
{
    if hasta <= desde {
        0
    } else {
        cuenta_datos(filas, desde, hasta - 1, n, p) + if parece_datos(filas[hasta - 1], n, p) {
            1int
        } else {
            0int
        }
    }
}

/// Cuántas filas de datos hay debajo de la fila `i` de la hoja tomada como
/// encabezado; 0 si esa fila no se revisa o no sirve de encabezado.
pub open spec fn puntaje(h: Hoja, i: int) -> int {
    let filas = filas_de(h);
    if h.legible && h.inicio is Some && 0 <= i < filas.len() && i < FILAS_A_REVISAR && detecta(
        filas[i],
    ) {
        cuenta_datos(
            filas,
            i + 1,
            filas.len() as int,
            mejor_nombre(filas[i], filas[i].len() as int),
            mejor_precio(filas[i], filas[i].len() as int),
        )
    } else {
        0
    }
}

/// (h, i) va antes que (h2, i2) en el recorrido: hoja por hoja, fila por fila.
pub open spec fn antes(h: int, i: int, h2: int, i2: int) -> bool {
    h < h2 || (h == h2 && i < i2)
}

/// El encabezado elegido: el de más filas de datos debajo, y entre
/// empatados el primero del recorrido.
pub open spec fn es_el_mejor(hojas: Seq<Hoja>, hi: int, fi: int) -> bool {
    &&& 0 <= hi < hojas.len()
    &&& puntaje(hojas[hi], fi) > 0
    &&& forall|h: int, i: int|
        0 <= h < hojas.len() && antes(h, i, hi, fi) ==> #[trigger] puntaje(hojas[h], i) < puntaje(
            hojas[hi],
            fi,
        )
    &&& forall|h: int, i: int|
        0 <= h < hojas.len() ==> #[trigger] puntaje(hojas[h], i) <= puntaje(hojas[hi], fi)
}

pub open spec fn sin_candidatos(hojas: Seq<Hoja>) -> bool {
    forall|h: int, i: int| 0 <= h < hojas.len() ==> #[trigger] puntaje(hojas[h], i) == 0
}

fn contar_datos(filas: &Vec<Vec<Celda>>, desde: usize, columnas: &ColumnasDetectadas) -> (r: usize)
    requires
        desde <= filas@.len(),
    ensures
        r == cuenta_datos(
            filas@.map_values(|f: Vec<Celda>| f@),
            desde as int,
            filas@.len() as int,
            columnas.nombre.indice as int,
            columnas.precio.indice as int,
        ),
{
    let ghost vistas = filas@.map_values(|f: Vec<Celda>| f@);
    let mut cuenta: usize = 0;
    let mut j: usize = desde;
    while j < filas.len()
        invariant
            desde <= j <= filas@.len(),
            vistas == filas@.map_values(|f: Vec<Celda>| f@),
            cuenta == cuenta_datos(
                vistas,
                desde as int,
                j as int,
                columnas.nombre.indice as int,
                columnas.precio.indice as int,
            ),
            cuenta <= j - desde,
        decreases filas@.len() - j,
    {
        assert(vistas[j as int] == filas@[j as int]@);
        if parece_fila_de_datos(&filas[j], columnas) {
            cuenta = cuenta + 1;
        }
        j = j + 1;
    }
    cuenta
}

/// Recorre todas las hojas buscando, en sus primeras filas, un encabezado
/// con columnas de nombre y precio reconocibles, y se queda con el que
/// tenga más filas de datos debajo. Devuelve la estructura y el índice de
/// la hoja elegida. Si ningún candidato tiene datos debajo no asume nada:
/// es un error de validación. Devuelve la estructura, el índice de la hoja
/// elegida y el de su fila de encabezado dentro de la hoja.
pub fn detectar_estructura(hojas: &Vec<Hoja>) -> (r: Result<
    (EstructuraDetectada, usize, usize),
    AppError,
>)
    ensures
        r is Err <==> sin_candidatos(hojas@),
        r matches Err(e) ==> e.tipo() == TipoError::Validacion,
        r matches Ok((est, hi, fi)) ==> {
            &&& es_el_mejor(hojas@, hi as int, fi as int)
            &&& est.hoja@ == hojas@[hi as int].nombre@
            &&& est.fila_encabezado == hojas@[hi as int].inicio->0 + fi + 1
            &&& columnas_de(est.columnas, filas_de(hojas@[hi as int])[fi as int])
        },
{
    let mut mejor: Option<(usize, usize, ColumnasDetectadas, usize)> = None;
    let mut h: usize = 0;
    while h < hojas.len()
        invariant
            h <= hojas@.len(),
            mejor is None ==> forall|hh: int, i: int|
                0 <= hh < h ==> #[trigger] puntaje(hojas@[hh], i) == 0,
            mejor matches Some((bh, bi, bc, bn)) ==> {
                &&& bh < h
                &&& bn == puntaje(hojas@[bh as int], bi as int)
                &&& bn > 0
                &&& columnas_de(bc, filas_de(hojas@[bh as int])[bi as int])
                &&& forall|hh: int, i: int|
                    0 <= hh < hojas@.len() && antes(hh, i, bh as int, bi as int) && hh < h
                        ==> #[trigger] puntaje(hojas@[hh], i) < bn
                &&& forall|hh: int, i: int|
                    0 <= hh < h ==> #[trigger] puntaje(hojas@[hh], i) <= bn
            },
        decreases hojas@.len() - h,
    {
        let hoja = &hojas[h];
        let ghost hv = hojas@[h as int];
        if !hoja.legible || hoja.inicio.is_none() {
            assert forall|i: int| puntaje(hv, i) == 0 by {}
            h = h + 1;
            continue ;
        }
        let tope = if hoja.filas.len() < FILAS_A_REVISAR {
            hoja.filas.len()
        } else {
            FILAS_A_REVISAR
        };
        let mut i: usize = 0;
        while i < tope
            invariant
                h < hojas@.len(),
                hv == hojas@[h as int],
                *hoja == hv,
                hv.legible,
                hv.inicio is Some,
                tope <= hv.filas@.len(),
                tope <= FILAS_A_REVISAR,
                tope == hv.filas@.len() || tope == FILAS_A_REVISAR,
                i <= tope,
                mejor is None ==> forall|hh: int, ii: int|
                    0 <= hh < hojas@.len() && (hh < h || (hh == h && ii < i)) ==> #[trigger] puntaje(
                        hojas@[hh],
                        ii,
                    ) == 0,
                mejor matches Some((bh, bi, bc, bn)) ==> {
                    &&& bh <= h
                    &&& (bh == h ==> bi < i)
                    &&& bn == puntaje(hojas@[bh as int], bi as int)
                    &&& bn > 0
                    &&& columnas_de(bc, filas_de(hojas@[bh as int])[bi as int])
                    &&& forall|hh: int, ii: int|
                        0 <= hh < hojas@.len() && antes(hh, ii, bh as int, bi as int) ==> #[trigger] puntaje(
                            hojas@[hh],
                            ii,
                        ) < bn
                    &&& forall|hh: int, ii: int|
                        0 <= hh < hojas@.len() && (hh < h || (hh == h && ii < i)) ==> #[trigger] puntaje(
                            hojas@[hh],
                            ii,
                        ) <= bn
                },
            decreases tope - i,
        {
            let ghost fv = filas_de(hv)[i as int];
            assert(fv == hoja.filas@[i as int]@);
            match intentar_detectar_columnas(&hoja.filas[i]) {
                None => {
                    assert(puntaje(hv, i as int) == 0);
                },
                Some(columnas) => {
                    let cuenta = contar_datos(&hoja.filas, i + 1, &columnas);
                    assert(puntaje(hv, i as int) == cuenta);
                    if cuenta > 0 {
                        let es_mejor = match &mejor {
                            None => true,
                            Some((_, _, _, bn)) => cuenta > *bn,
                        };
                        if es_mejor {
                            mejor = Some((h, i, columnas, cuenta));
                        }
                    }
                },
            }
            i = i + 1;
        }
        proof {
            assert forall|ii: int| ii >= tope implies puntaje(hv, ii) == 0 by {}
            assert forall|ii: int| ii < 0 implies puntaje(hv, ii) == 0 by {}
        }
        h = h + 1;
    }
    match mejor {
        None => Err(
            validacion(
                "No se pudo detectar la estructura del archivo: ninguna hoja tiene columnas reconocibles de nombre/precio con datos debajo. Revisá que el Excel tenga un encabezado con esas columnas.",
            ),
        ),
        Some((bh, bi, columnas, _)) => {
            let inicio = match hojas[bh].inicio {
                Some(x) => x,
                None => 0,
            };
            assert(es_el_mejor(hojas@, bh as int, bi as int));
            let estructura = EstructuraDetectada {
                hoja: hojas[bh].nombre.as_str().to_owned(),
                fila_encabezado: inicio as i64 + bi as i64 + 1,
                columnas,
            };
            assert(hojas@[bh as int].inicio == Some(inicio));
            assert({
                &&& es_el_mejor(hojas@, bh as int, bi as int)
                &&& estructura.hoja@ == hojas@[bh as int].nombre@
                &&& estructura.fila_encabezado == hojas@[bh as int].inicio->0 + bi + 1
                &&& columnas_de(estructura.columnas, filas_de(hojas@[bh as int])[bi as int])
            });
            Ok((estructura, bh, bi))
        },
    }
}


pub open spec fn texto_en(fila: Seq<Celda>, i: int) -> Option<Seq<char>> {
    if 0 <= i < fila.len() {
        texto_de_celda(fila[i])
    } else {
        None
    }
}

/// La fila cruda que sale de una fila de la hoja con las columnas detectadas.
pub open spec fn fila_cruda_de(fila: Seq<Celda>, c: ColumnasDetectadas, fila_excel: int, r: FilaCruda) -> bool {
    let p = c.precio.indice as int;
    &&& r.fila_excel == fila_excel
    &&& vista(r.codigo) == match c.codigo {
        Some(col) => texto_en(fila, col.indice as int),
        None => None,
    }
    &&& vista(r.nombre) == texto_en(fila, c.nombre.indice as int)
    &&& r.precio_centavos == if 0 <= p < fila.len() && !fila[p].vacia {
        fila[p].centavos
    } else {
        None
    }
    &&& vista(r.precio_texto_invalido) == if 0 <= p < fila.len() && !fila[p].vacia
        && fila[p].centavos is None {
        texto_de_celda(fila[p])
    } else {
        None
    }
}

fn texto_en_exec(fila: &Vec<Celda>, i: usize) -> (r: Option<String>)
    ensures
        vista(r) == texto_en(fila@, i as int),
{
    if i < fila.len() {
        texto_celda(&fila[i])
    } else {
        None
    }
}

fn leer_fila(fila: &Vec<Celda>, columnas: &ColumnasDetectadas, fila_excel: i64) -> (r: FilaCruda)
    ensures
        fila_cruda_de(fila@, *columnas, fila_excel as int, r),
{
    let codigo = match &columnas.codigo {
        Some(col) => texto_en_exec(fila, col.indice),
        None => None,
    };
    let nombre = texto_en_exec(fila, columnas.nombre.indice);
    let p = columnas.precio.indice;
    let (precio_centavos, precio_texto_invalido) = if p < fila.len() && !fila[p].vacia {
        match fila[p].centavos {
            Some(v) => (Some(v), None),
            None => (None, texto_celda(&fila[p])),
        }
    } else {
        (None, None)
    };
    FilaCruda { fila_excel, codigo, nombre, precio_centavos, precio_texto_invalido }
}

/// La primera fila (índice dentro de la hoja) que queda debajo del encabezado.
pub open spec fn primera_fila_de_datos(inicio: int, fila_encabezado: int) -> int {
    if fila_encabezado - inicio > 0 {
        fila_encabezado - inicio
    } else {
        0
    }
}

/// Las filas de datos de la hoja: todas las que están debajo de la fila de
/// encabezado, en orden, cada una con su número real de fila del Excel.
pub fn extraer_filas(hoja: &Hoja, estructura: &EstructuraDetectada) -> (r: Vec<FilaCruda>)
    requires
        hoja.filas@.len() <= u32::MAX,
    ensures
        ({
            let inicio = match hoja.inicio {
                Some(x) => x as int,
                None => 0,
            };
            let primera = primera_fila_de_datos(inicio, estructura.fila_encabezado as int);
            let n = hoja.filas@.len() as int;
            &&& r@.len() == if n > primera {
                n - primera
            } else {
                0
            }
            &&& forall|k: int|
                0 <= k < r@.len() ==> fila_cruda_de(
                    hoja.filas@[primera + k]@,
                    estructura.columnas,
                    inicio + primera + k + 1,
                    #[trigger] r@[k],
                )
        }),
{
    let inicio: i64 = match hoja.inicio {
        Some(x) => x as i64,
        None => 0,
    };
    let ghost primera = primera_fila_de_datos(inicio as int, estructura.fila_encabezado as int);
    let mut r: Vec<FilaCruda> = Vec::new();
    let mut i: usize = 0;
    while i < hoja.filas.len()
        invariant
            hoja.filas@.len() <= u32::MAX,
            0 <= inicio <= u32::MAX,
            inicio == match hoja.inicio {
                Some(x) => x as int,
                None => 0,
            },
            primera == primera_fila_de_datos(inicio as int, estructura.fila_encabezado as int),
            i <= hoja.filas@.len(),
            r@.len() == if i > primera {
                i - primera
            } else {
                0
            },
            forall|k: int|
                0 <= k < r@.len() ==> fila_cruda_de(
                    hoja.filas@[primera + k]@,
                    estructura.columnas,
                    inicio + primera + k + 1,
                    #[trigger] r@[k],
                ),
        decreases hoja.filas@.len() - i,
    {
        let fila_excel: i64 = inicio + i as i64 + 1;
        if fila_excel > estructura.fila_encabezado {
            assert(i >= primera);
            let fila = leer_fila(&hoja.filas[i], &estructura.columnas, fila_excel);
            r.push(fila);
        } else {
            assert(i < primera);
        }
        i = i + 1;
    }
    r
}

} // verus!
