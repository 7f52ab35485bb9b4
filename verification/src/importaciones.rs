//! Importación de listas de precios: clasificación de cada fila leída,
//! categoría arrastrada desde el último título de sección, marcas de
//! duplicados dentro del archivo, coincidencias con el catálogo, decisión
//! automática para las filas limpias, resumen y resolución de filas.
//! Nunca se fusiona ni se descarta nada en silencio.
use sha2::Digest;
use vstd::prelude::*;

use crate::error::{validacion, AppError, TipoError};
use crate::lector_excel::{
    columnas_de, cuenta_datos, detectar_estructura, es_el_mejor, extraer_filas, fila_cruda_de, filas_de,
    mejor_nombre, mejor_precio, primera_fila_de_datos, puntaje, sin_candidatos, Hoja,
};
use crate::modelos::{EstructuraDetectada, FilaCruda, ImportacionFila, ResolverFila, ResumenImportacion};
use crate::sumas::{lema_suma_push, suma};
use crate::texto::{
    codigo_normalizado, concatenar, copiar_opcional, esta_en_blanco, mismo_texto,
    normalizar_codigo, normalizar_para_comparar, recortado, recorte, solo_espacios,
    texto_para_comparar, vista,
};

verus! {

/// Cómo quedó clasificada una fila.
#[derive(Debug, Clone, Copy, PartialEq, Eq, Structural)]
pub enum Clasificacion {
    ProductoValido,
    Seccion,
    Ignorada,
    RequiereRevision,
    Error,
}

impl Clasificacion {
    pub open spec fn texto(self) -> Seq<char> {
        match self {
            Clasificacion::ProductoValido => "producto_valido"@,
            Clasificacion::Seccion => "seccion"@,
            Clasificacion::Ignorada => "ignorada"@,
            Clasificacion::RequiereRevision => "requiere_revision"@,
            Clasificacion::Error => "error"@,
        }
    }

    /// El nombre con que se guarda en `importacion_filas.clasificacion`.
    pub fn como_texto(&self) -> (r: &'static str)
        ensures
            r@ == self.texto(),
    {
        match self {
            Clasificacion::ProductoValido => "producto_valido",
            Clasificacion::Seccion => "seccion",
            Clasificacion::Ignorada => "ignorada",
            Clasificacion::RequiereRevision => "requiere_revision",
            Clasificacion::Error => "error",
        }
    }
}

/// La regla de clasificación: todo vacío se ignora; un precio que no es
/// número es un error; nombre solo (sin código ni precio) es un título de
/// sección; sin nombre va a revisión; lo demás es un producto válido.
pub open spec fn clasificacion_de(c: FilaCruda) -> Clasificacion {
    if c.codigo is None && c.nombre is None && c.precio_centavos is None
        && c.precio_texto_invalido is None {
        Clasificacion::Ignorada
    } else if c.precio_texto_invalido is Some {
        Clasificacion::Error
    } else if c.codigo is None && c.precio_centavos is None && c.nombre is Some {
        Clasificacion::Seccion
    } else if c.nombre is None {
        Clasificacion::RequiereRevision
    } else {
        Clasificacion::ProductoValido
    }
}

/// El motivo que acompaña a una fila con error de precio.
pub open spec fn motivo_de(c: FilaCruda) -> Option<Seq<char>> {
    if clasificacion_de(c) == Clasificacion::Error {
        Some("El precio no es un número válido: \""@ + c.precio_texto_invalido->0@ + "\"."@)
    } else {
        None
    }
}

/// Clasifica una fila cruda; si es un error, con su motivo.
pub fn clasificar(cruda: &FilaCruda) -> (r: (Clasificacion, Option<String>))
    ensures
        r.0 == clasificacion_de(*cruda),
        vista(r.1) == motivo_de(*cruda),
{
    let todo_vacio = cruda.codigo.is_none() && cruda.nombre.is_none()
        && cruda.precio_centavos.is_none() && cruda.precio_texto_invalido.is_none();
    if todo_vacio {
        return (Clasificacion::Ignorada, None);
    }
    if let Some(texto) = &cruda.precio_texto_invalido {
        let inicio = concatenar("El precio no es un número válido: \"", texto.as_str());
        let motivo = concatenar(inicio.as_str(), "\".");
        return (Clasificacion::Error, Some(motivo));
    }
    if cruda.codigo.is_none() && cruda.precio_centavos.is_none() && cruda.nombre.is_some() {
        return (Clasificacion::Seccion, None);
    }
    if cruda.nombre.is_none() {
        return (Clasificacion::RequiereRevision, None);
    }
    (Clasificacion::ProductoValido, None)
}

/// Una fila con su clasificación, su categoría de referencia y sus marcas
/// de duplicado.
#[derive(Debug, Clone, PartialEq, Eq)]
pub struct FilaClasificada {
    pub cruda: FilaCruda,
    pub categoria_excel_texto: Option<String>,
    pub clasificacion: Clasificacion,
    pub motivo_error: Option<String>,
    pub es_duplicado_codigo: bool,
    pub es_posible_duplicado_nombre: bool,
}

/// El nombre del último título de sección antes de la fila `i` (`None`
/// si todavía no hubo ninguno).
pub open spec fn seccion_vigente(filas: Seq<FilaCruda>, i: int) -> Option<Seq<char>>
    decreases i,
{
    if i <= 0 {
        None
    } else if clasificacion_de(filas[i - 1]) == Clasificacion::Seccion {
        vista(filas[i - 1].nombre)
    } else {
        seccion_vigente(filas, i - 1)
    }
}

/// La fila `f` es la `i`-ésima de `filas` clasificada (sin mirar todavía
/// las marcas de duplicado).
pub open spec fn clasificada_como(filas: Seq<FilaCruda>, i: int, f: FilaClasificada) -> bool {
    &&& f.cruda == filas[i]
    &&& f.clasificacion == clasificacion_de(filas[i])
    &&& vista(f.motivo_error) == motivo_de(filas[i])
    &&& vista(f.categoria_excel_texto) == if f.clasificacion == Clasificacion::ProductoValido {
        seccion_vigente(filas, i)
    } else {
        None
    }
}

/// Una fila que es título de sección: trae nombre y nada más (ni código,
/// ni precio, ni un precio ilegible).
pub open spec fn es_titulo_de_seccion(c: FilaCruda) -> bool {
    &&& c.nombre is Some
    &&& c.codigo is None
    &&& c.precio_centavos is None
    &&& c.precio_texto_invalido is None
}

proof fn lema_seccion_desde(filas: Seq<FilaCruda>, j: int, i: int)
    requires
        0 <= j < i <= filas.len(),
        es_titulo_de_seccion(filas[j]),
        forall|k: int| j < k < i ==> !es_titulo_de_seccion(#[trigger] filas[k]),
    ensures
        seccion_vigente(filas, i) == vista(filas[j].nombre),
    decreases i,
{
    if i > j + 1 {
        assert(!es_titulo_de_seccion(filas[i - 1]));
        lema_seccion_desde(filas, j, i - 1);
    }
}

proof fn lema_sin_seccion(filas: Seq<FilaCruda>, i: int)
    requires
        0 <= i <= filas.len(),
        forall|k: int| 0 <= k < i ==> !es_titulo_de_seccion(#[trigger] filas[k]),
    ensures
        seccion_vigente(filas, i) is None,
    decreases i,
{
    if i > 0 {
        assert(!es_titulo_de_seccion(filas[i - 1]));
        lema_sin_seccion(filas, i - 1);
    }
}

/// Una fila válida lleva como categoría el nombre del último título de
/// sección que la precede, haya las filas que haya en el medio (productos
/// incluidos); si ningún título la precede, no lleva categoría. Las demás
/// filas nunca llevan categoría.
pub proof fn ley_categoria_es_la_ultima_seccion(filas: Seq<FilaCruda>, i: int, f: FilaClasificada)
    requires
        0 <= i < filas.len(),
        clasificada_como(filas, i, f),
    ensures
        f.clasificacion != Clasificacion::ProductoValido ==> f.categoria_excel_texto is None,
        f.clasificacion == Clasificacion::ProductoValido ==> forall|j: int|
            0 <= j < i && es_titulo_de_seccion(#[trigger] filas[j]) && (forall|k: int|
                j < k < i ==> !es_titulo_de_seccion(#[trigger] filas[k])) ==> vista(
                f.categoria_excel_texto,
            ) == vista(filas[j].nombre),
        f.clasificacion == Clasificacion::ProductoValido && (forall|k: int|
            0 <= k < i ==> !es_titulo_de_seccion(#[trigger] filas[k])) ==> f.categoria_excel_texto is None,
{
    if f.clasificacion == Clasificacion::ProductoValido {
        assert forall|j: int|
            0 <= j < i && es_titulo_de_seccion(#[trigger] filas[j]) && (forall|k: int|
                j < k < i ==> !es_titulo_de_seccion(#[trigger] filas[k])) implies vista(
                f.categoria_excel_texto,
            ) == vista(filas[j].nombre) by {
            lema_seccion_desde(filas, j, i);
        }
        if forall|k: int| 0 <= k < i ==> !es_titulo_de_seccion(#[trigger] filas[k]) {
            lema_sin_seccion(filas, i);
        }
    }
}

/// Clasifica todas las filas en orden, arrastrando la categoría desde el
/// último título de sección visto; solo las filas válidas la reciben.
pub fn clasificar_todas(filas_crudas: Vec<FilaCruda>) -> (r: Vec<FilaClasificada>)
    ensures
        r@.len() == filas_crudas@.len(),
        forall|i: int|
            0 <= i < r@.len() ==> clasificada_como(filas_crudas@, i, #[trigger] r@[i])
                && !r@[i].es_duplicado_codigo && !r@[i].es_posible_duplicado_nombre,
{
    let ghost filas = filas_crudas@;
    let mut categoria_vigente: Option<String> = None;
    let mut r: Vec<FilaClasificada> = Vec::new();
    for cruda in it: filas_crudas
        invariant
            filas == it.seq(),
            r@.len() == it.index(),
            vista(categoria_vigente) == seccion_vigente(filas, it.index() as int),
            forall|i: int|
                0 <= i < r@.len() ==> clasificada_como(filas, i, #[trigger] r@[i])
                    && !r@[i].es_duplicado_codigo && !r@[i].es_posible_duplicado_nombre,
    {
        let ghost i = it.index() as int;
        assert(cruda == filas[i]);
        let (clasificacion, motivo_error) = clasificar(&cruda);
        if clasificacion == Clasificacion::Seccion {
            categoria_vigente = copiar_opcional(&cruda.nombre);
        }
        let categoria_excel_texto = if clasificacion == Clasificacion::ProductoValido {
            copiar_opcional(&categoria_vigente)
        } else {
            None
        };
        r.push(
            FilaClasificada {
                cruda,
                categoria_excel_texto,
                clasificacion,
                motivo_error,
                es_duplicado_codigo: false,
                es_posible_duplicado_nombre: false,
            },
        );
    }
    r
}

/// Clave para comparar códigos: solo filas válidas con código.
pub open spec fn clave_codigo(f: FilaClasificada) -> Option<Seq<char>> {
    if f.clasificacion == Clasificacion::ProductoValido && f.cruda.codigo is Some {
        Some(codigo_normalizado(f.cruda.codigo->0@))
    } else {
        None
    }
}

/// Clave para comparar nombres: solo filas válidas con nombre.
pub open spec fn clave_nombre(f: FilaClasificada) -> Option<Seq<char>> {
    if f.clasificacion == Clasificacion::ProductoValido && f.cruda.nombre is Some {
        Some(texto_para_comparar(f.cruda.nombre->0@))
    } else {
        None
    }
}

/// La clave de la fila `i` existe y otra fila tiene la misma.
pub open spec fn repetida(claves: Seq<Option<Seq<char>>>, i: int) -> bool {
    claves[i] is Some && exists|j: int| 0 <= j < claves.len() && j != i && #[trigger] claves[j] == claves[i]
}

pub open spec fn claves_codigo(filas: Seq<FilaClasificada>) -> Seq<Option<Seq<char>>> {
    filas.map_values(|f: FilaClasificada| clave_codigo(f))
}

pub open spec fn claves_nombre(filas: Seq<FilaClasificada>) -> Seq<Option<Seq<char>>> {
    filas.map_values(|f: FilaClasificada| clave_nombre(f))
}

fn calcular_claves(filas: &Vec<FilaClasificada>) -> (r: (Vec<Option<String>>, Vec<Option<String>>))
    ensures
        r.0@.len() == filas@.len(),
        r.1@.len() == filas@.len(),
        forall|i: int| 0 <= i < filas@.len() ==> vista(#[trigger] r.0@[i]) == clave_codigo(filas@[i]),
        forall|i: int| 0 <= i < filas@.len() ==> vista(#[trigger] r.1@[i]) == clave_nombre(filas@[i]),
{
    let mut codigos: Vec<Option<String>> = Vec::new();
    let mut nombres: Vec<Option<String>> = Vec::new();
    let mut i: usize = 0;
    while i < filas.len()
        invariant
            i <= filas@.len(),
            codigos@.len() == i,
            nombres@.len() == i,
            forall|k: int| 0 <= k < i ==> vista(#[trigger] codigos@[k]) == clave_codigo(filas@[k]),
            forall|k: int| 0 <= k < i ==> vista(#[trigger] nombres@[k]) == clave_nombre(filas@[k]),
        decreases filas@.len() - i,
    {
        let f = &filas[i];
        let valida = f.clasificacion == Clasificacion::ProductoValido;
        let c = match &f.cruda.codigo {
            Some(codigo) => if valida {
                Some(normalizar_codigo(codigo.as_str()))
            } else {
                None
            },
            None => None,
        };
        let n = match &f.cruda.nombre {
            Some(nombre) => if valida {
                Some(normalizar_para_comparar(nombre.as_str()))
            } else {
                None
            },
            None => None,
        };
        codigos.push(c);
        nombres.push(n);
        i = i + 1;
    }
    (codigos, nombres)
}

fn misma_clave(a: &Option<String>, b: &Option<String>) -> (r: bool)
    ensures
        r == (a is Some && vista(*a) == vista(*b)),
{
    match (a, b) {
        (Some(x), Some(y)) => *x == *y,
        _ => false,
    }
}

fn es_repetida(claves: &Vec<Option<String>>, i: usize) -> (r: bool)
    requires
        i < claves@.len(),
    ensures
        r == repetida(claves@.map_values(|o: Option<String>| vista(o)), i as int),
{
    let ghost vistas = claves@.map_values(|o: Option<String>| vista(o));
    if claves[i].is_none() {
        return false;
    }
    let mut j: usize = 0;
    while j < claves.len()
        invariant
            i < claves@.len(),
            j <= claves@.len(),
            vistas == claves@.map_values(|o: Option<String>| vista(o)),
            vistas[i as int] is Some,
            forall|k: int| 0 <= k < j && k != i ==> #[trigger] vistas[k] != vistas[i as int],
        decreases claves@.len() - j,
    {
        if j != i && misma_clave(&claves[i], &claves[j]) {
            assert(vistas[j as int] == vistas[i as int]);
            return true;
        }
        j = j + 1;
    }
    false
}

/// Marca los duplicados dentro del mismo archivo, solo entre filas
/// válidas: mismo código normalizado, o mismo nombre normalizado. Nunca
/// fusiona: solo deja la marca en todas las filas del grupo.
pub fn marcar_duplicados_internos(filas: &mut Vec<FilaClasificada>)
    ensures
        final(filas)@.len() == old(filas)@.len(),
        forall|i: int|
            0 <= i < final(filas)@.len() ==> {
                let f = #[trigger] final(filas)@[i];
                let o = old(filas)@[i];
                &&& f.cruda == o.cruda
                &&& f.categoria_excel_texto == o.categoria_excel_texto
                &&& f.clasificacion == o.clasificacion
                &&& f.motivo_error == o.motivo_error
                &&& f.es_duplicado_codigo == repetida(claves_codigo(old(filas)@), i)
                &&& f.es_posible_duplicado_nombre == repetida(claves_nombre(old(filas)@), i)
            },
{
    let ghost de_entrada = filas@;
    let (codigos, nombres) = calcular_claves(filas);
    proof {
        assert(codigos@.map_values(|o: Option<String>| vista(o)) =~= claves_codigo(de_entrada));
        assert(nombres@.map_values(|o: Option<String>| vista(o)) =~= claves_nombre(de_entrada));
    }
    let mut i: usize = 0;
    while i < filas.len()
        invariant
            filas@.len() == de_entrada.len(),
            codigos@.len() == de_entrada.len(),
            nombres@.len() == de_entrada.len(),
            codigos@.map_values(|o: Option<String>| vista(o)) == claves_codigo(de_entrada),
            nombres@.map_values(|o: Option<String>| vista(o)) == claves_nombre(de_entrada),
            i <= filas@.len(),
            forall|k: int|
                0 <= k < filas@.len() ==> {
                    let f = #[trigger] filas@[k];
                    let o = de_entrada[k];
                    &&& f.cruda == o.cruda
                    &&& f.categoria_excel_texto == o.categoria_excel_texto
                    &&& f.clasificacion == o.clasificacion
                    &&& f.motivo_error == o.motivo_error
                    &&& k < i ==> f.es_duplicado_codigo == repetida(claves_codigo(de_entrada), k)
                    &&& k < i ==> f.es_posible_duplicado_nombre == repetida(
                        claves_nombre(de_entrada),
                        k,
                    )
                },
        decreases de_entrada.len() - i,
    {
        let dup_codigo = es_repetida(&codigos, i);
        let dup_nombre = es_repetida(&nombres, i);
        filas[i].es_duplicado_codigo = dup_codigo;
        filas[i].es_posible_duplicado_nombre = dup_nombre;
        i = i + 1;
    }
}

/// Dos filas con la misma clave quedan marcadas las dos.
pub proof fn ley_duplicados_se_marcan_juntos(claves: Seq<Option<Seq<char>>>, i: int, j: int)
    requires
        0 <= i < claves.len(),
        0 <= j < claves.len(),
        i != j,
        claves[i] is Some,
        claves[i] == claves[j],
    ensures
        repetida(claves, i),
        repetida(claves, j),
{
    assert(claves[j] == claves[i]);
}

/// El id del último producto existente cuyo código legado normalizado es
/// `clave`, entre los primeros `k` (el último pisa a los anteriores).
pub open spec fn ultima_coincidencia(existentes: Seq<(i64, Option<String>)>, clave: Seq<char>, k: int) -> Option<
    i64,
>
    decreases k,
{
    if k <= 0 {
        None
    } else if existentes[k - 1].1 is Some && codigo_normalizado(existentes[k - 1].1->0@) == clave {
        Some(existentes[k - 1].0)
    } else {
        ultima_coincidencia(existentes, clave, k - 1)
    }
}

/// La coincidencia sugerida con el catálogo: solo para filas válidas con código.
pub open spec fn coincidencia_de(f: FilaClasificada, existentes: Seq<(i64, Option<String>)>) -> Option<
    i64,
> {
    match clave_codigo(f) {
        Some(c) => ultima_coincidencia(existentes, c, existentes.len() as int),
        None => None,
    }
}

/// Las filas limpias arrancan con la decisión "crear_nuevo".
pub open spec fn decision_automatica(f: FilaClasificada, coincide: Option<i64>) -> bool {
    f.clasificacion == Clasificacion::ProductoValido && !f.es_duplicado_codigo
        && !f.es_posible_duplicado_nombre && coincide is None
}

/// Una fila lista para guardarse en el borrador de la importación.
#[derive(Debug, Clone, PartialEq, Eq)]
pub struct FilaPreparada {
    pub fila: FilaClasificada,
    pub coincide_producto_existente_id: Option<i64>,
    /// Arranca con la decisión "crear_nuevo" ya tomada.
    pub decision_automatica: bool,
}

/// El código legado normalizado de cada producto existente.
fn claves_existentes(existentes: &Vec<(i64, Option<String>)>) -> (r: Vec<Option<String>>)
    ensures
        r@.len() == existentes@.len(),
        forall|k: int|
            0 <= k < r@.len() ==> vista(#[trigger] r@[k]) == match existentes@[k].1 {
                Some(c) => Some(codigo_normalizado(c@)),
                None => None,
            },
{
    let mut r: Vec<Option<String>> = Vec::new();
    let mut k: usize = 0;
    while k < existentes.len()
        invariant
            k <= existentes@.len(),
            r@.len() == k,
            forall|j: int|
                0 <= j < k ==> vista(#[trigger] r@[j]) == match existentes@[j].1 {
                    Some(c) => Some(codigo_normalizado(c@)),
                    None => None,
                },
        decreases existentes@.len() - k,
    {
        let c = match &existentes[k].1 {
            Some(codigo) => Some(normalizar_codigo(codigo.as_str())),
            None => None,
        };
        r.push(c);
        k = k + 1;
    }
    r
}

fn buscar_coincidencia(
    existentes: &Vec<(i64, Option<String>)>,
    claves: &Vec<Option<String>>,
    clave: &String,
) -> (r: Option<i64>)
    requires
        claves@.len() == existentes@.len(),
        forall|k: int|
            0 <= k < claves@.len() ==> vista(#[trigger] claves@[k]) == match existentes@[k].1 {
                Some(c) => Some(codigo_normalizado(c@)),
                None => None,
            },
    ensures
        r == ultima_coincidencia(existentes@, clave@, existentes@.len() as int),
{
    let mut k: usize = claves.len();
    while k > 0
        invariant
            k <= claves@.len(),
            claves@.len() == existentes@.len(),
            forall|j: int|
                0 <= j < claves@.len() ==> vista(#[trigger] claves@[j]) == match existentes@[j].1 {
                    Some(c) => Some(codigo_normalizado(c@)),
                    None => None,
                },
            ultima_coincidencia(existentes@, clave@, existentes@.len() as int)
                == ultima_coincidencia(existentes@, clave@, k as int),
        decreases k,
    {
        assert(vista(claves@[k - 1]) == match existentes@[k - 1].1 {
            Some(c) => Some(codigo_normalizado(c@)),
            None => None,
        });
        if let Some(c) = &claves[k - 1] {
            if *c == *clave {
                return Some(existentes[k - 1].0);
            }
        }
        k = k - 1;
    }
    None
}

/// Lo que `procesar_archivo` guarda de cada fila leída: clasificación,
/// categoría, duplicados internos, coincidencia con el catálogo (por
/// código legado) y decisión automática. Un archivo sin filas de datos es
/// un error de validación.
pub fn preparar_filas(filas_crudas: Vec<FilaCruda>, existentes: &Vec<(i64, Option<String>)>) -> (r:
    Result<Vec<FilaPreparada>, AppError>)
    ensures
        r is Err <==> filas_crudas@.len() == 0,
        r matches Err(e) ==> e.tipo() == TipoError::Validacion,
        r matches Ok(filas) ==> {
            &&& filas@.len() == filas_crudas@.len()
            &&& forall|i: int|
                0 <= i < filas@.len() ==> {
                    let p = #[trigger] filas@[i];
                    let todas = filas@.map_values(|q: FilaPreparada| q.fila);
                    &&& clasificada_como(filas_crudas@, i, p.fila)
                    &&& p.fila.es_duplicado_codigo == repetida(claves_codigo(todas), i)
                    &&& p.fila.es_posible_duplicado_nombre == repetida(claves_nombre(todas), i)
                    &&& p.coincide_producto_existente_id == coincidencia_de(p.fila, existentes@)
                    &&& p.decision_automatica == decision_automatica(
                        p.fila,
                        p.coincide_producto_existente_id,
                    )
                }
        },
{
    if filas_crudas.len() == 0 {
        return Err(
            validacion(
                "El archivo no tiene ninguna fila de datos debajo del encabezado detectado.",
            ),
        );
    }
    let ghost crudas = filas_crudas@;
    let mut clasificadas = clasificar_todas(filas_crudas);
    let ghost antes = clasificadas@;
    marcar_duplicados_internos(&mut clasificadas);
    let ghost marcadas = clasificadas@;
    proof {
        assert(claves_codigo(marcadas) =~= claves_codigo(antes));
        assert(claves_nombre(marcadas) =~= claves_nombre(antes));
    }
    let claves = claves_existentes(existentes);
    let mut r: Vec<FilaPreparada> = Vec::new();
    for fila in it: clasificadas
        invariant
            marcadas == it.seq(),
            marcadas.len() == crudas.len(),
            claves_codigo(marcadas) == claves_codigo(antes),
            claves_nombre(marcadas) == claves_nombre(antes),
            forall|i: int|
                0 <= i < marcadas.len() ==> {
                    let f = #[trigger] marcadas[i];
                    &&& clasificada_como(crudas, i, f)
                    &&& f.es_duplicado_codigo == repetida(claves_codigo(antes), i)
                    &&& f.es_posible_duplicado_nombre == repetida(claves_nombre(antes), i)
                },
            claves@.len() == existentes@.len(),
            forall|k: int|
                0 <= k < claves@.len() ==> vista(#[trigger] claves@[k]) == match existentes@[k].1 {
                    Some(c) => Some(codigo_normalizado(c@)),
                    None => None,
                },
            r@.len() == it.index(),
            forall|i: int|
                0 <= i < r@.len() ==> {
                    let p = #[trigger] r@[i];
                    &&& p.fila == marcadas[i]
                    &&& p.coincide_producto_existente_id == coincidencia_de(p.fila, existentes@)
                    &&& p.decision_automatica == decision_automatica(
                        p.fila,
                        p.coincide_producto_existente_id,
                    )
                },
    {
        let ghost i = it.index() as int;
        assert(fila == marcadas[i]);
        let coincide = if fila.clasificacion == Clasificacion::ProductoValido {
            match &fila.cruda.codigo {
                Some(codigo) => {
                    let clave = normalizar_codigo(codigo.as_str());
                    buscar_coincidencia(existentes, &claves, &clave)
                },
                None => None,
            }
        } else {
            None
        };
        let decision = fila.clasificacion == Clasificacion::ProductoValido
            && !fila.es_duplicado_codigo && !fila.es_posible_duplicado_nombre && coincide.is_none();
        r.push(FilaPreparada { fila, coincide_producto_existente_id: coincide, decision_automatica: decision });
    }
    proof {
        let todas = r@.map_values(|q: FilaPreparada| q.fila);
        assert(todas =~= marcadas);
    }
    Ok(r)
}


/// El resumen en hexadecimal (minúsculas) del SHA-256 de los bytes.
pub uninterp spec fn sha256_hex(bytes: Seq<u8>) -> Seq<char>;

/// Llama a `sha2::Sha256` sobre los bytes del archivo y lo escribe en
/// hexadecimal con `{:x}`: el resultado queda nombrado por `sha256_hex`, y
/// son 64 dígitos en minúscula (32 bytes, dos dígitos cada uno).
#[verifier::external_body]
fn huella_sha256(bytes: &[u8]) -> (r: String)
    ensures
        r@ == sha256_hex(bytes@),
        r@.len() == 64,
        forall|i: int| 0 <= i < 64 ==> "0123456789abcdef"@.contains(#[trigger] r@[i]),
{
    let mut hasher = sha2::Sha256::new();
    hasher.update(bytes);
    format!("{:x}", hasher.finalize())
}

/// El borrador de una importación, antes de guardarse.
#[derive(Debug, Clone, PartialEq, Eq)]
pub struct BorradorImportacion {
    pub archivo_hash: String,
    pub estructura: EstructuraDetectada,
    /// La hoja elegida, dentro del libro.
    pub indice_hoja: usize,
    pub filas: Vec<FilaPreparada>,
}

/// La parte de `procesar_archivo` que decide: la huella del archivo, la
/// estructura detectada en sus hojas, las filas de datos debajo del
/// encabezado, y cada fila clasificada, con sus duplicados, su
/// coincidencia con el catálogo (`existentes`: id y código legado) y su
/// decisión automática. Nada de esto toca todavía los productos.
pub fn procesar_archivo(bytes: &[u8], hojas: &Vec<Hoja>, existentes: &Vec<(i64, Option<String>)>) -> (r:
    Result<BorradorImportacion, AppError>)
    requires
        forall|h: int| 0 <= h < hojas@.len() ==> (#[trigger] hojas@[h]).filas@.len() <= u32::MAX,
    ensures
        r is Err <==> sin_candidatos(hojas@),
        r matches Err(e) ==> e.tipo() == TipoError::Validacion,
        r matches Ok(b) ==> {
            &&& b.archivo_hash@ == sha256_hex(bytes@)
            &&& b.indice_hoja < hojas@.len()
            &&& b.estructura.hoja@ == hojas@[b.indice_hoja as int].nombre@
            &&& exists|fi: int|
                #[trigger] es_el_mejor(hojas@, b.indice_hoja as int, fi)
                    && b.estructura.fila_encabezado == hojas@[b.indice_hoja as int].inicio->0 + fi + 1
                    && columnas_de(b.estructura.columnas, filas_de(hojas@[b.indice_hoja as int])[fi])
            &&& b.filas@.len() > 0
            &&& {
                let hoja = hojas@[b.indice_hoja as int];
                let inicio = hoja.inicio->0 as int;
                let primera = primera_fila_de_datos(inicio, b.estructura.fila_encabezado as int);
                &&& b.filas@.len() == hoja.filas@.len() - primera
                &&& forall|k: int|
                    0 <= k < b.filas@.len() ==> fila_cruda_de(
                        hoja.filas@[primera + k]@,
                        b.estructura.columnas,
                        inicio + primera + k + 1,
                        (#[trigger] b.filas@[k]).fila.cruda,
                    )
                &&& forall|i: int|
                    0 <= i < b.filas@.len() ==> {
                        let p = #[trigger] b.filas@[i];
                        let todas = b.filas@.map_values(|q: FilaPreparada| q.fila);
                        let crudas = todas.map_values(|f: FilaClasificada| f.cruda);
                        &&& clasificada_como(crudas, i, p.fila)
                        &&& p.fila.es_duplicado_codigo == repetida(claves_codigo(todas), i)
                        &&& p.fila.es_posible_duplicado_nombre == repetida(claves_nombre(todas), i)
                        &&& p.coincide_producto_existente_id == coincidencia_de(p.fila, existentes@)
                        &&& p.decision_automatica == decision_automatica(
                            p.fila,
                            p.coincide_producto_existente_id,
                        )
                    }
            }
        },
{
    let archivo_hash = huella_sha256(bytes);
    let (estructura, indice_hoja, fila_rel) = detectar_estructura(hojas)?;
    let hoja = &hojas[indice_hoja];
    proof {
        assert(hoja.filas@.len() <= u32::MAX);
    }
    proof {
        let filas = filas_de(*hoja);
        let fi = fila_rel as int;
        assert(puntaje(*hoja, fi) > 0);
        assert(cuenta_datos(
            filas,
            fi + 1,
            filas.len() as int,
            mejor_nombre(filas[fi], filas[fi].len() as int),
            mejor_precio(filas[fi], filas[fi].len() as int),
        ) > 0);
        assert(fi + 1 < filas.len());
    }
    let crudas = extraer_filas(hoja, &estructura);
    let ghost vistas_crudas = crudas@;
    let filas = preparar_filas(crudas, existentes)?;
    proof {
        let todas = filas@.map_values(|q: FilaPreparada| q.fila);
        let cs = todas.map_values(|f: FilaClasificada| f.cruda);
        assert forall|i: int| 0 <= i < cs.len() implies cs[i] == vistas_crudas[i] by {
            assert(clasificada_como(vistas_crudas, i, filas@[i].fila));
        }
        assert(cs =~= vistas_crudas);
        assert(es_el_mejor(hojas@, indice_hoja as int, fila_rel as int));
    }
    Ok(BorradorImportacion { archivo_hash, estructura, indice_hoja, filas })
}

/// Cuántas filas cumplen `p`.
pub open spec fn cuenta(filas: Seq<ImportacionFila>, p: spec_fn(ImportacionFila) -> bool) -> int
    decreases filas.len(),
{
    if filas.len() == 0 {
        0
    } else {
        cuenta(filas.drop_last(), p) + if p(filas.last()) {
            1int
        } else {
            0int
        }
    }
}

pub proof fn lema_cuenta_take(filas: Seq<ImportacionFila>, p: spec_fn(ImportacionFila) -> bool, i: int)
    requires
        0 <= i < filas.len(),
    ensures
        cuenta(filas.take(i + 1), p) == cuenta(filas.take(i), p) + if p(filas[i]) {
            1int
        } else {
            0int
        },
        0 <= cuenta(filas.take(i), p) <= i,
    decreases i,
{
    assert(filas.take(i + 1).drop_last() =~= filas.take(i));
    if i > 0 {
        lema_cuenta_take(filas, p, i - 1);
    } else {
        assert(filas.take(0).len() == 0);
    }
}

pub open spec fn es_clase(f: ImportacionFila, c: Seq<char>) -> bool {
    f.clasificacion@ == c
}

pub open spec fn es_pendiente(f: ImportacionFila) -> bool {
    (es_clase(f, "producto_valido"@) || es_clase(f, "requiere_revision"@)) && f.resuelta_en is None
}

/// Cada campo del resumen cuenta las filas que cumplen su condición.
pub open spec fn resumen_de(r: ResumenImportacion, filas: Seq<ImportacionFila>) -> bool {
    &&& r.total == filas.len()
    &&& r.validos == cuenta(filas, |f: ImportacionFila| es_clase(f, "producto_valido"@))
    &&& r.sin_codigo == cuenta(
        filas,
        |f: ImportacionFila| es_clase(f, "producto_valido"@) && f.codigo_excel is None,
    )
    &&& r.sin_nombre == cuenta(filas, |f: ImportacionFila| es_clase(f, "requiere_revision"@))
    &&& r.duplicados_codigo == cuenta(filas, |f: ImportacionFila| f.es_duplicado_codigo)
    &&& r.duplicados_nombre == cuenta(filas, |f: ImportacionFila| f.es_posible_duplicado_nombre)
    &&& r.coincide_existente == cuenta(
        filas,
        |f: ImportacionFila| f.coincide_producto_existente_id is Some,
    )
    &&& r.secciones == cuenta(filas, |f: ImportacionFila| es_clase(f, "seccion"@))
    &&& r.ignoradas == cuenta(filas, |f: ImportacionFila| es_clase(f, "ignorada"@))
    &&& r.errores == cuenta(filas, |f: ImportacionFila| es_clase(f, "error"@))
    &&& r.pendientes == cuenta(filas, |f: ImportacionFila| es_pendiente(f))
    &&& r.resueltas == cuenta(filas, |f: ImportacionFila| f.resuelta_en is Some)
}

fn uno_si(b: bool) -> (r: i64)
    ensures
        r == if b {
            1int
        } else {
            0int
        },
{
    if b {
        1
    } else {
        0
    }
}

/// El resumen de la vista previa, calculado de las filas de la importación.
pub fn resumen(filas: &Vec<ImportacionFila>) -> (r: ResumenImportacion)
    requires
        filas@.len() <= i64::MAX,
    ensures
        resumen_de(r, filas@),
{
    let ghost s = filas@;
    let mut r = ResumenImportacion {
        total: 0,
        validos: 0,
        sin_codigo: 0,
        sin_nombre: 0,
        duplicados_codigo: 0,
        duplicados_nombre: 0,
        coincide_existente: 0,
        secciones: 0,
        ignoradas: 0,
        errores: 0,
        pendientes: 0,
        resueltas: 0,
    };
    let mut i: usize = 0;
    while i < filas.len()
        invariant
            s == filas@,
            s.len() <= i64::MAX,
            i <= s.len(),
            r.total == i,
            resumen_de(r, s.take(i as int)) || i == 0,
            i == 0 ==> r == (ResumenImportacion {
                total: 0,
                validos: 0,
                sin_codigo: 0,
                sin_nombre: 0,
                duplicados_codigo: 0,
                duplicados_nombre: 0,
                coincide_existente: 0,
                secciones: 0,
                ignoradas: 0,
                errores: 0,
                pendientes: 0,
                resueltas: 0,
            }),
        decreases s.len() - i,
    {
        let f = &filas[i];
        let valido = mismo_texto(f.clasificacion.as_str(), "producto_valido");
        let revision = mismo_texto(f.clasificacion.as_str(), "requiere_revision");
        let seccion = mismo_texto(f.clasificacion.as_str(), "seccion");
        let ignorada = mismo_texto(f.clasificacion.as_str(), "ignorada");
        let error = mismo_texto(f.clasificacion.as_str(), "error");
        proof {
            assert(s.take(0).len() == 0);
            lema_cuenta_take(s, |f: ImportacionFila| es_clase(f, "producto_valido"@), i as int);
            lema_cuenta_take(
                s,
                |f: ImportacionFila| es_clase(f, "producto_valido"@) && f.codigo_excel is None,
                i as int,
            );
            lema_cuenta_take(s, |f: ImportacionFila| es_clase(f, "requiere_revision"@), i as int);
            lema_cuenta_take(s, |f: ImportacionFila| f.es_duplicado_codigo, i as int);
            lema_cuenta_take(s, |f: ImportacionFila| f.es_posible_duplicado_nombre, i as int);
            lema_cuenta_take(
                s,
                |f: ImportacionFila| f.coincide_producto_existente_id is Some,
                i as int,
            );
            lema_cuenta_take(s, |f: ImportacionFila| es_clase(f, "seccion"@), i as int);
            lema_cuenta_take(s, |f: ImportacionFila| es_clase(f, "ignorada"@), i as int);
            lema_cuenta_take(s, |f: ImportacionFila| es_clase(f, "error"@), i as int);
            lema_cuenta_take(s, |f: ImportacionFila| es_pendiente(f), i as int);
            lema_cuenta_take(s, |f: ImportacionFila| f.resuelta_en is Some, i as int);
            assert(s[i as int] == *f);
        }
        r.total = r.total + 1;
        r.validos = r.validos + uno_si(valido);
        r.sin_codigo = r.sin_codigo + uno_si(valido && f.codigo_excel.is_none());
        r.sin_nombre = r.sin_nombre + uno_si(revision);
        r.duplicados_codigo = r.duplicados_codigo + uno_si(f.es_duplicado_codigo);
        r.duplicados_nombre = r.duplicados_nombre + uno_si(f.es_posible_duplicado_nombre);
        r.coincide_existente = r.coincide_existente + uno_si(
            f.coincide_producto_existente_id.is_some(),
        );
        r.secciones = r.secciones + uno_si(seccion);
        r.ignoradas = r.ignoradas + uno_si(ignorada);
        r.errores = r.errores + uno_si(error);
        r.pendientes = r.pendientes + uno_si((valido || revision) && f.resuelta_en.is_none());
        r.resueltas = r.resueltas + uno_si(f.resuelta_en.is_some());
        i = i + 1;
    }
    proof {
        assert(s.take(s.len() as int) =~= s);
        if s.len() == 0 {
            assert(s =~= s.take(0));
        }
    }
    r
}

/// La fila tiene una de las cinco clasificaciones.
pub open spec fn clase_conocida(f: ImportacionFila) -> bool {
    ||| es_clase(f, "producto_valido"@)
    ||| es_clase(f, "requiere_revision"@)
    ||| es_clase(f, "seccion"@)
    ||| es_clase(f, "ignorada"@)
    ||| es_clase(f, "error"@)
}

proof fn lema_particion(filas: Seq<ImportacionFila>)
    requires
        forall|i: int| 0 <= i < filas.len() ==> clase_conocida(#[trigger] filas[i]),
    ensures
        cuenta(filas, |f: ImportacionFila| es_clase(f, "producto_valido"@)) + cuenta(
            filas,
            |f: ImportacionFila| es_clase(f, "requiere_revision"@),
        ) + cuenta(filas, |f: ImportacionFila| es_clase(f, "seccion"@)) + cuenta(
            filas,
            |f: ImportacionFila| es_clase(f, "ignorada"@),
        ) + cuenta(filas, |f: ImportacionFila| es_clase(f, "error"@)) == filas.len(),
    decreases filas.len(),
{
    if filas.len() > 0 {
        let resto = filas.drop_last();
        assert forall|i: int| 0 <= i < resto.len() implies clase_conocida(#[trigger] resto[i]) by {
            assert(resto[i] == filas[i]);
        }
        lema_particion(resto);
        reveal_strlit("producto_valido");
        reveal_strlit("requiere_revision");
        reveal_strlit("seccion");
        reveal_strlit("ignorada");
        reveal_strlit("error");
        assert("producto_valido"@.len() == 15);
        assert("requiere_revision"@.len() == 17);
        assert("seccion"@.len() == 7);
        assert("ignorada"@.len() == 8);
        assert("error"@.len() == 5);
        assert(clase_conocida(filas[filas.len() - 1]));
    }
}

/// Cada fila cae en exactamente una clase: si todas tienen una de las
/// cinco clasificaciones, válidos, sin nombre, secciones, ignoradas y
/// errores suman el total.
pub proof fn ley_resumen_particiona_las_filas(r: ResumenImportacion, filas: Seq<ImportacionFila>)
    requires
        resumen_de(r, filas),
        forall|i: int| 0 <= i < filas.len() ==> clase_conocida(#[trigger] filas[i]),
    ensures
        r.validos + r.sin_nombre + r.secciones + r.ignoradas + r.errores == r.total,
{
    lema_particion(filas);
}

} // verus!
