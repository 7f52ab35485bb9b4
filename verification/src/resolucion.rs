//! Resolución de las filas de una importación: la decisión que toma el
//! usuario (crear, vincular u omitir), con sus correcciones, y la acción
//! que cada fila decidida pide sobre el catálogo. Una fila se resuelve
//! una sola vez; la importación se confirma cuando no queda ninguna
//! pendiente y, una vez cerrada, ya no cambia de estado.
use vstd::prelude::*;

use crate::error::{validacion, AppError, TipoError};
use crate::importaciones::{cuenta, es_pendiente, lema_cuenta_take, resumen_de};
use crate::modelos::{GuardarProducto, ImportacionFila, ResolverFila, ResumenImportacion};
use crate::texto::{
    con_numero, concatenar, copiar_opcional, esta_en_blanco, lema_recorte_vacio, mismo_texto, recortado, recorte,
    solo_espacios, vista,
};

verus! {

pub open spec fn decision_valida(d: Seq<char>) -> bool {
    d == "crear_nuevo"@ || d == "vincular_existente"@ || d == "omitir"@
}

/// El error que corresponde a una resolución, en el orden en que se
/// revisa: la decisión, que la fila exista, que no esté ya resuelta y que
/// el nombre corregido (si vino) no quede vacío.
pub open spec fn error_resolucion(fila: Option<ImportacionFila>, datos: ResolverFila) -> Option<TipoError> {
    if !decision_valida(datos.decision@) {
        Some(TipoError::Validacion)
    } else if fila is None {
        Some(TipoError::NoEncontrado)
    } else if fila->0.resuelta_en is Some {
        Some(TipoError::Validacion)
    } else if datos.nombre_corregido matches Some(n) && recorte(n@).len() == 0 {
        Some(TipoError::Validacion)
    } else {
        None
    }
}

/// El código corregido, recortado; vacío queda sin código.
pub open spec fn codigo_corregido(c: Seq<char>) -> Option<Seq<char>> {
    if recorte(c).len() == 0 {
        None
    } else {
        Some(recorte(c))
    }
}

/// `r` es la fila `f` con la decisión de `datos` cargada: nombre y código
/// corregidos si vinieron, y todo lo demás igual.
pub open spec fn con_decision(f: ImportacionFila, datos: ResolverFila, r: ImportacionFila) -> bool {
    &&& vista(r.nombre_excel) == match datos.nombre_corregido {
        Some(n) => Some(recorte(n@)),
        None => vista(f.nombre_excel),
    }
    &&& vista(r.codigo_excel) == match datos.codigo_corregido {
        Some(c) => codigo_corregido(c@),
        None => vista(f.codigo_excel),
    }
    &&& vista(r.decision) == Some(datos.decision@)
    &&& r.producto_vinculado_id == datos.producto_vinculado_id
    &&& r.actualizar_costo_en_vinculo == datos.actualizar_costo_en_vinculo
    &&& r.id == f.id
    &&& r.importacion_id == f.importacion_id
    &&& r.fila_excel == f.fila_excel
    &&& r.precio_lista_centavos == f.precio_lista_centavos
    &&& r.categoria_excel_texto == f.categoria_excel_texto
    &&& r.precios_calculados_json == f.precios_calculados_json
    &&& r.clasificacion == f.clasificacion
    &&& r.motivo_error == f.motivo_error
    &&& r.es_duplicado_codigo == f.es_duplicado_codigo
    &&& r.es_posible_duplicado_nombre == f.es_posible_duplicado_nombre
    &&& r.coincide_producto_existente_id == f.coincide_producto_existente_id
    &&& r.producto_id == f.producto_id
    &&& r.resuelta_en == f.resuelta_en
}

/// Un código corregido que no queda en blanco reemplaza al que tenía la
/// fila, recortado, sea cual fuere el anterior; uno en blanco la deja sin
/// código; sin corrección, el código no cambia. Lo mismo con el nombre
/// corregido.
pub proof fn ley_correcciones_reemplazan(f: ImportacionFila, datos: ResolverFila, r: ImportacionFila)
    requires
        con_decision(f, datos, r),
    ensures
        datos.codigo_corregido is Some && !solo_espacios(datos.codigo_corregido->0@) ==> r.codigo_excel
            is Some && r.codigo_excel->0@ == recorte(datos.codigo_corregido->0@),
        datos.codigo_corregido is Some && solo_espacios(datos.codigo_corregido->0@)
            ==> r.codigo_excel is None,
        datos.codigo_corregido is None ==> vista(r.codigo_excel) == vista(f.codigo_excel),
        datos.nombre_corregido is Some ==> r.nombre_excel is Some && r.nombre_excel->0@ == recorte(
            datos.nombre_corregido->0@,
        ),
        datos.nombre_corregido is None ==> vista(r.nombre_excel) == vista(f.nombre_excel),
{
    if let Some(c) = datos.codigo_corregido {
        lema_recorte_vacio(c@);
    }
}

/// La parte de la resolución manual que decide: revisa la decisión y la
/// fila (`None` si no existe) y devuelve la fila con la decisión y las
/// correcciones cargadas, lista para aplicarse.
pub fn resolver_fila(fila_id: i64, fila: Option<ImportacionFila>, datos: ResolverFila) -> (r: Result<
    ImportacionFila,
    AppError,
>)
    ensures
        r is Err <==> error_resolucion(fila, datos) is Some,
        r matches Err(e) ==> Some(e.tipo()) == error_resolucion(fila, datos),
        r matches Ok(n) ==> con_decision(fila->0, datos, n),
{
    let d = datos.decision.as_str();
    if !(mismo_texto(d, "crear_nuevo") || mismo_texto(d, "vincular_existente") || mismo_texto(
        d,
        "omitir",
    )) {
        return Err(validacion("Decisión inválida."));
    }
    let fila = match fila {
        Some(f) => f,
        None => {
            return Err(AppError::NotFound(con_numero("No existe la fila de importación ", fila_id, ".")));
        },
    };
    if fila.resuelta_en.is_some() {
        return Err(validacion("Esta fila ya fue resuelta."));
    }
    let nombre_excel = match &datos.nombre_corregido {
        Some(nombre) => {
            if esta_en_blanco(nombre.as_str()) {
                return Err(validacion("El nombre no puede quedar vacío."));
            }
            Some(recortado(nombre.as_str()))
        },
        None => fila.nombre_excel,
    };
    let codigo_excel = match &datos.codigo_corregido {
        Some(codigo) => {
            if esta_en_blanco(codigo.as_str()) {
                None
            } else {
                Some(recortado(codigo.as_str()))
            }
        },
        None => fila.codigo_excel,
    };
    Ok(ImportacionFila {
        id: fila.id,
        importacion_id: fila.importacion_id,
        fila_excel: fila.fila_excel,
        codigo_excel,
        nombre_excel,
        precio_lista_centavos: fila.precio_lista_centavos,
        categoria_excel_texto: fila.categoria_excel_texto,
        precios_calculados_json: fila.precios_calculados_json,
        clasificacion: fila.clasificacion,
        motivo_error: fila.motivo_error,
        es_duplicado_codigo: fila.es_duplicado_codigo,
        es_posible_duplicado_nombre: fila.es_posible_duplicado_nombre,
        coincide_producto_existente_id: fila.coincide_producto_existente_id,
        decision: Some(datos.decision),
        producto_vinculado_id: datos.producto_vinculado_id,
        actualizar_costo_en_vinculo: datos.actualizar_costo_en_vinculo,
        producto_id: fila.producto_id,
        resuelta_en: fila.resuelta_en,
    })
}

/// Lo que una fila ya decidida pide sobre el catálogo.
#[derive(Debug, Clone, PartialEq, Eq)]
pub enum AccionFila {
    /// Crear un producto con estos datos y, si la fila traía código,
    /// guardarlo como código legado.
    Crear { datos: GuardarProducto, codigo_legado: Option<String> },
    /// Vincular la fila a un producto existente: cambiar su costo solo si
    /// hay `nuevo_costo`, y completar el código legado solo si el producto
    /// todavía no tenía uno.
    Vincular { producto_id: i64, nuevo_costo: Option<i64>, codigo_legado: Option<String> },
    /// No tocar el catálogo.
    Omitir,
}

/// Cuándo una fila decidida no se puede aplicar: sin decisión, una
/// decisión desconocida, crear sin nombre o vincular sin destino.
pub open spec fn accion_imposible(f: ImportacionFila) -> bool {
    match vista(f.decision) {
        None => true,
        Some(d) => if d == "crear_nuevo"@ {
            f.nombre_excel is None
        } else if d == "vincular_existente"@ {
            f.producto_vinculado_id is None
        } else {
            d != "omitir"@
        },
    }
}

/// Los datos del producto que nace de una fila: el nombre del Excel, el
/// precio de lista como costo, activo, sin marca, categoría ni precios
/// de venta. La categoría nunca se asigna sola.
pub open spec fn producto_de_fila(f: ImportacionFila, g: GuardarProducto) -> bool {
    &&& f.nombre_excel matches Some(n) && g.nombre == n
    &&& g.marca_id is None
    &&& g.categoria_id is None
    &&& g.descripcion is None
    &&& g.observaciones is None
    &&& g.costo_actual == f.precio_lista_centavos
    &&& g.precio_venta_actual is None
    &&& g.precio_publico_referencia is None
    &&& g.estado@ == "activo"@
    &&& g.codigos_fabricante@.len() == 0
}

/// La acción que corresponde a la decisión de la fila.
pub open spec fn accion_esperada(f: ImportacionFila, a: AccionFila) -> bool {
    let d = vista(f.decision)->0;
    if d == "crear_nuevo"@ {
        a matches AccionFila::Crear { datos, codigo_legado } && producto_de_fila(f, datos)
            && codigo_legado == f.codigo_excel
    } else if d == "vincular_existente"@ {
        a matches AccionFila::Vincular { producto_id, nuevo_costo, codigo_legado }
            && producto_id == f.producto_vinculado_id->0
            && nuevo_costo == (if f.actualizar_costo_en_vinculo {
            f.precio_lista_centavos
        } else {
            None
        }) && codigo_legado == f.codigo_excel
    } else {
        a is Omitir
    }
}

/// La parte de aplicar una fila que decide: qué hacer con el catálogo
/// según la decisión cargada. Vincular nunca toca nombre, marca,
/// categoría ni precio de venta: a lo sumo el costo, y solo si se pidió.
pub fn accion_de_fila(fila: &ImportacionFila) -> (r: Result<AccionFila, AppError>)
    ensures
        r is Err <==> accion_imposible(*fila),
        r matches Err(e) ==> e.tipo() == TipoError::Validacion,
        r matches Ok(a) ==> accion_esperada(*fila, a),
{
    let d = match &fila.decision {
        Some(d) => d.as_str(),
        None => {
            return Err(validacion("Esta fila todavía no tiene una decisión."));
        },
    };
    if mismo_texto(d, "crear_nuevo") {
        let nombre = match &fila.nombre_excel {
            Some(n) => n.clone(),
            None => {
                return Err(
                    validacion(
                        "No se puede crear el producto sin nombre. Corregí el nombre antes de aplicar.",
                    ),
                );
            },
        };
        let datos = GuardarProducto {
            nombre,
            marca_id: None,
            categoria_id: None,
            descripcion: None,
            observaciones: None,
            costo_actual: fila.precio_lista_centavos,
            precio_venta_actual: None,
            precio_publico_referencia: None,
            estado: "activo".to_owned(),
            codigos_fabricante: Vec::new(),
        };
        Ok(AccionFila::Crear { datos, codigo_legado: copiar_opcional(&fila.codigo_excel) })
    } else if mismo_texto(d, "vincular_existente") {
        let producto_id = match fila.producto_vinculado_id {
            Some(id) => id,
            None => {
                return Err(validacion("Elegí a qué producto vincular esta fila."));
            },
        };
        let nuevo_costo = if fila.actualizar_costo_en_vinculo {
            fila.precio_lista_centavos
        } else {
            None
        };
        Ok(
            AccionFila::Vincular {
                producto_id,
                nuevo_costo,
                codigo_legado: copiar_opcional(&fila.codigo_excel),
            },
        )
    } else if mismo_texto(d, "omitir") {
        Ok(AccionFila::Omitir)
    } else {
        let a = concatenar("Decisión inválida: \"", d);
        Err(AppError::Validation(concatenar(a.as_str(), "\".")))
    }
}

impl AccionFila {
    /// La acción con la que queda en la auditoría.
    pub fn accion_auditoria(&self) -> (r: &'static str)
        ensures
            self is Crear ==> r@ == "producto_importado_excel"@,
            self is Vincular ==> r@ == "producto_vinculado_excel"@,
            self is Omitir ==> r@ == "fila_excel_omitida"@,
    {
        match self {
            AccionFila::Crear { .. } => "producto_importado_excel",
            AccionFila::Vincular { .. } => "producto_vinculado_excel",
            AccionFila::Omitir => "fila_excel_omitida",
        }
    }
}

/// El estado de la importación después de aplicar una fila: pasa a
/// confirmada cuando no queda ninguna pendiente, solo desde revisión.
pub open spec fn estado_tras_cerrar(estado: Seq<char>, pendientes: int) -> Seq<char> {
    if pendientes == 0 && estado == "en_revision"@ {
        "confirmada"@
    } else {
        estado
    }
}

/// El estado después de descartar: solo una importación en revisión se
/// descarta.
pub open spec fn estado_tras_descartar(estado: Seq<char>) -> Seq<char> {
    if estado == "en_revision"@ {
        "descartada"@
    } else {
        estado
    }
}

/// El estado que queda tras revisar cuántas filas siguen pendientes.
pub fn cerrar_si_no_quedan_pendientes(estado: &str, pendientes: i64) -> (r: String)
    ensures
        r@ == estado_tras_cerrar(estado@, pendientes as int),
{
    if pendientes == 0 && mismo_texto(estado, "en_revision") {
        "confirmada".to_owned()
    } else {
        estado.to_owned()
    }
}

/// El estado que queda al descartar la importación.
pub fn descartar(estado: &str) -> (r: String)
    ensures
        r@ == estado_tras_descartar(estado@),
{
    if mismo_texto(estado, "en_revision") {
        "descartada".to_owned()
    } else {
        estado.to_owned()
    }
}

/// Una importación cerrada (confirmada o descartada) ya no cambia de
/// estado: ni al revisar pendientes ni al descartar.
pub proof fn ley_importacion_cerrada_no_cambia(estado: Seq<char>, pendientes: int)
    requires
        estado != "en_revision"@,
    ensures
        estado_tras_cerrar(estado, pendientes) == estado,
        estado_tras_descartar(estado) == estado,
{
}

proof fn lema_cuenta_cero(filas: Seq<ImportacionFila>, p: spec_fn(ImportacionFila) -> bool)
    ensures
        cuenta(filas, p) >= 0,
        cuenta(filas, p) == 0 <==> forall|i: int| 0 <= i < filas.len() ==> !p(#[trigger] filas[i]),
    decreases filas.len(),
{
    if filas.len() > 0 {
        let resto = filas.drop_last();
        lema_cuenta_cero(resto, p);
        assert forall|i: int| 0 <= i < resto.len() implies resto[i] == filas[i] by {}
        if cuenta(filas, p) == 0 {
            assert forall|i: int| 0 <= i < filas.len() implies !p(#[trigger] filas[i]) by {
                if i < resto.len() {
                    assert(resto[i] == filas[i]);
                }
            }
        }
    }
}

/// Una importación en revisión pasa a confirmada exactamente cuando el
/// resumen de sus filas no tiene pendientes, es decir, cuando ninguna
/// fila válida o a revisar quedó sin resolver.
pub proof fn ley_se_confirma_sin_pendientes(r: ResumenImportacion, filas: Seq<ImportacionFila>)
    requires
        resumen_de(r, filas),
    ensures
        (estado_tras_cerrar("en_revision"@, r.pendientes as int) == "confirmada"@) <==> forall|i: int|
            0 <= i < filas.len() ==> !es_pendiente(#[trigger] filas[i]),
{
    let p = |f: ImportacionFila| es_pendiente(f);
    lema_cuenta_cero(filas, p);
    assert(r.pendientes == cuenta(filas, p));
    reveal_strlit("en_revision");
    reveal_strlit("confirmada");
    assert("en_revision"@.len() != "confirmada"@.len());
    assert((forall|i: int| 0 <= i < filas.len() ==> !p(#[trigger] filas[i])) <==> (forall|i: int|
        0 <= i < filas.len() ==> !es_pendiente(#[trigger] filas[i])));
}

/// Se aplica en bloque una fila con decisión cargada que todavía no se
/// resolvió.
pub open spec fn lista_para_aplicar(f: ImportacionFila) -> bool {
    f.decision is Some && f.resuelta_en is None
}

/// Las posiciones, en orden, de las filas listas para aplicar entre las
/// primeras `k`.
pub open spec fn posiciones_para_aplicar(filas: Seq<ImportacionFila>, k: int) -> Seq<usize>
    decreases k,
{
    if k <= 0 {
        seq![]
    } else if lista_para_aplicar(filas[k - 1]) {
        posiciones_para_aplicar(filas, k - 1).push((k - 1) as usize)
    } else {
        posiciones_para_aplicar(filas, k - 1)
    }
}

/// Qué filas de la importación se aplican en bloque: las que ya tienen
/// decisión (típicamente las limpias, con "crear_nuevo" automático) y no
/// se resolvieron todavía. Devuelve sus posiciones en orden.
pub fn filas_para_aplicar(filas: &Vec<ImportacionFila>) -> (r: Vec<usize>)
    ensures
        r@ == posiciones_para_aplicar(filas@, filas@.len() as int),
{
    let mut r: Vec<usize> = Vec::new();
    let mut i: usize = 0;
    while i < filas.len()
        invariant
            i <= filas@.len(),
            r@ == posiciones_para_aplicar(filas@, i as int),
        decreases filas@.len() - i,
    {
        let f = &filas[i];
        if f.decision.is_some() && f.resuelta_en.is_none() {
            r.push(i);
        }
        i = i + 1;
    }
    r
}

/// El código heredado que queda en un producto al vincularle una fila: se
/// conserva el que ya tenía; si no tenía ninguno, toma el de la fila.
pub fn codigo_legado_tras_vincular(actual: Option<String>, nuevo: Option<String>) -> (r: Option<String>)
    ensures
        r == (if actual is Some {
            actual
        } else {
            nuevo
        }),
{
    match actual {
        Some(codigo) => Some(codigo),
        None => nuevo,
    }
}

} // verus!
