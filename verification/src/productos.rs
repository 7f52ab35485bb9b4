//! Catálogo de productos: validación del formulario, código interno,
//! historial de precios (solo lo que cambia), códigos de fabricante y la
//! consulta de búsqueda de texto completo.
use vstd::prelude::*;

use crate::error::{validacion, AppError, TipoError};
use crate::modelos::{CodigoFabricante, GuardarProducto, Producto, ProductoDetalle};
use crate::texto::{
    cadena_de_caracteres, caracteres, concatenar, copiar_opcional, decimal_con_ceros,
    entero_con_ceros, es_espacio, es_espacio_exec, esta_en_blanco, lema_ceros_inyectiva, mismo_texto,
    recortado, recorte, vista,
};

verus! {

/// Un formulario de producto se puede guardar si el nombre no queda en
/// blanco y el estado es activo o inactivo.
pub open spec fn producto_valido(d: GuardarProducto) -> bool {
    &&& recorte(d.nombre@).len() > 0
    &&& (d.estado@ == "activo"@ || d.estado@ == "inactivo"@)
}

/// Revisa el formulario antes de crear o editar.
pub fn validar(datos: &GuardarProducto) -> (r: Result<(), AppError>)
    ensures
        r is Ok <==> producto_valido(*datos),
        r matches Err(e) ==> e.tipo() == TipoError::Validacion,
{
    if esta_en_blanco(datos.nombre.as_str()) {
        return Err(validacion("El nombre del producto no puede estar vacío."));
    }
    let estado = datos.estado.as_str();
    if !(mismo_texto(estado, "activo") || mismo_texto(estado, "inactivo")) {
        return Err(AppError::Validation(concatenar("Estado inválido: ", estado)));
    }
    Ok(())
}

/// El código interno que sale del id: `P-` y el id con ceros hasta seis
/// cifras.
pub fn codigo_interno(id: i64) -> (r: String)
    ensures
        r@ == "P-"@ + decimal_con_ceros(id as int, 6),
{
    let numero = entero_con_ceros(id, 6);
    concatenar("P-", numero.as_str())
}

/// El código interno sale del id y es único por construcción: dos
/// productos (de id positivo) distintos nunca comparten código.
pub proof fn ley_codigo_interno_unico(id1: i64, id2: i64)
    requires
        id1 >= 0,
        id2 >= 0,
        id1 != id2,
    ensures
        "P-"@ + decimal_con_ceros(id1 as int, 6) != "P-"@ + decimal_con_ceros(id2 as int, 6),
{
    if "P-"@ + decimal_con_ceros(id1 as int, 6) == "P-"@ + decimal_con_ceros(id2 as int, 6) {
        let a = "P-"@ + decimal_con_ceros(id1 as int, 6);
        assert(decimal_con_ceros(id1 as int, 6) =~= a.skip("P-"@.len() as int));
        assert(decimal_con_ceros(id2 as int, 6) =~= a.skip("P-"@.len() as int));
        lema_ceros_inyectiva(id1 as int, id2 as int, 6);
    }
}

/// Un precio cargado, como entrada de historial.
pub open spec fn precio_si(tipo: Seq<char>, valor: Option<i64>) -> Seq<(Seq<char>, i64)> {
    match valor {
        Some(v) => seq![(tipo, v)],
        None => seq![],
    }
}

/// Las entradas de historial, con el tipo por su texto.
pub open spec fn vista_precios(v: Seq<(&'static str, i64)>) -> Seq<(Seq<char>, i64)> {
    v.map_values(|p: (&'static str, i64)| (p.0@, p.1))
}

/// El historial con el que nace un producto: una entrada por cada precio
/// cargado, en el orden costo, venta, público de referencia.
pub open spec fn precios_de(d: GuardarProducto) -> Seq<(Seq<char>, i64)> {
    precio_si("costo"@, d.costo_actual) + precio_si("venta"@, d.precio_venta_actual) + precio_si(
        "publico_referencia"@,
        d.precio_publico_referencia,
    )
}

fn agregar_precio(v: &mut Vec<(&'static str, i64)>, tipo: &'static str, valor: Option<i64>)
    ensures
        vista_precios(final(v)@) == vista_precios(old(v)@) + precio_si(tipo@, valor),
{
    let ghost antes = v@;
    if let Some(x) = valor {
        v.push((tipo, x));
        proof {
            assert(vista_precios(v@) =~= vista_precios(antes) + precio_si(tipo@, valor));
        }
    } else {
        proof {
            assert(vista_precios(v@) =~= vista_precios(antes) + precio_si(tipo@, valor));
        }
    }
}

/// Los precios iniciales que se registran en el historial al crear.
pub fn precios_iniciales(datos: &GuardarProducto) -> (r: Vec<(&'static str, i64)>)
    ensures
        vista_precios(r@) == precios_de(*datos),
{
    let mut precios: Vec<(&'static str, i64)> = Vec::new();
    proof {
        assert(vista_precios(precios@) =~= seq![]);
    }
    agregar_precio(&mut precios, "costo", datos.costo_actual);
    agregar_precio(&mut precios, "venta", datos.precio_venta_actual);
    agregar_precio(&mut precios, "publico_referencia", datos.precio_publico_referencia);
    proof {
        assert(seq![] + precio_si("costo"@, datos.costo_actual) =~= precio_si(
            "costo"@,
            datos.costo_actual,
        ));
    }
    precios
}

/// Un precio que cambió y quedó cargado genera historial; si no cambió,
/// o se borró, no.
pub open spec fn cambio(tipo: Seq<char>, antes: Option<i64>, despues: Option<i64>) -> Seq<(Seq<char>, i64)> {
    if antes != despues {
        precio_si(tipo, despues)
    } else {
        seq![]
    }
}

/// El historial que deja una edición: solo los precios que realmente
/// cambiaron.
pub open spec fn cambios_de(a: Producto, d: GuardarProducto) -> Seq<(Seq<char>, i64)> {
    cambio("costo"@, a.costo_actual, d.costo_actual) + cambio(
        "venta"@,
        a.precio_venta_actual,
        d.precio_venta_actual,
    ) + cambio("publico_referencia"@, a.precio_publico_referencia, d.precio_publico_referencia)
}

/// Si alguno de los tres precios es distinto del que estaba.
pub open spec fn cambia_precio(a: Producto, d: GuardarProducto) -> bool {
    a.costo_actual != d.costo_actual || a.precio_venta_actual != d.precio_venta_actual
        || a.precio_publico_referencia != d.precio_publico_referencia
}

fn agregar_cambio(
    v: &mut Vec<(&'static str, i64)>,
    tipo: &'static str,
    antes: Option<i64>,
    despues: Option<i64>,
)
    ensures
        vista_precios(final(v)@) == vista_precios(old(v)@) + cambio(tipo@, antes, despues),
{
    if antes != despues {
        agregar_precio(v, tipo, despues);
    } else {
        proof {
            assert(vista_precios(v@) =~= vista_precios(v@) + cambio(tipo@, antes, despues));
        }
    }
}

/// Las entradas de historial que deja editar el producto `anterior` con
/// `datos`, y si cambia la fecha de actualización de precios.
pub fn cambios_de_precio(anterior: &Producto, datos: &GuardarProducto) -> (r: (
    Vec<(&'static str, i64)>,
    bool,
))
    ensures
        vista_precios(r.0@) == cambios_de(*anterior, *datos),
        r.1 == cambia_precio(*anterior, *datos),
{
    let mut v: Vec<(&'static str, i64)> = Vec::new();
    proof {
        assert(vista_precios(v@) =~= seq![]);
    }
    agregar_cambio(&mut v, "costo", anterior.costo_actual, datos.costo_actual);
    agregar_cambio(&mut v, "venta", anterior.precio_venta_actual, datos.precio_venta_actual);
    agregar_cambio(
        &mut v,
        "publico_referencia",
        anterior.precio_publico_referencia,
        datos.precio_publico_referencia,
    );
    proof {
        assert(seq![] + cambio("costo"@, anterior.costo_actual, datos.costo_actual) =~= cambio(
            "costo"@,
            anterior.costo_actual,
            datos.costo_actual,
        ));
    }
    let cambia = anterior.costo_actual != datos.costo_actual || anterior.precio_venta_actual
        != datos.precio_venta_actual || anterior.precio_publico_referencia
        != datos.precio_publico_referencia;
    (v, cambia)
}

/// Guardar un producto sin tocar sus precios no deja historial nuevo, y
/// cada entrada que sí queda es de un precio que cambió.
pub proof fn ley_historial_solo_si_cambia(a: Producto, d: GuardarProducto)
    ensures
        !cambia_precio(a, d) ==> cambios_de(a, d).len() == 0,
        cambios_de(a, d).len() > 0 ==> cambia_precio(a, d),
        cambios_de(a, d).len() <= 3,
{
}

/// Cuántos precios cambiaron a un valor cargado (de no tenerlo, o de
/// otro valor).
pub open spec fn cargados_que_cambiaron(a: Producto, d: GuardarProducto) -> int {
    (if d.costo_actual is Some && a.costo_actual != d.costo_actual { 1int } else { 0int }) + (if d.precio_venta_actual is Some
        && a.precio_venta_actual != d.precio_venta_actual {
        1int
    } else {
        0int
    }) + (if d.precio_publico_referencia is Some && a.precio_publico_referencia
        != d.precio_publico_referencia {
        1int
    } else {
        0int
    })
}

/// El historial de una edición tiene una entrada por cada precio que
/// quedó cargado con un valor distinto del anterior, haya tenido antes un
/// valor o ninguno, con el tipo y el valor nuevo; y ninguna otra: cada
/// entrada es de uno de los tres tipos, con el valor nuevo de ese precio,
/// que difiere del anterior.
pub proof fn ley_historial_de_cada_precio_que_cambia(a: Producto, d: GuardarProducto)
    ensures
        cambios_de(a, d).len() == cargados_que_cambiaron(a, d),
        d.costo_actual is Some && a.costo_actual != d.costo_actual ==> cambios_de(a, d).contains(
            ("costo"@, d.costo_actual->0),
        ),
        d.precio_venta_actual is Some && a.precio_venta_actual != d.precio_venta_actual
            ==> cambios_de(a, d).contains(("venta"@, d.precio_venta_actual->0)),
        d.precio_publico_referencia is Some && a.precio_publico_referencia
            != d.precio_publico_referencia ==> cambios_de(a, d).contains(
            ("publico_referencia"@, d.precio_publico_referencia->0),
        ),
        forall|i: int|
            0 <= i < cambios_de(a, d).len() ==> {
                let (t, v) = #[trigger] cambios_de(a, d)[i];
                ||| t == "costo"@ && d.costo_actual == Some(v) && a.costo_actual != d.costo_actual
                ||| t == "venta"@ && d.precio_venta_actual == Some(v) && a.precio_venta_actual
                    != d.precio_venta_actual
                ||| t == "publico_referencia"@ && d.precio_publico_referencia == Some(v)
                    && a.precio_publico_referencia != d.precio_publico_referencia
            },
{
    let c = cambio("costo"@, a.costo_actual, d.costo_actual);
    let v = cambio("venta"@, a.precio_venta_actual, d.precio_venta_actual);
    let p = cambio("publico_referencia"@, a.precio_publico_referencia, d.precio_publico_referencia);
    let todo = cambios_de(a, d);
    assert(todo == c + v + p);
    if let Some(x) = d.costo_actual {
        if a.costo_actual != d.costo_actual {
            assert(todo[0] == ("costo"@, x));
        }
    }
    if let Some(x) = d.precio_venta_actual {
        if a.precio_venta_actual != d.precio_venta_actual {
            assert(todo[c.len() as int] == ("venta"@, x));
        }
    }
    if let Some(x) = d.precio_publico_referencia {
        if a.precio_publico_referencia != d.precio_publico_referencia {
            assert(todo[(c.len() + v.len()) as int] == ("publico_referencia"@, x));
        }
    }
    assert forall|i: int| 0 <= i < todo.len() implies {
        let (t, x) = #[trigger] todo[i];
        ||| t == "costo"@ && d.costo_actual == Some(x) && a.costo_actual != d.costo_actual
        ||| t == "venta"@ && d.precio_venta_actual == Some(x) && a.precio_venta_actual
            != d.precio_venta_actual
        ||| t == "publico_referencia"@ && d.precio_publico_referencia == Some(x)
            && a.precio_publico_referencia != d.precio_publico_referencia
    } by {
        if i < c.len() {
            assert(todo[i] == c[i]);
        } else if i < c.len() + v.len() {
            assert(todo[i] == v[i - c.len()]);
        } else {
            assert(todo[i] == p[i - c.len() - v.len()]);
        }
    }
}

/// La fecha de actualización de precios cambia si y solo si cambió alguno
/// de los tres precios (también al borrarlo).
pub proof fn ley_fecha_de_precios_solo_si_cambian(a: Producto, d: GuardarProducto)
    ensures
        cambia_precio(a, d) <==> (a.costo_actual != d.costo_actual || a.precio_venta_actual
            != d.precio_venta_actual || a.precio_publico_referencia != d.precio_publico_referencia),
{
}

/// Un producto nuevo nace con una entrada de historial por cada precio
/// cargado, con su valor, y ninguna por los que no se cargaron.
pub proof fn ley_historial_inicial(d: GuardarProducto)
    ensures
        precios_de(d).len() == (if d.costo_actual is Some { 1int } else { 0int }) + (if d.precio_venta_actual is Some {
            1int
        } else {
            0int
        }) + (if d.precio_publico_referencia is Some {
            1int
        } else {
            0int
        }),
        d.costo_actual is Some ==> precios_de(d).contains(("costo"@, d.costo_actual->0)),
        d.precio_venta_actual is Some ==> precios_de(d).contains(("venta"@, d.precio_venta_actual->0)),
        d.precio_publico_referencia is Some ==> precios_de(d).contains(
            ("publico_referencia"@, d.precio_publico_referencia->0),
        ),
{
    let c = precio_si("costo"@, d.costo_actual);
    let v = precio_si("venta"@, d.precio_venta_actual);
    let p = precio_si("publico_referencia"@, d.precio_publico_referencia);
    let todo = precios_de(d);
    if d.costo_actual is Some {
        assert(todo[0] == ("costo"@, d.costo_actual->0));
    }
    if d.precio_venta_actual is Some {
        assert(todo[c.len() as int] == ("venta"@, d.precio_venta_actual->0));
    }
    if d.precio_publico_referencia is Some {
        assert(todo[(c.len() + v.len()) as int] == ("publico_referencia"@, d.precio_publico_referencia->0));
    }
}

/// `str::split_whitespace` sobre un prefijo: las palabras ya cerradas y
/// la que se está leyendo.
pub open spec fn partir(s: Seq<char>) -> (Seq<Seq<char>>, Seq<char>)
    decreases s.len(),
{
    if s.len() == 0 {
        (seq![], seq![])
    } else {
        let (ws, cur) = partir(s.drop_last());
        let c = s.last();
        if es_espacio(c) {
            if cur.len() > 0 {
                (ws.push(cur), seq![])
            } else {
                (ws, seq![])
            }
        } else {
            (ws, cur.push(c))
        }
    }
}

/// Las palabras del texto: los tramos más largos sin espacios.
pub open spec fn palabras(s: Seq<char>) -> Seq<Seq<char>> {
    let (ws, cur) = partir(s);
    if cur.len() > 0 {
        ws.push(cur)
    } else {
        ws
    }
}

/// La palabra sin comillas dobles.
pub open spec fn sin_comillas(w: Seq<char>) -> Seq<char>
    decreases w.len(),
{
    if w.len() == 0 {
        w
    } else {
        let r = sin_comillas(w.drop_last());
        if w.last() == '"' {
            r
        } else {
            r.push(w.last())
        }
    }
}

/// Un término de búsqueda: la palabra entre comillas, como prefijo.
pub open spec fn como_termino(w: Seq<char>) -> Seq<char> {
    seq!['"'] + w + seq!['"', '*']
}

/// Los términos: cada palabra sin comillas, descartando las que quedan
/// vacías.
pub open spec fn terminos(ws: Seq<Seq<char>>) -> Seq<Seq<char>>
    decreases ws.len(),
{
    if ws.len() == 0 {
        seq![]
    } else {
        let t = terminos(ws.drop_last());
        let w = sin_comillas(ws.last());
        if w.len() == 0 {
            t
        } else {
            t.push(como_termino(w))
        }
    }
}

/// Los textos unidos con un separador entre cada par.
pub open spec fn unir(ts: Seq<Seq<char>>, sep: Seq<char>) -> Seq<char>
    decreases ts.len(),
{
    if ts.len() == 0 {
        seq![]
    } else if ts.len() == 1 {
        ts[0]
    } else {
        unir(ts.drop_last(), sep) + sep + ts.last()
    }
}

/// La consulta de texto completo: los términos separados por un espacio
/// (un AND implícito, así el orden de las palabras no importa), o nada si
/// no quedó ningún término.
pub open spec fn consulta_fts(s: Seq<char>) -> Option<Seq<char>> {
    let t = terminos(palabras(s));
    if t.len() == 0 {
        None
    } else {
        Some(unir(t, seq![' ']))
    }
}

fn quitar_comillas(w: &Vec<char>) -> (r: Vec<char>)
    ensures
        r@ == sin_comillas(w@),
{
    let mut r: Vec<char> = Vec::new();
    let mut i: usize = 0;
    while i < w.len()
        invariant
            i <= w@.len(),
            r@ == sin_comillas(w@.take(i as int)),
        decreases w@.len() - i,
    {
        proof {
            assert(w@.take(i + 1).drop_last() =~= w@.take(i as int));
        }
        if w[i] != '"' {
            r.push(w[i]);
        }
        i = i + 1;
    }
    proof {
        assert(w@.take(w@.len() as int) =~= w@);
    }
    r
}

proof fn lema_terminos_push(ws: Seq<Seq<char>>, w: Seq<char>)
    ensures
        terminos(ws.push(w)) == if sin_comillas(w).len() == 0 {
            terminos(ws)
        } else {
            terminos(ws).push(como_termino(sin_comillas(w)))
        },
{
    assert(ws.push(w).drop_last() =~= ws);
}

proof fn lema_unir_push(ts: Seq<Seq<char>>, x: Seq<char>, sep: Seq<char>)
    ensures
        unir(ts.push(x), sep) == if ts.len() == 0 {
            x
        } else {
            unir(ts, sep) + sep + x
        },
{
    assert(ts.push(x).drop_last() =~= ts);
}

/// Suma la palabra terminada a la consulta, si le queda algo sin comillas.
fn cerrar_palabra(
    salida: &mut Vec<char>,
    n: &mut usize,
    palabra: &Vec<char>,
    Ghost(ws): Ghost<Seq<Seq<char>>>,
)
    requires
        old(salida)@ == unir(terminos(ws), seq![' ']),
        *old(n) == terminos(ws).len(),
        *old(n) < usize::MAX,
    ensures
        final(salida)@ == unir(terminos(ws.push(palabra@)), seq![' ']),
        *final(n) == terminos(ws.push(palabra@)).len(),
{
    let limpia = quitar_comillas(palabra);
    proof {
        lema_terminos_push(ws, palabra@);
    }
    if limpia.len() > 0 {
        proof {
            lema_unir_push(terminos(ws), como_termino(limpia@), seq![' ']);
        }
        if *n > 0 {
            salida.push(' ');
        }
        salida.push('"');
        let mut k: usize = 0;
        let ghost base = salida@;
        while k < limpia.len()
            invariant
                k <= limpia@.len(),
                salida@ == base + limpia@.take(k as int),
            decreases limpia@.len() - k,
        {
            salida.push(limpia[k]);
            proof {
                assert(limpia@.take(k + 1) =~= limpia@.take(k as int).push(limpia@[k as int]));
            }
            k = k + 1;
        }
        salida.push('"');
        salida.push('*');
        *n = *n + 1;
        proof {
            assert(limpia@.take(limpia@.len() as int) =~= limpia@);
            assert(salida@ =~= old(salida)@ + (if *old(n) > 0 {
                seq![' ']
            } else {
                seq![]
            }) + como_termino(limpia@));
        }
    }
}

proof fn lema_terminos_largo(ws: Seq<Seq<char>>)
    ensures
        terminos(ws).len() <= ws.len(),
    decreases ws.len(),
{
    if ws.len() > 0 {
        lema_terminos_largo(ws.drop_last());
    }
}

proof fn lema_partir_largo(s: Seq<char>)
    ensures
        partir(s).0.len() + partir(s).1.len() <= s.len(),
    decreases s.len(),
{
    if s.len() > 0 {
        lema_partir_largo(s.drop_last());
    }
}

/// La consulta para la tabla de búsqueda de texto completo: cada palabra
/// sin comillas dobles (para que los signos de la sintaxis de búsqueda no
/// la rompan), entre comillas y como prefijo; `None` si no queda ninguna.
pub fn construir_consulta_fts(consulta: &str) -> (r: Option<String>)
    ensures
        match r {
            Some(q) => consulta_fts(consulta@) == Some(q@),
            None => consulta_fts(consulta@) is None,
        },
{
    let v = caracteres(consulta);
    let mut salida: Vec<char> = Vec::new();
    let mut n: usize = 0;
    let mut actual: Vec<char> = Vec::new();
    let mut i: usize = 0;
    while i < v.len()
        invariant
            v@ == consulta@,
            i <= v@.len(),
            salida@ == unir(terminos(partir(v@.take(i as int)).0), seq![' ']),
            n == terminos(partir(v@.take(i as int)).0).len(),
            n <= i,
            actual@ == partir(v@.take(i as int)).1,
        decreases v@.len() - i,
    {
        let ghost antes = partir(v@.take(i as int));
        proof {
            assert(v@.take(i + 1).drop_last() =~= v@.take(i as int));
            assert(v@.take(i + 1).last() == v@[i as int]);
            lema_terminos_largo(antes.0);
            lema_partir_largo(v@.take(i as int));
        }
        let c = v[i];
        if es_espacio_exec(c) {
            if actual.len() > 0 {
                cerrar_palabra(&mut salida, &mut n, &actual, Ghost(antes.0));
                proof {
                    lema_terminos_largo(antes.0.push(actual@));
                }
                actual = Vec::new();
            }
        } else {
            actual.push(c);
        }
        i = i + 1;
    }
    proof {
        assert(v@.take(v@.len() as int) =~= v@);
    }
    let ghost fin = partir(v@);
    if actual.len() > 0 {
        proof {
            lema_terminos_largo(fin.0);
            lema_partir_largo(v@);
        }
        cerrar_palabra(&mut salida, &mut n, &actual, Ghost(fin.0));
    }
    if n == 0 {
        None
    } else {
        Some(cadena_de_caracteres(salida.as_slice()))
    }
}

/// Un código de fabricante por sus textos.
pub open spec fn vista_codigo(c: CodigoFabricante) -> (Seq<char>, Option<Seq<char>>, Option<Seq<char>>) {
    (c.codigo@, vista(c.fabricante_nombre), vista(c.observacion))
}

/// Los códigos que se guardan: cada uno recortado, salteando los que
/// quedan en blanco, en el orden del formulario.
pub open spec fn codigos_guardados(cs: Seq<CodigoFabricante>) -> Seq<
    (Seq<char>, Option<Seq<char>>, Option<Seq<char>>),
>
    decreases cs.len(),
{
    if cs.len() == 0 {
        seq![]
    } else {
        let previos = codigos_guardados(cs.drop_last());
        let c = cs.last();
        if recorte(c.codigo@).len() == 0 {
            previos
        } else {
            previos.push((recorte(c.codigo@), vista(c.fabricante_nombre), vista(c.observacion)))
        }
    }
}

/// Los códigos de fabricante tal como se guardan.
pub fn codigos_a_guardar(codigos: &Vec<CodigoFabricante>) -> (r: Vec<CodigoFabricante>)
    ensures
        r@.map_values(|c: CodigoFabricante| vista_codigo(c)) == codigos_guardados(codigos@),
{
    let mut r: Vec<CodigoFabricante> = Vec::new();
    let mut i: usize = 0;
    while i < codigos.len()
        invariant
            i <= codigos@.len(),
            r@.map_values(|c: CodigoFabricante| vista_codigo(c)) == codigos_guardados(
                codigos@.take(i as int),
            ),
        decreases codigos@.len() - i,
    {
        proof {
            assert(codigos@.take(i + 1).drop_last() =~= codigos@.take(i as int));
        }
        let c = &codigos[i];
        let ghost antes = r@;
        if !esta_en_blanco(c.codigo.as_str()) {
            r.push(
                CodigoFabricante {
                    codigo: recortado(c.codigo.as_str()),
                    fabricante_nombre: copiar_opcional(&c.fabricante_nombre),
                    observacion: copiar_opcional(&c.observacion),
                },
            );
            proof {
                assert(r@.map_values(|c: CodigoFabricante| vista_codigo(c)) =~= antes.map_values(
                    |c: CodigoFabricante| vista_codigo(c),
                ).push(vista_codigo(r@.last())));
            }
        }
        i = i + 1;
    }
    proof {
        assert(codigos@.take(codigos@.len() as int) =~= codigos@);
    }
    r
}

/// Una copia de los códigos de fabricante.
fn copiar_codigos(v: &Vec<CodigoFabricante>) -> (r: Vec<CodigoFabricante>)
    ensures
        r@ == v@,
{
    let mut r: Vec<CodigoFabricante> = Vec::new();
    let mut i: usize = 0;
    while i < v.len()
        invariant
            i <= v@.len(),
            r@ == v@.take(i as int),
        decreases v@.len() - i,
    {
        let c = &v[i];
        r.push(
            CodigoFabricante {
                codigo: c.codigo.clone(),
                fabricante_nombre: copiar_opcional(&c.fabricante_nombre),
                observacion: copiar_opcional(&c.observacion),
            },
        );
        proof {
            assert(v@.take(i + 1) =~= v@.take(i as int).push(v@[i as int]));
        }
        i = i + 1;
    }
    proof {
        assert(v@.take(v@.len() as int) =~= v@);
    }
    r
}

/// El formulario que actualiza solo el costo de un producto existente:
/// todo lo demás queda como estaba (nombre, marca, categoría, textos,
/// precios de venta, estado y códigos de fabricante).
pub fn con_nuevo_costo(actual: &ProductoDetalle, costo: i64) -> (r: GuardarProducto)
    ensures
        r.costo_actual == Some(costo),
        r.nombre == actual.producto.nombre,
        r.marca_id == actual.producto.marca_id,
        r.categoria_id == actual.producto.categoria_id,
        r.descripcion == actual.producto.descripcion,
        r.observaciones == actual.producto.observaciones,
        r.precio_venta_actual == actual.producto.precio_venta_actual,
        r.precio_publico_referencia == actual.producto.precio_publico_referencia,
        r.estado == actual.producto.estado,
        r.codigos_fabricante@ == actual.codigos_fabricante@,
{
    let p = &actual.producto;
    GuardarProducto {
        nombre: p.nombre.clone(),
        marca_id: p.marca_id,
        categoria_id: p.categoria_id,
        descripcion: copiar_opcional(&p.descripcion),
        observaciones: copiar_opcional(&p.observaciones),
        costo_actual: Some(costo),
        precio_venta_actual: p.precio_venta_actual,
        precio_publico_referencia: p.precio_publico_referencia,
        estado: p.estado.clone(),
        codigos_fabricante: copiar_codigos(&actual.codigos_fabricante),
    }
}

/// Lo que se indexa para la búsqueda de un producto.
#[derive(Debug, Clone, PartialEq, Eq)]
pub struct FilaBusqueda {
    pub nombre: String,
    pub codigo_interno: String,
    /// La marca, o vacío si no tiene.
    pub marca: String,
    /// La categoría, o vacío si no tiene.
    pub categoria: String,
    /// Los códigos de fabricante separados por un espacio.
    pub codigos_fabricante: String,
}

pub open spec fn o_vacio(o: Option<String>) -> Seq<char> {
    match o {
        Some(s) => s@,
        None => seq![],
    }
}

/// Une los textos con un espacio entre cada par.
fn unir_con_espacios(textos: &Vec<String>) -> (r: String)
    ensures
        r@ == unir(textos@.map_values(|t: String| t@), seq![' ']),
{
    let ghost vistas = textos@.map_values(|t: String| t@);
    let mut salida: Vec<char> = Vec::new();
    let mut i: usize = 0;
    while i < textos.len()
        invariant
            i <= textos@.len(),
            vistas == textos@.map_values(|t: String| t@),
            salida@ == unir(vistas.take(i as int), seq![' ']),
        decreases textos@.len() - i,
    {
        proof {
            assert(vistas.take(i + 1) =~= vistas.take(i as int).push(vistas[i as int]));
            lema_unir_push(vistas.take(i as int), vistas[i as int], seq![' ']);
        }
        let ghost base = salida@;
        if i > 0 {
            salida.push(' ');
        }
        let cs = caracteres(textos[i].as_str());
        let ghost medio = salida@;
        let mut k: usize = 0;
        while k < cs.len()
            invariant
                k <= cs@.len(),
                salida@ == medio + cs@.take(k as int),
            decreases cs@.len() - k,
        {
            salida.push(cs[k]);
            proof {
                assert(cs@.take(k + 1) =~= cs@.take(k as int).push(cs@[k as int]));
            }
            k = k + 1;
        }
        proof {
            assert(cs@.take(cs@.len() as int) =~= cs@);
            assert(salida@ =~= base + (if i > 0 {
                seq![' ']
            } else {
                seq![]
            }) + vistas[i as int]);
        }
        i = i + 1;
    }
    proof {
        assert(vistas.take(vistas.len() as int) =~= vistas);
    }
    cadena_de_caracteres(salida.as_slice())
}

/// Arma la fila de búsqueda de un producto con su nombre, código
/// interno, marca, categoría y códigos de fabricante.
pub fn fila_de_busqueda(
    nombre: String,
    codigo_interno: String,
    marca: Option<String>,
    categoria: Option<String>,
    codigos: &Vec<String>,
) -> (r: FilaBusqueda)
    ensures
        r.nombre == nombre,
        r.codigo_interno == codigo_interno,
        r.marca@ == o_vacio(marca),
        r.categoria@ == o_vacio(categoria),
        r.codigos_fabricante@ == unir(codigos@.map_values(|t: String| t@), seq![' ']),
{
    let marca = match marca {
        Some(m) => m,
        None => String::new(),
    };
    let categoria = match categoria {
        Some(c) => c,
        None => String::new(),
    };
    FilaBusqueda {
        nombre,
        codigo_interno,
        marca,
        categoria,
        codigos_fabricante: unir_con_espacios(codigos),
    }
}

} // verus!
