//! Reglas de los catálogos simples (clientes, proveedores, categorías,
//! marcas, vínculos producto-proveedor), de la ficha del negocio, del
//! resumen de caja y de los comprobantes.
use vstd::prelude::*;

use crate::error::{validacion, AppError, TipoError};
use crate::modelos::{
    ConfiguracionNegocio, GuardarCliente, GuardarProveedor, MontoPorMetodo, NuevaCategoria,
    ResumenCaja, ID_CONSUMIDOR_FINAL,
};
use crate::sumas::suma;
use crate::texto::{
    con_numero, concatenar, lema_recorte_idempotente, decimal_con_ceros, entero_con_ceros, esta_en_blanco, lema_ceros_inyectiva,
    mismo_texto, recortado, recorte,
};

verus! {

/// Un nombre obligatorio: se guarda recortado y no puede quedar vacío.
pub fn nombre_obligatorio(nombre: &str, mensaje: &str) -> (r: Result<String, AppError>)
    ensures
        r is Ok <==> recorte(nombre@).len() > 0,
        r matches Ok(n) ==> n@ == recorte(nombre@),
        r matches Err(e) ==> e matches AppError::Validation(m) && m@ == mensaje@,
{
    if esta_en_blanco(nombre) {
        Err(validacion(mensaje))
    } else {
        Ok(recortado(nombre))
    }
}

/// El nombre con el que se guarda un cliente nuevo.
pub fn validar_cliente(datos: &GuardarCliente) -> (r: Result<String, AppError>)
    ensures
        r is Ok <==> recorte(datos.nombre@).len() > 0,
        r matches Ok(n) ==> n@ == recorte(datos.nombre@),
        r matches Err(e) ==> e.tipo() == TipoError::Validacion,
{
    nombre_obligatorio(datos.nombre.as_str(), "El nombre del cliente no puede estar vacío.")
}

/// El nombre con el que se guarda la edición de un cliente. "Consumidor
/// final" es un cliente reservado del sistema y no se edita.
pub fn validar_edicion_cliente(id: i64, datos: &GuardarCliente) -> (r: Result<String, AppError>)
    ensures
        r is Ok <==> id != ID_CONSUMIDOR_FINAL && recorte(datos.nombre@).len() > 0,
        r matches Ok(n) ==> n@ == recorte(datos.nombre@),
        r matches Err(e) ==> e.tipo() == TipoError::Validacion,
{
    if id == ID_CONSUMIDOR_FINAL {
        return Err(
            validacion(
                "\"Consumidor final\" es un cliente reservado del sistema y no se puede editar.",
            ),
        );
    }
    validar_cliente(datos)
}

/// El patrón de búsqueda por contenido: la consulta recortada entre `%`.
pub fn patron_busqueda(consulta: &str) -> (r: String)
    ensures
        r@ == "%"@ + recorte(consulta@) + "%"@,
{
    let limpia = recortado(consulta);
    let a = concatenar("%", limpia.as_str());
    concatenar(a.as_str(), "%")
}

/// El nombre con el que se guarda un proveedor, nuevo o editado.
pub fn validar_proveedor(datos: &GuardarProveedor) -> (r: Result<String, AppError>)
    ensures
        r is Ok <==> recorte(datos.nombre@).len() > 0,
        r matches Ok(n) ==> n@ == recorte(datos.nombre@),
        r matches Err(e) ==> e.tipo() == TipoError::Validacion,
{
    nombre_obligatorio(datos.nombre.as_str(), "El nombre del proveedor no puede estar vacío.")
}

/// El nombre con el que se guarda una categoría.
pub fn validar_categoria(datos: &NuevaCategoria) -> (r: Result<String, AppError>)
    ensures
        r is Ok <==> recorte(datos.nombre@).len() > 0,
        r matches Ok(n) ==> n@ == recorte(datos.nombre@),
        r matches Err(e) ==> e.tipo() == TipoError::Validacion,
{
    nombre_obligatorio(datos.nombre.as_str(), "El nombre de la categoría no puede estar vacío.")
}

/// El nombre con el que se busca o se crea una marca.
pub fn validar_marca(nombre: &str) -> (r: Result<String, AppError>)
    ensures
        r is Ok <==> recorte(nombre@).len() > 0,
        r matches Ok(n) ==> n@ == recorte(nombre@),
        r matches Err(e) ==> e.tipo() == TipoError::Validacion,
{
    nombre_obligatorio(nombre, "El nombre de la marca no puede estar vacío.")
}

/// Qué hacer al agregar un producto a un proveedor: si el producto no
/// existe, no se puede; si el vínculo ya existía (aunque se lo hubiera
/// quitado), se actualiza y reactiva esa misma fila (`Some(id)`); si no,
/// se crea uno nuevo (`None`). Así reactivar no duplica vínculos
/// (`ley_agregar_dos_veces_un_vinculo`).
pub fn vinculo_a_guardar(producto_id: i64, producto_existe: bool, existente: Option<i64>) -> (r: Result<
    Option<i64>,
    AppError,
>)
    ensures
        r is Err <==> !producto_existe,
        r matches Err(e) ==> e.tipo() == TipoError::NoEncontrado,
        r matches Ok(v) ==> v == existente,
{
    if !producto_existe {
        return Err(AppError::NotFound(con_numero("No existe el producto ", producto_id, ".")));
    }
    Ok(existente)
}

/// El vínculo que la base tiene para un producto entre los de un
/// proveedor (producto → id de la fila), si lo tiene.
pub open spec fn vinculo_de(vinculos: Map<i64, i64>, producto: i64) -> Option<i64> {
    if vinculos.dom().contains(producto) {
        Some(vinculos[producto])
    } else {
        None
    }
}

/// Los vínculos de un proveedor después de agregarle un producto que
/// existe, según lo que decide `vinculo_a_guardar` con el vínculo que ya
/// había: se reusa esa fila, o se crea una con el id `nuevo_id` que le da
/// la base.
pub open spec fn vinculos_tras_agregar(vinculos: Map<i64, i64>, producto: i64, nuevo_id: i64) -> Map<
    i64,
    i64,
> {
    match vinculo_de(vinculos, producto) {
        Some(id) => vinculos.insert(producto, id),
        None => vinculos.insert(producto, nuevo_id),
    }
}

/// Agregar dos veces el mismo producto a un proveedor (aunque en el medio
/// se lo haya quitado, que solo lo desactiva) deja un único vínculo para
/// él, el de la primera vez: la segunda reusa esa fila.
pub proof fn ley_agregar_dos_veces_un_vinculo(vinculos: Map<i64, i64>, producto: i64, id1: i64, id2: i64)
    ensures
        vinculos_tras_agregar(vinculos_tras_agregar(vinculos, producto, id1), producto, id2)
            == vinculos_tras_agregar(vinculos, producto, id1),
        vinculos_tras_agregar(vinculos, producto, id1).dom() == vinculos.dom().insert(producto),
        vinculo_de(vinculos_tras_agregar(vinculos, producto, id1), producto) == Some(
            match vinculo_de(vinculos, producto) {
                Some(id) => id,
                None => id1,
            },
        ),
{
    let m1 = vinculos_tras_agregar(vinculos, producto, id1);
    assert(m1.dom().contains(producto));
    assert(m1.insert(producto, m1[producto]) =~= m1);
    if vinculos.dom().contains(producto) {
        assert(vinculos.insert(producto, vinculos[producto]) =~= vinculos);
    }
    assert(m1.dom() =~= vinculos.dom().insert(producto));
}

// ---------------------------------------------------------------- negocio

/// La ficha del negocio que se guarda: todo recortado, con nombre
/// obligatorio porque encabeza los comprobantes.
pub fn guardar_negocio(datos: &ConfiguracionNegocio) -> (r: Result<ConfiguracionNegocio, AppError>)
    ensures
        r is Ok <==> recorte(datos.nombre@).len() > 0,
        r matches Err(e) ==> e.tipo() == TipoError::Validacion,
        r matches Ok(g) ==> {
            &&& g.nombre@ == recorte(datos.nombre@)
            &&& g.direccion@ == recorte(datos.direccion@)
            &&& g.telefono@ == recorte(datos.telefono@)
        },
{
    let nombre = nombre_obligatorio(
        datos.nombre.as_str(),
        "El nombre del negocio no puede estar vacío: aparece en el encabezado de los comprobantes.",
    )?;
    Ok(
        ConfiguracionNegocio {
            nombre,
            direccion: recortado(datos.direccion.as_str()),
            telefono: recortado(datos.telefono.as_str()),
        },
    )
}

pub open spec fn o_vacio(o: Option<String>) -> Seq<char> {
    match o {
        Some(s) => s@,
        None => seq![],
    }
}

fn texto_o_vacio(o: Option<String>) -> (r: String)
    ensures
        r@ == o_vacio(o),
{
    match o {
        Some(s) => s,
        None => String::new(),
    }
}

/// La ficha leída: lo que nunca se cargó queda vacío, no es un error.
pub fn negocio_de(nombre: Option<String>, direccion: Option<String>, telefono: Option<String>) -> (r:
    ConfiguracionNegocio)
    ensures
        r.nombre@ == o_vacio(nombre),
        r.direccion@ == o_vacio(direccion),
        r.telefono@ == o_vacio(telefono),
{
    ConfiguracionNegocio {
        nombre: texto_o_vacio(nombre),
        direccion: texto_o_vacio(direccion),
        telefono: texto_o_vacio(telefono),
    }
}

/// Guardar la ficha y volver a leerla da lo guardado (los tres campos
/// recortados), y guardar otra vez lo releído se acepta y no cambia nada:
/// el nombre sigue sin estar en blanco y recortar lo ya recortado lo deja
/// igual.
pub proof fn ley_guardar_y_releer_negocio(datos: ConfiguracionNegocio, g: ConfiguracionNegocio, r: ConfiguracionNegocio)
    requires
        recorte(datos.nombre@).len() > 0,
        g.nombre@ == recorte(datos.nombre@),
        g.direccion@ == recorte(datos.direccion@),
        g.telefono@ == recorte(datos.telefono@),
        r.nombre@ == o_vacio(Some(g.nombre)),
        r.direccion@ == o_vacio(Some(g.direccion)),
        r.telefono@ == o_vacio(Some(g.telefono)),
    ensures
        r.nombre@ == recorte(datos.nombre@),
        r.direccion@ == recorte(datos.direccion@),
        r.telefono@ == recorte(datos.telefono@),
        recorte(r.nombre@).len() > 0,
        recorte(r.nombre@) == r.nombre@,
        recorte(r.direccion@) == r.direccion@,
        recorte(r.telefono@) == r.telefono@,
{
    lema_recorte_idempotente(datos.nombre@);
    lema_recorte_idempotente(datos.direccion@);
    lema_recorte_idempotente(datos.telefono@);
}

// ------------------------------------------------------------------- caja

/// El método de pago de la cuenta corriente: lo fiado, no lo cobrado.
pub open spec fn es_cuenta_corriente(m: MontoPorMetodo) -> bool {
    m.metodo_pago_nombre@ == "cuenta_corriente"@
}

/// Los montos de los métodos que cumplen (o no) ser cuenta corriente.
pub open spec fn montos_donde(ms: Seq<MontoPorMetodo>, fiado: bool) -> Seq<int>
    decreases ms.len(),
{
    if ms.len() == 0 {
        seq![]
    } else {
        let previos = montos_donde(ms.drop_last(), fiado);
        if es_cuenta_corriente(ms.last()) == fiado {
            previos.push(ms.last().monto as int)
        } else {
            previos
        }
    }
}

/// Lo cobrado en el día: todo menos la cuenta corriente.
pub open spec fn total_cobrado(ms: Seq<MontoPorMetodo>) -> int {
    suma(montos_donde(ms, false))
}

/// Lo fiado en el día: solo la cuenta corriente.
pub open spec fn total_fiado(ms: Seq<MontoPorMetodo>) -> int {
    suma(montos_donde(ms, true))
}

/// Todos los montos del día.
pub open spec fn montos(ms: Seq<MontoPorMetodo>) -> Seq<int> {
    ms.map_values(|m: MontoPorMetodo| m.monto as int)
}

proof fn lema_montos_donde_push(ms: Seq<MontoPorMetodo>, i: int)
    requires
        0 <= i < ms.len(),
    ensures
        total_cobrado(ms.take(i + 1)) == total_cobrado(ms.take(i)) + if !es_cuenta_corriente(
            ms[i],
        ) {
            ms[i].monto as int
        } else {
            0
        },
        total_fiado(ms.take(i + 1)) == total_fiado(ms.take(i)) + if es_cuenta_corriente(ms[i]) {
            ms[i].monto as int
        } else {
            0
        },
{
    assert(ms.take(i + 1).drop_last() =~= ms.take(i));
    crate::sumas::lema_suma_push(montos_donde(ms.take(i), false), ms[i].monto as int);
    crate::sumas::lema_suma_push(montos_donde(ms.take(i), true), ms[i].monto as int);
}

/// Lo cobrado y lo fiado de un día, de los montos por método de pago.
/// Los totales tienen que entrar en 64 bits, como en la base.
pub fn totales_de_caja(por_metodo: &Vec<MontoPorMetodo>) -> (r: (i64, i64))
    requires
        forall|i: int|
            0 <= i <= por_metodo@.len() ==> i64::MIN <= total_cobrado(#[trigger] por_metodo@.take(i))
                <= i64::MAX && i64::MIN <= total_fiado(por_metodo@.take(i)) <= i64::MAX,
    ensures
        r.0 == total_cobrado(por_metodo@),
        r.1 == total_fiado(por_metodo@),
{
    let mut cobrado: i64 = 0;
    let mut fiado: i64 = 0;
    let mut i: usize = 0;
    proof {
        assert(por_metodo@.take(0).len() == 0);
    }
    while i < por_metodo.len()
        invariant
            i <= por_metodo@.len(),
            cobrado == total_cobrado(por_metodo@.take(i as int)),
            fiado == total_fiado(por_metodo@.take(i as int)),
            forall|i: int|
                0 <= i <= por_metodo@.len() ==> i64::MIN <= total_cobrado(
                    #[trigger] por_metodo@.take(i),
                ) <= i64::MAX && i64::MIN <= total_fiado(por_metodo@.take(i)) <= i64::MAX,
        decreases por_metodo@.len() - i,
    {
        let m = &por_metodo[i];
        proof {
            lema_montos_donde_push(por_metodo@, i as int);
            assert(i64::MIN <= total_cobrado(por_metodo@.take(i + 1)) <= i64::MAX);
            assert(i64::MIN <= total_fiado(por_metodo@.take(i + 1)) <= i64::MAX);
        }
        if mismo_texto(m.metodo_pago_nombre.as_str(), "cuenta_corriente") {
            fiado = fiado + m.monto;
        } else {
            cobrado = cobrado + m.monto;
        }
        i = i + 1;
    }
    proof {
        assert(por_metodo@.take(por_metodo@.len() as int) =~= por_metodo@);
    }
    (cobrado, fiado)
}

/// El resumen de caja del día, recalculado siempre de los pagos.
pub fn resumen_caja(fecha: String, por_metodo: Vec<MontoPorMetodo>, cantidad_ventas: i64) -> (r:
    ResumenCaja)
    requires
        forall|i: int|
            0 <= i <= por_metodo@.len() ==> i64::MIN <= total_cobrado(#[trigger] por_metodo@.take(i))
                <= i64::MAX && i64::MIN <= total_fiado(por_metodo@.take(i)) <= i64::MAX,
    ensures
        r.fecha == fecha,
        r.por_metodo@ == por_metodo@,
        r.total_cobrado == total_cobrado(por_metodo@),
        r.total_fiado == total_fiado(por_metodo@),
        r.cantidad_ventas == cantidad_ventas,
{
    let (total_cobrado, total_fiado) = totales_de_caja(&por_metodo);
    ResumenCaja { fecha, por_metodo, total_cobrado, total_fiado, cantidad_ventas }
}

/// Lo cobrado más lo fiado es todo lo que entró por cualquier método: la
/// caja no pierde ni inventa plata al separar la cuenta corriente.
pub proof fn ley_caja_cobrado_mas_fiado(ms: Seq<MontoPorMetodo>)
    ensures
        total_cobrado(ms) + total_fiado(ms) == suma(montos(ms)),
    decreases ms.len(),
{
    if ms.len() > 0 {
        let resto = ms.drop_last();
        ley_caja_cobrado_mas_fiado(resto);
        crate::sumas::lema_suma_push(montos_donde(resto, false), ms.last().monto as int);
        crate::sumas::lema_suma_push(montos_donde(resto, true), ms.last().monto as int);
        crate::sumas::lema_suma_push(montos(resto), ms.last().monto as int);
        assert(montos(ms) =~= montos(resto).push(ms.last().monto as int));
    }
}

// ---------------------------------------------------------- comprobantes

pub open spec fn tipo_de_comprobante_valido(t: Seq<char>) -> bool {
    t == "ticket"@ || t == "a4"@
}

/// El prefijo del número: `TCK` para tickets, `A4` para lo demás.
pub fn prefijo(tipo: &str) -> (r: &'static str)
    ensures
        r@ == if tipo@ == "ticket"@ {
            "TCK"@
        } else {
            "A4"@
        },
{
    if mismo_texto(tipo, "ticket") {
        "TCK"
    } else {
        "A4"
    }
}

/// El número de un comprobante: el prefijo de su tipo, un guion y el id
/// con ceros hasta seis cifras. Sale del id, así que nunca se reutiliza.
pub fn numero_comprobante(tipo: &str, id: i64) -> (r: String)
    ensures
        r@ == (if tipo@ == "ticket"@ {
            "TCK"@
        } else {
            "A4"@
        }) + "-"@ + decimal_con_ceros(id as int, 6),
{
    let p = prefijo(tipo);
    let a = concatenar(p, "-");
    let n = entero_con_ceros(id, 6);
    concatenar(a.as_str(), n.as_str())
}

/// El número de un comprobante nunca se repite: dos comprobantes (de id
/// positivo) distintos del mismo tipo tienen números distintos.
pub proof fn ley_numero_comprobante_unico(prefijo: Seq<char>, id1: i64, id2: i64)
    requires
        id1 >= 0,
        id2 >= 0,
        id1 != id2,
    ensures
        prefijo + "-"@ + decimal_con_ceros(id1 as int, 6) != prefijo + "-"@ + decimal_con_ceros(
            id2 as int,
            6,
        ),
{
    let p = prefijo + "-"@;
    if p + decimal_con_ceros(id1 as int, 6) == p + decimal_con_ceros(id2 as int, 6) {
        let a = p + decimal_con_ceros(id1 as int, 6);
        assert(decimal_con_ceros(id1 as int, 6) =~= a.skip(p.len() as int));
        assert(decimal_con_ceros(id2 as int, 6) =~= a.skip(p.len() as int));
        lema_ceros_inyectiva(id1 as int, id2 as int, 6);
    }
}

/// Cuándo no se puede pedir el comprobante de una venta: tipo inválido,
/// la venta no existe (`None`) o no está confirmada.
pub open spec fn error_pedido_comprobante(tipo: Seq<char>, estado_venta: Option<Seq<char>>) -> Option<
    TipoError,
> {
    if !tipo_de_comprobante_valido(tipo) {
        Some(TipoError::Validacion)
    } else if estado_venta is None {
        Some(TipoError::NoEncontrado)
    } else if estado_venta->0 != "confirmada"@ {
        Some(TipoError::Validacion)
    } else {
        None
    }
}

/// Revisa un pedido de comprobante para la venta `venta_id`: el tipo y el
/// estado de la venta (`None` si la venta no existe).
pub fn validar_pedido_comprobante(venta_id: i64, tipo: &str, estado_venta: Option<&str>) -> (r: Result<(), AppError>)
    ensures
        r is Err <==> error_pedido_comprobante(
            tipo@,
            match estado_venta {
                Some(e) => Some(e@),
                None => None,
            },
        ) is Some,
        r matches Err(e) ==> Some(e.tipo()) == error_pedido_comprobante(
            tipo@,
            match estado_venta {
                Some(e) => Some(e@),
                None => None,
            },
        ),
{
    if !(mismo_texto(tipo, "ticket") || mismo_texto(tipo, "a4")) {
        return Err(validacion("Tipo de comprobante inválido."));
    }
    match estado_venta {
        None => Err(AppError::NotFound(con_numero("No existe la venta ", venta_id, "."))),
        Some(estado) => {
            if mismo_texto(estado, "confirmada") {
                Ok(())
            } else {
                Err(
                    validacion(
                        "No se puede generar un comprobante de una venta que no está confirmada.",
                    ),
                )
            }
        },
    }
}

/// Qué comprobante devolver a un pedido: el que la venta ya tiene para
/// ese tipo (`existente`), que se reusa y nunca se duplica, o `Ok(None)`
/// si hay que crearlo. Los errores son los de `validar_pedido_comprobante`.
pub fn comprobante_a_usar(
    venta_id: i64,
    tipo: &str,
    estado_venta: Option<&str>,
    existente: Option<i64>,
) -> (r: Result<
    Option<i64>,
    AppError,
>)
    ensures
        r is Err <==> error_pedido_comprobante(
            tipo@,
            match estado_venta {
                Some(e) => Some(e@),
                None => None,
            },
        ) is Some,
        r matches Err(e) ==> Some(e.tipo()) == error_pedido_comprobante(
            tipo@,
            match estado_venta {
                Some(e) => Some(e@),
                None => None,
            },
        ),
        r matches Ok(v) ==> v == existente,
{
    match validar_pedido_comprobante(venta_id, tipo, estado_venta) {
        Err(e) => Err(e),
        Ok(()) => Ok(existente),
    }
}

/// Los eventos que se registran de un comprobante: impreso o PDF generado.
pub fn validar_evento(tipo_evento: &str) -> (r: Result<(), AppError>)
    ensures
        r is Ok <==> (tipo_evento@ == "impreso"@ || tipo_evento@ == "pdf_generado"@),
        r matches Err(e) ==> e.tipo() == TipoError::Validacion,
{
    if mismo_texto(tipo_evento, "impreso") || mismo_texto(tipo_evento, "pdf_generado") {
        Ok(())
    } else {
        Err(validacion("Tipo de evento de comprobante inválido."))
    }
}

} // verus!
