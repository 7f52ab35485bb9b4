//! Ventas: validación del carrito, totales recalculados, pagos que tienen
//! que cubrir exactamente el total, venta fiada solo a clientes
//! identificados, y lo que deshace una anulación.
use vstd::prelude::*;

use crate::error::{validacion, AppError, TipoError};
use crate::modelos::{CrearVenta, ItemCarrito, PagoInput, ID_CONSUMIDOR_FINAL};
use crate::sumas::{
    cantidad_de, lema_cantidad_de_take, lema_suma_monotona, lema_suma_no_negativa, lema_suma_prefijo, lema_suma_take, lema_suma_todo, suma,
};
use crate::texto::{con_numero, esta_en_blanco, mismo_texto, recortado, recorte, solo_espacios};

verus! {

/// Lo que hace falta saber de un producto para venderlo, tal como está en la base.
#[derive(Debug, Clone, PartialEq, Eq)]
pub struct ProductoParaVenta {
    pub estado: String,
    pub stock_actual: i64,
    pub costo_actual: Option<i64>,
}

/// Una línea a registrar, con el stock que le queda al producto.
#[derive(Debug, Clone, PartialEq, Eq)]
pub struct LineaVenta {
    pub producto_id: i64,
    pub cantidad: i64,
    pub precio_unitario: i64,
    pub descuento: i64,
    /// precio × cantidad − descuento.
    pub subtotal: i64,
    /// Copia del costo al vender, para el margen histórico.
    pub costo_unitario_snapshot: Option<i64>,
    /// Stock del producto después de descontar esta línea.
    pub stock_nuevo: i64,
}

/// Todo lo que escribe una venta confirmada.
#[derive(Debug, Clone, PartialEq, Eq)]
pub struct PlanVenta {
    pub cliente_id: i64,
    pub subtotal: i64,
    pub descuento_total: i64,
    pub total: i64,
    pub lineas: Vec<LineaVenta>,
    pub pagos: Vec<PagoInput>,
    /// Lo que se paga con el método "cuenta_corriente".
    pub monto_cuenta_corriente: i64,
    /// Saldo del cliente después de la venta fiada, si la hubo.
    pub saldo_nuevo: Option<i64>,
}

pub open spec fn importe(it: ItemCarrito) -> int {
    it.precio_unitario * it.cantidad
}

pub open spec fn item_valido(it: ItemCarrito) -> bool {
    &&& it.cantidad > 0
    &&& it.precio_unitario >= 0
    &&& it.descuento >= 0
    &&& it.descuento <= importe(it)
}

/// Lo que se controla antes de mirar la base: carrito y pagos no vacíos,
/// cantidades positivas, precios y descuentos no negativos, descuento no
/// mayor al importe de la línea y pagos positivos.
pub open spec fn entrada_venta_valida(d: CrearVenta) -> bool {
    &&& d.items@.len() > 0
    &&& d.pagos@.len() > 0
    &&& forall|i: int| 0 <= i < d.items@.len() ==> item_valido(#[trigger] d.items@[i])
    &&& forall|i: int| 0 <= i < d.pagos@.len() ==> #[trigger] d.pagos@[i].monto > 0
}

pub open spec fn importes(items: Seq<ItemCarrito>) -> Seq<int> {
    items.map_values(|it: ItemCarrito| importe(it))
}

pub open spec fn descuentos(items: Seq<ItemCarrito>) -> Seq<int> {
    items.map_values(|it: ItemCarrito| it.descuento as int)
}

pub open spec fn montos(pagos: Seq<PagoInput>) -> Seq<int> {
    pagos.map_values(|p: PagoInput| p.monto as int)
}

pub open spec fn es_cuenta_corriente(metodo: Option<String>) -> bool {
    metodo matches Some(nombre) && nombre@ == "cuenta_corriente"@
}

/// Lo pagado con "cuenta_corriente", pago por pago.
pub open spec fn montos_fiados(pagos: Seq<PagoInput>, metodos: Seq<Option<String>>) -> Seq<int> {
    Seq::new(
        pagos.len(),
        |i: int|
            if es_cuenta_corriente(metodos[i]) {
                pagos[i].monto as int
            } else {
                0
            },
    )
}

pub open spec fn subtotal_venta(d: CrearVenta) -> int {
    suma(importes(d.items@))
}

pub open spec fn descuento_venta(d: CrearVenta) -> int {
    suma(descuentos(d.items@))
}

pub open spec fn total_venta(d: CrearVenta) -> int {
    subtotal_venta(d) - descuento_venta(d)
}

pub open spec fn cliente_de(d: CrearVenta) -> i64 {
    match d.cliente_id {
        Some(c) => c,
        None => ID_CONSUMIDOR_FINAL,
    }
}

pub open spec fn producto_apto(p: Option<ProductoParaVenta>) -> bool {
    p matches Some(x) && x.estado@ == "activo"@
}

/// El primer producto (desde `i`) que no existe o no está activo;
/// `ps.len()` si no hay ninguno.
pub open spec fn primer_no_apto(ps: Seq<Option<ProductoParaVenta>>, i: int) -> int
    decreases ps.len() - i,
{
    if i >= ps.len() || i < 0 {
        ps.len() as int
    } else if !producto_apto(ps[i]) {
        i
    } else {
        primer_no_apto(ps, i + 1)
    }
}

/// Cada línea como (producto, cantidad).
pub open spec fn pares(items: Seq<ItemCarrito>) -> Seq<(i64, i64)> {
    items.map_values(|it: ItemCarrito| (it.producto_id, it.cantidad))
}

/// Los números no se salen de `i64` (límite de la máquina).
pub open spec fn venta_representable(
    d: CrearVenta,
    saldo: Option<i64>,
    ps: Seq<Option<ProductoParaVenta>>,
    ms: Seq<Option<String>>,
) -> bool {
    &&& forall|i: int|
        0 <= i < d.items@.len() && #[trigger] d.items@[i].cantidad > 0
            && d.items@[i].precio_unitario >= 0 ==> importe(d.items@[i]) <= i64::MAX
    &&& entrada_venta_valida(d) ==> {
        &&& subtotal_venta(d) <= i64::MAX
        &&& suma(montos(d.pagos@)) <= i64::MAX
    }
    &&& entrada_venta_valida(d) ==> forall|i: int|
        0 <= i < d.items@.len() ==> {
            let q = cantidad_de(pares(d.items@).take(i + 1), (#[trigger] d.items@[i]).producto_id);
            &&& q <= i64::MAX
            &&& (i < ps.len() && ps[i] is Some ==> ps[i]->0.stock_actual - q >= i64::MIN)
        }
    &&& saldo matches Some(s) ==> s + suma(montos(d.pagos@)) <= i64::MAX
}

/// Qué clase de error da la venta, o `None` si se confirma. El orden es el
/// de los controles: la entrada, el cliente, los productos uno por uno y
/// por último los pagos (método válido, suma igual al total, y fiado solo
/// con cliente identificado).
pub open spec fn error_venta(
    d: CrearVenta,
    saldo: Option<i64>,
    ps: Seq<Option<ProductoParaVenta>>,
    ms: Seq<Option<String>>,
) -> Option<TipoError> {
    let k = primer_no_apto(ps, 0);
    if !entrada_venta_valida(d) {
        Some(TipoError::Validacion)
    } else if saldo is None {
        Some(TipoError::NoEncontrado)
    } else if k < ps.len() {
        if ps[k] is None {
            Some(TipoError::NoEncontrado)
        } else {
            Some(TipoError::Validacion)
        }
    } else if exists|i: int| 0 <= i < ms.len() && (#[trigger] ms[i]) is None {
        Some(TipoError::Validacion)
    } else if suma(montos(d.pagos@)) != total_venta(d) {
        Some(TipoError::Validacion)
    } else if suma(montos_fiados(d.pagos@, ms)) > 0 && cliente_de(d) == ID_CONSUMIDOR_FINAL {
        Some(TipoError::Validacion)
    } else {
        None
    }
}

/// Controla el carrito y los pagos antes de tocar la base.
pub fn validar_crear_venta(datos: &CrearVenta) -> (r: Result<(), AppError>)
    requires
        forall|i: int|
            0 <= i < datos.items@.len() && #[trigger] datos.items@[i].cantidad > 0
                && datos.items@[i].precio_unitario >= 0 ==> importe(datos.items@[i])
                <= i64::MAX,
    ensures
        r is Ok <==> entrada_venta_valida(*datos),
        r matches Err(e) ==> e.tipo() == TipoError::Validacion,
{
    if datos.items.len() == 0 {
        return Err(validacion("El carrito está vacío."));
    }
    if datos.pagos.len() == 0 {
        return Err(validacion("Tenés que indicar al menos un método de pago."));
    }
    let mut i: usize = 0;
    while i < datos.items.len()
        invariant
            i <= datos.items@.len(),
            forall|j: int| 0 <= j < i ==> item_valido(#[trigger] datos.items@[j]),
            forall|i: int|
                0 <= i < datos.items@.len() && #[trigger] datos.items@[i].cantidad > 0
                    && datos.items@[i].precio_unitario >= 0 ==> importe(datos.items@[i])
                    <= i64::MAX,
        decreases datos.items@.len() - i,
    {
        let item = &datos.items[i];
        if item.cantidad <= 0 {
            return Err(validacion("La cantidad tiene que ser mayor a 0."));
        }
        if item.precio_unitario < 0 || item.descuento < 0 {
            return Err(validacion("El precio y el descuento no pueden ser negativos."));
        }
        assert(importe(datos.items@[i as int]) <= i64::MAX);
        assert(0 <= importe(*item)) by (nonlinear_arith)
            requires
                item.precio_unitario >= 0,
                item.cantidad > 0,
        ;
        if item.descuento > item.precio_unitario * item.cantidad {
            return Err(validacion("El descuento no puede ser mayor al importe de la línea."));
        }
        i = i + 1;
    }
    let mut j: usize = 0;
    while j < datos.pagos.len()
        invariant
            j <= datos.pagos@.len(),
            forall|k: int| 0 <= k < j ==> #[trigger] datos.pagos@[k].monto > 0,
        decreases datos.pagos@.len() - j,
    {
        if datos.pagos[j].monto <= 0 {
            return Err(validacion("Cada pago tiene que ser mayor a 0."));
        }
        j = j + 1;
    }
    Ok(())
}

proof fn lema_primer_no_apto(ps: Seq<Option<ProductoParaVenta>>, k: int, i: int)
    requires
        0 <= k <= i <= ps.len(),
        forall|j: int| 0 <= j < i ==> producto_apto(#[trigger] ps[j]),
        i == ps.len() || !producto_apto(ps[i]),
    ensures
        primer_no_apto(ps, k) == i,
    decreases i - k,
{
    if k < i {
        lema_primer_no_apto(ps, k + 1, i);
    }
}

proof fn lema_importes_no_negativos(d: CrearVenta)
    requires
        entrada_venta_valida(d),
    ensures
        forall|k: int| 0 <= k < importes(d.items@).len() ==> importes(d.items@)[k] >= 0,
        forall|k: int| 0 <= k < descuentos(d.items@).len() ==> descuentos(d.items@)[k] >= 0,
        forall|k: int| 0 <= k < montos(d.pagos@).len() ==> montos(d.pagos@)[k] >= 0,
        forall|k: int|
            0 <= k < descuentos(d.items@).len() ==> descuentos(d.items@)[k] <= importes(
                d.items@,
            )[k],
{
    assert forall|k: int| 0 <= k < importes(d.items@).len() implies importes(d.items@)[k] >= 0 by {
        let it = d.items@[k];
        assert(item_valido(it));
        assert(it.precio_unitario * it.cantidad >= 0) by (nonlinear_arith)
            requires
                it.precio_unitario >= 0,
                it.cantidad > 0,
        ;
    }
    assert forall|k: int| 0 <= k < descuentos(d.items@).len() implies descuentos(d.items@)[k]
        <= importes(d.items@)[k] by {
        assert(item_valido(d.items@[k]));
    }
    assert forall|k: int| 0 <= k < montos(d.pagos@).len() implies montos(d.pagos@)[k] >= 0 by {
        assert(d.pagos@[k].monto > 0);
    }
}

/// Decide la venta a partir de lo leído de la base: el saldo del cliente
/// (`None` si no existe), cada producto del carrito en orden (`None` si no
/// existe) y el nombre de cada método de pago en orden (`None` si no existe
/// o está inactivo). Si se confirma, devuelve todo lo que hay que escribir.
pub fn planificar_venta(
    datos: &CrearVenta,
    saldo_cliente: Option<i64>,
    productos: &Vec<Option<ProductoParaVenta>>,
    metodos: &Vec<Option<String>>,
) -> (r: Result<PlanVenta, AppError>)
    requires
        productos@.len() == datos.items@.len(),
        metodos@.len() == datos.pagos@.len(),
        venta_representable(*datos, saldo_cliente, productos@, metodos@),
    ensures
        r is Ok <==> error_venta(*datos, saldo_cliente, productos@, metodos@) is None,
        r matches Err(e) ==> Some(e.tipo()) == error_venta(
            *datos,
            saldo_cliente,
            productos@,
            metodos@,
        ),
        r matches Ok(plan) ==> {
            &&& plan.cliente_id == cliente_de(*datos)
            &&& plan.subtotal == subtotal_venta(*datos)
            &&& plan.descuento_total == descuento_venta(*datos)
            &&& plan.total == total_venta(*datos)
            &&& plan.total == suma(montos(datos.pagos@))
            &&& 0 <= plan.total <= plan.subtotal
            &&& plan.pagos@ == datos.pagos@
            &&& plan.lineas@.len() == datos.items@.len()
            &&& forall|i: int|
                0 <= i < plan.lineas@.len() ==> {
                    let l = #[trigger] plan.lineas@[i];
                    let it = datos.items@[i];
                    let p = productos@[i]->0;
                    &&& l.producto_id == it.producto_id
                    &&& l.cantidad == it.cantidad
                    &&& l.precio_unitario == it.precio_unitario
                    &&& l.descuento == it.descuento
                    &&& l.subtotal == importe(it) - it.descuento
                    &&& l.costo_unitario_snapshot == p.costo_actual
                    &&& l.stock_nuevo == p.stock_actual - cantidad_de(
                        pares(datos.items@).take(i + 1),
                        it.producto_id,
                    )
                }
            &&& plan.monto_cuenta_corriente == suma(montos_fiados(datos.pagos@, metodos@))
            &&& plan.monto_cuenta_corriente > 0 ==> plan.cliente_id != ID_CONSUMIDOR_FINAL
            &&& plan.saldo_nuevo == if plan.monto_cuenta_corriente > 0 {
                Some((saldo_cliente->0 + plan.monto_cuenta_corriente) as i64)
            } else {
                None::<i64>
            }
        },
{
    let ghost d = *datos;
    validar_crear_venta(datos)?;
    let cliente_id = match datos.cliente_id {
        Some(c) => c,
        None => ID_CONSUMIDOR_FINAL,
    };
    let saldo = match saldo_cliente {
        Some(s) => s,
        None => {
            return Err(AppError::NotFound(con_numero("No existe el cliente ", cliente_id, ".")));
        },
    };
    proof {
        lema_importes_no_negativos(d);
    }

    // Primera pasada: cada producto tiene que existir y estar activo.
    let mut subtotal: i64 = 0;
    let mut descuento: i64 = 0;
    let mut i: usize = 0;
    while i < datos.items.len()
        invariant
            d == *datos,
            entrada_venta_valida(d),
            productos@.len() == d.items@.len(),
            venta_representable(d, saldo_cliente, productos@, metodos@),
            saldo_cliente is Some,
            i <= d.items@.len(),
            forall|j: int| 0 <= j < i ==> producto_apto(#[trigger] productos@[j]),
            subtotal == suma(importes(d.items@).take(i as int)),
            descuento == suma(descuentos(d.items@).take(i as int)),
            forall|k: int| 0 <= k < importes(d.items@).len() ==> importes(d.items@)[k] >= 0,
            forall|k: int| 0 <= k < descuentos(d.items@).len() ==> descuentos(d.items@)[k] >= 0,
            forall|k: int|
                0 <= k < descuentos(d.items@).len() ==> descuentos(d.items@)[k] <= importes(
                    d.items@,
                )[k],
        decreases d.items@.len() - i,
    {
        let item = &datos.items[i];
        let apto = match &productos[i] {
            Some(p) => mismo_texto(p.estado.as_str(), "activo"),
            None => {
                proof {
                    lema_primer_no_apto(productos@, 0, i as int);
                }
                return Err(AppError::NotFound(con_numero("No existe el producto ", item.producto_id, ".")));
            },
        };
        if !apto {
            proof {
                lema_primer_no_apto(productos@, 0, i as int);
            }
            return Err(AppError::Validation(con_numero("El producto ", item.producto_id, " no está activo.")));
        }
        proof {
            lema_suma_take(importes(d.items@), i as int);
            lema_suma_take(descuentos(d.items@), i as int);
            lema_suma_prefijo(importes(d.items@), i + 1);
            lema_suma_prefijo(descuentos(d.items@), i + 1);
            lema_suma_monotona(descuentos(d.items@), importes(d.items@));
            assert(importes(d.items@)[i as int] == item.precio_unitario * item.cantidad);
        }
        subtotal = subtotal + item.precio_unitario * item.cantidad;
        descuento = descuento + item.descuento;
        i = i + 1;
    }
    proof {
        lema_primer_no_apto(productos@, 0, d.items@.len() as int);
        lema_suma_todo(importes(d.items@));
        lema_suma_todo(descuentos(d.items@));
        lema_suma_monotona(descuentos(d.items@), importes(d.items@));
        lema_suma_no_negativa(descuentos(d.items@));
    }
    let total = subtotal - descuento;

    // Pagos: método válido, suma y parte fiada.
    let mut suma_pagos: i64 = 0;
    let mut fiado: i64 = 0;
    let mut j: usize = 0;
    while j < datos.pagos.len()
        invariant
            d == *datos,
            entrada_venta_valida(d),
            metodos@.len() == d.pagos@.len(),
            venta_representable(d, saldo_cliente, productos@, metodos@),
            j <= d.pagos@.len(),
            saldo_cliente is Some,
            productos@.len() == d.items@.len(),
            primer_no_apto(productos@, 0) == productos@.len(),
            forall|k: int| 0 <= k < j ==> (#[trigger] metodos@[k]) is Some,
            suma_pagos == suma(montos(d.pagos@).take(j as int)),
            fiado == suma(montos_fiados(d.pagos@, metodos@).take(j as int)),
            0 <= fiado <= suma_pagos,
            forall|k: int| 0 <= k < montos(d.pagos@).len() ==> montos(d.pagos@)[k] >= 0,
        decreases d.pagos@.len() - j,
    {
        let es_cc = match &metodos[j] {
            Some(nombre) => mismo_texto(nombre.as_str(), "cuenta_corriente"),
            None => {
                assert(metodos@[j as int] is None);
                return Err(validacion("Método de pago inválido."));
            },
        };
        let monto = datos.pagos[j].monto;
        proof {
            lema_suma_take(montos(d.pagos@), j as int);
            lema_suma_take(montos_fiados(d.pagos@, metodos@), j as int);
            lema_suma_prefijo(montos(d.pagos@), j + 1);
        }
        suma_pagos = suma_pagos + monto;
        if es_cc {
            fiado = fiado + monto;
        }
        j = j + 1;
    }
    proof {
        lema_suma_todo(montos(d.pagos@));
        lema_suma_todo(montos_fiados(d.pagos@, metodos@));
    }
    if suma_pagos != total {
        return Err(validacion("La suma de los pagos no coincide con el total de la venta."));
    }
    if fiado > 0 && cliente_id == ID_CONSUMIDOR_FINAL {
        return Err(
            validacion(
                "Una venta fiada necesita un cliente identificado: \"Consumidor final\" no puede quedar a cuenta corriente.",
            ),
        );
    }

    proof {
        assert forall|i: int| 0 <= i < pares(d.items@).len() implies (#[trigger] pares(
            d.items@,
        )[i]).1 >= 0 by {
            assert(item_valido(d.items@[i]));
        }
    }
    // Segunda pasada: las líneas a escribir.
    let mut lineas: Vec<LineaVenta> = Vec::new();
    let mut k: usize = 0;
    while k < datos.items.len()
        invariant
            d == *datos,
            entrada_venta_valida(d),
            productos@.len() == d.items@.len(),
            venta_representable(d, saldo_cliente, productos@, metodos@),
            forall|j: int| 0 <= j < d.items@.len() ==> producto_apto(#[trigger] productos@[j]),
            k <= d.items@.len(),
            lineas@.len() == k,
            forall|i: int|
                0 <= i < k ==> {
                    let l = #[trigger] lineas@[i];
                    let it = d.items@[i];
                    let p = productos@[i]->0;
                    &&& l.producto_id == it.producto_id
                    &&& l.cantidad == it.cantidad
                    &&& l.precio_unitario == it.precio_unitario
                    &&& l.descuento == it.descuento
                    &&& l.subtotal == importe(it) - it.descuento
                    &&& l.costo_unitario_snapshot == p.costo_actual
                    &&& l.stock_nuevo == p.stock_actual - cantidad_de(
                        pares(d.items@).take(i + 1),
                        it.producto_id,
                    )
                },
            forall|i: int| 0 <= i < pares(d.items@).len() ==> (#[trigger] pares(d.items@)[i]).1 >= 0,
        decreases d.items@.len() - k,
    {
        let item = &datos.items[k];
        assert(producto_apto(productos@[k as int]));
        let p = match &productos[k] {
            Some(p) => p,
            None => {
                return Err(AppError::NotFound(con_numero("No existe el producto ", item.producto_id, ".")));
            },
        };
        assert(item_valido(d.items@[k as int]));
        assert(importe(*item) <= i64::MAX);
        // Lo vendido de este producto hasta esta línea, inclusive.
        let ghost pid = item.producto_id;
        let ghost ps = pares(d.items@);
        assert(ps[k as int].0 == pid);
        let mut vendido: i64 = 0;
        let mut j: usize = 0;
        proof {
            assert(ps.take(0).len() == 0);
        }
        while j <= k
            invariant
                d == *datos,
                ps == pares(d.items@),
                k < datos.items.len(),
                k < d.items@.len(),
                j <= k + 1,
                pid == d.items@[k as int].producto_id,
                item.producto_id == pid,
                vendido == cantidad_de(ps.take(j as int), pid),
                cantidad_de(ps.take(k + 1), pid) <= i64::MAX,
                forall|i: int| 0 <= i < ps.len() ==> (#[trigger] ps[i]).1 >= 0,
            decreases k + 1 - j,
        {
            proof {
                lema_cantidad_de_take(ps, pid, j + 1, k + 1);
                assert(ps.take(j + 1).drop_last() =~= ps.take(j as int));
                assert(ps.take(j + 1).last() == ps[j as int]);
                assert(ps[j as int] == (d.items@[j as int].producto_id, d.items@[j as int].cantidad));
            }
            if datos.items[j].producto_id == item.producto_id {
                vendido = vendido + datos.items[j].cantidad;
            }
            j = j + 1;
        }
        proof {
            lema_cantidad_de_take(ps, pid, 0, k + 1);
        }
        lineas.push(
            LineaVenta {
                producto_id: item.producto_id,
                cantidad: item.cantidad,
                precio_unitario: item.precio_unitario,
                descuento: item.descuento,
                subtotal: item.precio_unitario * item.cantidad - item.descuento,
                costo_unitario_snapshot: p.costo_actual,
                stock_nuevo: p.stock_actual - vendido,
            },
        );
        k = k + 1;
    }

    let saldo_nuevo = if fiado > 0 {
        proof {
            lema_suma_monotona(montos_fiados(d.pagos@, metodos@), montos(d.pagos@));
        }
        Some(saldo + fiado)
    } else {
        None
    };
    let pagos = datos.pagos.clone();
    assert(pagos@ =~= d.pagos@);
    Ok(
        PlanVenta {
            cliente_id,
            subtotal,
            descuento_total: descuento,
            total,
            lineas,
            pagos,
            monto_cuenta_corriente: fiado,
            saldo_nuevo,
        },
    )
}


/// Qué clase de error da la anulación, o `None` si procede: el motivo no
/// puede estar en blanco, la venta tiene que existir, no puede estar ya
/// anulada ni tener devoluciones registradas.
pub open spec fn error_anulacion(motivo: Seq<char>, estado: Option<String>, devoluciones: i64) -> Option<
    TipoError,
> {
    if solo_espacios(motivo) {
        Some(TipoError::Validacion)
    } else if estado is None {
        Some(TipoError::NoEncontrado)
    } else if estado->0@ == "anulada"@ {
        Some(TipoError::Validacion)
    } else if devoluciones > 0 {
        Some(TipoError::Validacion)
    } else {
        None
    }
}

/// Controla si la venta `venta_id` se puede anular, con su estado (`None`
/// si no existe) y cuántas devoluciones tiene. Devuelve el motivo recortado.
pub fn validar_anulacion(venta_id: i64, motivo: &str, estado: &Option<String>, devoluciones: i64) -> (r: Result<
    String,
    AppError,
>)
    ensures
        r is Ok <==> error_anulacion(motivo@, *estado, devoluciones) is None,
        r matches Err(e) ==> Some(e.tipo()) == error_anulacion(motivo@, *estado, devoluciones),
        r matches Ok(m) ==> m@ == recorte(motivo@),
{
    if esta_en_blanco(motivo) {
        return Err(validacion("Tenés que indicar un motivo para anular la venta."));
    }
    match estado {
        None => {
            return Err(AppError::NotFound(con_numero("No existe la venta ", venta_id, ".")));
        },
        Some(e) => {
            if mismo_texto(e.as_str(), "anulada") {
                return Err(validacion("Esta venta ya está anulada."));
            }
        },
    }
    if devoluciones > 0 {
        return Err(validacion("No se puede anular: esta venta ya tiene devoluciones registradas."));
    }
    Ok(recortado(motivo))
}

/// Stock de un producto después de reponer una línea anulada.
pub fn stock_tras_reponer(stock_actual: i64, cantidad: i64) -> (r: i64)
    requires
        i64::MIN <= stock_actual + cantidad <= i64::MAX,
    ensures
        r == stock_actual + cantidad,
{
    stock_actual + cantidad
}

/// La deuda a revertir: la suma de lo pagado con cuenta corriente (`None`
/// si la venta no tuvo pagos de ese método), solo si es positiva.
pub fn deuda_a_revertir(suma_fiada: Option<i64>) -> (r: Option<i64>)
    ensures
        r == match suma_fiada {
            Some(m) => if m > 0 { Some(m) } else { None::<i64> },
            None => None::<i64>,
        },
{
    match suma_fiada {
        Some(m) => if m > 0 {
            Some(m)
        } else {
            None
        },
        None => None,
    }
}

/// Saldo del cliente después de revertir la deuda de la venta anulada.
pub fn saldo_tras_revertir(saldo_actual: i64, monto: i64) -> (r: i64)
    requires
        i64::MIN <= saldo_actual - monto <= i64::MAX,
    ensures
        r == saldo_actual - monto,
{
    saldo_actual - monto
}

/// El stock que queda escrito después de registrar las líneas de una venta,
/// en orden.
pub open spec fn aplicar_lineas_venta(stock: Map<i64, i64>, lineas: Seq<LineaVenta>) -> Map<
    i64,
    i64,
>
    decreases lineas.len(),
{
    if lineas.len() == 0 {
        stock
    } else {
        aplicar_lineas_venta(stock, lineas.drop_last()).insert(
            lineas.last().producto_id,
            lineas.last().stock_nuevo,
        )
    }
}

/// El stock después de reponer, en orden, cada (producto, cantidad).
pub open spec fn reponer(stock: Map<i64, i64>, detalles: Seq<(i64, i64)>) -> Map<i64, i64>
    decreases detalles.len(),
{
    if detalles.len() == 0 {
        stock
    } else {
        let previo = reponer(stock, detalles.drop_last());
        previo.insert(
            detalles.last().0,
            (previo[detalles.last().0] + detalles.last().1) as i64,
        )
    }
}

pub open spec fn detalles_de(lineas: Seq<LineaVenta>) -> Seq<(i64, i64)> {
    lineas.map_values(|l: LineaVenta| (l.producto_id, l.cantidad))
}

/// Lo que registra una venta en el libro de stock: cada producto queda
/// con el stock leído antes de la venta menos todo lo vendido de él, sin
/// importar en cuántas líneas aparezca. Cada línea deja escrito el stock
/// que le queda al producto después de ella.
pub proof fn ley_venta_descuenta_todo_lo_vendido(stock: Map<i64, i64>, lineas: Seq<LineaVenta>)
    requires
        forall|i: int|
            0 <= i < lineas.len() ==> stock.dom().contains((#[trigger] lineas[i]).producto_id)
                && lineas[i].stock_nuevo == stock[lineas[i].producto_id] - cantidad_de(
                detalles_de(lineas).take(i + 1),
                lineas[i].producto_id,
            ),
    ensures
        aplicar_lineas_venta(stock, lineas).dom() == stock.dom(),
        forall|p: i64|
            stock.dom().contains(p) ==> #[trigger] aplicar_lineas_venta(stock, lineas)[p] == stock[p]
                - cantidad_de(detalles_de(lineas), p),
    decreases lineas.len(),
{
    if lineas.len() > 0 {
        let n = lineas.len() - 1;
        let previas = lineas.drop_last();
        let u = lineas.last();
        assert(u == lineas[n]);
        assert forall|i: int| 0 <= i < previas.len() implies stock.dom().contains(
            (#[trigger] previas[i]).producto_id,
        ) && previas[i].stock_nuevo == stock[previas[i].producto_id] - cantidad_de(
            detalles_de(previas).take(i + 1),
            previas[i].producto_id,
        ) by {
            assert(previas[i] == lineas[i]);
            assert(detalles_de(previas).take(i + 1) =~= detalles_de(lineas).take(i + 1));
        }
        ley_venta_descuenta_todo_lo_vendido(stock, previas);
        assert(detalles_de(lineas).drop_last() =~= detalles_de(previas));
        assert(detalles_de(lineas).last() == (u.producto_id, u.cantidad));
        assert(detalles_de(lineas).take(n + 1) =~= detalles_de(lineas));
        assert(aplicar_lineas_venta(stock, lineas).dom() =~= stock.dom());
    }
}

proof fn lema_reponer(m: Map<i64, i64>, detalles: Seq<(i64, i64)>)
    requires
        forall|i: int|
            0 <= i < detalles.len() ==> m.dom().contains((#[trigger] detalles[i]).0)
                && detalles[i].1 >= 0,
        forall|p: i64| m.dom().contains(p) ==> m[p] + #[trigger] cantidad_de(detalles, p) <= i64::MAX,
    ensures
        reponer(m, detalles).dom() == m.dom(),
        forall|p: i64|
            m.dom().contains(p) ==> #[trigger] reponer(m, detalles)[p] == m[p] + cantidad_de(
                detalles,
                p,
            ),
    decreases detalles.len(),
{
    if detalles.len() > 0 {
        let n = detalles.len() - 1;
        let previos = detalles.drop_last();
        assert(detalles.take(n) =~= previos);
        assert forall|p: i64| m.dom().contains(p) implies m[p] + #[trigger] cantidad_de(previos, p)
            <= i64::MAX by {
            assert(cantidad_de(detalles, p) >= cantidad_de(previos, p));
        }
        assert forall|i: int| 0 <= i < previos.len() implies m.dom().contains(
            (#[trigger] previos[i]).0,
        ) && previos[i].1 >= 0 by {
            assert(previos[i] == detalles[i]);
        }
        lema_reponer(m, previos);
        let k = detalles.last().0;
        assert(detalles.last() == detalles[n]);
        lema_cantidad_de_take(detalles, k, 0, n);
        assert(cantidad_de(detalles, k) == cantidad_de(previos, k) + detalles.last().1);
        assert(m[k] + cantidad_de(detalles, k) <= i64::MAX);
        assert(reponer(m, detalles).dom() =~= m.dom());
    }
}

/// Anular una venta devuelve el stock de cada producto a lo que era antes
/// de venderla, también cuando un producto está en varias líneas: la venta
/// descontó todo lo vendido de cada producto y la anulación repone cada
/// línea.
pub proof fn ley_anular_repone_stock(stock: Map<i64, i64>, lineas: Seq<LineaVenta>)
    requires
        forall|i: int|
            0 <= i < lineas.len() ==> stock.dom().contains((#[trigger] lineas[i]).producto_id)
                && lineas[i].cantidad > 0 && lineas[i].stock_nuevo == stock[lineas[i].producto_id]
                - cantidad_de(detalles_de(lineas).take(i + 1), lineas[i].producto_id),
    ensures
        reponer(aplicar_lineas_venta(stock, lineas), detalles_de(lineas)) =~= stock,
{
    ley_venta_descuenta_todo_lo_vendido(stock, lineas);
    let m = aplicar_lineas_venta(stock, lineas);
    let dets = detalles_de(lineas);
    assert forall|i: int| 0 <= i < dets.len() implies m.dom().contains((#[trigger] dets[i]).0)
        && dets[i].1 >= 0 by {
        assert(dets[i] == (lineas[i].producto_id, lineas[i].cantidad));
    }
    assert forall|p: i64| m.dom().contains(p) implies m[p] + #[trigger] cantidad_de(dets, p)
        <= i64::MAX by {
        assert(m[p] == stock[p] - cantidad_de(dets, p));
    }
    lema_reponer(m, dets);
}

/// Anular una venta fiada deja el saldo del cliente como estaba: la venta
/// sumó lo fiado y la anulación resta la suma de los pagos a cuenta
/// corriente, que es el mismo monto.
pub proof fn ley_anular_revierte_deuda(saldo: i64, plan: PlanVenta)
    requires
        plan.monto_cuenta_corriente > 0,
        plan.saldo_nuevo == Some((saldo + plan.monto_cuenta_corriente) as i64),
        saldo + plan.monto_cuenta_corriente <= i64::MAX,
    ensures
        plan.saldo_nuevo->0 - plan.monto_cuenta_corriente == saldo,
{
}

/// Dos listas de productos que solo difieren en stock y costo.
pub open spec fn mismos_productos_salvo_stock(
    ps: Seq<Option<ProductoParaVenta>>,
    qs: Seq<Option<ProductoParaVenta>>,
) -> bool {
    &&& ps.len() == qs.len()
    &&& forall|i: int|
        0 <= i < ps.len() ==> ((#[trigger] ps[i]) is Some <==> qs[i] is Some) && (ps[i] is Some
            ==> ps[i]->0.estado == qs[i]->0.estado)
}

proof fn lema_primer_no_apto_sin_stock(
    ps: Seq<Option<ProductoParaVenta>>,
    qs: Seq<Option<ProductoParaVenta>>,
    i: int,
)
    requires
        mismos_productos_salvo_stock(ps, qs),
    ensures
        primer_no_apto(ps, i) == primer_no_apto(qs, i),
        i >= 0 ==> primer_no_apto(ps, i) >= 0,
    decreases ps.len() - i,
{
    if 0 <= i < ps.len() {
        assert(producto_apto(ps[i]) == producto_apto(qs[i]));
        lema_primer_no_apto_sin_stock(ps, qs, i + 1);
    }
}

/// El stock insuficiente avisa pero no bloquea: que una venta se confirme
/// (y con qué error, si no) no depende del stock ni del costo de los
/// productos, solo de que existan y estén activos.
pub proof fn ley_stock_insuficiente_no_bloquea(
    d: CrearVenta,
    saldo: Option<i64>,
    ps: Seq<Option<ProductoParaVenta>>,
    qs: Seq<Option<ProductoParaVenta>>,
    ms: Seq<Option<String>>,
)
    requires
        mismos_productos_salvo_stock(ps, qs),
    ensures
        error_venta(d, saldo, ps, ms) == error_venta(d, saldo, qs, ms),
{
    lema_primer_no_apto_sin_stock(ps, qs, 0);
    let k = primer_no_apto(ps, 0);
    if k < ps.len() {
        assert(ps[k] is Some <==> qs[k] is Some);
    }
}

} // verus!
