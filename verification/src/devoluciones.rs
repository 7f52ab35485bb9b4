//! Devoluciones parciales o totales de una venta confirmada: nunca más de
//! lo que quedaba sin devolver de cada línea, con un monto proporcional al
//! importe efectivo de la línea.
use vstd::prelude::*;

use crate::error::{validacion, AppError, TipoError};
use crate::modelos::{CrearDevolucion, ItemDevolucion, ID_CONSUMIDOR_FINAL};
use crate::sumas::{cantidad_de, lema_cantidad_de_take, lema_suma_take, lema_suma_todo, suma};
use crate::texto::{con_numero, esta_en_blanco, mismo_texto, recortado, recorte, solo_espacios};

verus! {

/// La venta sobre la que se devuelve, tal como está en la base.
#[derive(Debug, Clone, PartialEq, Eq)]
pub struct VentaADevolver {
    pub estado: String,
    pub cliente_id: i64,
}

/// Una línea de venta, tal como está en la base.
#[derive(Debug, Clone, Copy, PartialEq, Eq)]
pub struct LineaVendida {
    pub producto_id: i64,
    pub cantidad: i64,
    /// Importe efectivo de la línea, ya con su descuento.
    pub subtotal: i64,
    pub venta_id: i64,
}

/// Una línea a registrar en la devolución.
#[derive(Debug, Clone, Copy, PartialEq, Eq)]
pub struct LineaDevolucion {
    pub venta_detalle_id: i64,
    pub producto_id: i64,
    pub cantidad: i64,
    pub monto: i64,
    /// El producto vuelve a estar a la venta (se repone el stock).
    pub vuelve_a_stock: bool,
}

/// Todo lo que escribe una devolución. Las líneas van en el orden de los
/// items pedidos (el estado y la observación de cada una son los del item).
#[derive(Debug, Clone, PartialEq, Eq)]
pub struct PlanDevolucion {
    pub motivo: String,
    pub cliente_id: i64,
    pub total_devuelto: i64,
    pub lineas: Vec<LineaDevolucion>,
    /// Se descuenta `total_devuelto` del saldo de cuenta corriente del cliente.
    pub reduce_deuda: bool,
}

pub open spec fn metodo_devolucion_valido(m: Seq<char>) -> bool {
    ||| m == "reembolso_efectivo"@
    ||| m == "nota_credito"@
    ||| m == "cambio_producto"@
    ||| m == "reduccion_deuda"@
}

pub open spec fn estado_producto_valido(e: Seq<char>) -> bool {
    ||| e == "vuelve_a_stock"@
    ||| e == "en_revision"@
    ||| e == "defectuoso"@
    ||| e == "dañado"@
}

/// Lo que se controla antes de mirar la base.
pub open spec fn entrada_devolucion_valida(d: CrearDevolucion) -> bool {
    &&& !solo_espacios(d.motivo@)
    &&& metodo_devolucion_valido(d.metodo_devolucion@)
    &&& d.items@.len() > 0
    &&& forall|i: int|
        0 <= i < d.items@.len() ==> (#[trigger] d.items@[i]).cantidad > 0
            && estado_producto_valido(d.items@[i].estado_producto@)
}

/// División entera que trunca hacia cero (la de `i64`).
pub open spec fn division(a: int, b: int) -> int {
    if a >= 0 {
        a / b
    } else {
        -((-a) / b)
    }
}

/// El monto proporcional de devolver `cantidad` unidades de la línea.
pub open spec fn monto_linea(linea: LineaVendida, cantidad: int) -> int {
    division(linea.subtotal * cantidad, linea.cantidad as int)
}

pub open spec fn ya_devuelto(ya: Option<i64>) -> int {
    match ya {
        Some(x) => x as int,
        None => 0,
    }
}

/// Los pares (línea de venta, cantidad) de los items pedidos.
pub open spec fn pedidos_por_linea(items: Seq<ItemDevolucion>) -> Seq<(i64, i64)> {
    items.map_values(|it: ItemDevolucion| (it.venta_detalle_id, it.cantidad))
}

/// Lo que piden de la línea del item `i` los items `0..=i` de la misma
/// devolución.
pub open spec fn pedido_acumulado(d: CrearDevolucion, i: int) -> int {
    cantidad_de(pedidos_por_linea(d.items@).take(i + 1), d.items@[i].venta_detalle_id)
}

/// La línea pedida existe, pertenece a la venta, y lo pedido de ella hasta
/// este item (sumando los items anteriores sobre la misma línea) no supera
/// lo que quedaba sin devolver.
pub open spec fn linea_apta(
    d: CrearDevolucion,
    dets: Seq<Option<LineaVendida>>,
    ya: Seq<Option<i64>>,
    i: int,
) -> bool {
    &&& dets[i] is Some
    &&& dets[i]->0.venta_id == d.venta_id
    &&& pedido_acumulado(d, i) <= dets[i]->0.cantidad - ya_devuelto(ya[i])
}

pub open spec fn primer_linea_no_apta(
    d: CrearDevolucion,
    dets: Seq<Option<LineaVendida>>,
    ya: Seq<Option<i64>>,
    i: int,
) -> int
    decreases dets.len() - i,
{
    if i >= dets.len() || i < 0 {
        dets.len() as int
    } else if !linea_apta(d, dets, ya, i) {
        i
    } else {
        primer_linea_no_apta(d, dets, ya, i + 1)
    }
}

pub open spec fn reduce_deuda(d: CrearDevolucion) -> bool {
    d.metodo_devolucion@ == "reduccion_deuda"@
}

/// Qué clase de error da la devolución, o `None` si se registra.
pub open spec fn error_devolucion(
    d: CrearDevolucion,
    venta: Option<VentaADevolver>,
    dets: Seq<Option<LineaVendida>>,
    ya: Seq<Option<i64>>,
) -> Option<TipoError> {
    let k = primer_linea_no_apta(d, dets, ya, 0);
    if !entrada_devolucion_valida(d) {
        Some(TipoError::Validacion)
    } else if venta is None {
        Some(TipoError::NoEncontrado)
    } else if venta->0.estado@ != "confirmada"@ {
        Some(TipoError::Validacion)
    } else if reduce_deuda(d) && venta->0.cliente_id == ID_CONSUMIDOR_FINAL {
        Some(TipoError::Validacion)
    } else if k < dets.len() {
        if dets[k] is None {
            Some(TipoError::NoEncontrado)
        } else {
            Some(TipoError::Validacion)
        }
    } else {
        None
    }
}

/// Los montos de cada línea pedida (cero si la línea no existe).
pub open spec fn montos_devolucion(d: CrearDevolucion, dets: Seq<Option<LineaVendida>>) -> Seq<
    int,
> {
    Seq::new(
        dets.len(),
        |i: int|
            if dets[i] is Some {
                monto_linea(dets[i]->0, d.items@[i].cantidad as int)
            } else {
                0
            },
    )
}

/// Los números no se salen de `i64` (límite de la máquina); cada línea de
/// venta tiene cantidad positiva, como las deja una venta confirmada.
pub open spec fn devolucion_representable(
    d: CrearDevolucion,
    dets: Seq<Option<LineaVendida>>,
    ya: Seq<Option<i64>>,
) -> bool {
    &&& forall|i: int|
        0 <= i < dets.len() && (#[trigger] dets[i]) is Some ==> {
            &&& dets[i]->0.cantidad > 0
            &&& i64::MIN <= dets[i]->0.cantidad - ya_devuelto(ya[i]) <= i64::MAX
            &&& i64::MIN <= dets[i]->0.subtotal * d.items@[i].cantidad <= i64::MAX
        }
    &&& forall|k: int|
        0 <= k <= dets.len() ==> i64::MIN <= #[trigger] suma(
            montos_devolucion(d, dets).take(k),
        ) <= i64::MAX
    &&& entrada_devolucion_valida(d) ==> forall|i: int|
        0 <= i < d.items@.len() ==> #[trigger] pedido_acumulado(d, i) <= i64::MAX
}

fn metodo_valido_exec(m: &str) -> (r: bool)
    ensures
        r == metodo_devolucion_valido(m@),
{
    mismo_texto(m, "reembolso_efectivo") || mismo_texto(m, "nota_credito") || mismo_texto(
        m,
        "cambio_producto",
    ) || mismo_texto(m, "reduccion_deuda")
}

fn estado_valido_exec(e: &str) -> (r: bool)
    ensures
        r == estado_producto_valido(e@),
{
    mismo_texto(e, "vuelve_a_stock") || mismo_texto(e, "en_revision") || mismo_texto(
        e,
        "defectuoso",
    ) || mismo_texto(e, "dañado")
}

/// Controla motivo, método, items, cantidades y estados antes de mirar la base.
pub fn validar_devolucion(datos: &CrearDevolucion) -> (r: Result<(), AppError>)
    ensures
        r is Ok <==> entrada_devolucion_valida(*datos),
        r matches Err(e) ==> e.tipo() == TipoError::Validacion,
{
    if esta_en_blanco(datos.motivo.as_str()) {
        return Err(validacion("Tenés que indicar un motivo para la devolución."));
    }
    if !metodo_valido_exec(datos.metodo_devolucion.as_str()) {
        return Err(validacion("Método de devolución inválido."));
    }
    if datos.items.len() == 0 {
        return Err(validacion("Tenés que indicar al menos un producto a devolver."));
    }
    let mut i: usize = 0;
    while i < datos.items.len()
        invariant
            i <= datos.items@.len(),
            forall|j: int|
                0 <= j < i ==> (#[trigger] datos.items@[j]).cantidad > 0 && estado_producto_valido(
                    datos.items@[j].estado_producto@,
                ),
        decreases datos.items@.len() - i,
    {
        let item: &ItemDevolucion = &datos.items[i];
        if item.cantidad <= 0 {
            return Err(validacion("La cantidad a devolver tiene que ser mayor a 0."));
        }
        if !estado_valido_exec(item.estado_producto.as_str()) {
            return Err(validacion("Estado del producto devuelto inválido."));
        }
        i = i + 1;
    }
    Ok(())
}

proof fn lema_primer_linea(
    d: CrearDevolucion,
    dets: Seq<Option<LineaVendida>>,
    ya: Seq<Option<i64>>,
    k: int,
    i: int,
)
    requires
        0 <= k <= i <= dets.len(),
        forall|j: int| 0 <= j < i ==> #[trigger] linea_apta(d, dets, ya, j),
        i == dets.len() || !linea_apta(d, dets, ya, i),
    ensures
        primer_linea_no_apta(d, dets, ya, k) == i,
    decreases i - k,
{
    if k < i {
        lema_primer_linea(d, dets, ya, k + 1, i);
    }
}

/// Decide la devolución a partir de lo leído de la base: la venta (`None`
/// si no existe), cada línea de venta pedida en orden (`None` si no existe)
/// y lo ya devuelto de cada una (`None` si nunca se devolvió nada).
pub fn planificar_devolucion(
    datos: &CrearDevolucion,
    venta: &Option<VentaADevolver>,
    detalles: &Vec<Option<LineaVendida>>,
    ya_devueltas: &Vec<Option<i64>>,
) -> (r: Result<PlanDevolucion, AppError>)
    requires
        detalles@.len() == datos.items@.len(),
        ya_devueltas@.len() == datos.items@.len(),
        devolucion_representable(*datos, detalles@, ya_devueltas@),
    ensures
        r is Ok <==> error_devolucion(*datos, *venta, detalles@, ya_devueltas@) is None,
        r matches Err(e) ==> Some(e.tipo()) == error_devolucion(
            *datos,
            *venta,
            detalles@,
            ya_devueltas@,
        ),
        r matches Ok(plan) ==> {
            &&& plan.motivo@ == recorte(datos.motivo@)
            &&& plan.cliente_id == venta->0.cliente_id
            &&& plan.total_devuelto == suma(montos_devolucion(*datos, detalles@))
            &&& plan.reduce_deuda == (reduce_deuda(*datos) && plan.total_devuelto > 0)
            &&& plan.lineas@.len() == datos.items@.len()
            &&& forall|i: int|
                0 <= i < plan.lineas@.len() ==> {
                    let l = #[trigger] plan.lineas@[i];
                    let it = datos.items@[i];
                    let v = detalles@[i]->0;
                    &&& l.venta_detalle_id == it.venta_detalle_id
                    &&& l.producto_id == v.producto_id
                    &&& l.cantidad == it.cantidad
                    &&& pedido_acumulado(*datos, i) <= v.cantidad - ya_devuelto(ya_devueltas@[i])
                    &&& l.monto == monto_linea(v, it.cantidad as int)
                    &&& l.vuelve_a_stock == (it.estado_producto@ == "vuelve_a_stock"@)
                }
        },
{
    let ghost d = *datos;
    validar_devolucion(datos)?;
    let (estado, cliente_id) = match venta {
        Some(v) => (&v.estado, v.cliente_id),
        None => {
            return Err(AppError::NotFound(con_numero("No existe la venta ", datos.venta_id, ".")));
        },
    };
    if !mismo_texto(estado.as_str(), "confirmada") {
        return Err(
            validacion(
                "No se puede registrar una devolución sobre una venta que no está confirmada.",
            ),
        );
    }
    let reduce = mismo_texto(datos.metodo_devolucion.as_str(), "reduccion_deuda");
    if reduce && cliente_id == ID_CONSUMIDOR_FINAL {
        return Err(
            validacion(
                "\"Consumidor final\" no tiene cuenta corriente: elegí otro método de devolución.",
            ),
        );
    }

    let mut lineas: Vec<LineaDevolucion> = Vec::new();
    let mut total: i64 = 0;
    let mut i: usize = 0;
    while i < datos.items.len()
        invariant
            d == *datos,
            entrada_devolucion_valida(d),
            detalles@.len() == d.items@.len(),
            ya_devueltas@.len() == d.items@.len(),
            devolucion_representable(d, detalles@, ya_devueltas@),
            venta matches Some(v) && v.estado@ == "confirmada"@ && v.cliente_id == cliente_id,
            !(reduce_deuda(d) && cliente_id == ID_CONSUMIDOR_FINAL),
            reduce == reduce_deuda(d),
            i <= d.items@.len(),
            forall|j: int| 0 <= j < i ==> #[trigger] linea_apta(d, detalles@, ya_devueltas@, j),
            total == suma(montos_devolucion(d, detalles@).take(i as int)),
            lineas@.len() == i,
            forall|j: int|
                0 <= j < i ==> {
                    let l = #[trigger] lineas@[j];
                    let it = d.items@[j];
                    let v = detalles@[j]->0;
                    &&& l.venta_detalle_id == it.venta_detalle_id
                    &&& l.producto_id == v.producto_id
                    &&& l.cantidad == it.cantidad
                    &&& l.monto == monto_linea(v, it.cantidad as int)
                    &&& l.vuelve_a_stock == (it.estado_producto@ == "vuelve_a_stock"@)
                },
        decreases d.items@.len() - i,
    {
        let item = &datos.items[i];
        let linea = match detalles[i] {
            Some(l) => l,
            None => {
                proof {
                    lema_primer_linea(d, detalles@, ya_devueltas@, 0, i as int);
                }
                return Err(AppError::NotFound(con_numero("No existe la línea de venta ", item.venta_detalle_id, ".")));
            },
        };
        if linea.venta_id != datos.venta_id {
            proof {
                lema_primer_linea(d, detalles@, ya_devueltas@, 0, i as int);
            }
            return Err(validacion("Esa línea no pertenece a la venta indicada."));
        }
        let ya: i64 = match ya_devueltas[i] {
            Some(x) => x,
            None => 0,
        };
        let disponible = linea.cantidad - ya;
        // Lo pedido de esta línea hasta este item, inclusive.
        let ghost vdid = item.venta_detalle_id;
        let ghost ps = pedidos_por_linea(d.items@);
        assert(ps[i as int].0 == vdid);
        let mut pedido: i64 = 0;
        let mut j: usize = 0;
        proof {
            assert(ps.take(0).len() == 0);
            assert(pedido_acumulado(d, i as int) <= i64::MAX);
            assert forall|k: int| 0 <= k < ps.len() implies (#[trigger] ps[k]).1 >= 0 by {
                assert(d.items@[k].cantidad > 0);
            }
        }
        while j <= i
            invariant
                d == *datos,
                ps == pedidos_por_linea(d.items@),
                i < datos.items.len(),
                i < d.items@.len(),
                j <= i + 1,
                vdid == d.items@[i as int].venta_detalle_id,
                item.venta_detalle_id == vdid,
                pedido == cantidad_de(ps.take(j as int), vdid),
                cantidad_de(ps.take(i + 1), vdid) <= i64::MAX,
                forall|k: int| 0 <= k < ps.len() ==> (#[trigger] ps[k]).1 >= 0,
            decreases i + 1 - j,
        {
            proof {
                lema_cantidad_de_take(ps, vdid, j + 1, i + 1);
                assert(ps.take(j + 1).drop_last() =~= ps.take(j as int));
                assert(ps.take(j + 1).last() == ps[j as int]);
                assert(ps[j as int] == (d.items@[j as int].venta_detalle_id, d.items@[j as int].cantidad));
            }
            if datos.items[j].venta_detalle_id == item.venta_detalle_id {
                pedido = pedido + datos.items[j].cantidad;
            }
            j = j + 1;
        }
        assert(pedido == pedido_acumulado(d, i as int));
        if pedido > disponible {
            proof {
                lema_primer_linea(d, detalles@, ya_devueltas@, 0, i as int);
            }
            let a = con_numero("No se pueden devolver ", pedido, " unidades: solo quedan ");
            let mensaje = con_numero(a.as_str(), disponible, " sin devolver de esa línea.");
            return Err(AppError::Validation(mensaje));
        }
        assert(pedido_acumulado(d, i as int) <= linea.cantidad - ya_devuelto(ya_devueltas@[i as int]));
        assert(item.cantidad > 0);
        let producto = linea.subtotal * item.cantidad;
        let monto = producto / linea.cantidad;
        proof {
            assert(linea.cantidad > 0);
            assert(monto == division(producto as int, linea.cantidad as int));
            assert(montos_devolucion(d, detalles@)[i as int] == monto);
            lema_suma_take(montos_devolucion(d, detalles@), i as int);
            assert(i64::MIN <= suma(montos_devolucion(d, detalles@).take(i + 1)) <= i64::MAX);
        }
        total = total + monto;
        let vuelve = mismo_texto(item.estado_producto.as_str(), "vuelve_a_stock");
        lineas.push(
            LineaDevolucion {
                venta_detalle_id: item.venta_detalle_id,
                producto_id: linea.producto_id,
                cantidad: item.cantidad,
                monto,
                vuelve_a_stock: vuelve,
            },
        );
        i = i + 1;
    }
    proof {
        lema_primer_linea(d, detalles@, ya_devueltas@, 0, d.items@.len() as int);
        lema_suma_todo(montos_devolucion(d, detalles@));
        assert forall|k: int| 0 <= k < d.items@.len() implies #[trigger] pedido_acumulado(d, k)
            <= detalles@[k]->0.cantidad - ya_devuelto(ya_devueltas@[k]) by {
            assert(linea_apta(d, detalles@, ya_devueltas@, k));
        }
    }
    Ok(
        PlanDevolucion {
            motivo: recortado(datos.motivo.as_str()),
            cliente_id,
            total_devuelto: total,
            lineas,
            reduce_deuda: reduce && total > 0,
        },
    )
}

proof fn lema_todas_aptas(
    d: CrearDevolucion,
    dets: Seq<Option<LineaVendida>>,
    ya: Seq<Option<i64>>,
    k: int,
)
    requires
        0 <= k <= dets.len(),
        primer_linea_no_apta(d, dets, ya, k) >= dets.len(),
    ensures
        forall|j: int| k <= j < dets.len() ==> #[trigger] linea_apta(d, dets, ya, j),
    decreases dets.len() - k,
{
    if k < dets.len() {
        lema_todas_aptas(d, dets, ya, k + 1);
    }
}

/// Lo acumulado de una clave en un prefijo es cero, o es lo acumulado hasta
/// su última aparición en ese prefijo.
proof fn lema_ultima_aparicion(s: Seq<(i64, i64)>, p: i64, n: int)
    requires
        0 <= n <= s.len(),
    ensures
        cantidad_de(s.take(n), p) == 0 || exists|j: int|
            0 <= j < n && s[j].0 == p && cantidad_de(s.take(n), p) == #[trigger] cantidad_de(
                s.take(j + 1),
                p,
            ),
    decreases n,
{
    if n == 0 {
        assert(s.take(0).len() == 0);
    } else {
        assert(s.take(n).drop_last() =~= s.take(n - 1));
        assert(s.take(n).last() == s[n - 1]);
        if s[n - 1].0 == p {
            assert(cantidad_de(s.take(n), p) == cantidad_de(s.take((n - 1) + 1), p));
        } else {
            lema_ultima_aparicion(s, p, n - 1);
            if cantidad_de(s.take(n - 1), p) != 0 {
                let j = choose|j: int|
                    0 <= j < n - 1 && s[j].0 == p && cantidad_de(s.take(n - 1), p)
                        == #[trigger] cantidad_de(s.take(j + 1), p);
                assert(cantidad_de(s.take(n), p) == cantidad_de(s.take(j + 1), p));
            }
        }
    }
}

/// Lo que una devolución aceptada pide de cada línea de venta, sumando
/// todos sus items sobre esa línea, más lo que ya se había devuelto de
/// ella, nunca supera lo vendido en la línea. (Cada item que nombra una
/// línea la ve igual: misma línea y mismo total ya devuelto.)
pub proof fn ley_devolucion_no_supera_lo_vendido(
    d: CrearDevolucion,
    venta: Option<VentaADevolver>,
    dets: Seq<Option<LineaVendida>>,
    ya: Seq<Option<i64>>,
)
    requires
        dets.len() == d.items@.len(),
        ya.len() == d.items@.len(),
        forall|i: int, j: int|
            0 <= i < d.items@.len() && 0 <= j < d.items@.len() && (#[trigger] d.items@[i]).venta_detalle_id
                == (#[trigger] d.items@[j]).venta_detalle_id ==> dets[i] == dets[j] && ya[i] == ya[j],
        error_devolucion(d, venta, dets, ya) is None,
    ensures
        forall|i: int|
            0 <= i < d.items@.len() ==> cantidad_de(
                pedidos_por_linea(d.items@),
                (#[trigger] d.items@[i]).venta_detalle_id,
            ) + ya_devuelto(ya[i]) <= dets[i]->0.cantidad,
{
    lema_todas_aptas(d, dets, ya, 0);
    let s = pedidos_por_linea(d.items@);
    let n = d.items@.len() as int;
    assert(s.take(n) =~= s);
    assert forall|k: int| 0 <= k < s.len() implies (#[trigger] s[k]).1 >= 0 by {
        assert(d.items@[k].cantidad > 0);
    }
    assert forall|i: int| 0 <= i < n implies cantidad_de(s, (#[trigger] d.items@[i]).venta_detalle_id)
        + ya_devuelto(ya[i]) <= dets[i]->0.cantidad by {
        let p = d.items@[i].venta_detalle_id;
        assert(linea_apta(d, dets, ya, i));
        lema_cantidad_de_take(s, p, 0, i + 1);
        assert(s.take(0).len() == 0);
        lema_ultima_aparicion(s, p, n);
        if cantidad_de(s, p) != 0 {
            let j = choose|j: int|
                0 <= j < n && s[j].0 == p && cantidad_de(s.take(n), p) == #[trigger] cantidad_de(
                    s.take(j + 1),
                    p,
                );
            assert(d.items@[j].venta_detalle_id == p);
            assert(linea_apta(d, dets, ya, j));
            assert(dets[j] == dets[i] && ya[j] == ya[i]);
        }
    }
}

/// Solo una devolución con método exactamente `reduccion_deuda` baja el
/// saldo de cuenta corriente del cliente; reembolso en efectivo, nota de
/// crédito o cambio de producto nunca lo tocan.
pub proof fn ley_solo_reduccion_deuda_toca_el_saldo(d: CrearDevolucion)
    ensures
        reduce_deuda(d) <==> d.metodo_devolucion@ == "reduccion_deuda"@,
        d.metodo_devolucion@ == "cambio_producto"@ ==> !reduce_deuda(d),
        d.metodo_devolucion@ == "nota_credito"@ ==> !reduce_deuda(d),
        d.metodo_devolucion@ == "reembolso_efectivo"@ ==> !reduce_deuda(d),
{
    reveal_strlit("reduccion_deuda");
    reveal_strlit("cambio_producto");
    reveal_strlit("nota_credito");
    reveal_strlit("reembolso_efectivo");
    assert("cambio_producto"@[0] != "reduccion_deuda"@[0]);
    assert("nota_credito"@[0] != "reduccion_deuda"@[0]);
    assert("reembolso_efectivo"@.len() != "reduccion_deuda"@.len());
}

/// Quién es el cliente de la venta solo importa para `reduccion_deuda`:
/// con cualquier otro método, una devolución a Consumidor final tiene el
/// mismo resultado que la misma devolución a un cliente identificado. Con
/// `reduccion_deuda`, a Consumidor final se la rechaza por validación.
pub proof fn ley_consumidor_final_solo_sin_reduccion_deuda(
    d: CrearDevolucion,
    estado: String,
    otro_cliente: i64,
    dets: Seq<Option<LineaVendida>>,
    ya: Seq<Option<i64>>,
)
    requires
        otro_cliente != ID_CONSUMIDOR_FINAL,
    ensures
        d.metodo_devolucion@ != "reduccion_deuda"@ ==> error_devolucion(
            d,
            Some(VentaADevolver { estado, cliente_id: ID_CONSUMIDOR_FINAL }),
            dets,
            ya,
        ) == error_devolucion(d, Some(VentaADevolver { estado, cliente_id: otro_cliente }), dets, ya),
        d.metodo_devolucion@ == "reduccion_deuda"@ && entrada_devolucion_valida(d) && estado@
            == "confirmada"@ ==> error_devolucion(
            d,
            Some(VentaADevolver { estado, cliente_id: ID_CONSUMIDOR_FINAL }),
            dets,
            ya,
        ) == Some(TipoError::Validacion),
{
}

proof fn lema_division_superaditiva(a: int, b: int, n: int)
    requires
        a >= 0,
        b >= 0,
        n > 0,
    ensures
        a / n + b / n <= (a + b) / n,
{
    assert(a / n + b / n <= (a + b) / n) by (nonlinear_arith)
        requires
            a >= 0,
            b >= 0,
            n > 0,
    {
        let qa = a / n;
        let qb = b / n;
        assert(qa * n <= a);
        assert(qb * n <= b);
        assert((qa + qb) * n <= a + b);
    }
}

/// Varias devoluciones de una misma línea nunca devuelven más dinero que
/// el importe de la línea: si las cantidades devueltas suman a lo sumo la
/// cantidad vendida, la suma de los montos proporcionales no supera el
/// subtotal.
pub proof fn ley_devoluciones_no_superan_el_importe(linea: LineaVendida, cantidades: Seq<int>)
    requires
        linea.cantidad > 0,
        linea.subtotal >= 0,
        forall|i: int| 0 <= i < cantidades.len() ==> #[trigger] cantidades[i] >= 0,
        suma(cantidades) <= linea.cantidad,
    ensures
        suma(cantidades.map_values(|c: int| monto_linea(linea, c))) <= linea.subtotal,
{
    lema_montos_acotados(linea, cantidades);
    let n = linea.cantidad as int;
    let s = linea.subtotal as int;
    let c = suma(cantidades);
    assert(s * c <= s * n) by (nonlinear_arith)
        requires
            s >= 0,
            c <= n,
    ;
    assert((s * c) / n <= (s * n) / n) by (nonlinear_arith)
        requires
            s * c <= s * n,
            n > 0,
    ;
    assert((s * n) / n == s) by (nonlinear_arith)
        requires
            n > 0,
    ;
}

proof fn lema_montos_acotados(linea: LineaVendida, cantidades: Seq<int>)
    requires
        linea.cantidad > 0,
        linea.subtotal >= 0,
        forall|i: int| 0 <= i < cantidades.len() ==> #[trigger] cantidades[i] >= 0,
    ensures
        suma(cantidades) >= 0,
        suma(cantidades.map_values(|c: int| monto_linea(linea, c))) <= (linea.subtotal * suma(
            cantidades,
        )) / (linea.cantidad as int),
    decreases cantidades.len(),
{
    let n = linea.cantidad as int;
    let s = linea.subtotal as int;
    if cantidades.len() == 0 {
        assert(cantidades.map_values(|c: int| monto_linea(linea, c)).len() == 0);
        assert((s * 0) / n == 0) by (nonlinear_arith)
            requires
                n > 0,
        ;
    } else {
        let previas = cantidades.drop_last();
        let u = cantidades.last();
        lema_montos_acotados(linea, previas);
        assert(cantidades.map_values(|c: int| monto_linea(linea, c)).drop_last() =~= previas.map_values(
            |c: int| monto_linea(linea, c),
        ));
        let p = suma(previas);
        assert(s * p >= 0) by (nonlinear_arith)
            requires
                s >= 0,
                p >= 0,
        ;
        assert(s * u >= 0) by (nonlinear_arith)
            requires
                s >= 0,
                u >= 0,
        ;
        assert(s * (p + u) == s * p + s * u) by (nonlinear_arith);
        lema_division_superaditiva(s * p, s * u, n);
    }
}

} // verus!
