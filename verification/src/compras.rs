//! Compras y recepción: suma stock, total recalculado del lado del
//! servidor y actualización del costo cuando el pagado difiere.
use vstd::prelude::*;

use crate::error::{validacion, AppError, TipoError};
use crate::modelos::{CrearCompra, ItemCompra};
use crate::texto::con_numero;
use crate::sumas::{lema_suma_prefijo, lema_suma_take, lema_suma_todo, suma};

verus! {

/// Lo que escribe cada línea recibida.
#[derive(Debug, Clone, Copy, PartialEq, Eq)]
pub struct LineaCompra {
    /// costo × cantidad.
    pub subtotal: i64,
    /// Stock del producto después de recibir la línea.
    pub stock_nuevo: i64,
    /// El costo pagado difiere del actual: se actualiza y queda historial.
    pub actualiza_costo: bool,
}

pub open spec fn importe_compra(it: ItemCompra) -> int {
    it.costo_unitario * it.cantidad
}

pub open spec fn importes_compra(items: Seq<ItemCompra>) -> Seq<int> {
    items.map_values(|it: ItemCompra| importe_compra(it))
}

pub open spec fn entrada_compra_valida(d: CrearCompra) -> bool {
    &&& d.items@.len() > 0
    &&& forall|i: int|
        0 <= i < d.items@.len() ==> (#[trigger] d.items@[i]).cantidad > 0
            && d.items@[i].costo_unitario >= 0
}

pub open spec fn error_compra(d: CrearCompra, proveedor_activo: bool, existen: Seq<bool>) -> Option<
    TipoError,
> {
    if !entrada_compra_valida(d) {
        Some(TipoError::Validacion)
    } else if !proveedor_activo {
        Some(TipoError::Validacion)
    } else if exists|i: int| 0 <= i < existen.len() && !(#[trigger] existen[i]) {
        Some(TipoError::NoEncontrado)
    } else {
        None
    }
}

/// Decide si la recepción se registra y con qué total: items no vacíos,
/// cantidades positivas, costos no negativos, proveedor existente y activo,
/// y cada producto existente (`existen`, en el orden de los items).
pub fn planificar_compra(datos: &CrearCompra, proveedor_activo: bool, existen: &Vec<bool>) -> (r:
    Result<i64, AppError>)
    requires
        existen@.len() == datos.items@.len(),
        forall|i: int|
            0 <= i < datos.items@.len() ==> i64::MIN <= importe_compra(#[trigger] datos.items@[i])
                <= i64::MAX,
        entrada_compra_valida(*datos) ==> suma(importes_compra(datos.items@)) <= i64::MAX,
    ensures
        r is Ok <==> error_compra(*datos, proveedor_activo, existen@) is None,
        r matches Err(e) ==> Some(e.tipo()) == error_compra(*datos, proveedor_activo, existen@),
        r matches Ok(total) ==> total == suma(importes_compra(datos.items@)),
{
    let ghost d = *datos;
    if datos.items.len() == 0 {
        return Err(validacion("La recepción no tiene productos cargados."));
    }
    let mut i: usize = 0;
    while i < datos.items.len()
        invariant
            i <= d.items@.len(),
            d == *datos,
            forall|j: int|
                0 <= j < i ==> (#[trigger] d.items@[j]).cantidad > 0 && d.items@[j].costo_unitario
                    >= 0,
        decreases d.items@.len() - i,
    {
        if datos.items[i].cantidad <= 0 {
            return Err(validacion("La cantidad tiene que ser mayor a 0."));
        }
        if datos.items[i].costo_unitario < 0 {
            return Err(validacion("El costo no puede ser negativo."));
        }
        i = i + 1;
    }
    if !proveedor_activo {
        return Err(validacion("El proveedor seleccionado no existe o está inactivo."));
    }
    let mut k: usize = 0;
    while k < existen.len()
        invariant
            k <= existen@.len(),
            existen@.len() == datos.items@.len(),
            d == *datos,
            entrada_compra_valida(d),
            proveedor_activo,
            forall|j: int| 0 <= j < k ==> #[trigger] existen@[j],
        decreases existen@.len() - k,
    {
        if !existen[k] {
            assert(!existen@[k as int]);
            return Err(AppError::NotFound(con_numero("No existe el producto ", datos.items[k].producto_id, ".")));
        }
        k = k + 1;
    }
    proof {
        assert forall|j: int| 0 <= j < importes_compra(d.items@).len() implies importes_compra(
            d.items@,
        )[j] >= 0 by {
            let it = d.items@[j];
            assert(it.costo_unitario * it.cantidad >= 0) by (nonlinear_arith)
                requires
                    it.costo_unitario >= 0,
                    it.cantidad > 0,
            ;
        }
    }
    let mut total: i64 = 0;
    let mut m: usize = 0;
    while m < datos.items.len()
        invariant
            m <= d.items@.len(),
            d == *datos,
            entrada_compra_valida(d),
            suma(importes_compra(d.items@)) <= i64::MAX,
            forall|i: int|
                0 <= i < d.items@.len() ==> i64::MIN <= importe_compra(#[trigger] d.items@[i])
                    <= i64::MAX,
            forall|j: int|
                0 <= j < importes_compra(d.items@).len() ==> importes_compra(d.items@)[j] >= 0,
            total == suma(importes_compra(d.items@).take(m as int)),
        decreases d.items@.len() - m,
    {
        proof {
            lema_suma_take(importes_compra(d.items@), m as int);
            lema_suma_prefijo(importes_compra(d.items@), m + 1);
        }
        let item = datos.items[m];
        assert(importe_compra(d.items@[m as int]) <= i64::MAX);
        total = total + item.costo_unitario * item.cantidad;
        m = m + 1;
    }
    proof {
        lema_suma_todo(importes_compra(d.items@));
    }
    Ok(total)
}

/// Lo que escribe una línea recibida, con el stock y el costo actuales del
/// producto leídos justo antes.
pub fn linea_compra(item: &ItemCompra, stock_actual: i64, costo_actual: Option<i64>) -> (r:
    LineaCompra)
    requires
        i64::MIN <= importe_compra(*item) <= i64::MAX,
        i64::MIN <= stock_actual + item.cantidad <= i64::MAX,
    ensures
        r.subtotal == importe_compra(*item),
        r.stock_nuevo == stock_actual + item.cantidad,
        r.actualiza_costo == (costo_actual != Some(item.costo_unitario)),
{
    let actualiza = match costo_actual {
        Some(c) => c != item.costo_unitario,
        None => true,
    };
    LineaCompra {
        subtotal: item.costo_unitario * item.cantidad,
        stock_nuevo: stock_actual + item.cantidad,
        actualiza_costo: actualiza,
    }
}

} // verus!
