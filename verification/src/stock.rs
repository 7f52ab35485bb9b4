//! Stock: ajustes manuales con motivo, stock mínimo y el estado que se
//! muestra en las pantallas de Stock y Reposición.
use vstd::prelude::*;

use crate::error::{validacion, AppError, TipoError};
use crate::modelos::AjusteStock;
use crate::texto::{con_numero, esta_en_blanco, recortado, recorte, solo_espacios};

verus! {

/// Lo que escribe un ajuste: el stock nuevo, el movimiento del libro y el motivo.
#[derive(Debug, Clone, PartialEq, Eq)]
pub struct AjustePlaneado {
    pub stock_anterior: i64,
    pub stock_nuevo: i64,
    /// Cantidad del movimiento: nuevo − anterior.
    pub delta: i64,
    pub motivo: String,
}

pub open spec fn error_ajuste_stock(datos: AjusteStock, stock_anterior: Option<i64>) -> Option<
    TipoError,
> {
    if solo_espacios(datos.motivo@) {
        Some(TipoError::Validacion)
    } else if datos.nueva_cantidad < 0 {
        Some(TipoError::Validacion)
    } else if stock_anterior is None {
        Some(TipoError::NoEncontrado)
    } else {
        None
    }
}

/// Ajuste manual del stock del producto `producto_id` (`stock_anterior` es
/// `None` si el producto no existe): motivo obligatorio y cantidad no negativa.
pub fn ajustar(producto_id: i64, datos: &AjusteStock, stock_anterior: Option<i64>) -> (r: Result<
    AjustePlaneado,
    AppError,
>)
    requires
        stock_anterior matches Some(s) ==> i64::MIN <= datos.nueva_cantidad - s <= i64::MAX,
    ensures
        r is Ok <==> error_ajuste_stock(*datos, stock_anterior) is None,
        r matches Err(e) ==> Some(e.tipo()) == error_ajuste_stock(*datos, stock_anterior),
        r matches Ok(a) ==> {
            &&& Some(a.stock_anterior) == stock_anterior
            &&& a.stock_nuevo == datos.nueva_cantidad
            &&& a.delta == a.stock_nuevo - a.stock_anterior
            &&& a.motivo@ == recorte(datos.motivo@)
        },
{
    if esta_en_blanco(datos.motivo.as_str()) {
        return Err(validacion("Tenés que indicar un motivo para el ajuste."));
    }
    if datos.nueva_cantidad < 0 {
        return Err(validacion("El stock no puede ser negativo."));
    }
    let anterior = match stock_anterior {
        Some(s) => s,
        None => {
            return Err(AppError::NotFound(con_numero("No existe el producto ", producto_id, ".")));
        },
    };
    Ok(
        AjustePlaneado {
            stock_anterior: anterior,
            stock_nuevo: datos.nueva_cantidad,
            delta: datos.nueva_cantidad - anterior,
            motivo: recortado(datos.motivo.as_str()),
        },
    )
}

/// El stock mínimo no puede ser negativo.
pub fn validar_minimo(stock_minimo: i64) -> (r: Result<(), AppError>)
    ensures
        r is Ok <==> stock_minimo >= 0,
        r matches Err(e) ==> e.tipo() == TipoError::Validacion,
{
    if stock_minimo < 0 {
        return Err(validacion("El stock mínimo no puede ser negativo."));
    }
    Ok(())
}

/// Si el cambio de mínimo no afectó ninguna fila, el producto no existe.
pub fn resultado_actualizar_minimo(producto_id: i64, filas_afectadas: u64) -> (r: Result<(), AppError>)
    ensures
        r is Ok <==> filas_afectadas > 0,
        r matches Err(e) ==> e.tipo() == TipoError::NoEncontrado,
{
    if filas_afectadas == 0 {
        return Err(AppError::NotFound(con_numero("No existe el producto ", producto_id, ".")));
    }
    Ok(())
}

/// "sin_stock" | "bajo" | "ok".
pub open spec fn estado_de_stock(stock_actual: int, stock_minimo: int) -> Seq<char> {
    if stock_actual <= 0 {
        "sin_stock"@
    } else if stock_actual <= stock_minimo {
        "bajo"@
    } else {
        "ok"@
    }
}

/// El estado que se muestra de un producto según su stock y su mínimo.
pub fn estado_stock(stock_actual: i64, stock_minimo: i64) -> (r: String)
    ensures
        r@ == estado_de_stock(stock_actual as int, stock_minimo as int),
{
    if stock_actual <= 0 {
        "sin_stock".to_owned()
    } else if stock_actual <= stock_minimo {
        "bajo".to_owned()
    } else {
        "ok".to_owned()
    }
}

/// Un producto entra en Reposición cuando está en o por debajo del mínimo.
pub fn necesita_reposicion(stock_actual: i64, stock_minimo: i64) -> (r: bool)
    ensures
        r == (stock_actual <= stock_minimo),
{
    stock_actual <= stock_minimo
}

/// Todo producto en Reposición se muestra como "sin_stock" o "bajo", nunca
/// como "ok"; y todo producto "sin_stock" o "bajo" con mínimo no negativo
/// está en Reposición.
pub proof fn ley_reposicion_coincide_con_estado(stock_actual: int, stock_minimo: int)
    ensures
        stock_actual <= stock_minimo ==> estado_de_stock(stock_actual, stock_minimo) != "ok"@,
        stock_minimo >= 0 && estado_de_stock(stock_actual, stock_minimo) != "ok"@
            ==> stock_actual <= stock_minimo,
{
    reveal_strlit("ok");
    reveal_strlit("bajo");
    reveal_strlit("sin_stock");
    assert("ok"@.len() == 2);
    assert("bajo"@.len() == 4);
    assert("sin_stock"@.len() == 9);
}

} // verus!
