//! Cuenta corriente de clientes: pagos y ajustes manuales. Cada movimiento
//! deja el saldo anterior más su monto (positivo aumenta la deuda).
use vstd::prelude::*;

use crate::error::{validacion, AppError, TipoError};
use crate::modelos::{AjusteCuentaCorriente, RegistrarPago, ID_CONSUMIDOR_FINAL};
use crate::sumas::suma;
use crate::texto::{con_numero, esta_en_blanco, recortado, recorte, solo_espacios};

verus! {

/// Un movimiento a registrar: la fila del libro, el saldo nuevo del
/// cliente y la acción de auditoría.
#[derive(Debug, Clone, PartialEq, Eq)]
pub struct MovimientoPlaneado {
    pub cliente_id: i64,
    /// pago | ajuste
    pub tipo: String,
    pub monto: i64,
    pub saldo_nuevo: i64,
    pub metodo_pago_id: Option<i64>,
    pub observacion: String,
    pub accion_auditoria: String,
}

/// Qué error da pedir la cuenta de un cliente: "Consumidor final" no puede
/// tener cuenta corriente, y el cliente tiene que existir.
pub open spec fn error_cliente(cliente_id: i64, saldo: Option<i64>) -> Option<TipoError> {
    if cliente_id == ID_CONSUMIDOR_FINAL {
        Some(TipoError::Validacion)
    } else if saldo is None {
        Some(TipoError::NoEncontrado)
    } else {
        None
    }
}

/// El saldo del cliente (`None` si no existe), si puede tener cuenta corriente.
pub fn saldo_actual_de_cliente_valido(cliente_id: i64, saldo: Option<i64>) -> (r: Result<
    i64,
    AppError,
>)
    ensures
        r is Ok <==> error_cliente(cliente_id, saldo) is None,
        r matches Err(e) ==> Some(e.tipo()) == error_cliente(cliente_id, saldo),
        r matches Ok(s) ==> saldo == Some(s),
{
    if cliente_id == ID_CONSUMIDOR_FINAL {
        return Err(validacion("\"Consumidor final\" no puede tener cuenta corriente."));
    }
    match saldo {
        Some(s) => Ok(s),
        None => Err(AppError::NotFound(con_numero("No existe el cliente ", cliente_id, "."))),
    }
}

pub open spec fn error_pago(
    cliente_id: i64,
    datos: RegistrarPago,
    metodo_valido: bool,
    saldo: Option<i64>,
) -> Option<TipoError> {
    if datos.monto <= 0 {
        Some(TipoError::Validacion)
    } else if !metodo_valido {
        Some(TipoError::Validacion)
    } else {
        error_cliente(cliente_id, saldo)
    }
}

pub open spec fn observacion_de(o: Option<String>) -> Seq<char> {
    match o {
        Some(s) => s@,
        None => seq![],
    }
}

/// Un pago: reduce la deuda en el monto pagado. `metodo_valido` dice si el
/// método existe y está activo; `saldo`, el saldo del cliente (`None` si no
/// existe).
pub fn registrar_pago(
    cliente_id: i64,
    datos: &RegistrarPago,
    metodo_valido: bool,
    saldo: Option<i64>,
) -> (r: Result<MovimientoPlaneado, AppError>)
    requires
        saldo matches Some(s) ==> s - datos.monto >= i64::MIN,
    ensures
        r is Ok <==> error_pago(cliente_id, *datos, metodo_valido, saldo) is None,
        r matches Err(e) ==> Some(e.tipo()) == error_pago(cliente_id, *datos, metodo_valido, saldo),
        r matches Ok(m) ==> {
            &&& m.cliente_id == cliente_id
            &&& m.tipo@ == "pago"@
            &&& m.monto == -datos.monto
            &&& m.saldo_nuevo == saldo->0 + m.monto
            &&& m.metodo_pago_id == Some(datos.metodo_pago_id)
            &&& m.observacion@ == observacion_de(datos.observacion)
            &&& m.accion_auditoria@ == "pago_cuenta_corriente"@
        },
{
    if datos.monto <= 0 {
        return Err(validacion("El monto del pago tiene que ser mayor a 0."));
    }
    if !metodo_valido {
        return Err(validacion("Método de pago inválido."));
    }
    let anterior = saldo_actual_de_cliente_valido(cliente_id, saldo)?;
    let observacion = match &datos.observacion {
        Some(o) => o.as_str().to_owned(),
        None => "".to_owned(),
    };
    proof {
        reveal_strlit("");
    }
    Ok(
        MovimientoPlaneado {
            cliente_id,
            tipo: "pago".to_owned(),
            monto: -datos.monto,
            saldo_nuevo: anterior - datos.monto,
            metodo_pago_id: Some(datos.metodo_pago_id),
            observacion,
            accion_auditoria: "pago_cuenta_corriente".to_owned(),
        },
    )
}

pub open spec fn error_ajuste(cliente_id: i64, datos: AjusteCuentaCorriente, saldo: Option<i64>) -> Option<
    TipoError,
> {
    if solo_espacios(datos.motivo@) {
        Some(TipoError::Validacion)
    } else if datos.monto == 0 {
        Some(TipoError::Validacion)
    } else {
        error_cliente(cliente_id, saldo)
    }
}

/// Un ajuste manual con motivo: suma el monto (con su signo) a la deuda.
pub fn ajustar(cliente_id: i64, datos: &AjusteCuentaCorriente, saldo: Option<i64>) -> (r: Result<
    MovimientoPlaneado,
    AppError,
>)
    requires
        saldo matches Some(s) ==> i64::MIN <= s + datos.monto <= i64::MAX,
    ensures
        r is Ok <==> error_ajuste(cliente_id, *datos, saldo) is None,
        r matches Err(e) ==> Some(e.tipo()) == error_ajuste(cliente_id, *datos, saldo),
        r matches Ok(m) ==> {
            &&& m.cliente_id == cliente_id
            &&& m.tipo@ == "ajuste"@
            &&& m.monto == datos.monto
            &&& m.saldo_nuevo == saldo->0 + m.monto
            &&& m.metodo_pago_id is None
            &&& m.observacion@ == recorte(datos.motivo@)
            &&& m.accion_auditoria@ == "ajuste_cuenta_corriente"@
        },
{
    if esta_en_blanco(datos.motivo.as_str()) {
        return Err(validacion("Tenés que indicar un motivo para el ajuste."));
    }
    if datos.monto == 0 {
        return Err(validacion("El ajuste tiene que ser distinto de 0."));
    }
    let anterior = saldo_actual_de_cliente_valido(cliente_id, saldo)?;
    Ok(
        MovimientoPlaneado {
            cliente_id,
            tipo: "ajuste".to_owned(),
            monto: datos.monto,
            saldo_nuevo: anterior + datos.monto,
            metodo_pago_id: None,
            observacion: recortado(datos.motivo.as_str()),
            accion_auditoria: "ajuste_cuenta_corriente".to_owned(),
        },
    )
}

/// Movimientos encadenados: cada uno parte del saldo que dejó el anterior.
pub open spec fn encadenados(inicial: int, movimientos: Seq<MovimientoPlaneado>) -> bool {
    forall|i: int|
        0 <= i < movimientos.len() ==> (#[trigger] movimientos[i]).saldo_nuevo == (if i == 0 {
            inicial
        } else {
            movimientos[i - 1].saldo_nuevo as int
        }) + movimientos[i].monto
}

/// El saldo de una cuenta es siempre el saldo inicial más la suma de los
/// montos de sus movimientos: el cacheado `saldo_cuenta_corriente` y el
/// libro de movimientos nunca se desincronizan.
pub proof fn ley_saldo_es_suma_de_movimientos(inicial: int, movimientos: Seq<MovimientoPlaneado>)
    requires
        movimientos.len() > 0,
        encadenados(inicial, movimientos),
    ensures
        movimientos.last().saldo_nuevo == inicial + suma(
            movimientos.map_values(|m: MovimientoPlaneado| m.monto as int),
        ),
    decreases movimientos.len(),
{
    let previos = movimientos.drop_last();
    let montos = movimientos.map_values(|m: MovimientoPlaneado| m.monto as int);
    assert(montos.drop_last() =~= previos.map_values(|m: MovimientoPlaneado| m.monto as int));
    assert(montos.last() == movimientos.last().monto);
    assert(suma(montos) == suma(montos.drop_last()) + montos.last());
    if previos.len() > 0 {
        assert forall|i: int| 0 <= i < previos.len() implies (#[trigger] previos[i]).saldo_nuevo == (
        if i == 0 {
            inicial
        } else {
            previos[i - 1].saldo_nuevo as int
        }) + previos[i].monto by {
            assert(previos[i] == movimientos[i]);
            if i > 0 {
                assert(previos[i - 1] == movimientos[i - 1]);
            }
        }
        ley_saldo_es_suma_de_movimientos(inicial, previos);
        assert(previos.last() == movimientos[movimientos.len() - 2]);
        assert(movimientos[movimientos.len() - 1].saldo_nuevo == movimientos[movimientos.len()
            - 2].saldo_nuevo + movimientos.last().monto);
    } else {
        assert(movimientos[0].saldo_nuevo == inicial + movimientos[0].monto);
    }
}

} // verus!
