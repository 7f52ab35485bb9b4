use espinola::compras::{linea_compra, planificar_compra};
use espinola::cuenta_corriente::{ajustar as ajustar_cuenta, registrar_pago, saldo_actual_de_cliente_valido};
use espinola::error::AppError;
use espinola::modelos::{AjusteCuentaCorriente, AjusteStock, CrearCompra, ItemCompra, RegistrarPago};
use espinola::stock::{
    ajustar as ajustar_stock, estado_stock, necesita_reposicion, resultado_actualizar_minimo,
    validar_minimo,
};

fn compra(items: Vec<ItemCompra>) -> CrearCompra {
    CrearCompra {
        proveedor_id: 3,
        numero_factura: Some("A-0001".to_string()),
        items,
    }
}

fn item_compra(producto_id: i64, cantidad: i64, costo: i64) -> ItemCompra {
    ItemCompra {
        producto_id,
        cantidad,
        costo_unitario: costo,
    }
}

#[test]
fn crear_compra_simple_suma_stock_y_total() {
    let datos = compra(vec![item_compra(1, 5, 100_000), item_compra(2, 2, 250_000)]);
    let total = planificar_compra(&datos, true, &vec![true, true]).expect("compra");
    assert_eq!(total, 1_000_000);
    let linea = linea_compra(&datos.items[0], 3, Some(100_000));
    assert_eq!(linea.stock_nuevo, 8);
    assert_eq!(linea.subtotal, 500_000);
    assert!(!linea.actualiza_costo);
}

#[test]
fn costo_distinto_actualiza_producto_y_deja_historial() {
    let linea = linea_compra(&item_compra(1, 1, 120_000), 0, Some(100_000));
    assert!(linea.actualiza_costo);
    let sin_costo = linea_compra(&item_compra(1, 1, 120_000), 0, None);
    assert!(sin_costo.actualiza_costo);
}

#[test]
fn costo_igual_no_agrega_historial() {
    let linea = linea_compra(&item_compra(1, 4, 100_000), 10, Some(100_000));
    assert!(!linea.actualiza_costo);
    assert_eq!(linea.stock_nuevo, 14);
}

#[test]
fn items_vacios_falla() {
    let r = planificar_compra(&compra(vec![]), true, &vec![]);
    assert!(matches!(r, Err(AppError::Validation(_))));
}

#[test]
fn proveedor_inactivo_o_producto_inexistente_fallan() {
    let datos = compra(vec![item_compra(1, 1, 10)]);
    assert!(matches!(planificar_compra(&datos, false, &vec![true]), Err(AppError::Validation(_))));
    assert!(matches!(planificar_compra(&datos, true, &vec![false]), Err(AppError::NotFound(_))));
    let negativo = compra(vec![item_compra(1, 0, 10)]);
    assert!(matches!(planificar_compra(&negativo, true, &vec![true]), Err(AppError::Validation(_))));
}

#[test]
fn recibir_stock_de_producto_inactivo_funciona() {
    // La recepción no mira el estado del producto, solo que exista.
    let datos = compra(vec![item_compra(1, 2, 0)]);
    assert_eq!(planificar_compra(&datos, true, &vec![true]).unwrap(), 0);
}

#[test]
fn ajustar_actualiza_cacheado_y_deja_ledger_y_auditoria() {
    let datos = AjusteStock {
        nueva_cantidad: 12,
        motivo: " conteo físico ".to_string(),
    };
    let plan = ajustar_stock(3, &datos, Some(15)).expect("ajuste");
    assert_eq!(plan.stock_anterior, 15);
    assert_eq!(plan.stock_nuevo, 12);
    assert_eq!(plan.delta, -3);
    assert_eq!(plan.motivo, "conteo físico");
}

#[test]
fn ajustar_exige_motivo() {
    let datos = AjusteStock {
        nueva_cantidad: 12,
        motivo: "   ".to_string(),
    };
    assert!(matches!(ajustar_stock(3, &datos, Some(1)), Err(AppError::Validation(_))));
    let negativo = AjusteStock {
        nueva_cantidad: -1,
        motivo: "x".to_string(),
    };
    assert!(matches!(ajustar_stock(3, &negativo, Some(1)), Err(AppError::Validation(_))));
    let sin_producto = AjusteStock {
        nueva_cantidad: 1,
        motivo: "x".to_string(),
    };
    assert_eq!(
        ajustar_stock(3, &sin_producto, None).err(),
        Some(AppError::NotFound("No existe el producto 3.".to_string()))
    );
}

#[test]
fn reposicion_solo_incluye_productos_bajo_el_minimo() {
    assert!(necesita_reposicion(2, 5));
    assert!(necesita_reposicion(5, 5));
    assert!(!necesita_reposicion(6, 5));
    assert_eq!(estado_stock(0, 5), "sin_stock");
    assert_eq!(estado_stock(-2, 0), "sin_stock");
    assert_eq!(estado_stock(3, 5), "bajo");
    assert_eq!(estado_stock(5, 5), "bajo");
    assert_eq!(estado_stock(6, 5), "ok");
}

#[test]
fn minimo_negativo_o_producto_inexistente_fallan() {
    assert!(matches!(validar_minimo(-1), Err(AppError::Validation(_))));
    assert!(validar_minimo(0).is_ok());
    assert!(matches!(resultado_actualizar_minimo(3, 0), Err(AppError::NotFound(_))));
    assert!(resultado_actualizar_minimo(3, 1).is_ok());
}

#[test]
fn ajuste_y_pago_actualizan_saldo_en_secuencia() {
    let ajuste = ajustar_cuenta(
        5,
        &AjusteCuentaCorriente {
            monto: 10_000,
            motivo: "saldo inicial".to_string(),
        },
        Some(0),
    )
    .expect("ajuste");
    assert_eq!(ajuste.saldo_nuevo, 10_000);
    assert_eq!(ajuste.tipo, "ajuste");
    assert_eq!(ajuste.accion_auditoria, "ajuste_cuenta_corriente");
    let pago = registrar_pago(
        5,
        &RegistrarPago {
            monto: 4_000,
            metodo_pago_id: 1,
            observacion: Some("a cuenta".to_string()),
        },
        true,
        Some(ajuste.saldo_nuevo),
    )
    .expect("pago");
    assert_eq!(pago.monto, -4_000);
    assert_eq!(pago.saldo_nuevo, 6_000);
    assert_eq!(pago.tipo, "pago");
    assert_eq!(pago.observacion, "a cuenta");
    assert_eq!(pago.metodo_pago_id, Some(1));
}

#[test]
fn consumidor_final_no_puede_tener_cuenta_corriente() {
    assert!(matches!(saldo_actual_de_cliente_valido(1, Some(0)), Err(AppError::Validation(_))));
    assert!(matches!(saldo_actual_de_cliente_valido(2, None), Err(AppError::NotFound(_))));
    assert_eq!(saldo_actual_de_cliente_valido(2, Some(30)).unwrap(), 30);
}

#[test]
fn pago_exige_metodo_valido_y_monto_positivo() {
    let cero = RegistrarPago {
        monto: 0,
        metodo_pago_id: 1,
        observacion: None,
    };
    assert!(matches!(registrar_pago(5, &cero, true, Some(0)), Err(AppError::Validation(_))));
    let bien = RegistrarPago {
        monto: 10,
        metodo_pago_id: 77,
        observacion: None,
    };
    assert!(matches!(registrar_pago(5, &bien, false, Some(0)), Err(AppError::Validation(_))));
    let ok = registrar_pago(5, &bien, true, Some(0)).unwrap();
    assert_eq!(ok.observacion, "");
    assert_eq!(ok.saldo_nuevo, -10);
}

#[test]
fn ajuste_sin_motivo_o_en_cero_falla() {
    let sin_motivo = AjusteCuentaCorriente {
        monto: 5,
        motivo: " ".to_string(),
    };
    assert!(matches!(ajustar_cuenta(5, &sin_motivo, Some(0)), Err(AppError::Validation(_))));
    let cero = AjusteCuentaCorriente {
        monto: 0,
        motivo: "x".to_string(),
    };
    assert!(matches!(ajustar_cuenta(5, &cero, Some(0)), Err(AppError::Validation(_))));
}
