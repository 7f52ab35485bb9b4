use espinola::error::AppError;
use espinola::modelos::{CrearVenta, ItemCarrito, PagoInput};
use espinola::ventas::{
    deuda_a_revertir, planificar_venta, saldo_tras_revertir, stock_tras_reponer, validar_anulacion,
    validar_crear_venta, ProductoParaVenta,
};

fn producto(estado: &str, stock: i64, costo: Option<i64>) -> Option<ProductoParaVenta> {
    Some(ProductoParaVenta {
        estado: estado.to_string(),
        stock_actual: stock,
        costo_actual: costo,
    })
}

fn item(producto_id: i64, cantidad: i64, precio: i64, descuento: i64) -> ItemCarrito {
    ItemCarrito {
        producto_id,
        cantidad,
        precio_unitario: precio,
        descuento,
    }
}

fn pago(metodo: i64, monto: i64) -> PagoInput {
    PagoInput {
        metodo_pago_id: metodo,
        monto,
    }
}

fn efectivo() -> Option<String> {
    Some("efectivo".to_string())
}

#[test]
fn crear_venta_simple_actualiza_stock_y_total() {
    let datos = CrearVenta {
        cliente_id: None,
        items: vec![item(7, 2, 800_000, 0)],
        pagos: vec![pago(1, 1_600_000)],
    };
    let plan = planificar_venta(
        &datos,
        Some(0),
        &vec![producto("activo", 10, Some(500_000))],
        &vec![efectivo()],
    )
    .expect("venta");
    assert_eq!(plan.total, 1_600_000);
    assert_eq!(plan.subtotal, 1_600_000);
    assert_eq!(plan.cliente_id, 1);
    assert_eq!(plan.lineas.len(), 1);
    assert_eq!(plan.lineas[0].stock_nuevo, 8);
    assert_eq!(plan.lineas[0].subtotal, 1_600_000);
    assert_eq!(plan.lineas[0].costo_unitario_snapshot, Some(500_000));
    assert_eq!(plan.pagos.len(), 1);
    assert_eq!(plan.monto_cuenta_corriente, 0);
    assert_eq!(plan.saldo_nuevo, None);
}

#[test]
fn descuento_por_linea_se_resta_del_total() {
    let datos = CrearVenta {
        cliente_id: None,
        items: vec![item(3, 1, 5_000_000, 500_000)],
        pagos: vec![pago(1, 4_500_000)],
    };
    let plan = planificar_venta(&datos, Some(0), &vec![producto("activo", 5, None)], &vec![efectivo()])
        .expect("venta");
    assert_eq!(plan.subtotal, 5_000_000);
    assert_eq!(plan.descuento_total, 500_000);
    assert_eq!(plan.total, 4_500_000);
}

#[test]
fn pago_dividido_en_varios_metodos() {
    let datos = CrearVenta {
        cliente_id: None,
        items: vec![item(3, 1, 3_000_000, 0)],
        pagos: vec![pago(1, 1_000_000), pago(2, 2_000_000)],
    };
    let plan = planificar_venta(
        &datos,
        Some(0),
        &vec![producto("activo", 5, None)],
        &vec![efectivo(), Some("transferencia".to_string())],
    )
    .expect("venta");
    assert_eq!(plan.pagos.len(), 2);
    let suma: i64 = plan.pagos.iter().map(|p| p.monto).sum();
    assert_eq!(suma, 3_000_000);
}

#[test]
fn pagos_que_no_suman_el_total_fallan() {
    let datos = CrearVenta {
        cliente_id: None,
        items: vec![item(3, 1, 1_000_000, 0)],
        pagos: vec![pago(1, 900_000)],
    };
    let r = planificar_venta(&datos, Some(0), &vec![producto("activo", 5, None)], &vec![efectivo()]);
    assert!(matches!(r, Err(AppError::Validation(_))));
}

#[test]
fn venta_fiada_aumenta_deuda_y_exige_cliente_real() {
    let cc = Some("cuenta_corriente".to_string());
    let a_consumidor_final = CrearVenta {
        cliente_id: None,
        items: vec![item(3, 1, 4_000_000, 0)],
        pagos: vec![pago(4, 4_000_000)],
    };
    let r = planificar_venta(
        &a_consumidor_final,
        Some(0),
        &vec![producto("activo", 5, None)],
        &vec![cc.clone()],
    );
    assert!(matches!(r, Err(AppError::Validation(_))));

    let a_cliente = CrearVenta {
        cliente_id: Some(9),
        items: vec![item(3, 1, 4_000_000, 0)],
        pagos: vec![pago(4, 4_000_000)],
    };
    let plan = planificar_venta(&a_cliente, Some(0), &vec![producto("activo", 5, None)], &vec![cc])
        .expect("venta fiada");
    assert_eq!(plan.cliente_id, 9);
    assert_eq!(plan.monto_cuenta_corriente, 4_000_000);
    assert_eq!(plan.saldo_nuevo, Some(4_000_000));
}

#[test]
fn carrito_vacio_falla() {
    let datos = CrearVenta {
        cliente_id: None,
        items: vec![],
        pagos: vec![pago(1, 100)],
    };
    assert!(matches!(validar_crear_venta(&datos), Err(AppError::Validation(_))));
    let r = planificar_venta(&datos, Some(0), &vec![], &vec![efectivo()]);
    assert!(matches!(r, Err(AppError::Validation(_))));
}

#[test]
fn vender_producto_inactivo_falla() {
    let datos = CrearVenta {
        cliente_id: None,
        items: vec![item(3, 1, 100_000, 0)],
        pagos: vec![pago(1, 100_000)],
    };
    let r = planificar_venta(&datos, Some(0), &vec![producto("inactivo", 5, None)], &vec![efectivo()]);
    assert!(matches!(r, Err(AppError::Validation(_))));
}

#[test]
fn producto_inexistente_o_cliente_inexistente_no_se_encuentran() {
    let datos = CrearVenta {
        cliente_id: Some(50),
        items: vec![item(3, 1, 100_000, 0)],
        pagos: vec![pago(1, 100_000)],
    };
    let sin_producto = planificar_venta(&datos, Some(0), &vec![None], &vec![efectivo()]);
    assert!(matches!(sin_producto, Err(AppError::NotFound(_))));
    let sin_cliente = planificar_venta(&datos, None, &vec![producto("activo", 1, None)], &vec![efectivo()]);
    assert!(matches!(sin_cliente, Err(AppError::NotFound(_))));
}

#[test]
fn metodo_de_pago_inexistente_falla() {
    let datos = CrearVenta {
        cliente_id: None,
        items: vec![item(3, 1, 100_000, 0)],
        pagos: vec![pago(99, 100_000)],
    };
    let r = planificar_venta(&datos, Some(0), &vec![producto("activo", 1, None)], &vec![None]);
    assert!(matches!(r, Err(AppError::Validation(_))));
}

#[test]
fn descuento_mayor_al_importe_o_cantidad_cero_fallan() {
    let caro = CrearVenta {
        cliente_id: None,
        items: vec![item(3, 1, 100, 101)],
        pagos: vec![pago(1, 1)],
    };
    assert!(matches!(validar_crear_venta(&caro), Err(AppError::Validation(_))));
    let cero = CrearVenta {
        cliente_id: None,
        items: vec![item(3, 0, 100, 0)],
        pagos: vec![pago(1, 1)],
    };
    assert!(matches!(validar_crear_venta(&cero), Err(AppError::Validation(_))));
    let bien = CrearVenta {
        cliente_id: None,
        items: vec![item(3, 2, 100, 200)],
        pagos: vec![pago(1, 1)],
    };
    assert!(validar_crear_venta(&bien).is_ok());
}

#[test]
fn varias_lineas_suman_subtotal_descuento_y_stock_por_linea() {
    let datos = CrearVenta {
        cliente_id: Some(4),
        items: vec![item(1, 3, 1_000, 500), item(2, 1, 2_500, 0)],
        pagos: vec![pago(1, 2_000), pago(4, 3_000)],
    };
    let plan = planificar_venta(
        &datos,
        Some(1_000),
        &vec![producto("activo", 2, Some(700)), producto("activo", 10, None)],
        &vec![efectivo(), Some("cuenta_corriente".to_string())],
    )
    .expect("venta");
    assert_eq!(plan.subtotal, 5_500);
    assert_eq!(plan.descuento_total, 500);
    assert_eq!(plan.total, 5_000);
    assert_eq!(plan.lineas[0].subtotal, 2_500);
    // Se puede vender sin stock: queda negativo.
    assert_eq!(plan.lineas[0].stock_nuevo, -1);
    assert_eq!(plan.lineas[1].stock_nuevo, 9);
    assert_eq!(plan.monto_cuenta_corriente, 3_000);
    assert_eq!(plan.saldo_nuevo, Some(4_000));
}

#[test]
fn anular_sin_motivo_falla() {
    let r = validar_anulacion(9, "   ", &Some("confirmada".to_string()), 0);
    assert!(matches!(r, Err(AppError::Validation(_))));
}

#[test]
fn no_se_puede_anular_dos_veces() {
    let r = validar_anulacion(9, "error de carga", &Some("anulada".to_string()), 0);
    assert!(matches!(r, Err(AppError::Validation(_))));
}

#[test]
fn no_se_puede_anular_una_venta_con_devoluciones() {
    let r = validar_anulacion(9, "error", &Some("confirmada".to_string()), 1);
    assert!(matches!(r, Err(AppError::Validation(_))));
}

#[test]
fn anular_venta_inexistente_no_se_encuentra() {
    let r = validar_anulacion(9, "error", &None, 0);
    assert_eq!(r.clone().err(), Some(AppError::NotFound("No existe la venta 9.".to_string())));
    assert!(matches!(r, Err(AppError::NotFound(_))));
}

#[test]
fn anular_venta_revierte_stock_y_deja_registro() {
    let motivo = validar_anulacion(9, "  cliente se arrepintió ", &Some("confirmada".to_string()), 0)
        .expect("se puede anular");
    assert_eq!(motivo, "cliente se arrepintió");
    // 10 - 2 vendidas: al anular vuelve a 10.
    assert_eq!(stock_tras_reponer(8, 2), 10);
}

#[test]
fn anular_venta_fiada_revierte_la_deuda() {
    assert_eq!(deuda_a_revertir(Some(4_000_000)), Some(4_000_000));
    assert_eq!(deuda_a_revertir(Some(0)), None);
    assert_eq!(deuda_a_revertir(None), None);
    assert_eq!(saldo_tras_revertir(4_000_000, 4_000_000), 0);
}

#[test]
fn producto_en_dos_lineas_descuenta_todo_lo_vendido() {
    let datos = CrearVenta {
        cliente_id: None,
        items: vec![item(7, 1, 1_000, 0), item(9, 4, 500, 0), item(7, 2, 1_000, 0)],
        pagos: vec![pago(1, 5_000)],
    };
    let plan = planificar_venta(
        &datos,
        Some(0),
        &vec![producto("activo", 10, None), producto("activo", 6, None), producto("activo", 10, None)],
        &vec![efectivo()],
    )
    .expect("venta");
    assert_eq!(plan.total, 5_000);
    assert_eq!(plan.lineas[0].stock_nuevo, 9);
    assert_eq!(plan.lineas[1].stock_nuevo, 2);
    // La última línea del producto 7 deja su stock en 10 - 1 - 2.
    assert_eq!(plan.lineas[2].stock_nuevo, 7);
    // Anular repone cada línea en orden y vuelve al stock de partida.
    let tras_primera = stock_tras_reponer(plan.lineas[2].stock_nuevo, 1);
    assert_eq!(stock_tras_reponer(tras_primera, 2), 10);
}

#[test]
fn producto_repetido_sin_stock_suficiente_no_bloquea() {
    let datos = CrearVenta {
        cliente_id: None,
        items: vec![item(7, 2, 100, 0), item(7, 2, 100, 0)],
        pagos: vec![pago(1, 400)],
    };
    let plan = planificar_venta(
        &datos,
        Some(0),
        &vec![producto("activo", 3, None), producto("activo", 3, None)],
        &vec![efectivo()],
    )
    .expect("venta");
    assert_eq!(plan.lineas[0].stock_nuevo, 1);
    assert_eq!(plan.lineas[1].stock_nuevo, -1);
}

#[test]
fn los_errores_nombran_el_producto_y_el_cliente() {
    let datos = CrearVenta {
        cliente_id: Some(12),
        items: vec![item(7, 1, 100, 0)],
        pagos: vec![pago(1, 100)],
    };
    let inactivo = planificar_venta(&datos, Some(0), &vec![producto("inactivo", 3, None)], &vec![efectivo()]);
    assert_eq!(inactivo.err(), Some(AppError::Validation("El producto 7 no está activo.".to_string())));
    let sin_producto = planificar_venta(&datos, Some(0), &vec![None], &vec![efectivo()]);
    assert_eq!(sin_producto.err(), Some(AppError::NotFound("No existe el producto 7.".to_string())));
    let sin_cliente = planificar_venta(&datos, None, &vec![producto("activo", 3, None)], &vec![efectivo()]);
    assert_eq!(sin_cliente.err(), Some(AppError::NotFound("No existe el cliente 12.".to_string())));
}
