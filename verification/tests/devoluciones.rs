use espinola::devoluciones::{planificar_devolucion, validar_devolucion, LineaVendida, VentaADevolver};
use espinola::error::AppError;
use espinola::modelos::{CrearDevolucion, ItemDevolucion};

fn venta(estado: &str, cliente_id: i64) -> Option<VentaADevolver> {
    Some(VentaADevolver {
        estado: estado.to_string(),
        cliente_id,
    })
}

fn linea(cantidad: i64, subtotal: i64) -> Option<LineaVendida> {
    Some(LineaVendida {
        producto_id: 7,
        cantidad,
        subtotal,
        venta_id: 1,
    })
}

fn pedido(metodo: &str, cantidad: i64, estado: &str) -> CrearDevolucion {
    CrearDevolucion {
        venta_id: 1,
        motivo: " no le quedaba ".to_string(),
        metodo_devolucion: metodo.to_string(),
        items: vec![ItemDevolucion {
            venta_detalle_id: 11,
            cantidad,
            estado_producto: estado.to_string(),
            observacion: None,
        }],
    }
}

#[test]
fn devolucion_que_vuelve_a_stock_repone_stock() {
    let datos = pedido("reembolso_efectivo", 1, "vuelve_a_stock");
    let plan = planificar_devolucion(&datos, &venta("confirmada", 1), &vec![linea(2, 1_600_000)], &vec![None])
        .expect("devolución");
    assert_eq!(plan.motivo, "no le quedaba");
    assert_eq!(plan.total_devuelto, 800_000);
    assert!(plan.lineas[0].vuelve_a_stock);
    assert_eq!(plan.lineas[0].producto_id, 7);
    assert!(!plan.reduce_deuda);
}

#[test]
fn devolucion_defectuosa_no_repone_stock() {
    let datos = pedido("nota_credito", 1, "defectuoso");
    let plan = planificar_devolucion(&datos, &venta("confirmada", 1), &vec![linea(1, 500)], &vec![None])
        .expect("devolución");
    assert!(!plan.lineas[0].vuelve_a_stock);
    assert_eq!(plan.total_devuelto, 500);
}

#[test]
fn no_se_puede_devolver_mas_de_lo_vendido() {
    let datos = pedido("reembolso_efectivo", 3, "vuelve_a_stock");
    let r = planificar_devolucion(&datos, &venta("confirmada", 1), &vec![linea(2, 1_000)], &vec![None]);
    assert!(matches!(r, Err(AppError::Validation(_))));
}

#[test]
fn dos_devoluciones_parciales_respetan_el_acumulado() {
    let datos = pedido("reembolso_efectivo", 1, "vuelve_a_stock");
    // Se vendieron 2 y ya se devolvió 1: queda 1.
    let segunda = planificar_devolucion(&datos, &venta("confirmada", 1), &vec![linea(2, 1_000)], &vec![Some(1)]);
    assert!(segunda.is_ok());
    // Ya se devolvieron las 2: no queda nada.
    let tercera = planificar_devolucion(&datos, &venta("confirmada", 1), &vec![linea(2, 1_000)], &vec![Some(2)]);
    assert!(matches!(tercera, Err(AppError::Validation(_))));
}

#[test]
fn reduccion_deuda_baja_el_saldo_del_cliente() {
    let datos = pedido("reduccion_deuda", 1, "vuelve_a_stock");
    let plan = planificar_devolucion(&datos, &venta("confirmada", 5), &vec![linea(2, 4_000_000)], &vec![None])
        .expect("devolución");
    assert!(plan.reduce_deuda);
    assert_eq!(plan.cliente_id, 5);
    assert_eq!(plan.total_devuelto, 2_000_000);
    // Consumidor final no tiene cuenta corriente.
    let r = planificar_devolucion(&datos, &venta("confirmada", 1), &vec![linea(2, 4_000_000)], &vec![None]);
    assert!(matches!(r, Err(AppError::Validation(_))));
}

#[test]
fn no_se_puede_devolver_sobre_venta_anulada() {
    let datos = pedido("reembolso_efectivo", 1, "vuelve_a_stock");
    let r = planificar_devolucion(&datos, &venta("anulada", 1), &vec![linea(2, 1_000)], &vec![None]);
    assert!(matches!(r, Err(AppError::Validation(_))));
}

#[test]
fn venta_o_linea_inexistente_no_se_encuentra() {
    let datos = pedido("reembolso_efectivo", 1, "vuelve_a_stock");
    let sin_venta = planificar_devolucion(&datos, &None, &vec![linea(2, 1_000)], &vec![None]);
    assert!(matches!(sin_venta, Err(AppError::NotFound(_))));
    let sin_linea = planificar_devolucion(&datos, &venta("confirmada", 1), &vec![None], &vec![None]);
    assert!(matches!(sin_linea, Err(AppError::NotFound(_))));
}

#[test]
fn monto_proporcional_trunca_hacia_cero() {
    // 1 de 3 unidades de una línea de 1000: 333.
    let datos = pedido("reembolso_efectivo", 1, "en_revision");
    let plan = planificar_devolucion(&datos, &venta("confirmada", 1), &vec![linea(3, 1_000)], &vec![None])
        .expect("devolución");
    assert_eq!(plan.lineas[0].monto, 333);
}

#[test]
fn metodo_o_estado_invalido_o_sin_motivo_fallan() {
    assert!(matches!(
        validar_devolucion(&pedido("trueque", 1, "vuelve_a_stock")),
        Err(AppError::Validation(_))
    ));
    assert!(matches!(
        validar_devolucion(&pedido("nota_credito", 1, "roto")),
        Err(AppError::Validation(_))
    ));
    let mut sin_motivo = pedido("nota_credito", 1, "dañado");
    sin_motivo.motivo = "  ".to_string();
    assert!(matches!(validar_devolucion(&sin_motivo), Err(AppError::Validation(_))));
    assert!(validar_devolucion(&pedido("cambio_producto", 1, "dañado")).is_ok());
}

fn dos_items_sobre_la_linea(primera: i64, segunda: i64) -> CrearDevolucion {
    let item = |cantidad: i64| ItemDevolucion {
        venta_detalle_id: 11,
        cantidad,
        estado_producto: "vuelve_a_stock".to_string(),
        observacion: None,
    };
    CrearDevolucion {
        venta_id: 1,
        motivo: "cambio".to_string(),
        metodo_devolucion: "reembolso_efectivo".to_string(),
        items: vec![item(primera), item(segunda)],
    }
}

#[test]
fn dos_items_de_una_linea_se_suman_contra_lo_vendido() {
    let datos = dos_items_sobre_la_linea(2, 2);
    let r = planificar_devolucion(
        &datos,
        &venta("confirmada", 1),
        &vec![linea(2, 1_000), linea(2, 1_000)],
        &vec![None, None],
    );
    match r {
        Err(AppError::Validation(m)) => {
            assert_eq!(m, "No se pueden devolver 4 unidades: solo quedan 2 sin devolver de esa línea.")
        }
        otro => panic!("se esperaba un error de validación: {otro:?}"),
    }
}

#[test]
fn dos_items_de_una_linea_que_entran_se_aceptan() {
    let datos = dos_items_sobre_la_linea(1, 1);
    let plan = planificar_devolucion(
        &datos,
        &venta("confirmada", 1),
        &vec![linea(2, 1_000), linea(2, 1_000)],
        &vec![None, None],
    )
    .expect("devolución");
    assert_eq!(plan.lineas.len(), 2);
    assert_eq!(plan.total_devuelto, 1_000);
}

#[test]
fn lo_ya_devuelto_cuenta_para_los_items_de_la_misma_linea() {
    let datos = dos_items_sobre_la_linea(1, 1);
    let r = planificar_devolucion(
        &datos,
        &venta("confirmada", 1),
        &vec![linea(2, 1_000), linea(2, 1_000)],
        &vec![Some(1), Some(1)],
    );
    assert!(matches!(r, Err(AppError::Validation(_))));
}
