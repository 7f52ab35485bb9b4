use espinola::backups::{
    a_rotar, carpeta_efectiva, carpeta_por_defecto, db_path, escapar_comillas, fecha_del_manifiesto, marcador_path,
    necesita_automatico, nombre_de_archivo, pendiente_tras_la_ultima, retencion_guardada, origen_del_marcador, revisar_integridad, revisar_restauracion,
    validar_configuracion, validar_tipo,
};
use espinola::catalogos::{
    comprobante_a_usar, guardar_negocio, negocio_de, numero_comprobante, patron_busqueda, prefijo, resumen_caja, totales_de_caja,
    validar_categoria, validar_cliente, validar_edicion_cliente, validar_evento, validar_marca,
    validar_pedido_comprobante, validar_proveedor, vinculo_a_guardar,
};
use espinola::error::AppError;
use espinola::modelos::{
    Backup, ConfiguracionNegocio, GuardarCliente, GuardarProveedor, MontoPorMetodo, NuevaCategoria,
};

fn backup(id: i64, tipo: &str) -> Backup {
    Backup {
        id,
        archivo_path: format!("/copias/{id}.db"),
        fecha: format!("2024-01-{id:02}T00:00:00.000Z"),
        tamano_bytes: 1024,
        tipo: tipo.to_string(),
        version_esquema: 11,
        archivo_existe: true,
    }
}

#[test]
fn rutas_dentro_de_los_datos_de_la_app() {
    assert_eq!(db_path("/datos/app"), "/datos/app/espinola.db");
    assert_eq!(carpeta_por_defecto("/datos/app/"), "/datos/app/backups");
    assert_eq!(marcador_path("/datos"), "/datos/restauracion_pendiente.txt");
    assert_eq!(carpeta_efectiva("  ", "/datos"), "/datos/backups");
    assert_eq!(carpeta_efectiva("/media/pendrive", "/datos"), "/media/pendrive");
}

#[test]
fn la_retencion_rota_las_copias_mas_viejas() {
    // De la más nueva a la más vieja.
    let copias = vec![
        backup(6, "manual"),
        backup(5, "previo_restauracion"),
        backup(4, "automatico"),
        backup(3, "manual"),
        backup(2, "previo_restauracion"),
        backup(1, "automatico"),
    ];
    let borrar = a_rotar(&copias, 2);
    assert_eq!(borrar, vec![(3, "/copias/3.db".to_string()), (1, "/copias/1.db".to_string())]);
    assert!(a_rotar(&copias, 10).is_empty());
    assert_eq!(a_rotar(&copias, 0).len(), 4);
}

#[test]
fn la_retencion_no_puede_ser_cero() {
    assert!(matches!(validar_configuracion("", 0, false), Err(AppError::Validation(_))));
    assert_eq!(validar_configuracion("  ", 3, false).unwrap(), "");
}

#[test]
fn una_carpeta_inexistente_no_se_guarda() {
    assert!(matches!(validar_configuracion(" /no/existe ", 5, false), Err(AppError::Validation(_))));
    assert_eq!(validar_configuracion(" /media/copias ", 5, true).unwrap(), "/media/copias");
}

#[test]
fn el_primer_arranque_siempre_necesita_backup_automatico() {
    // 2024-03-10T12:00:00Z
    let mediodia: i64 = 1_710_072_000;
    assert!(necesita_automatico(None, mediodia, 0));
    assert!(necesita_automatico(Some(""), mediodia, 0));
    assert!(necesita_automatico(Some("no es una fecha"), mediodia, 0));
    assert!(!necesita_automatico(Some("2024-03-10T12:00:00.000Z"), mediodia, 0));
}

#[test]
fn la_copia_automatica_vuelve_a_hacer_falta_a_las_24_horas() {
    let mediodia: i64 = 1_710_072_000;
    let ultima = Some("2024-03-09T12:00:00.000Z");
    // Un nanosegundo antes de las 24 horas enteras, todavía no.
    assert!(!necesita_automatico(ultima, mediodia - 1, 999_999_999));
    assert!(necesita_automatico(ultima, mediodia, 0));
    // Con zona horaria: 09:00-03:00 es 12:00 UTC.
    assert!(necesita_automatico(Some("2024-03-09T09:00:00-03:00"), mediodia, 0));
    assert!(!necesita_automatico(Some("2024-03-09T09:00:01-03:00"), mediodia, 0));
    // Una fecha en el futuro no pide copia.
    assert!(!necesita_automatico(Some("2024-03-11T12:00:00Z"), mediodia, 0));
}

#[test]
fn no_se_restaura_un_archivo_que_no_es_una_base() {
    assert!(matches!(revisar_integridad("ok", 0), Err(AppError::Validation(_))));
    assert!(matches!(revisar_integridad("*** in database main ***", 1), Err(AppError::Validation(_))));
    assert!(revisar_integridad("ok", 1).is_ok());
    assert!(matches!(revisar_restauracion(false, 1, 1), Err(AppError::Validation(_))));
    assert!(matches!(revisar_restauracion(true, 12, 11), Err(AppError::Validation(_))));
    assert!(revisar_restauracion(true, 10, 11).is_ok());
}

#[test]
fn tipos_nombres_y_marcador() {
    assert!(validar_tipo("manual").is_ok());
    assert!(validar_tipo("previo_restauracion").is_ok());
    assert!(matches!(validar_tipo("diario"), Err(AppError::Validation(_))));
    // 2024-03-01 10:15:00 UTC.
    assert_eq!(
        nombre_de_archivo("manual", 1_709_288_100, 0).as_deref(),
        Some("espinola-20240301-101500-manual.db")
    );
    assert_eq!(
        fecha_del_manifiesto(1_709_288_100, 123_456_789).as_deref(),
        Some("2024-03-01T10:15:00.123Z")
    );
    assert_eq!(nombre_de_archivo("manual", i64::MAX, 0), None);
    assert_eq!(escapar_comillas("/home/o'brien/copias"), "/home/o''brien/copias");
    assert_eq!(origen_del_marcador("  /copias/a.db\n"), "/copias/a.db");
}

fn cliente(nombre: &str) -> GuardarCliente {
    GuardarCliente {
        nombre: nombre.to_string(),
        telefono: None,
        dni_cuit: None,
        direccion: None,
        observaciones: None,
    }
}

#[test]
fn nombres_obligatorios_y_recortados() {
    assert_eq!(validar_cliente(&cliente("  Juan Pérez ")).unwrap(), "Juan Pérez");
    assert!(matches!(validar_cliente(&cliente("   ")), Err(AppError::Validation(_))));
    assert!(matches!(validar_edicion_cliente(1, &cliente("Otro")), Err(AppError::Validation(_))));
    assert_eq!(validar_edicion_cliente(2, &cliente("Otro ")).unwrap(), "Otro");
    let proveedor = GuardarProveedor {
        nombre: " Repuestos Sur ".to_string(),
        telefono: None,
        whatsapp: None,
        email: None,
        sitio_web: None,
        observaciones: None,
        activo: true,
    };
    assert_eq!(validar_proveedor(&proveedor).unwrap(), "Repuestos Sur");
    let categoria = NuevaCategoria {
        nombre: "".to_string(),
        categoria_padre_id: None,
    };
    assert!(matches!(validar_categoria(&categoria), Err(AppError::Validation(_))));
    assert_eq!(validar_marca(" NGK").unwrap(), "NGK");
    assert_eq!(patron_busqueda("  juan "), "%juan%");
}

#[test]
fn proveedores_nombre_vacio_falla() {
    let proveedor = GuardarProveedor {
        nombre: "  ".to_string(),
        telefono: None,
        whatsapp: None,
        email: None,
        sitio_web: None,
        observaciones: None,
        activo: true,
    };
    assert!(matches!(validar_proveedor(&proveedor), Err(AppError::Validation(_))));
}

#[test]
fn agregar_de_nuevo_actualiza_en_vez_de_duplicar() {
    assert_eq!(vinculo_a_guardar(5, true, Some(8)).unwrap(), Some(8));
    assert_eq!(vinculo_a_guardar(5, true, None).unwrap(), None);
    assert_eq!(
        vinculo_a_guardar(5, false, Some(8)),
        Err(AppError::NotFound("No existe el producto 5.".to_string()))
    );
}

#[test]
fn guardar_y_releer_persiste_los_valores() {
    let datos = ConfiguracionNegocio {
        nombre: " Repuestos Espínola ".to_string(),
        direccion: " Av. Siempre Viva 123".to_string(),
        telefono: "".to_string(),
    };
    let g = guardar_negocio(&datos).unwrap();
    let leida = negocio_de(Some(g.nombre.clone()), Some(g.direccion.clone()), Some(g.telefono.clone()));
    assert_eq!(leida, g);
    assert_eq!(leida.nombre, "Repuestos Espínola");
    assert_eq!(leida.direccion, "Av. Siempre Viva 123");
}

#[test]
fn sin_configurar_devuelve_todo_vacio() {
    let vacia = negocio_de(None, None, None);
    assert_eq!(vacia.nombre, "");
    assert_eq!(vacia.direccion, "");
    assert_eq!(vacia.telefono, "");
}

#[test]
fn configuracion_nombre_vacio_falla() {
    let datos = ConfiguracionNegocio {
        nombre: "   ".to_string(),
        direccion: "x".to_string(),
        telefono: "y".to_string(),
    };
    assert!(matches!(guardar_negocio(&datos), Err(AppError::Validation(_))));
}

fn monto(id: i64, nombre: &str, monto: i64) -> MontoPorMetodo {
    MontoPorMetodo {
        metodo_pago_id: id,
        metodo_pago_nombre: nombre.to_string(),
        monto,
    }
}

#[test]
fn agrupa_pagos_por_metodo_y_excluye_cuenta_corriente_del_cobrado() {
    let por_metodo = vec![
        monto(1, "efectivo", 1_000_000),
        monto(2, "transferencia", 2_000_000),
        monto(4, "cuenta_corriente", 4_000_000),
    ];
    assert_eq!(totales_de_caja(&por_metodo), (3_000_000, 4_000_000));
    let resumen = resumen_caja("2024-03-01".to_string(), por_metodo, 3);
    assert_eq!(resumen.total_cobrado, 3_000_000);
    assert_eq!(resumen.total_fiado, 4_000_000);
    assert_eq!(resumen.cantidad_ventas, 3);
    assert_eq!(resumen.por_metodo.len(), 3);
    // Cobrado + fiado = todo lo que entró.
    assert_eq!(resumen.total_cobrado + resumen.total_fiado, 7_000_000);
}

#[test]
fn dia_sin_ventas_devuelve_todo_en_cero() {
    let resumen = resumen_caja("2024-03-02".to_string(), vec![], 0);
    assert_eq!(resumen.total_cobrado, 0);
    assert_eq!(resumen.total_fiado, 0);
}

#[test]
fn crear_genera_numero_con_prefijo_segun_tipo() {
    assert_eq!(prefijo("ticket"), "TCK");
    assert_eq!(prefijo("a4"), "A4");
    assert_eq!(numero_comprobante("ticket", 12), "TCK-000012");
    assert_eq!(numero_comprobante("a4", 12), "A4-000012");
}

#[test]
fn no_se_puede_generar_comprobante_de_venta_anulada() {
    assert!(matches!(validar_pedido_comprobante(4, "ticket", Some("anulada")), Err(AppError::Validation(_))));
    assert!(matches!(validar_pedido_comprobante(4, "ticket", None), Err(AppError::NotFound(_))));
    assert_eq!(
        validar_pedido_comprobante(4, "ticket", None),
        Err(AppError::NotFound("No existe la venta 4.".to_string()))
    );
    assert!(validar_pedido_comprobante(4, "a4", Some("confirmada")).is_ok());
}

#[test]
fn tipo_invalido_falla() {
    assert!(matches!(validar_pedido_comprobante(4, "factura", Some("confirmada")), Err(AppError::Validation(_))));
    assert!(matches!(validar_evento("enviado"), Err(AppError::Validation(_))));
    assert!(validar_evento("impreso").is_ok());
    assert!(validar_evento("pdf_generado").is_ok());
}

#[test]
fn pedirlo_dos_veces_devuelve_el_mismo_comprobante() {
    // El número sale del id: el mismo comprobante tiene siempre el mismo
    // número y dos comprobantes distintos nunca lo comparten.
    assert_eq!(numero_comprobante("ticket", 7), numero_comprobante("ticket", 7));
    assert_ne!(numero_comprobante("ticket", 7), numero_comprobante("ticket", 70));
    assert_ne!(numero_comprobante("a4", 1), numero_comprobante("a4", 1_000_000));
}

#[test]
fn comprobante_existente_se_reusa_y_si_no_hay_se_crea() {
    assert_eq!(comprobante_a_usar(4, "ticket", Some("confirmada"), Some(41)), Ok(Some(41)));
    assert_eq!(comprobante_a_usar(4, "a4", Some("confirmada"), None), Ok(None));
    assert!(matches!(comprobante_a_usar(4, "ticket", None, None), Err(AppError::NotFound(_))));
    assert!(matches!(comprobante_a_usar(4, "ticket", Some("anulada"), Some(41)), Err(AppError::Validation(_))));
    assert!(matches!(comprobante_a_usar(4, "factura", Some("confirmada"), None), Err(AppError::Validation(_))));
}

#[test]
fn rutas_sin_carpeta_o_con_separador_final() {
    assert_eq!(db_path(""), "espinola.db");
    assert_eq!(db_path("/datos/"), "/datos/espinola.db");
    assert_eq!(db_path("/datos"), "/datos/espinola.db");
}

#[test]
fn restaurar_un_backup_de_esquema_mas_nuevo_dice_las_versiones() {
    assert_eq!(
        revisar_restauracion(true, 5, 3),
        Err(AppError::Validation(
            "Ese backup es de una versión más nueva del sistema (esquema 5 contra 3). Actualizá la aplicación antes de restaurarlo."
                .to_string()
        ))
    );
}

/// Las horas enteras de chrono entre dos instantes, como las cuenta la
/// aplicación de siempre.
fn horas_segun_chrono(desde: (i64, u32), hasta: (i64, u32)) -> i64 {
    let desde = chrono::DateTime::from_timestamp(desde.0, desde.1).unwrap();
    let hasta = chrono::DateTime::from_timestamp(hasta.0, hasta.1).unwrap();
    hasta.signed_duration_since(desde).num_hours()
}

#[test]
fn las_horas_se_cuentan_como_en_chrono_tambien_con_segundo_intercalar() {
    // 00:16:59 con un segundo intercalar en curso (00:16:60.5).
    let intercalar = (1_019, 1_500_000_000);
    let casos = [
        (intercalar, (1_019 + 86_400, 0)),
        (intercalar, (1_019 + 86_401, 0)),
        (intercalar, (1_019 + 86_402, 0)),
        ((1_000, 0), (1_000 + 86_400, 0)),
        ((1_000, 500), (1_000 + 86_400, 499)),
        ((1_000, 0), (500, 0)),
    ];
    for (desde, hasta) in casos {
        assert_eq!(
            pendiente_tras_la_ultima(Some(desde), hasta.0, hasta.1),
            horas_segun_chrono(desde, hasta) >= 24,
            "desde {desde:?} hasta {hasta:?}"
        );
    }
    assert!(pendiente_tras_la_ultima(None, 0, 0));
}

#[test]
fn la_retencion_guardada_se_lee_como_un_entero() {
    assert_eq!(retencion_guardada(None), 10);
    assert_eq!(retencion_guardada(Some("7")), 7);
    assert_eq!(retencion_guardada(Some("+7")), 7);
    assert_eq!(retencion_guardada(Some("-3")), -3);
    assert_eq!(retencion_guardada(Some("")), 10);
    assert_eq!(retencion_guardada(Some(" 7")), 10);
    assert_eq!(retencion_guardada(Some("7a")), 10);
    assert_eq!(retencion_guardada(Some("-")), 10);
    assert_eq!(retencion_guardada(Some("9223372036854775807")), i64::MAX);
    assert_eq!(retencion_guardada(Some("-9223372036854775808")), i64::MIN);
    assert_eq!(retencion_guardada(Some("9223372036854775808")), 10);
    for texto in ["0", "0012", "+", "1_000", "٣", "99999999999999999999"] {
        assert_eq!(retencion_guardada(Some(texto)), texto.parse::<i64>().unwrap_or(10), "{texto}");
    }
}

#[test]
fn agregar_dos_veces_el_mismo_producto_reusa_el_vinculo() {
    // La primera vez no hay vínculo: se crea (la base le da el id 8).
    assert_eq!(vinculo_a_guardar(5, true, None), Ok(None));
    // La segunda lo encuentra y reusa esa misma fila.
    assert_eq!(vinculo_a_guardar(5, true, Some(8)), Ok(Some(8)));
}
