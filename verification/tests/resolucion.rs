use espinola::error::AppError;
use espinola::importaciones::resumen;
use espinola::modelos::{ImportacionFila, ResolverFila};
use espinola::resolucion::{
    accion_de_fila, cerrar_si_no_quedan_pendientes, codigo_legado_tras_vincular, descartar, filas_para_aplicar, resolver_fila, AccionFila,
};

fn fila(clasificacion: &str, nombre: Option<&str>) -> ImportacionFila {
    ImportacionFila {
        id: 7,
        importacion_id: 3,
        fila_excel: 12,
        codigo_excel: Some("A-1".to_string()),
        nombre_excel: nombre.map(|s| s.to_string()),
        precio_lista_centavos: Some(150_000),
        categoria_excel_texto: Some("FRENOS".to_string()),
        precios_calculados_json: None,
        clasificacion: clasificacion.to_string(),
        motivo_error: None,
        es_duplicado_codigo: false,
        es_posible_duplicado_nombre: false,
        coincide_producto_existente_id: Some(40),
        decision: None,
        producto_vinculado_id: None,
        actualizar_costo_en_vinculo: false,
        producto_id: None,
        resuelta_en: None,
    }
}

fn datos(decision: &str) -> ResolverFila {
    ResolverFila {
        decision: decision.to_string(),
        producto_vinculado_id: None,
        actualizar_costo_en_vinculo: false,
        nombre_corregido: None,
        codigo_corregido: None,
    }
}

#[test]
fn requiere_revision_se_puede_resolver_corrigiendo_el_nombre() {
    let mut d = datos("crear_nuevo");
    d.nombre_corregido = Some("  Pastilla de freno  ".to_string());
    d.codigo_corregido = Some("   ".to_string());
    let resuelta = resolver_fila(7, Some(fila("requiere_revision", None)), d).expect("resolver");
    assert_eq!(resuelta.nombre_excel.as_deref(), Some("Pastilla de freno"));
    assert_eq!(resuelta.codigo_excel, None);
    assert_eq!(resuelta.decision.as_deref(), Some("crear_nuevo"));
    match accion_de_fila(&resuelta).expect("acción") {
        AccionFila::Crear { datos, codigo_legado } => {
            assert_eq!(datos.nombre, "Pastilla de freno");
            assert_eq!(datos.costo_actual, Some(150_000));
            assert_eq!(datos.estado, "activo");
            assert_eq!(datos.categoria_id, None);
            assert_eq!(codigo_legado, None);
        }
        otra => panic!("acción inesperada: {otra:?}"),
    }
}

#[test]
fn omitir_no_crea_producto_y_no_se_puede_resolver_dos_veces() {
    let resuelta = resolver_fila(7, Some(fila("producto_valido", Some("x"))), datos("omitir")).unwrap();
    let accion = accion_de_fila(&resuelta).unwrap();
    assert_eq!(accion, AccionFila::Omitir);
    assert_eq!(accion.accion_auditoria(), "fila_excel_omitida");
    let mut ya = fila("producto_valido", Some("x"));
    ya.resuelta_en = Some("2024-05-01T10:00:00Z".to_string());
    assert!(matches!(resolver_fila(7, Some(ya), datos("omitir")), Err(AppError::Validation(_))));
}

#[test]
fn vincular_existente_no_toca_nombre_y_solo_actualiza_costo_si_se_pide() {
    let mut d = datos("vincular_existente");
    d.producto_vinculado_id = Some(40);
    let sin_costo = resolver_fila(7, Some(fila("producto_valido", Some("Disco"))), d.clone()).unwrap();
    assert_eq!(sin_costo.nombre_excel.as_deref(), Some("Disco"));
    assert_eq!(
        accion_de_fila(&sin_costo).unwrap(),
        AccionFila::Vincular {
            producto_id: 40,
            nuevo_costo: None,
            codigo_legado: Some("A-1".to_string()),
        }
    );
    d.actualizar_costo_en_vinculo = true;
    let con_costo = resolver_fila(7, Some(fila("producto_valido", Some("Disco"))), d).unwrap();
    let accion = accion_de_fila(&con_costo).unwrap();
    assert_eq!(
        accion,
        AccionFila::Vincular {
            producto_id: 40,
            nuevo_costo: Some(150_000),
            codigo_legado: Some("A-1".to_string()),
        }
    );
    assert_eq!(accion.accion_auditoria(), "producto_vinculado_excel");
}

#[test]
fn errores_de_resolucion() {
    assert!(matches!(
        resolver_fila(7, Some(fila("producto_valido", Some("x"))), datos("fusionar")),
        Err(AppError::Validation(_))
    ));
    assert_eq!(
        resolver_fila(7, None, datos("omitir")).err(),
        Some(AppError::NotFound("No existe la fila de importación 7.".to_string()))
    );
    // Decisión inválida se revisa antes que la existencia de la fila.
    assert!(matches!(resolver_fila(7, None, datos("otra")), Err(AppError::Validation(_))));
    let mut vacio = datos("crear_nuevo");
    vacio.nombre_corregido = Some("  ".to_string());
    assert!(matches!(
        resolver_fila(7, Some(fila("requiere_revision", None)), vacio),
        Err(AppError::Validation(_))
    ));
}

#[test]
fn aplicar_exige_decision_nombre_y_destino() {
    let sin_decision = fila("producto_valido", Some("x"));
    assert!(matches!(accion_de_fila(&sin_decision), Err(AppError::Validation(_))));
    let mut sin_nombre = fila("requiere_revision", None);
    sin_nombre.decision = Some("crear_nuevo".to_string());
    assert!(matches!(accion_de_fila(&sin_nombre), Err(AppError::Validation(_))));
    let mut sin_destino = fila("producto_valido", Some("x"));
    sin_destino.decision = Some("vincular_existente".to_string());
    assert!(matches!(accion_de_fila(&sin_destino), Err(AppError::Validation(_))));
    let mut rara = fila("producto_valido", Some("x"));
    rara.decision = Some("borrar".to_string());
    assert!(matches!(accion_de_fila(&rara), Err(AppError::Validation(_))));
    let mut crear = fila("producto_valido", Some("x"));
    crear.decision = Some("crear_nuevo".to_string());
    assert_eq!(accion_de_fila(&crear).unwrap().accion_auditoria(), "producto_importado_excel");
}

#[test]
fn importacion_pasa_a_confirmada_cuando_se_resuelven_todas_las_pendientes() {
    let mut a = fila("producto_valido", Some("x"));
    let b = fila("seccion", Some("FRENOS"));
    let pendientes = resumen(&vec![a.clone(), b.clone()]).pendientes;
    assert_eq!(pendientes, 1);
    assert_eq!(cerrar_si_no_quedan_pendientes("en_revision", pendientes), "en_revision");
    a.resuelta_en = Some("2024-05-01T10:00:00Z".to_string());
    let pendientes = resumen(&vec![a, b]).pendientes;
    assert_eq!(pendientes, 0);
    assert_eq!(cerrar_si_no_quedan_pendientes("en_revision", pendientes), "confirmada");
}

#[test]
fn descartar_marca_la_importacion_sin_tocar_filas() {
    assert_eq!(descartar("en_revision"), "descartada");
    // Una importación cerrada no cambia más.
    assert_eq!(descartar("confirmada"), "confirmada");
    assert_eq!(cerrar_si_no_quedan_pendientes("descartada", 0), "descartada");
}

#[test]
fn aplicar_pendientes_crea_productos_para_las_filas_limpias_sin_asignar_categoria() {
    let mut limpia = fila("producto_valido", Some("Disco"));
    limpia.decision = Some("crear_nuevo".to_string());
    let mut ya_aplicada = limpia.clone();
    ya_aplicada.resuelta_en = Some("2024-05-01T10:00:00Z".to_string());
    let sin_decidir = fila("producto_valido", Some("Otro"));
    let filas = vec![sin_decidir, limpia.clone(), ya_aplicada, limpia.clone()];
    assert_eq!(filas_para_aplicar(&filas), vec![1, 3]);
    match accion_de_fila(&filas[1]).unwrap() {
        AccionFila::Crear { datos, .. } => {
            // La categoría del título de sección nunca se asigna sola.
            assert_eq!(datos.categoria_id, None);
            assert_eq!(datos.marca_id, None);
        }
        otra => panic!("acción inesperada: {otra:?}"),
    }
}

#[test]
fn vincular_conserva_el_codigo_legado_que_ya_habia() {
    assert_eq!(
        codigo_legado_tras_vincular(Some("V-100".to_string()), Some("N-7".to_string())),
        Some("V-100".to_string())
    );
    assert_eq!(codigo_legado_tras_vincular(None, Some("N-7".to_string())), Some("N-7".to_string()));
    assert_eq!(codigo_legado_tras_vincular(None, None), None);
}

#[test]
fn aplicar_una_decision_desconocida_la_nombra_en_el_error() {
    let mut f = fila("nuevo", Some("Pastilla"));
    f.decision = Some("archivar".to_string());
    assert_eq!(
        accion_de_fila(&f).err(),
        Some(AppError::Validation("Decisión inválida: \"archivar\".".to_string()))
    );
}
