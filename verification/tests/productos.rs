use espinola::error::AppError;
use espinola::modelos::{CodigoFabricante, GuardarProducto, Producto, ProductoDetalle};
use espinola::productos::{
    cambios_de_precio, codigo_interno, codigos_a_guardar, con_nuevo_costo, construir_consulta_fts,
    fila_de_busqueda, precios_iniciales, validar,
};

fn producto_minimo(nombre: &str) -> GuardarProducto {
    GuardarProducto {
        nombre: nombre.to_string(),
        marca_id: None,
        categoria_id: None,
        descripcion: None,
        observaciones: None,
        costo_actual: None,
        precio_venta_actual: None,
        precio_publico_referencia: None,
        estado: "activo".to_string(),
        codigos_fabricante: vec![],
    }
}

fn guardado(costo: Option<i64>, venta: Option<i64>, publico: Option<i64>) -> Producto {
    Producto {
        id: 3,
        codigo_interno: "P-000003".to_string(),
        nombre: "Filtro de aceite".to_string(),
        marca_id: Some(2),
        marca_nombre: Some("NGK".to_string()),
        categoria_id: None,
        categoria_nombre: None,
        descripcion: Some("para motos".to_string()),
        observaciones: None,
        costo_actual: costo,
        precio_venta_actual: venta,
        precio_publico_referencia: publico,
        precio_actualizado_en: None,
        estado: "inactivo".to_string(),
        stock_actual: 4,
        codigos_fabricante_resumen: None,
    }
}

#[test]
fn crear_genera_codigo_interno_y_registra_precio_inicial() {
    assert_eq!(codigo_interno(42), format!("P-{:06}", 42));
    assert_eq!(codigo_interno(1_234_567), "P-1234567");
    let mut datos = producto_minimo("Bujía NGK C7HSA");
    datos.costo_actual = Some(500_000);
    datos.precio_venta_actual = Some(800_000);
    let precios = precios_iniciales(&datos);
    assert_eq!(precios, vec![("costo", 500_000), ("venta", 800_000)]);
    assert!(precios_iniciales(&producto_minimo("x")).is_empty());
}

#[test]
fn actualizar_solo_registra_precio_si_realmente_cambio() {
    let anterior = guardado(None, Some(300_000), None);
    let mut sin_cambios = producto_minimo("Filtro de aceite");
    sin_cambios.precio_venta_actual = Some(300_000);
    let (historial, cambia) = cambios_de_precio(&anterior, &sin_cambios);
    assert!(historial.is_empty());
    assert!(!cambia);

    let mut con_cambio = producto_minimo("Filtro de aceite");
    con_cambio.precio_venta_actual = Some(350_000);
    let (historial, cambia) = cambios_de_precio(&anterior, &con_cambio);
    assert_eq!(historial, vec![("venta", 350_000)]);
    assert!(cambia);

    // Borrar un precio cambia la fecha pero no deja historial.
    let borrado = producto_minimo("Filtro de aceite");
    let (historial, cambia) = cambios_de_precio(&anterior, &borrado);
    assert!(historial.is_empty());
    assert!(cambia);
}

#[test]
fn validar_nombre_y_estado() {
    assert!(validar(&producto_minimo("Casco")).is_ok());
    assert!(matches!(validar(&producto_minimo("   ")), Err(AppError::Validation(_))));
    let mut fusionado = producto_minimo("Casco");
    fusionado.estado = "fusionado".to_string();
    match validar(&fusionado) {
        Err(AppError::Validation(m)) => assert_eq!(m, "Estado inválido: fusionado"),
        otro => panic!("se esperaba un error de validación: {otro:?}"),
    }
    let mut inactivo = producto_minimo("Casco");
    inactivo.estado = "inactivo".to_string();
    assert!(validar(&inactivo).is_ok());
}

#[test]
fn buscar_tolera_mayusculas_acentos_y_orden_de_palabras() {
    assert_eq!(construir_consulta_fts("c7hsa bujia").as_deref(), Some("\"c7hsa\"* \"bujia\"*"));
    assert_eq!(construir_consulta_fts("  ngk  ").as_deref(), Some("\"ngk\"*"));
    assert_eq!(
        construir_consulta_fts("90/90-18 \"pirelli\"\tmt60").as_deref(),
        Some("\"90/90-18\"* \"pirelli\"* \"mt60\"*")
    );
    assert_eq!(construir_consulta_fts(""), None);
    assert_eq!(construir_consulta_fts("   \" \"\" "), None);
}

#[test]
fn codigos_de_fabricante_se_guardan_recortados_y_sin_vacios() {
    let codigos = vec![
        CodigoFabricante {
            codigo: " C7HSA ".to_string(),
            fabricante_nombre: Some("NGK".to_string()),
            observacion: None,
        },
        CodigoFabricante {
            codigo: "   ".to_string(),
            fabricante_nombre: None,
            observacion: Some("vacío".to_string()),
        },
        CodigoFabricante {
            codigo: "00034420".to_string(),
            fabricante_nombre: None,
            observacion: Some("equivalente".to_string()),
        },
    ];
    let guardar = codigos_a_guardar(&codigos);
    assert_eq!(guardar.len(), 2);
    assert_eq!(guardar[0].codigo, "C7HSA");
    assert_eq!(guardar[0].fabricante_nombre.as_deref(), Some("NGK"));
    assert_eq!(guardar[1].codigo, "00034420");
    assert_eq!(guardar[1].observacion.as_deref(), Some("equivalente"));
}

#[test]
fn actualizar_costo_no_toca_lo_demas() {
    let actual = ProductoDetalle {
        producto: guardado(Some(100), Some(200), None),
        codigos_fabricante: vec![CodigoFabricante {
            codigo: "X1".to_string(),
            fabricante_nombre: None,
            observacion: None,
        }],
    };
    let datos = con_nuevo_costo(&actual, 150);
    assert_eq!(datos.costo_actual, Some(150));
    assert_eq!(datos.nombre, "Filtro de aceite");
    assert_eq!(datos.marca_id, Some(2));
    assert_eq!(datos.descripcion.as_deref(), Some("para motos"));
    assert_eq!(datos.precio_venta_actual, Some(200));
    assert_eq!(datos.estado, "inactivo");
    assert_eq!(datos.codigos_fabricante, actual.codigos_fabricante);
}

#[test]
fn fila_de_busqueda_une_codigos_y_deja_vacio_lo_que_falta() {
    let fila = fila_de_busqueda(
        "Bujía NGK C7HSA".to_string(),
        "P-000001".to_string(),
        Some("NGK".to_string()),
        None,
        &vec!["C7HSA".to_string(), "00034420".to_string()],
    );
    assert_eq!(fila.marca, "NGK");
    assert_eq!(fila.categoria, "");
    assert_eq!(fila.codigos_fabricante, "C7HSA 00034420");
    assert_eq!(fila_de_busqueda("a".into(), "b".into(), None, None, &vec![]).codigos_fabricante, "");
}

#[test]
fn codigos_internos_distintos_para_ids_distintos() {
    assert_ne!(codigo_interno(5), codigo_interno(50));
    assert_ne!(codigo_interno(0), codigo_interno(1_000_000));
    assert_eq!(codigo_interno(0), "P-000000");
}
