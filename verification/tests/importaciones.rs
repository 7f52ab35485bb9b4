use espinola::error::AppError;
use espinola::importaciones::{
    clasificar, clasificar_todas, marcar_duplicados_internos, preparar_filas, procesar_archivo, resumen,
    Clasificacion,
};
use espinola::lector_excel::{Celda, Hoja};
use espinola::modelos::{FilaCruda, ImportacionFila};

fn texto(s: &str) -> Celda {
    Celda {
        vacia: false,
        texto: Some(s.to_string()),
        centavos: None,
    }
}

fn numero(escrito: &str, centavos: i64) -> Celda {
    Celda {
        vacia: false,
        texto: Some(escrito.to_string()),
        centavos: Some(centavos),
    }
}

fn libro() -> Vec<Hoja> {
    vec![Hoja {
        nombre: "Lista".to_string(),
        legible: true,
        inicio: Some(0),
        filas: vec![
            vec![texto("codigo"), texto("mercaderia"), texto("precio lista")],
            vec![Celda { vacia: true, texto: None, centavos: None }, texto("EMBRAGUE")],
            vec![numero("54", 5_400), texto("disco embrague"), numero("1742", 174_200)],
            vec![texto("b201"), texto("separador"), numero("500", 50_000)],
            vec![Celda { vacia: true, texto: None, centavos: None }, texto("con decimales"), numero("295.21", 29_521)],
            vec![texto("x9"), texto("precio roto"), texto("no es un precio")],
            vec![texto("z1"), Celda { vacia: true, texto: None, centavos: None }, numero("10", 1_000)],
        ],
    }]
}

fn cruda(codigo: Option<&str>, nombre: Option<&str>, precio: Option<i64>, invalido: Option<&str>) -> FilaCruda {
    FilaCruda {
        fila_excel: 2,
        codigo: codigo.map(|s| s.to_string()),
        nombre: nombre.map(|s| s.to_string()),
        precio_centavos: precio,
        precio_texto_invalido: invalido.map(|s| s.to_string()),
    }
}

#[test]
fn procesa_archivo_y_clasifica_todo_correctamente() {
    let borrador = procesar_archivo(b"abc", &libro(), &vec![]).expect("procesar");
    assert_eq!(borrador.estructura.hoja, "Lista");
    assert_eq!(borrador.estructura.fila_encabezado, 1);
    assert_eq!(borrador.indice_hoja, 0);
    assert_eq!(borrador.filas.len(), 6);
    let clases: Vec<Clasificacion> = borrador.filas.iter().map(|p| p.fila.clasificacion).collect();
    assert_eq!(
        clases,
        vec![
            Clasificacion::Seccion,
            Clasificacion::ProductoValido,
            Clasificacion::ProductoValido,
            Clasificacion::ProductoValido,
            Clasificacion::Error,
            Clasificacion::RequiereRevision,
        ]
    );
    // La categoría se arrastra desde el último título, solo en las válidas.
    assert_eq!(borrador.filas[1].fila.categoria_excel_texto.as_deref(), Some("EMBRAGUE"));
    assert_eq!(borrador.filas[0].fila.categoria_excel_texto, None);
    assert_eq!(
        borrador.filas[4].fila.motivo_error.as_deref(),
        Some("El precio no es un número válido: \"no es un precio\".")
    );
    assert_eq!(borrador.filas[1].fila.cruda.fila_excel, 3);
    // Filas limpias arrancan decididas; secciones y errores no.
    assert!(borrador.filas[1].decision_automatica);
    assert!(!borrador.filas[0].decision_automatica);
    assert!(!borrador.filas[4].decision_automatica);
    assert!(!borrador.filas[5].decision_automatica);
}

#[test]
fn detecta_coincidencia_con_producto_existente_por_codigo_legado() {
    let existentes = vec![(10, Some(" B201 ".to_string())), (11, None), (12, Some("otro".to_string()))];
    let borrador = procesar_archivo(b"abc", &libro(), &existentes).expect("procesar");
    let fila = borrador
        .filas
        .iter()
        .find(|p| p.fila.cruda.codigo.as_deref() == Some("b201"))
        .unwrap();
    assert_eq!(fila.coincide_producto_existente_id, Some(10));
    assert!(!fila.decision_automatica);
    // Nunca se sugiere para filas que no son válidas.
    let error = borrador.filas.iter().find(|p| p.fila.clasificacion == Clasificacion::Error).unwrap();
    assert_eq!(error.coincide_producto_existente_id, None);
}

#[test]
fn reimportar_el_mismo_archivo_se_puede_detectar_por_hash() {
    let a = procesar_archivo(b"abc", &libro(), &vec![]).unwrap();
    let b = procesar_archivo(b"abc", &libro(), &vec![]).unwrap();
    let c = procesar_archivo(b"abd", &libro(), &vec![]).unwrap();
    assert_eq!(a.archivo_hash, "ba7816bf8f01cfea414140de5dae2223b00361a396177a9cb410ff61f20015ad");
    assert_eq!(a.archivo_hash, b.archivo_hash);
    assert_ne!(a.archivo_hash, c.archivo_hash);
}

#[test]
fn archivo_sin_estructura_reconocible_falla() {
    let hojas = vec![Hoja {
        nombre: "Hoja1".to_string(),
        legible: true,
        inicio: Some(0),
        filas: vec![vec![texto("fecha"), texto("importe")], vec![texto("1/3"), numero("10", 1_000)]],
    }];
    assert!(matches!(procesar_archivo(b"x", &hojas, &vec![]), Err(AppError::Validation(_))));
}

#[test]
fn encabezado_sin_filas_debajo_falla() {
    let r = preparar_filas(vec![], &vec![]);
    assert!(matches!(r, Err(AppError::Validation(_))));
}

#[test]
fn clasificacion_de_cada_tipo_de_fila() {
    assert_eq!(clasificar(&cruda(None, None, None, None)).0, Clasificacion::Ignorada);
    assert_eq!(clasificar(&cruda(Some("1"), Some("a"), None, Some("s/p"))).0, Clasificacion::Error);
    assert_eq!(
        clasificar(&cruda(Some("1"), Some("a"), None, Some("s/p"))).1.as_deref(),
        Some("El precio no es un número válido: \"s/p\".")
    );
    assert_eq!(clasificar(&cruda(None, Some("FRENOS"), None, None)).0, Clasificacion::Seccion);
    assert_eq!(clasificar(&cruda(Some("1"), None, Some(5), None)).0, Clasificacion::RequiereRevision);
    assert_eq!(clasificar(&cruda(Some("1"), Some("a"), None, None)).0, Clasificacion::ProductoValido);
    assert_eq!(clasificar(&cruda(None, Some("a"), Some(5), None)).0, Clasificacion::ProductoValido);
    assert_eq!(Clasificacion::RequiereRevision.como_texto(), "requiere_revision");
    assert_eq!(Clasificacion::ProductoValido.como_texto(), "producto_valido");
}

#[test]
fn duplicados_internos_se_marcan_en_todas_las_copias() {
    let mut filas = clasificar_todas(vec![
        cruda(Some("A1"), Some("Bujía  NGK"), Some(100), None),
        cruda(Some(" a1"), Some("otra cosa"), Some(100), None),
        cruda(Some("B2"), Some("bujia ngk"), Some(100), None),
        cruda(Some("C3"), Some("sin par"), Some(100), None),
        cruda(None, Some("BUJIAS"), None, None),
    ]);
    marcar_duplicados_internos(&mut filas);
    assert!(filas[0].es_duplicado_codigo);
    assert!(filas[1].es_duplicado_codigo);
    assert!(!filas[2].es_duplicado_codigo);
    assert!(filas[0].es_posible_duplicado_nombre);
    assert!(filas[2].es_posible_duplicado_nombre);
    assert!(!filas[1].es_posible_duplicado_nombre);
    assert!(!filas[3].es_duplicado_codigo && !filas[3].es_posible_duplicado_nombre);
    // Nada se fusiona ni se descarta: siguen estando las cinco.
    assert_eq!(filas.len(), 5);
}

fn fila(clasificacion: &str, codigo: Option<&str>, resuelta: bool) -> ImportacionFila {
    ImportacionFila {
        id: 1,
        importacion_id: 1,
        fila_excel: 2,
        codigo_excel: codigo.map(|s| s.to_string()),
        nombre_excel: Some("x".to_string()),
        precio_lista_centavos: Some(100),
        categoria_excel_texto: None,
        precios_calculados_json: None,
        clasificacion: clasificacion.to_string(),
        motivo_error: None,
        es_duplicado_codigo: false,
        es_posible_duplicado_nombre: true,
        coincide_producto_existente_id: None,
        decision: None,
        producto_vinculado_id: None,
        actualizar_costo_en_vinculo: false,
        producto_id: None,
        resuelta_en: if resuelta { Some("2024-01-01T00:00:00Z".to_string()) } else { None },
    }
}

#[test]
fn resumen_cuenta_cada_clase_y_las_pendientes() {
    let filas = vec![
        fila("producto_valido", Some("1"), false),
        fila("producto_valido", None, true),
        fila("requiere_revision", Some("2"), false),
        fila("seccion", None, false),
        fila("ignorada", None, false),
        fila("error", Some("3"), false),
    ];
    let r = resumen(&filas);
    assert_eq!(r.total, 6);
    assert_eq!(r.validos, 2);
    assert_eq!(r.sin_codigo, 1);
    assert_eq!(r.sin_nombre, 1);
    assert_eq!(r.secciones, 1);
    assert_eq!(r.ignoradas, 1);
    assert_eq!(r.errores, 1);
    assert_eq!(r.pendientes, 2);
    assert_eq!(r.resueltas, 1);
    assert_eq!(r.duplicados_codigo, 0);
    assert_eq!(r.duplicados_nombre, 6);
    assert_eq!(r.coincide_existente, 0);
    // Ley de partición: cada fila cae en exactamente una clase.
    assert_eq!(r.validos + r.sin_nombre + r.secciones + r.ignoradas + r.errores, r.total);
    let vacio = resumen(&vec![]);
    assert_eq!(vacio.total, 0);
    assert_eq!(vacio.pendientes, 0);
}
