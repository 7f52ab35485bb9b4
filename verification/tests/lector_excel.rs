use espinola::error::AppError;
use espinola::lector_excel::{
    detectar_estructura, es_columna_derivada, extraer_filas, intentar_detectar_columnas,
    parece_fila_de_datos, texto_celda, Celda, Hoja,
};
use espinola::modelos::{EstructuraDetectada, FilaCruda};

pub fn texto(s: &str) -> Celda {
    Celda {
        vacia: false,
        texto: Some(s.to_string()),
        centavos: None,
    }
}

pub fn numero(escrito: &str, centavos: i64) -> Celda {
    Celda {
        vacia: false,
        texto: Some(escrito.to_string()),
        centavos: Some(centavos),
    }
}

pub fn vacia() -> Celda {
    Celda {
        vacia: true,
        texto: None,
        centavos: None,
    }
}

/// La planilla de la lista de precios de prueba: una hoja vacía, una de
/// gráfico y la de datos, con títulos arriba y el encabezado en la fila 6.
pub fn libro_de_prueba() -> Vec<Hoja> {
    let vacia_hoja = Hoja {
        nombre: "Hoja1".to_string(),
        legible: true,
        inicio: None,
        filas: vec![],
    };
    let grafico = Hoja {
        nombre: "Gráfico1".to_string(),
        legible: false,
        inicio: None,
        filas: vec![],
    };
    let datos = Hoja {
        nombre: "Hoja3".to_string(),
        legible: true,
        inicio: Some(0),
        filas: vec![
            vec![texto("LISTA DE PRECIOS - REPUESTOS")],
            vec![texto("Vigencia: marzo")],
            vec![],
            vec![texto("Precios en pesos argentinos")],
            vec![vacia(), vacia()],
            vec![
                texto("codigo"),
                texto("mercaderia"),
                texto("precio lista"),
                texto("pp+50%"),
                texto("pp+100%"),
            ],
            vec![texto("EMBRAGUE")],
            vec![
                numero("54", 5_400),
                texto("disco 5 pieza embrague"),
                numero("1742", 174_200),
                numero("2613", 261_300),
                numero("3484", 348_400),
            ],
            vec![texto("b201"), texto("separador de disco"), numero("500", 50_000)],
            vec![vacia(), texto("con decimales"), numero("295.21", 29_521)],
            vec![texto("x9"), texto("precio roto"), texto("no es un precio")],
        ],
    };
    vec![vacia_hoja, grafico, datos]
}

fn leer(hojas: &Vec<Hoja>) -> Result<(EstructuraDetectada, Vec<FilaCruda>), AppError> {
    let (estructura, hoja, _) = detectar_estructura(hojas)?;
    let filas = extraer_filas(&hojas[hoja], &estructura);
    Ok((estructura, filas))
}

#[test]
fn detecta_estructura_dinamica_y_lee_filas() {
    let (estructura, filas) = leer(&libro_de_prueba()).expect("leer archivo");

    assert_eq!(estructura.hoja, "Hoja3");
    assert_eq!(estructura.fila_encabezado, 6);
    assert_eq!(estructura.columnas.codigo.as_ref().unwrap().encabezado, "codigo");
    assert_eq!(estructura.columnas.nombre.encabezado, "mercaderia");
    assert_eq!(estructura.columnas.precio.encabezado, "precio lista");
    assert!(estructura.columnas.derivadas.len() >= 2);

    let primera = filas.iter().find(|f| f.codigo.as_deref() == Some("54")).unwrap();
    assert_eq!(primera.nombre.as_deref(), Some("disco 5 pieza embrague"));
    assert_eq!(primera.precio_centavos, Some(174_200));
    assert_eq!(primera.fila_excel, 8);
}

#[test]
fn ignora_hojas_de_grafico_y_hojas_vacias() {
    let (estructura, _filas) = leer(&libro_de_prueba()).expect("leer archivo");
    assert_eq!(estructura.hoja, "Hoja3");
}

#[test]
fn archivo_sin_columnas_reconocibles_falla_en_vez_de_asumir() {
    let hojas = vec![Hoja {
        nombre: "Hoja1".to_string(),
        legible: true,
        inicio: Some(0),
        filas: vec![
            vec![texto("fecha"), texto("cliente"), texto("importe")],
            vec![texto("1/3"), texto("Juan"), numero("10", 1_000)],
        ],
    }];
    let resultado = leer(&hojas);
    assert!(matches!(resultado, Err(AppError::Validation(_))));
}

#[test]
fn codigo_alfanumerico_y_precio_con_decimales_se_leen_bien() {
    let (_estructura, filas) = leer(&libro_de_prueba()).expect("leer archivo");
    let fila = filas.iter().find(|f| f.codigo.as_deref() == Some("b201")).unwrap();
    assert_eq!(fila.nombre.as_deref(), Some("separador de disco"));

    let con_decimales = filas
        .iter()
        .find(|f| f.nombre.as_deref() == Some("con decimales"))
        .unwrap();
    assert_eq!(con_decimales.precio_centavos, Some(29521));
}

#[test]
fn precio_con_texto_invalido_se_marca_sin_romper_la_lectura() {
    let (_estructura, filas) = leer(&libro_de_prueba()).expect("leer archivo");
    let fila = filas.iter().find(|f| f.nombre.as_deref() == Some("precio roto")).unwrap();
    assert_eq!(fila.precio_centavos, None);
    assert_eq!(fila.precio_texto_invalido.as_deref(), Some("no es un precio"));
}

#[test]
fn gana_el_encabezado_con_mas_filas_de_datos() {
    let chica = Hoja {
        nombre: "Chica".to_string(),
        legible: true,
        inicio: Some(2),
        filas: vec![
            vec![texto("producto"), texto("precio")],
            vec![texto("tuerca"), numero("1", 100)],
        ],
    };
    let grande = Hoja {
        nombre: "Grande".to_string(),
        legible: true,
        inicio: Some(0),
        filas: vec![
            vec![texto("descripcion"), texto("costo")],
            vec![texto("a"), numero("1", 100)],
            vec![texto("b"), numero("2", 200)],
        ],
    };
    let (estructura, hoja, fila) = detectar_estructura(&vec![chica.clone(), grande.clone()]).unwrap();
    assert_eq!(estructura.hoja, "Grande");
    assert_eq!(hoja, 1);
    assert_eq!(fila, 0);
    assert_eq!(estructura.fila_encabezado, 1);
    // Empatadas, gana la primera recorrida.
    let (empate, _, _) = detectar_estructura(&vec![chica.clone(), chica]).unwrap();
    assert_eq!(empate.hoja, "Chica");
    assert_eq!(empate.fila_encabezado, 3);
}

#[test]
fn columnas_se_eligen_por_prioridad() {
    let fila = vec![
        texto("detalle"),
        texto("Descripción"),
        texto("precio"),
        texto("Precio Base"),
        texto("codigo prov"),
        texto("CÓDIGO"),
    ];
    let columnas = intentar_detectar_columnas(&fila).expect("encabezado");
    assert_eq!(columnas.nombre.indice, 1);
    assert_eq!(columnas.precio.indice, 3);
    assert_eq!(columnas.codigo.as_ref().unwrap().indice, 4);
    assert!(columnas.derivadas.is_empty());
    assert!(intentar_detectar_columnas(&vec![texto("nombre")]).is_none());
    assert!(intentar_detectar_columnas(&vec![texto("precio")]).is_none());
}

#[test]
fn celdas_y_filas_de_datos() {
    assert_eq!(texto_celda(&texto("  hola ")), Some("hola".to_string()));
    assert_eq!(texto_celda(&texto("   ")), None);
    assert_eq!(texto_celda(&vacia()), None);
    assert!(es_columna_derivada("pp+50%"));
    assert!(es_columna_derivada("recargo %"));
    assert!(!es_columna_derivada("precio lista"));
    let columnas = intentar_detectar_columnas(&vec![texto("nombre"), texto("precio")]).unwrap();
    assert!(parece_fila_de_datos(&vec![vacia(), numero("3", 300)], &columnas));
    assert!(!parece_fila_de_datos(&vec![vacia(), vacia()], &columnas));
    assert!(!parece_fila_de_datos(&vec![], &columnas));
}

#[test]
fn encabezados_con_acentos_y_mayusculas_se_reconocen_tal_como_estan() {
    let mut hojas = libro_de_prueba();
    hojas[2].filas[5] = vec![texto("Código"), texto("Mercadería"), texto("Precio Lista")];
    let (estructura, _filas) = leer(&hojas).expect("leer archivo");
    assert_eq!(estructura.columnas.codigo.as_ref().unwrap().encabezado, "Código");
    assert_eq!(estructura.columnas.nombre.encabezado, "Mercadería");
    assert_eq!(estructura.columnas.precio.encabezado, "Precio Lista");
}
