use espinola::error::AppError;
use espinola::texto::{
    con_numero, contiene_texto, entero_a_texto, entero_con_ceros, esta_en_blanco, normalizar_codigo,
    normalizar_para_comparar, normalizar_texto, recortar,
};

#[test]
fn normalizaciones() {
    assert_eq!(normalizar_texto("  Descripción  Ñandú "), "descripcion  nandu");
    assert_eq!(normalizar_para_comparar("  Bujía   NGK\tC7HSA "), "bujia ngk c7hsa");
    assert_eq!(normalizar_codigo("  AbC-12 "), "abc-12");
    assert_eq!(normalizar_texto("ÁRBOL"), "arbol");
}

#[test]
fn recorte_y_busqueda() {
    assert_eq!(recortar("\u{a0} hola \n"), "hola");
    assert!(esta_en_blanco(" \t\u{3000}"));
    assert!(!esta_en_blanco(" x "));
    assert!(contiene_texto("precio lista", "lista"));
    assert!(contiene_texto("abc", ""));
    assert!(!contiene_texto("ab", "abc"));
}

#[test]
fn enteros_en_decimal() {
    assert_eq!(entero_a_texto(0), "0");
    assert_eq!(entero_a_texto(-1_234), "-1234");
    assert_eq!(entero_a_texto(i64::MIN), i64::MIN.to_string());
    assert_eq!(entero_con_ceros(7, 6), format!("{:06}", 7));
    assert_eq!(entero_con_ceros(-5, 6), format!("{:06}", -5));
    assert_eq!(entero_con_ceros(1_234_567, 6), "1234567");
}

#[test]
fn errores_de_negocio_y_del_sistema() {
    let v = AppError::Validation("m".to_string());
    assert_eq!(v.kind(), "validation");
    assert!(v.is_business_error());
    assert_eq!(v.mensaje(), "m");
    assert_eq!(AppError::NotFound("x".into()).kind(), "not_found");
    assert_eq!(AppError::Conflict("x".into()).kind(), "conflict");
    let u = AppError::Unexpected("falla".into());
    assert_eq!(u.kind(), "unexpected");
    assert!(!u.is_business_error());
}

#[test]
fn forma_de_un_nombre_normalizado() {
    let t = normalizar_para_comparar("\u{a0} Ñandú \t  Güemes  ÚNICO \n");
    assert_eq!(t, "nandu guemes unico");
    assert!(!t.starts_with(' ') && !t.ends_with(' '));
    assert!(!t.contains("  "));
    assert!(!t.chars().any(|c| "áéíóúüñ".contains(c)));
}

#[test]
fn mensaje_con_un_numero() {
    assert_eq!(con_numero("No existe el producto ", 42, "."), "No existe el producto 42.");
    assert_eq!(con_numero("", -7, ""), "-7");
}

#[test]
fn normalizar_dos_veces_da_lo_mismo() {
    for texto in ["  Bujía   NGK\tC7HSA ", "\u{a0}Ñandú  ÚNICO", "", "   ", "ya normal"] {
        let una = normalizar_para_comparar(texto);
        assert_eq!(normalizar_para_comparar(&una), una);
    }
}
