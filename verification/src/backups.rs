//! Copias de seguridad: dónde viven los archivos, qué se puede guardar
//! como configuración, cómo se llama cada copia, cuáles se borran al rotar
//! y cuándo se puede restaurar una. Las copias previas a una restauración
//! nunca entran en la rotación.
use vstd::prelude::*;

use crate::error::{validacion, AppError, TipoError};
use crate::modelos::Backup;
use crate::texto::{caracteres, cadena_de_caracteres, con_numero, concatenar, esta_en_blanco, mismo_texto, recortado, recorte, vista};

verus! {

/// Cuántas copias se conservan si el negocio no eligió otro número.
pub const RETENCION_POR_DEFECTO: i64 = 10;

/// Cada cuánto se saca una copia sola al abrir la app.
pub const HORAS_ENTRE_AUTOMATICOS: i64 = 24;

pub open spec fn es_digito(c: char) -> bool {
    '0' <= c && c <= '9'
}

pub open spec fn son_digitos(s: Seq<char>) -> bool {
    s.len() > 0 && forall|i: int| 0 <= i < s.len() ==> es_digito(#[trigger] s[i])
}

/// El valor de una tira de dígitos decimales.
pub open spec fn valor_digitos(s: Seq<char>) -> int
    decreases s.len(),
{
    if s.len() == 0 {
        0
    } else {
        valor_digitos(s.drop_last()) * 10 + ((s.last() as u32) as int - ('0' as u32) as int)
    }
}

/// Un entero escrito como lo lee `str::parse::<i64>`: un signo `+` o `-`
/// optativo y uno o más dígitos decimales, sin espacios.
pub open spec fn entero_escrito(s: Seq<char>) -> Option<int> {
    if s.len() > 0 && s[0] == '-' && son_digitos(s.drop_first()) {
        Some(-valor_digitos(s.drop_first()))
    } else if s.len() > 0 && s[0] == '+' && son_digitos(s.drop_first()) {
        Some(valor_digitos(s.drop_first()))
    } else if son_digitos(s) {
        Some(valor_digitos(s))
    } else {
        None
    }
}

/// La retención guardada como texto: el número, si es un entero de 64
/// bits bien escrito; si no (o si no se guardó nada), la de por defecto.
pub open spec fn retencion_de(valor: Option<Seq<char>>) -> int {
    match valor {
        Some(t) => match entero_escrito(t) {
            Some(n) => if i64::MIN <= n <= i64::MAX {
                n
            } else {
                RETENCION_POR_DEFECTO as int
            },
            None => RETENCION_POR_DEFECTO as int,
        },
        None => RETENCION_POR_DEFECTO as int,
    }
}

/// Lee los dígitos `v[desde..]`: `Some(valor)` si todos son dígitos, hay
/// al menos uno y el valor no pasa de `tope`; `None` si alguno no es un
/// dígito o no hay ninguno; `Some(tope + 1)` si el valor pasa de `tope`.
fn leer_digitos(v: &Vec<char>, desde: usize, tope: i128) -> (r: Option<i128>)
    requires
        desde <= v.len(),
        0 <= tope <= 9_223_372_036_854_775_808,
    ensures
        r is None <==> !son_digitos(v@.skip(desde as int)),
        r matches Some(x) ==> {
            &&& x >= 0
            &&& x <= tope ==> x == valor_digitos(v@.skip(desde as int))
            &&& x > tope ==> x == tope + 1 && valor_digitos(v@.skip(desde as int)) > tope
        },
{
    if desde == v.len() {
        return None;
    }
    let ghost d = v@.skip(desde as int);
    let mut acumulado: i128 = 0;
    let mut i: usize = desde;
    while i < v.len()
        invariant
            desde <= i <= v.len(),
            desde < v.len(),
            d == v@.skip(desde as int),
            0 <= tope <= 9_223_372_036_854_775_808,
            forall|k: int| 0 <= k < i - desde ==> es_digito(#[trigger] d[k]),
            0 <= acumulado <= tope + 1,
            acumulado <= tope ==> acumulado == valor_digitos(d.take(i - desde)),
            acumulado > tope ==> valor_digitos(d.take(i - desde)) > tope,
            valor_digitos(d.take(i - desde)) >= 0,
        decreases v.len() - i,
    {
        let c = v[i];
        let ghost k = i - desde;
        assert(d[k as int] == c);
        if !(c >= '0' && c <= '9') {
            assert(!es_digito(d[k as int]));
            return None;
        }
        let digito = (c as u32 - '0' as u32) as i128;
        proof {
            assert(d.take(k + 1).drop_last() =~= d.take(k as int));
            assert(d.take(k + 1).last() == c);
            assert(valor_digitos(d.take(k + 1)) == valor_digitos(d.take(k as int)) * 10 + digito);
        }
        if acumulado <= tope {
            let nuevo = acumulado * 10 + digito;
            acumulado = if nuevo > tope { tope + 1 } else { nuevo };
        }
        i = i + 1;
    }
    assert(d.take(d.len() as int) =~= d);
    assert(son_digitos(d));
    Some(acumulado)
}

/// La retención que se usa: la guardada (`None` si no hay), leída como
/// `str::parse::<i64>`, o la de por defecto si no es un entero válido.
pub fn retencion_guardada(valor: Option<&str>) -> (r: i64)
    ensures
        r == retencion_de(
            match valor {
                Some(t) => Some(t@),
                None => None,
            },
        ),
{
    let texto = match valor {
        None => {
            return RETENCION_POR_DEFECTO;
        },
        Some(t) => t,
    };
    let v = caracteres(texto);
    let ghost s = v@;
    assert(s == texto@);
    if v.len() > 0 && (v[0] == '-' || v[0] == '+') {
        assert(s.skip(1) =~= s.drop_first());
        let negativo = v[0] == '-';
        let tope: i128 = if negativo { 9_223_372_036_854_775_808 } else { 9_223_372_036_854_775_807 };
        match leer_digitos(&v, 1, tope) {
            None => RETENCION_POR_DEFECTO,
            Some(x) => {
                if x > tope {
                    RETENCION_POR_DEFECTO
                } else if negativo {
                    (-x) as i64
                } else {
                    x as i64
                }
            },
        }
    } else {
        assert(s.skip(0) =~= s);
        let tope: i128 = 9_223_372_036_854_775_807;
        match leer_digitos(&v, 0, tope) {
            None => RETENCION_POR_DEFECTO,
            Some(x) => {
                if x > tope {
                    RETENCION_POR_DEFECTO
                } else {
                    x as i64
                }
            },
        }
    }
}

/// Un nombre de archivo suelto: no vacío, sin separadores de carpeta ni
/// unidad.
pub open spec fn nombre_simple(n: Seq<char>) -> bool {
    &&& n.len() > 0
    &&& !n.contains('/')
    &&& !n.contains('\\')
    &&& !n.contains(':')
}

/// Una carpeta con prefijo literal de Windows (`\\?\`), que `Path::join`
/// normaliza al agregarle un nombre.
pub open spec fn es_literal_windows(d: Seq<char>) -> bool {
    d.len() >= 4 && d.take(4) == seq!['\\', '\\', '?', '\\']
}

/// `r` es la carpeta `d` con el nombre `n` agregado, con un separador en
/// el medio si hacía falta.
pub open spec fn ruta_unida(d: Seq<char>, n: Seq<char>, r: Seq<char>) -> bool {
    ||| r == d + n
    ||| r == d + seq!['/'] + n
    ||| r == d + seq!['\\'] + n
}

/// Lo que std documenta de agregar un nombre relativo `n` a la carpeta
/// `d`: sin carpeta queda el nombre solo; si la carpeta ya termina en `/`
/// se pega el nombre; si termina en un carácter común se agrega un
/// separador (`/` o `\`, el de la plataforma); en los demás casos (una
/// carpeta que termina en `\` o en `:`, que según la plataforma es o no un
/// separador o una unidad) va un separador o ninguno.
pub open spec fn ruta_con_nombre(d: Seq<char>, n: Seq<char>, r: Seq<char>) -> bool {
    &&& d.len() == 0 ==> r == n
    &&& d.len() > 0 && d.last() == '/' ==> r == d + n
    &&& d.len() > 0 && d.last() != '/' && d.last() != '\\' && d.last() != ':' ==> {
        ||| r == d + seq!['/'] + n
        ||| r == d + seq!['\\'] + n
    }
    &&& ruta_unida(d, n, r)
}

/// Llama a `std::path::Path::join` con una carpeta y un nombre de archivo
/// suelto y devuelve la ruta como texto. Lo que se afirma es lo que std
/// documenta para agregar un nombre relativo (`ruta_con_nombre`): cuál de
/// los dos separadores se agrega depende de la plataforma y no se dice;
/// con una carpeta de prefijo literal de Windows, std normaliza la
/// carpeta y tampoco se dice nada de ese caso.
#[verifier::external_body]
fn unir_ruta(carpeta: &str, nombre: &str) -> (r: String)
    requires
        nombre_simple(nombre@),
    ensures
        !es_literal_windows(carpeta@) ==> ruta_con_nombre(carpeta@, nombre@, r@),
{
    std::path::Path::new(carpeta).join(nombre).display().to_string()
}

/// La base de datos, dentro de los datos de la app.
pub fn db_path(app_data_dir: &str) -> (r: String)
    ensures
        !es_literal_windows(app_data_dir@) ==> ruta_con_nombre(app_data_dir@, "espinola.db"@, r@),
{
    proof {
        reveal_strlit("espinola.db");
    }
    unir_ruta(app_data_dir, "espinola.db")
}

/// Carpeta por defecto de las copias: adentro de los datos de la app. Se
/// usa mientras el negocio no elija una propia.
pub fn carpeta_por_defecto(app_data_dir: &str) -> (r: String)
    ensures
        !es_literal_windows(app_data_dir@) ==> ruta_con_nombre(app_data_dir@, "backups"@, r@),
{
    proof {
        reveal_strlit("backups");
    }
    unir_ruta(app_data_dir, "backups")
}

/// El marcador que deja una restauración preparada para el próximo
/// arranque.
pub fn marcador_path(app_data_dir: &str) -> (r: String)
    ensures
        !es_literal_windows(app_data_dir@) ==> ruta_con_nombre(
            app_data_dir@,
            "restauracion_pendiente.txt"@,
            r@,
        ),
{
    proof {
        reveal_strlit("restauracion_pendiente.txt");
    }
    unir_ruta(app_data_dir, "restauracion_pendiente.txt")
}

/// La carpeta que se usa de verdad: la elegida, o la por defecto si no
/// se eligió ninguna (en blanco).
pub fn carpeta_efectiva(carpeta: &str, app_data_dir: &str) -> (r: String)
    ensures
        recorte(carpeta@).len() > 0 ==> r@ == carpeta@,
        recorte(carpeta@).len() == 0 && !es_literal_windows(app_data_dir@) ==> ruta_con_nombre(
            app_data_dir@,
            "backups"@,
            r@,
        ),
{
    if esta_en_blanco(carpeta) {
        carpeta_por_defecto(app_data_dir)
    } else {
        carpeta.to_owned()
    }
}

pub open spec fn tipo_de_backup_valido(t: Seq<char>) -> bool {
    t == "manual"@ || t == "automatico"@ || t == "previo_restauracion"@
}

/// Solo hay copias manuales, automáticas y previas a una restauración.
pub fn validar_tipo(tipo: &str) -> (r: Result<(), AppError>)
    ensures
        r is Ok <==> tipo_de_backup_valido(tipo@),
        r matches Err(e) ==> e.tipo() == TipoError::Validacion,
{
    if mismo_texto(tipo, "manual") || mismo_texto(tipo, "automatico") || mismo_texto(
        tipo,
        "previo_restauracion",
    ) {
        Ok(())
    } else {
        Err(validacion("Tipo de backup inválido."))
    }
}

/// La configuración de copias que se puede guardar: al menos una copia,
/// y la carpeta (recortada) vacía o existente. `carpeta_existe` dice si la
/// carpeta recortada es un directorio. Devuelve la carpeta recortada.
pub fn validar_configuracion(carpeta: &str, retencion: i64, carpeta_existe: bool) -> (r: Result<
    String,
    AppError,
>)
    ensures
        r is Ok <==> retencion >= 1 && (recorte(carpeta@).len() == 0 || carpeta_existe),
        r matches Err(e) ==> e.tipo() == TipoError::Validacion,
        r matches Ok(c) ==> c@ == recorte(carpeta@),
{
    if retencion < 1 {
        return Err(validacion("Hay que conservar al menos 1 copia."));
    }
    let limpia = recortado(carpeta);
    if !esta_en_blanco(carpeta) && !carpeta_existe {
        return Err(validacion("Esa carpeta no existe o no se puede abrir."));
    }
    Ok(limpia)
}

/// El instante (segundos y nanosegundos desde 1970, en UTC) escrito con
/// un formato de `strftime` por `chrono`; `None` si chrono no representa
/// ese instante.
pub uninterp spec fn instante_con_formato(segundos: i64, nanos: u32, formato: Seq<char>) -> Option<
    Seq<char>,
>;

/// Los dos formatos de fecha que usan las copias.
pub open spec fn formato_de_copias(f: Seq<char>) -> bool {
    f == "%Y%m%d-%H%M%S"@ || f == "%Y-%m-%dT%H:%M:%S%.3fZ"@
}

/// Llama a `chrono::DateTime::from_timestamp` y escribe el instante con
/// `DateTime::format`: el texto queda nombrado por `instante_con_formato`.
/// Solo se usa con los formatos de las copias, que chrono sabe escribir
/// (con un formato inválido, pasar el resultado a texto entraría en
/// pánico).
#[verifier::external_body]
fn formatear_instante(segundos: i64, nanos: u32, formato: &str) -> (r: Option<String>)
    requires
        formato_de_copias(formato@),
    ensures
        vista(r) == instante_con_formato(segundos, nanos, formato@),
{
    chrono::DateTime::from_timestamp(segundos, nanos).map(|fecha| fecha.format(formato).to_string())
}

/// El nombre de archivo de una copia sacada en el instante dado:
/// `espinola-`, la fecha y hora (`AAAAMMDD-HHMMSS`, UTC), el tipo y `.db`.
/// `None` si el instante no es una fecha representable.
pub fn nombre_de_archivo(tipo: &str, segundos: i64, nanos: u32) -> (r: Option<String>)
    ensures
        match instante_con_formato(segundos, nanos, "%Y%m%d-%H%M%S"@) {
            Some(sello) => r matches Some(n) && n@ == "espinola-"@ + sello + "-"@ + tipo@ + ".db"@,
            None => r is None,
        },
{
    let sello = match formatear_instante(segundos, nanos, "%Y%m%d-%H%M%S") {
        Some(s) => s,
        None => {
            return None;
        },
    };
    let a = concatenar("espinola-", sello.as_str());
    let b = concatenar(a.as_str(), "-");
    let c = concatenar(b.as_str(), tipo);
    Some(concatenar(c.as_str(), ".db"))
}

/// La fecha que se anota en el manifiesto de una copia: ISO 8601 en UTC
/// con milisegundos. `None` si el instante no es una fecha representable.
pub fn fecha_del_manifiesto(segundos: i64, nanos: u32) -> (r: Option<String>)
    ensures
        vista(r) == instante_con_formato(segundos, nanos, "%Y-%m-%dT%H:%M:%S%.3fZ"@),
{
    formatear_instante(segundos, nanos, "%Y-%m-%dT%H:%M:%S%.3fZ")
}

/// Cada comilla simple, duplicada.
pub open spec fn comillas_escapadas(s: Seq<char>) -> Seq<char>
    decreases s.len(),
{
    if s.len() == 0 {
        seq![]
    } else {
        comillas_escapadas(s.drop_last()) + if s.last() == '\'' {
            seq!['\'', '\'']
        } else {
            seq![s.last()]
        }
    }
}

/// La ruta lista para ir entre comillas simples en una sentencia SQL: cada
/// comilla simple duplicada.
pub fn escapar_comillas(ruta: &str) -> (r: String)
    ensures
        r@ == comillas_escapadas(ruta@),
{
    let v = caracteres(ruta);
    let mut salida: Vec<char> = Vec::new();
    let mut i: usize = 0;
    while i < v.len()
        invariant
            v@ == ruta@,
            i <= v@.len(),
            salida@ == comillas_escapadas(v@.take(i as int)),
        decreases v@.len() - i,
    {
        proof {
            assert(v@.take(i + 1).drop_last() =~= v@.take(i as int));
        }
        let ghost antes = salida@;
        if v[i] == '\'' {
            salida.push('\'');
            salida.push('\'');
            proof {
                assert(salida@ =~= antes + seq!['\'', '\'']);
            }
        } else {
            salida.push(v[i]);
            proof {
                assert(salida@ =~= antes + seq![v@[i as int]]);
            }
        }
        i = i + 1;
    }
    proof {
        assert(v@.take(v@.len() as int) =~= v@);
    }
    cadena_de_caracteres(salida.as_slice())
}

/// El instante que denota un texto RFC 3339 (`DateTime::parse_from_rfc3339`
/// de chrono), en UTC: segundos desde 1970 y nanosegundos dentro del
/// segundo (de 10^9 en adelante en un segundo intercalar); `None` si el
/// texto no es una fecha RFC 3339.
pub uninterp spec fn instante_rfc3339(texto: Seq<char>) -> Option<(i64, u32)>;

/// Llama a `chrono::DateTime::parse_from_rfc3339` y devuelve el instante
/// en UTC (`timestamp` y `timestamp_subsec_nanos`), o `None` si el texto no
/// se puede leer: el resultado queda nombrado por `instante_rfc3339`.
#[verifier::external_body]
fn leer_instante_rfc3339(texto: &str) -> (r: Option<(i64, u32)>)
    ensures
        r == instante_rfc3339(texto@),
{
    match chrono::DateTime::parse_from_rfc3339(texto) {
        Ok(fecha) => Some((fecha.timestamp(), fecha.timestamp_subsec_nanos())),
        Err(_) => None,
    }
}

pub open spec fn segundo_del_dia(segundos: i64) -> int {
    segundos as int % 86_400
}

/// Nanosegundos de `desde` a `hasta` (instantes en UTC), contando como un
/// segundo real el intercalar en que cae cualquiera de los dos, como
/// `signed_duration_since` de chrono.
pub open spec fn nanos_entre(desde: (i64, u32), hasta: (i64, u32)) -> int {
    let ajuste: int = if segundo_del_dia(hasta.0) > segundo_del_dia(desde.0) && desde.1 >= 1_000_000_000 {
        1
    } else if segundo_del_dia(hasta.0) < segundo_del_dia(desde.0) && hasta.1 >= 1_000_000_000 {
        -1
    } else {
        0
    };
    (hasta.0 - desde.0 + ajuste) * 1_000_000_000 + hasta.1 - desde.1
}

pub const NANOS_POR_HORA: i128 = 3_600_000_000_000;

/// Horas enteras de un lapso, truncando hacia cero (`num_hours`).
pub open spec fn horas_enteras(nanos: int) -> int {
    if nanos >= 0 {
        nanos / (NANOS_POR_HORA as int)
    } else {
        -((-nanos) / (NANOS_POR_HORA as int))
    }
}

/// Hace falta una copia automática si nunca se hizo ninguna, si la fecha
/// de la última está vacía o no se puede leer como RFC 3339, o si desde
/// ella hasta `ahora` pasaron al menos 24 horas enteras.
pub open spec fn automatico_pendiente(ultima: Option<Seq<char>>, ahora: (i64, u32)) -> bool {
    match ultima {
        None => true,
        Some(t) => t.len() == 0 || pendiente_desde(instante_rfc3339(t), ahora),
    }
}

/// Con el instante leído de la última copia (`None` si no se pudo leer):
/// hace falta otra si no se leyó o si pasaron al menos 24 horas enteras.
pub open spec fn pendiente_desde(instante: Option<(i64, u32)>, ahora: (i64, u32)) -> bool {
    match instante {
        None => true,
        Some(u) => horas_enteras(nanos_entre(u, ahora)) >= HORAS_ENTRE_AUTOMATICOS,
    }
}

proof fn lema_horas_enteras(nanos: int)
    ensures
        horas_enteras(nanos) >= HORAS_ENTRE_AUTOMATICOS <==> nanos >= HORAS_ENTRE_AUTOMATICOS
            * NANOS_POR_HORA,
{
    let h = NANOS_POR_HORA as int;
    if nanos >= 0 {
        assert(nanos / h >= 24 <==> nanos >= 24 * h) by (nonlinear_arith)
            requires
                nanos >= 0,
                h == 3_600_000_000_000,
        ;
    } else {
        assert((-nanos) / h >= 0) by (nonlinear_arith)
            requires
                -nanos > 0,
                h == 3_600_000_000_000,
        ;
    }
}

/// Decide si hace falta la copia automática con la fecha de la última
/// copia (`None` si no hay ninguna) y el instante actual en UTC.
pub fn necesita_automatico(ultima: Option<&str>, ahora_segundos: i64, ahora_nanos: u32) -> (r: bool)
    ensures
        r == automatico_pendiente(
            match ultima {
                Some(t) => Some(t@),
                None => None,
            },
            (ahora_segundos, ahora_nanos),
        ),
{
    let texto = match ultima {
        None => {
            return true;
        },
        Some(t) => t,
    };
    if texto.unicode_len() == 0 {
        return true;
    }
    pendiente_tras_la_ultima(leer_instante_rfc3339(texto), ahora_segundos, ahora_nanos)
}

/// La decisión una vez leída la fecha de la última copia: `instante` es
/// lo que dio la lectura (`None` si no era una fecha RFC 3339).
pub fn pendiente_tras_la_ultima(instante: Option<(i64, u32)>, ahora_segundos: i64, ahora_nanos: u32) -> (r:
    bool)
    ensures
        r == pendiente_desde(instante, (ahora_segundos, ahora_nanos)),
{
    let (segundos, nanos) = match instante {
        None => {
            return true;
        },
        Some(i) => i,
    };
    let dia_ahora = match ahora_segundos.checked_rem_euclid(86_400) {
        Some(x) => x,
        None => 0,
    };
    let dia_ultima = match segundos.checked_rem_euclid(86_400) {
        Some(x) => x,
        None => 0,
    };
    let ajuste: i128 = if dia_ahora > dia_ultima && nanos >= 1_000_000_000 {
        1
    } else if dia_ahora < dia_ultima && ahora_nanos >= 1_000_000_000 {
        -1
    } else {
        0
    };
    let lapso: i128 = (ahora_segundos as i128 - segundos as i128 + ajuste) * 1_000_000_000
        + ahora_nanos as i128 - nanos as i128;
    proof {
        lema_horas_enteras(lapso as int);
        assert(lapso == nanos_entre((segundos, nanos), (ahora_segundos, ahora_nanos)));
    }
    lapso >= (HORAS_ENTRE_AUTOMATICOS as i128) * NANOS_POR_HORA
}

/// Cuándo no se puede restaurar una copia: su archivo ya no está, o es
/// de una versión del esquema más nueva que la de la app.
pub open spec fn error_restauracion(archivo_existe: bool, version_backup: i64, version_actual: i64) -> bool {
    !archivo_existe || version_backup > version_actual
}

/// Revisa si una copia se puede restaurar antes de tocar nada.
pub fn revisar_restauracion(archivo_existe: bool, version_backup: i64, version_actual: i64) -> (r:
    Result<(), AppError>)
    ensures
        r is Err <==> error_restauracion(archivo_existe, version_backup, version_actual),
        r matches Err(e) ==> e.tipo() == TipoError::Validacion,
{
    if !archivo_existe {
        return Err(
            validacion(
                "El archivo de ese backup ya no está en su carpeta: no se puede restaurar.",
            ),
        );
    }
    if version_backup > version_actual {
        let a = con_numero(
            "Ese backup es de una versión más nueva del sistema (esquema ",
            version_backup,
            " contra ",
        );
        let mensaje = con_numero(
            a.as_str(),
            version_actual,
            "). Actualizá la aplicación antes de restaurarlo.",
        );
        return Err(AppError::Validation(mensaje));
    }
    Ok(())
}

/// Un archivo sirve para restaurar si SQLite lo da por íntegro (`ok`) y
/// tiene la tabla de ventas.
pub fn revisar_integridad(resultado: &str, tablas_de_ventas: i64) -> (r: Result<(), AppError>)
    ensures
        r is Ok <==> resultado@ == "ok"@ && tablas_de_ventas != 0,
        r matches Err(e) ==> e.tipo() == TipoError::Validacion,
{
    if !mismo_texto(resultado, "ok") {
        return Err(validacion("Ese backup está dañado: SQLite no lo da por íntegro."));
    }
    if tablas_de_ventas == 0 {
        return Err(validacion("Ese archivo no parece una base de este sistema."));
    }
    Ok(())
}

/// La ruta anotada en el marcador, sin espacios en los extremos.
pub fn origen_del_marcador(contenido: &str) -> (r: String)
    ensures
        r@ == recorte(contenido@),
{
    recortado(contenido)
}

/// Entra en la rotación: todo menos las copias previas a una restauración.
pub open spec fn rotable(b: Backup) -> bool {
    b.tipo@ != "previo_restauracion"@
}

/// Cuántas copias rotables hay entre las primeras `i`.
pub open spec fn rotables(bs: Seq<Backup>) -> int
    decreases bs.len(),
{
    if bs.len() == 0 {
        0
    } else {
        rotables(bs.drop_last()) + if rotable(bs.last()) {
            1int
        } else {
            0int
        }
    }
}

/// Las copias que se borran, de la más nueva a la más vieja (`bs` viene
/// ordenada así): cada rotable que tiene delante `retencion` rotables o
/// más. Se anotan por id y archivo.
pub open spec fn sobrantes(bs: Seq<Backup>, retencion: int) -> Seq<(i64, Seq<char>)>
    decreases bs.len(),
{
    if bs.len() == 0 {
        seq![]
    } else {
        let previas = sobrantes(bs.drop_last(), retencion);
        let b = bs.last();
        if rotable(b) && rotables(bs.drop_last()) >= retencion {
            previas.push((b.id, b.archivo_path@))
        } else {
            previas
        }
    }
}

proof fn lema_rotables_rango(bs: Seq<Backup>)
    ensures
        0 <= rotables(bs) <= bs.len(),
    decreases bs.len(),
{
    if bs.len() > 0 {
        lema_rotables_rango(bs.drop_last());
    }
}

/// Las copias a borrar al rotar: de la lista ordenada de la más nueva a la
/// más vieja, las rotables que exceden la retención.
pub fn a_rotar(backups: &Vec<Backup>, retencion: i64) -> (r: Vec<(i64, String)>)
    ensures
        r@.map_values(|p: (i64, String)| (p.0, p.1@)) == sobrantes(backups@, retencion as int),
{
    let mut r: Vec<(i64, String)> = Vec::new();
    let mut vistas: usize = 0;
    let mut i: usize = 0;
    while i < backups.len()
        invariant
            i <= backups@.len(),
            vistas == rotables(backups@.take(i as int)),
            r@.map_values(|p: (i64, String)| (p.0, p.1@)) == sobrantes(
                backups@.take(i as int),
                retencion as int,
            ),
        decreases backups@.len() - i,
    {
        proof {
            assert(backups@.take(i + 1).drop_last() =~= backups@.take(i as int));
            lema_rotables_rango(backups@.take(i as int));
        }
        let b = &backups[i];
        if !mismo_texto(b.tipo.as_str(), "previo_restauracion") {
            if (vistas as i128) >= (retencion as i128) {
                let ghost antes = r@;
                r.push((b.id, b.archivo_path.clone()));
                proof {
                    assert(r@.map_values(|p: (i64, String)| (p.0, p.1@)) =~= antes.map_values(
                        |p: (i64, String)| (p.0, p.1@),
                    ).push((b.id, b.archivo_path@)));
                }
            }
            vistas = vistas + 1;
        }
        i = i + 1;
    }
    proof {
        assert(backups@.take(backups@.len() as int) =~= backups@);
    }
    r
}

/// La copia con ese id está en la lista, es rotable y tiene delante al
/// menos `retencion` copias rotables más nuevas.
pub open spec fn borrable(bs: Seq<Backup>, retencion: int, id: i64) -> bool {
    exists|i: int|
        0 <= i < bs.len() && rotable(#[trigger] bs[i]) && bs[i].id == id && rotables(bs.take(i))
            >= retencion
}

/// La rotación conserva siempre las copias previas a una restauración y,
/// de las demás, exactamente las `retencion` más nuevas (o todas, si hay
/// menos): se borran tantas como sobran por encima de la retención.
pub proof fn ley_rotacion_conserva_las_mas_nuevas(bs: Seq<Backup>, retencion: int)
    requires
        retencion >= 0,
    ensures
        sobrantes(bs, retencion).len() == if rotables(bs) > retencion {
            rotables(bs) - retencion
        } else {
            0
        },
        forall|k: int|
            0 <= k < sobrantes(bs, retencion).len() ==> #[trigger] borrable(
                bs,
                retencion,
                sobrantes(bs, retencion)[k].0,
            ),
    decreases bs.len(),
{
    if bs.len() > 0 {
        let resto = bs.drop_last();
        ley_rotacion_conserva_las_mas_nuevas(resto, retencion);
        assert(bs.take(bs.len() - 1) =~= resto);
        let s = sobrantes(bs, retencion);
        let sr = sobrantes(resto, retencion);
        assert forall|k: int| 0 <= k < s.len() implies #[trigger] borrable(bs, retencion, s[k].0) by {
            if k < sr.len() {
                assert(s[k] == sr[k]);
                assert(borrable(resto, retencion, sr[k].0));
                let i = choose|i: int|
                    0 <= i < resto.len() && rotable(#[trigger] resto[i]) && resto[i].id == sr[k].0
                        && rotables(resto.take(i)) >= retencion;
                assert(resto.take(i) =~= bs.take(i));
                assert(bs[i] == resto[i]);
            } else {
                let i = bs.len() - 1;
                assert(bs[i] == bs.last());
            }
        }
    }
}

} // verus!
