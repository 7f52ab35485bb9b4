//! Los datos del negocio: filas tal como se leen de la base y datos de
//! entrada de cada operación. Dinero siempre en centavos (`i64`).
use vstd::prelude::*;

verus! {

/// La fila `clientes.id = 1`: reservada, no editable y sin cuenta corriente.
pub const ID_CONSUMIDOR_FINAL: i64 = 1;

// ---------------------------------------------------------------- backups

#[derive(Debug, Clone, PartialEq, Eq)]
pub struct Backup {
    pub id: i64,
    pub archivo_path: String,
    pub fecha: String,
    pub tamano_bytes: i64,
    pub tipo: String,
    pub version_esquema: i64,
    /// Si el archivo de la copia sigue en su carpeta.
    pub archivo_existe: bool,
}

/// Lo que acompaña a cada copia en su `.json`.
#[derive(Debug, Clone, PartialEq, Eq)]
pub struct ManifiestoBackup {
    pub archivo: String,
    pub fecha: String,
    pub tipo: String,
    pub version_esquema: i64,
    pub version_app: String,
}

#[derive(Debug, Clone, PartialEq, Eq)]
pub struct ConfiguracionBackups {
    /// Carpeta elegida; vacía = la carpeta por defecto.
    pub carpeta: String,
    /// Cuántas copias se conservan antes de rotar.
    pub retencion: i64,
    /// La carpeta que se usa efectivamente.
    pub carpeta_efectiva: String,
}

#[derive(Debug, Clone, PartialEq, Eq)]
pub struct RestauracionPreparada {
    pub backup_restaurado: String,
    pub copia_de_seguridad: String,
}

// ------------------------------------------------------------------- caja

#[derive(Debug, Clone, PartialEq, Eq)]
pub struct MontoPorMetodo {
    pub metodo_pago_id: i64,
    pub metodo_pago_nombre: String,
    /// Centavos.
    pub monto: i64,
}

/// Resumen de caja de un día: se calcula de los pagos, no se guarda.
#[derive(Debug, Clone, PartialEq, Eq)]
pub struct ResumenCaja {
    pub fecha: String,
    pub por_metodo: Vec<MontoPorMetodo>,
    /// Centavos: lo cobrado, sin la cuenta corriente.
    pub total_cobrado: i64,
    /// Centavos: lo que quedó fiado.
    pub total_fiado: i64,
    pub cantidad_ventas: i64,
}

// ------------------------------------------------------------- categorías

#[derive(Debug, Clone, PartialEq, Eq)]
pub struct Categoria {
    pub id: i64,
    pub nombre: String,
    pub categoria_padre_id: Option<i64>,
    pub categoria_padre_nombre: Option<String>,
}

#[derive(Debug, Clone, PartialEq, Eq)]
pub struct NuevaCategoria {
    pub nombre: String,
    pub categoria_padre_id: Option<i64>,
}

// --------------------------------------------------------------- clientes

#[derive(Debug, Clone, PartialEq, Eq)]
pub struct Cliente {
    pub id: i64,
    pub nombre: String,
    pub telefono: Option<String>,
    pub dni_cuit: Option<String>,
    pub direccion: Option<String>,
    pub observaciones: Option<String>,
    /// Centavos. Positivo = el cliente debe; negativo = tiene a favor.
    pub saldo_cuenta_corriente: i64,
}

#[derive(Debug, Clone, PartialEq, Eq)]
pub struct GuardarCliente {
    pub nombre: String,
    pub telefono: Option<String>,
    pub dni_cuit: Option<String>,
    pub direccion: Option<String>,
    pub observaciones: Option<String>,
}

#[derive(Debug, Clone, PartialEq, Eq)]
pub struct ClienteConDeuda {
    pub id: i64,
    pub nombre: String,
    pub telefono: Option<String>,
    pub saldo_cuenta_corriente: i64,
    pub fecha_ultimo_movimiento: Option<String>,
}

// ---------------------------------------------------------------- compras

#[derive(Debug, Clone, PartialEq, Eq)]
pub struct Compra {
    pub id: i64,
    pub proveedor_id: i64,
    pub proveedor_nombre: String,
    pub numero_factura: Option<String>,
    pub fecha: String,
    pub estado: String,
    pub subtotal: i64,
    pub total: i64,
}

#[derive(Debug, Clone, PartialEq, Eq)]
pub struct DetalleCompra {
    pub id: i64,
    pub producto_id: i64,
    pub producto_nombre: String,
    pub codigo_interno: String,
    pub cantidad: i64,
    pub costo_unitario: i64,
    pub subtotal: i64,
}

#[derive(Debug, Clone, PartialEq, Eq)]
pub struct CompraDetalle {
    pub compra: Compra,
    pub detalles: Vec<DetalleCompra>,
}

/// Una línea de la recepción, con el costo que carga quien recibe.
#[derive(Debug, Clone, Copy, PartialEq, Eq)]
pub struct ItemCompra {
    pub producto_id: i64,
    pub cantidad: i64,
    pub costo_unitario: i64,
}

#[derive(Debug, Clone, PartialEq, Eq)]
pub struct CrearCompra {
    pub proveedor_id: i64,
    pub numero_factura: Option<String>,
    pub items: Vec<ItemCompra>,
}

// ----------------------------------------------------------- comprobantes

#[derive(Debug, Clone, PartialEq, Eq)]
pub struct Comprobante {
    pub id: i64,
    pub venta_id: i64,
    pub numero: String,
    pub tipo: String,
    pub creado_en: String,
}

#[derive(Debug, Clone, PartialEq, Eq)]
pub struct ComprobanteEvento {
    pub id: i64,
    pub tipo_evento: String,
    pub fecha: String,
}

#[derive(Debug, Clone, PartialEq, Eq)]
pub struct ObtenerOCrearComprobante {
    pub venta_id: i64,
    pub tipo: String,
}

// ---------------------------------------------------------- configuración

/// Encabezado de los comprobantes.
#[derive(Debug, Clone, PartialEq, Eq)]
pub struct ConfiguracionNegocio {
    pub nombre: String,
    pub direccion: String,
    pub telefono: String,
}

// ------------------------------------------------------- cuenta corriente

#[derive(Debug, Clone, PartialEq, Eq)]
pub struct MovimientoCuentaCorriente {
    pub id: i64,
    /// venta_fiada | pago | ajuste | devolucion
    pub tipo: String,
    pub monto: i64,
    pub saldo_resultante: i64,
    pub metodo_pago_nombre: Option<String>,
    pub fecha: String,
    pub observacion: Option<String>,
}

#[derive(Debug, Clone, PartialEq, Eq)]
pub struct RegistrarPago {
    /// Centavos, lo que pagó el cliente.
    pub monto: i64,
    pub metodo_pago_id: i64,
    pub observacion: Option<String>,
}

#[derive(Debug, Clone, PartialEq, Eq)]
pub struct AjusteCuentaCorriente {
    /// Centavos. Positivo aumenta la deuda, negativo la reduce.
    pub monto: i64,
    pub motivo: String,
}

// ------------------------------------------------------------ devoluciones

#[derive(Debug, Clone, PartialEq, Eq)]
pub struct Devolucion {
    pub id: i64,
    pub venta_id: i64,
    pub fecha: String,
    pub motivo: String,
    pub metodo_devolucion: String,
    pub total_devuelto: i64,
}

#[derive(Debug, Clone, PartialEq, Eq)]
pub struct DevolucionDetalleFila {
    pub id: i64,
    pub venta_detalle_id: i64,
    pub producto_id: i64,
    pub producto_nombre: String,
    pub cantidad: i64,
    pub monto: i64,
    pub estado_producto: String,
    pub observacion: Option<String>,
}

#[derive(Debug, Clone, PartialEq, Eq)]
pub struct DevolucionConDetalles {
    pub devolucion: Devolucion,
    pub detalles: Vec<DevolucionDetalleFila>,
}

/// Una línea a devolver de una venta.
#[derive(Debug, Clone, PartialEq, Eq)]
pub struct ItemDevolucion {
    pub venta_detalle_id: i64,
    pub cantidad: i64,
    pub estado_producto: String,
    pub observacion: Option<String>,
}

#[derive(Debug, Clone, PartialEq, Eq)]
pub struct CrearDevolucion {
    pub venta_id: i64,
    pub motivo: String,
    pub metodo_devolucion: String,
    pub items: Vec<ItemDevolucion>,
}

// ---------------------------------------------------------- importaciones

#[derive(Debug, Clone, PartialEq, Eq)]
pub struct Importacion {
    pub id: i64,
    pub archivo_nombre: String,
    pub archivo_hash: String,
    pub hoja_detectada: String,
    pub fila_encabezado_detectada: i64,
    pub columnas_detectadas_json: String,
    pub estado: String,
    pub total_filas: i64,
    pub creada_en: String,
    pub cerrada_en: Option<String>,
}

#[derive(Debug, Clone, PartialEq, Eq)]
pub struct ImportacionFila {
    pub id: i64,
    pub importacion_id: i64,
    pub fila_excel: i64,
    pub codigo_excel: Option<String>,
    pub nombre_excel: Option<String>,
    pub precio_lista_centavos: Option<i64>,
    pub categoria_excel_texto: Option<String>,
    pub precios_calculados_json: Option<String>,
    pub clasificacion: String,
    pub motivo_error: Option<String>,
    pub es_duplicado_codigo: bool,
    pub es_posible_duplicado_nombre: bool,
    pub coincide_producto_existente_id: Option<i64>,
    pub decision: Option<String>,
    pub producto_vinculado_id: Option<i64>,
    pub actualizar_costo_en_vinculo: bool,
    pub producto_id: Option<i64>,
    pub resuelta_en: Option<String>,
}

/// Resumen agregado de las filas de una importación.
#[derive(Debug, Clone, PartialEq, Eq)]
pub struct ResumenImportacion {
    pub total: i64,
    pub validos: i64,
    pub sin_codigo: i64,
    pub sin_nombre: i64,
    pub duplicados_codigo: i64,
    pub duplicados_nombre: i64,
    pub coincide_existente: i64,
    pub secciones: i64,
    pub ignoradas: i64,
    pub errores: i64,
    pub pendientes: i64,
    pub resueltas: i64,
}

/// Qué columna cumple un rol: el encabezado tal cual y su índice en la fila.
#[derive(Debug, Clone, PartialEq, Eq)]
pub struct ColumnaDetectada {
    pub encabezado: String,
    pub indice: usize,
}

#[derive(Debug, Clone, PartialEq, Eq)]
pub struct ColumnasDetectadas {
    pub codigo: Option<ColumnaDetectada>,
    pub nombre: ColumnaDetectada,
    pub precio: ColumnaDetectada,
    /// Columnas de porcentaje (pp+50%, ...): solo referencia histórica.
    pub derivadas: Vec<ColumnaDetectada>,
}

#[derive(Debug, Clone, PartialEq, Eq)]
pub struct EstructuraDetectada {
    pub hoja: String,
    /// Fila real del Excel, contando desde 1.
    pub fila_encabezado: i64,
    pub columnas: ColumnasDetectadas,
}

/// Una fila ya leída del Excel, antes de clasificar. Los precios derivados
/// (porcentajes, con decimales) no forman parte: solo se guardan como
/// referencia y no participan de ninguna regla.
#[derive(Debug, Clone, PartialEq, Eq)]
pub struct FilaCruda {
    pub fila_excel: i64,
    pub codigo: Option<String>,
    pub nombre: Option<String>,
    /// Centavos. `None` si la celda estaba vacía.
    pub precio_centavos: Option<i64>,
    /// El texto de la celda de precio cuando no era un número.
    pub precio_texto_invalido: Option<String>,
}

#[derive(Debug, Clone, PartialEq, Eq)]
pub struct ResolverFila {
    /// crear_nuevo | vincular_existente | omitir
    pub decision: String,
    pub producto_vinculado_id: Option<i64>,
    pub actualizar_costo_en_vinculo: bool,
    pub nombre_corregido: Option<String>,
    pub codigo_corregido: Option<String>,
}

// ---------------------------------------------------------- métodos de pago

#[derive(Debug, Clone, PartialEq, Eq)]
pub struct MetodoPago {
    pub id: i64,
    pub nombre: String,
}

// -------------------------------------------------------------- productos

#[derive(Debug, Clone, PartialEq, Eq)]
pub struct Producto {
    pub id: i64,
    pub codigo_interno: String,
    pub nombre: String,
    pub marca_id: Option<i64>,
    pub marca_nombre: Option<String>,
    pub categoria_id: Option<i64>,
    pub categoria_nombre: Option<String>,
    pub descripcion: Option<String>,
    pub observaciones: Option<String>,
    pub costo_actual: Option<i64>,
    pub precio_venta_actual: Option<i64>,
    pub precio_publico_referencia: Option<i64>,
    pub precio_actualizado_en: Option<String>,
    pub estado: String,
    pub stock_actual: i64,
    pub codigos_fabricante_resumen: Option<String>,
}

#[derive(Debug, Clone, PartialEq, Eq)]
pub struct CodigoFabricante {
    pub codigo: String,
    pub fabricante_nombre: Option<String>,
    pub observacion: Option<String>,
}

/// Datos del formulario de producto, para crear o editar.
#[derive(Debug, Clone, PartialEq, Eq)]
pub struct GuardarProducto {
    pub nombre: String,
    pub marca_id: Option<i64>,
    pub categoria_id: Option<i64>,
    pub descripcion: Option<String>,
    pub observaciones: Option<String>,
    pub costo_actual: Option<i64>,
    pub precio_venta_actual: Option<i64>,
    pub precio_publico_referencia: Option<i64>,
    pub estado: String,
    pub codigos_fabricante: Vec<CodigoFabricante>,
}

#[derive(Debug, Clone, PartialEq, Eq)]
pub struct ProductoDetalle {
    pub producto: Producto,
    pub codigos_fabricante: Vec<CodigoFabricante>,
}

#[derive(Debug, Clone, PartialEq, Eq)]
pub struct ProductoProveedor {
    pub id: i64,
    pub producto_id: i64,
    pub producto_nombre: String,
    pub codigo_interno: String,
    pub proveedor_id: i64,
    pub codigo_proveedor: Option<String>,
    pub url_producto: Option<String>,
    pub url_busqueda: Option<String>,
    pub es_principal: bool,
    pub activo: bool,
}

#[derive(Debug, Clone, PartialEq, Eq)]
pub struct GuardarProductoProveedor {
    pub producto_id: i64,
    pub codigo_proveedor: Option<String>,
    pub url_producto: Option<String>,
    pub url_busqueda: Option<String>,
    pub es_principal: bool,
}

// ------------------------------------------------------------ proveedores

#[derive(Debug, Clone, PartialEq, Eq)]
pub struct Proveedor {
    pub id: i64,
    pub nombre: String,
    pub telefono: Option<String>,
    pub whatsapp: Option<String>,
    pub email: Option<String>,
    pub sitio_web: Option<String>,
    pub observaciones: Option<String>,
    pub activo: bool,
}

#[derive(Debug, Clone, PartialEq, Eq)]
pub struct GuardarProveedor {
    pub nombre: String,
    pub telefono: Option<String>,
    pub whatsapp: Option<String>,
    pub email: Option<String>,
    pub sitio_web: Option<String>,
    pub observaciones: Option<String>,
    pub activo: bool,
}

// ------------------------------------------------------------------ stock

#[derive(Debug, Clone, PartialEq, Eq)]
pub struct ProductoStock {
    pub id: i64,
    pub codigo_interno: String,
    pub nombre: String,
    pub marca_nombre: Option<String>,
    pub categoria_nombre: Option<String>,
    pub stock_actual: i64,
    pub stock_minimo: i64,
    /// "sin_stock" | "bajo" | "ok"
    pub estado_stock: String,
}

#[derive(Debug, Clone, PartialEq, Eq)]
pub struct AjusteStock {
    pub nueva_cantidad: i64,
    pub motivo: String,
}

// ----------------------------------------------------------------- ventas

#[derive(Debug, Clone, PartialEq, Eq)]
pub struct Venta {
    pub id: i64,
    pub numero: i64,
    pub cliente_id: i64,
    pub cliente_nombre: String,
    pub fecha: String,
    pub estado: String,
    pub subtotal: i64,
    pub descuento_total: i64,
    pub total: i64,
    pub motivo_anulacion: Option<String>,
    pub fecha_anulacion: Option<String>,
}

#[derive(Debug, Clone, PartialEq, Eq)]
pub struct DetalleVenta {
    pub id: i64,
    pub producto_id: i64,
    pub producto_nombre: String,
    pub codigo_interno: String,
    pub cantidad: i64,
    pub precio_unitario: i64,
    pub descuento: i64,
    pub subtotal: i64,
}

#[derive(Debug, Clone, PartialEq, Eq)]
pub struct PagoVenta {
    pub id: i64,
    pub metodo_pago_id: i64,
    pub metodo_pago_nombre: String,
    pub monto: i64,
}

#[derive(Debug, Clone, PartialEq, Eq)]
pub struct VentaDetalle {
    pub venta: Venta,
    pub detalles: Vec<DetalleVenta>,
    pub pagos: Vec<PagoVenta>,
}

/// Una línea del carrito: precio y descuento los carga el vendedor.
#[derive(Debug, Clone, Copy, PartialEq, Eq)]
pub struct ItemCarrito {
    pub producto_id: i64,
    pub cantidad: i64,
    pub precio_unitario: i64,
    pub descuento: i64,
}

#[derive(Debug, Clone, Copy, PartialEq, Eq)]
pub struct PagoInput {
    pub metodo_pago_id: i64,
    pub monto: i64,
}

/// Los totales nunca se reciben: se calculan de los items.
#[derive(Debug, Clone, PartialEq, Eq)]
pub struct CrearVenta {
    pub cliente_id: Option<i64>,
    pub items: Vec<ItemCarrito>,
    pub pagos: Vec<PagoInput>,
}

#[derive(Debug, Clone, PartialEq, Eq)]
pub struct AnularVenta {
    pub motivo: String,
}

// ---------------------------------------------------------------- sistema

#[derive(Debug, Clone, PartialEq, Eq)]
pub struct HealthCheck {
    pub app_version: String,
    pub schema_version: i64,
    pub db_path: String,
    pub sqlite_version: String,
}

} // verus!
