//! Reglas de negocio de Espínola Motorepuestos, verificadas: ventas con
//! pagos que cubren exactamente el total, devoluciones que nunca superan
//! lo vendido, cuenta corriente como libro de movimientos, stock,
//! compras, catálogo con historial de precios, importación de listas de
//! precios desde Excel y copias de seguridad. Cada operación recibe lo
//! leído de la base como valores y devuelve lo que hay que escribir.
pub mod backups;
pub mod catalogos;
pub mod compras;
pub mod cuenta_corriente;
pub mod devoluciones;
pub mod error;
pub mod importaciones;
pub mod lector_excel;
pub mod modelos;
pub mod productos;
pub mod resolucion;
pub mod stock;
pub mod sumas;
pub mod texto;
pub mod ventas;
