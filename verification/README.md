# espinola

Las reglas de negocio de un sistema de gestión para una casa de
motorepuestos (productos, stock, ventas, clientes y cuenta corriente,
compras, proveedores, caja, importación de listas de precios desde Excel y
copias de seguridad), escritas en Verus con sus contratos demostrados.

## Organización

- `src/`: la biblioteca verificada. Cada operación toma lo que se leyó de
  la base (saldos, productos, métodos de pago, filas de una planilla) como
  valores comunes y devuelve lo que hay que escribir, o el error que
  corresponde. Los contratos dicen exactamente cuándo se devuelve cada
  error y qué se escribe; las leyes (funciones `ley_*`) enuncian
  propiedades que relacionan varias operaciones, como que anular una
  venta repone todo el stock que descontó (aunque un producto aparezca en
  varias líneas), que una devolución nunca supera lo vendido de cada línea
  o que la rotación de copias nunca
  borra las previas a una restauración.
- `tests/`: pruebas sobre valores concretos.
- `app/`: la aplicación alrededor de la biblioteca: SQLite con `sqlx`,
  lectura de Excel con `calamine`, archivos de copias de seguridad, logs
  y el arranque.

## Montos

Todo el dinero está en centavos, como enteros de 64 bits; nunca punto
flotante. Los únicos valores de punto flotante (los precios derivados de
una planilla y el paso de una celda numérica a centavos) quedan en `app/`.
