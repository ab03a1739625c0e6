pub mod base;
pub mod carga;
pub mod comandos;
pub mod conservacion;
pub mod cuotas;
pub mod error;
pub mod esquema;
pub mod estado;
pub mod familias;
pub mod filas;
pub mod hermanos;
pub mod leyes;
pub mod modelo;
pub mod secuencias;
pub mod texto;
