//! Error único de las reglas de negocio. Los errores de base de datos y de
//! entrada/salida no nacen acá: los agrega la capa que habla con SQLite y
//! con el disco.
use vstd::prelude::*;

verus! {

/// Qué salió mal, con el mensaje pensado para el usuario.
#[derive(Debug, Clone, PartialEq, Eq)]
pub enum AppError {
    Validation(String),
    NotFound(String),
    Conflict(String),
    Unexpected(String),
}

/// La clase de un error, sin el mensaje: es lo que fijan los contratos.
#[derive(Debug, Clone, Copy, PartialEq, Eq, Structural)]
pub enum TipoError {
    Validacion,
    NoEncontrado,
    Conflicto,
    Inesperado,
}

impl AppError {
    pub open spec fn tipo(self) -> TipoError {
        match self {
            AppError::Validation(_) => TipoError::Validacion,
            AppError::NotFound(_) => TipoError::NoEncontrado,
            AppError::Conflict(_) => TipoError::Conflicto,
            AppError::Unexpected(_) => TipoError::Inesperado,
        }
    }

    /// El nombre con el que viaja el error hacia la interfaz.
    pub fn kind(&self) -> (r: &'static str)
        ensures
            self is Validation ==> r@ == "validation"@,
            self is NotFound ==> r@ == "not_found"@,
            self is Conflict ==> r@ == "conflict"@,
            self is Unexpected ==> r@ == "unexpected"@,
    {
        match self {
            AppError::Validation(_) => "validation",
            AppError::NotFound(_) => "not_found",
            AppError::Conflict(_) => "conflict",
            AppError::Unexpected(_) => "unexpected",
        }
    }

    /// Validación, no encontrado y conflicto son errores de negocio,
    /// esperables; lo demás es una falla del sistema.
    pub fn is_business_error(&self) -> (r: bool)
        ensures
            r == (self is Validation || self is NotFound || self is Conflict),
    {
        match self {
            AppError::Validation(_) => true,
            AppError::NotFound(_) => true,
            AppError::Conflict(_) => true,
            AppError::Unexpected(_) => false,
        }
    }

    /// El mensaje para el usuario.
    pub fn mensaje(&self) -> (r: &String)
        ensures
            r == match self {
                AppError::Validation(m) => m,
                AppError::NotFound(m) => m,
                AppError::Conflict(m) => m,
                AppError::Unexpected(m) => m,
            },
    {
        match self {
            AppError::Validation(m) => m,
            AppError::NotFound(m) => m,
            AppError::Conflict(m) => m,
            AppError::Unexpected(m) => m,
        }
    }
}

/// Un error de validación con un mensaje fijo.
pub fn validacion(mensaje: &str) -> (r: AppError)
    ensures
        r matches AppError::Validation(m) && m@ == mensaje@,
{
    AppError::Validation(mensaje.to_owned())
}

} // verus!
