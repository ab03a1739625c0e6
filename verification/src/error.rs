//! Why an operation of the registry was refused.

use vstd::prelude::*;

verus! {

/// The rule of the store that a row would break.
#[derive(Debug, Clone, Copy, PartialEq, Eq, Structural)]
pub enum Restriccion {
    /// Another member already has this member number.
    NumeroHermanoRepetido,
    /// Another family already has this name.
    NombreFamiliaRepetido,
    /// The member already has a due for this year and quarter.
    CuotaRepetida,
    /// A due must fall in one of the four quarters.
    TrimestreFueraDeRango,
    /// A due must belong to a member that exists.
    HermanoInexistente,
    /// The table has handed out its last identifier.
    SinIdentificadores,
    /// The rows handed over for loading do not make a registry: they
    /// break one of its rules, or do not come in the order of their
    /// identifiers.
    DatosInconsistentes,
}

/// What went wrong.
#[derive(Debug, Clone, Copy, PartialEq, Eq, Structural)]
pub enum DbError {
    /// A member needs a name and a first surname.
    NombreObligatorio,
    /// A member number was given and is not exactly five digits.
    NumeroHermanoInvalido,
    /// The quarter is not between 1 and 4.
    TrimestreInvalido,
    /// The family cannot go while active members belong to it.
    FamiliaConHermanosActivos,
    /// The caller needs the member to exist, and it does not.
    HermanoNoEncontrado,
    /// The store refused the change.
    Almacenamiento(Restriccion),
}

/// The four kinds of failure.
#[derive(Debug, Clone, Copy, PartialEq, Eq, Structural)]
pub enum ClaseError {
    Validacion,
    NoEncontrado,
    Integridad,
    Almacenamiento,
}

/// Why a registration stopped, by the step that failed.
#[derive(Debug, Clone, Copy, PartialEq, Eq, Structural)]
pub enum ErrorAlta {
    /// The new family could not be created; nothing was stored.
    Familia(DbError),
    /// The member could not be stored.  A family founded for it stays,
    /// without an address of record.
    Hermano(DbError),
}

impl Restriccion {
    /// The words in which the store names the rule.
    pub open spec fn texto(self) -> Seq<char> {
        match self {
            Restriccion::NumeroHermanoRepetido => "UNIQUE constraint failed: hermanos.numero_hermano"@,
            Restriccion::NombreFamiliaRepetido => "UNIQUE constraint failed: familias.nombre_familia"@,
            Restriccion::CuotaRepetida => "UNIQUE constraint failed: cuotas.hermano_id, cuotas.anio, cuotas.trimestre"@,
            Restriccion::TrimestreFueraDeRango => "CHECK constraint failed: trimestre >= 1 AND trimestre <= 4"@,
            Restriccion::HermanoInexistente => "FOREIGN KEY constraint failed"@,
            Restriccion::SinIdentificadores => "database or disk is full"@,
            Restriccion::DatosInconsistentes => "database disk image is malformed"@,
        }
    }
}

impl DbError {
    /// The kind of failure this is.
    pub open spec fn clase_de(self) -> ClaseError {
        match self {
            DbError::NombreObligatorio => ClaseError::Validacion,
            DbError::NumeroHermanoInvalido => ClaseError::Validacion,
            DbError::TrimestreInvalido => ClaseError::Validacion,
            DbError::FamiliaConHermanosActivos => ClaseError::Integridad,
            DbError::HermanoNoEncontrado => ClaseError::NoEncontrado,
            DbError::Almacenamiento(_) => ClaseError::Almacenamiento,
        }
    }

    /// The message shown to a person.
    pub open spec fn texto(self) -> Seq<char> {
        match self {
            DbError::NombreObligatorio => "El nombre y el primer apellido son obligatorios"@,
            DbError::NumeroHermanoInvalido => "El número de hermano debe tener exactamente 5 dígitos numéricos"@,
            DbError::TrimestreInvalido => "El trimestre debe estar entre 1 y 4"@,
            DbError::FamiliaConHermanosActivos => "No se puede eliminar la familia porque tiene hermanos activos asociados"@,
            DbError::HermanoNoEncontrado => "Hermano no encontrado"@,
            DbError::Almacenamiento(r) => r.texto(),
        }
    }

    /// The kind of failure this is.
    pub fn clase(&self) -> (c: ClaseError)
        ensures
            c == self.clase_de(),
    {
        match self {
            DbError::NombreObligatorio => ClaseError::Validacion,
            DbError::NumeroHermanoInvalido => ClaseError::Validacion,
            DbError::TrimestreInvalido => ClaseError::Validacion,
            DbError::FamiliaConHermanosActivos => ClaseError::Integridad,
            DbError::HermanoNoEncontrado => ClaseError::NoEncontrado,
            DbError::Almacenamiento(_) => ClaseError::Almacenamiento,
        }
    }

    /// The message shown to a person.
    pub fn mensaje(&self) -> (m: String)
        ensures
            m@ == self.texto(),
    {
        let s: &str = match self {
            DbError::NombreObligatorio => "El nombre y el primer apellido son obligatorios",
            DbError::NumeroHermanoInvalido => "El número de hermano debe tener exactamente 5 dígitos numéricos",
            DbError::TrimestreInvalido => "El trimestre debe estar entre 1 y 4",
            DbError::FamiliaConHermanosActivos => "No se puede eliminar la familia porque tiene hermanos activos asociados",
            DbError::HermanoNoEncontrado => "Hermano no encontrado",
            DbError::Almacenamiento(r) => match r {
                Restriccion::NumeroHermanoRepetido => "UNIQUE constraint failed: hermanos.numero_hermano",
                Restriccion::NombreFamiliaRepetido => "UNIQUE constraint failed: familias.nombre_familia",
                Restriccion::CuotaRepetida => "UNIQUE constraint failed: cuotas.hermano_id, cuotas.anio, cuotas.trimestre",
                Restriccion::TrimestreFueraDeRango => "CHECK constraint failed: trimestre >= 1 AND trimestre <= 4",
                Restriccion::HermanoInexistente => "FOREIGN KEY constraint failed",
                Restriccion::SinIdentificadores => "database or disk is full",
                Restriccion::DatosInconsistentes => "database disk image is malformed",
            },
        };
        s.to_owned()
    }
}

} // verus!
