use hermanar::error::{ClaseError, DbError, Restriccion};

#[test]
fn cada_error_tiene_su_clase() {
    assert_eq!(DbError::NombreObligatorio.clase(), ClaseError::Validacion);
    assert_eq!(DbError::NumeroHermanoInvalido.clase(), ClaseError::Validacion);
    assert_eq!(DbError::TrimestreInvalido.clase(), ClaseError::Validacion);
    assert_eq!(DbError::FamiliaConHermanosActivos.clase(), ClaseError::Integridad);
    assert_eq!(DbError::HermanoNoEncontrado.clase(), ClaseError::NoEncontrado);
    for r in [
        Restriccion::NumeroHermanoRepetido,
        Restriccion::NombreFamiliaRepetido,
        Restriccion::CuotaRepetida,
        Restriccion::TrimestreFueraDeRango,
        Restriccion::HermanoInexistente,
        Restriccion::SinIdentificadores,
        Restriccion::DatosInconsistentes,
    ] {
        assert_eq!(DbError::Almacenamiento(r).clase(), ClaseError::Almacenamiento);
    }
}

#[test]
fn cada_error_tiene_su_mensaje() {
    assert_eq!(
        DbError::NumeroHermanoInvalido.mensaje(),
        "El número de hermano debe tener exactamente 5 dígitos numéricos"
    );
    assert_eq!(
        DbError::NombreObligatorio.mensaje(),
        "El nombre y el primer apellido son obligatorios"
    );
    assert_eq!(DbError::TrimestreInvalido.mensaje(), "El trimestre debe estar entre 1 y 4");
    assert_eq!(
        DbError::FamiliaConHermanosActivos.mensaje(),
        "No se puede eliminar la familia porque tiene hermanos activos asociados"
    );
    assert_eq!(DbError::HermanoNoEncontrado.mensaje(), "Hermano no encontrado");
    assert_eq!(
        DbError::Almacenamiento(Restriccion::NumeroHermanoRepetido).mensaje(),
        "UNIQUE constraint failed: hermanos.numero_hermano"
    );
    assert_eq!(
        DbError::Almacenamiento(Restriccion::NombreFamiliaRepetido).mensaje(),
        "UNIQUE constraint failed: familias.nombre_familia"
    );
    assert_eq!(
        DbError::Almacenamiento(Restriccion::CuotaRepetida).mensaje(),
        "UNIQUE constraint failed: cuotas.hermano_id, cuotas.anio, cuotas.trimestre"
    );
    assert_eq!(
        DbError::Almacenamiento(Restriccion::TrimestreFueraDeRango).mensaje(),
        "CHECK constraint failed: trimestre >= 1 AND trimestre <= 4"
    );
    assert_eq!(
        DbError::Almacenamiento(Restriccion::HermanoInexistente).mensaje(),
        "FOREIGN KEY constraint failed"
    );
    assert_eq!(
        DbError::Almacenamiento(Restriccion::SinIdentificadores).mensaje(),
        "database or disk is full"
    );
    assert_eq!(
        DbError::Almacenamiento(Restriccion::DatosInconsistentes).mensaje(),
        "database disk image is malformed"
    );
}
