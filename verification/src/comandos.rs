//! Operations that combine the repositories: the registration of a member
//! together with a family founded for it, and the lookup that insists on
//! finding its member.

use crate::base::Database;
use crate::error::{DbError, ErrorAlta};
use crate::familias::{create_familia, update_familia};
use crate::hermanos::{create_hermano, get_hermano_by_id};
use crate::modelo::{vista_opcional, Familia, Hermano, HermanoConFamiliaData};
use vstd::prelude::*;

verus! {

/// The member `id`; an error where there is no such member.
pub fn get_hermano_cmd(db: &Database, id: i32) -> (r: Result<Hermano, DbError>)
    requires
        db.wf(),
    ensures
        match r {
            Ok(h) => db@.buscar_hermano(id) == Some(h@),
            Err(e) => e == DbError::HermanoNoEncontrado && db@.buscar_hermano(id) is None,
        },
{
    match get_hermano_by_id(db, id) {
        Some(h) => Ok(h),
        None => Err(DbError::HermanoNoEncontrado),
    }
}

/// What a registration returns once its member is stored: the member's
/// identifier, whether or not the family could be pointed at the member.
pub fn concluir_alta(hermano_id: i32, enlace: Result<(), DbError>) -> (r: Result<i32, ErrorAlta>)
    ensures
        r == Ok::<i32, ErrorAlta>(hermano_id),
{
    Ok(hermano_id)
}

/// Registers a member and, where a name for a new family comes with it,
/// founds that family for the member first and points it at the member
/// afterwards.  Returns the member's identifier.
pub fn create_hermano_con_familia_cmd(db: &mut Database, data: HermanoConFamiliaData) -> (r: Result<
    i32,
    ErrorAlta,
>)
    requires
        old(db).wf(),
    ensures
        final(db).wf(),
        (final(db)@, r) == old(db)@.alta_con_familia(
            data.hermano@,
            vista_opcional(data.nueva_familia_nombre),
        ),
{
    let HermanoConFamiliaData { hermano, nueva_familia_nombre } = data;
    let mut hermano = hermano;
    let familia_id: Option<i32> = match &nueva_familia_nombre {
        Some(nombre) => {
            let nueva = Familia {
                id: None,
                nombre_familia: nombre.clone(),
                hermano_direccion_id: None,
                created_at: None,
                updated_at: None,
            };
            match create_familia(db, &nueva) {
                Ok(id) => Some(id),
                Err(e) => {
                    return Err(ErrorAlta::Familia(e));
                },
            }
        },
        None => hermano.familia_id,
    };
    hermano.familia_id = familia_id;
    let hermano_id: i32 = match create_hermano(db, &hermano) {
        Ok(id) => id,
        Err(e) => {
            return Err(ErrorAlta::Hermano(e));
        },
    };
    match (familia_id, &nueva_familia_nombre) {
        (Some(familia_id_nueva), Some(nombre)) => {
            let actualizada = Familia {
                id: Some(familia_id_nueva),
                nombre_familia: nombre.clone(),
                hermano_direccion_id: Some(hermano_id),
                created_at: None,
                updated_at: None,
            };
            let enlace = update_familia(db, familia_id_nueva, &actualizada);
            concluir_alta(hermano_id, enlace)
        },
        _ => Ok(hermano_id),
    }
}

} // verus!
