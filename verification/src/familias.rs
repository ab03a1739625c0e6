//! Families: listing, search, creation, change, removal, and what a
//! family shows of its members.

use crate::base::{vistas_familias, Database};
use crate::conservacion::{
    lema_alta_familia, lema_borrado_familia, lema_buscar_familia, lema_buscar_hermano,
    lema_cambio_familia,
};
use crate::error::{DbError, Restriccion};
use crate::estado::por_nombre;
use crate::hermanos::{mismo_id, posicion_hermano};
use crate::modelo::{
    copia_opcional, nombre_completo, DireccionPrincipal, Familia, FamiliaConDireccion, FamiliaView,
    Hermano, HermanoView,
};
use crate::secuencias::{
    es_seleccion, lema_filtro_paso, lema_filtro_quita_uno, lema_filtro_todos, lema_filtro_vacio,
    lema_seleccion_con, lema_seleccion_sin,
};
use crate::texto::{
    contiene, lema_precede_total, lema_precede_transitiva, precede, texto_contiene, texto_igual,
    texto_precede, unir_con_espacio,
};
use vstd::prelude::*;

verus! {

/// Where in the table the family `id` stands.
fn posicion_familia(db: &Database, id: i32) -> (r: Option<usize>)
    ensures
        match r {
            Some(i) => db@.familia_en(id, i as int),
            None => !db@.tiene_familia(id),
        },
{
    let n: usize = db.familias.len();
    let mut i: usize = 0;
    while i < n
        invariant
            n == db.familias@.len(),
            i <= n,
            forall|k: int| 0 <= k < i ==> !db@.familia_en(id, k),
        decreases n - i,
    {
        if mismo_id(db.familias[i].id, Some(id)) {
            return Some(i);
        }
        i = i + 1;
    }
    None
}

/// Whether a family other than `salvo` already carries `nombre`.
fn nombre_en_uso(db: &Database, nombre: &str, salvo: Option<i32>) -> (r: bool)
    ensures
        r == db@.nombre_ocupado(nombre@, salvo),
{
    let n: usize = db.familias.len();
    let mut i: usize = 0;
    while i < n
        invariant
            n == db.familias@.len(),
            i <= n,
            forall|k: int| 0 <= k < i ==> !(db@.nombre_en(nombre@, k) && db@.familias[k].id != salvo),
        decreases n - i,
    {
        if texto_igual(db.familias[i].nombre_familia.as_str(), nombre) && !mismo_id(
            db.familias[i].id,
            salvo,
        ) {
            assert(db@.nombre_en(nombre@, i as int));
            return true;
        }
        i = i + 1;
    }
    false
}

/// Which families a listing shows.
enum FiltroFamilia<'a> {
    Todas,
    Texto(&'a str),
}

impl<'a> FiltroFamilia<'a> {
    spec fn admite(self, f: FamiliaView) -> bool {
        match self {
            FiltroFamilia::Todas => true,
            FiltroFamilia::Texto(q) => contiene(f.nombre_familia, q@),
        }
    }

    fn pasa(&self, f: &Familia) -> (r: bool)
        ensures
            r == self.admite(f@),
    {
        match self {
            FiltroFamilia::Todas => true,
            FiltroFamilia::Texto(q) => texto_contiene(f.nombre_familia.as_str(), q),
        }
    }
}

/// Puts `h` into `res` at the place its name gives it.
fn insertar_por_nombre(res: &mut Vec<Familia>, h: Familia)
    requires
        por_nombre(vistas_familias(old(res)@)),
        forall|k: int|
            0 <= k < old(res)@.len() ==> (#[trigger] old(res)@[k])@.nombre_familia
                != h@.nombre_familia,
    ensures
        por_nombre(vistas_familias(final(res)@)),
        exists|p: int| 0 <= p <= old(res)@.len() && final(res)@ == old(res)@.insert(p, h),
{
    let n: usize = res.len();
    let mut p: usize = 0;
    while p < n && texto_precede(res[p].nombre_familia.as_str(), h.nombre_familia.as_str())
        invariant
            n == res@.len(),
            p <= n,
            res@ == old(res)@,
            forall|k: int|
                0 <= k < p ==> precede((#[trigger] res@[k])@.nombre_familia, h@.nombre_familia),
        decreases n - p,
    {
        p = p + 1;
    }
    proof {
        let antes = vistas_familias(res@);
        assert forall|k: int| p <= k < n implies precede(
            h@.nombre_familia,
            (#[trigger] res@[k])@.nombre_familia,
        ) by {
            lema_precede_total(res@[p as int]@.nombre_familia, h@.nombre_familia);
            if k > p {
                assert(precede(antes[p as int].nombre_familia, antes[k].nombre_familia));
                lema_precede_transitiva(
                    h@.nombre_familia,
                    res@[p as int]@.nombre_familia,
                    res@[k]@.nombre_familia,
                );
            }
        }
    }
    let ghost antes = res@;
    let ghost nueva = h@;
    res.insert(p, h);
    proof {
        let va = vistas_familias(antes);
        let vd = vistas_familias(res@);
        assert(vd =~= va.insert(p as int, nueva));
        assert forall|a: int, b: int| 0 <= a < b < vd.len() implies precede(
            (#[trigger] vd[a]).nombre_familia,
            (#[trigger] vd[b]).nombre_familia,
        ) by {
            if b < p {
                assert(precede(va[a].nombre_familia, va[b].nombre_familia));
            } else if b == p {
                assert(precede(antes[a]@.nombre_familia, nueva.nombre_familia));
            } else if a < p {
                assert(precede(va[a].nombre_familia, va[b - 1].nombre_familia));
            } else if a == p {
                assert(precede(nueva.nombre_familia, antes[b - 1]@.nombre_familia));
            } else {
                assert(precede(va[a - 1].nombre_familia, va[b - 1].nombre_familia));
            }
        }
    }
}

/// The families that `filtro` admits, by name.
fn listar_familias(db: &Database, filtro: FiltroFamilia) -> (r: Vec<Familia>)
    requires
        db.wf(),
    ensures
        es_seleccion(vistas_familias(r@), db@.familias, |x: FamiliaView| filtro.admite(x)),
        por_nombre(vistas_familias(r@)),
{
    let ghost f = |x: FamiliaView| filtro.admite(x);
    let mut res: Vec<Familia> = Vec::new();
    let n: usize = db.familias.len();
    let mut i: usize = 0;
    while i < n
        invariant
            db.wf(),
            n == db.familias@.len(),
            i <= n,
            f == |x: FamiliaView| filtro.admite(x),
            es_seleccion(vistas_familias(res@), db@.familias.take(i as int), f),
            por_nombre(vistas_familias(res@)),
        decreases n - i,
    {
        let ghost antes = vistas_familias(res@);
        let ghost tabla = db@.familias;
        if filtro.pasa(&db.familias[i]) {
            let fila = db.familias[i].clone();
            proof {
                assert forall|k: int| 0 <= k < res@.len() implies (#[trigger] res@[k])@.nombre_familia
                    != fila@.nombre_familia by {
                    assert(tabla.take(i as int).contains(antes[k]));
                    let q = choose|q: int| 0 <= q < i && tabla.take(i as int)[q] == antes[k];
                    assert(tabla[q].nombre_familia != tabla[i as int].nombre_familia);
                }
            }
            let ghost previo = res@;
            insertar_por_nombre(&mut res, fila);
            proof {
                let p = choose|p: int| 0 <= p <= previo.len() && res@ == previo.insert(p, fila);
                assert(vistas_familias(res@) =~= antes.insert(p, fila@));
                lema_seleccion_con(antes, tabla, f, i as int, p);
            }
        } else {
            proof {
                lema_seleccion_sin(antes, tabla, f, i as int);
            }
        }
        i = i + 1;
    }
    assert(db@.familias.take(n as int) =~= db@.familias);
    res
}

/// Every family, by name.
pub fn get_all_familias(db: &Database) -> (r: Vec<Familia>)
    requires
        db.wf(),
    ensures
        es_seleccion(vistas_familias(r@), db@.familias, |f: FamiliaView| true),
        por_nombre(vistas_familias(r@)),
{
    let r = listar_familias(db, FiltroFamilia::Todas);
    assert(es_seleccion(vistas_familias(r@), db@.familias, |f: FamiliaView| true)) by {
        assert forall|f: FamiliaView| FiltroFamilia::Todas.admite(f) == true by {}
    }
    r
}

/// The family `id`, or nothing where there is no such family.
pub fn get_familia_by_id(db: &Database, id: i32) -> (r: Option<Familia>)
    requires
        db.wf(),
    ensures
        match r {
            Some(f) => db@.buscar_familia(id) == Some(f@),
            None => db@.buscar_familia(id) is None,
        },
{
    match posicion_familia(db, id) {
        Some(i) => {
            proof {
                lema_buscar_familia(db@, id, i as int);
            }
            Some(db.familias[i].clone())
        },
        None => None,
    }
}

/// The families in whose name `query` occurs, by name.
pub fn search_familias(db: &Database, query: &str) -> (r: Vec<Familia>)
    requires
        db.wf(),
    ensures
        es_seleccion(
            vistas_familias(r@),
            db@.familias,
            |f: FamiliaView| contiene(f.nombre_familia, query@),
        ),
        por_nombre(vistas_familias(r@)),
{
    let r = listar_familias(db, FiltroFamilia::Texto(query));
    assert(es_seleccion(
        vistas_familias(r@),
        db@.familias,
        |f: FamiliaView| contiene(f.nombre_familia, query@),
    )) by {
        assert forall|f: FamiliaView| FiltroFamilia::Texto(query).admite(f) == contiene(f.nombre_familia, query@) by {}
    }
    r
}

/// Creates a family and returns the identifier it was given.  The name
/// and the address reference are stored as written.
pub fn create_familia(db: &mut Database, familia: &Familia) -> (r: Result<i32, DbError>)
    requires
        old(db).wf(),
    ensures
        final(db).wf(),
        match old(db)@.error_alta_familia(familia@) {
            Some(e) => r == Err::<i32, DbError>(e) && final(db)@ == old(db)@,
            None => r == Ok::<i32, DbError>((old(db)@.ultima_familia + 1) as i32) && final(db)@
                == old(db)@.alta_familia(familia@),
        },
{
    if nombre_en_uso(db, familia.nombre_familia.as_str(), None) {
        return Err(DbError::Almacenamiento(Restriccion::NombreFamiliaRepetido));
    }
    if db.ultima_familia == i32::MAX {
        return Err(DbError::Almacenamiento(Restriccion::SinIdentificadores));
    }
    let id: i32 = db.ultima_familia + 1;
    let fila = Familia {
        id: Some(id),
        nombre_familia: familia.nombre_familia.clone(),
        hermano_direccion_id: familia.hermano_direccion_id,
        created_at: Some(db.reloj.clone()),
        updated_at: Some(db.reloj.clone()),
    };
    db.familias.push(fila);
    db.ultima_familia = id;
    proof {
        let antes = old(db)@;
        assert(db@.familias =~= antes.familias.push(antes.fila_alta_familia(familia@)));
        assert(db@ == antes.alta_familia(familia@));
        lema_alta_familia(antes, familia@);
    }
    Ok(id)
}

/// Gives the family `id` the name and the address reference of
/// `familia`, and stamps the change.  Where there is no such family
/// nothing changes.
pub fn update_familia(db: &mut Database, id: i32, familia: &Familia) -> (r: Result<(), DbError>)
    requires
        old(db).wf(),
    ensures
        final(db).wf(),
        match old(db)@.error_cambio_familia(id, familia@) {
            Some(e) => r == Err::<(), DbError>(e) && final(db)@ == old(db)@,
            None => r is Ok && final(db)@ == old(db)@.cambio_familia(id, familia@),
        },
{
    let ghost antes = old(db)@;
    match posicion_familia(db, id) {
        None => {
            proof {
                assert(antes.cambio_familia(id, familia@).familias =~= antes.familias) by {
                    assert forall|k: int| 0 <= k < antes.familias.len() implies antes.familias[k].id
                        != Some(id) by {
                        assert(!antes.familia_en(id, k));
                    }
                }
            }
            Ok(())
        },
        Some(i) => {
            if nombre_en_uso(db, familia.nombre_familia.as_str(), Some(id)) {
                return Err(DbError::Almacenamiento(Restriccion::NombreFamiliaRepetido));
            }
            let fila = Familia {
                id: Some(id),
                nombre_familia: familia.nombre_familia.clone(),
                hermano_direccion_id: familia.hermano_direccion_id,
                created_at: copia_opcional(&db.familias[i].created_at),
                updated_at: Some(db.reloj.clone()),
            };
            db.familias.set(i, fila);
            proof {
                lema_cambio_familia(antes, id, familia@);
                assert(db@.familias =~= antes.cambio_familia(id, familia@).familias) by {
                    assert forall|k: int| 0 <= k < antes.familias.len() && k != i implies antes.familias[k].id
                        != Some(id) by {
                        if k < i {
                            assert(antes.familias[k].id != antes.familias[i as int].id);
                        } else {
                            assert(antes.familias[i as int].id != antes.familias[k].id);
                        }
                    }
                }
            }
            Ok(())
        },
    }
}

/// Whether an active member belongs to the family `id`.
fn tiene_hermanos_activos(db: &Database, id: i32) -> (r: bool)
    ensures
        r == db@.familia_con_activos(id),
{
    let n: usize = db.hermanos.len();
    let mut i: usize = 0;
    while i < n
        invariant
            n == db.hermanos@.len(),
            i <= n,
            forall|k: int| 0 <= k < i ==> !db@.activo_de_familia_en(id, k),
        decreases n - i,
    {
        if db.hermanos[i].activo && mismo_id(db.hermanos[i].familia_id, Some(id)) {
            assert(db@.activo_de_familia_en(id, i as int));
            return true;
        }
        i = i + 1;
    }
    false
}

/// Deletes the family `id`, unless an active member still belongs to it.
pub fn delete_familia(db: &mut Database, id: i32) -> (r: Result<(), DbError>)
    requires
        old(db).wf(),
    ensures
        final(db).wf(),
        match old(db)@.error_borrado_familia(id) {
            Some(e) => r == Err::<(), DbError>(e) && final(db)@ == old(db)@,
            None => r is Ok && final(db)@ == old(db)@.borrado_familia(id),
        },
{
    if tiene_hermanos_activos(db, id) {
        return Err(DbError::FamiliaConHermanosActivos);
    }
    let ghost antes = old(db)@;
    let ghost pf = |v: FamiliaView| v.id != Some(id);
    match posicion_familia(db, id) {
        Some(i) => {
            db.familias.remove(i);
            proof {
                assert forall|k: int| 0 <= k < antes.familias.len() && k != i implies pf(
                    #[trigger] antes.familias[k],
                ) by {
                    if k < i {
                        assert(antes.familias[k].id != antes.familias[i as int].id);
                    } else {
                        assert(antes.familias[i as int].id != antes.familias[k].id);
                    }
                }
                lema_filtro_quita_uno(antes.familias, pf, i as int);
                assert(db@.familias =~= antes.familias.remove(i as int));
            }
        },
        None => {
            proof {
                assert forall|k: int| 0 <= k < antes.familias.len() implies pf(
                    #[trigger] antes.familias[k],
                ) by {
                    assert(!antes.familia_en(id, k));
                }
                lema_filtro_todos(antes.familias, pf);
            }
        },
    }
    proof {
        assert(db@ == antes.borrado_familia(id));
        lema_borrado_familia(antes, id);
    }
    Ok(())
}

/// How many members the family `id` has, and how many of them are active.
pub fn get_familia_stats(db: &Database, id: i32) -> (r: (i32, i32))
    requires
        db.wf(),
    ensures
        r.0 == db@.estadisticas_familia(id).0,
        r.1 == db@.estadisticas_familia(id).1,
{
    if posicion_familia(db, id).is_none() {
        return (0, 0);
    }
    let ghost todos = |h: HermanoView| h.familia_id == Some(id);
    let ghost activos = |h: HermanoView| h.familia_id == Some(id) && h.activo;
    let ghost tabla = db@.hermanos;
    let n: usize = db.hermanos.len();
    let mut total: i32 = 0;
    let mut en_activo: i32 = 0;
    let mut i: usize = 0;
    proof {
        lema_filtro_vacio(todos);
        lema_filtro_vacio(activos);
        assert(tabla.take(0) =~= Seq::<HermanoView>::empty());
    }
    while i < n
        invariant
            db.wf(),
            tabla == db@.hermanos,
            n == db.hermanos@.len(),
            i <= n,
            todos == |h: HermanoView| h.familia_id == Some(id),
            activos == |h: HermanoView| h.familia_id == Some(id) && h.activo,
            total == tabla.take(i as int).filter(todos).len(),
            en_activo == tabla.take(i as int).filter(activos).len(),
            total <= i,
            en_activo <= i,
        decreases n - i,
    {
        proof {
            lema_filtro_paso(tabla, todos, i as int);
            lema_filtro_paso(tabla, activos, i as int);
        }
        if mismo_id(db.hermanos[i].familia_id, Some(id)) {
            total = total + 1;
            if db.hermanos[i].activo {
                en_activo = en_activo + 1;
            }
        }
        i = i + 1;
    }
    assert(tabla.take(n as int) =~= tabla);
    (total, en_activo)
}

/// The family `id` as the view that shows a family with its members
/// reads it.
pub fn get_familia_with_hermanos(db: &Database, id: i32) -> (r: Option<Familia>)
    requires
        db.wf(),
    ensures
        match r {
            Some(f) => db@.buscar_familia(id) == Some(f@),
            None => db@.buscar_familia(id) is None,
        },
{
    get_familia_by_id(db, id)
}

/// The full name of `h`.
pub fn nombre_de_hermano(h: &Hermano) -> (r: String)
    ensures
        r@ == nombre_completo(h@),
{
    let base = unir_con_espacio(h.nombre.as_str(), h.primer_apellido.as_str());
    match &h.segundo_apellido {
        Some(s) => unir_con_espacio(base.as_str(), s.as_str()),
        None => base,
    }
}

/// The family `id` with the address, telephone, e-mail and full name of
/// the member it names as its address of record.  There is no address
/// where the family names no member, where that member does not exist,
/// or where it has no address.
pub fn get_familia_with_address(db: &Database, id: i32) -> (r: Option<FamiliaConDireccion>)
    requires
        db.wf(),
    ensures
        match r {
            Some(f) => db@.familia_con_direccion(id) == Some(f@),
            None => db@.familia_con_direccion(id) is None,
        },
{
    let i: usize = match posicion_familia(db, id) {
        Some(i) => i,
        None => {
            return None;
        },
    };
    proof {
        lema_buscar_familia(db@, id, i as int);
    }
    let familia = &db.familias[i];
    let direccion_principal: Option<DireccionPrincipal> = match familia.hermano_direccion_id {
        Some(m) => match posicion_hermano(db, m) {
            Some(k) => {
                proof {
                    lema_buscar_hermano(db@, m, k as int);
                }
                let h = &db.hermanos[k];
                match &h.direccion {
                    Some(d) => Some(
                        DireccionPrincipal {
                            direccion: d.clone(),
                            telefono: copia_opcional(&h.telefono),
                            email: copia_opcional(&h.email),
                            nombre_hermano: nombre_de_hermano(h),
                        },
                    ),
                    None => None,
                }
            },
            None => None,
        },
        None => None,
    };
    Some(
        FamiliaConDireccion {
            id: id,
            nombre_familia: familia.nombre_familia.clone(),
            hermano_direccion_id: familia.hermano_direccion_id,
            direccion_principal: direccion_principal,
        },
    )
}

} // verus!
