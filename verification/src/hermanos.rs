//! Members: listing, search, registration, change and removal.

use crate::base::{vistas_cuotas, vistas_hermanos, Database};
use crate::conservacion::{
    lema_alta_hermano, lema_baja_hermano, lema_borrado_hermano, lema_buscar_hermano,
    lema_cambio_hermano, lema_traslado_hermano,
};
use crate::error::{DbError, Restriccion};
use crate::estado::{coincide_hermano, por_numero};
use crate::modelo::{copia_opcional, normalizar_hermano, Cuota, CuotaView, Hermano, HermanoView};
use crate::secuencias::{
    es_seleccion, lema_filtro_paso, lema_filtro_quita_uno, lema_filtro_todos, lema_filtro_vacio,
    lema_seleccion_con, lema_seleccion_sin,
};
use crate::texto::{
    formatear_numero, lema_precede_total, lema_precede_transitiva, numero_valido, precede,
    texto_contiene, texto_igual, texto_precede,
};
use vstd::prelude::*;

verus! {

pub(crate) fn mismo_id(a: Option<i32>, b: Option<i32>) -> (r: bool)
    ensures
        r == (a == b),
{
    match (a, b) {
        (Some(x), Some(y)) => x == y,
        (None, None) => true,
        _ => false,
    }
}

/// Where in the table the member `id` stands.
pub(crate) fn posicion_hermano(db: &Database, id: i32) -> (r: Option<usize>)
    ensures
        match r {
            Some(i) => db@.hermano_en(id, i as int),
            None => !db@.tiene_hermano(id),
        },
{
    let n: usize = db.hermanos.len();
    let mut i: usize = 0;
    while i < n
        invariant
            n == db.hermanos@.len(),
            i <= n,
            forall|k: int| 0 <= k < i ==> !db@.hermano_en(id, k),
        decreases n - i,
    {
        if mismo_id(db.hermanos[i].id, Some(id)) {
            return Some(i);
        }
        i = i + 1;
    }
    None
}

/// Whether a member other than `salvo` already carries `numero`.
fn numero_en_uso(db: &Database, numero: &str, salvo: Option<i32>) -> (r: bool)
    ensures
        r == db@.numero_ocupado(numero@, salvo),
{
    let n: usize = db.hermanos.len();
    let mut i: usize = 0;
    while i < n
        invariant
            n == db.hermanos@.len(),
            i <= n,
            forall|k: int| 0 <= k < i ==> !(db@.numero_en(numero@, k) && db@.hermanos[k].id != salvo),
        decreases n - i,
    {
        if texto_igual(db.hermanos[i].numero_hermano.as_str(), numero) && !mismo_id(
            db.hermanos[i].id,
            salvo,
        ) {
            assert(db@.numero_en(numero@, i as int));
            return true;
        }
        i = i + 1;
    }
    false
}

/// Which members a listing shows.
enum FiltroHermano<'a> {
    Todos,
    Activos,
    Texto(&'a str),
    Familia(i32),
}

impl<'a> FiltroHermano<'a> {
    spec fn admite(self, h: HermanoView) -> bool {
        match self {
            FiltroHermano::Todos => true,
            FiltroHermano::Activos => h.activo,
            FiltroHermano::Texto(q) => coincide_hermano(h, q@),
            FiltroHermano::Familia(f) => h.familia_id == Some(f),
        }
    }

    fn pasa(&self, h: &Hermano) -> (r: bool)
        ensures
            r == self.admite(h@),
    {
        match self {
            FiltroHermano::Todos => true,
            FiltroHermano::Activos => h.activo,
            FiltroHermano::Texto(q) => {
                texto_contiene(h.nombre.as_str(), q) || texto_contiene(h.primer_apellido.as_str(), q)
                    || (match &h.segundo_apellido {
                    Some(s) => texto_contiene(s.as_str(), q),
                    None => false,
                }) || texto_contiene(h.numero_hermano.as_str(), q) || (match &h.dni {
                    Some(s) => texto_contiene(s.as_str(), q),
                    None => false,
                })
            },
            FiltroHermano::Familia(f) => mismo_id(h.familia_id, Some(*f)),
        }
    }
}

/// Puts `h` into `res` at the place its member number gives it.
fn insertar_por_numero(res: &mut Vec<Hermano>, h: Hermano)
    requires
        por_numero(vistas_hermanos(old(res)@)),
        forall|k: int|
            0 <= k < old(res)@.len() ==> (#[trigger] old(res)@[k])@.numero_hermano
                != h@.numero_hermano,
    ensures
        por_numero(vistas_hermanos(final(res)@)),
        exists|p: int| 0 <= p <= old(res)@.len() && final(res)@ == old(res)@.insert(p, h),
{
    let n: usize = res.len();
    let mut p: usize = 0;
    while p < n && texto_precede(res[p].numero_hermano.as_str(), h.numero_hermano.as_str())
        invariant
            n == res@.len(),
            p <= n,
            res@ == old(res)@,
            forall|k: int|
                0 <= k < p ==> precede((#[trigger] res@[k])@.numero_hermano, h@.numero_hermano),
        decreases n - p,
    {
        p = p + 1;
    }
    proof {
        let antes = vistas_hermanos(res@);
        assert forall|k: int| p <= k < n implies precede(
            h@.numero_hermano,
            (#[trigger] res@[k])@.numero_hermano,
        ) by {
            lema_precede_total(res@[p as int]@.numero_hermano, h@.numero_hermano);
            if k > p {
                assert(precede(antes[p as int].numero_hermano, antes[k].numero_hermano));
                lema_precede_transitiva(
                    h@.numero_hermano,
                    res@[p as int]@.numero_hermano,
                    res@[k]@.numero_hermano,
                );
            }
        }
    }
    let ghost antes = res@;
    let ghost nueva = h@;
    res.insert(p, h);
    proof {
        let va = vistas_hermanos(antes);
        let vd = vistas_hermanos(res@);
        assert(vd =~= va.insert(p as int, nueva));
        assert forall|a: int, b: int| 0 <= a < b < vd.len() implies precede(
            (#[trigger] vd[a]).numero_hermano,
            (#[trigger] vd[b]).numero_hermano,
        ) by {
            if b < p {
                assert(precede(va[a].numero_hermano, va[b].numero_hermano));
            } else if b == p {
                assert(precede(antes[a]@.numero_hermano, nueva.numero_hermano));
            } else if a < p {
                assert(precede(va[a].numero_hermano, va[b - 1].numero_hermano));
            } else if a == p {
                assert(precede(nueva.numero_hermano, antes[b - 1]@.numero_hermano));
            } else {
                assert(precede(va[a - 1].numero_hermano, va[b - 1].numero_hermano));
            }
        }
    }
}

/// The members that `filtro` admits, by member number.
fn listar_hermanos(db: &Database, filtro: FiltroHermano) -> (r: Vec<Hermano>)
    requires
        db.wf(),
    ensures
        es_seleccion(vistas_hermanos(r@), db@.hermanos, |h: HermanoView| filtro.admite(h)),
        por_numero(vistas_hermanos(r@)),
{
    let ghost f = |h: HermanoView| filtro.admite(h);
    let mut res: Vec<Hermano> = Vec::new();
    let n: usize = db.hermanos.len();
    let mut i: usize = 0;
    while i < n
        invariant
            db.wf(),
            n == db.hermanos@.len(),
            i <= n,
            f == |h: HermanoView| filtro.admite(h),
            es_seleccion(vistas_hermanos(res@), db@.hermanos.take(i as int), f),
            por_numero(vistas_hermanos(res@)),
        decreases n - i,
    {
        let ghost antes = vistas_hermanos(res@);
        let ghost tabla = db@.hermanos;
        if filtro.pasa(&db.hermanos[i]) {
            let fila = db.hermanos[i].clone();
            proof {
                assert forall|k: int| 0 <= k < res@.len() implies (#[trigger] res@[k])@.numero_hermano
                    != fila@.numero_hermano by {
                    assert(tabla.take(i as int).contains(antes[k]));
                    let q = choose|q: int| 0 <= q < i && tabla.take(i as int)[q] == antes[k];
                    assert(tabla[q].numero_hermano != tabla[i as int].numero_hermano);
                }
            }
            let ghost previo = res@;
            insertar_por_numero(&mut res, fila);
            proof {
                let p = choose|p: int| 0 <= p <= previo.len() && res@ == previo.insert(p, fila);
                assert(vistas_hermanos(res@) =~= antes.insert(p, fila@));
                lema_seleccion_con(antes, tabla, f, i as int, p);
            }
        } else {
            proof {
                lema_seleccion_sin(antes, tabla, f, i as int);
            }
        }
        i = i + 1;
    }
    assert(db@.hermanos.take(n as int) =~= db@.hermanos);
    res
}

/// Every member, by member number.
pub fn get_all_hermanos(db: &Database) -> (r: Vec<Hermano>)
    requires
        db.wf(),
    ensures
        es_seleccion(vistas_hermanos(r@), db@.hermanos, |h: HermanoView| true),
        por_numero(vistas_hermanos(r@)),
{
    let r = listar_hermanos(db, FiltroHermano::Todos);
    assert(es_seleccion(vistas_hermanos(r@), db@.hermanos, |h: HermanoView| true)) by {
        assert forall|h: HermanoView| FiltroHermano::Todos.admite(h) == true by {}
    }
    r
}

/// The active members, by member number.
pub fn get_hermanos_activos(db: &Database) -> (r: Vec<Hermano>)
    requires
        db.wf(),
    ensures
        es_seleccion(vistas_hermanos(r@), db@.hermanos, |h: HermanoView| h.activo),
        por_numero(vistas_hermanos(r@)),
{
    let r = listar_hermanos(db, FiltroHermano::Activos);
    assert(es_seleccion(vistas_hermanos(r@), db@.hermanos, |h: HermanoView| h.activo)) by {
        assert forall|h: HermanoView| FiltroHermano::Activos.admite(h) == h.activo by {}
    }
    r
}

/// The members in whose name, surnames, member number or national id
/// `query` occurs, by member number.
pub fn search_hermanos(db: &Database, query: &str) -> (r: Vec<Hermano>)
    requires
        db.wf(),
    ensures
        es_seleccion(
            vistas_hermanos(r@),
            db@.hermanos,
            |h: HermanoView| coincide_hermano(h, query@),
        ),
        por_numero(vistas_hermanos(r@)),
{
    let r = listar_hermanos(db, FiltroHermano::Texto(query));
    assert(es_seleccion(
        vistas_hermanos(r@),
        db@.hermanos,
        |h: HermanoView| coincide_hermano(h, query@),
    )) by {
        assert forall|h: HermanoView| FiltroHermano::Texto(query).admite(h) == coincide_hermano(h, query@) by {}
    }
    r
}

/// The members of the family `familia_id`, by member number.
pub fn get_hermanos_by_familia(db: &Database, familia_id: i32) -> (r: Vec<Hermano>)
    requires
        db.wf(),
    ensures
        es_seleccion(
            vistas_hermanos(r@),
            db@.hermanos,
            |h: HermanoView| h.familia_id == Some(familia_id),
        ),
        por_numero(vistas_hermanos(r@)),
{
    let r = listar_hermanos(db, FiltroHermano::Familia(familia_id));
    assert(es_seleccion(
        vistas_hermanos(r@),
        db@.hermanos,
        |h: HermanoView| h.familia_id == Some(familia_id),
    )) by {
        assert forall|h: HermanoView| FiltroHermano::Familia(familia_id).admite(h) == (h.familia_id == Some(familia_id)) by {}
    }
    r
}

/// The member `id`, or nothing where there is no such member.
pub fn get_hermano_by_id(db: &Database, id: i32) -> (r: Option<Hermano>)
    requires
        db.wf(),
    ensures
        match r {
            Some(h) => db@.buscar_hermano(id) == Some(h@),
            None => db@.buscar_hermano(id) is None,
        },
{
    match posicion_hermano(db, id) {
        Some(i) => {
            proof {
                lema_buscar_hermano(db@, id, i as int);
            }
            Some(db.hermanos[i].clone())
        },
        None => None,
    }
}

/// Registers a member and returns the identifier it was given.
///
/// The member must have a name and a first surname.  Optional texts that
/// are blank are stored as absent.  A member number left empty is filled
/// in from the count of members; one that is given must be exactly five
/// digits and is stored as written.  The registry assigns the identifier
/// and both time stamps.
pub fn create_hermano(db: &mut Database, hermano: &Hermano) -> (r: Result<i32, DbError>)
    requires
        old(db).wf(),
    ensures
        final(db).wf(),
        match old(db)@.error_alta_hermano(hermano@) {
            Some(e) => r == Err::<i32, DbError>(e) && final(db)@ == old(db)@,
            None => r == Ok::<i32, DbError>((old(db)@.ultimo_hermano + 1) as i32) && final(db)@
                == old(db)@.alta_hermano(hermano@),
        },
{
    if hermano.nombre.as_str().is_empty() || hermano.primer_apellido.as_str().is_empty() {
        return Err(DbError::NombreObligatorio);
    }
    let numero: String = if hermano.numero_hermano.as_str().is_empty() {
        let cuenta: usize = db.hermanos.len();
        formatear_numero((cuenta + 1) as u32)
    } else {
        if !numero_valido(hermano.numero_hermano.as_str()) {
            return Err(DbError::NumeroHermanoInvalido);
        }
        hermano.numero_hermano.clone()
    };
    if numero_en_uso(db, numero.as_str(), None) {
        return Err(DbError::Almacenamiento(Restriccion::NumeroHermanoRepetido));
    }
    if db.ultimo_hermano == i32::MAX {
        return Err(DbError::Almacenamiento(Restriccion::SinIdentificadores));
    }
    let id: i32 = db.ultimo_hermano + 1;
    let mut fila = normalizar_hermano(hermano);
    fila.id = Some(id);
    fila.numero_hermano = numero;
    fila.created_at = Some(db.reloj.clone());
    fila.updated_at = Some(db.reloj.clone());
    db.hermanos.push(fila);
    db.ultimo_hermano = id;
    proof {
        let antes = old(db)@;
        assert(db@.hermanos =~= antes.hermanos.push(antes.fila_alta_hermano(hermano@)));
        assert(db@ == antes.alta_hermano(hermano@));
        lema_alta_hermano(antes, hermano@);
    }
    Ok(id)
}

/// Rewrites the member `id` with the fields of `hermano`, blank optional
/// texts taken for absent, and stamps the change.  The member must have
/// a name and a first surname.  The member number is stored as written.
/// Where there is no such member nothing changes.
pub fn update_hermano(db: &mut Database, id: i32, hermano: &Hermano) -> (r: Result<(), DbError>)
    requires
        old(db).wf(),
    ensures
        final(db).wf(),
        match old(db)@.error_cambio_hermano(id, hermano@) {
            Some(e) => r == Err::<(), DbError>(e) && final(db)@ == old(db)@,
            None => r is Ok && final(db)@ == old(db)@.cambio_hermano(id, hermano@),
        },
{
    if hermano.nombre.as_str().is_empty() || hermano.primer_apellido.as_str().is_empty() {
        return Err(DbError::NombreObligatorio);
    }
    match posicion_hermano(db, id) {
        None => {
            proof {
                assert(old(db)@.cambio_hermano(id, hermano@).hermanos =~= old(db)@.hermanos) by {
                    assert forall|k: int| 0 <= k < old(db)@.hermanos.len() implies old(
                        db,
                    )@.hermanos[k].id != Some(id) by {
                        assert(!old(db)@.hermano_en(id, k));
                    }
                }
            }
            Ok(())
        },
        Some(i) => {
            if numero_en_uso(db, hermano.numero_hermano.as_str(), Some(id)) {
                return Err(DbError::Almacenamiento(Restriccion::NumeroHermanoRepetido));
            }
            let mut fila = normalizar_hermano(hermano);
            fila.id = Some(id);
            fila.created_at = copia_opcional(&db.hermanos[i].created_at);
            fila.updated_at = Some(db.reloj.clone());
            db.hermanos.set(i, fila);
            proof {
                let antes = old(db)@;
                lema_cambio_hermano(antes, id, hermano@);
                assert(db@.hermanos =~= antes.cambio_hermano(id, hermano@).hermanos) by {
                    assert forall|k: int| 0 <= k < antes.hermanos.len() && k != i implies antes.hermanos[k].id
                        != Some(id) by {
                        if k < i {
                            assert(antes.hermanos[k].id != antes.hermanos[i as int].id);
                        } else {
                            assert(antes.hermanos[i as int].id != antes.hermanos[k].id);
                        }
                    }
                }
            }
            Ok(())
        },
    }
}

/// Deletes the member `id` and, with it, every due of that member.
pub fn delete_hermano(db: &mut Database, id: i32)
    requires
        old(db).wf(),
    ensures
        final(db).wf(),
        final(db)@ == old(db)@.borrado_hermano(id),
{
    let ghost antes = old(db)@;
    let ghost ph = |v: HermanoView| v.id != Some(id);
    match posicion_hermano(db, id) {
        Some(i) => {
            db.hermanos.remove(i);
            proof {
                assert forall|k: int| 0 <= k < antes.hermanos.len() && k != i implies ph(
                    #[trigger] antes.hermanos[k],
                ) by {
                    if k < i {
                        assert(antes.hermanos[k].id != antes.hermanos[i as int].id);
                    } else {
                        assert(antes.hermanos[i as int].id != antes.hermanos[k].id);
                    }
                }
                lema_filtro_quita_uno(antes.hermanos, ph, i as int);
                assert(db@.hermanos =~= antes.hermanos.remove(i as int));
            }
        },
        None => {
            proof {
                assert forall|k: int| 0 <= k < antes.hermanos.len() implies ph(
                    #[trigger] antes.hermanos[k],
                ) by {
                    assert(!antes.hermano_en(id, k));
                }
                lema_filtro_todos(antes.hermanos, ph);
            }
        },
    }
    quitar_cuotas_de(&mut db.cuotas, id);
    proof {
        assert(db@ == antes.borrado_hermano(id));
        lema_borrado_hermano(antes, id);
    }
}

/// Removes from `cuotas` the dues of the member `hermano_id`.
fn quitar_cuotas_de(cuotas: &mut Vec<Cuota>, hermano_id: i32)
    ensures
        vistas_cuotas(final(cuotas)@) == vistas_cuotas(old(cuotas)@).filter(
            |c: CuotaView| c.hermano_id != hermano_id,
        ),
{
    let ghost orig = vistas_cuotas(old(cuotas)@);
    let ghost p = |c: CuotaView| c.hermano_id != hermano_id;
    let ghost mut j: int = 0;
    let mut i: usize = 0;
    proof {
        lema_filtro_vacio(p);
        assert(orig.take(0) =~= Seq::<CuotaView>::empty());
        assert(orig.skip(0) =~= orig);
    }
    while i < cuotas.len()
        invariant
            orig == vistas_cuotas(old(cuotas)@),
            p == |c: CuotaView| c.hermano_id != hermano_id,
            0 <= j <= orig.len(),
            i == orig.take(j).filter(p).len(),
            vistas_cuotas(cuotas@) == orig.take(j).filter(p) + orig.skip(j),
        decreases orig.len() - j,
    {
        let ghost ahora = vistas_cuotas(cuotas@);
        proof {
            assert(ahora[i as int] == orig.skip(j)[0]);
            lema_filtro_paso(orig, p, j);
        }
        if cuotas[i].hermano_id == hermano_id {
            cuotas.remove(i);
            proof {
                assert(!p(orig[j]));
                assert(vistas_cuotas(cuotas@) =~= ahora.remove(i as int));
                assert(orig.skip(j) =~= seq![orig[j]] + orig.skip(j + 1));
                assert(ahora.remove(i as int) =~= orig.take(j).filter(p) + orig.skip(j + 1));
                assert(vistas_cuotas(cuotas@) =~= orig.take(j + 1).filter(p) + orig.skip(
                    j + 1,
                ));
            }
        } else {
            i = i + 1;
            proof {
                assert(p(orig[j]));
                assert(orig.skip(j) =~= seq![orig[j]] + orig.skip(j + 1));
                assert(vistas_cuotas(cuotas@) =~= orig.take(j + 1).filter(p) + orig.skip(
                    j + 1,
                ));
            }
        }
        proof {
            j = j + 1;
        }
    }
    proof {
        assert(j == orig.len());
        assert(orig.take(j) =~= orig);
        assert(vistas_cuotas(cuotas@) =~= orig.filter(p));
    }
}

/// Sets the member `id` inactive and stamps the change.
pub fn set_hermano_inactive(db: &mut Database, id: i32)
    requires
        old(db).wf(),
    ensures
        final(db).wf(),
        final(db)@ == old(db)@.baja_hermano(id),
{
    let ghost antes = old(db)@;
    match posicion_hermano(db, id) {
        None => {
            proof {
                assert(antes.baja_hermano(id).hermanos =~= antes.hermanos) by {
                    assert forall|k: int| 0 <= k < antes.hermanos.len() implies antes.hermanos[k].id
                        != Some(id) by {
                        assert(!antes.hermano_en(id, k));
                    }
                }
            }
        },
        Some(i) => {
            let mut fila = db.hermanos[i].clone();
            fila.activo = false;
            fila.updated_at = Some(db.reloj.clone());
            db.hermanos.set(i, fila);
            proof {
                assert(db@.hermanos =~= antes.baja_hermano(id).hermanos) by {
                    assert forall|k: int| 0 <= k < antes.hermanos.len() && k != i implies antes.hermanos[k].id
                        != Some(id) by {
                        if k < i {
                            assert(antes.hermanos[k].id != antes.hermanos[i as int].id);
                        } else {
                            assert(antes.hermanos[i as int].id != antes.hermanos[k].id);
                        }
                    }
                }
            }
        },
    }
    proof {
        lema_baja_hermano(antes, id);
    }
}

/// Moves the member `hermano_id` to the family `familia_id`, or to none,
/// and stamps the change.
pub fn update_hermano_familia(db: &mut Database, hermano_id: i32, familia_id: Option<i32>)
    requires
        old(db).wf(),
    ensures
        final(db).wf(),
        final(db)@ == old(db)@.traslado_hermano(hermano_id, familia_id),
{
    let ghost antes = old(db)@;
    match posicion_hermano(db, hermano_id) {
        None => {
            proof {
                assert(antes.traslado_hermano(hermano_id, familia_id).hermanos =~= antes.hermanos) by {
                    assert forall|k: int| 0 <= k < antes.hermanos.len() implies antes.hermanos[k].id
                        != Some(hermano_id) by {
                        assert(!antes.hermano_en(hermano_id, k));
                    }
                }
            }
        },
        Some(i) => {
            let mut fila = db.hermanos[i].clone();
            fila.familia_id = familia_id;
            fila.updated_at = Some(db.reloj.clone());
            db.hermanos.set(i, fila);
            proof {
                assert(db@.hermanos =~= antes.traslado_hermano(hermano_id, familia_id).hermanos) by {
                    assert forall|k: int| 0 <= k < antes.hermanos.len() && k != i implies antes.hermanos[k].id
                        != Some(hermano_id) by {
                        if k < i {
                            assert(antes.hermanos[k].id != antes.hermanos[i as int].id);
                        } else {
                            assert(antes.hermanos[i as int].id != antes.hermanos[k].id);
                        }
                    }
                }
            }
        },
    }
    proof {
        lema_traslado_hermano(antes, hermano_id, familia_id);
    }
}

} // verus!
