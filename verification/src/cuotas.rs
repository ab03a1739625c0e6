//! Dues: listing, creation, change, payment, removal, generation for a
//! quarter and statistics.

use crate::base::{vistas_cuotas, Database};
use crate::conservacion::{
    lema_alta_cuota, lema_borrado_cuota, lema_cambio_cuota, lema_generacion, lema_pago_cuota,
};
use crate::error::{DbError, Restriccion};
use crate::estado::{
    cuota_antes, en_ambito, en_orden, mismo_periodo, suma_importes, DatabaseView, OrdenCuotas,
};
use crate::hermanos::{mismo_id, posicion_hermano};
use crate::modelo::{copia_opcional, Cuota, CuotaView, EstadisticasCuotas, HermanoView};
use crate::secuencias::{
    es_seleccion, lema_filtro_paso, lema_filtro_quita_uno, lema_filtro_todos, lema_filtro_vacio,
    lema_seleccion_con, lema_seleccion_sin,
};
use vstd::prelude::*;

verus! {

/// Where in the table the due `id` stands.
fn posicion_cuota(db: &Database, id: i32) -> (r: Option<usize>)
    ensures
        match r {
            Some(i) => db@.cuota_en(id, i as int),
            None => !db@.tiene_cuota(id),
        },
{
    let n: usize = db.cuotas.len();
    let mut i: usize = 0;
    while i < n
        invariant
            n == db.cuotas@.len(),
            i <= n,
            forall|k: int| 0 <= k < i ==> !db@.cuota_en(id, k),
        decreases n - i,
    {
        if mismo_id(db.cuotas[i].id, Some(id)) {
            return Some(i);
        }
        i = i + 1;
    }
    None
}

/// Whether a due other than `salvo` is already that of the member for
/// the year and quarter.
fn periodo_en_uso(db: &Database, hermano_id: i32, anio: i32, trimestre: i32, salvo: Option<i32>) -> (r:
    bool)
    ensures
        r == db@.periodo_ocupado(hermano_id, anio, trimestre, salvo),
{
    let n: usize = db.cuotas.len();
    let mut i: usize = 0;
    while i < n
        invariant
            n == db.cuotas@.len(),
            i <= n,
            forall|k: int|
                0 <= k < i ==> !(db@.periodo_en(hermano_id, anio, trimestre, k) && db@.cuotas[k].id
                    != salvo),
        decreases n - i,
    {
        let c = &db.cuotas[i];
        if c.hermano_id == hermano_id && c.anio == anio && c.trimestre == trimestre && !mismo_id(
            c.id,
            salvo,
        ) {
            assert(db@.periodo_en(hermano_id, anio, trimestre, i as int));
            return true;
        }
        i = i + 1;
    }
    false
}

/// The rule of the table of dues that `cuota` would break, if any.
fn comprobar_cuota(db: &Database, cuota: &Cuota, salvo: Option<i32>) -> (r: Option<DbError>)
    ensures
        r == db@.cuota_rechazada(cuota@, salvo),
{
    if cuota.trimestre < 1 || cuota.trimestre > 4 {
        return Some(DbError::Almacenamiento(Restriccion::TrimestreFueraDeRango));
    }
    if posicion_hermano(db, cuota.hermano_id).is_none() {
        return Some(DbError::Almacenamiento(Restriccion::HermanoInexistente));
    }
    if periodo_en_uso(db, cuota.hermano_id, cuota.anio, cuota.trimestre, salvo) {
        return Some(DbError::Almacenamiento(Restriccion::CuotaRepetida));
    }
    None
}

/// Which dues a listing shows.
enum FiltroCuota {
    Todas,
    DeHermano(i32),
    DeAnio(i32),
    Pendientes,
}

impl FiltroCuota {
    spec fn admite(self, c: CuotaView) -> bool {
        match self {
            FiltroCuota::Todas => true,
            FiltroCuota::DeHermano(m) => c.hermano_id == m,
            FiltroCuota::DeAnio(a) => c.anio == a,
            FiltroCuota::Pendientes => !c.pagado,
        }
    }

    fn pasa(&self, c: &Cuota) -> (r: bool)
        ensures
            r == self.admite(c@),
    {
        match self {
            FiltroCuota::Todas => true,
            FiltroCuota::DeHermano(m) => c.hermano_id == *m,
            FiltroCuota::DeAnio(a) => c.anio == *a,
            FiltroCuota::Pendientes => !c.pagado,
        }
    }
}

/// Whether `a` is listed before `b` in the order `o`.
fn va_antes(o: OrdenCuotas, a: &Cuota, b: &Cuota) -> (r: bool)
    ensures
        r == cuota_antes(o, a@, b@),
{
    match o {
        OrdenCuotas::Recientes => a.anio > b.anio || (a.anio == b.anio && (a.trimestre > b.trimestre
            || (a.trimestre == b.trimestre && a.hermano_id < b.hermano_id))),
        OrdenCuotas::PorTrimestre => a.trimestre < b.trimestre || (a.trimestre == b.trimestre
            && a.hermano_id < b.hermano_id),
        OrdenCuotas::Antiguas => a.anio < b.anio || (a.anio == b.anio && (a.trimestre < b.trimestre
            || (a.trimestre == b.trimestre && a.hermano_id < b.hermano_id))),
    }
}

/// Puts `c` into `res` at the place the order `o` gives it.
fn insertar_cuota(res: &mut Vec<Cuota>, c: Cuota, o: OrdenCuotas)
    requires
        en_orden(o, vistas_cuotas(old(res)@)),
        forall|k: int|
            0 <= k < old(res)@.len() ==> cuota_antes(o, (#[trigger] old(res)@[k])@, c@)
                || cuota_antes(o, c@, old(res)@[k]@),
    ensures
        en_orden(o, vistas_cuotas(final(res)@)),
        exists|p: int| 0 <= p <= old(res)@.len() && final(res)@ == old(res)@.insert(p, c),
{
    let n: usize = res.len();
    let mut p: usize = 0;
    while p < n && va_antes(o, &res[p], &c)
        invariant
            n == res@.len(),
            p <= n,
            res@ == old(res)@,
            forall|k: int| 0 <= k < p ==> cuota_antes(o, (#[trigger] res@[k])@, c@),
        decreases n - p,
    {
        p = p + 1;
    }
    let ghost antes = res@;
    let ghost nueva = c@;
    proof {
        let va = vistas_cuotas(antes);
        assert forall|k: int| p <= k < n implies cuota_antes(o, nueva, (#[trigger] antes[k])@) by {
            assert(cuota_antes(o, nueva, antes[p as int]@));
            if k > p {
                assert(cuota_antes(o, va[p as int], va[k]));
            }
        }
    }
    res.insert(p, c);
    proof {
        let va = vistas_cuotas(antes);
        let vd = vistas_cuotas(res@);
        assert(vd =~= va.insert(p as int, nueva));
        assert forall|a: int, b: int| 0 <= a < b < vd.len() implies cuota_antes(
            o,
            #[trigger] vd[a],
            #[trigger] vd[b],
        ) by {
            if b < p {
                assert(cuota_antes(o, va[a], va[b]));
            } else if b == p {
                assert(cuota_antes(o, antes[a]@, nueva));
            } else if a < p {
                assert(cuota_antes(o, va[a], va[b - 1]));
            } else if a == p {
                assert(cuota_antes(o, nueva, antes[b - 1]@));
            } else {
                assert(cuota_antes(o, va[a - 1], va[b - 1]));
            }
        }
    }
}

/// The dues that `filtro` admits, in the order `orden`.
fn listar_cuotas(db: &Database, filtro: FiltroCuota, orden: OrdenCuotas) -> (r: Vec<Cuota>)
    requires
        db.wf(),
        orden == OrdenCuotas::PorTrimestre ==> filtro is DeAnio,
    ensures
        es_seleccion(vistas_cuotas(r@), db@.cuotas, |c: CuotaView| filtro.admite(c)),
        en_orden(orden, vistas_cuotas(r@)),
{
    let ghost f = |c: CuotaView| filtro.admite(c);
    let mut res: Vec<Cuota> = Vec::new();
    let n: usize = db.cuotas.len();
    let mut i: usize = 0;
    while i < n
        invariant
            db.wf(),
            n == db.cuotas@.len(),
            i <= n,
            f == |c: CuotaView| filtro.admite(c),
            es_seleccion(vistas_cuotas(res@), db@.cuotas.take(i as int), f),
            en_orden(orden, vistas_cuotas(res@)),
            orden == OrdenCuotas::PorTrimestre ==> filtro is DeAnio,
        decreases n - i,
    {
        let ghost antes = vistas_cuotas(res@);
        let ghost tabla = db@.cuotas;
        if filtro.pasa(&db.cuotas[i]) {
            let fila = db.cuotas[i].clone();
            proof {
                assert forall|k: int| 0 <= k < res@.len() implies cuota_antes(
                    orden,
                    (#[trigger] res@[k])@,
                    fila@,
                ) || cuota_antes(orden, fila@, res@[k]@) by {
                    assert(tabla.take(i as int).contains(antes[k]));
                    let q = choose|q: int| 0 <= q < i && tabla.take(i as int)[q] == antes[k];
                    assert(!mismo_periodo(tabla[q], tabla[i as int]));
                    assert(f(antes[k]));
                }
            }
            let ghost previo = res@;
            insertar_cuota(&mut res, fila, orden);
            proof {
                let p = choose|p: int| 0 <= p <= previo.len() && res@ == previo.insert(p, fila);
                assert(vistas_cuotas(res@) =~= antes.insert(p, fila@));
                lema_seleccion_con(antes, tabla, f, i as int, p);
            }
        } else {
            proof {
                lema_seleccion_sin(antes, tabla, f, i as int);
            }
        }
        i = i + 1;
    }
    assert(db@.cuotas.take(n as int) =~= db@.cuotas);
    res
}

/// Every due: latest year first, then latest quarter, then by member.
pub fn get_all_cuotas(db: &Database) -> (r: Vec<Cuota>)
    requires
        db.wf(),
    ensures
        es_seleccion(vistas_cuotas(r@), db@.cuotas, |c: CuotaView| true),
        en_orden(OrdenCuotas::Recientes, vistas_cuotas(r@)),
{
    let r = listar_cuotas(db, FiltroCuota::Todas, OrdenCuotas::Recientes);
    assert(es_seleccion(vistas_cuotas(r@), db@.cuotas, |c: CuotaView| true)) by {
        assert forall|c: CuotaView| FiltroCuota::Todas.admite(c) == true by {}
    }
    r
}

/// The dues of the member `hermano_id`, latest first.
pub fn get_cuotas_by_hermano(db: &Database, hermano_id: i32) -> (r: Vec<Cuota>)
    requires
        db.wf(),
    ensures
        es_seleccion(vistas_cuotas(r@), db@.cuotas, |c: CuotaView| c.hermano_id == hermano_id),
        en_orden(OrdenCuotas::Recientes, vistas_cuotas(r@)),
{
    let r = listar_cuotas(db, FiltroCuota::DeHermano(hermano_id), OrdenCuotas::Recientes);
    assert(es_seleccion(vistas_cuotas(r@), db@.cuotas, |c: CuotaView| c.hermano_id == hermano_id)) by {
        assert forall|c: CuotaView| FiltroCuota::DeHermano(hermano_id).admite(c) == (c.hermano_id == hermano_id) by {}
    }
    r
}

/// The dues of the year `anio`, by quarter and then by member.
pub fn get_cuotas_by_year(db: &Database, anio: i32) -> (r: Vec<Cuota>)
    requires
        db.wf(),
    ensures
        es_seleccion(vistas_cuotas(r@), db@.cuotas, |c: CuotaView| c.anio == anio),
        en_orden(OrdenCuotas::PorTrimestre, vistas_cuotas(r@)),
{
    let r = listar_cuotas(db, FiltroCuota::DeAnio(anio), OrdenCuotas::PorTrimestre);
    assert(es_seleccion(vistas_cuotas(r@), db@.cuotas, |c: CuotaView| c.anio == anio)) by {
        assert forall|c: CuotaView| FiltroCuota::DeAnio(anio).admite(c) == (c.anio == anio) by {}
    }
    r
}

/// The unpaid dues: earliest year first, then earliest quarter, then by
/// member.
pub fn get_cuotas_pendientes(db: &Database) -> (r: Vec<Cuota>)
    requires
        db.wf(),
    ensures
        es_seleccion(vistas_cuotas(r@), db@.cuotas, |c: CuotaView| !c.pagado),
        en_orden(OrdenCuotas::Antiguas, vistas_cuotas(r@)),
{
    let r = listar_cuotas(db, FiltroCuota::Pendientes, OrdenCuotas::Antiguas);
    assert(es_seleccion(vistas_cuotas(r@), db@.cuotas, |c: CuotaView| !c.pagado)) by {
        assert forall|c: CuotaView| FiltroCuota::Pendientes.admite(c) == !c.pagado by {}
    }
    r
}

/// Creates a due and returns the identifier it was given.  The fields
/// are stored as written; the registry assigns the identifier and both
/// time stamps.
pub fn create_cuota(db: &mut Database, cuota: &Cuota) -> (r: Result<i32, DbError>)
    requires
        old(db).wf(),
    ensures
        final(db).wf(),
        match old(db)@.error_alta_cuota(cuota@) {
            Some(e) => r == Err::<i32, DbError>(e) && final(db)@ == old(db)@,
            None => r == Ok::<i32, DbError>((old(db)@.ultima_cuota + 1) as i32) && final(db)@
                == old(db)@.alta_cuota(cuota@),
        },
{
    match comprobar_cuota(db, cuota, None) {
        Some(e) => {
            return Err(e);
        },
        None => {},
    }
    if db.ultima_cuota == i32::MAX {
        return Err(DbError::Almacenamiento(Restriccion::SinIdentificadores));
    }
    let id: i32 = db.ultima_cuota + 1;
    let mut fila = cuota.clone();
    fila.id = Some(id);
    fila.created_at = Some(db.reloj.clone());
    fila.updated_at = Some(db.reloj.clone());
    db.cuotas.push(fila);
    db.ultima_cuota = id;
    proof {
        let antes = old(db)@;
        assert(db@.cuotas =~= antes.cuotas.push(antes.fila_alta_cuota(cuota@)));
        assert(db@ == antes.alta_cuota(cuota@));
        lema_alta_cuota(antes, cuota@);
    }
    Ok(id)
}

/// Rewrites the due `id` with the fields of `cuota` and stamps the
/// change.  Where there is no such due nothing changes.
pub fn update_cuota(db: &mut Database, id: i32, cuota: &Cuota) -> (r: Result<(), DbError>)
    requires
        old(db).wf(),
    ensures
        final(db).wf(),
        match old(db)@.error_cambio_cuota(id, cuota@) {
            Some(e) => r == Err::<(), DbError>(e) && final(db)@ == old(db)@,
            None => r is Ok && final(db)@ == old(db)@.cambio_cuota(id, cuota@),
        },
{
    let ghost antes = old(db)@;
    match posicion_cuota(db, id) {
        None => {
            proof {
                assert(antes.cambio_cuota(id, cuota@).cuotas =~= antes.cuotas) by {
                    assert forall|k: int| 0 <= k < antes.cuotas.len() implies antes.cuotas[k].id
                        != Some(id) by {
                        assert(!antes.cuota_en(id, k));
                    }
                }
            }
            Ok(())
        },
        Some(i) => {
            match comprobar_cuota(db, cuota, Some(id)) {
                Some(e) => {
                    return Err(e);
                },
                None => {},
            }
            let mut fila = cuota.clone();
            fila.id = Some(id);
            fila.created_at = copia_opcional(&db.cuotas[i].created_at);
            fila.updated_at = Some(db.reloj.clone());
            db.cuotas.set(i, fila);
            proof {
                lema_cambio_cuota(antes, id, cuota@);
                assert(db@.cuotas =~= antes.cambio_cuota(id, cuota@).cuotas) by {
                    assert forall|k: int| 0 <= k < antes.cuotas.len() && k != i implies antes.cuotas[k].id
                        != Some(id) by {
                        if k < i {
                            assert(antes.cuotas[k].id != antes.cuotas[i as int].id);
                        } else {
                            assert(antes.cuotas[i as int].id != antes.cuotas[k].id);
                        }
                    }
                }
            }
            Ok(())
        },
    }
}

/// Marks the due `id` as paid on `fecha_pago` by `metodo_pago` and stamps
/// the change.  The amount and the notes stay as they are.
pub fn marcar_cuota_pagada(db: &mut Database, id: i32, fecha_pago: &str, metodo_pago: &str)
    requires
        old(db).wf(),
    ensures
        final(db).wf(),
        final(db)@ == old(db)@.pago_cuota(id, fecha_pago@, metodo_pago@),
{
    let ghost antes = old(db)@;
    match posicion_cuota(db, id) {
        None => {
            proof {
                assert(antes.pago_cuota(id, fecha_pago@, metodo_pago@).cuotas =~= antes.cuotas) by {
                    assert forall|k: int| 0 <= k < antes.cuotas.len() implies antes.cuotas[k].id
                        != Some(id) by {
                        assert(!antes.cuota_en(id, k));
                    }
                }
            }
        },
        Some(i) => {
            let mut fila = db.cuotas[i].clone();
            fila.pagado = true;
            fila.fecha_pago = Some(fecha_pago.to_owned());
            fila.metodo_pago = Some(metodo_pago.to_owned());
            fila.updated_at = Some(db.reloj.clone());
            db.cuotas.set(i, fila);
            proof {
                assert(db@.cuotas =~= antes.pago_cuota(id, fecha_pago@, metodo_pago@).cuotas) by {
                    assert forall|k: int| 0 <= k < antes.cuotas.len() && k != i implies antes.cuotas[k].id
                        != Some(id) by {
                        if k < i {
                            assert(antes.cuotas[k].id != antes.cuotas[i as int].id);
                        } else {
                            assert(antes.cuotas[i as int].id != antes.cuotas[k].id);
                        }
                    }
                }
            }
        },
    }
    proof {
        lema_pago_cuota(antes, id, fecha_pago@, metodo_pago@);
    }
}

/// Deletes the due `id`.
pub fn delete_cuota(db: &mut Database, id: i32)
    requires
        old(db).wf(),
    ensures
        final(db).wf(),
        final(db)@ == old(db)@.borrado_cuota(id),
{
    let ghost antes = old(db)@;
    let ghost pc = |v: CuotaView| v.id != Some(id);
    match posicion_cuota(db, id) {
        Some(i) => {
            db.cuotas.remove(i);
            proof {
                assert forall|k: int| 0 <= k < antes.cuotas.len() && k != i implies pc(
                    #[trigger] antes.cuotas[k],
                ) by {
                    if k < i {
                        assert(antes.cuotas[k].id != antes.cuotas[i as int].id);
                    } else {
                        assert(antes.cuotas[i as int].id != antes.cuotas[k].id);
                    }
                }
                lema_filtro_quita_uno(antes.cuotas, pc, i as int);
                assert(db@.cuotas =~= antes.cuotas.remove(i as int));
            }
        },
        None => {
            proof {
                assert forall|k: int| 0 <= k < antes.cuotas.len() implies pc(#[trigger] antes.cuotas[k]) by {
                    assert(!antes.cuota_en(id, k));
                }
                lema_filtro_todos(antes.cuotas, pc);
            }
        },
    }
    proof {
        assert(db@ == antes.borrado_cuota(id));
        lema_borrado_cuota(antes, id);
    }
}

/// Creates, for the year and quarter, one unpaid due of `importe` for
/// every active member that has none yet, and returns how many it
/// created.  Either all of them are created or, on an error, none.
pub fn generar_cuotas_trimestre(db: &mut Database, anio: i32, trimestre: i32, importe: u64) -> (r:
    Result<i32, DbError>)
    requires
        old(db).wf(),
    ensures
        final(db).wf(),
        match old(db)@.error_generacion(anio, trimestre) {
            Some(e) => r == Err::<i32, DbError>(e) && final(db)@ == old(db)@,
            None => r == Ok::<i32, DbError>(
                old(db)@.hermanos_sin_cuota(anio, trimestre).len() as i32,
            ) && final(db)@ == old(db)@.generacion(anio, trimestre, importe),
        },
{
    if trimestre < 1 || trimestre > 4 {
        return Err(DbError::TrimestreInvalido);
    }
    let ghost antes = old(db)@;
    let ghost p = |h: HermanoView| antes.le_falta_cuota(h, anio, trimestre);
    let mut faltan: Vec<i32> = Vec::new();
    let n: usize = db.hermanos.len();
    let mut i: usize = 0;
    proof {
        lema_filtro_vacio(p);
        assert(antes.hermanos.take(0) =~= Seq::<HermanoView>::empty());
    }
    while i < n
        invariant
            db@ == antes,
            antes.bien_formada(),
            p == |h: HermanoView| antes.le_falta_cuota(h, anio, trimestre),
            n == db.hermanos@.len(),
            i <= n,
            faltan@.len() == antes.hermanos.take(i as int).filter(p).len(),
            faltan@.len() <= i,
            forall|k: int|
                0 <= k < faltan@.len() ==> Some(#[trigger] faltan@[k]) == antes.hermanos.take(
                    i as int,
                ).filter(p)[k].id,
        decreases n - i,
    {
        proof {
            lema_filtro_paso(antes.hermanos, p, i as int);
        }
        let h = &db.hermanos[i];
        if h.activo {
            match h.id {
                Some(m) => {
                    if !periodo_en_uso(db, m, anio, trimestre, None) {
                        faltan.push(m);
                    }
                },
                None => {},
            }
        }
        i = i + 1;
    }
    assert(antes.hermanos.take(n as int) =~= antes.hermanos);
    let libres: i32 = i32::MAX - db.ultima_cuota;
    let total: usize = faltan.len();
    if total > libres as usize {
        return Err(DbError::Almacenamiento(Restriccion::SinIdentificadores));
    }
    let base: i32 = db.ultima_cuota;
    let ghost nuevas = antes.cuotas_generadas(anio, trimestre, importe);
    let mut k: usize = 0;
    assert(antes.cuotas + nuevas.take(0) =~= antes.cuotas);
    while k < total
        invariant
            total == faltan@.len(),
            total == nuevas.len(),
            k <= total,
            base == antes.ultima_cuota,
            0 <= base,
            base + total <= i32::MAX,
            nuevas == antes.cuotas_generadas(anio, trimestre, importe),
            forall|q: int|
                0 <= q < faltan@.len() ==> Some(#[trigger] faltan@[q]) == antes.hermanos_sin_cuota(
                    anio,
                    trimestre,
                )[q].id,
            db@ == (DatabaseView { cuotas: antes.cuotas + nuevas.take(k as int), ..antes }),
        decreases total - k,
    {
        let fila = Cuota {
            id: Some(base + 1 + k as i32),
            hermano_id: faltan[k],
            anio: anio,
            trimestre: trimestre,
            importe: importe,
            pagado: false,
            fecha_pago: None,
            metodo_pago: None,
            observaciones: None,
            created_at: Some(db.reloj.clone()),
            updated_at: Some(db.reloj.clone()),
        };
        proof {
            assert(fila@ == nuevas[k as int]);
            assert((antes.cuotas + nuevas.take(k as int)).push(nuevas[k as int]) =~= antes.cuotas
                + nuevas.take(k + 1));
        }
        db.cuotas.push(fila);
        k = k + 1;
        assert(db@.cuotas =~= antes.cuotas + nuevas.take(k as int));
    }
    db.ultima_cuota = base + total as i32;
    proof {
        assert(nuevas.take(total as int) =~= nuevas);
        assert(db@ == antes.generacion(anio, trimestre, importe));
        lema_generacion(antes, anio, trimestre, importe);
    }
    Ok(total as i32)
}

/// Whether the due counts for statistics of `anio`.
fn dentro(c: &Cuota, anio: Option<i32>) -> (r: bool)
    ensures
        r == en_ambito(c@, anio),
{
    match anio {
        Some(a) => c.anio == a,
        None => true,
    }
}

/// Whether the member has dues in scope, and whether one of them is
/// unpaid.
fn situacion(db: &Database, hermano_id: i32, anio: Option<i32>) -> (r: (bool, bool))
    ensures
        r.0 == db@.tiene_cuotas(hermano_id, anio),
        r.1 == db@.es_moroso(hermano_id, anio),
{
    let n: usize = db.cuotas.len();
    let mut tiene: bool = false;
    let mut debe: bool = false;
    let mut i: usize = 0;
    while i < n
        invariant
            n == db.cuotas@.len(),
            i <= n,
            tiene == (exists|k: int| 0 <= k < i && db@.cuota_de_en(hermano_id, anio, k)),
            debe == (exists|k: int|
                0 <= k < i && db@.cuota_de_en(hermano_id, anio, k) && !db@.cuotas[k].pagado),
        decreases n - i,
    {
        let c = &db.cuotas[i];
        if c.hermano_id == hermano_id && dentro(c, anio) {
            assert(db@.cuota_de_en(hermano_id, anio, i as int));
            tiene = true;
            if !c.pagado {
                debe = true;
            }
        }
        i = i + 1;
    }
    (tiene, debe)
}

/// Totals over the dues of the year `anio`, or over all dues where no
/// year is given: what the paid ones add up to, how many are unpaid and
/// how many paid, and how many members are in good standing (they have
/// dues in scope, all paid) and how many delinquent (they have an unpaid
/// due in scope).
pub fn get_estadisticas_cuotas(db: &Database, anio: Option<i32>) -> (r: EstadisticasCuotas)
    requires
        db.wf(),
    ensures
        r.total_recaudado == db@.total_recaudado(anio),
        r.cuotas_pendientes == db@.cuotas_pendientes(anio),
        r.cuotas_pagadas == db@.cuotas_pagadas(anio),
        r.hermanos_al_dia == db@.hermanos_al_dia(anio),
        r.hermanos_morosos == db@.hermanos_morosos(anio),
{
    let ghost pagadas = |c: CuotaView| en_ambito(c, anio) && c.pagado;
    let ghost pendientes = |c: CuotaView| en_ambito(c, anio) && !c.pagado;
    let ghost tabla = db@.cuotas;
    let n: usize = db.cuotas.len();
    let mut total: u128 = 0;
    let mut n_pendientes: i32 = 0;
    let mut n_pagadas: i32 = 0;
    let mut i: usize = 0;
    proof {
        lema_filtro_vacio(pagadas);
        lema_filtro_vacio(pendientes);
        assert(tabla.take(0) =~= Seq::<CuotaView>::empty());
    }
    while i < n
        invariant
            db.wf(),
            tabla == db@.cuotas,
            n == db.cuotas@.len(),
            i <= n,
            pagadas == |c: CuotaView| en_ambito(c, anio) && c.pagado,
            pendientes == |c: CuotaView| en_ambito(c, anio) && !c.pagado,
            total == suma_importes(tabla.take(i as int).filter(pagadas)),
            total <= i * u64::MAX,
            n_pendientes == tabla.take(i as int).filter(pendientes).len(),
            n_pagadas == tabla.take(i as int).filter(pagadas).len(),
            n_pendientes <= i,
            n_pagadas <= i,
        decreases n - i,
    {
        proof {
            lema_filtro_paso(tabla, pagadas, i as int);
            lema_filtro_paso(tabla, pendientes, i as int);
        }
        let c = &db.cuotas[i];
        if dentro(c, anio) {
            if c.pagado {
                proof {
                    let f = tabla.take(i as int).filter(pagadas);
                    assert(f.push(tabla[i as int]).drop_last() =~= f);
                }
                total = total + c.importe as u128;
                n_pagadas = n_pagadas + 1;
            } else {
                n_pendientes = n_pendientes + 1;
            }
        }
        i = i + 1;
    }
    assert(tabla.take(n as int) =~= tabla);
    let ghost al_dia = |h: HermanoView| h.id is Some && db@.esta_al_dia(h.id->0, anio);
    let ghost morosos = |h: HermanoView| h.id is Some && db@.es_moroso(h.id->0, anio);
    let ghost miembros = db@.hermanos;
    let m: usize = db.hermanos.len();
    let mut n_al_dia: i32 = 0;
    let mut n_morosos: i32 = 0;
    let mut j: usize = 0;
    proof {
        lema_filtro_vacio(al_dia);
        lema_filtro_vacio(morosos);
        assert(miembros.take(0) =~= Seq::<HermanoView>::empty());
    }
    while j < m
        invariant
            db.wf(),
            miembros == db@.hermanos,
            m == db.hermanos@.len(),
            j <= m,
            al_dia == |h: HermanoView| h.id is Some && db@.esta_al_dia(h.id->0, anio),
            morosos == |h: HermanoView| h.id is Some && db@.es_moroso(h.id->0, anio),
            n_al_dia == miembros.take(j as int).filter(al_dia).len(),
            n_morosos == miembros.take(j as int).filter(morosos).len(),
            n_al_dia <= j,
            n_morosos <= j,
        decreases m - j,
    {
        proof {
            lema_filtro_paso(miembros, al_dia, j as int);
            lema_filtro_paso(miembros, morosos, j as int);
        }
        match db.hermanos[j].id {
            Some(id) => {
                let (tiene, debe) = situacion(db, id, anio);
                if debe {
                    n_morosos = n_morosos + 1;
                } else if tiene {
                    n_al_dia = n_al_dia + 1;
                }
            },
            None => {},
        }
        j = j + 1;
    }
    assert(miembros.take(m as int) =~= miembros);
    EstadisticasCuotas {
        total_recaudado: total,
        cuotas_pendientes: n_pendientes,
        cuotas_pagadas: n_pagadas,
        hermanos_al_dia: n_al_dia,
        hermanos_morosos: n_morosos,
    }
}

} // verus!
