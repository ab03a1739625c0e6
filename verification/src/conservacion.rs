//! Every operation of the registry leaves it well formed.

use crate::estado::{mismo_periodo, DatabaseView};
use crate::modelo::{CuotaView, FamiliaView, HermanoView};
use crate::secuencias::{lema_filtro_conserva, lema_filtro_elemento, lema_filtro_orden};
use vstd::prelude::*;

verus! {

/// A registry whose members carry the same identifiers as those of a
/// well-formed one, and still distinct numbers, is well formed.
pub proof fn lema_mismos_hermanos(d: DatabaseView, e: DatabaseView)
    requires
        d.bien_formada(),
        e.hermanos.len() == d.hermanos.len(),
        forall|i: int| 0 <= i < d.hermanos.len() ==> (#[trigger] e.hermanos[i]).id == d.hermanos[i].id,
        forall|i: int, j: int|
            0 <= i < j < e.hermanos.len() ==> (#[trigger] e.hermanos[i]).numero_hermano != (
            #[trigger] e.hermanos[j]).numero_hermano,
        e.familias == d.familias,
        e.cuotas == d.cuotas,
        e.ultima_familia == d.ultima_familia,
        e.ultimo_hermano == d.ultimo_hermano,
        e.ultima_cuota == d.ultima_cuota,
    ensures
        e.bien_formada(),
{
    assert forall|i: int| 0 <= i < e.cuotas.len() implies e.tiene_hermano(
        (#[trigger] e.cuotas[i]).hermano_id,
    ) by {
        let m = e.cuotas[i].hermano_id;
        assert(d.tiene_hermano(d.cuotas[i].hermano_id));
        let k = choose|k: int| d.hermano_en(m, k);
        assert(e.hermano_en(m, k));
    }
    assert forall|i: int, j: int| 0 <= i < j < e.hermanos.len() implies (#[trigger] e.hermanos[i]).id
        != (#[trigger] e.hermanos[j]).id by {
        assert(d.hermanos[i].id != d.hermanos[j].id);
    }
    assert forall|i: int| 0 <= i < e.hermanos.len() implies (#[trigger] e.hermanos[i]).id is Some
        && 1 <= e.hermanos[i].id->0 <= e.ultimo_hermano by {
        assert(d.hermanos[i].id is Some);
    }
}

/// In a well-formed registry the row found at any position is the row
/// that a search by its identifier gives.
pub proof fn lema_buscar_hermano(d: DatabaseView, id: i32, i: int)
    requires
        d.bien_formada(),
        d.hermano_en(id, i),
    ensures
        d.buscar_hermano(id) == Some(d.hermanos[i]),
{
    let c = choose|c: int| d.hermano_en(id, c);
    if c < i {
        assert(d.hermanos[c].id != d.hermanos[i].id);
    } else if i < c {
        assert(d.hermanos[i].id != d.hermanos[c].id);
    }
}

/// Registering a member keeps the registry well formed.
pub proof fn lema_alta_hermano(d: DatabaseView, h: HermanoView)
    requires
        d.bien_formada(),
        d.error_alta_hermano(h) is None,
    ensures
        d.alta_hermano(h).bien_formada(),
{
    let e = d.alta_hermano(h);
    let nueva = d.fila_alta_hermano(h);
    assert forall|i: int, j: int| 0 <= i < j < e.hermanos.len() implies (
    #[trigger] e.hermanos[i]).numero_hermano != (#[trigger] e.hermanos[j]).numero_hermano by {
        if j == d.hermanos.len() {
            assert(!(d.numero_en(nueva.numero_hermano, i) && d.hermanos[i].id != None::<i32>));
        }
    }
    assert forall|i: int| 0 <= i < e.cuotas.len() implies e.tiene_hermano(
        (#[trigger] e.cuotas[i]).hermano_id,
    ) by {
        let m = e.cuotas[i].hermano_id;
        assert(d.tiene_hermano(d.cuotas[i].hermano_id));
        let k = choose|k: int| d.hermano_en(m, k);
        assert(e.hermano_en(m, k));
    }
}

/// Rewriting a member keeps the registry well formed.
pub proof fn lema_cambio_hermano(d: DatabaseView, id: i32, h: HermanoView)
    requires
        d.bien_formada(),
        d.error_cambio_hermano(id, h) is None,
    ensures
        d.cambio_hermano(id, h).bien_formada(),
{
    let e = d.cambio_hermano(id, h);
    assert forall|i: int, j: int| 0 <= i < j < e.hermanos.len() implies (
    #[trigger] e.hermanos[i]).numero_hermano != (#[trigger] e.hermanos[j]).numero_hermano by {
        assert(d.hermanos[i].id != d.hermanos[j].id);
        assert(d.hermanos[i].numero_hermano != d.hermanos[j].numero_hermano);
        if d.hermanos[i].id == Some(id) {
            assert(d.hermano_en(id, i));
            assert(!(d.numero_en(h.numero_hermano, j) && d.hermanos[j].id != Some(id)));
        } else if d.hermanos[j].id == Some(id) {
            assert(d.hermano_en(id, j));
            assert(!(d.numero_en(h.numero_hermano, i) && d.hermanos[i].id != Some(id)));
        }
    }
    lema_mismos_hermanos(d, e);
}

/// Setting a member inactive keeps the registry well formed.
pub proof fn lema_baja_hermano(d: DatabaseView, id: i32)
    requires
        d.bien_formada(),
    ensures
        d.baja_hermano(id).bien_formada(),
{
    let e = d.baja_hermano(id);
    assert forall|i: int, j: int| 0 <= i < j < e.hermanos.len() implies (
    #[trigger] e.hermanos[i]).numero_hermano != (#[trigger] e.hermanos[j]).numero_hermano by {
        assert(d.hermanos[i].numero_hermano != d.hermanos[j].numero_hermano);
    }
    lema_mismos_hermanos(d, e);
}

/// Moving a member to another family keeps the registry well formed.
pub proof fn lema_traslado_hermano(d: DatabaseView, id: i32, familia_id: Option<i32>)
    requires
        d.bien_formada(),
    ensures
        d.traslado_hermano(id, familia_id).bien_formada(),
{
    let e = d.traslado_hermano(id, familia_id);
    assert forall|i: int, j: int| 0 <= i < j < e.hermanos.len() implies (
    #[trigger] e.hermanos[i]).numero_hermano != (#[trigger] e.hermanos[j]).numero_hermano by {
        assert(d.hermanos[i].numero_hermano != d.hermanos[j].numero_hermano);
    }
    lema_mismos_hermanos(d, e);
}

/// Deleting a member, and its dues with it, keeps the registry well
/// formed.
pub proof fn lema_borrado_hermano(d: DatabaseView, id: i32)
    requires
        d.bien_formada(),
    ensures
        d.borrado_hermano(id).bien_formada(),
{
    let e = d.borrado_hermano(id);
    let ph = |v: HermanoView| v.id != Some(id);
    let pc = |c: CuotaView| c.hermano_id != id;
    d.hermanos.lemma_filter_len(ph);
    d.cuotas.lemma_filter_len(pc);
    assert forall|i: int| 0 <= i < e.hermanos.len() implies (#[trigger] e.hermanos[i]).id is Some
        && 1 <= e.hermanos[i].id->0 <= e.ultimo_hermano by {
        lema_filtro_elemento(d.hermanos, ph, i);
    }
    assert forall|i: int, j: int| 0 <= i < j < e.hermanos.len() implies (#[trigger] e.hermanos[i]).id
        != (#[trigger] e.hermanos[j]).id && e.hermanos[i].numero_hermano
        != e.hermanos[j].numero_hermano by {
        lema_filtro_orden(d.hermanos, ph, i, j);
    }
    assert forall|i: int| 0 <= i < e.cuotas.len() implies {
        &&& (#[trigger] e.cuotas[i]).id is Some
        &&& 1 <= e.cuotas[i].id->0 <= e.ultima_cuota
        &&& 1 <= e.cuotas[i].trimestre <= 4
        &&& e.tiene_hermano(e.cuotas[i].hermano_id)
    } by {
        lema_filtro_elemento(d.cuotas, pc, i);
        let a = choose|a: int| 0 <= a < d.cuotas.len() && #[trigger] d.cuotas[a] == d.cuotas.filter(pc)[i] && pc(d.cuotas[a]);
        let m = d.cuotas[a].hermano_id;
        assert(d.tiene_hermano(m));
        let k = choose|k: int| d.hermano_en(m, k);
        lema_filtro_conserva(d.hermanos, ph, k);
        let q = choose|q: int| 0 <= q < d.hermanos.filter(ph).len() && #[trigger] d.hermanos.filter(ph)[q] == d.hermanos[k];
        assert(e.hermano_en(m, q));
    }
    assert forall|i: int, j: int| 0 <= i < j < e.cuotas.len() implies (#[trigger] e.cuotas[i]).id != (
    #[trigger] e.cuotas[j]).id && !mismo_periodo(e.cuotas[i], e.cuotas[j]) by {
        lema_filtro_orden(d.cuotas, pc, i, j);
    }
}

/// In a well-formed registry the family found at any position is the
/// family that a search by its identifier gives.
pub proof fn lema_buscar_familia(d: DatabaseView, id: i32, i: int)
    requires
        d.bien_formada(),
        d.familia_en(id, i),
    ensures
        d.buscar_familia(id) == Some(d.familias[i]),
{
    let c = choose|c: int| d.familia_en(id, c);
    if c < i {
        assert(d.familias[c].id != d.familias[i].id);
    } else if i < c {
        assert(d.familias[i].id != d.familias[c].id);
    }
}

/// Creating a family keeps the registry well formed.
pub proof fn lema_alta_familia(d: DatabaseView, f: FamiliaView)
    requires
        d.bien_formada(),
        d.error_alta_familia(f) is None,
    ensures
        d.alta_familia(f).bien_formada(),
{
    let e = d.alta_familia(f);
    assert forall|i: int, j: int| 0 <= i < j < e.familias.len() implies (
    #[trigger] e.familias[i]).nombre_familia != (#[trigger] e.familias[j]).nombre_familia by {
        if j == d.familias.len() {
            assert(!(d.nombre_en(f.nombre_familia, i) && d.familias[i].id != None::<i32>));
        }
    }
    lema_mismos_miembros(d, e);
}

/// Changes that leave the table of members alone leave the dues in
/// order.
pub proof fn lema_mismos_miembros(d: DatabaseView, e: DatabaseView)
    requires
        d.bien_formada(),
        e.hermanos == d.hermanos,
        e.ultimo_hermano == d.ultimo_hermano,
        e.cuotas == d.cuotas,
        e.ultima_cuota == d.ultima_cuota,
    ensures
        e.hermanos_en_regla(),
        e.cuotas_en_regla(),
{
    assert forall|i: int| 0 <= i < e.cuotas.len() implies e.tiene_hermano(
        (#[trigger] e.cuotas[i]).hermano_id,
    ) by {
        let m = e.cuotas[i].hermano_id;
        assert(d.tiene_hermano(d.cuotas[i].hermano_id));
        let k = choose|k: int| d.hermano_en(m, k);
        assert(e.hermano_en(m, k));
    }
}

/// Rewriting a family keeps the registry well formed.
pub proof fn lema_cambio_familia(d: DatabaseView, id: i32, f: FamiliaView)
    requires
        d.bien_formada(),
        d.error_cambio_familia(id, f) is None,
    ensures
        d.cambio_familia(id, f).bien_formada(),
{
    let e = d.cambio_familia(id, f);
    assert forall|i: int, j: int| 0 <= i < j < e.familias.len() implies (
    #[trigger] e.familias[i]).nombre_familia != (#[trigger] e.familias[j]).nombre_familia && e.familias[i].id
        != e.familias[j].id by {
        assert(d.familias[i].id != d.familias[j].id);
        assert(d.familias[i].nombre_familia != d.familias[j].nombre_familia);
        if d.familias[i].id == Some(id) {
            assert(d.familia_en(id, i));
            assert(!(d.nombre_en(f.nombre_familia, j) && d.familias[j].id != Some(id)));
        } else if d.familias[j].id == Some(id) {
            assert(d.familia_en(id, j));
            assert(!(d.nombre_en(f.nombre_familia, i) && d.familias[i].id != Some(id)));
        }
    }
    assert forall|i: int| 0 <= i < e.familias.len() implies (#[trigger] e.familias[i]).id is Some
        && 1 <= e.familias[i].id->0 <= e.ultima_familia by {
        assert(d.familias[i].id is Some);
    }
    lema_mismos_miembros(d, e);
}

/// Deleting a family keeps the registry well formed.
pub proof fn lema_borrado_familia(d: DatabaseView, id: i32)
    requires
        d.bien_formada(),
    ensures
        d.borrado_familia(id).bien_formada(),
{
    let e = d.borrado_familia(id);
    let pf = |v: FamiliaView| v.id != Some(id);
    d.familias.lemma_filter_len(pf);
    assert forall|i: int| 0 <= i < e.familias.len() implies (#[trigger] e.familias[i]).id is Some
        && 1 <= e.familias[i].id->0 <= e.ultima_familia by {
        lema_filtro_elemento(d.familias, pf, i);
    }
    assert forall|i: int, j: int| 0 <= i < j < e.familias.len() implies (#[trigger] e.familias[i]).id
        != (#[trigger] e.familias[j]).id && e.familias[i].nombre_familia
        != e.familias[j].nombre_familia by {
        lema_filtro_orden(d.familias, pf, i, j);
    }
    lema_mismos_miembros(d, e);
}

/// In a well-formed registry the due found at any position is the due
/// that a search by its identifier gives.
pub proof fn lema_buscar_cuota(d: DatabaseView, id: i32, i: int)
    requires
        d.bien_formada(),
        d.cuota_en(id, i),
    ensures
        d.buscar_cuota(id) == Some(d.cuotas[i]),
{
    let c = choose|c: int| d.cuota_en(id, c);
    if c < i {
        assert(d.cuotas[c].id != d.cuotas[i].id);
    } else if i < c {
        assert(d.cuotas[i].id != d.cuotas[c].id);
    }
}

/// Changes that leave families and members alone leave them in order.
pub proof fn lema_solo_cuotas(d: DatabaseView, e: DatabaseView)
    requires
        d.bien_formada(),
        e.hermanos == d.hermanos,
        e.ultimo_hermano == d.ultimo_hermano,
        e.familias == d.familias,
        e.ultima_familia == d.ultima_familia,
    ensures
        e.hermanos_en_regla(),
        e.familias_en_regla(),
        forall|m: i32| d.tiene_hermano(m) ==> e.tiene_hermano(m),
{
    assert forall|m: i32| d.tiene_hermano(m) implies e.tiene_hermano(m) by {
        let k = choose|k: int| d.hermano_en(m, k);
        assert(e.hermano_en(m, k));
    }
}

/// Creating a due keeps the registry well formed.
pub proof fn lema_alta_cuota(d: DatabaseView, c: CuotaView)
    requires
        d.bien_formada(),
        d.error_alta_cuota(c) is None,
    ensures
        d.alta_cuota(c).bien_formada(),
{
    let e = d.alta_cuota(c);
    lema_solo_cuotas(d, e);
    assert forall|i: int, j: int| 0 <= i < j < e.cuotas.len() implies !mismo_periodo(
        #[trigger] e.cuotas[i],
        #[trigger] e.cuotas[j],
    ) by {
        if j == d.cuotas.len() {
            assert(!(d.periodo_en(c.hermano_id, c.anio, c.trimestre, i) && d.cuotas[i].id
                != None::<i32>));
        }
    }
    assert forall|i: int| 0 <= i < e.cuotas.len() implies e.tiene_hermano(
        (#[trigger] e.cuotas[i]).hermano_id,
    ) by {
        if i < d.cuotas.len() {
            assert(d.tiene_hermano(d.cuotas[i].hermano_id));
        }
    }
}

/// Rewriting a due keeps the registry well formed.
pub proof fn lema_cambio_cuota(d: DatabaseView, id: i32, c: CuotaView)
    requires
        d.bien_formada(),
        d.error_cambio_cuota(id, c) is None,
    ensures
        d.cambio_cuota(id, c).bien_formada(),
{
    let e = d.cambio_cuota(id, c);
    lema_solo_cuotas(d, e);
    assert forall|i: int, j: int| 0 <= i < j < e.cuotas.len() implies !mismo_periodo(
        #[trigger] e.cuotas[i],
        #[trigger] e.cuotas[j],
    ) && e.cuotas[i].id != e.cuotas[j].id by {
        assert(d.cuotas[i].id != d.cuotas[j].id);
        assert(!mismo_periodo(d.cuotas[i], d.cuotas[j]));
        if d.cuotas[i].id == Some(id) {
            assert(d.cuota_en(id, i));
            assert(!(d.periodo_en(c.hermano_id, c.anio, c.trimestre, j) && d.cuotas[j].id != Some(
                id,
            )));
        } else if d.cuotas[j].id == Some(id) {
            assert(d.cuota_en(id, j));
            assert(!(d.periodo_en(c.hermano_id, c.anio, c.trimestre, i) && d.cuotas[i].id != Some(
                id,
            )));
        }
    }
    assert forall|i: int| 0 <= i < e.cuotas.len() implies {
        &&& (#[trigger] e.cuotas[i]).id is Some
        &&& 1 <= e.cuotas[i].id->0 <= e.ultima_cuota
        &&& 1 <= e.cuotas[i].trimestre <= 4
        &&& e.tiene_hermano(e.cuotas[i].hermano_id)
    } by {
        assert(d.cuotas[i].id is Some);
        assert(d.tiene_hermano(d.cuotas[i].hermano_id));
        if d.cuotas[i].id == Some(id) {
            assert(d.cuota_en(id, i));
        }
    }
}

/// Marking a due as paid keeps the registry well formed.
pub proof fn lema_pago_cuota(d: DatabaseView, id: i32, fecha: Seq<char>, metodo: Seq<char>)
    requires
        d.bien_formada(),
    ensures
        d.pago_cuota(id, fecha, metodo).bien_formada(),
{
    let e = d.pago_cuota(id, fecha, metodo);
    lema_solo_cuotas(d, e);
    assert forall|i: int, j: int| 0 <= i < j < e.cuotas.len() implies !mismo_periodo(
        #[trigger] e.cuotas[i],
        #[trigger] e.cuotas[j],
    ) && e.cuotas[i].id != e.cuotas[j].id by {
        assert(d.cuotas[i].id != d.cuotas[j].id);
        assert(!mismo_periodo(d.cuotas[i], d.cuotas[j]));
    }
    assert forall|i: int| 0 <= i < e.cuotas.len() implies {
        &&& (#[trigger] e.cuotas[i]).id is Some
        &&& 1 <= e.cuotas[i].id->0 <= e.ultima_cuota
        &&& 1 <= e.cuotas[i].trimestre <= 4
        &&& e.tiene_hermano(e.cuotas[i].hermano_id)
    } by {
        assert(d.cuotas[i].id is Some);
        assert(d.tiene_hermano(d.cuotas[i].hermano_id));
    }
}

/// Deleting a due keeps the registry well formed.
pub proof fn lema_borrado_cuota(d: DatabaseView, id: i32)
    requires
        d.bien_formada(),
    ensures
        d.borrado_cuota(id).bien_formada(),
{
    let e = d.borrado_cuota(id);
    let pc = |v: CuotaView| v.id != Some(id);
    lema_solo_cuotas(d, e);
    d.cuotas.lemma_filter_len(pc);
    assert forall|i: int| 0 <= i < e.cuotas.len() implies {
        &&& (#[trigger] e.cuotas[i]).id is Some
        &&& 1 <= e.cuotas[i].id->0 <= e.ultima_cuota
        &&& 1 <= e.cuotas[i].trimestre <= 4
        &&& e.tiene_hermano(e.cuotas[i].hermano_id)
    } by {
        lema_filtro_elemento(d.cuotas, pc, i);
        let a = choose|a: int| 0 <= a < d.cuotas.len() && #[trigger] d.cuotas[a] == d.cuotas.filter(pc)[i] && pc(d.cuotas[a]);
        assert(d.tiene_hermano(d.cuotas[a].hermano_id));
    }
    assert forall|i: int, j: int| 0 <= i < j < e.cuotas.len() implies (#[trigger] e.cuotas[i]).id != (
    #[trigger] e.cuotas[j]).id && !mismo_periodo(e.cuotas[i], e.cuotas[j]) by {
        lema_filtro_orden(d.cuotas, pc, i, j);
    }
}

/// Generating the dues of a quarter keeps the registry well formed.
pub proof fn lema_generacion(d: DatabaseView, anio: i32, trimestre: i32, importe: u64)
    requires
        d.bien_formada(),
        d.error_generacion(anio, trimestre) is None,
    ensures
        d.generacion(anio, trimestre, importe).bien_formada(),
{
    let e = d.generacion(anio, trimestre, importe);
    let p = |h: HermanoView| d.le_falta_cuota(h, anio, trimestre);
    let faltan = d.hermanos_sin_cuota(anio, trimestre);
    let nuevas = d.cuotas_generadas(anio, trimestre, importe);
    let n = d.cuotas.len() as int;
    lema_solo_cuotas(d, e);
    d.hermanos.lemma_filter_len(p);
    assert forall|i: int| 0 <= i < e.cuotas.len() implies {
        &&& (#[trigger] e.cuotas[i]).id is Some
        &&& 1 <= e.cuotas[i].id->0 <= e.ultima_cuota
        &&& 1 <= e.cuotas[i].trimestre <= 4
        &&& e.tiene_hermano(e.cuotas[i].hermano_id)
    } by {
        if i < n {
            assert(d.cuotas[i].id is Some);
            assert(d.tiene_hermano(d.cuotas[i].hermano_id));
        } else {
            let k = i - n;
            assert(e.cuotas[i] == nuevas[k]);
            lema_filtro_elemento(d.hermanos, p, k);
            let a = choose|a: int| 0 <= a < d.hermanos.len() && #[trigger] d.hermanos[a] == faltan[k] && p(d.hermanos[a]);
            assert(d.hermano_en(faltan[k].id->0, a));
        }
    }
    assert forall|i: int, j: int| 0 <= i < j < e.cuotas.len() implies (#[trigger] e.cuotas[i]).id != (
    #[trigger] e.cuotas[j]).id && !mismo_periodo(e.cuotas[i], e.cuotas[j]) by {
        if j < n {
            assert(d.cuotas[i].id != d.cuotas[j].id);
            assert(!mismo_periodo(d.cuotas[i], d.cuotas[j]));
        } else if i < n {
            let k = j - n;
            assert(e.cuotas[j] == nuevas[k]);
            assert(d.cuotas[i].id is Some);
            lema_filtro_elemento(d.hermanos, p, k);
            assert(!(d.periodo_en(faltan[k].id->0, anio, trimestre, i) && d.cuotas[i].id
                != None::<i32>));
        } else {
            let ki = i - n;
            let kj = j - n;
            assert(e.cuotas[i] == nuevas[ki]);
            assert(e.cuotas[j] == nuevas[kj]);
            lema_filtro_orden(d.hermanos, p, ki, kj);
        }
    }
}

} // verus!
