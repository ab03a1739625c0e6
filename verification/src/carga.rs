//! Building a registry from rows that were stored elsewhere.

use crate::base::{vistas_cuotas, vistas_familias, vistas_hermanos, Database};
use crate::error::{DbError, Restriccion};
use crate::estado::{mismo_periodo, DatabaseView};
use crate::hermanos::mismo_id;
use crate::modelo::{Cuota, CuotaView, Familia, FamiliaView, Hermano, HermanoView};
use crate::texto::texto_igual;
use vstd::prelude::*;

verus! {

/// The last identifier that each table has handed out.
#[derive(Debug, Clone, Copy, PartialEq, Eq, Structural)]
pub struct Secuencias {
    pub familias: i32,
    pub hermanos: i32,
    pub cuotas: i32,
}

/// Every row has an identifier, none below 1, and the rows come in the
/// order of their identifiers.
pub open spec fn ids_crecientes(ids: Seq<Option<i32>>) -> bool {
    &&& forall|i: int| 0 <= i < ids.len() ==> (#[trigger] ids[i]) is Some && ids[i]->0 >= 1
    &&& forall|i: int, j: int|
        0 <= i < j < ids.len() ==> (#[trigger] ids[i])->0 < (#[trigger] ids[j])->0
}

/// The identifier of the last row; 0 where there is no row.
pub open spec fn ultimo_id(ids: Seq<Option<i32>>) -> int {
    if ids.len() == 0 {
        0
    } else {
        ids.last()->0 as int
    }
}

/// The larger of two numbers.
pub open spec fn mayor(a: int, b: int) -> int {
    if a >= b {
        a
    } else {
        b
    }
}

/// The identifiers of the rows, row for row.
pub open spec fn ids_de_familias(f: Seq<FamiliaView>) -> Seq<Option<i32>> {
    f.map_values(|x: FamiliaView| x.id)
}

/// The identifiers of the rows, row for row.
pub open spec fn ids_de_hermanos(h: Seq<HermanoView>) -> Seq<Option<i32>> {
    h.map_values(|x: HermanoView| x.id)
}

/// The identifiers of the rows, row for row.
pub open spec fn ids_de_cuotas(c: Seq<CuotaView>) -> Seq<Option<i32>> {
    c.map_values(|x: CuotaView| x.id)
}

/// No two families carry one name.
pub open spec fn nombres_distintos(f: Seq<FamiliaView>) -> bool {
    forall|i: int, j: int|
        0 <= i < j < f.len() ==> (#[trigger] f[i]).nombre_familia != (#[trigger] f[j]).nombre_familia
}

/// No two members carry one number.
pub open spec fn numeros_distintos(h: Seq<HermanoView>) -> bool {
    forall|i: int, j: int|
        0 <= i < j < h.len() ==> (#[trigger] h[i]).numero_hermano != (#[trigger] h[j]).numero_hermano
}

/// The member at position `k` of `h` is the member `hermano_id`.
pub open spec fn es_de(h: Seq<HermanoView>, hermano_id: i32, k: int) -> bool {
    0 <= k < h.len() && h[k].id == Some(hermano_id)
}

/// Every due falls in a quarter, belongs to one of the members `h`, and
/// no two are of one member for one year and quarter.
pub open spec fn cuotas_coherentes(c: Seq<CuotaView>, h: Seq<HermanoView>) -> bool {
    &&& forall|i: int|
        0 <= i < c.len() ==> 1 <= (#[trigger] c[i]).trimestre <= 4 && exists|k: int|
            es_de(h, c[i].hermano_id, k)
    &&& forall|i: int, j: int|
        0 <= i < j < c.len() ==> !mismo_periodo(#[trigger] c[i], #[trigger] c[j])
}

/// What rows make a registry: in each table the rows come with their
/// identifiers, in increasing order; family names and member numbers
/// are unique; the dues are coherent; and no table claims to have handed
/// out a negative identifier.
pub open spec fn carga_admisible(
    f: Seq<FamiliaView>,
    h: Seq<HermanoView>,
    c: Seq<CuotaView>,
    s: Secuencias,
) -> bool {
    &&& s.familias >= 0 && s.hermanos >= 0 && s.cuotas >= 0
    &&& ids_crecientes(ids_de_familias(f))
    &&& ids_crecientes(ids_de_hermanos(h))
    &&& ids_crecientes(ids_de_cuotas(c))
    &&& nombres_distintos(f)
    &&& numeros_distintos(h)
    &&& cuotas_coherentes(c, h)
}

/// The registry that the rows make.  Each table goes on handing out
/// identifiers after the largest it has seen.
pub open spec fn vista_de_carga(
    f: Seq<FamiliaView>,
    h: Seq<HermanoView>,
    c: Seq<CuotaView>,
    s: Secuencias,
) -> DatabaseView {
    DatabaseView {
        familias: f,
        hermanos: h,
        cuotas: c,
        ultima_familia: mayor(s.familias as int, ultimo_id(ids_de_familias(f))),
        ultimo_hermano: mayor(s.hermanos as int, ultimo_id(ids_de_hermanos(h))),
        ultima_cuota: mayor(s.cuotas as int, ultimo_id(ids_de_cuotas(c))),
        reloj: Seq::<char>::empty(),
    }
}

/// Identifiers that grow from 1 are at least as large as their place in
/// the table, and none is larger than the last.
pub proof fn lema_ids_crecientes(ids: Seq<Option<i32>>, i: int)
    requires
        ids_crecientes(ids),
        0 <= i < ids.len(),
    ensures
        i + 1 <= ids[i]->0 <= ultimo_id(ids),
    decreases i,
{
    if i > 0 {
        lema_ids_crecientes(ids, i - 1);
        assert(ids[i - 1]->0 < ids[i]->0);
    }
    if i < ids.len() - 1 {
        assert(ids[i]->0 < ids[ids.len() - 1]->0);
    }
}

/// Rows that are admissible make a well-formed registry.
pub proof fn lema_carga(f: Seq<FamiliaView>, h: Seq<HermanoView>, c: Seq<CuotaView>, s: Secuencias)
    requires
        carga_admisible(f, h, c, s),
    ensures
        vista_de_carga(f, h, c, s).bien_formada(),
{
    let d = vista_de_carga(f, h, c, s);
    let idf = ids_de_familias(f);
    let idh = ids_de_hermanos(h);
    let idc = ids_de_cuotas(c);
    if f.len() > 0 {
        lema_ids_crecientes(idf, f.len() - 1);
    }
    if h.len() > 0 {
        lema_ids_crecientes(idh, h.len() - 1);
    }
    if c.len() > 0 {
        lema_ids_crecientes(idc, c.len() - 1);
    }
    assert forall|i: int| 0 <= i < f.len() implies (#[trigger] d.familias[i]).id is Some && 1
        <= d.familias[i].id->0 <= d.ultima_familia by {
        assert(idf[i] == f[i].id);
        lema_ids_crecientes(idf, i);
    }
    assert forall|i: int, j: int| 0 <= i < j < f.len() implies (#[trigger] d.familias[i]).id != (
    #[trigger] d.familias[j]).id by {
        assert(idf[i]->0 < idf[j]->0);
    }
    assert forall|i: int| 0 <= i < h.len() implies (#[trigger] d.hermanos[i]).id is Some && 1
        <= d.hermanos[i].id->0 <= d.ultimo_hermano by {
        assert(idh[i] == h[i].id);
        lema_ids_crecientes(idh, i);
    }
    assert forall|i: int, j: int| 0 <= i < j < h.len() implies (#[trigger] d.hermanos[i]).id != (
    #[trigger] d.hermanos[j]).id by {
        assert(idh[i]->0 < idh[j]->0);
    }
    assert forall|i: int| 0 <= i < c.len() implies {
        &&& (#[trigger] d.cuotas[i]).id is Some
        &&& 1 <= d.cuotas[i].id->0 <= d.ultima_cuota
        &&& 1 <= d.cuotas[i].trimestre <= 4
        &&& d.tiene_hermano(d.cuotas[i].hermano_id)
    } by {
        assert(idc[i] == c[i].id);
        lema_ids_crecientes(idc, i);
        let k = choose|k: int| es_de(h, c[i].hermano_id, k);
        assert(d.hermano_en(c[i].hermano_id, k));
    }
    assert forall|i: int, j: int| 0 <= i < j < c.len() implies (#[trigger] d.cuotas[i]).id != (
    #[trigger] d.cuotas[j]).id by {
        assert(idc[i]->0 < idc[j]->0);
    }
}

/// Whether the identifiers are all there, none below 1, in increasing
/// order; and the last of them.
fn comprobar_ids(ids: &Vec<Option<i32>>) -> (r: Option<i32>)
    ensures
        match r {
            Some(u) => ids_crecientes(ids@) && u == ultimo_id(ids@),
            None => !ids_crecientes(ids@),
        },
{
    let n: usize = ids.len();
    let mut ultimo: i32 = 0;
    let mut i: usize = 0;
    while i < n
        invariant
            n == ids@.len(),
            i <= n,
            ultimo >= 0,
            ultimo == ultimo_id(ids@.take(i as int)),
            ids_crecientes(ids@.take(i as int)),
        decreases n - i,
    {
        match ids[i] {
            Some(id) => {
                if id < 1 || id <= ultimo {
                    proof {
                        if id >= 1 {
                            assert(ids@.take(i as int).last() == ids@[i - 1]);
                            assert(!(ids@[i - 1]->0 < ids@[i as int]->0));
                        }
                    }
                    return None;
                }
                proof {
                    let antes = ids@.take(i as int);
                    let ahora = ids@.take(i + 1);
                    assert forall|a: int, b: int| 0 <= a < b < ahora.len() implies (
                    #[trigger] ahora[a])->0 < (#[trigger] ahora[b])->0 by {
                        if b < i {
                            assert(antes[a]->0 < antes[b]->0);
                        } else {
                            lema_ids_crecientes(antes, a);
                        }
                    }
                    assert forall|a: int| 0 <= a < ahora.len() implies (#[trigger] ahora[a]) is Some
                        && ahora[a]->0 >= 1 by {
                        if a < i {
                            assert(antes[a] is Some);
                        }
                    }
                }
                ultimo = id;
            },
            None => {
                return None;
            },
        }
        i = i + 1;
    }
    assert(ids@.take(n as int) =~= ids@);
    Some(ultimo)
}

fn nombres_sin_repetir(f: &Vec<Familia>) -> (r: bool)
    ensures
        r == nombres_distintos(vistas_familias(f@)),
{
    let n: usize = f.len();
    let mut j: usize = 0;
    while j < n
        invariant
            n == f@.len(),
            j <= n,
            forall|a: int, b: int|
                0 <= a < b < j ==> (#[trigger] f@[a])@.nombre_familia != (
                #[trigger] f@[b])@.nombre_familia,
        decreases n - j,
    {
        let mut i: usize = 0;
        while i < j
            invariant
                n == f@.len(),
                j < n,
                i <= j,
                forall|a: int|
                    0 <= a < i ==> (#[trigger] f@[a])@.nombre_familia != f@[j as int]@.nombre_familia,
            decreases j - i,
        {
            if texto_igual(f[i].nombre_familia.as_str(), f[j].nombre_familia.as_str()) {
                proof {
                    let v = vistas_familias(f@);
                    assert(v[i as int].nombre_familia == v[j as int].nombre_familia);
                }
                return false;
            }
            i = i + 1;
        }
        j = j + 1;
    }
    proof {
        let v = vistas_familias(f@);
        assert forall|a: int, b: int| 0 <= a < b < v.len() implies (#[trigger] v[a]).nombre_familia
            != (#[trigger] v[b]).nombre_familia by {
            assert(f@[a]@.nombre_familia != f@[b]@.nombre_familia);
        }
    }
    true
}

fn numeros_sin_repetir(h: &Vec<Hermano>) -> (r: bool)
    ensures
        r == numeros_distintos(vistas_hermanos(h@)),
{
    let n: usize = h.len();
    let mut j: usize = 0;
    while j < n
        invariant
            n == h@.len(),
            j <= n,
            forall|a: int, b: int|
                0 <= a < b < j ==> (#[trigger] h@[a])@.numero_hermano != (
                #[trigger] h@[b])@.numero_hermano,
        decreases n - j,
    {
        let mut i: usize = 0;
        while i < j
            invariant
                n == h@.len(),
                j < n,
                i <= j,
                forall|a: int|
                    0 <= a < i ==> (#[trigger] h@[a])@.numero_hermano != h@[j as int]@.numero_hermano,
            decreases j - i,
        {
            if texto_igual(h[i].numero_hermano.as_str(), h[j].numero_hermano.as_str()) {
                proof {
                    let v = vistas_hermanos(h@);
                    assert(v[i as int].numero_hermano == v[j as int].numero_hermano);
                }
                return false;
            }
            i = i + 1;
        }
        j = j + 1;
    }
    proof {
        let v = vistas_hermanos(h@);
        assert forall|a: int, b: int| 0 <= a < b < v.len() implies (#[trigger] v[a]).numero_hermano
            != (#[trigger] v[b]).numero_hermano by {
            assert(h@[a]@.numero_hermano != h@[b]@.numero_hermano);
        }
    }
    true
}

fn pertenece_a_alguno(h: &Vec<Hermano>, hermano_id: i32) -> (r: bool)
    ensures
        r == exists|k: int| es_de(vistas_hermanos(h@), hermano_id, k),
{
    let n: usize = h.len();
    let mut k: usize = 0;
    while k < n
        invariant
            n == h@.len(),
            k <= n,
            forall|q: int| 0 <= q < k ==> !es_de(vistas_hermanos(h@), hermano_id, q),
        decreases n - k,
    {
        if mismo_id(h[k].id, Some(hermano_id)) {
            assert(es_de(vistas_hermanos(h@), hermano_id, k as int));
            return true;
        }
        k = k + 1;
    }
    false
}

fn cuotas_en_regla(c: &Vec<Cuota>, h: &Vec<Hermano>) -> (r: bool)
    ensures
        r == cuotas_coherentes(vistas_cuotas(c@), vistas_hermanos(h@)),
{
    let ghost vc = vistas_cuotas(c@);
    let ghost vh = vistas_hermanos(h@);
    let n: usize = c.len();
    let mut j: usize = 0;
    while j < n
        invariant
            n == c@.len(),
            j <= n,
            vc == vistas_cuotas(c@),
            vh == vistas_hermanos(h@),
            forall|a: int|
                0 <= a < j ==> 1 <= (#[trigger] vc[a]).trimestre <= 4 && exists|k: int|
                    es_de(vh, vc[a].hermano_id, k),
            forall|a: int, b: int| 0 <= a < b < j ==> !mismo_periodo(#[trigger] vc[a], #[trigger] vc[b]),
        decreases n - j,
    {
        let x = &c[j];
        if x.trimestre < 1 || x.trimestre > 4 {
            assert(!(1 <= vc[j as int].trimestre <= 4));
            return false;
        }
        if !pertenece_a_alguno(h, x.hermano_id) {
            assert(!exists|k: int| es_de(vh, vc[j as int].hermano_id, k));
            return false;
        }
        proof {
            let k = choose|k: int| es_de(vh, x.hermano_id, k);
            assert(vc[j as int] == c@[j as int]@);
            assert(es_de(vh, vc[j as int].hermano_id, k));
        }
        let mut i: usize = 0;
        while i < j
            invariant
                n == c@.len(),
                j < n,
                i <= j,
                vc == vistas_cuotas(c@),
                forall|a: int| 0 <= a < i ==> !mismo_periodo(#[trigger] vc[a], vc[j as int]),
            decreases j - i,
        {
            let y = &c[i];
            if y.hermano_id == c[j].hermano_id && y.anio == c[j].anio && y.trimestre == c[j].trimestre {
                assert(mismo_periodo(vc[i as int], vc[j as int]));
                return false;
            }
            i = i + 1;
        }
        j = j + 1;
    }
    true
}

fn el_mayor(a: i32, b: i32) -> (r: i32)
    ensures
        r == mayor(a as int, b as int),
{
    if a >= b {
        a
    } else {
        b
    }
}

/// Makes a registry of rows that were stored elsewhere.
///
/// The rows are taken as they are, so they have to be admissible: see
/// [`carga_admisible`].  The clock of the new registry is not set.
pub fn init_database(
    familias: Vec<Familia>,
    hermanos: Vec<Hermano>,
    cuotas: Vec<Cuota>,
    secuencias: Secuencias,
) -> (r: Result<Database, DbError>)
    ensures
        r is Ok <==> carga_admisible(
            vistas_familias(familias@),
            vistas_hermanos(hermanos@),
            vistas_cuotas(cuotas@),
            secuencias,
        ),
        match r {
            Ok(db) => db.wf() && db@ == vista_de_carga(
                vistas_familias(familias@),
                vistas_hermanos(hermanos@),
                vistas_cuotas(cuotas@),
                secuencias,
            ),
            Err(e) => e == DbError::Almacenamiento(Restriccion::DatosInconsistentes),
        },
{
    let fallo = DbError::Almacenamiento(Restriccion::DatosInconsistentes);
    if secuencias.familias < 0 || secuencias.hermanos < 0 || secuencias.cuotas < 0 {
        return Err(fallo);
    }
    let mut idf: Vec<Option<i32>> = Vec::new();
    let mut i: usize = 0;
    while i < familias.len()
        invariant
            i <= familias@.len(),
            idf@ == ids_de_familias(vistas_familias(familias@)).take(i as int),
        decreases familias@.len() - i,
    {
        idf.push(familias[i].id);
        i = i + 1;
        assert(idf@ =~= ids_de_familias(vistas_familias(familias@)).take(i as int));
    }
    assert(idf@ =~= ids_de_familias(vistas_familias(familias@)));
    let mut idh: Vec<Option<i32>> = Vec::new();
    i = 0;
    while i < hermanos.len()
        invariant
            i <= hermanos@.len(),
            idh@ == ids_de_hermanos(vistas_hermanos(hermanos@)).take(i as int),
        decreases hermanos@.len() - i,
    {
        idh.push(hermanos[i].id);
        i = i + 1;
        assert(idh@ =~= ids_de_hermanos(vistas_hermanos(hermanos@)).take(i as int));
    }
    assert(idh@ =~= ids_de_hermanos(vistas_hermanos(hermanos@)));
    let mut idc: Vec<Option<i32>> = Vec::new();
    i = 0;
    while i < cuotas.len()
        invariant
            i <= cuotas@.len(),
            idc@ == ids_de_cuotas(vistas_cuotas(cuotas@)).take(i as int),
        decreases cuotas@.len() - i,
    {
        idc.push(cuotas[i].id);
        i = i + 1;
        assert(idc@ =~= ids_de_cuotas(vistas_cuotas(cuotas@)).take(i as int));
    }
    assert(idc@ =~= ids_de_cuotas(vistas_cuotas(cuotas@)));
    let uf: i32 = match comprobar_ids(&idf) {
        Some(u) => u,
        None => {
            return Err(fallo);
        },
    };
    let uh: i32 = match comprobar_ids(&idh) {
        Some(u) => u,
        None => {
            return Err(fallo);
        },
    };
    let uc: i32 = match comprobar_ids(&idc) {
        Some(u) => u,
        None => {
            return Err(fallo);
        },
    };
    if !nombres_sin_repetir(&familias) || !numeros_sin_repetir(&hermanos) || !cuotas_en_regla(
        &cuotas,
        &hermanos,
    ) {
        return Err(fallo);
    }
    proof {
        lema_carga(
            vistas_familias(familias@),
            vistas_hermanos(hermanos@),
            vistas_cuotas(cuotas@),
            secuencias,
        );
    }
    Ok(
        Database {
            familias: familias,
            hermanos: hermanos,
            cuotas: cuotas,
            ultima_familia: el_mayor(secuencias.familias, uf),
            ultimo_hermano: el_mayor(secuencias.hermanos, uh),
            ultima_cuota: el_mayor(secuencias.cuotas, uc),
            reloj: String::new(),
        },
    )
}

/// The last identifier that each table of `db` has handed out.
pub fn secuencias_de(db: &Database) -> (s: Secuencias)
    ensures
        s.familias == db@.ultima_familia,
        s.hermanos == db@.ultimo_hermano,
        s.cuotas == db@.ultima_cuota,
{
    Secuencias { familias: db.ultima_familia, hermanos: db.ultimo_hermano, cuotas: db.ultima_cuota }
}

} // verus!
