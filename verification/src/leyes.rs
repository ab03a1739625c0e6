//! What holds of the registry whatever its contents: the laws that relate
//! one operation to another.

use crate::conservacion::{
    lema_alta_familia, lema_alta_hermano, lema_buscar_cuota, lema_buscar_familia,
    lema_buscar_hermano, lema_cambio_familia, lema_generacion, lema_pago_cuota,
};
use crate::error::{ClaseError, DbError, ErrorAlta};
use crate::estado::{
    cuota_antes, en_orden, familia_enlazada, familia_nueva, por_nombre, por_numero, DatabaseView,
    OrdenCuotas,
};
use crate::modelo::{CuotaView, FamiliaView, HermanoView};
use crate::secuencias::{
    es_seleccion, lema_filtro_conserva, lema_filtro_elemento, lema_filtro_ninguno, lema_filtro_paso,
    lema_filtro_vacio,
};
use crate::texto::{
    decimal, es_cifra, es_numero_valido, lema_precede_asimetrica, numero_de_orden, precede,
};
use vstd::prelude::*;

verus! {

/// `r` is in the order `antes`: each row comes before all that follow.
pub open spec fn ordenado<T>(r: Seq<T>, antes: spec_fn(T, T) -> bool) -> bool {
    forall|a: int, b: int| 0 <= a < b < r.len() ==> antes(#[trigger] r[a], #[trigger] r[b])
}

/// A listing is determined by what it selects and the order it is in:
/// two sequences that hold exactly the rows of a table that pass a
/// filter, both in one strict order, are the same sequence.
pub proof fn ley_listado_unico<T>(
    r1: Seq<T>,
    r2: Seq<T>,
    tabla: Seq<T>,
    filtro: spec_fn(T) -> bool,
    antes: spec_fn(T, T) -> bool,
)
    requires
        es_seleccion(r1, tabla, filtro),
        es_seleccion(r2, tabla, filtro),
        ordenado(r1, antes),
        ordenado(r2, antes),
        forall|x: T, y: T| #[trigger] antes(x, y) ==> !antes(y, x) && x != y,
    ensures
        r1 == r2,
    decreases r1.len(),
{
    if r1.len() == 0 {
        if r2.len() > 0 {
            assert(tabla.contains(r2[0]));
            let i = choose|i: int| 0 <= i < tabla.len() && tabla[i] == r2[0];
            assert(r1.contains(tabla[i]));
        }
        assert(r1 =~= r2);
    } else {
        let m = r1.last();
        lema_ultimo(r1, r2, tabla, filtro, antes);
        lema_ultimo(r2, r1, tabla, filtro, antes);
        let z = r2.last();
        let i = choose|i: int| 0 <= i < r1.len() && r1[i] == z;
        let j = choose|j: int| 0 <= j < r2.len() && r2[j] == m;
        if i < r1.len() - 1 {
            assert(antes(r1[i], r1[r1.len() - 1]));
            if j < r2.len() - 1 {
                assert(antes(r2[j], r2[r2.len() - 1]));
            }
        }
        assert(z == m);
        let resto = |x: T| filtro(x) && x != m;
        lema_sin_ultimo(r1, tabla, filtro, antes);
        lema_sin_ultimo(r2, tabla, filtro, antes);
        assert(ordenado(r1.drop_last(), antes)) by {
            assert forall|a: int, b: int| 0 <= a < b < r1.drop_last().len() implies antes(
                #[trigger] r1.drop_last()[a],
                #[trigger] r1.drop_last()[b],
            ) by {
                assert(antes(r1[a], r1[b]));
            }
        }
        assert(ordenado(r2.drop_last(), antes)) by {
            assert forall|a: int, b: int| 0 <= a < b < r2.drop_last().len() implies antes(
                #[trigger] r2.drop_last()[a],
                #[trigger] r2.drop_last()[b],
            ) by {
                assert(antes(r2[a], r2[b]));
            }
        }
        ley_listado_unico(r1.drop_last(), r2.drop_last(), tabla, resto, antes);
        assert(r1 =~= r1.drop_last().push(m));
        assert(r2 =~= r2.drop_last().push(z));
    }
}

/// The last row of one listing stands in the other.
proof fn lema_ultimo<T>(
    r1: Seq<T>,
    r2: Seq<T>,
    tabla: Seq<T>,
    filtro: spec_fn(T) -> bool,
    antes: spec_fn(T, T) -> bool,
)
    requires
        es_seleccion(r1, tabla, filtro),
        es_seleccion(r2, tabla, filtro),
        r1.len() > 0,
    ensures
        r2.len() > 0,
        exists|j: int| 0 <= j < r2.len() && r2[j] == r1.last(),
{
    let m = r1[r1.len() - 1];
    assert(tabla.contains(m));
    let i = choose|i: int| 0 <= i < tabla.len() && tabla[i] == m;
    assert(r2.contains(tabla[i]));
}

/// A listing without its last row is the listing of the rows that pass
/// the filter and are not that row.
proof fn lema_sin_ultimo<T>(
    r: Seq<T>,
    tabla: Seq<T>,
    filtro: spec_fn(T) -> bool,
    antes: spec_fn(T, T) -> bool,
)
    requires
        es_seleccion(r, tabla, filtro),
        ordenado(r, antes),
        r.len() > 0,
        forall|x: T, y: T| #[trigger] antes(x, y) ==> !antes(y, x) && x != y,
    ensures
        es_seleccion(r.drop_last(), tabla, |x: T| filtro(x) && x != r.last()),
{
    let m = r.last();
    let corto = r.drop_last();
    let resto = |x: T| filtro(x) && x != m;
    assert forall|k: int| 0 <= k < corto.len() implies tabla.contains(#[trigger] corto[k]) && resto(
        corto[k],
    ) by {
        assert(corto[k] == r[k]);
        assert(antes(r[k], r[r.len() - 1]));
    }
    assert forall|i: int| 0 <= i < tabla.len() && resto(#[trigger] tabla[i]) implies corto.contains(
        tabla[i],
    ) by {
        assert(r.contains(tabla[i]));
        let k = choose|k: int| 0 <= k < r.len() && r[k] == tabla[i];
        assert(corto[k] == tabla[i]);
    }
}

/// The listings of members are determined: what is selected, in the
/// order of the member numbers.
pub proof fn ley_listado_de_hermanos(
    r1: Seq<HermanoView>,
    r2: Seq<HermanoView>,
    tabla: Seq<HermanoView>,
    filtro: spec_fn(HermanoView) -> bool,
)
    requires
        es_seleccion(r1, tabla, filtro),
        es_seleccion(r2, tabla, filtro),
        por_numero(r1),
        por_numero(r2),
    ensures
        r1 == r2,
{
    let antes = |x: HermanoView, y: HermanoView| precede(x.numero_hermano, y.numero_hermano);
    assert forall|x: HermanoView, y: HermanoView| #[trigger] antes(x, y) implies !antes(y, x) && x
        != y by {
        lema_precede_asimetrica(x.numero_hermano, y.numero_hermano);
    }
    ley_listado_unico(r1, r2, tabla, filtro, antes);
}

/// The listings of families are determined: what is selected, in the
/// order of the names.
pub proof fn ley_listado_de_familias(
    r1: Seq<FamiliaView>,
    r2: Seq<FamiliaView>,
    tabla: Seq<FamiliaView>,
    filtro: spec_fn(FamiliaView) -> bool,
)
    requires
        es_seleccion(r1, tabla, filtro),
        es_seleccion(r2, tabla, filtro),
        por_nombre(r1),
        por_nombre(r2),
    ensures
        r1 == r2,
{
    let antes = |x: FamiliaView, y: FamiliaView| precede(x.nombre_familia, y.nombre_familia);
    assert forall|x: FamiliaView, y: FamiliaView| #[trigger] antes(x, y) implies !antes(y, x) && x
        != y by {
        lema_precede_asimetrica(x.nombre_familia, y.nombre_familia);
    }
    ley_listado_unico(r1, r2, tabla, filtro, antes);
}

/// The listings of dues are determined: what is selected, in the order
/// of the listing.
pub proof fn ley_listado_de_cuotas(
    r1: Seq<CuotaView>,
    r2: Seq<CuotaView>,
    tabla: Seq<CuotaView>,
    filtro: spec_fn(CuotaView) -> bool,
    orden: OrdenCuotas,
)
    requires
        es_seleccion(r1, tabla, filtro),
        es_seleccion(r2, tabla, filtro),
        en_orden(orden, r1),
        en_orden(orden, r2),
    ensures
        r1 == r2,
{
    let antes = |x: CuotaView, y: CuotaView| cuota_antes(orden, x, y);
    ley_listado_unico(r1, r2, tabla, filtro, antes);
}

/// Generating dues is idempotent: once dues have been generated for a
/// year and quarter, no member is left to serve, and generating again,
/// for whatever amount, changes nothing.
pub proof fn ley_generacion_idempotente(
    d: DatabaseView,
    anio: i32,
    trimestre: i32,
    importe: u64,
    otro_importe: u64,
)
    requires
        d.bien_formada(),
        d.error_generacion(anio, trimestre) is None,
    ensures
        d.generacion(anio, trimestre, importe).hermanos_sin_cuota(anio, trimestre).len() == 0,
        d.generacion(anio, trimestre, importe).error_generacion(anio, trimestre) is None,
        d.generacion(anio, trimestre, importe).generacion(anio, trimestre, otro_importe)
            == d.generacion(anio, trimestre, importe),
{
    let e = d.generacion(anio, trimestre, importe);
    let p = |h: HermanoView| d.le_falta_cuota(h, anio, trimestre);
    let q = |h: HermanoView| e.le_falta_cuota(h, anio, trimestre);
    let faltan = d.hermanos_sin_cuota(anio, trimestre);
    let n = d.cuotas.len() as int;
    lema_generacion(d, anio, trimestre, importe);
    assert forall|i: int| 0 <= i < e.hermanos.len() implies !q(#[trigger] e.hermanos[i]) by {
        let h = d.hermanos[i];
        if h.activo {
            let m = h.id->0;
            if d.periodo_ocupado(m, anio, trimestre, None) {
                let k = choose|k: int|
                    d.periodo_en(m, anio, trimestre, k) && d.cuotas[k].id != None::<i32>;
                assert(e.periodo_en(m, anio, trimestre, k));
            } else {
                assert(p(h));
                lema_filtro_conserva(d.hermanos, p, i);
                let k = choose|k: int| 0 <= k < faltan.len() && #[trigger] faltan[k] == d.hermanos[i];
                assert(e.cuotas[n + k] == d.cuota_generada(k, m, anio, trimestre, importe));
                assert(e.periodo_en(m, anio, trimestre, n + k));
            }
        }
    }
    lema_filtro_ninguno(e.hermanos, q);
    assert(e.cuotas_generadas(anio, trimestre, otro_importe) =~= Seq::<CuotaView>::empty());
    assert(e.cuotas + e.cuotas_generadas(anio, trimestre, otro_importe) =~= e.cuotas);
}

/// The decimal form of a number is made of digits, one at least.
proof fn lema_decimal(n: nat)
    ensures
        decimal(n).len() >= 1,
        n < 10 ==> decimal(n).len() == 1,
        10 <= n ==> decimal(n).len() == decimal(n / 10).len() + 1,
        forall|i: int| 0 <= i < decimal(n).len() ==> es_cifra(#[trigger] decimal(n)[i]),
    decreases n,
{
    if n >= 10 {
        lema_decimal(n / 10);
    }
}

/// The number that stands for an ordinal below 100000 is a well-formed
/// member number: the registry can read what it writes.
pub proof fn ley_numero_generado(n: nat)
    requires
        n < 100000,
    ensures
        es_numero_valido(numero_de_orden(n)),
{
    lema_decimal(n);
    lema_decimal(n / 10);
    lema_decimal(n / 100);
    lema_decimal(n / 1000);
    lema_decimal(n / 10000);
    assert(n / 10 / 10 == n / 100 && n / 100 / 10 == n / 1000 && n / 1000 / 10 == n / 10000);
    let d = decimal(n);
    assert(d.len() <= 5);
    let r = numero_de_orden(n);
    assert(r.len() == 5);
    assert forall|i: int| 0 <= i < r.len() implies es_cifra(#[trigger] r[i]) by {
        if i >= 5 - d.len() {
            assert(r[i] == d[i - (5 - d.len())]);
        }
    }
}

/// A member number that is written as five digits is kept as written.
pub proof fn ley_numero_escrito(d: DatabaseView, escrito: Seq<char>)
    requires
        es_numero_valido(escrito),
    ensures
        d.numero_asignado(escrito) == escrito,
{
}

/// A member number that is written and is not five digits is refused,
/// whatever else the member holds; nothing is trimmed away first.
pub proof fn ley_numero_mal_escrito(d: DatabaseView, h: HermanoView)
    requires
        h.numero_hermano.len() > 0,
        !es_numero_valido(h.numero_hermano),
    ensures
        d.error_alta_hermano(h) is Some,
        d.error_alta_hermano(h)->0.clase_de() == ClaseError::Validacion,
{
}

/// A member without a name or without a first surname is neither
/// registered nor written over another.
pub proof fn ley_nombre_obligatorio(d: DatabaseView, id: i32, h: HermanoView)
    requires
        h.nombre.len() == 0 || h.primer_apellido.len() == 0,
    ensures
        d.error_alta_hermano(h) == Some(DbError::NombreObligatorio),
        d.error_cambio_hermano(id, h) == Some(DbError::NombreObligatorio),
{
}

/// A family to which an active member belongs is refused deletion.
pub proof fn ley_borrado_con_activos(d: DatabaseView, familia_id: i32, i: int)
    requires
        d.activo_de_familia_en(familia_id, i),
    ensures
        d.error_borrado_familia(familia_id) == Some(DbError::FamiliaConHermanosActivos),
{
}

/// Once the one active member that stood in the way has been set
/// inactive, the deletion of the family goes through.
pub proof fn ley_borrado_tras_baja(d: DatabaseView, familia_id: i32, hermano_id: i32)
    requires
        d.bien_formada(),
        forall|i: int|
            d.activo_de_familia_en(familia_id, i) ==> d.hermanos[i].id == Some(hermano_id),
    ensures
        d.baja_hermano(hermano_id).error_borrado_familia(familia_id) is None,
{
    let e = d.baja_hermano(hermano_id);
    assert forall|i: int| !e.activo_de_familia_en(familia_id, i) by {
        if e.activo_de_familia_en(familia_id, i) {
            if d.hermanos[i].id != Some(hermano_id) {
                assert(d.activo_de_familia_en(familia_id, i));
            }
        }
    }
}

/// Likewise once the one member that stood in the way has been moved to
/// another family, or to none.
pub proof fn ley_borrado_tras_traslado(
    d: DatabaseView,
    familia_id: i32,
    hermano_id: i32,
    destino: Option<i32>,
)
    requires
        d.bien_formada(),
        destino != Some(familia_id),
        forall|i: int|
            d.activo_de_familia_en(familia_id, i) ==> d.hermanos[i].id == Some(hermano_id),
    ensures
        d.traslado_hermano(hermano_id, destino).error_borrado_familia(familia_id) is None,
{
    let e = d.traslado_hermano(hermano_id, destino);
    assert forall|i: int| !e.activo_de_familia_en(familia_id, i) by {
        if e.activo_de_familia_en(familia_id, i) {
            if d.hermanos[i].id != Some(hermano_id) {
                assert(d.activo_de_familia_en(familia_id, i));
            }
        }
    }
}

/// Marking a due as paid sets the flag and records the date and the
/// method that were given; the amount, the notes and the period stay as
/// they were, and no other due changes.
pub proof fn ley_pago(d: DatabaseView, id: i32, fecha: Seq<char>, metodo: Seq<char>)
    requires
        d.bien_formada(),
        d.tiene_cuota(id),
    ensures
        d.pago_cuota(id, fecha, metodo).buscar_cuota(id) == Some(
            CuotaView {
                pagado: true,
                fecha_pago: Some(fecha),
                metodo_pago: Some(metodo),
                updated_at: Some(d.reloj),
                ..d.buscar_cuota(id)->0
            },
        ),
        d.pago_cuota(id, fecha, metodo).buscar_cuota(id)->0.importe == d.buscar_cuota(id)->0.importe,
        forall|otra: i32|
            otra != id ==> d.pago_cuota(id, fecha, metodo).buscar_cuota(otra) == d.buscar_cuota(otra),
{
    let e = d.pago_cuota(id, fecha, metodo);
    lema_pago_cuota(d, id, fecha, metodo);
    let i = choose|i: int| d.cuota_en(id, i);
    lema_buscar_cuota(d, id, i);
    assert(e.cuota_en(id, i));
    lema_buscar_cuota(e, id, i);
    assert forall|otra: i32| otra != id implies e.buscar_cuota(otra) == d.buscar_cuota(otra) by {
        if d.tiene_cuota(otra) {
            let k = choose|k: int| d.cuota_en(otra, k);
            lema_buscar_cuota(d, otra, k);
            assert(e.cuota_en(otra, k));
            lema_buscar_cuota(e, otra, k);
        } else if e.tiene_cuota(otra) {
            let k = choose|k: int| e.cuota_en(otra, k);
            assert(d.cuota_en(otra, k));
        }
    }
}

/// How a member is classed: in good standing where it has dues in scope
/// and all of them are paid, delinquent where one of them is unpaid, and
/// neither where it has no due in scope.  No member is in both classes.
pub proof fn ley_clasificacion(d: DatabaseView, hermano_id: i32, anio: Option<i32>)
    ensures
        (d.tiene_cuotas(hermano_id, anio) && forall|i: int|
            d.cuota_de_en(hermano_id, anio, i) ==> d.cuotas[i].pagado) ==> d.esta_al_dia(
            hermano_id,
            anio,
        ),
        (exists|i: int| d.cuota_de_en(hermano_id, anio, i) && !d.cuotas[i].pagado) ==> d.es_moroso(
            hermano_id,
            anio,
        ),
        !d.tiene_cuotas(hermano_id, anio) ==> !d.esta_al_dia(hermano_id, anio) && !d.es_moroso(
            hermano_id,
            anio,
        ),
        !(d.esta_al_dia(hermano_id, anio) && d.es_moroso(hermano_id, anio)),
{
    if !d.tiene_cuotas(hermano_id, anio) && d.es_moroso(hermano_id, anio) {
        let i = choose|i: int| d.cuota_de_en(hermano_id, anio, i) && !d.cuotas[i].pagado;
        assert(d.cuota_de_en(hermano_id, anio, i));
    }
}

/// A member is counted among those in good standing exactly where it
/// is in good standing, and among the delinquent exactly where it is
/// delinquent.
pub proof fn ley_contado(d: DatabaseView, i: int, anio: Option<i32>)
    requires
        d.bien_formada(),
        0 <= i < d.hermanos.len(),
    ensures
        d.hermanos.filter(
            |h: HermanoView| h.id is Some && d.esta_al_dia(h.id->0, anio),
        ).contains(d.hermanos[i]) <==> d.esta_al_dia(d.hermanos[i].id->0, anio),
        d.hermanos.filter(|h: HermanoView| h.id is Some && d.es_moroso(h.id->0, anio)).contains(
            d.hermanos[i],
        ) <==> d.es_moroso(d.hermanos[i].id->0, anio),
{
    let al_dia = |h: HermanoView| h.id is Some && d.esta_al_dia(h.id->0, anio);
    let morosos = |h: HermanoView| h.id is Some && d.es_moroso(h.id->0, anio);
    let fa = d.hermanos.filter(al_dia);
    let fm = d.hermanos.filter(morosos);
    assert(d.hermanos[i].id is Some);
    if al_dia(d.hermanos[i]) {
        lema_filtro_conserva(d.hermanos, al_dia, i);
    }
    if morosos(d.hermanos[i]) {
        lema_filtro_conserva(d.hermanos, morosos, i);
    }
    if fa.contains(d.hermanos[i]) {
        let k = choose|k: int| 0 <= k < fa.len() && fa[k] == d.hermanos[i];
        lema_filtro_elemento(d.hermanos, al_dia, k);
    }
    if fm.contains(d.hermanos[i]) {
        let k = choose|k: int| 0 <= k < fm.len() && fm[k] == d.hermanos[i];
        lema_filtro_elemento(d.hermanos, morosos, k);
    }
}

/// Counting the rows of members whose identifier has a property counts
/// the identifiers that have it, as far as they are identifiers of
/// members: no member is counted twice.
proof fn lema_recuento_por_id(d: DatabaseView, p: spec_fn(i32) -> bool, k: int)
    requires
        d.bien_formada(),
        0 <= k <= d.hermanos.len(),
    ensures
        Set::new(|m: i32| p(m) && exists|i: int| 0 <= i < k && d.hermano_en(m, i)).finite(),
        Set::new(|m: i32| p(m) && exists|i: int| 0 <= i < k && d.hermano_en(m, i)).len()
            == d.hermanos.take(k).filter(|h: HermanoView| h.id is Some && p(h.id->0)).len(),
    decreases k,
{
    let f = |h: HermanoView| h.id is Some && p(h.id->0);
    let s = Set::new(|m: i32| p(m) && exists|i: int| 0 <= i < k && d.hermano_en(m, i));
    if k == 0 {
        assert(s =~= Set::<i32>::empty());
        assert(d.hermanos.take(0) =~= Seq::<HermanoView>::empty());
        lema_filtro_vacio(f);
    } else {
        let antes = Set::new(
            |m: i32| p(m) && exists|i: int| 0 <= i < k - 1 && d.hermano_en(m, i),
        );
        lema_recuento_por_id(d, p, k - 1);
        lema_filtro_paso(d.hermanos, f, k - 1);
        let h = d.hermanos[k - 1];
        assert(h.id is Some);
        let id = h.id->0;
        assert(d.hermano_en(id, k - 1));
        if p(id) {
            assert(!antes.contains(id)) by {
                if antes.contains(id) {
                    let i = choose|i: int| 0 <= i < k - 1 && d.hermano_en(id, i);
                    assert(d.hermanos[i].id != d.hermanos[k - 1].id);
                }
            }
            assert(s =~= antes.insert(id)) by {
                assert forall|m: i32| s.contains(m) implies antes.insert(id).contains(m) by {
                    let i = choose|i: int| 0 <= i < k && d.hermano_en(m, i);
                    if i < k - 1 {
                        assert(antes.contains(m));
                    }
                }
                assert forall|m: i32| antes.insert(id).contains(m) implies s.contains(m) by {
                    if m != id {
                        let i = choose|i: int| 0 <= i < k - 1 && d.hermano_en(m, i);
                        assert(0 <= i < k && d.hermano_en(m, i));
                    }
                }
            }
        } else {
            assert(s =~= antes) by {
                assert forall|m: i32| s.contains(m) implies antes.contains(m) by {
                    let i = choose|i: int| 0 <= i < k && d.hermano_en(m, i);
                    assert(i < k - 1);
                }
                assert forall|m: i32| antes.contains(m) implies s.contains(m) by {
                    let i = choose|i: int| 0 <= i < k - 1 && d.hermano_en(m, i);
                    assert(0 <= i < k && d.hermano_en(m, i));
                }
            }
        }
    }
}

/// The delinquent that the statistics count are the distinct members
/// that have an unpaid due in scope, and those in good standing the
/// distinct members that have dues in scope, all of them paid.
pub proof fn ley_miembros_distintos(d: DatabaseView, anio: Option<i32>)
    requires
        d.bien_formada(),
    ensures
        Set::new(|m: i32| d.es_moroso(m, anio)).finite(),
        Set::new(|m: i32| d.es_moroso(m, anio)).len() == d.hermanos_morosos(anio),
        Set::new(|m: i32| d.esta_al_dia(m, anio)).finite(),
        Set::new(|m: i32| d.esta_al_dia(m, anio)).len() == d.hermanos_al_dia(anio),
{
    let n = d.hermanos.len() as int;
    assert(d.hermanos.take(n) =~= d.hermanos);
    let moroso = |m: i32| d.es_moroso(m, anio);
    let al_dia = |m: i32| d.esta_al_dia(m, anio);
    lema_recuento_por_id(d, moroso, n);
    lema_recuento_por_id(d, al_dia, n);
    assert(Set::new(|m: i32| d.es_moroso(m, anio)) =~= Set::new(
        |m: i32| moroso(m) && exists|i: int| 0 <= i < n && d.hermano_en(m, i),
    )) by {
        assert forall|m: i32| d.es_moroso(m, anio) implies exists|i: int|
            0 <= i < n && d.hermano_en(m, i) by {
            let c = choose|c: int| d.cuota_de_en(m, anio, c) && !d.cuotas[c].pagado;
            assert(d.tiene_hermano(d.cuotas[c].hermano_id));
            let i = choose|i: int| d.hermano_en(m, i);
            assert(0 <= i < n && d.hermano_en(m, i));
        }
    }
    assert(Set::new(|m: i32| d.esta_al_dia(m, anio)) =~= Set::new(
        |m: i32| al_dia(m) && exists|i: int| 0 <= i < n && d.hermano_en(m, i),
    )) by {
        assert forall|m: i32| d.esta_al_dia(m, anio) implies exists|i: int|
            0 <= i < n && d.hermano_en(m, i) by {
            let c = choose|c: int| d.cuota_de_en(m, anio, c);
            assert(d.tiene_hermano(d.cuotas[c].hermano_id));
            let i = choose|i: int| d.hermano_en(m, i);
            assert(0 <= i < n && d.hermano_en(m, i));
        }
    }
    assert(d.hermanos.filter(|h: HermanoView| h.id is Some && moroso(h.id->0))
        == d.hermanos.filter(|h: HermanoView| h.id is Some && d.es_moroso(h.id->0, anio))) by {
        assert((|h: HermanoView| h.id is Some && moroso(h.id->0)) =~= (|h: HermanoView|
            h.id is Some && d.es_moroso(h.id->0, anio)));
    }
    assert(d.hermanos.filter(|h: HermanoView| h.id is Some && al_dia(h.id->0))
        == d.hermanos.filter(|h: HermanoView| h.id is Some && d.esta_al_dia(h.id->0, anio))) by {
        assert((|h: HermanoView| h.id is Some && al_dia(h.id->0)) =~= (|h: HermanoView|
            h.id is Some && d.esta_al_dia(h.id->0, anio)));
    }
}

/// Every member is counted at most once: those in good standing and the
/// delinquent together are no more than the members.
pub proof fn ley_recuento(d: DatabaseView, anio: Option<i32>)
    ensures
        d.hermanos_al_dia(anio) + d.hermanos_morosos(anio) <= d.hermanos.len(),
{
    let al_dia = |h: HermanoView| h.id is Some && d.esta_al_dia(h.id->0, anio);
    let morosos = |h: HermanoView| h.id is Some && d.es_moroso(h.id->0, anio);
    lema_clases_disjuntas(d.hermanos, al_dia, morosos);
}

proof fn lema_clases_disjuntas(
    s: Seq<HermanoView>,
    a: spec_fn(HermanoView) -> bool,
    b: spec_fn(HermanoView) -> bool,
)
    requires
        forall|i: int| 0 <= i < s.len() ==> !(a(#[trigger] s[i]) && b(s[i])),
    ensures
        s.filter(a).len() + s.filter(b).len() <= s.len(),
    decreases s.len(),
{
    reveal(Seq::filter);
    if s.len() > 0 {
        assert forall|i: int| 0 <= i < s.drop_last().len() implies !(a(#[trigger] s.drop_last()[i])
            && b(s.drop_last()[i])) by {
            assert(s.drop_last()[i] == s[i]);
        }
        lema_clases_disjuntas(s.drop_last(), a, b);
        assert(s.last() == s[s.len() - 1]);
    }
}

/// A member that has just been registered is found under the identifier
/// that the registration returned, as the row that the registration
/// stored: the caller's fields, blank optional texts absent, with the
/// number, the identifier and the time stamps that the registry assigned.
pub proof fn ley_alta_y_consulta(d: DatabaseView, h: HermanoView)
    requires
        d.bien_formada(),
        d.error_alta_hermano(h) is None,
    ensures
        d.alta_hermano(h).buscar_hermano((d.ultimo_hermano + 1) as i32) == Some(
            d.fila_alta_hermano(h),
        ),
{
    let e = d.alta_hermano(h);
    lema_alta_hermano(d, h);
    let i = d.hermanos.len() as int;
    assert(e.hermano_en((d.ultimo_hermano + 1) as i32, i));
    lema_buscar_hermano(e, (d.ultimo_hermano + 1) as i32, i);
}

/// Where the member is written in the form in which it is stored (a
/// member number of five digits, no optional text that is blank), the
/// row found after the registration equals what was written in every
/// field but the identifier and the two time stamps.
pub proof fn ley_ida_y_vuelta(d: DatabaseView, h: HermanoView)
    requires
        d.bien_formada(),
        d.error_alta_hermano(h) is None,
        es_numero_valido(h.numero_hermano),
        h.normalizado() == h,
    ensures
        d.alta_hermano(h).buscar_hermano((d.ultimo_hermano + 1) as i32) == Some(
            HermanoView {
                id: Some((d.ultimo_hermano + 1) as i32),
                created_at: Some(d.reloj),
                updated_at: Some(d.reloj),
                ..h
            },
        ),
{
    ley_alta_y_consulta(d, h);
    ley_numero_escrito(d, h.numero_hermano);
}

/// A registration with a family name that no family carries yet, of a
/// member that can be stored, returns the member's identifier and leaves
/// a well-formed registry in which the new family carries that name and
/// points at the new member, and the new member belongs to the new
/// family.
pub proof fn ley_alta_con_familia(d: DatabaseView, h: HermanoView, nombre: Seq<char>)
    requires
        d.bien_formada(),
        d.error_alta_familia(familia_nueva(nombre)) is None,
        d.alta_familia(familia_nueva(nombre)).error_alta_hermano(
            HermanoView { familia_id: Some((d.ultima_familia + 1) as i32), ..h },
        ) is None,
    ensures
        ({
            let (e, r) = d.alta_con_familia(h, Some(nombre));
            let familia_id = (d.ultima_familia + 1) as i32;
            let hermano_id = (d.ultimo_hermano + 1) as i32;
            &&& r == Ok::<i32, ErrorAlta>(hermano_id)
            &&& e.bien_formada()
            &&& e.buscar_familia(familia_id) is Some
            &&& e.buscar_familia(familia_id)->0.nombre_familia == nombre
            &&& e.buscar_familia(familia_id)->0.hermano_direccion_id == Some(hermano_id)
            &&& e.buscar_hermano(hermano_id) is Some
            &&& e.buscar_hermano(hermano_id)->0.familia_id == Some(familia_id)
        }),
{
    let familia_id = (d.ultima_familia + 1) as i32;
    let hermano_id = (d.ultimo_hermano + 1) as i32;
    let miembro = HermanoView { familia_id: Some(familia_id), ..h };
    let d1 = d.alta_familia(familia_nueva(nombre));
    lema_alta_familia(d, familia_nueva(nombre));
    let d2 = d1.alta_hermano(miembro);
    lema_alta_hermano(d1, miembro);
    let enlace = familia_enlazada(familia_id, nombre, hermano_id);
    let k = d.familias.len() as int;
    assert(d2.familia_en(familia_id, k));
    assert(!d2.nombre_ocupado(nombre, Some(familia_id))) by {
        if d2.nombre_ocupado(nombre, Some(familia_id)) {
            let i = choose|i: int| d2.nombre_en(nombre, i) && d2.familias[i].id != Some(familia_id);
            assert(d.nombre_en(nombre, i));
            assert(d.familias[i].id is Some);
        }
    }
    let d3 = d2.cambio_familia(familia_id, enlace);
    lema_cambio_familia(d2, familia_id, enlace);
    assert(d3.familia_en(familia_id, k));
    lema_buscar_familia(d3, familia_id, k);
    let j = d.hermanos.len() as int;
    assert(d3.hermano_en(hermano_id, j));
    lema_buscar_hermano(d3, hermano_id, j);
}

/// Between the storing of the member and the pointing of the family at
/// it, the family stands without an address of record.  That is the
/// state a registration leaves behind where the last step fails.
pub proof fn ley_alta_sin_enlace(d: DatabaseView, h: HermanoView, nombre: Seq<char>)
    requires
        d.bien_formada(),
        d.error_alta_familia(familia_nueva(nombre)) is None,
        d.alta_familia(familia_nueva(nombre)).error_alta_hermano(
            HermanoView { familia_id: Some((d.ultima_familia + 1) as i32), ..h },
        ) is None,
    ensures
        ({
            let familia_id = (d.ultima_familia + 1) as i32;
            let e = d.alta_familia(familia_nueva(nombre)).alta_hermano(
                HermanoView { familia_id: Some(familia_id), ..h },
            );
            &&& e.bien_formada()
            &&& e.buscar_familia(familia_id) is Some
            &&& e.buscar_familia(familia_id)->0.hermano_direccion_id is None
        }),
{
    let familia_id = (d.ultima_familia + 1) as i32;
    let miembro = HermanoView { familia_id: Some(familia_id), ..h };
    let d1 = d.alta_familia(familia_nueva(nombre));
    lema_alta_familia(d, familia_nueva(nombre));
    let d2 = d1.alta_hermano(miembro);
    lema_alta_hermano(d1, miembro);
    let k = d.familias.len() as int;
    assert(d2.familia_en(familia_id, k));
    lema_buscar_familia(d2, familia_id, k);
}

} // verus!
