//! Selections from a table, and the facts about filtered sequences that
//! the proofs of the registry share.

use vstd::prelude::*;

verus! {

/// `r` holds exactly the rows of `tabla` that pass `filtro`.
pub open spec fn es_seleccion<T>(r: Seq<T>, tabla: Seq<T>, filtro: spec_fn(T) -> bool) -> bool {
    &&& forall|k: int| 0 <= k < r.len() ==> tabla.contains(#[trigger] r[k]) && filtro(r[k])
    &&& forall|i: int| 0 <= i < tabla.len() && filtro(#[trigger] tabla[i]) ==> r.contains(tabla[i])
}

/// Where the next row of the table passes the filter, putting it
/// anywhere into the selection from the rows before it gives the
/// selection from the rows up to it.
pub proof fn lema_seleccion_con<T>(
    antes: Seq<T>,
    tabla: Seq<T>,
    filtro: spec_fn(T) -> bool,
    i: int,
    p: int,
)
    requires
        0 <= i < tabla.len(),
        0 <= p <= antes.len(),
        es_seleccion(antes, tabla.take(i), filtro),
        filtro(tabla[i]),
    ensures
        es_seleccion(antes.insert(p, tabla[i]), tabla.take(i + 1), filtro),
{
    let ahora = antes.insert(p, tabla[i]);
    assert forall|k: int| 0 <= k < ahora.len() implies tabla.take(i + 1).contains(
        #[trigger] ahora[k],
    ) && filtro(ahora[k]) by {
        if k == p {
            assert(tabla.take(i + 1)[i] == ahora[k]);
        } else {
            let k0 = if k < p {
                k
            } else {
                k - 1
            };
            assert(ahora[k] == antes[k0]);
            assert(tabla.take(i).contains(antes[k0]));
            let q = choose|q: int| 0 <= q < i && tabla.take(i)[q] == antes[k0];
            assert(tabla.take(i + 1)[q] == ahora[k]);
        }
    }
    assert forall|q: int| 0 <= q < i + 1 && filtro(#[trigger] tabla.take(i + 1)[q]) implies ahora.contains(
        tabla.take(i + 1)[q],
    ) by {
        if q == i {
            assert(ahora[p] == tabla[q]);
        } else {
            assert(tabla.take(i)[q] == tabla[q]);
            assert(antes.contains(tabla.take(i)[q]));
            let k0 = choose|k0: int| 0 <= k0 < antes.len() && antes[k0] == tabla[q];
            let k = if k0 < p {
                k0
            } else {
                k0 + 1
            };
            assert(ahora[k] == tabla[q]);
        }
    }
}

/// Where the next row of the table does not pass the filter, the
/// selection from the rows before it is the selection from the rows up
/// to it.
pub proof fn lema_seleccion_sin<T>(antes: Seq<T>, tabla: Seq<T>, filtro: spec_fn(T) -> bool, i: int)
    requires
        0 <= i < tabla.len(),
        es_seleccion(antes, tabla.take(i), filtro),
        !filtro(tabla[i]),
    ensures
        es_seleccion(antes, tabla.take(i + 1), filtro),
{
    assert forall|k: int| 0 <= k < antes.len() implies tabla.take(i + 1).contains(
        #[trigger] antes[k],
    ) && filtro(antes[k]) by {
        assert(tabla.take(i).contains(antes[k]));
        let q = choose|q: int| 0 <= q < i && tabla.take(i)[q] == antes[k];
        assert(tabla.take(i + 1)[q] == antes[k]);
    }
    assert forall|q: int| 0 <= q < i + 1 && filtro(#[trigger] tabla.take(i + 1)[q]) implies antes.contains(
        tabla.take(i + 1)[q],
    ) by {
        assert(tabla.take(i)[q] == tabla[q]);
    }
}

/// Filtering one element more either appends it or changes nothing.
pub proof fn lema_filtro_paso<T>(s: Seq<T>, p: spec_fn(T) -> bool, k: int)
    requires
        0 <= k < s.len(),
    ensures
        s.take(k + 1).filter(p) == if p(s[k]) {
            s.take(k).filter(p).push(s[k])
        } else {
            s.take(k).filter(p)
        },
{
    reveal(Seq::filter);
    assert(s.take(k + 1).drop_last() =~= s.take(k));
}

/// Filtering nothing leaves nothing.
pub proof fn lema_filtro_vacio<T>(p: spec_fn(T) -> bool)
    ensures
        Seq::<T>::empty().filter(p) == Seq::<T>::empty(),
{
    reveal(Seq::filter);
}

/// Every element that the filter keeps stands in the sequence and passes.
pub proof fn lema_filtro_elemento<T>(s: Seq<T>, p: spec_fn(T) -> bool, i: int)
    requires
        0 <= i < s.filter(p).len(),
    ensures
        exists|a: int| 0 <= a < s.len() && #[trigger] s[a] == s.filter(p)[i] && p(s[a]),
    decreases s.len(),
{
    reveal(Seq::filter);
    if s.len() > 0 {
        let resto = s.drop_last();
        if p(s.last()) && i == resto.filter(p).len() {
            assert(s[s.len() - 1] == s.filter(p)[i]);
        } else {
            lema_filtro_elemento(resto, p, i);
            let a = choose|a: int| 0 <= a < resto.len() && #[trigger] resto[a] == resto.filter(p)[i] && p(resto[a]);
            assert(s[a] == s.filter(p)[i]);
        }
    }
}

/// The filter keeps the order: two elements it keeps stand in the same
/// order in the sequence.
pub proof fn lema_filtro_orden<T>(s: Seq<T>, p: spec_fn(T) -> bool, i: int, j: int)
    requires
        0 <= i < j < s.filter(p).len(),
    ensures
        exists|a: int, b: int|
            0 <= a < b < s.len() && #[trigger] s[a] == s.filter(p)[i] && #[trigger] s[b]
                == s.filter(p)[j],
    decreases s.len(),
{
    reveal(Seq::filter);
    if s.len() > 0 {
        let resto = s.drop_last();
        if p(s.last()) && j == resto.filter(p).len() {
            lema_filtro_elemento(resto, p, i);
            let a = choose|a: int| 0 <= a < resto.len() && #[trigger] resto[a] == resto.filter(p)[i] && p(resto[a]);
            let b = s.len() - 1;
            assert(s[a] == s.filter(p)[i] && s[b] == s.filter(p)[j]);
        } else {
            lema_filtro_orden(resto, p, i, j);
            let (a, b) = choose|a: int, b: int|
                0 <= a < b < resto.len() && #[trigger] resto[a] == resto.filter(p)[i] && #[trigger] resto[b]
                    == resto.filter(p)[j];
            assert(s[a] == s.filter(p)[i] && s[b] == s.filter(p)[j]);
        }
    }
}

/// An element that passes is kept.
pub proof fn lema_filtro_conserva<T>(s: Seq<T>, p: spec_fn(T) -> bool, a: int)
    requires
        0 <= a < s.len(),
        p(s[a]),
    ensures
        exists|i: int| 0 <= i < s.filter(p).len() && #[trigger] s.filter(p)[i] == s[a],
    decreases s.len(),
{
    reveal(Seq::filter);
    let resto = s.drop_last();
    if a == s.len() - 1 {
        assert(s.filter(p)[resto.filter(p).len() as int] == s[a]);
    } else {
        lema_filtro_conserva(resto, p, a);
        let i = choose|i: int| 0 <= i < resto.filter(p).len() && #[trigger] resto.filter(p)[i] == resto[a];
        assert(s.filter(p)[i] == s[a]);
    }
}

/// Where everything passes, the filter changes nothing.
pub proof fn lema_filtro_todos<T>(s: Seq<T>, p: spec_fn(T) -> bool)
    requires
        forall|i: int| 0 <= i < s.len() ==> p(#[trigger] s[i]),
    ensures
        s.filter(p) == s,
    decreases s.len(),
{
    reveal(Seq::filter);
    if s.len() > 0 {
        lema_filtro_todos(s.drop_last(), p);
        assert(s.drop_last().push(s.last()) =~= s);
    }
}

/// Where nothing passes, nothing is left.
pub proof fn lema_filtro_ninguno<T>(s: Seq<T>, p: spec_fn(T) -> bool)
    requires
        forall|i: int| 0 <= i < s.len() ==> !p(#[trigger] s[i]),
    ensures
        s.filter(p).len() == 0,
    decreases s.len(),
{
    reveal(Seq::filter);
    if s.len() > 0 {
        lema_filtro_ninguno(s.drop_last(), p);
    }
}

/// Where exactly the element at `i` fails, the filter removes it.
pub proof fn lema_filtro_quita_uno<T>(s: Seq<T>, p: spec_fn(T) -> bool, i: int)
    requires
        0 <= i < s.len(),
        !p(s[i]),
        forall|j: int| 0 <= j < s.len() && j != i ==> p(#[trigger] s[j]),
    ensures
        s.filter(p) == s.remove(i),
    decreases s.len(),
{
    reveal(Seq::filter);
    let resto = s.drop_last();
    if i == s.len() - 1 {
        lema_filtro_todos(resto, p);
        assert(s.remove(i) =~= resto);
    } else {
        lema_filtro_quita_uno(resto, p, i);
        assert(resto.remove(i).push(s.last()) =~= s.remove(i));
    }
}

} // verus!
