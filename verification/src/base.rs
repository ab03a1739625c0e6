//! The registry itself: the tables that the operations read and change.

use crate::conservacion::lema_mismos_miembros;
use crate::estado::DatabaseView;
use crate::modelo::{Cuota, CuotaView, Familia, FamiliaView, Hermano, HermanoView};
use vstd::prelude::*;

verus! {

/// The rows of `v` as mathematical values.
pub open spec fn vistas_familias(v: Seq<Familia>) -> Seq<FamiliaView> {
    v.map_values(|f: Familia| f@)
}

/// The rows of `v` as mathematical values.
pub open spec fn vistas_hermanos(v: Seq<Hermano>) -> Seq<HermanoView> {
    v.map_values(|h: Hermano| h@)
}

/// The rows of `v` as mathematical values.
pub open spec fn vistas_cuotas(v: Seq<Cuota>) -> Seq<CuotaView> {
    v.map_values(|c: Cuota| c@)
}

/// The registry.  It is held by one owner at a time: whoever has the
/// exclusive borrow runs its operation from start to end.
pub struct Database {
    pub(crate) familias: Vec<Familia>,
    pub(crate) hermanos: Vec<Hermano>,
    pub(crate) cuotas: Vec<Cuota>,
    pub(crate) ultima_familia: i32,
    pub(crate) ultimo_hermano: i32,
    pub(crate) ultima_cuota: i32,
    pub(crate) reloj: String,
}

impl View for Database {
    type V = DatabaseView;

    open(crate) spec fn view(&self) -> DatabaseView {
        DatabaseView {
            familias: vistas_familias(self.familias@),
            hermanos: vistas_hermanos(self.hermanos@),
            cuotas: vistas_cuotas(self.cuotas@),
            ultima_familia: self.ultima_familia as int,
            ultimo_hermano: self.ultimo_hermano as int,
            ultima_cuota: self.ultima_cuota as int,
            reloj: self.reloj@,
        }
    }
}

impl Database {
    /// The registry keeps its rules.  Every registry that this library
    /// hands out does, and every operation keeps it so.
    pub open spec fn wf(&self) -> bool {
        self@.bien_formada()
    }

    /// An empty registry whose clock has not been set.
    pub fn new() -> (db: Database)
        ensures
            db.wf(),
            db@ == DatabaseView::vacia(),
    {
        let db = Database {
            familias: Vec::new(),
            hermanos: Vec::new(),
            cuotas: Vec::new(),
            ultima_familia: 0,
            ultimo_hermano: 0,
            ultima_cuota: 0,
            reloj: String::new(),
        };
        proof {
            assert(db@.familias =~= Seq::<FamiliaView>::empty());
            assert(db@.hermanos =~= Seq::<HermanoView>::empty());
            assert(db@.cuotas =~= Seq::<CuotaView>::empty());
            assert(db@.reloj =~= Seq::<char>::empty());
        }
        db
    }

    /// Tells the registry the time.  Rows created or changed from now on
    /// are stamped with it.
    pub fn fijar_reloj(&mut self, ahora: &str)
        ensures
            final(self)@ == (DatabaseView { reloj: ahora@, ..old(self)@ }),
            old(self).wf() ==> final(self).wf(),
    {
        self.reloj = ahora.to_owned();
        proof {
            if old(self).wf() {
                lema_mismos_miembros(old(self)@, self@);
            }
        }
    }
}

} // verus!
