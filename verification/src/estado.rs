//! The registry as a mathematical value: three tables of rows, the last
//! identifier each table has handed out, and the time as the host last
//! told it.  Every operation of the library is stated here as a function
//! from one such value to the next.

use crate::error::{DbError, ErrorAlta, Restriccion};
use crate::modelo::{
    nombre_completo, CuotaView, DireccionPrincipalView, FamiliaConDireccionView, FamiliaView,
    HermanoView,
};
use crate::texto::{contiene, es_numero_valido, numero_de_orden, precede};
use vstd::prelude::*;

verus! {

/// What the registry holds.  The rows of each table stand in the order
/// in which they were stored.
pub struct DatabaseView {
    pub familias: Seq<FamiliaView>,
    pub hermanos: Seq<HermanoView>,
    pub cuotas: Seq<CuotaView>,
    pub ultima_familia: int,
    pub ultimo_hermano: int,
    pub ultima_cuota: int,
    pub reloj: Seq<char>,
}

impl DatabaseView {
    /// The registry that holds nothing, has handed out no identifier and
    /// has not been told the time.
    pub open spec fn vacia() -> DatabaseView {
        DatabaseView {
            familias: Seq::empty(),
            hermanos: Seq::empty(),
            cuotas: Seq::empty(),
            ultima_familia: 0,
            ultimo_hermano: 0,
            ultima_cuota: 0,
            reloj: Seq::empty(),
        }
    }

    /// The rules that hold of the table of families at all times.
    pub open spec fn familias_en_regla(self) -> bool {
        &&& 0 <= self.ultima_familia <= i32::MAX
        &&& self.familias.len() <= self.ultima_familia
        &&& forall|i: int|
            0 <= i < self.familias.len() ==> (#[trigger] self.familias[i]).id is Some && 1
                <= self.familias[i].id->0 <= self.ultima_familia
        &&& forall|i: int, j: int|
            0 <= i < j < self.familias.len() ==> (#[trigger] self.familias[i]).id != (
            #[trigger] self.familias[j]).id
        &&& forall|i: int, j: int|
            0 <= i < j < self.familias.len() ==> (#[trigger] self.familias[i]).nombre_familia != (
            #[trigger] self.familias[j]).nombre_familia
    }

    /// The rules that hold of the table of members at all times.
    pub open spec fn hermanos_en_regla(self) -> bool {
        &&& 0 <= self.ultimo_hermano <= i32::MAX
        &&& self.hermanos.len() <= self.ultimo_hermano
        &&& forall|i: int|
            0 <= i < self.hermanos.len() ==> (#[trigger] self.hermanos[i]).id is Some && 1
                <= self.hermanos[i].id->0 <= self.ultimo_hermano
        &&& forall|i: int, j: int|
            0 <= i < j < self.hermanos.len() ==> (#[trigger] self.hermanos[i]).id != (
            #[trigger] self.hermanos[j]).id
        &&& forall|i: int, j: int|
            0 <= i < j < self.hermanos.len() ==> (#[trigger] self.hermanos[i]).numero_hermano != (
            #[trigger] self.hermanos[j]).numero_hermano
    }

    /// The rules that hold of the table of dues at all times.
    pub open spec fn cuotas_en_regla(self) -> bool {
        &&& 0 <= self.ultima_cuota <= i32::MAX
        &&& self.cuotas.len() <= self.ultima_cuota
        &&& forall|i: int|
            0 <= i < self.cuotas.len() ==> {
                &&& (#[trigger] self.cuotas[i]).id is Some
                &&& 1 <= self.cuotas[i].id->0 <= self.ultima_cuota
                &&& 1 <= self.cuotas[i].trimestre <= 4
                &&& self.tiene_hermano(self.cuotas[i].hermano_id)
            }
        &&& forall|i: int, j: int|
            0 <= i < j < self.cuotas.len() ==> (#[trigger] self.cuotas[i]).id != (
            #[trigger] self.cuotas[j]).id
        &&& forall|i: int, j: int|
            0 <= i < j < self.cuotas.len() ==> !mismo_periodo(
                #[trigger] self.cuotas[i],
                #[trigger] self.cuotas[j],
            )
    }

    /// Well-formedness: identifiers are unique and were handed out by the
    /// table, member numbers and family names are unique, a member has at
    /// most one due per year and quarter, and every due belongs to a
    /// member that exists.
    pub open spec fn bien_formada(self) -> bool {
        &&& self.familias_en_regla()
        &&& self.hermanos_en_regla()
        &&& self.cuotas_en_regla()
    }

    /// The member `id` stands at position `i` of its table.
    pub open spec fn hermano_en(self, id: i32, i: int) -> bool {
        0 <= i < self.hermanos.len() && self.hermanos[i].id == Some(id)
    }

    /// There is a member `id`.
    pub open spec fn tiene_hermano(self, id: i32) -> bool {
        exists|i: int| self.hermano_en(id, i)
    }

    /// The member with identifier `id`, if there is one.
    pub open spec fn buscar_hermano(self, id: i32) -> Option<HermanoView> {
        if self.tiene_hermano(id) {
            Some(self.hermanos[choose|i: int| self.hermano_en(id, i)])
        } else {
            None
        }
    }

    /// The member at position `i` carries the number `numero`.
    pub open spec fn numero_en(self, numero: Seq<char>, i: int) -> bool {
        0 <= i < self.hermanos.len() && self.hermanos[i].numero_hermano == numero
    }

    /// Whether some member other than `salvo` carries the number `numero`.
    pub open spec fn numero_ocupado(self, numero: Seq<char>, salvo: Option<i32>) -> bool {
        exists|i: int| self.numero_en(numero, i) && self.hermanos[i].id != salvo
    }

    /// The number a new member gets: the one written or, where none is
    /// written, the count of members plus one as five digits.
    pub open spec fn numero_asignado(self, escrito: Seq<char>) -> Seq<char> {
        if escrito.len() == 0 {
            numero_de_orden(self.hermanos.len() + 1)
        } else {
            escrito
        }
    }

    /// Why `h` cannot be registered, if it cannot: it lacks a name or a
    /// first surname; a number is written and is not five digits; the
    /// number it would get is taken; or the table has no identifier left.
    pub open spec fn error_alta_hermano(self, h: HermanoView) -> Option<DbError> {
        if sin_nombre(h) {
            Some(DbError::NombreObligatorio)
        } else if h.numero_hermano.len() > 0 && !es_numero_valido(h.numero_hermano) {
            Some(DbError::NumeroHermanoInvalido)
        } else if self.numero_ocupado(self.numero_asignado(h.numero_hermano), None) {
            Some(DbError::Almacenamiento(Restriccion::NumeroHermanoRepetido))
        } else if self.ultimo_hermano >= i32::MAX {
            Some(DbError::Almacenamiento(Restriccion::SinIdentificadores))
        } else {
            None
        }
    }

    /// The row that registering `h` stores.
    pub open spec fn fila_alta_hermano(self, h: HermanoView) -> HermanoView {
        HermanoView {
            id: Some((self.ultimo_hermano + 1) as i32),
            numero_hermano: self.numero_asignado(h.numero_hermano),
            created_at: Some(self.reloj),
            updated_at: Some(self.reloj),
            ..h.normalizado()
        }
    }

    /// The registry after `h` has been registered.
    pub open spec fn alta_hermano(self, h: HermanoView) -> DatabaseView {
        DatabaseView {
            hermanos: self.hermanos.push(self.fila_alta_hermano(h)),
            ultimo_hermano: self.ultimo_hermano + 1,
            ..self
        }
    }

    /// Why the member `id` cannot be rewritten as `h`, if it cannot.
    pub open spec fn error_cambio_hermano(self, id: i32, h: HermanoView) -> Option<DbError> {
        if sin_nombre(h) {
            Some(DbError::NombreObligatorio)
        } else if self.tiene_hermano(id) && self.numero_ocupado(h.numero_hermano, Some(id)) {
            Some(DbError::Almacenamiento(Restriccion::NumeroHermanoRepetido))
        } else {
            None
        }
    }

    /// The row that takes the place of `vieja` when it is rewritten as `h`:
    /// every field is the caller's, but for the identifier and the time of
    /// creation, which stay, and the time of change.
    pub open spec fn fila_cambio_hermano(self, vieja: HermanoView, h: HermanoView) -> HermanoView {
        HermanoView {
            id: vieja.id,
            numero_hermano: h.numero_hermano,
            created_at: vieja.created_at,
            updated_at: Some(self.reloj),
            ..h.normalizado()
        }
    }

    /// The registry after the member `id` has been rewritten as `h`.
    pub open spec fn cambio_hermano(self, id: i32, h: HermanoView) -> DatabaseView {
        DatabaseView {
            hermanos: self.hermanos.map_values(
                |v: HermanoView|
                    if v.id == Some(id) {
                        self.fila_cambio_hermano(v, h)
                    } else {
                        v
                    },
            ),
            ..self
        }
    }

    /// The registry after the member `id` has been set inactive.
    pub open spec fn baja_hermano(self, id: i32) -> DatabaseView {
        DatabaseView {
            hermanos: self.hermanos.map_values(
                |v: HermanoView|
                    if v.id == Some(id) {
                        HermanoView { activo: false, updated_at: Some(self.reloj), ..v }
                    } else {
                        v
                    },
            ),
            ..self
        }
    }

    /// The registry after the member `id` has been moved to the family
    /// `familia_id`, or to none.
    pub open spec fn traslado_hermano(self, id: i32, familia_id: Option<i32>) -> DatabaseView {
        DatabaseView {
            hermanos: self.hermanos.map_values(
                |v: HermanoView|
                    if v.id == Some(id) {
                        HermanoView { familia_id: familia_id, updated_at: Some(self.reloj), ..v }
                    } else {
                        v
                    },
            ),
            ..self
        }
    }

    /// The registry after the member `id` has been deleted: the row goes,
    /// and with it every due of that member.
    pub open spec fn borrado_hermano(self, id: i32) -> DatabaseView {
        DatabaseView {
            hermanos: self.hermanos.filter(|v: HermanoView| v.id != Some(id)),
            cuotas: self.cuotas.filter(|c: CuotaView| c.hermano_id != id),
            ..self
        }
    }

    /// The family `id` stands at position `i` of its table.
    pub open spec fn familia_en(self, id: i32, i: int) -> bool {
        0 <= i < self.familias.len() && self.familias[i].id == Some(id)
    }

    /// There is a family `id`.
    pub open spec fn tiene_familia(self, id: i32) -> bool {
        exists|i: int| self.familia_en(id, i)
    }

    /// The family with identifier `id`, if there is one.
    pub open spec fn buscar_familia(self, id: i32) -> Option<FamiliaView> {
        if self.tiene_familia(id) {
            Some(self.familias[choose|i: int| self.familia_en(id, i)])
        } else {
            None
        }
    }

    /// The family at position `i` carries the name `nombre`.
    pub open spec fn nombre_en(self, nombre: Seq<char>, i: int) -> bool {
        0 <= i < self.familias.len() && self.familias[i].nombre_familia == nombre
    }

    /// Whether some family other than `salvo` carries the name `nombre`.
    pub open spec fn nombre_ocupado(self, nombre: Seq<char>, salvo: Option<i32>) -> bool {
        exists|i: int| self.nombre_en(nombre, i) && self.familias[i].id != salvo
    }

    /// Why the family `f` cannot be created, if it cannot.
    pub open spec fn error_alta_familia(self, f: FamiliaView) -> Option<DbError> {
        if self.nombre_ocupado(f.nombre_familia, None) {
            Some(DbError::Almacenamiento(Restriccion::NombreFamiliaRepetido))
        } else if self.ultima_familia >= i32::MAX {
            Some(DbError::Almacenamiento(Restriccion::SinIdentificadores))
        } else {
            None
        }
    }

    /// The row that creating `f` stores.
    pub open spec fn fila_alta_familia(self, f: FamiliaView) -> FamiliaView {
        FamiliaView {
            id: Some((self.ultima_familia + 1) as i32),
            nombre_familia: f.nombre_familia,
            hermano_direccion_id: f.hermano_direccion_id,
            created_at: Some(self.reloj),
            updated_at: Some(self.reloj),
        }
    }

    /// The registry after the family `f` has been created.
    pub open spec fn alta_familia(self, f: FamiliaView) -> DatabaseView {
        DatabaseView {
            familias: self.familias.push(self.fila_alta_familia(f)),
            ultima_familia: self.ultima_familia + 1,
            ..self
        }
    }

    /// Why the family `id` cannot be rewritten as `f`, if it cannot.
    pub open spec fn error_cambio_familia(self, id: i32, f: FamiliaView) -> Option<DbError> {
        if self.tiene_familia(id) && self.nombre_ocupado(f.nombre_familia, Some(id)) {
            Some(DbError::Almacenamiento(Restriccion::NombreFamiliaRepetido))
        } else {
            None
        }
    }

    /// The registry after the family `id` has taken the name and the
    /// address reference of `f`.
    pub open spec fn cambio_familia(self, id: i32, f: FamiliaView) -> DatabaseView {
        DatabaseView {
            familias: self.familias.map_values(
                |v: FamiliaView|
                    if v.id == Some(id) {
                        FamiliaView {
                            nombre_familia: f.nombre_familia,
                            hermano_direccion_id: f.hermano_direccion_id,
                            updated_at: Some(self.reloj),
                            ..v
                        }
                    } else {
                        v
                    },
            ),
            ..self
        }
    }

    /// The member at position `i` is active and belongs to the family
    /// `id`.
    pub open spec fn activo_de_familia_en(self, id: i32, i: int) -> bool {
        &&& 0 <= i < self.hermanos.len()
        &&& self.hermanos[i].activo
        &&& self.hermanos[i].familia_id == Some(id)
    }

    /// Whether an active member belongs to the family `id`.
    pub open spec fn familia_con_activos(self, id: i32) -> bool {
        exists|i: int| self.activo_de_familia_en(id, i)
    }

    /// Why the family `id` cannot be deleted, if it cannot.
    pub open spec fn error_borrado_familia(self, id: i32) -> Option<DbError> {
        if self.familia_con_activos(id) {
            Some(DbError::FamiliaConHermanosActivos)
        } else {
            None
        }
    }

    /// The registry after the family `id` has been deleted.
    pub open spec fn borrado_familia(self, id: i32) -> DatabaseView {
        DatabaseView { familias: self.familias.filter(|v: FamiliaView| v.id != Some(id)), ..self }
    }

    /// How many members the family `id` has, and how many of them are
    /// active.  A family that does not exist has none.
    pub open spec fn estadisticas_familia(self, id: i32) -> (int, int) {
        if self.tiene_familia(id) {
            (
                self.hermanos.filter(|h: HermanoView| h.familia_id == Some(id)).len() as int,
                self.hermanos.filter(|h: HermanoView| h.familia_id == Some(id) && h.activo).len() as int,
            )
        } else {
            (0, 0)
        }
    }

    /// The address of record of the family `f`: that of the member it
    /// points at, where that member exists and has an address.
    pub open spec fn direccion_principal(self, f: FamiliaView) -> Option<DireccionPrincipalView> {
        match f.hermano_direccion_id {
            Some(m) => match self.buscar_hermano(m) {
                Some(h) => match h.direccion {
                    Some(d) => Some(
                        DireccionPrincipalView {
                            direccion: d,
                            telefono: h.telefono,
                            email: h.email,
                            nombre_hermano: nombre_completo(h),
                        },
                    ),
                    None => None,
                },
                None => None,
            },
            None => None,
        }
    }

    /// The family `id` with its address of record, if the family exists.
    pub open spec fn familia_con_direccion(self, id: i32) -> Option<FamiliaConDireccionView> {
        match self.buscar_familia(id) {
            Some(f) => Some(
                FamiliaConDireccionView {
                    id: id,
                    nombre_familia: f.nombre_familia,
                    hermano_direccion_id: f.hermano_direccion_id,
                    direccion_principal: self.direccion_principal(f),
                },
            ),
            None => None,
        }
    }

    /// The due `id` stands at position `i` of its table.
    pub open spec fn cuota_en(self, id: i32, i: int) -> bool {
        0 <= i < self.cuotas.len() && self.cuotas[i].id == Some(id)
    }

    /// There is a due `id`.
    pub open spec fn tiene_cuota(self, id: i32) -> bool {
        exists|i: int| self.cuota_en(id, i)
    }

    /// The due with identifier `id`, if there is one.
    pub open spec fn buscar_cuota(self, id: i32) -> Option<CuotaView> {
        if self.tiene_cuota(id) {
            Some(self.cuotas[choose|i: int| self.cuota_en(id, i)])
        } else {
            None
        }
    }

    /// The due at position `i` is that of the member for the year and
    /// quarter.
    pub open spec fn periodo_en(self, hermano_id: i32, anio: i32, trimestre: i32, i: int) -> bool {
        &&& 0 <= i < self.cuotas.len()
        &&& self.cuotas[i].hermano_id == hermano_id
        &&& self.cuotas[i].anio == anio
        &&& self.cuotas[i].trimestre == trimestre
    }

    /// Whether a due other than `salvo` is already that of the member for
    /// the year and quarter.
    pub open spec fn periodo_ocupado(
        self,
        hermano_id: i32,
        anio: i32,
        trimestre: i32,
        salvo: Option<i32>,
    ) -> bool {
        exists|i: int|
            self.periodo_en(hermano_id, anio, trimestre, i) && self.cuotas[i].id != salvo
    }

    /// The rule of the table of dues that `c` would break in the place of
    /// the due `salvo`, or as a new due where `salvo` is nothing.
    pub open spec fn cuota_rechazada(self, c: CuotaView, salvo: Option<i32>) -> Option<DbError> {
        if !(1 <= c.trimestre <= 4) {
            Some(DbError::Almacenamiento(Restriccion::TrimestreFueraDeRango))
        } else if !self.tiene_hermano(c.hermano_id) {
            Some(DbError::Almacenamiento(Restriccion::HermanoInexistente))
        } else if self.periodo_ocupado(c.hermano_id, c.anio, c.trimestre, salvo) {
            Some(DbError::Almacenamiento(Restriccion::CuotaRepetida))
        } else {
            None
        }
    }

    /// Why the due `c` cannot be created, if it cannot.
    pub open spec fn error_alta_cuota(self, c: CuotaView) -> Option<DbError> {
        if self.cuota_rechazada(c, None) is Some {
            self.cuota_rechazada(c, None)
        } else if self.ultima_cuota >= i32::MAX {
            Some(DbError::Almacenamiento(Restriccion::SinIdentificadores))
        } else {
            None
        }
    }

    /// The row that creating `c` stores.
    pub open spec fn fila_alta_cuota(self, c: CuotaView) -> CuotaView {
        CuotaView {
            id: Some((self.ultima_cuota + 1) as i32),
            created_at: Some(self.reloj),
            updated_at: Some(self.reloj),
            ..c
        }
    }

    /// The registry after the due `c` has been created.
    pub open spec fn alta_cuota(self, c: CuotaView) -> DatabaseView {
        DatabaseView {
            cuotas: self.cuotas.push(self.fila_alta_cuota(c)),
            ultima_cuota: self.ultima_cuota + 1,
            ..self
        }
    }

    /// Why the due `id` cannot be rewritten as `c`, if it cannot.
    pub open spec fn error_cambio_cuota(self, id: i32, c: CuotaView) -> Option<DbError> {
        if self.tiene_cuota(id) {
            self.cuota_rechazada(c, Some(id))
        } else {
            None
        }
    }

    /// The registry after the due `id` has been rewritten as `c`.
    pub open spec fn cambio_cuota(self, id: i32, c: CuotaView) -> DatabaseView {
        DatabaseView {
            cuotas: self.cuotas.map_values(
                |v: CuotaView|
                    if v.id == Some(id) {
                        CuotaView {
                            id: v.id,
                            created_at: v.created_at,
                            updated_at: Some(self.reloj),
                            ..c
                        }
                    } else {
                        v
                    },
            ),
            ..self
        }
    }

    /// The registry after the due `id` has been marked as paid on `fecha`
    /// by `metodo`.
    pub open spec fn pago_cuota(self, id: i32, fecha: Seq<char>, metodo: Seq<char>) -> DatabaseView {
        DatabaseView {
            cuotas: self.cuotas.map_values(
                |v: CuotaView|
                    if v.id == Some(id) {
                        CuotaView {
                            pagado: true,
                            fecha_pago: Some(fecha),
                            metodo_pago: Some(metodo),
                            updated_at: Some(self.reloj),
                            ..v
                        }
                    } else {
                        v
                    },
            ),
            ..self
        }
    }

    /// The registry after the due `id` has been deleted.
    pub open spec fn borrado_cuota(self, id: i32) -> DatabaseView {
        DatabaseView { cuotas: self.cuotas.filter(|v: CuotaView| v.id != Some(id)), ..self }
    }

    /// Whether `h` is owed a new due for the year and quarter: it is
    /// active and has none yet.
    pub open spec fn le_falta_cuota(self, h: HermanoView, anio: i32, trimestre: i32) -> bool {
        h.activo && h.id is Some && !self.periodo_ocupado(h.id->0, anio, trimestre, None)
    }

    /// The members that a generation for the year and quarter serves, in
    /// the order of the table.
    pub open spec fn hermanos_sin_cuota(self, anio: i32, trimestre: i32) -> Seq<HermanoView> {
        self.hermanos.filter(|h: HermanoView| self.le_falta_cuota(h, anio, trimestre))
    }

    /// The due that a generation creates for the `k`-th member it serves.
    pub open spec fn cuota_generada(
        self,
        k: int,
        hermano_id: i32,
        anio: i32,
        trimestre: i32,
        importe: u64,
    ) -> CuotaView {
        CuotaView {
            id: Some((self.ultima_cuota + 1 + k) as i32),
            hermano_id: hermano_id,
            anio: anio,
            trimestre: trimestre,
            importe: importe,
            pagado: false,
            fecha_pago: None,
            metodo_pago: None,
            observaciones: None,
            created_at: Some(self.reloj),
            updated_at: Some(self.reloj),
        }
    }

    /// The dues that a generation for the year and quarter creates.
    pub open spec fn cuotas_generadas(self, anio: i32, trimestre: i32, importe: u64) -> Seq<CuotaView> {
        let faltan = self.hermanos_sin_cuota(anio, trimestre);
        Seq::new(
            faltan.len(),
            |k: int| self.cuota_generada(k, faltan[k].id->0, anio, trimestre, importe),
        )
    }

    /// Why dues cannot be generated for the year and quarter, if they
    /// cannot.
    pub open spec fn error_generacion(self, anio: i32, trimestre: i32) -> Option<DbError> {
        if !(1 <= trimestre <= 4) {
            Some(DbError::TrimestreInvalido)
        } else if self.ultima_cuota + self.hermanos_sin_cuota(anio, trimestre).len() > i32::MAX {
            Some(DbError::Almacenamiento(Restriccion::SinIdentificadores))
        } else {
            None
        }
    }

    /// The registry after dues of `importe` have been generated for the
    /// year and quarter: one unpaid due for each active member that had
    /// none.
    pub open spec fn generacion(self, anio: i32, trimestre: i32, importe: u64) -> DatabaseView {
        DatabaseView {
            cuotas: self.cuotas + self.cuotas_generadas(anio, trimestre, importe),
            ultima_cuota: self.ultima_cuota + self.hermanos_sin_cuota(anio, trimestre).len(),
            ..self
        }
    }

    /// What the dues in scope that are paid add up to.
    pub open spec fn total_recaudado(self, anio: Option<i32>) -> nat {
        suma_importes(self.cuotas.filter(|c: CuotaView| en_ambito(c, anio) && c.pagado))
    }

    /// How many dues in scope are unpaid.
    pub open spec fn cuotas_pendientes(self, anio: Option<i32>) -> nat {
        self.cuotas.filter(|c: CuotaView| en_ambito(c, anio) && !c.pagado).len()
    }

    /// How many dues in scope are paid.
    pub open spec fn cuotas_pagadas(self, anio: Option<i32>) -> nat {
        self.cuotas.filter(|c: CuotaView| en_ambito(c, anio) && c.pagado).len()
    }

    /// The due at position `i` is one of the member and in scope.
    pub open spec fn cuota_de_en(self, hermano_id: i32, anio: Option<i32>, i: int) -> bool {
        &&& 0 <= i < self.cuotas.len()
        &&& self.cuotas[i].hermano_id == hermano_id
        &&& en_ambito(self.cuotas[i], anio)
    }

    /// Whether the member has a due in scope.
    pub open spec fn tiene_cuotas(self, hermano_id: i32, anio: Option<i32>) -> bool {
        exists|i: int| self.cuota_de_en(hermano_id, anio, i)
    }

    /// Delinquent: the member has an unpaid due in scope.
    pub open spec fn es_moroso(self, hermano_id: i32, anio: Option<i32>) -> bool {
        exists|i: int| self.cuota_de_en(hermano_id, anio, i) && !self.cuotas[i].pagado
    }

    /// In good standing: the member has dues in scope, all of them paid.
    pub open spec fn esta_al_dia(self, hermano_id: i32, anio: Option<i32>) -> bool {
        self.tiene_cuotas(hermano_id, anio) && !self.es_moroso(hermano_id, anio)
    }

    /// How many members are in good standing.
    pub open spec fn hermanos_al_dia(self, anio: Option<i32>) -> nat {
        self.hermanos.filter(|h: HermanoView| h.id is Some && self.esta_al_dia(h.id->0, anio)).len()
    }

    /// How many members are delinquent.
    pub open spec fn hermanos_morosos(self, anio: Option<i32>) -> nat {
        self.hermanos.filter(|h: HermanoView| h.id is Some && self.es_moroso(h.id->0, anio)).len()
    }

    /// What registering `h` does, and what it returns, where `nombre` is
    /// the name of a family to found for the member, if any.
    ///
    /// With a name: the family is created without an address of record,
    /// the member is stored as one of that family, whatever family it
    /// named itself, and the family is then pointed at the member.
    /// Without a name the member is stored as written.  A failure to
    /// create the family leaves everything as it was; a failure to store
    /// the member leaves the family behind.  Pointing the family at the
    /// member is the one step whose failure is passed over.
    pub open spec fn alta_con_familia(self, h: HermanoView, nombre: Option<Seq<char>>) -> (
        DatabaseView,
        Result<i32, ErrorAlta>,
    ) {
        match nombre {
            None => match self.error_alta_hermano(h) {
                Some(e) => (self, Err(ErrorAlta::Hermano(e))),
                None => (self.alta_hermano(h), Ok((self.ultimo_hermano + 1) as i32)),
            },
            Some(n) => match self.error_alta_familia(familia_nueva(n)) {
                Some(e) => (self, Err(ErrorAlta::Familia(e))),
                None => {
                    let con_familia = self.alta_familia(familia_nueva(n));
                    let familia_id = (self.ultima_familia + 1) as i32;
                    let miembro = HermanoView { familia_id: Some(familia_id), ..h };
                    match con_familia.error_alta_hermano(miembro) {
                        Some(e) => (con_familia, Err(ErrorAlta::Hermano(e))),
                        None => {
                            let con_hermano = con_familia.alta_hermano(miembro);
                            let hermano_id = (self.ultimo_hermano + 1) as i32;
                            let enlace = familia_enlazada(familia_id, n, hermano_id);
                            (
                                if con_hermano.error_cambio_familia(familia_id, enlace) is None {
                                    con_hermano.cambio_familia(familia_id, enlace)
                                } else {
                                    con_hermano
                                },
                                Ok(hermano_id),
                            )
                        },
                    }
                },
            },
        }
    }
}

/// The member lacks what every member must have: a name and a first
/// surname, neither of them empty.
pub open spec fn sin_nombre(h: HermanoView) -> bool {
    h.nombre.len() == 0 || h.primer_apellido.len() == 0
}

/// The family that a registration founds: a name and nothing else.
pub open spec fn familia_nueva(nombre: Seq<char>) -> FamiliaView {
    FamiliaView {
        id: None,
        nombre_familia: nombre,
        hermano_direccion_id: None,
        created_at: None,
        updated_at: None,
    }
}

/// The family of a registration once its member is known.
pub open spec fn familia_enlazada(familia_id: i32, nombre: Seq<char>, hermano_id: i32) -> FamiliaView {
    FamiliaView {
        id: Some(familia_id),
        nombre_familia: nombre,
        hermano_direccion_id: Some(hermano_id),
        created_at: None,
        updated_at: None,
    }
}

/// Whether the due counts for statistics of `anio`; with no year given
/// every due counts.
pub open spec fn en_ambito(c: CuotaView, anio: Option<i32>) -> bool {
    match anio {
        Some(a) => c.anio == a,
        None => true,
    }
}

/// The sum of the amounts of `s`.
pub open spec fn suma_importes(s: Seq<CuotaView>) -> nat
    decreases s.len(),
{
    if s.len() == 0 {
        0
    } else {
        suma_importes(s.drop_last()) + s.last().importe as nat
    }
}

/// The orders in which dues are listed.
#[derive(Debug, Clone, Copy, PartialEq, Eq, Structural)]
pub enum OrdenCuotas {
    /// Latest year first, then latest quarter, then by member.
    Recientes,
    /// By quarter, then by member.
    PorTrimestre,
    /// Earliest year first, then earliest quarter, then by member.
    Antiguas,
}

/// Whether `a` is listed before `b` in the order `o`.
pub open spec fn cuota_antes(o: OrdenCuotas, a: CuotaView, b: CuotaView) -> bool {
    match o {
        OrdenCuotas::Recientes => a.anio > b.anio || (a.anio == b.anio && (a.trimestre > b.trimestre
            || (a.trimestre == b.trimestre && a.hermano_id < b.hermano_id))),
        OrdenCuotas::PorTrimestre => a.trimestre < b.trimestre || (a.trimestre == b.trimestre
            && a.hermano_id < b.hermano_id),
        OrdenCuotas::Antiguas => a.anio < b.anio || (a.anio == b.anio && (a.trimestre < b.trimestre
            || (a.trimestre == b.trimestre && a.hermano_id < b.hermano_id))),
    }
}

/// `r` is in the order `o`, strictly.
pub open spec fn en_orden(o: OrdenCuotas, r: Seq<CuotaView>) -> bool {
    forall|a: int, b: int| 0 <= a < b < r.len() ==> cuota_antes(o, #[trigger] r[a], #[trigger] r[b])
}

/// `r` is in strictly increasing order of member number.
pub open spec fn por_numero(r: Seq<HermanoView>) -> bool {
    forall|a: int, b: int|
        0 <= a < b < r.len() ==> precede(
            (#[trigger] r[a]).numero_hermano,
            (#[trigger] r[b]).numero_hermano,
        )
}

/// Whether a search for `consulta` finds the member: the text occurs in
/// the name, in a surname, in the member number or in the national id.
pub open spec fn coincide_hermano(h: HermanoView, consulta: Seq<char>) -> bool {
    ||| contiene(h.nombre, consulta)
    ||| contiene(h.primer_apellido, consulta)
    ||| (h.segundo_apellido is Some && contiene(h.segundo_apellido->0, consulta))
    ||| contiene(h.numero_hermano, consulta)
    ||| (h.dni is Some && contiene(h.dni->0, consulta))
}

/// `r` is in strictly increasing order of family name.
pub open spec fn por_nombre(r: Seq<FamiliaView>) -> bool {
    forall|a: int, b: int|
        0 <= a < b < r.len() ==> precede(
            (#[trigger] r[a]).nombre_familia,
            (#[trigger] r[b]).nombre_familia,
        )
}

/// Two dues of one member for the same year and quarter.
pub open spec fn mismo_periodo(a: CuotaView, b: CuotaView) -> bool {
    a.hermano_id == b.hermano_id && a.anio == b.anio && a.trimestre == b.trimestre
}

} // verus!
