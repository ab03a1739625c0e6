//! The records of the registry and their mathematical views.

use crate::texto::{es_blanco, esta_en_blanco};
use vstd::prelude::*;

verus! {

/// An optional text as an optional sequence of characters.
pub open spec fn vista_opcional(o: Option<String>) -> Option<Seq<char>> {
    match o {
        Some(s) => Some(s@),
        None => None,
    }
}

/// Empty means absent: a blank text counts as no text at all.
pub open spec fn sin_blanco(o: Option<Seq<char>>) -> Option<Seq<char>> {
    match o {
        Some(s) => if es_blanco(s) {
            None
        } else {
            Some(s)
        },
        None => None,
    }
}

/// A copy of `o`.
pub fn copia_opcional(o: &Option<String>) -> (r: Option<String>)
    ensures
        r == *o,
{
    match o {
        Some(s) => Some(s.clone()),
        None => None,
    }
}

/// `o` as it is stored: unchanged when it holds something to read,
/// absent when it is blank.
pub fn texto_presente(o: &Option<String>) -> (r: Option<String>)
    ensures
        vista_opcional(r) == sin_blanco(vista_opcional(*o)),
{
    match o {
        Some(s) => if esta_en_blanco(s.as_str()) {
            None
        } else {
            Some(s.clone())
        },
        None => None,
    }
}

/// A member.  `id`, `created_at` and `updated_at` are assigned by the
/// registry; what a caller writes there is ignored.
#[derive(Debug, PartialEq, Eq)]
pub struct Hermano {
    pub id: Option<i32>,
    pub numero_hermano: String,
    pub nombre: String,
    pub primer_apellido: String,
    pub segundo_apellido: Option<String>,
    pub dni: Option<String>,
    pub fecha_nacimiento: Option<String>,
    pub localidad_nacimiento: Option<String>,
    pub provincia_nacimiento: Option<String>,
    pub fecha_alta: String,
    pub familia_id: Option<i32>,
    pub telefono: Option<String>,
    pub email: Option<String>,
    pub direccion: Option<String>,
    pub localidad: Option<String>,
    pub provincia: Option<String>,
    pub codigo_postal: Option<String>,
    pub parroquia_bautismo: Option<String>,
    pub localidad_bautismo: Option<String>,
    pub provincia_bautismo: Option<String>,
    pub autorizacion_menores: bool,
    pub nombre_representante_legal: Option<String>,
    pub dni_representante_legal: Option<String>,
    pub hermano_aval_1: Option<String>,
    pub hermano_aval_2: Option<String>,
    pub activo: bool,
    pub observaciones: Option<String>,
    pub created_at: Option<String>,
    pub updated_at: Option<String>,
}

/// What a member row holds, as mathematical values.
pub struct HermanoView {
    pub id: Option<i32>,
    pub numero_hermano: Seq<char>,
    pub nombre: Seq<char>,
    pub primer_apellido: Seq<char>,
    pub segundo_apellido: Option<Seq<char>>,
    pub dni: Option<Seq<char>>,
    pub fecha_nacimiento: Option<Seq<char>>,
    pub localidad_nacimiento: Option<Seq<char>>,
    pub provincia_nacimiento: Option<Seq<char>>,
    pub fecha_alta: Seq<char>,
    pub familia_id: Option<i32>,
    pub telefono: Option<Seq<char>>,
    pub email: Option<Seq<char>>,
    pub direccion: Option<Seq<char>>,
    pub localidad: Option<Seq<char>>,
    pub provincia: Option<Seq<char>>,
    pub codigo_postal: Option<Seq<char>>,
    pub parroquia_bautismo: Option<Seq<char>>,
    pub localidad_bautismo: Option<Seq<char>>,
    pub provincia_bautismo: Option<Seq<char>>,
    pub autorizacion_menores: bool,
    pub nombre_representante_legal: Option<Seq<char>>,
    pub dni_representante_legal: Option<Seq<char>>,
    pub hermano_aval_1: Option<Seq<char>>,
    pub hermano_aval_2: Option<Seq<char>>,
    pub activo: bool,
    pub observaciones: Option<Seq<char>>,
    pub created_at: Option<Seq<char>>,
    pub updated_at: Option<Seq<char>>,
}

impl View for Hermano {
    type V = HermanoView;

    open spec fn view(&self) -> HermanoView {
        HermanoView {
            id: self.id,
            numero_hermano: self.numero_hermano@,
            nombre: self.nombre@,
            primer_apellido: self.primer_apellido@,
            segundo_apellido: vista_opcional(self.segundo_apellido),
            dni: vista_opcional(self.dni),
            fecha_nacimiento: vista_opcional(self.fecha_nacimiento),
            localidad_nacimiento: vista_opcional(self.localidad_nacimiento),
            provincia_nacimiento: vista_opcional(self.provincia_nacimiento),
            fecha_alta: self.fecha_alta@,
            familia_id: self.familia_id,
            telefono: vista_opcional(self.telefono),
            email: vista_opcional(self.email),
            direccion: vista_opcional(self.direccion),
            localidad: vista_opcional(self.localidad),
            provincia: vista_opcional(self.provincia),
            codigo_postal: vista_opcional(self.codigo_postal),
            parroquia_bautismo: vista_opcional(self.parroquia_bautismo),
            localidad_bautismo: vista_opcional(self.localidad_bautismo),
            provincia_bautismo: vista_opcional(self.provincia_bautismo),
            autorizacion_menores: self.autorizacion_menores,
            nombre_representante_legal: vista_opcional(self.nombre_representante_legal),
            dni_representante_legal: vista_opcional(self.dni_representante_legal),
            hermano_aval_1: vista_opcional(self.hermano_aval_1),
            hermano_aval_2: vista_opcional(self.hermano_aval_2),
            activo: self.activo,
            observaciones: vista_opcional(self.observaciones),
            created_at: vista_opcional(self.created_at),
            updated_at: vista_opcional(self.updated_at),
        }
    }
}

impl Clone for Hermano {
    fn clone(&self) -> (r: Self)
        ensures
            r == *self,
    {
        Hermano {
            id: self.id,
            numero_hermano: self.numero_hermano.clone(),
            nombre: self.nombre.clone(),
            primer_apellido: self.primer_apellido.clone(),
            segundo_apellido: copia_opcional(&self.segundo_apellido),
            dni: copia_opcional(&self.dni),
            fecha_nacimiento: copia_opcional(&self.fecha_nacimiento),
            localidad_nacimiento: copia_opcional(&self.localidad_nacimiento),
            provincia_nacimiento: copia_opcional(&self.provincia_nacimiento),
            fecha_alta: self.fecha_alta.clone(),
            familia_id: self.familia_id,
            telefono: copia_opcional(&self.telefono),
            email: copia_opcional(&self.email),
            direccion: copia_opcional(&self.direccion),
            localidad: copia_opcional(&self.localidad),
            provincia: copia_opcional(&self.provincia),
            codigo_postal: copia_opcional(&self.codigo_postal),
            parroquia_bautismo: copia_opcional(&self.parroquia_bautismo),
            localidad_bautismo: copia_opcional(&self.localidad_bautismo),
            provincia_bautismo: copia_opcional(&self.provincia_bautismo),
            autorizacion_menores: self.autorizacion_menores,
            nombre_representante_legal: copia_opcional(&self.nombre_representante_legal),
            dni_representante_legal: copia_opcional(&self.dni_representante_legal),
            hermano_aval_1: copia_opcional(&self.hermano_aval_1),
            hermano_aval_2: copia_opcional(&self.hermano_aval_2),
            activo: self.activo,
            observaciones: copia_opcional(&self.observaciones),
            created_at: copia_opcional(&self.created_at),
            updated_at: copia_opcional(&self.updated_at),
        }
    }
}

/// A household.  `hermano_direccion_id` points, weakly, at the member
/// whose address stands for the whole family.
#[derive(Debug, PartialEq, Eq)]
pub struct Familia {
    pub id: Option<i32>,
    pub nombre_familia: String,
    pub hermano_direccion_id: Option<i32>,
    pub created_at: Option<String>,
    pub updated_at: Option<String>,
}

/// What a family row holds, as mathematical values.
pub struct FamiliaView {
    pub id: Option<i32>,
    pub nombre_familia: Seq<char>,
    pub hermano_direccion_id: Option<i32>,
    pub created_at: Option<Seq<char>>,
    pub updated_at: Option<Seq<char>>,
}

impl View for Familia {
    type V = FamiliaView;

    open spec fn view(&self) -> FamiliaView {
        FamiliaView {
            id: self.id,
            nombre_familia: self.nombre_familia@,
            hermano_direccion_id: self.hermano_direccion_id,
            created_at: vista_opcional(self.created_at),
            updated_at: vista_opcional(self.updated_at),
        }
    }
}

impl Clone for Familia {
    fn clone(&self) -> (r: Self)
        ensures
            r == *self,
    {
        Familia {
            id: self.id,
            nombre_familia: self.nombre_familia.clone(),
            hermano_direccion_id: self.hermano_direccion_id,
            created_at: copia_opcional(&self.created_at),
            updated_at: copia_opcional(&self.updated_at),
        }
    }
}

/// One quarterly due of one member.  `importe` counts whole minor units
/// of the currency (cents), so that sums are exact.
#[derive(Debug, PartialEq, Eq)]
pub struct Cuota {
    pub id: Option<i32>,
    pub hermano_id: i32,
    pub anio: i32,
    pub trimestre: i32,
    pub importe: u64,
    pub pagado: bool,
    pub fecha_pago: Option<String>,
    pub metodo_pago: Option<String>,
    pub observaciones: Option<String>,
    pub created_at: Option<String>,
    pub updated_at: Option<String>,
}

/// What a due row holds, as mathematical values.
pub struct CuotaView {
    pub id: Option<i32>,
    pub hermano_id: i32,
    pub anio: i32,
    pub trimestre: i32,
    pub importe: u64,
    pub pagado: bool,
    pub fecha_pago: Option<Seq<char>>,
    pub metodo_pago: Option<Seq<char>>,
    pub observaciones: Option<Seq<char>>,
    pub created_at: Option<Seq<char>>,
    pub updated_at: Option<Seq<char>>,
}

impl View for Cuota {
    type V = CuotaView;

    open spec fn view(&self) -> CuotaView {
        CuotaView {
            id: self.id,
            hermano_id: self.hermano_id,
            anio: self.anio,
            trimestre: self.trimestre,
            importe: self.importe,
            pagado: self.pagado,
            fecha_pago: vista_opcional(self.fecha_pago),
            metodo_pago: vista_opcional(self.metodo_pago),
            observaciones: vista_opcional(self.observaciones),
            created_at: vista_opcional(self.created_at),
            updated_at: vista_opcional(self.updated_at),
        }
    }
}

impl Clone for Cuota {
    fn clone(&self) -> (r: Self)
        ensures
            r == *self,
    {
        Cuota {
            id: self.id,
            hermano_id: self.hermano_id,
            anio: self.anio,
            trimestre: self.trimestre,
            importe: self.importe,
            pagado: self.pagado,
            fecha_pago: copia_opcional(&self.fecha_pago),
            metodo_pago: copia_opcional(&self.metodo_pago),
            observaciones: copia_opcional(&self.observaciones),
            created_at: copia_opcional(&self.created_at),
            updated_at: copia_opcional(&self.updated_at),
        }
    }
}

impl HermanoView {
    /// The row with every optional text that is blank taken for absent.
    pub open spec fn normalizado(self) -> HermanoView {
        HermanoView {
            segundo_apellido: sin_blanco(self.segundo_apellido),
            dni: sin_blanco(self.dni),
            fecha_nacimiento: sin_blanco(self.fecha_nacimiento),
            localidad_nacimiento: sin_blanco(self.localidad_nacimiento),
            provincia_nacimiento: sin_blanco(self.provincia_nacimiento),
            telefono: sin_blanco(self.telefono),
            email: sin_blanco(self.email),
            direccion: sin_blanco(self.direccion),
            localidad: sin_blanco(self.localidad),
            provincia: sin_blanco(self.provincia),
            codigo_postal: sin_blanco(self.codigo_postal),
            parroquia_bautismo: sin_blanco(self.parroquia_bautismo),
            localidad_bautismo: sin_blanco(self.localidad_bautismo),
            provincia_bautismo: sin_blanco(self.provincia_bautismo),
            nombre_representante_legal: sin_blanco(self.nombre_representante_legal),
            dni_representante_legal: sin_blanco(self.dni_representante_legal),
            hermano_aval_1: sin_blanco(self.hermano_aval_1),
            hermano_aval_2: sin_blanco(self.hermano_aval_2),
            observaciones: sin_blanco(self.observaciones),
            ..self
        }
    }
}

/// A copy of `h` in which blank optional texts are absent.
pub fn normalizar_hermano(h: &Hermano) -> (r: Hermano)
    ensures
        r@ == h@.normalizado(),
{
    Hermano {
        id: h.id,
        numero_hermano: h.numero_hermano.clone(),
        nombre: h.nombre.clone(),
        primer_apellido: h.primer_apellido.clone(),
        segundo_apellido: texto_presente(&h.segundo_apellido),
        dni: texto_presente(&h.dni),
        fecha_nacimiento: texto_presente(&h.fecha_nacimiento),
        localidad_nacimiento: texto_presente(&h.localidad_nacimiento),
        provincia_nacimiento: texto_presente(&h.provincia_nacimiento),
        fecha_alta: h.fecha_alta.clone(),
        familia_id: h.familia_id,
        telefono: texto_presente(&h.telefono),
        email: texto_presente(&h.email),
        direccion: texto_presente(&h.direccion),
        localidad: texto_presente(&h.localidad),
        provincia: texto_presente(&h.provincia),
        codigo_postal: texto_presente(&h.codigo_postal),
        parroquia_bautismo: texto_presente(&h.parroquia_bautismo),
        localidad_bautismo: texto_presente(&h.localidad_bautismo),
        provincia_bautismo: texto_presente(&h.provincia_bautismo),
        autorizacion_menores: h.autorizacion_menores,
        nombre_representante_legal: texto_presente(&h.nombre_representante_legal),
        dni_representante_legal: texto_presente(&h.dni_representante_legal),
        hermano_aval_1: texto_presente(&h.hermano_aval_1),
        hermano_aval_2: texto_presente(&h.hermano_aval_2),
        activo: h.activo,
        observaciones: texto_presente(&h.observaciones),
        created_at: copia_opcional(&h.created_at),
        updated_at: copia_opcional(&h.updated_at),
    }
}

/// The address that stands for a family: that of the member the family
/// points at.
#[derive(Debug, PartialEq, Eq)]
pub struct DireccionPrincipal {
    pub direccion: String,
    pub telefono: Option<String>,
    pub email: Option<String>,
    pub nombre_hermano: String,
}

/// An address of record, as mathematical values.
pub struct DireccionPrincipalView {
    pub direccion: Seq<char>,
    pub telefono: Option<Seq<char>>,
    pub email: Option<Seq<char>>,
    pub nombre_hermano: Seq<char>,
}

impl View for DireccionPrincipal {
    type V = DireccionPrincipalView;

    open spec fn view(&self) -> DireccionPrincipalView {
        DireccionPrincipalView {
            direccion: self.direccion@,
            telefono: vista_opcional(self.telefono),
            email: vista_opcional(self.email),
            nombre_hermano: self.nombre_hermano@,
        }
    }
}

/// A family together with its address of record, where it has one.
#[derive(Debug, PartialEq, Eq)]
pub struct FamiliaConDireccion {
    pub id: i32,
    pub nombre_familia: String,
    pub hermano_direccion_id: Option<i32>,
    pub direccion_principal: Option<DireccionPrincipal>,
}

/// A family with its address of record, as mathematical values.
pub struct FamiliaConDireccionView {
    pub id: i32,
    pub nombre_familia: Seq<char>,
    pub hermano_direccion_id: Option<i32>,
    pub direccion_principal: Option<DireccionPrincipalView>,
}

impl View for FamiliaConDireccion {
    type V = FamiliaConDireccionView;

    open spec fn view(&self) -> FamiliaConDireccionView {
        FamiliaConDireccionView {
            id: self.id,
            nombre_familia: self.nombre_familia@,
            hermano_direccion_id: self.hermano_direccion_id,
            direccion_principal: match self.direccion_principal {
                Some(d) => Some(d@),
                None => None,
            },
        }
    }
}

/// The full name of a member: name and surnames, a space between each.
pub open spec fn nombre_completo(h: HermanoView) -> Seq<char> {
    let base = h.nombre + seq![' '] + h.primer_apellido;
    match h.segundo_apellido {
        Some(s) => base + seq![' '] + s,
        None => base,
    }
}

/// Totals over the dues in scope.
#[derive(Debug, PartialEq, Eq, Clone, Copy)]
pub struct EstadisticasCuotas {
    pub total_recaudado: u128,
    pub cuotas_pendientes: i32,
    pub cuotas_pagadas: i32,
    pub hermanos_al_dia: i32,
    pub hermanos_morosos: i32,
}

/// A registration: the member, and the name of a household to found for
/// them, if any.
#[derive(Debug, PartialEq, Eq)]
pub struct HermanoConFamiliaData {
    pub hermano: Hermano,
    pub nueva_familia_nombre: Option<String>,
}

} // verus!
