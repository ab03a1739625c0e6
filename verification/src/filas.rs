//! Reading the records out of the rows of a SQLite query.
//!
//! What a row holds is known only to SQLite.  This module gives that
//! content a name, takes each value out of the row as `rusqlite` finds it,
//! and proves from there what the records come to hold: which value fits
//! which field is decided here.

use crate::modelo::{vista_opcional, Cuota, CuotaView, Familia, FamiliaView, Hermano, HermanoView};
use vstd::prelude::*;
use vstd::utf8::{
    decode_utf8, encode_utf8, encode_utf8_decode_utf8, valid_utf8,
};

verus! {

/// A row of the result of a query, as `rusqlite` hands it to the
/// function that reads it.
#[verifier::external_type_specification]
#[verifier::external_body]
pub struct ExRow<'stmt>(rusqlite::Row<'stmt>);

/// The error of `rusqlite`.
#[verifier::external_type_specification]
#[verifier::external_body]
pub struct ExError(rusqlite::Error);

/// What a column of a row holds.
#[derive(Debug, Clone, PartialEq, Eq)]
pub enum Valor {
    /// SQL `NULL`.
    Nulo,
    /// An integer.
    Entero(i64),
    /// A floating-point number.
    Real,
    /// A text, as the bytes that SQLite keeps.
    Texto(Vec<u8>),
    /// A blob.
    Binario,
}

/// What a column of a row holds, as a mathematical value.
pub enum ValorView {
    Nulo,
    Entero(i64),
    Real,
    Texto(Seq<u8>),
    Binario,
}

impl View for Valor {
    type V = ValorView;

    open spec fn view(&self) -> ValorView {
        match self {
            Valor::Nulo => ValorView::Nulo,
            Valor::Entero(n) => ValorView::Entero(*n),
            Valor::Real => ValorView::Real,
            Valor::Texto(b) => ValorView::Texto(b@),
            Valor::Binario => ValorView::Binario,
        }
    }
}

/// The five kinds of value.
#[derive(Debug, Clone, Copy, PartialEq, Eq, Structural)]
pub enum Clase {
    Nulo,
    Entero,
    Real,
    Texto,
    Binario,
}

/// Why a column could not be read into its field.
#[derive(Debug, Clone, Copy, PartialEq, Eq, Structural)]
pub enum ErrorFila {
    /// The row has no such column.
    SinColumna { columna: usize },
    /// The column holds a value of a kind that the field does not take.
    Tipo { columna: usize, hallado: Clase },
    /// The column holds an integer that the field cannot hold.
    Rango { columna: usize, valor: i64 },
    /// The column holds a text that is not valid UTF-8.
    Utf8 { columna: usize },
}

/// The values that the columns of `fila` hold, first column first.
pub uninterp spec fn valores_de(fila: &rusqlite::Row) -> Seq<ValorView>;

/// The kind of the value `x`.
pub open spec fn clase_de(x: ValorView) -> Clase {
    match x {
        ValorView::Nulo => Clase::Nulo,
        ValorView::Entero(_) => Clase::Entero,
        ValorView::Real => Clase::Real,
        ValorView::Texto(_) => Clase::Texto,
        ValorView::Binario => Clase::Binario,
    }
}

/// A column read as a 32-bit integer.
pub open spec fn entero_en(v: Seq<ValorView>, i: usize) -> Result<i32, ErrorFila> {
    if i >= v.len() {
        Err(ErrorFila::SinColumna { columna: i })
    } else {
        match v[i as int] {
            ValorView::Entero(n) => if i32::MIN <= n <= i32::MAX {
                Ok(n as i32)
            } else {
                Err(ErrorFila::Rango { columna: i, valor: n })
            },
            x => Err(ErrorFila::Tipo { columna: i, hallado: clase_de(x) }),
        }
    }
}

/// A column read as a 32-bit integer that may be absent.
pub open spec fn entero_opcional_en(v: Seq<ValorView>, i: usize) -> Result<Option<i32>, ErrorFila> {
    if i < v.len() && v[i as int] is Nulo {
        Ok(None)
    } else {
        match entero_en(v, i) {
            Ok(n) => Ok(Some(n)),
            Err(e) => Err(e),
        }
    }
}

/// A column read as an amount: an integer that is not negative.
pub open spec fn importe_en(v: Seq<ValorView>, i: usize) -> Result<u64, ErrorFila> {
    if i >= v.len() {
        Err(ErrorFila::SinColumna { columna: i })
    } else {
        match v[i as int] {
            ValorView::Entero(n) => if n >= 0 {
                Ok(n as u64)
            } else {
                Err(ErrorFila::Rango { columna: i, valor: n })
            },
            x => Err(ErrorFila::Tipo { columna: i, hallado: clase_de(x) }),
        }
    }
}

/// A column read as a flag: an integer, true unless it is 0.
pub open spec fn booleano_en(v: Seq<ValorView>, i: usize) -> Result<bool, ErrorFila> {
    if i >= v.len() {
        Err(ErrorFila::SinColumna { columna: i })
    } else {
        match v[i as int] {
            ValorView::Entero(n) => Ok(n != 0),
            x => Err(ErrorFila::Tipo { columna: i, hallado: clase_de(x) }),
        }
    }
}

/// A column read as a text: the characters that its bytes encode.
pub open spec fn texto_en(v: Seq<ValorView>, i: usize) -> Result<Seq<char>, ErrorFila> {
    if i >= v.len() {
        Err(ErrorFila::SinColumna { columna: i })
    } else {
        match v[i as int] {
            ValorView::Texto(b) => if valid_utf8(b) {
                Ok(decode_utf8(b))
            } else {
                Err(ErrorFila::Utf8 { columna: i })
            },
            x => Err(ErrorFila::Tipo { columna: i, hallado: clase_de(x) }),
        }
    }
}

/// A column read as a text that may be absent.
pub open spec fn texto_opcional_en(v: Seq<ValorView>, i: usize) -> Result<
    Option<Seq<char>>,
    ErrorFila,
> {
    if i < v.len() && v[i as int] is Nulo {
        Ok(None)
    } else {
        match texto_en(v, i) {
            Ok(s) => Ok(Some(s)),
            Err(e) => Err(e),
        }
    }
}

/// The failure of a reading, if it failed.
pub open spec fn fallo<T>(r: Result<T, ErrorFila>) -> Option<ErrorFila> {
    match r {
        Ok(_) => None,
        Err(e) => Some(e),
    }
}

/// What a reading gave, if it did not fail.
pub open spec fn dato<T>(r: Result<T, ErrorFila>) -> T {
    match r {
        Ok(x) => x,
        Err(_) => arbitrary(),
    }
}

/// The first of two failures.
pub open spec fn primer_fallo(a: Option<ErrorFila>, b: Option<ErrorFila>) -> Option<ErrorFila> {
    if a is Some {
        a
    } else {
        b
    }
}

/// `rusqlite::Row::get_ref` with the number of a column.  It fails
/// where the row has no column of that number, and else hands over the
/// value that the column holds: the integer of an integer, the bytes of
/// a text, and of a real number or a blob only that it is one.
#[verifier::external_body]
fn valor_de_columna(fila: &rusqlite::Row, columna: usize) -> (r: Result<Valor, rusqlite::Error>)
    ensures
        match r {
            Ok(x) => columna < valores_de(fila).len() && valores_de(fila)[columna as int] == x@,
            Err(_) => columna >= valores_de(fila).len(),
        },
{
    Ok(
        match fila.get_ref(columna)? {
            rusqlite::types::ValueRef::Null => Valor::Nulo,
            rusqlite::types::ValueRef::Integer(n) => Valor::Entero(n),
            rusqlite::types::ValueRef::Real(_) => Valor::Real,
            rusqlite::types::ValueRef::Text(t) => Valor::Texto(t.to_vec()),
            rusqlite::types::ValueRef::Blob(_) => Valor::Binario,
        },
    )
}

/// `String::from_utf8`.  It succeeds on the bytes that are valid UTF-8
/// and on no others, and the text it gives is made of those bytes.
#[verifier::external_body]
fn texto_de_bytes(bytes: Vec<u8>) -> (r: Option<String>)
    ensures
        match r {
            Some(s) => valid_utf8(bytes@) && encode_utf8(s@) == bytes@,
            None => !valid_utf8(bytes@),
        },
{
    String::from_utf8(bytes).ok()
}

/// The value that the column holds.
fn leer(fila: &rusqlite::Row, columna: usize) -> (r: Result<Valor, ErrorFila>)
    ensures
        match r {
            Ok(x) => columna < valores_de(fila).len() && valores_de(fila)[columna as int] == x@,
            Err(e) => columna >= valores_de(fila).len() && e == (ErrorFila::SinColumna {
                columna: columna,
            }),
        },
{
    match valor_de_columna(fila, columna) {
        Ok(x) => Ok(x),
        Err(_) => Err(ErrorFila::SinColumna { columna: columna }),
    }
}

/// The kind of the value `x`.
fn clase(x: &Valor) -> (c: Clase)
    ensures
        c == clase_de(x@),
{
    match x {
        Valor::Nulo => Clase::Nulo,
        Valor::Entero(_) => Clase::Entero,
        Valor::Real => Clase::Real,
        Valor::Texto(_) => Clase::Texto,
        Valor::Binario => Clase::Binario,
    }
}

fn entero_de(x: Valor, columna: usize) -> (r: Result<i32, ErrorFila>)
    ensures
        forall|v: Seq<ValorView>|
            columna < v.len() && v[columna as int] == x@ ==> r == #[trigger] entero_en(v, columna),
{
    match x {
        Valor::Entero(n) => {
            if n < -2147483648 || n > 2147483647 {
                Err(ErrorFila::Rango { columna: columna, valor: n })
            } else {
                Ok(n as i32)
            }
        },
        otro => Err(ErrorFila::Tipo { columna: columna, hallado: clase(&otro) }),
    }
}

fn texto_de(x: Valor, columna: usize) -> (r: Result<String, ErrorFila>)
    ensures
        forall|v: Seq<ValorView>|
            columna < v.len() && v[columna as int] == x@ ==> match r {
                Ok(s) => #[trigger] texto_en(v, columna) == Ok::<Seq<char>, ErrorFila>(s@),
                Err(e) => texto_en(v, columna) == Err::<Seq<char>, ErrorFila>(e),
            },
{
    match x {
        Valor::Texto(bytes) => {
            match texto_de_bytes(bytes) {
                Some(s) => {
                    proof {
                        encode_utf8_decode_utf8(s@);
                    }
                    Ok(s)
                },
                None => Err(ErrorFila::Utf8 { columna: columna }),
            }
        },
        otro => Err(ErrorFila::Tipo { columna: columna, hallado: clase(&otro) }),
    }
}

/// The column read as a 32-bit integer.
fn leer_entero(fila: &rusqlite::Row, columna: usize) -> (r: Result<i32, ErrorFila>)
    ensures
        r == entero_en(valores_de(fila), columna),
{
    let x = leer(fila, columna)?;
    entero_de(x, columna)
}

/// The column read as a 32-bit integer that may be absent.
fn leer_entero_opcional(fila: &rusqlite::Row, columna: usize) -> (r: Result<Option<i32>, ErrorFila>)
    ensures
        r == entero_opcional_en(valores_de(fila), columna),
{
    let x = leer(fila, columna)?;
    match x {
        Valor::Nulo => Ok(None),
        otro => match entero_de(otro, columna) {
            Ok(n) => Ok(Some(n)),
            Err(e) => Err(e),
        },
    }
}

/// The column read as an amount.
fn leer_importe(fila: &rusqlite::Row, columna: usize) -> (r: Result<u64, ErrorFila>)
    ensures
        r == importe_en(valores_de(fila), columna),
{
    let x = leer(fila, columna)?;
    match x {
        Valor::Entero(n) => {
            if n < 0 {
                Err(ErrorFila::Rango { columna: columna, valor: n })
            } else {
                Ok(n as u64)
            }
        },
        otro => Err(ErrorFila::Tipo { columna: columna, hallado: clase(&otro) }),
    }
}

/// The column read as a flag.
fn leer_booleano(fila: &rusqlite::Row, columna: usize) -> (r: Result<bool, ErrorFila>)
    ensures
        r == booleano_en(valores_de(fila), columna),
{
    let x = leer(fila, columna)?;
    match x {
        Valor::Entero(n) => Ok(n != 0),
        otro => Err(ErrorFila::Tipo { columna: columna, hallado: clase(&otro) }),
    }
}

/// The column read as a text.
fn leer_texto(fila: &rusqlite::Row, columna: usize) -> (r: Result<String, ErrorFila>)
    ensures
        match r {
            Ok(s) => texto_en(valores_de(fila), columna) == Ok::<Seq<char>, ErrorFila>(s@),
            Err(e) => texto_en(valores_de(fila), columna) == Err::<Seq<char>, ErrorFila>(e),
        },
{
    let x = leer(fila, columna)?;
    texto_de(x, columna)
}

/// The column read as a text that may be absent.
fn leer_texto_opcional(fila: &rusqlite::Row, columna: usize) -> (r: Result<
    Option<String>,
    ErrorFila,
>)
    ensures
        match r {
            Ok(s) => texto_opcional_en(valores_de(fila), columna) == Ok::<
                Option<Seq<char>>,
                ErrorFila,
            >(vista_opcional(s)),
            Err(e) => texto_opcional_en(valores_de(fila), columna) == Err::<
                Option<Seq<char>>,
                ErrorFila,
            >(e),
        },
{
    let x = leer(fila, columna)?;
    match x {
        Valor::Nulo => Ok(None),
        otro => match texto_de(otro, columna) {
            Ok(s) => Ok(Some(s)),
            Err(e) => Err(e),
        },
    }
}

/// The first column of `v`, in the order of the fields of a member, that does
/// not hold what its field takes, and what is wrong with it.
pub open spec fn fallo_de_hermano(v: Seq<ValorView>) -> Option<ErrorFila> {
    primer_fallo(fallo(entero_en(v, 0)),
    primer_fallo(fallo(texto_en(v, 1)),
    primer_fallo(fallo(texto_en(v, 2)),
    primer_fallo(fallo(texto_en(v, 3)),
    primer_fallo(fallo(texto_opcional_en(v, 4)),
    primer_fallo(fallo(texto_opcional_en(v, 5)),
    primer_fallo(fallo(texto_opcional_en(v, 6)),
    primer_fallo(fallo(texto_opcional_en(v, 7)),
    primer_fallo(fallo(texto_opcional_en(v, 8)),
    primer_fallo(fallo(texto_en(v, 9)),
    primer_fallo(fallo(entero_opcional_en(v, 10)),
    primer_fallo(fallo(texto_opcional_en(v, 11)),
    primer_fallo(fallo(texto_opcional_en(v, 12)),
    primer_fallo(fallo(texto_opcional_en(v, 13)),
    primer_fallo(fallo(texto_opcional_en(v, 14)),
    primer_fallo(fallo(texto_opcional_en(v, 15)),
    primer_fallo(fallo(texto_opcional_en(v, 16)),
    primer_fallo(fallo(texto_opcional_en(v, 17)),
    primer_fallo(fallo(texto_opcional_en(v, 18)),
    primer_fallo(fallo(texto_opcional_en(v, 19)),
    primer_fallo(fallo(booleano_en(v, 20)),
    primer_fallo(fallo(texto_opcional_en(v, 21)),
    primer_fallo(fallo(texto_opcional_en(v, 22)),
    primer_fallo(fallo(texto_opcional_en(v, 23)),
    primer_fallo(fallo(texto_opcional_en(v, 24)),
    primer_fallo(fallo(booleano_en(v, 25)),
    primer_fallo(fallo(texto_opcional_en(v, 26)),
    primer_fallo(fallo(texto_opcional_en(v, 27)),
    primer_fallo(fallo(texto_opcional_en(v, 28)),
    None)))))))))))))))))))))))))))))
}

/// The member that the columns `v` hold, where none of them fails.
pub open spec fn hermano_de_fila(v: Seq<ValorView>) -> HermanoView {
    HermanoView {
        id: Some(dato(entero_en(v, 0))),
        numero_hermano: dato(texto_en(v, 1)),
        nombre: dato(texto_en(v, 2)),
        primer_apellido: dato(texto_en(v, 3)),
        segundo_apellido: dato(texto_opcional_en(v, 4)),
        dni: dato(texto_opcional_en(v, 5)),
        fecha_nacimiento: dato(texto_opcional_en(v, 6)),
        localidad_nacimiento: dato(texto_opcional_en(v, 7)),
        provincia_nacimiento: dato(texto_opcional_en(v, 8)),
        fecha_alta: dato(texto_en(v, 9)),
        familia_id: dato(entero_opcional_en(v, 10)),
        telefono: dato(texto_opcional_en(v, 11)),
        email: dato(texto_opcional_en(v, 12)),
        direccion: dato(texto_opcional_en(v, 13)),
        localidad: dato(texto_opcional_en(v, 14)),
        provincia: dato(texto_opcional_en(v, 15)),
        codigo_postal: dato(texto_opcional_en(v, 16)),
        parroquia_bautismo: dato(texto_opcional_en(v, 17)),
        localidad_bautismo: dato(texto_opcional_en(v, 18)),
        provincia_bautismo: dato(texto_opcional_en(v, 19)),
        autorizacion_menores: dato(booleano_en(v, 20)),
        nombre_representante_legal: dato(texto_opcional_en(v, 21)),
        dni_representante_legal: dato(texto_opcional_en(v, 22)),
        hermano_aval_1: dato(texto_opcional_en(v, 23)),
        hermano_aval_2: dato(texto_opcional_en(v, 24)),
        activo: dato(booleano_en(v, 25)),
        observaciones: dato(texto_opcional_en(v, 26)),
        created_at: dato(texto_opcional_en(v, 27)),
        updated_at: dato(texto_opcional_en(v, 28)),
    }
}

/// What reading a member from the columns `v` gives: the member, or the first
/// failure.
pub open spec fn hermano_en_fila(v: Seq<ValorView>) -> Result<HermanoView, ErrorFila> {
    match fallo_de_hermano(v) {
        Some(e) => Err(e),
        None => Ok(hermano_de_fila(v)),
    }
}

impl Hermano {
    /// Reads a member from a row of a query that selects the columns of its
    /// table in the order of the fields.  The columns are read in that
    /// order, and the first that does not hold what its field takes
    /// stops the reading.
    pub fn from_row(row: &rusqlite::Row) -> (r: Result<Hermano, ErrorFila>)
        ensures
            match r {
                Ok(x) => hermano_en_fila(valores_de(row)) == Ok::<HermanoView, ErrorFila>(x@),
                Err(e) => hermano_en_fila(valores_de(row)) == Err::<HermanoView, ErrorFila>(e),
            },
    {
        let id = leer_entero(row, 0)?;
        let numero_hermano = leer_texto(row, 1)?;
        let nombre = leer_texto(row, 2)?;
        let primer_apellido = leer_texto(row, 3)?;
        let segundo_apellido = leer_texto_opcional(row, 4)?;
        let dni = leer_texto_opcional(row, 5)?;
        let fecha_nacimiento = leer_texto_opcional(row, 6)?;
        let localidad_nacimiento = leer_texto_opcional(row, 7)?;
        let provincia_nacimiento = leer_texto_opcional(row, 8)?;
        let fecha_alta = leer_texto(row, 9)?;
        let familia_id = leer_entero_opcional(row, 10)?;
        let telefono = leer_texto_opcional(row, 11)?;
        let email = leer_texto_opcional(row, 12)?;
        let direccion = leer_texto_opcional(row, 13)?;
        let localidad = leer_texto_opcional(row, 14)?;
        let provincia = leer_texto_opcional(row, 15)?;
        let codigo_postal = leer_texto_opcional(row, 16)?;
        let parroquia_bautismo = leer_texto_opcional(row, 17)?;
        let localidad_bautismo = leer_texto_opcional(row, 18)?;
        let provincia_bautismo = leer_texto_opcional(row, 19)?;
        let autorizacion_menores = leer_booleano(row, 20)?;
        let nombre_representante_legal = leer_texto_opcional(row, 21)?;
        let dni_representante_legal = leer_texto_opcional(row, 22)?;
        let hermano_aval_1 = leer_texto_opcional(row, 23)?;
        let hermano_aval_2 = leer_texto_opcional(row, 24)?;
        let activo = leer_booleano(row, 25)?;
        let observaciones = leer_texto_opcional(row, 26)?;
        let created_at = leer_texto_opcional(row, 27)?;
        let updated_at = leer_texto_opcional(row, 28)?;
        Ok(
            Hermano {
                id: Some(id),
                numero_hermano: numero_hermano,
                nombre: nombre,
                primer_apellido: primer_apellido,
                segundo_apellido: segundo_apellido,
                dni: dni,
                fecha_nacimiento: fecha_nacimiento,
                localidad_nacimiento: localidad_nacimiento,
                provincia_nacimiento: provincia_nacimiento,
                fecha_alta: fecha_alta,
                familia_id: familia_id,
                telefono: telefono,
                email: email,
                direccion: direccion,
                localidad: localidad,
                provincia: provincia,
                codigo_postal: codigo_postal,
                parroquia_bautismo: parroquia_bautismo,
                localidad_bautismo: localidad_bautismo,
                provincia_bautismo: provincia_bautismo,
                autorizacion_menores: autorizacion_menores,
                nombre_representante_legal: nombre_representante_legal,
                dni_representante_legal: dni_representante_legal,
                hermano_aval_1: hermano_aval_1,
                hermano_aval_2: hermano_aval_2,
                activo: activo,
                observaciones: observaciones,
                created_at: created_at,
                updated_at: updated_at,
            },
        )
    }
}

/// The first column of `v`, in the order of the fields of a family, that does
/// not hold what its field takes, and what is wrong with it.
pub open spec fn fallo_de_familia(v: Seq<ValorView>) -> Option<ErrorFila> {
    primer_fallo(fallo(entero_en(v, 0)),
    primer_fallo(fallo(texto_en(v, 1)),
    primer_fallo(fallo(entero_opcional_en(v, 2)),
    primer_fallo(fallo(texto_opcional_en(v, 3)),
    primer_fallo(fallo(texto_opcional_en(v, 4)),
    None)))))
}

/// The family that the columns `v` hold, where none of them fails.
pub open spec fn familia_de_fila(v: Seq<ValorView>) -> FamiliaView {
    FamiliaView {
        id: Some(dato(entero_en(v, 0))),
        nombre_familia: dato(texto_en(v, 1)),
        hermano_direccion_id: dato(entero_opcional_en(v, 2)),
        created_at: dato(texto_opcional_en(v, 3)),
        updated_at: dato(texto_opcional_en(v, 4)),
    }
}

/// What reading a family from the columns `v` gives: the family, or the first
/// failure.
pub open spec fn familia_en_fila(v: Seq<ValorView>) -> Result<FamiliaView, ErrorFila> {
    match fallo_de_familia(v) {
        Some(e) => Err(e),
        None => Ok(familia_de_fila(v)),
    }
}

impl Familia {
    /// Reads a family from a row of a query that selects the columns of its
    /// table in the order of the fields.  The columns are read in that
    /// order, and the first that does not hold what its field takes
    /// stops the reading.
    pub fn from_row(row: &rusqlite::Row) -> (r: Result<Familia, ErrorFila>)
        ensures
            match r {
                Ok(x) => familia_en_fila(valores_de(row)) == Ok::<FamiliaView, ErrorFila>(x@),
                Err(e) => familia_en_fila(valores_de(row)) == Err::<FamiliaView, ErrorFila>(e),
            },
    {
        let id = leer_entero(row, 0)?;
        let nombre_familia = leer_texto(row, 1)?;
        let hermano_direccion_id = leer_entero_opcional(row, 2)?;
        let created_at = leer_texto_opcional(row, 3)?;
        let updated_at = leer_texto_opcional(row, 4)?;
        Ok(
            Familia {
                id: Some(id),
                nombre_familia: nombre_familia,
                hermano_direccion_id: hermano_direccion_id,
                created_at: created_at,
                updated_at: updated_at,
            },
        )
    }
}

/// The first column of `v`, in the order of the fields of a due, that does
/// not hold what its field takes, and what is wrong with it.
pub open spec fn fallo_de_cuota(v: Seq<ValorView>) -> Option<ErrorFila> {
    primer_fallo(fallo(entero_en(v, 0)),
    primer_fallo(fallo(entero_en(v, 1)),
    primer_fallo(fallo(entero_en(v, 2)),
    primer_fallo(fallo(entero_en(v, 3)),
    primer_fallo(fallo(importe_en(v, 4)),
    primer_fallo(fallo(booleano_en(v, 5)),
    primer_fallo(fallo(texto_opcional_en(v, 6)),
    primer_fallo(fallo(texto_opcional_en(v, 7)),
    primer_fallo(fallo(texto_opcional_en(v, 8)),
    primer_fallo(fallo(texto_opcional_en(v, 9)),
    primer_fallo(fallo(texto_opcional_en(v, 10)),
    None)))))))))))
}

/// The due that the columns `v` hold, where none of them fails.
pub open spec fn cuota_de_fila(v: Seq<ValorView>) -> CuotaView {
    CuotaView {
        id: Some(dato(entero_en(v, 0))),
        hermano_id: dato(entero_en(v, 1)),
        anio: dato(entero_en(v, 2)),
        trimestre: dato(entero_en(v, 3)),
        importe: dato(importe_en(v, 4)),
        pagado: dato(booleano_en(v, 5)),
        fecha_pago: dato(texto_opcional_en(v, 6)),
        metodo_pago: dato(texto_opcional_en(v, 7)),
        observaciones: dato(texto_opcional_en(v, 8)),
        created_at: dato(texto_opcional_en(v, 9)),
        updated_at: dato(texto_opcional_en(v, 10)),
    }
}

/// What reading a due from the columns `v` gives: the due, or the first
/// failure.
pub open spec fn cuota_en_fila(v: Seq<ValorView>) -> Result<CuotaView, ErrorFila> {
    match fallo_de_cuota(v) {
        Some(e) => Err(e),
        None => Ok(cuota_de_fila(v)),
    }
}

impl Cuota {
    /// Reads a due from a row of a query that selects the columns of its
    /// table in the order of the fields, the amount as a whole
    /// number of minor units.  The columns are read in that
    /// order, and the first that does not hold what its field takes
    /// stops the reading.
    pub fn from_row(row: &rusqlite::Row) -> (r: Result<Cuota, ErrorFila>)
        ensures
            match r {
                Ok(x) => cuota_en_fila(valores_de(row)) == Ok::<CuotaView, ErrorFila>(x@),
                Err(e) => cuota_en_fila(valores_de(row)) == Err::<CuotaView, ErrorFila>(e),
            },
    {
        let id = leer_entero(row, 0)?;
        let hermano_id = leer_entero(row, 1)?;
        let anio = leer_entero(row, 2)?;
        let trimestre = leer_entero(row, 3)?;
        let importe = leer_importe(row, 4)?;
        let pagado = leer_booleano(row, 5)?;
        let fecha_pago = leer_texto_opcional(row, 6)?;
        let metodo_pago = leer_texto_opcional(row, 7)?;
        let observaciones = leer_texto_opcional(row, 8)?;
        let created_at = leer_texto_opcional(row, 9)?;
        let updated_at = leer_texto_opcional(row, 10)?;
        Ok(
            Cuota {
                id: Some(id),
                hermano_id: hermano_id,
                anio: anio,
                trimestre: trimestre,
                importe: importe,
                pagado: pagado,
                fecha_pago: fecha_pago,
                metodo_pago: metodo_pago,
                observaciones: observaciones,
                created_at: created_at,
                updated_at: updated_at,
            },
        )
    }
}

} // verus!
