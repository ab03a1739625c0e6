//! The tables behind the registry, and the move from the old table of
//! members, which held both surnames in one column, to the table with one
//! column for each.

use crate::modelo::{copia_opcional, vista_opcional, Hermano, HermanoView};
use crate::texto::{aparece_en, caracteres, contiene, recortado, recortar, texto_igual};
use vstd::prelude::*;
use vstd::string::*;

verus! {

/// A row of the old table of members.
#[derive(Debug, PartialEq, Eq)]
pub struct HermanoAntiguo {
    pub id: i32,
    pub numero_hermano: String,
    pub nombre: String,
    pub apellidos: String,
    pub dni: Option<String>,
    pub fecha_nacimiento: Option<String>,
    pub fecha_alta: String,
    pub familia_id: Option<i32>,
    pub telefono: Option<String>,
    pub email: Option<String>,
    pub direccion: Option<String>,
    pub activo: bool,
    pub observaciones: Option<String>,
    pub created_at: Option<String>,
    pub updated_at: Option<String>,
}

/// What a row of the old table holds, as mathematical values.
pub struct HermanoAntiguoView {
    pub id: i32,
    pub numero_hermano: Seq<char>,
    pub nombre: Seq<char>,
    pub apellidos: Seq<char>,
    pub dni: Option<Seq<char>>,
    pub fecha_nacimiento: Option<Seq<char>>,
    pub fecha_alta: Seq<char>,
    pub familia_id: Option<i32>,
    pub telefono: Option<Seq<char>>,
    pub email: Option<Seq<char>>,
    pub direccion: Option<Seq<char>>,
    pub activo: bool,
    pub observaciones: Option<Seq<char>>,
    pub created_at: Option<Seq<char>>,
    pub updated_at: Option<Seq<char>>,
}

impl View for HermanoAntiguo {
    type V = HermanoAntiguoView;

    open spec fn view(&self) -> HermanoAntiguoView {
        HermanoAntiguoView {
            id: self.id,
            numero_hermano: self.numero_hermano@,
            nombre: self.nombre@,
            apellidos: self.apellidos@,
            dni: vista_opcional(self.dni),
            fecha_nacimiento: vista_opcional(self.fecha_nacimiento),
            fecha_alta: self.fecha_alta@,
            familia_id: self.familia_id,
            telefono: vista_opcional(self.telefono),
            email: vista_opcional(self.email),
            direccion: vista_opcional(self.direccion),
            activo: self.activo,
            observaciones: vista_opcional(self.observaciones),
            created_at: vista_opcional(self.created_at),
            updated_at: vista_opcional(self.updated_at),
        }
    }
}

/// The name of the column that only the old table has.
pub open spec fn columna_antigua() -> Seq<char> {
    "apellidos"@
}

/// Whether the table described by `columnas` is the old one.
pub open spec fn es_tabla_antigua(columnas: Seq<String>) -> bool {
    exists|i: int| 0 <= i < columnas.len() && (#[trigger] columnas[i])@ == columna_antigua()
}

/// Where the first blank of `s` stands; its length where it has none.
pub open spec fn posicion_blanco(s: Seq<char>) -> int
    decreases s.len(),
{
    if s.len() == 0 || s[0] == ' ' {
        0
    } else {
        1 + posicion_blanco(s.drop_first())
    }
}

/// The two surnames held in `apellidos`: what stands before the first
/// blank, and what stands after it, trimmed of blanks.  Without a blank
/// the whole is the first surname and there is no second one.
pub open spec fn apellidos_divididos(apellidos: Seq<char>) -> (Seq<char>, Option<Seq<char>>) {
    let p = posicion_blanco(apellidos);
    if p < apellidos.len() {
        (
            apellidos.subrange(0, p),
            Some(recortado(apellidos.subrange(p + 1, apellidos.len() as int))),
        )
    } else {
        (apellidos, None)
    }
}

/// The row of the new table that stands for the old row `a`: what both
/// tables hold is carried over, the surnames are divided, and what only
/// the new table holds starts empty.
pub open spec fn hermano_migrado(a: HermanoAntiguoView) -> HermanoView {
    HermanoView {
        id: Some(a.id),
        numero_hermano: a.numero_hermano,
        nombre: a.nombre,
        primer_apellido: apellidos_divididos(a.apellidos).0,
        segundo_apellido: apellidos_divididos(a.apellidos).1,
        dni: a.dni,
        fecha_nacimiento: a.fecha_nacimiento,
        localidad_nacimiento: None,
        provincia_nacimiento: None,
        fecha_alta: a.fecha_alta,
        familia_id: a.familia_id,
        telefono: a.telefono,
        email: a.email,
        direccion: a.direccion,
        localidad: None,
        provincia: None,
        codigo_postal: None,
        parroquia_bautismo: None,
        localidad_bautismo: None,
        provincia_bautismo: None,
        autorizacion_menores: false,
        nombre_representante_legal: None,
        dni_representante_legal: None,
        hermano_aval_1: None,
        hermano_aval_2: None,
        activo: a.activo,
        observaciones: a.observaciones,
        created_at: a.created_at,
        updated_at: a.updated_at,
    }
}

/// Whether the table of members still has to be migrated, given the
/// names of its columns.
pub fn necesita_migracion(columnas: &Vec<String>) -> (r: bool)
    ensures
        r == es_tabla_antigua(columnas@),
{
    let n: usize = columnas.len();
    let mut i: usize = 0;
    while i < n
        invariant
            n == columnas@.len(),
            i <= n,
            forall|k: int| 0 <= k < i ==> (#[trigger] columnas@[k])@ != columna_antigua(),
        decreases n - i,
    {
        if texto_igual(columnas[i].as_str(), "apellidos") {
            return true;
        }
        i = i + 1;
    }
    false
}

/// Divides the one column of surnames into the two of the new table.
pub fn dividir_apellidos(apellidos: &str) -> (r: (String, Option<String>))
    ensures
        r.0@ == apellidos_divididos(apellidos@).0,
        vista_opcional(r.1) == apellidos_divididos(apellidos@).1,
{
    let v = caracteres(apellidos);
    let n: usize = v.len();
    let mut p: usize = 0;
    assert(apellidos@.subrange(0, n as int) =~= apellidos@);
    while p < n && v[p] != ' '
        invariant
            v@ == apellidos@,
            n == v@.len(),
            p <= n,
            posicion_blanco(apellidos@) == p + posicion_blanco(apellidos@.subrange(p as int, n as int)),
        decreases n - p,
    {
        proof {
            let t = apellidos@.subrange(p as int, n as int);
            assert(t.drop_first() =~= apellidos@.subrange(p + 1, n as int));
        }
        p = p + 1;
    }
    if p < n {
        let primero = apellidos.substring_char(0, p).to_owned();
        let resto = apellidos.substring_char(p + 1, n);
        (primero, Some(recortar(resto)))
    } else {
        (apellidos.to_owned(), None)
    }
}

/// The row of the new table that stands for the old row `a`.
pub fn migrar_hermano(a: &HermanoAntiguo) -> (r: Hermano)
    ensures
        r@ == hermano_migrado(a@),
{
    let (primer_apellido, segundo_apellido) = dividir_apellidos(a.apellidos.as_str());
    Hermano {
        id: Some(a.id),
        numero_hermano: a.numero_hermano.clone(),
        nombre: a.nombre.clone(),
        primer_apellido: primer_apellido,
        segundo_apellido: segundo_apellido,
        dni: copia_opcional(&a.dni),
        fecha_nacimiento: copia_opcional(&a.fecha_nacimiento),
        localidad_nacimiento: None,
        provincia_nacimiento: None,
        fecha_alta: a.fecha_alta.clone(),
        familia_id: a.familia_id,
        telefono: copia_opcional(&a.telefono),
        email: copia_opcional(&a.email),
        direccion: copia_opcional(&a.direccion),
        localidad: None,
        provincia: None,
        codigo_postal: None,
        parroquia_bautismo: None,
        localidad_bautismo: None,
        provincia_bautismo: None,
        autorizacion_menores: false,
        nombre_representante_legal: None,
        dni_representante_legal: None,
        hermano_aval_1: None,
        hermano_aval_2: None,
        activo: a.activo,
        observaciones: copia_opcional(&a.observaciones),
        created_at: copia_opcional(&a.created_at),
        updated_at: copia_opcional(&a.updated_at),
    }
}

/// `s` begins with `prefijo`.
pub open spec fn empieza_por(s: Seq<char>, prefijo: Seq<char>) -> bool {
    prefijo.len() <= s.len() && s.subrange(0, prefijo.len() as int) == prefijo
}

/// `s` is a statement that creates the table `nombre` where it is
/// missing, and does nothing where it is there: it can be run again and
/// again.
pub open spec fn tabla_si_falta(s: Seq<char>, nombre: Seq<char>) -> bool {
    empieza_por(s, "CREATE TABLE IF NOT EXISTS "@ + nombre + " "@)
}

/// `s` defines the columns of the table of families: the identifier that
/// the table hands out, the name, unique, the member whose address stands
/// for the family, and the two time stamps.
pub open spec fn define_familias(s: Seq<char>) -> bool {
    &&& contiene(s, "id INTEGER PRIMARY KEY AUTOINCREMENT,"@)
    &&& contiene(s, "nombre_familia TEXT NOT NULL UNIQUE,"@)
    &&& contiene(s, "hermano_direccion_id INTEGER,"@)
    &&& contiene(s, "created_at TEXT DEFAULT CURRENT_TIMESTAMP,"@)
    &&& contiene(s, "updated_at TEXT DEFAULT CURRENT_TIMESTAMP"@)
}

/// `s` defines the columns of the table of members, the member number
/// unique, name and first surname required, and one column for each
/// surname.
pub open spec fn define_hermanos(s: Seq<char>) -> bool {
    &&& contiene(s, "id INTEGER PRIMARY KEY AUTOINCREMENT,"@)
    &&& contiene(s, "numero_hermano TEXT NOT NULL UNIQUE,"@)
    &&& contiene(s, "nombre TEXT NOT NULL,"@)
    &&& contiene(s, "primer_apellido TEXT NOT NULL,"@)
    &&& contiene(s, "segundo_apellido TEXT,"@)
    &&& contiene(s, "dni TEXT,"@)
    &&& contiene(s, "fecha_nacimiento TEXT,"@)
    &&& contiene(s, "localidad_nacimiento TEXT,"@)
    &&& contiene(s, "provincia_nacimiento TEXT,"@)
    &&& contiene(s, "fecha_alta TEXT NOT NULL,"@)
    &&& contiene(s, "familia_id INTEGER,"@)
    &&& contiene(s, "telefono TEXT,"@)
    &&& contiene(s, "email TEXT,"@)
    &&& contiene(s, "direccion TEXT,"@)
    &&& contiene(s, "localidad TEXT,"@)
    &&& contiene(s, "provincia TEXT,"@)
    &&& contiene(s, "codigo_postal TEXT,"@)
    &&& contiene(s, "parroquia_bautismo TEXT,"@)
    &&& contiene(s, "localidad_bautismo TEXT,"@)
    &&& contiene(s, "provincia_bautismo TEXT,"@)
    &&& contiene(s, "autorizacion_menores BOOLEAN NOT NULL DEFAULT 0,"@)
    &&& contiene(s, "nombre_representante_legal TEXT,"@)
    &&& contiene(s, "dni_representante_legal TEXT,"@)
    &&& contiene(s, "hermano_aval_1 TEXT,"@)
    &&& contiene(s, "hermano_aval_2 TEXT,"@)
    &&& contiene(s, "activo BOOLEAN NOT NULL DEFAULT 1,"@)
    &&& contiene(s, "observaciones TEXT,"@)
    &&& contiene(s, "created_at TEXT DEFAULT CURRENT_TIMESTAMP,"@)
    &&& contiene(s, "updated_at TEXT DEFAULT CURRENT_TIMESTAMP,"@)
    &&& contiene(s, "FOREIGN KEY (familia_id) REFERENCES familias (id)"@)
}

/// `s` defines the columns of the table of dues and its rules: a due falls
/// in one of four quarters, goes when its member goes, and is the only
/// one of its member for its year and quarter.
pub open spec fn define_cuotas(s: Seq<char>) -> bool {
    &&& contiene(s, "id INTEGER PRIMARY KEY AUTOINCREMENT,"@)
    &&& contiene(s, "hermano_id INTEGER NOT NULL,"@)
    &&& contiene(s, "anio INTEGER NOT NULL,"@)
    &&& contiene(s, "trimestre INTEGER NOT NULL CHECK(trimestre >= 1 AND trimestre <= 4),"@)
    &&& contiene(s, "importe REAL NOT NULL,"@)
    &&& contiene(s, "pagado BOOLEAN NOT NULL DEFAULT 0,"@)
    &&& contiene(s, "fecha_pago TEXT,"@)
    &&& contiene(s, "metodo_pago TEXT,"@)
    &&& contiene(s, "observaciones TEXT,"@)
    &&& contiene(s, "created_at TEXT DEFAULT CURRENT_TIMESTAMP,"@)
    &&& contiene(s, "updated_at TEXT DEFAULT CURRENT_TIMESTAMP,"@)
    &&& contiene(s, "FOREIGN KEY (hermano_id) REFERENCES hermanos (id) ON DELETE CASCADE,"@)
    &&& contiene(s, "UNIQUE(hermano_id, anio, trimestre)"@)
}

/// The statement that creates the index `nombre` on the column
/// `columna` of `tabla` where it is missing.
pub open spec fn indice_si_falta(nombre: Seq<char>, tabla: Seq<char>, columna: Seq<char>) -> Seq<char> {
    "CREATE INDEX IF NOT EXISTS "@ + nombre + " ON "@ + tabla + "("@ + columna + ")"@
}

/// The table of families.
fn tabla_familias() -> (s: &'static str)
    ensures
        tabla_si_falta(s@, "familias"@),
        define_familias(s@),
{
    let s = "CREATE TABLE IF NOT EXISTS familias (
            id INTEGER PRIMARY KEY AUTOINCREMENT,
            nombre_familia TEXT NOT NULL UNIQUE,
            hermano_direccion_id INTEGER,
            created_at TEXT DEFAULT CURRENT_TIMESTAMP,
            updated_at TEXT DEFAULT CURRENT_TIMESTAMP
        )";
    proof {
        reveal_strlit("CREATE TABLE IF NOT EXISTS familias (
            id INTEGER PRIMARY KEY AUTOINCREMENT,
            nombre_familia TEXT NOT NULL UNIQUE,
            hermano_direccion_id INTEGER,
            created_at TEXT DEFAULT CURRENT_TIMESTAMP,
            updated_at TEXT DEFAULT CURRENT_TIMESTAMP
        )");
        reveal_strlit("CREATE TABLE IF NOT EXISTS familias ");
        reveal_strlit("CREATE TABLE IF NOT EXISTS ");
        reveal_strlit("familias");
        reveal_strlit(" ");
        assert(s@.subrange(0, 36) =~= "CREATE TABLE IF NOT EXISTS "@ + "familias"@ + " "@);
        reveal_strlit("id INTEGER PRIMARY KEY AUTOINCREMENT,");
        assert(s@.subrange(50, 87) =~= "id INTEGER PRIMARY KEY AUTOINCREMENT,"@);
        assert(aparece_en(s@, "id INTEGER PRIMARY KEY AUTOINCREMENT,"@, 50));
        reveal_strlit("nombre_familia TEXT NOT NULL UNIQUE,");
        assert(s@.subrange(100, 136) =~= "nombre_familia TEXT NOT NULL UNIQUE,"@);
        assert(aparece_en(s@, "nombre_familia TEXT NOT NULL UNIQUE,"@, 100));
        reveal_strlit("hermano_direccion_id INTEGER,");
        assert(s@.subrange(149, 178) =~= "hermano_direccion_id INTEGER,"@);
        assert(aparece_en(s@, "hermano_direccion_id INTEGER,"@, 149));
        reveal_strlit("created_at TEXT DEFAULT CURRENT_TIMESTAMP,");
        assert(s@.subrange(191, 233) =~= "created_at TEXT DEFAULT CURRENT_TIMESTAMP,"@);
        assert(aparece_en(s@, "created_at TEXT DEFAULT CURRENT_TIMESTAMP,"@, 191));
        reveal_strlit("updated_at TEXT DEFAULT CURRENT_TIMESTAMP");
        assert(s@.subrange(246, 287) =~= "updated_at TEXT DEFAULT CURRENT_TIMESTAMP"@);
        assert(aparece_en(s@, "updated_at TEXT DEFAULT CURRENT_TIMESTAMP"@, 246));
    }
    s
}

/// The table of members.
fn tabla_hermanos() -> (s: &'static str)
    ensures
        tabla_si_falta(s@, "hermanos"@),
        define_hermanos(s@),
{
    let s = "CREATE TABLE IF NOT EXISTS hermanos (
            id INTEGER PRIMARY KEY AUTOINCREMENT,
            numero_hermano TEXT NOT NULL UNIQUE,
            nombre TEXT NOT NULL,
            primer_apellido TEXT NOT NULL,
            segundo_apellido TEXT,
            dni TEXT,
            fecha_nacimiento TEXT,
            localidad_nacimiento TEXT,
            provincia_nacimiento TEXT,
            fecha_alta TEXT NOT NULL,
            familia_id INTEGER,
            telefono TEXT,
            email TEXT,
            direccion TEXT,
            localidad TEXT,
            provincia TEXT,
            codigo_postal TEXT,
            parroquia_bautismo TEXT,
            localidad_bautismo TEXT,
            provincia_bautismo TEXT,
            autorizacion_menores BOOLEAN NOT NULL DEFAULT 0,
            nombre_representante_legal TEXT,
            dni_representante_legal TEXT,
            hermano_aval_1 TEXT,
            hermano_aval_2 TEXT,
            activo BOOLEAN NOT NULL DEFAULT 1,
            observaciones TEXT,
            created_at TEXT DEFAULT CURRENT_TIMESTAMP,
            updated_at TEXT DEFAULT CURRENT_TIMESTAMP,
            FOREIGN KEY (familia_id) REFERENCES familias (id)
        )";
    proof {
        reveal_strlit("CREATE TABLE IF NOT EXISTS hermanos (
            id INTEGER PRIMARY KEY AUTOINCREMENT,
            numero_hermano TEXT NOT NULL UNIQUE,
            nombre TEXT NOT NULL,
            primer_apellido TEXT NOT NULL,
            segundo_apellido TEXT,
            dni TEXT,
            fecha_nacimiento TEXT,
            localidad_nacimiento TEXT,
            provincia_nacimiento TEXT,
            fecha_alta TEXT NOT NULL,
            familia_id INTEGER,
            telefono TEXT,
            email TEXT,
            direccion TEXT,
            localidad TEXT,
            provincia TEXT,
            codigo_postal TEXT,
            parroquia_bautismo TEXT,
            localidad_bautismo TEXT,
            provincia_bautismo TEXT,
            autorizacion_menores BOOLEAN NOT NULL DEFAULT 0,
            nombre_representante_legal TEXT,
            dni_representante_legal TEXT,
            hermano_aval_1 TEXT,
            hermano_aval_2 TEXT,
            activo BOOLEAN NOT NULL DEFAULT 1,
            observaciones TEXT,
            created_at TEXT DEFAULT CURRENT_TIMESTAMP,
            updated_at TEXT DEFAULT CURRENT_TIMESTAMP,
            FOREIGN KEY (familia_id) REFERENCES familias (id)
        )");
        reveal_strlit("CREATE TABLE IF NOT EXISTS hermanos ");
        reveal_strlit("CREATE TABLE IF NOT EXISTS ");
        reveal_strlit("hermanos");
        reveal_strlit(" ");
        assert(s@.subrange(0, 36) =~= "CREATE TABLE IF NOT EXISTS "@ + "hermanos"@ + " "@);
        reveal_strlit("id INTEGER PRIMARY KEY AUTOINCREMENT,");
        assert(s@.subrange(50, 87) =~= "id INTEGER PRIMARY KEY AUTOINCREMENT,"@);
        assert(aparece_en(s@, "id INTEGER PRIMARY KEY AUTOINCREMENT,"@, 50));
        reveal_strlit("numero_hermano TEXT NOT NULL UNIQUE,");
        assert(s@.subrange(100, 136) =~= "numero_hermano TEXT NOT NULL UNIQUE,"@);
        assert(aparece_en(s@, "numero_hermano TEXT NOT NULL UNIQUE,"@, 100));
        reveal_strlit("nombre TEXT NOT NULL,");
        assert(s@.subrange(149, 170) =~= "nombre TEXT NOT NULL,"@);
        assert(aparece_en(s@, "nombre TEXT NOT NULL,"@, 149));
        reveal_strlit("primer_apellido TEXT NOT NULL,");
        assert(s@.subrange(183, 213) =~= "primer_apellido TEXT NOT NULL,"@);
        assert(aparece_en(s@, "primer_apellido TEXT NOT NULL,"@, 183));
        reveal_strlit("segundo_apellido TEXT,");
        assert(s@.subrange(226, 248) =~= "segundo_apellido TEXT,"@);
        assert(aparece_en(s@, "segundo_apellido TEXT,"@, 226));
        reveal_strlit("dni TEXT,");
        assert(s@.subrange(261, 270) =~= "dni TEXT,"@);
        assert(aparece_en(s@, "dni TEXT,"@, 261));
        reveal_strlit("fecha_nacimiento TEXT,");
        assert(s@.subrange(283, 305) =~= "fecha_nacimiento TEXT,"@);
        assert(aparece_en(s@, "fecha_nacimiento TEXT,"@, 283));
        reveal_strlit("localidad_nacimiento TEXT,");
        assert(s@.subrange(318, 344) =~= "localidad_nacimiento TEXT,"@);
        assert(aparece_en(s@, "localidad_nacimiento TEXT,"@, 318));
        reveal_strlit("provincia_nacimiento TEXT,");
        assert(s@.subrange(357, 383) =~= "provincia_nacimiento TEXT,"@);
        assert(aparece_en(s@, "provincia_nacimiento TEXT,"@, 357));
        reveal_strlit("fecha_alta TEXT NOT NULL,");
        assert(s@.subrange(396, 421) =~= "fecha_alta TEXT NOT NULL,"@);
        assert(aparece_en(s@, "fecha_alta TEXT NOT NULL,"@, 396));
        reveal_strlit("familia_id INTEGER,");
        assert(s@.subrange(434, 453) =~= "familia_id INTEGER,"@);
        assert(aparece_en(s@, "familia_id INTEGER,"@, 434));
        reveal_strlit("telefono TEXT,");
        assert(s@.subrange(466, 480) =~= "telefono TEXT,"@);
        assert(aparece_en(s@, "telefono TEXT,"@, 466));
        reveal_strlit("email TEXT,");
        assert(s@.subrange(493, 504) =~= "email TEXT,"@);
        assert(aparece_en(s@, "email TEXT,"@, 493));
        reveal_strlit("direccion TEXT,");
        assert(s@.subrange(517, 532) =~= "direccion TEXT,"@);
        assert(aparece_en(s@, "direccion TEXT,"@, 517));
        reveal_strlit("localidad TEXT,");
        assert(s@.subrange(545, 560) =~= "localidad TEXT,"@);
        assert(aparece_en(s@, "localidad TEXT,"@, 545));
        reveal_strlit("provincia TEXT,");
        assert(s@.subrange(573, 588) =~= "provincia TEXT,"@);
        assert(aparece_en(s@, "provincia TEXT,"@, 573));
        reveal_strlit("codigo_postal TEXT,");
        assert(s@.subrange(601, 620) =~= "codigo_postal TEXT,"@);
        assert(aparece_en(s@, "codigo_postal TEXT,"@, 601));
        reveal_strlit("parroquia_bautismo TEXT,");
        assert(s@.subrange(633, 657) =~= "parroquia_bautismo TEXT,"@);
        assert(aparece_en(s@, "parroquia_bautismo TEXT,"@, 633));
        reveal_strlit("localidad_bautismo TEXT,");
        assert(s@.subrange(670, 694) =~= "localidad_bautismo TEXT,"@);
        assert(aparece_en(s@, "localidad_bautismo TEXT,"@, 670));
        reveal_strlit("provincia_bautismo TEXT,");
        assert(s@.subrange(707, 731) =~= "provincia_bautismo TEXT,"@);
        assert(aparece_en(s@, "provincia_bautismo TEXT,"@, 707));
        reveal_strlit("autorizacion_menores BOOLEAN NOT NULL DEFAULT 0,");
        assert(s@.subrange(744, 792) =~= "autorizacion_menores BOOLEAN NOT NULL DEFAULT 0,"@);
        assert(aparece_en(s@, "autorizacion_menores BOOLEAN NOT NULL DEFAULT 0,"@, 744));
        reveal_strlit("nombre_representante_legal TEXT,");
        assert(s@.subrange(805, 837) =~= "nombre_representante_legal TEXT,"@);
        assert(aparece_en(s@, "nombre_representante_legal TEXT,"@, 805));
        reveal_strlit("dni_representante_legal TEXT,");
        assert(s@.subrange(850, 879) =~= "dni_representante_legal TEXT,"@);
        assert(aparece_en(s@, "dni_representante_legal TEXT,"@, 850));
        reveal_strlit("hermano_aval_1 TEXT,");
        assert(s@.subrange(892, 912) =~= "hermano_aval_1 TEXT,"@);
        assert(aparece_en(s@, "hermano_aval_1 TEXT,"@, 892));
        reveal_strlit("hermano_aval_2 TEXT,");
        assert(s@.subrange(925, 945) =~= "hermano_aval_2 TEXT,"@);
        assert(aparece_en(s@, "hermano_aval_2 TEXT,"@, 925));
        reveal_strlit("activo BOOLEAN NOT NULL DEFAULT 1,");
        assert(s@.subrange(958, 992) =~= "activo BOOLEAN NOT NULL DEFAULT 1,"@);
        assert(aparece_en(s@, "activo BOOLEAN NOT NULL DEFAULT 1,"@, 958));
        reveal_strlit("observaciones TEXT,");
        assert(s@.subrange(1005, 1024) =~= "observaciones TEXT,"@);
        assert(aparece_en(s@, "observaciones TEXT,"@, 1005));
        reveal_strlit("created_at TEXT DEFAULT CURRENT_TIMESTAMP,");
        assert(s@.subrange(1037, 1079) =~= "created_at TEXT DEFAULT CURRENT_TIMESTAMP,"@);
        assert(aparece_en(s@, "created_at TEXT DEFAULT CURRENT_TIMESTAMP,"@, 1037));
        reveal_strlit("updated_at TEXT DEFAULT CURRENT_TIMESTAMP,");
        assert(s@.subrange(1092, 1134) =~= "updated_at TEXT DEFAULT CURRENT_TIMESTAMP,"@);
        assert(aparece_en(s@, "updated_at TEXT DEFAULT CURRENT_TIMESTAMP,"@, 1092));
        reveal_strlit("FOREIGN KEY (familia_id) REFERENCES familias (id)");
        assert(s@.subrange(1147, 1196) =~= "FOREIGN KEY (familia_id) REFERENCES familias (id)"@);
        assert(aparece_en(s@, "FOREIGN KEY (familia_id) REFERENCES familias (id)"@, 1147));
    }
    s
}

/// The table of dues.  The file keeps an amount as a number of currency
/// units with decimals; the registry counts in minor units, and whoever
/// reads and writes the file converts.
fn tabla_cuotas() -> (s: &'static str)
    ensures
        tabla_si_falta(s@, "cuotas"@),
        define_cuotas(s@),
{
    let s = "CREATE TABLE IF NOT EXISTS cuotas (
            id INTEGER PRIMARY KEY AUTOINCREMENT,
            hermano_id INTEGER NOT NULL,
            anio INTEGER NOT NULL,
            trimestre INTEGER NOT NULL CHECK(trimestre >= 1 AND trimestre <= 4),
            importe REAL NOT NULL,
            pagado BOOLEAN NOT NULL DEFAULT 0,
            fecha_pago TEXT,
            metodo_pago TEXT,
            observaciones TEXT,
            created_at TEXT DEFAULT CURRENT_TIMESTAMP,
            updated_at TEXT DEFAULT CURRENT_TIMESTAMP,
            FOREIGN KEY (hermano_id) REFERENCES hermanos (id) ON DELETE CASCADE,
            UNIQUE(hermano_id, anio, trimestre)
        )";
    proof {
        reveal_strlit("CREATE TABLE IF NOT EXISTS cuotas (
            id INTEGER PRIMARY KEY AUTOINCREMENT,
            hermano_id INTEGER NOT NULL,
            anio INTEGER NOT NULL,
            trimestre INTEGER NOT NULL CHECK(trimestre >= 1 AND trimestre <= 4),
            importe REAL NOT NULL,
            pagado BOOLEAN NOT NULL DEFAULT 0,
            fecha_pago TEXT,
            metodo_pago TEXT,
            observaciones TEXT,
            created_at TEXT DEFAULT CURRENT_TIMESTAMP,
            updated_at TEXT DEFAULT CURRENT_TIMESTAMP,
            FOREIGN KEY (hermano_id) REFERENCES hermanos (id) ON DELETE CASCADE,
            UNIQUE(hermano_id, anio, trimestre)
        )");
        reveal_strlit("CREATE TABLE IF NOT EXISTS cuotas ");
        reveal_strlit("CREATE TABLE IF NOT EXISTS ");
        reveal_strlit("cuotas");
        reveal_strlit(" ");
        assert(s@.subrange(0, 34) =~= "CREATE TABLE IF NOT EXISTS "@ + "cuotas"@ + " "@);
        reveal_strlit("id INTEGER PRIMARY KEY AUTOINCREMENT,");
        assert(s@.subrange(48, 85) =~= "id INTEGER PRIMARY KEY AUTOINCREMENT,"@);
        assert(aparece_en(s@, "id INTEGER PRIMARY KEY AUTOINCREMENT,"@, 48));
        reveal_strlit("hermano_id INTEGER NOT NULL,");
        assert(s@.subrange(98, 126) =~= "hermano_id INTEGER NOT NULL,"@);
        assert(aparece_en(s@, "hermano_id INTEGER NOT NULL,"@, 98));
        reveal_strlit("anio INTEGER NOT NULL,");
        assert(s@.subrange(139, 161) =~= "anio INTEGER NOT NULL,"@);
        assert(aparece_en(s@, "anio INTEGER NOT NULL,"@, 139));
        reveal_strlit("trimestre INTEGER NOT NULL CHECK(trimestre >= 1 AND trimestre <= 4),");
        assert(s@.subrange(174, 242) =~= "trimestre INTEGER NOT NULL CHECK(trimestre >= 1 AND trimestre <= 4),"@);
        assert(aparece_en(s@, "trimestre INTEGER NOT NULL CHECK(trimestre >= 1 AND trimestre <= 4),"@, 174));
        reveal_strlit("importe REAL NOT NULL,");
        assert(s@.subrange(255, 277) =~= "importe REAL NOT NULL,"@);
        assert(aparece_en(s@, "importe REAL NOT NULL,"@, 255));
        reveal_strlit("pagado BOOLEAN NOT NULL DEFAULT 0,");
        assert(s@.subrange(290, 324) =~= "pagado BOOLEAN NOT NULL DEFAULT 0,"@);
        assert(aparece_en(s@, "pagado BOOLEAN NOT NULL DEFAULT 0,"@, 290));
        reveal_strlit("fecha_pago TEXT,");
        assert(s@.subrange(337, 353) =~= "fecha_pago TEXT,"@);
        assert(aparece_en(s@, "fecha_pago TEXT,"@, 337));
        reveal_strlit("metodo_pago TEXT,");
        assert(s@.subrange(366, 383) =~= "metodo_pago TEXT,"@);
        assert(aparece_en(s@, "metodo_pago TEXT,"@, 366));
        reveal_strlit("observaciones TEXT,");
        assert(s@.subrange(396, 415) =~= "observaciones TEXT,"@);
        assert(aparece_en(s@, "observaciones TEXT,"@, 396));
        reveal_strlit("created_at TEXT DEFAULT CURRENT_TIMESTAMP,");
        assert(s@.subrange(428, 470) =~= "created_at TEXT DEFAULT CURRENT_TIMESTAMP,"@);
        assert(aparece_en(s@, "created_at TEXT DEFAULT CURRENT_TIMESTAMP,"@, 428));
        reveal_strlit("updated_at TEXT DEFAULT CURRENT_TIMESTAMP,");
        assert(s@.subrange(483, 525) =~= "updated_at TEXT DEFAULT CURRENT_TIMESTAMP,"@);
        assert(aparece_en(s@, "updated_at TEXT DEFAULT CURRENT_TIMESTAMP,"@, 483));
        reveal_strlit("FOREIGN KEY (hermano_id) REFERENCES hermanos (id) ON DELETE CASCADE,");
        assert(s@.subrange(538, 606) =~= "FOREIGN KEY (hermano_id) REFERENCES hermanos (id) ON DELETE CASCADE,"@);
        assert(aparece_en(s@, "FOREIGN KEY (hermano_id) REFERENCES hermanos (id) ON DELETE CASCADE,"@, 538));
        reveal_strlit("UNIQUE(hermano_id, anio, trimestre)");
        assert(s@.subrange(619, 654) =~= "UNIQUE(hermano_id, anio, trimestre)"@);
        assert(aparece_en(s@, "UNIQUE(hermano_id, anio, trimestre)"@, 619));
    }
    s
}

/// The table that takes the place of the old table of members.
fn tabla_hermanos_nueva() -> (s: &'static str)
    ensures
        empieza_por(s@, "CREATE TABLE hermanos_new "@),
        define_hermanos(s@),
{
    let s = "CREATE TABLE hermanos_new (
            id INTEGER PRIMARY KEY AUTOINCREMENT,
            numero_hermano TEXT NOT NULL UNIQUE,
            nombre TEXT NOT NULL,
            primer_apellido TEXT NOT NULL,
            segundo_apellido TEXT,
            dni TEXT,
            fecha_nacimiento TEXT,
            localidad_nacimiento TEXT,
            provincia_nacimiento TEXT,
            fecha_alta TEXT NOT NULL,
            familia_id INTEGER,
            telefono TEXT,
            email TEXT,
            direccion TEXT,
            localidad TEXT,
            provincia TEXT,
            codigo_postal TEXT,
            parroquia_bautismo TEXT,
            localidad_bautismo TEXT,
            provincia_bautismo TEXT,
            autorizacion_menores BOOLEAN NOT NULL DEFAULT 0,
            nombre_representante_legal TEXT,
            dni_representante_legal TEXT,
            hermano_aval_1 TEXT,
            hermano_aval_2 TEXT,
            activo BOOLEAN NOT NULL DEFAULT 1,
            observaciones TEXT,
            created_at TEXT DEFAULT CURRENT_TIMESTAMP,
            updated_at TEXT DEFAULT CURRENT_TIMESTAMP,
            FOREIGN KEY (familia_id) REFERENCES familias (id)
        )";
    proof {
        reveal_strlit("CREATE TABLE hermanos_new (
            id INTEGER PRIMARY KEY AUTOINCREMENT,
            numero_hermano TEXT NOT NULL UNIQUE,
            nombre TEXT NOT NULL,
            primer_apellido TEXT NOT NULL,
            segundo_apellido TEXT,
            dni TEXT,
            fecha_nacimiento TEXT,
            localidad_nacimiento TEXT,
            provincia_nacimiento TEXT,
            fecha_alta TEXT NOT NULL,
            familia_id INTEGER,
            telefono TEXT,
            email TEXT,
            direccion TEXT,
            localidad TEXT,
            provincia TEXT,
            codigo_postal TEXT,
            parroquia_bautismo TEXT,
            localidad_bautismo TEXT,
            provincia_bautismo TEXT,
            autorizacion_menores BOOLEAN NOT NULL DEFAULT 0,
            nombre_representante_legal TEXT,
            dni_representante_legal TEXT,
            hermano_aval_1 TEXT,
            hermano_aval_2 TEXT,
            activo BOOLEAN NOT NULL DEFAULT 1,
            observaciones TEXT,
            created_at TEXT DEFAULT CURRENT_TIMESTAMP,
            updated_at TEXT DEFAULT CURRENT_TIMESTAMP,
            FOREIGN KEY (familia_id) REFERENCES familias (id)
        )");
        reveal_strlit("CREATE TABLE hermanos_new ");
        assert(s@.subrange(0, 26) =~= "CREATE TABLE hermanos_new "@);
        reveal_strlit("id INTEGER PRIMARY KEY AUTOINCREMENT,");
        assert(s@.subrange(40, 77) =~= "id INTEGER PRIMARY KEY AUTOINCREMENT,"@);
        assert(aparece_en(s@, "id INTEGER PRIMARY KEY AUTOINCREMENT,"@, 40));
        reveal_strlit("numero_hermano TEXT NOT NULL UNIQUE,");
        assert(s@.subrange(90, 126) =~= "numero_hermano TEXT NOT NULL UNIQUE,"@);
        assert(aparece_en(s@, "numero_hermano TEXT NOT NULL UNIQUE,"@, 90));
        reveal_strlit("nombre TEXT NOT NULL,");
        assert(s@.subrange(139, 160) =~= "nombre TEXT NOT NULL,"@);
        assert(aparece_en(s@, "nombre TEXT NOT NULL,"@, 139));
        reveal_strlit("primer_apellido TEXT NOT NULL,");
        assert(s@.subrange(173, 203) =~= "primer_apellido TEXT NOT NULL,"@);
        assert(aparece_en(s@, "primer_apellido TEXT NOT NULL,"@, 173));
        reveal_strlit("segundo_apellido TEXT,");
        assert(s@.subrange(216, 238) =~= "segundo_apellido TEXT,"@);
        assert(aparece_en(s@, "segundo_apellido TEXT,"@, 216));
        reveal_strlit("dni TEXT,");
        assert(s@.subrange(251, 260) =~= "dni TEXT,"@);
        assert(aparece_en(s@, "dni TEXT,"@, 251));
        reveal_strlit("fecha_nacimiento TEXT,");
        assert(s@.subrange(273, 295) =~= "fecha_nacimiento TEXT,"@);
        assert(aparece_en(s@, "fecha_nacimiento TEXT,"@, 273));
        reveal_strlit("localidad_nacimiento TEXT,");
        assert(s@.subrange(308, 334) =~= "localidad_nacimiento TEXT,"@);
        assert(aparece_en(s@, "localidad_nacimiento TEXT,"@, 308));
        reveal_strlit("provincia_nacimiento TEXT,");
        assert(s@.subrange(347, 373) =~= "provincia_nacimiento TEXT,"@);
        assert(aparece_en(s@, "provincia_nacimiento TEXT,"@, 347));
        reveal_strlit("fecha_alta TEXT NOT NULL,");
        assert(s@.subrange(386, 411) =~= "fecha_alta TEXT NOT NULL,"@);
        assert(aparece_en(s@, "fecha_alta TEXT NOT NULL,"@, 386));
        reveal_strlit("familia_id INTEGER,");
        assert(s@.subrange(424, 443) =~= "familia_id INTEGER,"@);
        assert(aparece_en(s@, "familia_id INTEGER,"@, 424));
        reveal_strlit("telefono TEXT,");
        assert(s@.subrange(456, 470) =~= "telefono TEXT,"@);
        assert(aparece_en(s@, "telefono TEXT,"@, 456));
        reveal_strlit("email TEXT,");
        assert(s@.subrange(483, 494) =~= "email TEXT,"@);
        assert(aparece_en(s@, "email TEXT,"@, 483));
        reveal_strlit("direccion TEXT,");
        assert(s@.subrange(507, 522) =~= "direccion TEXT,"@);
        assert(aparece_en(s@, "direccion TEXT,"@, 507));
        reveal_strlit("localidad TEXT,");
        assert(s@.subrange(535, 550) =~= "localidad TEXT,"@);
        assert(aparece_en(s@, "localidad TEXT,"@, 535));
        reveal_strlit("provincia TEXT,");
        assert(s@.subrange(563, 578) =~= "provincia TEXT,"@);
        assert(aparece_en(s@, "provincia TEXT,"@, 563));
        reveal_strlit("codigo_postal TEXT,");
        assert(s@.subrange(591, 610) =~= "codigo_postal TEXT,"@);
        assert(aparece_en(s@, "codigo_postal TEXT,"@, 591));
        reveal_strlit("parroquia_bautismo TEXT,");
        assert(s@.subrange(623, 647) =~= "parroquia_bautismo TEXT,"@);
        assert(aparece_en(s@, "parroquia_bautismo TEXT,"@, 623));
        reveal_strlit("localidad_bautismo TEXT,");
        assert(s@.subrange(660, 684) =~= "localidad_bautismo TEXT,"@);
        assert(aparece_en(s@, "localidad_bautismo TEXT,"@, 660));
        reveal_strlit("provincia_bautismo TEXT,");
        assert(s@.subrange(697, 721) =~= "provincia_bautismo TEXT,"@);
        assert(aparece_en(s@, "provincia_bautismo TEXT,"@, 697));
        reveal_strlit("autorizacion_menores BOOLEAN NOT NULL DEFAULT 0,");
        assert(s@.subrange(734, 782) =~= "autorizacion_menores BOOLEAN NOT NULL DEFAULT 0,"@);
        assert(aparece_en(s@, "autorizacion_menores BOOLEAN NOT NULL DEFAULT 0,"@, 734));
        reveal_strlit("nombre_representante_legal TEXT,");
        assert(s@.subrange(795, 827) =~= "nombre_representante_legal TEXT,"@);
        assert(aparece_en(s@, "nombre_representante_legal TEXT,"@, 795));
        reveal_strlit("dni_representante_legal TEXT,");
        assert(s@.subrange(840, 869) =~= "dni_representante_legal TEXT,"@);
        assert(aparece_en(s@, "dni_representante_legal TEXT,"@, 840));
        reveal_strlit("hermano_aval_1 TEXT,");
        assert(s@.subrange(882, 902) =~= "hermano_aval_1 TEXT,"@);
        assert(aparece_en(s@, "hermano_aval_1 TEXT,"@, 882));
        reveal_strlit("hermano_aval_2 TEXT,");
        assert(s@.subrange(915, 935) =~= "hermano_aval_2 TEXT,"@);
        assert(aparece_en(s@, "hermano_aval_2 TEXT,"@, 915));
        reveal_strlit("activo BOOLEAN NOT NULL DEFAULT 1,");
        assert(s@.subrange(948, 982) =~= "activo BOOLEAN NOT NULL DEFAULT 1,"@);
        assert(aparece_en(s@, "activo BOOLEAN NOT NULL DEFAULT 1,"@, 948));
        reveal_strlit("observaciones TEXT,");
        assert(s@.subrange(995, 1014) =~= "observaciones TEXT,"@);
        assert(aparece_en(s@, "observaciones TEXT,"@, 995));
        reveal_strlit("created_at TEXT DEFAULT CURRENT_TIMESTAMP,");
        assert(s@.subrange(1027, 1069) =~= "created_at TEXT DEFAULT CURRENT_TIMESTAMP,"@);
        assert(aparece_en(s@, "created_at TEXT DEFAULT CURRENT_TIMESTAMP,"@, 1027));
        reveal_strlit("updated_at TEXT DEFAULT CURRENT_TIMESTAMP,");
        assert(s@.subrange(1082, 1124) =~= "updated_at TEXT DEFAULT CURRENT_TIMESTAMP,"@);
        assert(aparece_en(s@, "updated_at TEXT DEFAULT CURRENT_TIMESTAMP,"@, 1082));
        reveal_strlit("FOREIGN KEY (familia_id) REFERENCES familias (id)");
        assert(s@.subrange(1137, 1186) =~= "FOREIGN KEY (familia_id) REFERENCES familias (id)"@);
        assert(aparece_en(s@, "FOREIGN KEY (familia_id) REFERENCES familias (id)"@, 1137));
    }
    s
}

/// The index `idx_hermanos_activo`.
fn indice_hermanos_activo() -> (s: &'static str)
    ensures
        s@ == indice_si_falta("idx_hermanos_activo"@, "hermanos"@, "activo"@),
{
    let s = "CREATE INDEX IF NOT EXISTS idx_hermanos_activo ON hermanos(activo)";
    proof {
        reveal_strlit("CREATE INDEX IF NOT EXISTS idx_hermanos_activo ON hermanos(activo)");
        reveal_strlit("CREATE INDEX IF NOT EXISTS ");
        reveal_strlit("idx_hermanos_activo");
        reveal_strlit(" ON ");
        reveal_strlit("hermanos");
        reveal_strlit("(");
        reveal_strlit("activo");
        reveal_strlit(")");
        assert(s@ =~= indice_si_falta("idx_hermanos_activo"@, "hermanos"@, "activo"@));
    }
    s
}

/// The index `idx_hermanos_familia`.
fn indice_hermanos_familia() -> (s: &'static str)
    ensures
        s@ == indice_si_falta("idx_hermanos_familia"@, "hermanos"@, "familia_id"@),
{
    let s = "CREATE INDEX IF NOT EXISTS idx_hermanos_familia ON hermanos(familia_id)";
    proof {
        reveal_strlit("CREATE INDEX IF NOT EXISTS idx_hermanos_familia ON hermanos(familia_id)");
        reveal_strlit("CREATE INDEX IF NOT EXISTS ");
        reveal_strlit("idx_hermanos_familia");
        reveal_strlit(" ON ");
        reveal_strlit("hermanos");
        reveal_strlit("(");
        reveal_strlit("familia_id");
        reveal_strlit(")");
        assert(s@ =~= indice_si_falta("idx_hermanos_familia"@, "hermanos"@, "familia_id"@));
    }
    s
}

/// The index `idx_cuotas_hermano`.
fn indice_cuotas_hermano() -> (s: &'static str)
    ensures
        s@ == indice_si_falta("idx_cuotas_hermano"@, "cuotas"@, "hermano_id"@),
{
    let s = "CREATE INDEX IF NOT EXISTS idx_cuotas_hermano ON cuotas(hermano_id)";
    proof {
        reveal_strlit("CREATE INDEX IF NOT EXISTS idx_cuotas_hermano ON cuotas(hermano_id)");
        reveal_strlit("CREATE INDEX IF NOT EXISTS ");
        reveal_strlit("idx_cuotas_hermano");
        reveal_strlit(" ON ");
        reveal_strlit("cuotas");
        reveal_strlit("(");
        reveal_strlit("hermano_id");
        reveal_strlit(")");
        assert(s@ =~= indice_si_falta("idx_cuotas_hermano"@, "cuotas"@, "hermano_id"@));
    }
    s
}

/// The index `idx_cuotas_anio`.
fn indice_cuotas_anio() -> (s: &'static str)
    ensures
        s@ == indice_si_falta("idx_cuotas_anio"@, "cuotas"@, "anio"@),
{
    let s = "CREATE INDEX IF NOT EXISTS idx_cuotas_anio ON cuotas(anio)";
    proof {
        reveal_strlit("CREATE INDEX IF NOT EXISTS idx_cuotas_anio ON cuotas(anio)");
        reveal_strlit("CREATE INDEX IF NOT EXISTS ");
        reveal_strlit("idx_cuotas_anio");
        reveal_strlit(" ON ");
        reveal_strlit("cuotas");
        reveal_strlit("(");
        reveal_strlit("anio");
        reveal_strlit(")");
        assert(s@ =~= indice_si_falta("idx_cuotas_anio"@, "cuotas"@, "anio"@));
    }
    s
}

/// The index `idx_cuotas_pagado`.
fn indice_cuotas_pagado() -> (s: &'static str)
    ensures
        s@ == indice_si_falta("idx_cuotas_pagado"@, "cuotas"@, "pagado"@),
{
    let s = "CREATE INDEX IF NOT EXISTS idx_cuotas_pagado ON cuotas(pagado)";
    proof {
        reveal_strlit("CREATE INDEX IF NOT EXISTS idx_cuotas_pagado ON cuotas(pagado)");
        reveal_strlit("CREATE INDEX IF NOT EXISTS ");
        reveal_strlit("idx_cuotas_pagado");
        reveal_strlit(" ON ");
        reveal_strlit("cuotas");
        reveal_strlit("(");
        reveal_strlit("pagado");
        reveal_strlit(")");
        assert(s@ =~= indice_si_falta("idx_cuotas_pagado"@, "cuotas"@, "pagado"@));
    }
    s
}

/// The statements that make the schema: three tables and five indexes,
/// each created only where it is missing, so that running them on a file
/// that has them all changes nothing.
pub fn create_tables() -> (v: Vec<&'static str>)
    ensures
        v@.len() == 8,
        tabla_si_falta(v@[0]@, "familias"@),
        define_familias(v@[0]@),
        tabla_si_falta(v@[1]@, "hermanos"@),
        define_hermanos(v@[1]@),
        tabla_si_falta(v@[2]@, "cuotas"@),
        define_cuotas(v@[2]@),
        v@[3]@ == indice_si_falta("idx_hermanos_activo"@, "hermanos"@, "activo"@),
        v@[4]@ == indice_si_falta("idx_hermanos_familia"@, "hermanos"@, "familia_id"@),
        v@[5]@ == indice_si_falta("idx_cuotas_hermano"@, "cuotas"@, "hermano_id"@),
        v@[6]@ == indice_si_falta("idx_cuotas_anio"@, "cuotas"@, "anio"@),
        v@[7]@ == indice_si_falta("idx_cuotas_pagado"@, "cuotas"@, "pagado"@),
{
    let mut v: Vec<&'static str> = Vec::new();
    v.push(tabla_familias());
    v.push(tabla_hermanos());
    v.push(tabla_cuotas());
    v.push(indice_hermanos_activo());
    v.push(indice_hermanos_familia());
    v.push(indice_cuotas_hermano());
    v.push(indice_cuotas_anio());
    v.push(indice_cuotas_pagado());
    v
}

/// One step of the migration.
#[derive(Debug, Clone, Copy, PartialEq, Eq)]
pub enum PasoMigracion {
    /// Run the statement.
    Sentencia(&'static str),
    /// Read the rows of the old table, migrate them with
    /// [`migrar_hermanos`] and write them to the new table.
    CopiarFilas,
}

/// The steps that migrate the old table of members, in order: create the
/// new table, with one column for each surname, copy the rows, drop the
/// old table, give the new table its name, and create the indexes of the
/// table again.
pub open spec fn es_plan_de_migracion(v: Seq<PasoMigracion>) -> bool {
    &&& v.len() == 6
    &&& v[0] matches PasoMigracion::Sentencia(s) && empieza_por(s@, "CREATE TABLE hermanos_new "@)
        && define_hermanos(s@)
    &&& v[1] is CopiarFilas
    &&& v[2] matches PasoMigracion::Sentencia(s) && s@ == "DROP TABLE hermanos"@
    &&& v[3] matches PasoMigracion::Sentencia(s) && s@
        == "ALTER TABLE hermanos_new RENAME TO hermanos"@
    &&& v[4] matches PasoMigracion::Sentencia(s) && s@ == indice_si_falta(
        "idx_hermanos_activo"@,
        "hermanos"@,
        "activo"@,
    )
    &&& v[5] matches PasoMigracion::Sentencia(s) && s@ == indice_si_falta(
        "idx_hermanos_familia"@,
        "hermanos"@,
        "familia_id"@,
    )
}

/// What is left to do to bring the table of members up to date, given
/// the names of its columns: the whole migration where the table is the
/// old one, nothing where it is not.  Migrating a table that has been
/// migrated is harmless.
pub fn migrate_database(columnas: &Vec<String>) -> (v: Vec<PasoMigracion>)
    ensures
        es_tabla_antigua(columnas@) ==> es_plan_de_migracion(v@),
        !es_tabla_antigua(columnas@) ==> v@.len() == 0,
{
    let mut v: Vec<PasoMigracion> = Vec::new();
    if necesita_migracion(columnas) {
        v.push(PasoMigracion::Sentencia(tabla_hermanos_nueva()));
        v.push(PasoMigracion::CopiarFilas);
        v.push(PasoMigracion::Sentencia("DROP TABLE hermanos"));
        v.push(PasoMigracion::Sentencia("ALTER TABLE hermanos_new RENAME TO hermanos"));
        v.push(PasoMigracion::Sentencia(indice_hermanos_activo()));
        v.push(PasoMigracion::Sentencia(indice_hermanos_familia()));
    }
    v
}

/// The rows of the new table that stand for the rows of the old one, row
/// for row.
pub fn migrar_hermanos(antiguos: &Vec<HermanoAntiguo>) -> (nuevos: Vec<Hermano>)
    ensures
        nuevos@.len() == antiguos@.len(),
        forall|i: int|
            0 <= i < nuevos@.len() ==> (#[trigger] nuevos@[i])@ == hermano_migrado(antiguos@[i]@),
{
    let mut nuevos: Vec<Hermano> = Vec::new();
    let n: usize = antiguos.len();
    let mut i: usize = 0;
    while i < n
        invariant
            n == antiguos@.len(),
            i <= n,
            nuevos@.len() == i,
            forall|k: int| 0 <= k < i ==> (#[trigger] nuevos@[k])@ == hermano_migrado(antiguos@[k]@),
        decreases n - i,
    {
        nuevos.push(migrar_hermano(&antiguos[i]));
        i = i + 1;
    }
    nuevos
}

} // verus!
