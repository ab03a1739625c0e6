use hermanar::filas::{Clase, ErrorFila};
use hermanar::modelo::{Cuota, Familia, Hermano};
use rusqlite::Connection;

const COLUMNAS_HERMANO: &str = "id, numero_hermano, nombre, primer_apellido, segundo_apellido, dni,
    fecha_nacimiento, localidad_nacimiento, provincia_nacimiento, fecha_alta, familia_id,
    telefono, email, direccion, localidad, provincia, codigo_postal, parroquia_bautismo,
    localidad_bautismo, provincia_bautismo, autorizacion_menores, nombre_representante_legal,
    dni_representante_legal, hermano_aval_1, hermano_aval_2, activo, observaciones, created_at,
    updated_at";

fn tabla_de_hermanos() -> Connection {
    let conn = Connection::open_in_memory().unwrap();
    conn.execute_batch(
        "CREATE TABLE hermanos (
            id INTEGER PRIMARY KEY AUTOINCREMENT,
            numero_hermano TEXT NOT NULL UNIQUE,
            nombre TEXT NOT NULL,
            primer_apellido TEXT NOT NULL,
            segundo_apellido TEXT,
            dni TEXT,
            fecha_nacimiento TEXT,
            localidad_nacimiento TEXT,
            provincia_nacimiento TEXT,
            fecha_alta TEXT NOT NULL,
            familia_id INTEGER,
            telefono TEXT,
            email TEXT,
            direccion TEXT,
            localidad TEXT,
            provincia TEXT,
            codigo_postal TEXT,
            parroquia_bautismo TEXT,
            localidad_bautismo TEXT,
            provincia_bautismo TEXT,
            autorizacion_menores BOOLEAN NOT NULL DEFAULT 0,
            nombre_representante_legal TEXT,
            dni_representante_legal TEXT,
            hermano_aval_1 TEXT,
            hermano_aval_2 TEXT,
            activo BOOLEAN NOT NULL DEFAULT 1,
            observaciones TEXT,
            created_at TEXT DEFAULT CURRENT_TIMESTAMP,
            updated_at TEXT DEFAULT CURRENT_TIMESTAMP
        )",
    )
    .unwrap();
    conn
}

#[test]
fn se_lee_un_hermano_de_su_fila() {
    let conn = tabla_de_hermanos();
    conn.execute(
        "INSERT INTO hermanos (id, numero_hermano, nombre, primer_apellido, segundo_apellido,
            fecha_alta, familia_id, telefono, autorizacion_menores, activo, created_at, updated_at)
         VALUES (7, '00042', 'Ana', 'Ruiz', 'Lara', '2024-01-15', 3, '600123456', 1, 0,
            '2025-01-01 10:00:00', '2025-02-02 11:00:00')",
        [],
    )
    .unwrap();
    let sql = format!("SELECT {} FROM hermanos", COLUMNAS_HERMANO);
    let h = conn.query_row(&sql, [], |row| Ok(Hermano::from_row(row))).unwrap().unwrap();
    assert_eq!(
        h,
        Hermano {
            id: Some(7),
            numero_hermano: "00042".to_string(),
            nombre: "Ana".to_string(),
            primer_apellido: "Ruiz".to_string(),
            segundo_apellido: Some("Lara".to_string()),
            dni: None,
            fecha_nacimiento: None,
            localidad_nacimiento: None,
            provincia_nacimiento: None,
            fecha_alta: "2024-01-15".to_string(),
            familia_id: Some(3),
            telefono: Some("600123456".to_string()),
            email: None,
            direccion: None,
            localidad: None,
            provincia: None,
            codigo_postal: None,
            parroquia_bautismo: None,
            localidad_bautismo: None,
            provincia_bautismo: None,
            autorizacion_menores: true,
            nombre_representante_legal: None,
            dni_representante_legal: None,
            hermano_aval_1: None,
            hermano_aval_2: None,
            activo: false,
            observaciones: None,
            created_at: Some("2025-01-01 10:00:00".to_string()),
            updated_at: Some("2025-02-02 11:00:00".to_string()),
        }
    );
}

#[test]
fn cada_columna_va_a_su_campo() {
    let conn = Connection::open_in_memory().unwrap();
    let h = conn
        .query_row(
            "SELECT 1, 'c1', 'c2', 'c3', 'c4', 'c5', 'c6', 'c7', 'c8', 'c9', 10, 'c11', 'c12',
                'c13', 'c14', 'c15', 'c16', 'c17', 'c18', 'c19', 0, 'c21', 'c22', 'c23', 'c24', 5,
                'c26', 'c27', 'c28'",
            [],
            |row| Ok(Hermano::from_row(row)),
        )
        .unwrap()
        .unwrap();
    assert_eq!(h.id, Some(1));
    assert_eq!(h.numero_hermano, "c1");
    assert_eq!(h.nombre, "c2");
    assert_eq!(h.primer_apellido, "c3");
    assert_eq!(h.segundo_apellido.as_deref(), Some("c4"));
    assert_eq!(h.dni.as_deref(), Some("c5"));
    assert_eq!(h.fecha_nacimiento.as_deref(), Some("c6"));
    assert_eq!(h.localidad_nacimiento.as_deref(), Some("c7"));
    assert_eq!(h.provincia_nacimiento.as_deref(), Some("c8"));
    assert_eq!(h.fecha_alta, "c9");
    assert_eq!(h.familia_id, Some(10));
    assert_eq!(h.telefono.as_deref(), Some("c11"));
    assert_eq!(h.email.as_deref(), Some("c12"));
    assert_eq!(h.direccion.as_deref(), Some("c13"));
    assert_eq!(h.localidad.as_deref(), Some("c14"));
    assert_eq!(h.provincia.as_deref(), Some("c15"));
    assert_eq!(h.codigo_postal.as_deref(), Some("c16"));
    assert_eq!(h.parroquia_bautismo.as_deref(), Some("c17"));
    assert_eq!(h.localidad_bautismo.as_deref(), Some("c18"));
    assert_eq!(h.provincia_bautismo.as_deref(), Some("c19"));
    assert!(!h.autorizacion_menores);
    assert_eq!(h.nombre_representante_legal.as_deref(), Some("c21"));
    assert_eq!(h.dni_representante_legal.as_deref(), Some("c22"));
    assert_eq!(h.hermano_aval_1.as_deref(), Some("c23"));
    assert_eq!(h.hermano_aval_2.as_deref(), Some("c24"));
    assert!(h.activo);
    assert_eq!(h.observaciones.as_deref(), Some("c26"));
    assert_eq!(h.created_at.as_deref(), Some("c27"));
    assert_eq!(h.updated_at.as_deref(), Some("c28"));
}

#[test]
fn una_fila_que_no_cuadra_no_se_lee() {
    let conn = Connection::open_in_memory().unwrap();
    let sin_id = conn
        .query_row(
            "SELECT NULL, 'c1', 'c2', 'c3', NULL, NULL, NULL, NULL, NULL, 'c9', NULL, NULL, NULL,
                NULL, NULL, NULL, NULL, NULL, NULL, NULL, 0, NULL, NULL, NULL, NULL, 1, NULL, NULL,
                NULL",
            [],
            |row| Ok(Hermano::from_row(row)),
        )
        .unwrap();
    assert_eq!(sin_id, Err(ErrorFila::Tipo { columna: 0, hallado: Clase::Nulo }));
    let corta = conn.query_row("SELECT 1, 'c1', 'c2'", [], |row| Ok(Hermano::from_row(row))).unwrap();
    assert_eq!(corta, Err(ErrorFila::SinColumna { columna: 3 }));
    let id_enorme = conn
        .query_row("SELECT 4294967296, 'Ruiz', NULL, NULL, NULL", [], |row| Ok(Familia::from_row(row)))
        .unwrap();
    assert_eq!(id_enorme, Err(ErrorFila::Rango { columna: 0, valor: 4294967296 }));
    let id_minimo = conn
        .query_row("SELECT -2147483649, 'Ruiz', NULL, NULL, NULL", [], |row| Ok(Familia::from_row(row)))
        .unwrap();
    assert_eq!(id_minimo, Err(ErrorFila::Rango { columna: 0, valor: -2147483649 }));
    let nombre_numerico = conn
        .query_row("SELECT 1, 25, NULL, NULL, NULL", [], |row| Ok(Familia::from_row(row)))
        .unwrap();
    assert_eq!(nombre_numerico, Err(ErrorFila::Tipo { columna: 1, hallado: Clase::Entero }));
    let nombre_ausente = conn
        .query_row("SELECT 1, NULL, NULL, NULL, NULL", [], |row| Ok(Familia::from_row(row)))
        .unwrap();
    assert_eq!(nombre_ausente, Err(ErrorFila::Tipo { columna: 1, hallado: Clase::Nulo }));
    let fecha_binaria = conn
        .query_row("SELECT 1, 'Ruiz', NULL, x'00ff', NULL", [], |row| Ok(Familia::from_row(row)))
        .unwrap();
    assert_eq!(fecha_binaria, Err(ErrorFila::Tipo { columna: 3, hallado: Clase::Binario }));
    let pagado_de_texto = conn
        .query_row(
            "SELECT 1, 2, 2025, 1, 50, 'si', NULL, NULL, NULL, NULL, NULL",
            [],
            |row| Ok(Cuota::from_row(row)),
        )
        .unwrap();
    assert_eq!(pagado_de_texto, Err(ErrorFila::Tipo { columna: 5, hallado: Clase::Texto }));
    let primero_de_dos = conn
        .query_row("SELECT 1, 25, 'x', 3, 4", [], |row| Ok(Familia::from_row(row)))
        .unwrap();
    assert_eq!(primero_de_dos, Err(ErrorFila::Tipo { columna: 1, hallado: Clase::Entero }));
}

#[test]
fn un_texto_que_no_es_utf8_no_se_lee() {
    let conn = Connection::open_in_memory().unwrap();
    let ilegible = conn
        .query_row(
            "SELECT 1, CAST(x'52ff697a' AS TEXT), NULL, NULL, NULL",
            [],
            |row| Ok(Familia::from_row(row)),
        )
        .unwrap();
    assert_eq!(ilegible, Err(ErrorFila::Utf8 { columna: 1 }));
    let opcional = conn
        .query_row(
            "SELECT 1, 'Ruiz', NULL, CAST(x'c3' AS TEXT), NULL",
            [],
            |row| Ok(Familia::from_row(row)),
        )
        .unwrap();
    assert_eq!(opcional, Err(ErrorFila::Utf8 { columna: 3 }));
    let legible = conn
        .query_row(
            "SELECT 1, CAST(x'c391c3bac3b1657a' AS TEXT), NULL, NULL, NULL",
            [],
            |row| Ok(Familia::from_row(row)),
        )
        .unwrap()
        .unwrap();
    assert_eq!(legible.nombre_familia, "Ñúñez");
}

#[test]
fn una_columna_de_nombre_cualquiera_se_lee_igual() {
    let conn = Connection::open_in_memory().unwrap();
    let f = conn
        .query_row(
            "SELECT NULL AS \"\", 'Ruiz' AS \"ñ\", NULL, NULL, NULL",
            [],
            |row| Ok(Familia::from_row(row)),
        )
        .unwrap();
    assert_eq!(f, Err(ErrorFila::Tipo { columna: 0, hallado: Clase::Nulo }));
}

#[test]
fn se_lee_una_familia_de_su_fila() {
    let conn = Connection::open_in_memory().unwrap();
    let f = conn
        .query_row("SELECT 4, 'Ruiz Lara', 9, 'ayer', NULL", [], |row| Ok(Familia::from_row(row)))
        .unwrap()
        .unwrap();
    assert_eq!(
        f,
        Familia {
            id: Some(4),
            nombre_familia: "Ruiz Lara".to_string(),
            hermano_direccion_id: Some(9),
            created_at: Some("ayer".to_string()),
            updated_at: None,
        }
    );
    let sola = conn
        .query_row("SELECT 5, '', NULL, NULL, NULL", [], |row| Ok(Familia::from_row(row)))
        .unwrap()
        .unwrap();
    assert_eq!(sola.hermano_direccion_id, None);
    assert_eq!(sola.nombre_familia, "");
}

#[test]
fn se_lee_una_cuota_de_su_fila() {
    let conn = Connection::open_in_memory().unwrap();
    let c = conn
        .query_row(
            "SELECT 3, 8, 2025, 2, 5000, 1, '2025-04-01', 'efectivo', NULL, 'a', 'b'",
            [],
            |row| Ok(Cuota::from_row(row)),
        )
        .unwrap()
        .unwrap();
    assert_eq!(
        c,
        Cuota {
            id: Some(3),
            hermano_id: 8,
            anio: 2025,
            trimestre: 2,
            importe: 5000,
            pagado: true,
            fecha_pago: Some("2025-04-01".to_string()),
            metodo_pago: Some("efectivo".to_string()),
            observaciones: None,
            created_at: Some("a".to_string()),
            updated_at: Some("b".to_string()),
        }
    );
}

#[test]
fn un_importe_negativo_o_con_decimales_no_se_lee() {
    let conn = Connection::open_in_memory().unwrap();
    let negativo = conn
        .query_row(
            "SELECT 3, 8, 2025, 2, -1, 0, NULL, NULL, NULL, NULL, NULL",
            [],
            |row| Ok(Cuota::from_row(row)),
        )
        .unwrap();
    assert_eq!(negativo, Err(ErrorFila::Rango { columna: 4, valor: -1 }));
    let decimales = conn
        .query_row(
            "SELECT 3, 8, 2025, 2, 50.5, 0, NULL, NULL, NULL, NULL, NULL",
            [],
            |row| Ok(Cuota::from_row(row)),
        )
        .unwrap();
    assert_eq!(decimales, Err(ErrorFila::Tipo { columna: 4, hallado: Clase::Real }));
    let grande = conn
        .query_row(
            "SELECT 3, 8, 2025, 2, 9223372036854775807, 0, NULL, NULL, NULL, NULL, NULL",
            [],
            |row| Ok(Cuota::from_row(row)),
        )
        .unwrap()
        .unwrap();
    assert_eq!(grande.importe, 9223372036854775807);
}
