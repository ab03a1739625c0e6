use hermanar::carga::{init_database, secuencias_de, Secuencias};
use hermanar::cuotas::{create_cuota, get_all_cuotas};
use hermanar::error::{DbError, Restriccion};
use hermanar::familias::{create_familia, get_all_familias};
use hermanar::hermanos::{create_hermano, delete_hermano, get_all_hermanos, get_hermano_by_id};
use hermanar::modelo::{Cuota, Familia, Hermano};

const CEROS: Secuencias = Secuencias { familias: 0, hermanos: 0, cuotas: 0 };

fn fila_familia(id: Option<i32>, nombre: &str) -> Familia {
    Familia {
        id,
        nombre_familia: nombre.to_string(),
        hermano_direccion_id: None,
        created_at: None,
        updated_at: None,
    }
}

fn fila_hermano(id: Option<i32>, numero: &str) -> Hermano {
    Hermano {
        id,
        numero_hermano: numero.to_string(),
        nombre: "Ana".to_string(),
        primer_apellido: "Ruiz".to_string(),
        segundo_apellido: None,
        dni: None,
        fecha_nacimiento: None,
        localidad_nacimiento: None,
        provincia_nacimiento: None,
        fecha_alta: "2024-01-15".to_string(),
        familia_id: None,
        telefono: None,
        email: None,
        direccion: None,
        localidad: None,
        provincia: None,
        codigo_postal: None,
        parroquia_bautismo: None,
        localidad_bautismo: None,
        provincia_bautismo: None,
        autorizacion_menores: false,
        nombre_representante_legal: None,
        dni_representante_legal: None,
        hermano_aval_1: None,
        hermano_aval_2: None,
        activo: true,
        observaciones: None,
        created_at: None,
        updated_at: None,
    }
}

fn fila_cuota(id: Option<i32>, hermano_id: i32, anio: i32, trimestre: i32) -> Cuota {
    Cuota {
        id,
        hermano_id,
        anio,
        trimestre,
        importe: 50,
        pagado: false,
        fecha_pago: None,
        metodo_pago: None,
        observaciones: None,
        created_at: None,
        updated_at: None,
    }
}

fn rechazada(f: Vec<Familia>, h: Vec<Hermano>, c: Vec<Cuota>, s: Secuencias) -> bool {
    match init_database(f, h, c, s) {
        Ok(_) => false,
        Err(e) => e == DbError::Almacenamiento(Restriccion::DatosInconsistentes),
    }
}

#[test]
fn carga_de_filas_admisibles() {
    let db = init_database(
        vec![fila_familia(Some(2), "Ruiz"), fila_familia(Some(5), "Soto")],
        vec![fila_hermano(Some(1), "00001"), fila_hermano(Some(4), "00004")],
        vec![fila_cuota(Some(3), 4, 2025, 1), fila_cuota(Some(9), 1, 2025, 1)],
        Secuencias { familias: 3, hermanos: 6, cuotas: 0 },
    );
    let mut db = match db {
        Ok(db) => db,
        Err(e) => panic!("{:?}", e),
    };
    assert_eq!(secuencias_de(&db), Secuencias { familias: 5, hermanos: 6, cuotas: 9 });
    assert_eq!(get_all_familias(&db).len(), 2);
    assert_eq!(get_all_hermanos(&db).len(), 2);
    assert_eq!(get_all_cuotas(&db).len(), 2);
    assert_eq!(get_hermano_by_id(&db, 4).unwrap().numero_hermano, "00004");
    assert_eq!(create_familia(&mut db, &fila_familia(None, "Gil")), Ok(6));
    assert_eq!(create_hermano(&mut db, &fila_hermano(None, "")), Ok(7));
    assert_eq!(create_cuota(&mut db, &fila_cuota(None, 7, 2025, 1)), Ok(10));
}

#[test]
fn carga_sin_filas() {
    let db = init_database(Vec::new(), Vec::new(), Vec::new(), CEROS);
    let mut db = match db {
        Ok(db) => db,
        Err(e) => panic!("{:?}", e),
    };
    assert_eq!(secuencias_de(&db), CEROS);
    assert_eq!(create_hermano(&mut db, &fila_hermano(None, "")), Ok(1));
}

#[test]
fn lo_guardado_se_vuelve_a_cargar() {
    let mut db = hermanar::base::Database::new();
    create_familia(&mut db, &fila_familia(None, "Ruiz")).unwrap();
    let a = create_hermano(&mut db, &fila_hermano(None, "")).unwrap();
    let b = create_hermano(&mut db, &fila_hermano(None, "")).unwrap();
    create_cuota(&mut db, &fila_cuota(None, b, 2025, 1)).unwrap();
    delete_hermano(&mut db, a);
    let mut filas_h = get_all_hermanos(&db);
    filas_h.sort_by_key(|h| h.id);
    let mut filas_c = get_all_cuotas(&db);
    filas_c.sort_by_key(|c| c.id);
    let otra = init_database(get_all_familias(&db), filas_h, filas_c, secuencias_de(&db));
    let otra = match otra {
        Ok(db) => db,
        Err(e) => panic!("{:?}", e),
    };
    assert_eq!(secuencias_de(&otra), secuencias_de(&db));
    assert_eq!(get_all_hermanos(&otra), get_all_hermanos(&db));
    assert_eq!(get_all_cuotas(&otra), get_all_cuotas(&db));
    assert_eq!(get_all_familias(&otra), get_all_familias(&db));
}

#[test]
fn las_filas_han_de_traer_identificador_en_orden() {
    let dos = || vec![fila_hermano(Some(1), "00001"), fila_hermano(Some(2), "00002")];
    assert!(!rechazada(Vec::new(), dos(), Vec::new(), CEROS));
    assert!(rechazada(Vec::new(), vec![fila_hermano(None, "00001")], Vec::new(), CEROS));
    assert!(rechazada(Vec::new(), vec![fila_hermano(Some(0), "00001")], Vec::new(), CEROS));
    assert!(rechazada(Vec::new(), vec![fila_hermano(Some(-3), "00001")], Vec::new(), CEROS));
    assert!(rechazada(
        Vec::new(),
        vec![fila_hermano(Some(2), "00002"), fila_hermano(Some(1), "00001")],
        Vec::new(),
        CEROS
    ));
    assert!(rechazada(
        Vec::new(),
        vec![fila_hermano(Some(2), "00002"), fila_hermano(Some(2), "00001")],
        Vec::new(),
        CEROS
    ));
    assert!(rechazada(
        vec![fila_familia(Some(3), "Ruiz"), fila_familia(Some(1), "Soto")],
        Vec::new(),
        Vec::new(),
        CEROS
    ));
    assert!(rechazada(
        Vec::new(),
        dos(),
        vec![fila_cuota(Some(3), 1, 2025, 1), fila_cuota(Some(3), 2, 2025, 1)],
        CEROS
    ));
    assert!(rechazada(
        Vec::new(),
        Vec::new(),
        Vec::new(),
        Secuencias { familias: 0, hermanos: -1, cuotas: 0 }
    ));
}

#[test]
fn las_filas_han_de_cumplir_las_reglas() {
    let dos = || vec![fila_hermano(Some(1), "00001"), fila_hermano(Some(2), "00002")];
    assert!(rechazada(
        vec![fila_familia(Some(1), "Ruiz"), fila_familia(Some(2), "Ruiz")],
        Vec::new(),
        Vec::new(),
        CEROS
    ));
    assert!(rechazada(
        Vec::new(),
        vec![fila_hermano(Some(1), "00001"), fila_hermano(Some(2), "00001")],
        Vec::new(),
        CEROS
    ));
    assert!(rechazada(Vec::new(), dos(), vec![fila_cuota(Some(1), 3, 2025, 1)], CEROS));
    assert!(rechazada(Vec::new(), dos(), vec![fila_cuota(Some(1), 1, 2025, 0)], CEROS));
    assert!(rechazada(Vec::new(), dos(), vec![fila_cuota(Some(1), 1, 2025, 5)], CEROS));
    assert!(rechazada(
        Vec::new(),
        dos(),
        vec![fila_cuota(Some(1), 1, 2025, 1), fila_cuota(Some(2), 1, 2025, 1)],
        CEROS
    ));
    assert!(!rechazada(
        Vec::new(),
        dos(),
        vec![fila_cuota(Some(1), 1, 2025, 1), fila_cuota(Some(2), 1, 2025, 2)],
        CEROS
    ));
}

#[test]
fn una_tabla_sin_identificadores_rechaza_las_altas() {
    let llenas = Secuencias { familias: i32::MAX, hermanos: i32::MAX, cuotas: i32::MAX };
    let db = init_database(Vec::new(), vec![fila_hermano(Some(1), "00001")], Vec::new(), llenas);
    let mut db = match db {
        Ok(db) => db,
        Err(e) => panic!("{:?}", e),
    };
    let lleno = DbError::Almacenamiento(Restriccion::SinIdentificadores);
    assert_eq!(create_familia(&mut db, &fila_familia(None, "Ruiz")), Err(lleno));
    assert_eq!(create_hermano(&mut db, &fila_hermano(None, "")), Err(lleno));
    assert_eq!(create_cuota(&mut db, &fila_cuota(None, 1, 2025, 1)), Err(lleno));
    assert_eq!(secuencias_de(&db), llenas);
    assert!(get_all_familias(&db).is_empty());
    assert_eq!(get_all_hermanos(&db).len(), 1);
    assert!(get_all_cuotas(&db).is_empty());
}

#[test]
fn la_generacion_se_hace_entera_o_no_se_hace() {
    let casi = Secuencias { familias: 0, hermanos: 0, cuotas: i32::MAX - 1 };
    let dos = vec![fila_hermano(Some(1), "00001"), fila_hermano(Some(2), "00002")];
    let mut db = match init_database(Vec::new(), dos, Vec::new(), casi) {
        Ok(db) => db,
        Err(e) => panic!("{:?}", e),
    };
    assert_eq!(
        hermanar::cuotas::generar_cuotas_trimestre(&mut db, 2025, 1, 50),
        Err(DbError::Almacenamiento(Restriccion::SinIdentificadores))
    );
    assert!(get_all_cuotas(&db).is_empty());
    assert_eq!(
        secuencias_de(&db),
        Secuencias { familias: 0, hermanos: 2, cuotas: i32::MAX - 1 }
    );
    hermanar::hermanos::set_hermano_inactive(&mut db, 2);
    assert_eq!(hermanar::cuotas::generar_cuotas_trimestre(&mut db, 2025, 1, 50), Ok(1));
    assert_eq!(get_all_cuotas(&db)[0].id, Some(i32::MAX));
    assert_eq!(hermanar::cuotas::generar_cuotas_trimestre(&mut db, 2025, 1, 50), Ok(0));
}
